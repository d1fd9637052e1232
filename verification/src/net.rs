//! Sub-resources of a document: where each comes from, how a request is made up,
//! and what its answer comes to.

use vstd::prelude::*;
use vstd::string::*;
use vstd::utf8::*;

use crate::location::UrlParts;
use crate::text;

verus! {

/// Requests in flight to one host at a time, as in real browsers.
pub const PER_HOST_MAX_CONCURRENT: usize = 6;

/// A sub-resource: the URL it was found at in the end, and its bytes.
pub struct Resource {
    pub url: String,
    pub bytes: Vec<u8>,
}

impl View for Resource {
    type V = (Seq<char>, Seq<u8>);

    open spec fn view(&self) -> (Seq<char>, Seq<u8>) {
        (self.url@, self.bytes@)
    }
}

/// The result of a fetch as values.
pub open spec fn resource_of(r: Result<Resource, String>) -> Result<
    (Seq<char>, Seq<u8>),
    Seq<char>,
> {
    match r {
        Ok(x) => Ok(x@),
        Err(e) => Err(e@),
    }
}

/// Where a sub-resource comes from.
#[derive(Clone, Copy, Debug, PartialEq, Eq, Structural)]
pub enum ResourceRoute {
    /// The URL itself holds the bytes.
    Data,
    /// A local file holds them.
    File,
    /// A server has them.
    Http,
}

/// Where a URL of this scheme leads.
pub open spec fn route_of(scheme: Seq<char>) -> ResourceRoute {
    if scheme == "data"@ {
        ResourceRoute::Data
    } else if scheme == "file"@ {
        ResourceRoute::File
    } else {
        ResourceRoute::Http
    }
}

/// Where a sub-resource comes from.
pub fn resource_route(url: &UrlParts) -> (r: ResourceRoute)
    ensures
        r == route_of(url.scheme@),
{
    if text::same_text(url.scheme.as_str(), "data") {
        ResourceRoute::Data
    } else if text::same_text(url.scheme.as_str(), "file") {
        ResourceRoute::File
    } else {
        ResourceRoute::Http
    }
}

/// Text in pieces, put together.
fn joined(a: &str, b: &str, c: &str, d: &str) -> (s: String)
    ensures
        s@ == a@ + b@ + c@ + d@,
{
    let mut s = a.to_owned();
    s.append(b);
    s.append(c);
    s.append(d);
    s
}

/// Why `data_url::DataUrl::process` refuses a URL, in the `{:?}` format; none where
/// it takes it.
pub uninterp spec fn data_url_refusal(url: Seq<char>) -> Option<Seq<char>>;

/// The body that `data_url::DataUrl::decode_to_vec` decodes, or its error in the
/// `{:?}` format.
pub uninterp spec fn data_url_body(url: Seq<char>) -> Result<Seq<u8>, Seq<char>>;

/// Why a data URL has no bytes.
pub enum DataUrlFailure {
    Refused(String),
    BadBase64(String),
}

/// `data_url::DataUrl::process`, and `decode_to_vec` where that succeeds.
#[verifier::external_body]
fn decode_data_url(url: &str) -> (r: Result<Vec<u8>, DataUrlFailure>)
    ensures
        match r {
            Ok(b) => data_url_refusal(url@) is None && data_url_body(url@) == Ok::<_, Seq<char>>(
                b@,
            ),
            Err(DataUrlFailure::Refused(e)) => data_url_refusal(url@) == Some(e@),
            Err(DataUrlFailure::BadBase64(e)) => data_url_refusal(url@) is None && data_url_body(
                url@,
            ) == Err::<Seq<u8>, _>(e@),
        },
{
    let parsed = data_url::DataUrl::process(url);
    let parsed = parsed.map_err(|e| DataUrlFailure::Refused(format!("{:?}", e)))?;
    let decoded = parsed.decode_to_vec();
    let decoded = decoded.map_err(|e| DataUrlFailure::BadBase64(format!("{:?}", e)))?;
    Ok(decoded.0)
}

/// What the decoder's answer comes to.
pub open spec fn data_resource_of(
    url: Seq<char>,
    refusal: Option<Seq<char>>,
    body: Result<Seq<u8>, Seq<char>>,
) -> Result<(Seq<char>, Seq<u8>), Seq<char>> {
    match (refusal, body) {
        (Some(e), _) => Err("data url "@ + url + ": "@ + e),
        (None, Err(e)) => Err("data url base64 "@ + url + ": "@ + e),
        (None, Ok(b)) => Ok((url, b)),
    }
}

/// What the decoder's answer comes to: the resource, or a text that says why there
/// is none.
pub fn data_resource(url: &UrlParts, answer: Result<Vec<u8>, DataUrlFailure>) -> (r: Result<
    Resource,
    String,
>)
    ensures
        resource_of(r) == match answer {
            Ok(b) => data_resource_of(url.text@, None, Ok(b@)),
            Err(DataUrlFailure::Refused(e)) => data_resource_of(
                url.text@,
                Some(e@),
                Ok(Seq::empty()),
            ),
            Err(DataUrlFailure::BadBase64(e)) => data_resource_of(url.text@, None, Err(e@)),
        },
{
    match answer {
        Ok(bytes) => Ok(Resource { url: url.text.clone(), bytes }),
        Err(DataUrlFailure::Refused(e)) => Err(
            joined("data url ", url.text.as_str(), ": ", e.as_str()),
        ),
        Err(DataUrlFailure::BadBase64(e)) => Err(
            joined("data url base64 ", url.text.as_str(), ": ", e.as_str()),
        ),
    }
}

/// Decodes a data URL.
pub fn fetch_data(url: &UrlParts) -> (r: Result<Resource, String>)
    ensures
        resource_of(r) == data_resource_of(
            url.text@,
            data_url_refusal(url.text@),
            data_url_body(url.text@),
        ),
{
    data_resource(url, decode_data_url(url.text.as_str()))
}

/// What came of reading a local file.
pub enum FileAnswer {
    /// The URL names no path.
    NoPath,
    /// The file with this path could not be read.
    ReadFailed { path: String, error: String },
    /// The file holds these bytes.
    Bytes(Vec<u8>),
}

/// The resource that a local file is, or why there is none.
pub open spec fn file_result(url: Seq<char>, answer: FileAnswer) -> Result<
    (Seq<char>, Seq<u8>),
    Seq<char>,
> {
    match answer {
        FileAnswer::NoPath => Err("bad file url: "@ + url),
        FileAnswer::ReadFailed { path, error } => Err("read "@ + path@ + ": "@ + error@),
        FileAnswer::Bytes(b) => Ok((url, b@)),
    }
}

/// Turns what came of reading a local file into the resource.
pub fn file_resource(url: &UrlParts, answer: FileAnswer) -> (r: Result<Resource, String>)
    ensures
        resource_of(r) == file_result(url.text@, answer),
{
    match answer {
        FileAnswer::NoPath => {
            let mut s = "bad file url: ".to_owned();
            s.append(url.text.as_str());
            Err(s)
        },
        FileAnswer::ReadFailed { path, error } => Err(
            joined("read ", path.as_str(), ": ", error.as_str()),
        ),
        FileAnswer::Bytes(bytes) => Ok(Resource { url: url.text.clone(), bytes }),
    }
}

/// Hosts that requests have gone to, each with a slot of its own.
pub struct HostLimits {
    hosts: Vec<String>,
}

impl View for HostLimits {
    type V = Seq<Seq<char>>;

    closed spec fn view(&self) -> Seq<Seq<char>> {
        self.hosts@.map_values(|h: String| h@)
    }
}

impl HostLimits {
    /// No host has two slots.
    pub open spec fn well_formed(&self) -> bool {
        forall|i: int, j: int| 0 <= i < j < self@.len() ==> self@[i] != self@[j]
    }

    /// No host has a slot yet.
    pub fn new() -> (l: HostLimits)
        ensures
            l@.len() == 0,
            l.well_formed(),
    {
        HostLimits { hosts: Vec::new() }
    }

    /// The slot of a host. A host without one is given the next, and every slot
    /// handed out before stays with its host.
    pub fn slot(&mut self, host: &str) -> (slot: usize)
        ensures
            old(self).well_formed() ==> final(self).well_formed(),
            slot < final(self)@.len(),
            final(self)@[slot as int] == host@,
            final(self)@ == if old(self)@.contains(host@) {
                old(self)@
            } else {
                old(self)@.push(host@)
            },
    {
        let mut i: usize = 0;
        while i < self.hosts.len()
            invariant
                i <= self.hosts.len(),
                *self == *old(self),
                forall|j: int| 0 <= j < i ==> self@[j] != host@,
            decreases self.hosts.len() - i,
        {
            assert(self@[i as int] == self.hosts@[i as int]@);
            if text::same_text(self.hosts[i].as_str(), host) {
                return i;
            }
            i = i + 1;
        }
        assert(!old(self)@.contains(host@));
        self.hosts.push(host.to_owned());
        assert(self@ =~= old(self)@.push(host@));
        i
    }
}

/// The host that a URL's requests are limited by: the empty one where it has none.
pub open spec fn host_of(url: UrlParts) -> Seq<char> {
    match url.host {
        Some(h) => h@,
        None => Seq::empty(),
    }
}

/// The host that a URL's requests are limited by.
pub fn host_key(url: &UrlParts) -> (h: String)
    ensures
        h@ == host_of(*url),
{
    match &url.host {
        Some(h) => h.clone(),
        None => String::new(),
    }
}

/// One name and value of a submitted form.
pub struct FormEntry {
    pub name: String,
    pub value: String,
}

impl View for FormEntry {
    type V = (Seq<char>, Seq<char>);

    open spec fn view(&self) -> (Seq<char>, Seq<char>) {
        (self.name@, self.value@)
    }
}

/// What a request carries.
pub enum Body {
    Bytes(Vec<u8>),
    Form(Vec<FormEntry>),
    Empty,
}

/// Bytes that stand for themselves in a form: letters, digits and `*-._`.
pub open spec fn form_plain(b: u8) -> bool {
    ||| 0x30 <= b <= 0x39
    ||| 0x41 <= b <= 0x5A
    ||| 0x61 <= b <= 0x7A
    ||| b == 0x2A
    ||| b == 0x2D
    ||| b == 0x2E
    ||| b == 0x5F
}

/// A hexadecimal digit, upper case.
pub open spec fn hex_digit(d: u8) -> char {
    if d < 10 {
        (0x30 + d) as char
    } else {
        (0x37 + d) as char
    }
}

/// One byte of a form: itself, `+` for a space, or percent and two digits.
pub open spec fn form_byte(b: u8) -> Seq<char> {
    if form_plain(b) {
        seq![b as char]
    } else if b == 0x20 {
        seq!['+']
    } else {
        seq!['%', hex_digit(b / 16), hex_digit(b % 16)]
    }
}

/// The bytes of a name or a value in a form.
pub open spec fn form_encoded(bytes: Seq<u8>) -> Seq<char>
    decreases bytes.len(),
{
    if bytes.len() == 0 {
        Seq::empty()
    } else {
        form_encoded(bytes.drop_last()) + form_byte(bytes.last())
    }
}

/// One entry of a form.
pub open spec fn form_pair(entry: (Seq<char>, Seq<char>)) -> Seq<char> {
    form_encoded(encode_utf8(entry.0)) + seq!['='] + form_encoded(encode_utf8(entry.1))
}

/// A form: its entries in order, with `&` between them.
pub open spec fn form_text(entries: Seq<(Seq<char>, Seq<char>)>) -> Seq<char>
    decreases entries.len(),
{
    if entries.len() == 0 {
        Seq::empty()
    } else if entries.len() == 1 {
        form_pair(entries[0])
    } else {
        form_text(entries.drop_last()) + seq!['&'] + form_pair(entries.last())
    }
}

/// `url::form_urlencoded::Serializer` over a string that holds the entries so far:
/// `append_pair`, then `finish`. It separates the entry from what is there with `&`.
#[verifier::external_body]
fn append_pair(encoded: String, name: &str, value: &str) -> (r: String)
    ensures
        r@ == encoded@ + if encoded@.len() == 0 {
            Seq::empty()
        } else {
            seq!['&']
        } + form_pair((name@, value@)),
{
    let mut serializer = url::form_urlencoded::Serializer::new(encoded);
    serializer.append_pair(name, value);
    serializer.finish()
}

/// The entries of a form as values.
pub open spec fn entries_of(form: Seq<FormEntry>) -> Seq<(Seq<char>, Seq<char>)> {
    form.map_values(|e: FormEntry| e@)
}

/// Encodes a form.
pub fn encode_form(form: &Vec<FormEntry>) -> (s: String)
    ensures
        s@ == form_text(entries_of(form@)),
{
    let mut s = String::new();
    let mut i: usize = 0;
    let ghost all = entries_of(form@);
    assert(all.take(0) =~= Seq::empty());
    while i < form.len()
        invariant
            i <= form.len(),
            all == entries_of(form@),
            s@ == form_text(all.take(i as int)),
            s@.len() == 0 <==> i == 0,
        decreases form.len() - i,
    {
        proof {
            assert(all.take(i + 1).drop_last() =~= all.take(i as int));
            assert(all.take(i + 1).last() == form@[i as int]@);
            assert(Seq::<char>::empty() + form_pair(form@[i as int]@) =~= form_pair(
                form@[i as int]@,
            ));
        }
        let ghost before = s@;
        s = append_pair(s, form[i].name.as_str(), form[i].value.as_str());
        i = i + 1;
        proof {
            if i == 1 {
                assert(s@ =~= form_pair(all.take(1)[0]));
            } else {
                assert(s@ =~= before + seq!['&'] + form_pair(all.take(i as int).last()));
            }
        }
    }
    assert(all.take(i as int) =~= all);
    s
}

/// The bytes that a request carries. A form is encoded only for the content type
/// that says so; any other form is not sent.
pub open spec fn body_bytes(body: Body, content_type: Option<Seq<char>>) -> Option<Seq<u8>> {
    match body {
        Body::Bytes(b) => Some(b@),
        Body::Form(form) => if content_type == Some("application/x-www-form-urlencoded"@) {
            Some(encode_utf8(form_text(entries_of(form@))))
        } else {
            None
        },
        Body::Empty => None,
    }
}

/// The text of an optional string.
pub open spec fn string_of(s: Option<String>) -> Option<Seq<char>> {
    match s {
        Some(t) => Some(t@),
        None => None,
    }
}

/// The bytes that a request carries.
pub fn apply_body(body: Body, content_type: &Option<String>) -> (r: Option<Vec<u8>>)
    ensures
        crate::image::bytes_of(r) == body_bytes(body, string_of(*content_type)),
{
    match body {
        Body::Bytes(b) => Some(b),
        Body::Form(form) => {
            let urlencoded = match content_type {
                Some(t) => text::same_text(t.as_str(), "application/x-www-form-urlencoded"),
                None => false,
            };
            if urlencoded {
                let s = encode_form(&form);
                Some(s.as_str().as_bytes_vec())
            } else {
                None
            }
        },
        Body::Empty => None,
    }
}

/// What came of a request to a server.
pub enum HttpReply {
    /// The limit of requests to the host could not be waited for.
    PermitFailed(String),
    /// The request could not be sent, or was not answered.
    SendFailed(String),
    /// The answer has this status.
    Answered { status: u16, status_text: String, url: String },
}

/// Statuses of success.
pub open spec fn is_success(status: u16) -> bool {
    200 <= status < 300
}

/// Where an answer whose body is read came from; otherwise why there is no resource.
pub open spec fn answer_of(reply: HttpReply) -> Result<Seq<char>, Seq<char>> {
    match reply {
        HttpReply::PermitFailed(e) => Err("per-host semaphore: "@ + e@),
        HttpReply::SendFailed(e) => Err(e@),
        HttpReply::Answered { status, status_text, url } => if is_success(status) {
            Ok(url@)
        } else {
            Err("HTTP "@ + status_text@ + " for "@ + url@)
        },
    }
}

/// Where an answer whose body is read came from. The body is read only where the
/// status is one of success.
pub fn http_answer(reply: HttpReply) -> (r: Result<String, String>)
    ensures
        match r {
            Ok(u) => answer_of(reply) == Ok::<_, Seq<char>>(u@),
            Err(t) => answer_of(reply) == Err::<Seq<char>, Seq<char>>(t@),
        },
{
    match reply {
        HttpReply::PermitFailed(e) => {
            let mut s = "per-host semaphore: ".to_owned();
            s.append(e.as_str());
            Err(s)
        },
        HttpReply::SendFailed(e) => Err(e),
        HttpReply::Answered { status, status_text, url } => {
            if 200 <= status && status < 300 {
                Ok(url)
            } else {
                Err(joined("HTTP ", status_text.as_str(), " for ", url.as_str()))
            }
        },
    }
}

/// The resource that the body of an answer is, or why there is none.
pub open spec fn http_result(url: Seq<char>, body: Result<Vec<u8>, String>) -> Result<
    (Seq<char>, Seq<u8>),
    Seq<char>,
> {
    match body {
        Ok(b) => Ok((url, b@)),
        Err(e) => Err("body of "@ + url + ": "@ + e@),
    }
}

/// Turns the body of an answer into the resource.
pub fn http_resource(url: String, body: Result<Vec<u8>, String>) -> (r: Result<Resource, String>)
    ensures
        resource_of(r) == http_result(url@, body),
{
    match body {
        Ok(bytes) => Ok(Resource { url, bytes }),
        Err(e) => Err(joined("body of ", url.as_str(), ": ", e.as_str())),
    }
}

/// Names and values cannot be confused with what separates them: an encoded name or
/// value holds neither `&` nor `=`, and nothing beyond ASCII.
pub proof fn law_form_fields_stay_apart(bytes: Seq<u8>, i: int)
    requires
        0 <= i < form_encoded(bytes).len(),
    ensures
        form_encoded(bytes)[i] != '&',
        form_encoded(bytes)[i] != '=',
        (form_encoded(bytes)[i] as u32) < 0x80,
    decreases bytes.len(),
{
    let rest = form_encoded(bytes.drop_last());
    let b = bytes.last();
    if i < rest.len() {
        law_form_fields_stay_apart(bytes.drop_last(), i);
    } else {
        let c = form_byte(b)[i - rest.len()];
        assert(form_encoded(bytes)[i] == c);
        if form_plain(b) {
            assert(c == b as char);
        } else if b == 0x20 {
        } else {
            assert(b / 16 < 16 && b % 16 < 16);
        }
    }
}

/// Two hosts share a slot only where they are the same host, and one host never has
/// two slots.
pub proof fn law_one_slot_per_host(limits: HostLimits, i: int, j: int)
    requires
        limits.well_formed(),
        0 <= i < limits@.len(),
        0 <= j < limits@.len(),
    ensures
        limits@[i] == limits@[j] <==> i == j,
{
}

} // verus!
