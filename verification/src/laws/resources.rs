//! Laws of sub-resources: where each comes from, what a request carries, and what its
//! answer comes to.

use vstd::prelude::*;
use vstd::string::*;
use vstd::utf8::*;

use crate::location::UrlParts;
use crate::net;
use crate::net::{
    apply_body, data_resource, encode_form, fetch_data, file_resource, host_key, http_answer,
    http_resource, resource_route, Body, DataUrlFailure, FileAnswer, FormEntry, HostLimits,
    HttpReply, Resource, ResourceRoute, PER_HOST_MAX_CONCURRENT,
};
use crate::pending::{PendingCount, PendingGuard};

verus! {

/// The resource has this URL and these bytes.
pub open spec fn holds(r: Resource, url: Seq<char>, bytes: Seq<u8>) -> bool {
    r.url@ == url && r.bytes@ == bytes
}

/// `data:` holds its bytes itself, `file:` is read locally, and everything else is asked
/// for.
pub proof fn law_sources_go_by_scheme(url: &UrlParts, r: ResourceRoute)
    requires
        call_ensures(resource_route, (url,), r),
    ensures
        r == ResourceRoute::Data <==> url.scheme@ == "data"@,
        r == ResourceRoute::File <==> url.scheme@ == "file"@,
        r == ResourceRoute::Http <==> url.scheme@ != "data"@ && url.scheme@ != "file"@,
{
    reveal_strlit("data");
    reveal_strlit("file");
    assert("data"@[0] == 'd' && "file"@[0] == 'f');
}

/// A data URL is the very bytes that the decoder finds in its text, under its own URL.
pub proof fn law_data_urls_are_what_they_decode_to(url: &UrlParts, r: Result<Resource, String>)
    requires
        call_ensures(fetch_data, (url,), r),
    ensures
        r is Ok <==> net::data_url_refusal(url.text@) is None && net::data_url_body(url.text@) is Ok,
        r matches Ok(x) ==> holds(x, url.text@, net::data_url_body(url.text@)->Ok_0),
        net::data_url_refusal(url.text@) matches Some(e) ==> (r matches Err(t) && t@ == "data url "@
            + url.text@ + ": "@ + e),
        net::data_url_refusal(url.text@) is None ==> (net::data_url_body(url.text@) matches Err(e)
            ==> (r matches Err(t) && t@ == "data url base64 "@ + url.text@ + ": "@ + e)),
{
}

/// What the decoder of data URLs answers is kept.
pub proof fn law_decoded_data_is_kept(
    url: &UrlParts,
    answer: Result<Vec<u8>, DataUrlFailure>,
    r: Result<Resource, String>,
)
    requires
        call_ensures(data_resource, (url, answer), r),
    ensures
        answer matches Ok(b) ==> (r matches Ok(x) && holds(x, url.text@, b@)),
        answer matches Err(DataUrlFailure::Refused(e)) ==> (r matches Err(t) && t@ == "data url "@
            + url.text@ + ": "@ + e@),
        answer matches Err(DataUrlFailure::BadBase64(e)) ==> (r matches Err(t) && t@
            == "data url base64 "@ + url.text@ + ": "@ + e@),
{
}

/// A file is the very bytes that were read, under its own URL.
pub proof fn law_files_are_what_was_read(
    url: &UrlParts,
    answer: FileAnswer,
    r: Result<Resource, String>,
)
    requires
        call_ensures(file_resource, (url, answer), r),
    ensures
        answer matches FileAnswer::Bytes(b) ==> (r matches Ok(x) && holds(x, url.text@, b@)),
        answer is NoPath ==> (r matches Err(t) && t@ == "bad file url: "@ + url.text@),
        answer matches FileAnswer::ReadFailed { path, error } ==> (r matches Err(t) && t@
            == "read "@ + path@ + ": "@ + error@),
{
}

/// An answer is read exactly where its status is one of success, and then counts under the
/// URL that it came from; otherwise the reason says what happened.
pub proof fn law_only_successful_answers_are_read(reply: HttpReply, r: Result<String, String>)
    requires
        call_ensures(http_answer, (reply,), r),
    ensures
        r is Ok <==> (reply matches HttpReply::Answered { status, .. } && 200 <= status <= 299),
        reply matches HttpReply::Answered { status, status_text, url } ==> if 200 <= status <= 299 {
            r->Ok_0@ == url@
        } else {
            r matches Err(t) && t@ == "HTTP "@ + status_text@ + " for "@ + url@
        },
        reply matches HttpReply::PermitFailed(e) ==> (r matches Err(t) && t@
            == "per-host semaphore: "@ + e@),
        reply matches HttpReply::SendFailed(e) ==> (r matches Err(t) && t@ == e@),
{
}

/// The body of an answer is the resource, byte for byte, under the URL that it came from.
pub proof fn law_bodies_are_what_was_received(
    url: String,
    body: Result<Vec<u8>, String>,
    r: Result<Resource, String>,
)
    requires
        call_ensures(http_resource, (url, body), r),
    ensures
        body matches Ok(b) ==> (r matches Ok(x) && holds(x, url@, b@)),
        body matches Err(e) ==> (r matches Err(t) && t@ == "body of "@ + url@ + ": "@ + e@),
{
}

/// Requests are limited by the host of their URL, and by the empty one where it has none.
pub proof fn law_limits_go_by_host(url: &UrlParts, h: String)
    requires
        call_ensures(host_key, (url,), h),
    ensures
        url.host matches Some(x) ==> h@ == x@,
        url.host is None ==> h@.len() == 0,
{
}

/// A host keeps the slot that it was given, a new host is given a new one, and no host
/// that has a slot loses or moves it.
pub proof fn law_hosts_keep_their_slots(limits: &mut HostLimits, host: &str, slot: usize)
    requires
        old(limits).well_formed(),
        call_ensures(HostLimits::slot, (limits, host), slot),
    ensures
        final(limits).well_formed(),
        forall|i: int|
            0 <= i < old(limits)@.len() ==> #[trigger] final(limits)@[i] == old(limits)@[i],
        final(limits)@[slot as int] == host@,
        forall|i: int| 0 <= i < old(limits)@.len() && old(limits)@[i] == host@ ==> slot == i,
        old(limits)@.len() <= final(limits)@.len() <= old(limits)@.len() + 1,
        (forall|i: int| 0 <= i < old(limits)@.len() ==> old(limits)@[i] != host@) ==> slot
            == old(limits)@.len(),
{
    if old(limits)@.contains(host@) {
        let i = choose|i: int| 0 <= i < old(limits)@.len() && old(limits)@[i] == host@;
        assert(final(limits)@[i] == final(limits)@[slot as int]);
    }
}

/// No host has a slot at first, and six requests to one host may be in flight.
pub proof fn law_limits_start_empty(limits: HostLimits)
    requires
        call_ensures(HostLimits::new, (), limits),
    ensures
        limits@.len() == 0,
        PER_HOST_MAX_CONCURRENT == 6,
{
}

/// The value of a hexadecimal digit in upper case.
pub open spec fn hex_value(c: char) -> int {
    if c <= '9' {
        c as int - 0x30
    } else {
        c as int - 0x37
    }
}

/// The bytes that an encoded name or value stands for: `+` is a space, `%` and two
/// hexadecimal digits are a byte, and anything else stands for itself.
pub open spec fn form_decoded(s: Seq<char>) -> Seq<u8>
    decreases s.len(),
{
    if s.len() == 0 {
        Seq::empty()
    } else if s[0] == '+' {
        seq![0x20u8] + form_decoded(s.skip(1))
    } else if s[0] == '%' && s.len() >= 3 {
        seq![(hex_value(s[1]) * 16 + hex_value(s[2])) as u8] + form_decoded(s.skip(3))
    } else {
        seq![s[0] as u8] + form_decoded(s.skip(1))
    }
}

/// Encoding goes byte by byte, in order.
pub proof fn law_forms_are_encoded_byte_by_byte(a: Seq<u8>, b: Seq<u8>)
    ensures
        net::form_encoded(a + b) == net::form_encoded(a) + net::form_encoded(b),
    decreases b.len(),
{
    if b.len() == 0 {
        assert(a + b =~= a);
    } else {
        law_forms_are_encoded_byte_by_byte(a, b.drop_last());
        assert((a + b).drop_last() =~= a + b.drop_last());
        assert(net::form_encoded(a + b) =~= net::form_encoded(a) + net::form_encoded(b));
    }
}

/// Letters, digits and `*-._` stand for themselves, a space becomes `+`, and every other
/// byte becomes `%` with its two hexadecimal digits.
pub proof fn law_form_bytes(b: u8)
    ensures
        ({
            let c = b as char;
            let e = net::form_encoded(seq![b]);
            let plain = '0' <= c <= '9' || 'A' <= c <= 'Z' || 'a' <= c <= 'z' || c == '*' || c
                == '-' || c == '.' || c == '_';
            &&& plain ==> e == seq![c]
            &&& c == ' ' ==> e == seq!['+']
            &&& !plain && c != ' ' ==> e.len() == 3 && e[0] == '%' && hex_value(e[1]) == b / 16
                && hex_value(e[2]) == b % 16
            &&& !plain && c != ' ' ==> ('0' <= e[1] <= '9' || 'A' <= e[1] <= 'F') && ('0' <= e[2]
                <= '9' || 'A' <= e[2] <= 'F')
        }),
{
    assert(seq![b].drop_last() =~= Seq::<u8>::empty());
    assert(net::form_encoded(Seq::<u8>::empty()) =~= Seq::<char>::empty());
    assert(net::form_encoded(seq![b]) =~= net::form_byte(b));
    assert(b / 16 < 16 && b % 16 < 16);
}

/// Nothing is lost in a form: what is encoded decodes to the very bytes.
pub proof fn law_forms_decode_to_what_was_encoded(bytes: Seq<u8>)
    ensures
        form_decoded(net::form_encoded(bytes)) == bytes,
    decreases bytes.len(),
{
    if bytes.len() == 0 {
        assert(net::form_encoded(bytes) =~= Seq::<char>::empty());
    } else {
        let b = bytes[0];
        let rest = bytes.skip(1);
        assert(bytes =~= seq![b] + rest);
        law_forms_are_encoded_byte_by_byte(seq![b], rest);
        law_form_bytes(b);
        law_forms_decode_to_what_was_encoded(rest);
        let first = net::form_encoded(seq![b]);
        let s = net::form_encoded(bytes);
        let tail = net::form_encoded(rest);
        assert(s == first + tail);
        assert(s[0] == first[0]);
        if first.len() == 3 && first[0] == '%' {
            assert(s[1] == first[1] && s[2] == first[2]);
            assert(s.skip(3) =~= tail);
            assert((b / 16) * 16 + b % 16 == b);
        } else {
            assert(s.skip(1) =~= tail);
        }
        assert(form_decoded(s) =~= seq![b] + rest);
    }
}

/// A form is its entries in order, each a name, `=` and a value, with `&` between them.
pub proof fn law_forms_hold_their_entries(
    before: Seq<(Seq<char>, Seq<char>)>,
    entry: (Seq<char>, Seq<char>),
)
    ensures
        net::form_text(before.push(entry)) == net::form_text(before) + (if before.len() == 0 {
            Seq::<char>::empty()
        } else {
            seq!['&']
        }) + (net::form_encoded(encode_utf8(entry.0)) + seq!['='] + net::form_encoded(
            encode_utf8(entry.1),
        )),
        net::form_text(Seq::empty()) == Seq::<char>::empty(),
{
    assert(before.push(entry).drop_last() =~= before);
    if before.len() == 0 {
        assert(net::form_text(before) =~= Seq::<char>::empty());
        assert(net::form_text(before) + Seq::<char>::empty() + net::form_pair(entry)
            =~= net::form_pair(entry));
    }
}

/// An encoded form is the text of its own entries, names and values as they are.
pub proof fn law_forms_are_encoded_as_they_are(form: &Vec<FormEntry>, s: String)
    requires
        call_ensures(encode_form, (form,), s),
    ensures
        exists|entries: Seq<(Seq<char>, Seq<char>)>|
            s@ == #[trigger] net::form_text(entries) && entries.len() == form@.len() && forall|
                i: int,
            |
                0 <= i < form@.len() ==> (#[trigger] entries[i]).0 == form@[i].name@ && entries[i].1
                    == form@[i].value@,
{
    let entries = net::entries_of(form@);
    assert(s@ == net::form_text(entries));
}

/// Bytes are sent as they are, whatever the content type. A form is sent only under the
/// one content type that says so, as the UTF-8 of its encoding. Nothing else is sent.
pub proof fn law_requests_carry_what_they_are_given(
    body: Body,
    content_type: &Option<String>,
    r: Option<Vec<u8>>,
    form: &Vec<FormEntry>,
    s: String,
)
    requires
        call_ensures(apply_body, (body, content_type), r),
        body matches Body::Form(f) ==> *form == f,
        call_ensures(encode_form, (form,), s),
    ensures
        body matches Body::Bytes(b) ==> (r matches Some(v) && v@ == b@),
        body is Form ==> (r is Some <==> (content_type matches Some(t) && t@
            == "application/x-www-form-urlencoded"@)),
        body is Form ==> (r matches Some(v) ==> v@ == encode_utf8(s@)),
        body is Empty ==> r is None,
{
}

/// Nothing is pending at first; a started request makes it so, and its first release, and
/// no other, undoes that.
pub proof fn law_guards_count_once(count: &mut PendingCount, guard: PendingGuard)
    requires
        call_ensures(PendingGuard::new, (count,), guard),
        old(count)@ < usize::MAX,
    ensures
        guard.holds(),
        final(count)@ == old(count)@ + 1,
{
}

/// A guard that counts stops counting when it is released, and one that does not is left
/// alone.
pub proof fn law_release_counts_once(guard: &mut PendingGuard, count: &mut PendingCount)
    requires
        call_ensures(PendingGuard::release, (guard, count), ()),
        old(guard).holds() ==> old(count)@ > 0,
    ensures
        !final(guard).holds(),
        old(guard).holds() ==> final(count)@ == old(count)@ - 1,
        !old(guard).holds() ==> final(count)@ == old(count)@,
{
}

/// Something is pending exactly where the count is not zero, and nothing is at first.
pub proof fn law_pending_is_a_count_above_zero(fresh: PendingCount, count: &PendingCount, r: bool)
    requires
        call_ensures(PendingCount::new, (), fresh),
        call_ensures(PendingCount::has_pending, (count,), r),
    ensures
        fresh@ == 0,
        r <==> count@ != 0,
{
}

} // verus!
