use blitz::location::{canonical_url, UrlParts};
use blitz::net::{
    apply_body, data_resource, encode_form, fetch_data, file_resource, host_key, http_answer,
    http_resource, resource_route, Body, DataUrlFailure, FileAnswer, FormEntry, HostLimits,
    HttpReply, Resource, ResourceRoute, PER_HOST_MAX_CONCURRENT,
};
use blitz::pending::{PendingCount, PendingGuard};
use blitz::status::Failure;
use blitz::transfer::{ResourceRequest, Transfer, TransferAction, TransferEvent};
use blitz::BLITZ_ERR_INVALID_URL;

const URLENCODED: &str = "application/x-www-form-urlencoded";

fn url(s: &str) -> UrlParts {
    canonical_url(s).unwrap()
}

fn form(entries: &[(&str, &str)]) -> Vec<FormEntry> {
    entries.iter().map(|(n, v)| FormEntry { name: n.to_string(), value: v.to_string() }).collect()
}

fn pair(r: Result<Resource, String>) -> Result<(String, Vec<u8>), String> {
    r.map(|x| (x.url, x.bytes))
}

fn request(u: &str) -> ResourceRequest {
    ResourceRequest { url: url(u), content_type: None, body: Body::Empty }
}

fn given_up(action: TransferAction) -> String {
    match action {
        TransferAction::GiveUp(reason) => reason,
        _ => panic!("did not give up"),
    }
}

fn delivered(action: TransferAction) -> (String, Vec<u8>) {
    match action {
        TransferAction::Deliver(r) => (r.url, r.bytes),
        _ => panic!("nothing to deliver"),
    }
}

#[test]
fn schemes_lead_to_their_sources() {
    assert_eq!(resource_route(&url("data:,x")), ResourceRoute::Data);
    assert_eq!(resource_route(&url("file:///x")), ResourceRoute::File);
    for other in ["https://x/", "http://x/", "ftp://x/", "blob:x"] {
        assert_eq!(resource_route(&url(other)), ResourceRoute::Http);
    }
}

#[test]
fn data_urls_hold_their_bytes() {
    let fetched = |u: &str| pair(fetch_data(&url(u)));
    assert_eq!(
        fetched("data:text/plain,a%20b"),
        Ok(("data:text/plain,a%20b".to_string(), b"a b".to_vec()))
    );
    assert_eq!(
        fetched("data:;base64,SGk="),
        Ok(("data:;base64,SGk=".to_string(), b"Hi".to_vec()))
    );
    assert_eq!(fetched("data:nothing"), Err("data url data:nothing: NoComma".to_string()));
    assert_eq!(
        fetched("https://x/"),
        Err("data url https://x/: NotADataUrl".to_string())
    );
    let broken = fetched("data:;base64,S").unwrap_err();
    assert!(broken.starts_with("data url base64 data:;base64,S: "));
}

#[test]
fn decoder_answers_become_resources() {
    let u = url("data:,x");
    assert_eq!(pair(data_resource(&u, Ok(vec![1]))), Ok(("data:,x".to_string(), vec![1])));
    assert_eq!(
        pair(data_resource(&u, Err(DataUrlFailure::Refused("R".to_string())))),
        Err("data url data:,x: R".to_string())
    );
    assert_eq!(
        pair(data_resource(&u, Err(DataUrlFailure::BadBase64("B".to_string())))),
        Err("data url base64 data:,x: B".to_string())
    );
}

#[test]
fn file_answers_become_resources() {
    let u = url("file:///x");
    assert_eq!(
        pair(file_resource(&u, FileAnswer::NoPath)),
        Err("bad file url: file:///x".to_string())
    );
    let failed = FileAnswer::ReadFailed { path: "/x".to_string(), error: "gone".to_string() };
    assert_eq!(pair(file_resource(&u, failed)), Err("read /x: gone".to_string()));
    assert_eq!(
        pair(file_resource(&u, FileAnswer::Bytes(vec![4, 5]))),
        Ok(("file:///x".to_string(), vec![4, 5]))
    );
}

#[test]
fn forms_are_urlencoded() {
    assert_eq!(
        encode_form(&form(&[("foo", "bar & baz"), ("saison", "\u{c9}t\u{e9}+hiver")])),
        "foo=bar+%26+baz&saison=%C3%89t%C3%A9%2Bhiver"
    );
    assert_eq!(encode_form(&form(&[])), "");
    assert_eq!(encode_form(&form(&[("", "")])), "=");
    assert_eq!(encode_form(&form(&[("", ""), ("", "")])), "=&=");
    assert_eq!(encode_form(&form(&[("a=b", "c&d"), ("*-._", "~")])), "a%3Db=c%26d&*-._=%7E");
    let all: String = (0u8..128).map(|b| b as char).collect();
    let mut expected = url::form_urlencoded::Serializer::new(String::new());
    expected.append_pair(&all, &all);
    expected.append_pair("k", "v");
    assert_eq!(encode_form(&form(&[(&all, &all), ("k", "v")])), expected.finish());
}

#[test]
fn bodies_depend_on_the_content_type() {
    let urlencoded = Some(URLENCODED.to_string());
    let other = Some("multipart/form-data".to_string());
    let body = || Body::Form(form(&[("k", "v w")]));
    assert_eq!(apply_body(body(), &urlencoded), Some(b"k=v+w".to_vec()));
    assert_eq!(apply_body(body(), &other), None);
    assert_eq!(apply_body(body(), &None), None);
    assert_eq!(apply_body(Body::Bytes(vec![1, 0]), &None), Some(vec![1, 0]));
    assert_eq!(apply_body(Body::Bytes(vec![]), &urlencoded), Some(vec![]));
    assert_eq!(apply_body(Body::Empty, &urlencoded), None);
}

#[test]
fn each_host_has_one_slot() {
    assert_eq!(PER_HOST_MAX_CONCURRENT, 6);
    let mut limits = HostLimits::new();
    assert_eq!(limits.slot("a"), 0);
    assert_eq!(limits.slot("b"), 1);
    assert_eq!(limits.slot("a"), 0);
    assert_eq!(limits.slot(""), 2);
    assert_eq!(limits.slot("b"), 1);
    assert_eq!(host_key(&url("https://h:81/x")), "h");
    assert_eq!(host_key(&url("data:,x")), "");
}

#[test]
fn http_answers_are_judged_by_status() {
    let answered = |status| {
        http_answer(HttpReply::Answered {
            status,
            status_text: format!("{} T", status),
            url: "u".to_string(),
        })
    };
    for ok in [200, 204, 299] {
        assert_eq!(answered(ok), Ok("u".to_string()));
    }
    for bad in [100, 199, 300, 404, 500] {
        assert_eq!(answered(bad), Err(format!("HTTP {} T for u", bad)));
    }
    assert_eq!(
        http_answer(HttpReply::PermitFailed("closed".to_string())),
        Err("per-host semaphore: closed".to_string())
    );
    assert_eq!(http_answer(HttpReply::SendFailed("s".to_string())), Err("s".to_string()));
    assert_eq!(
        pair(http_resource("u".to_string(), Ok(vec![3]))),
        Ok(("u".to_string(), vec![3]))
    );
    assert_eq!(
        pair(http_resource("u".to_string(), Err("cut".to_string()))),
        Err("body of u: cut".to_string())
    );
}

#[test]
fn releases_balance_starts() {
    let mut count = PendingCount::new();
    assert!(!count.has_pending());
    let mut a = PendingGuard::new(&mut count);
    let mut b = PendingGuard::new(&mut count);
    a.release(&mut count);
    a.release(&mut count);
    assert!(count.has_pending());
    b.release(&mut count);
    assert!(!count.has_pending());
    b.release(&mut count);
    assert!(!count.has_pending());
}

fn begun(u: &str, count: &mut PendingCount) -> (Transfer, TransferAction) {
    let mut t = Transfer::start(request(u), count);
    assert!(count.has_pending());
    assert!(t.is_expected(&TransferEvent::Begun));
    let action = t.step(TransferEvent::Begun, count);
    (t, action)
}

#[test]
fn every_request_can_be_called_off_before_it_is_begun() {
    for u in ["data:,hi", "data:nothing", "file:///tmp/a.css", "file://server/x", "http://h/"] {
        let mut count = PendingCount::new();
        let mut t = Transfer::start(request(u), &mut count);
        assert!(count.has_pending());
        assert!(t.is_expected(&TransferEvent::Aborted));
        assert_eq!(given_up(t.step(TransferEvent::Aborted, &mut count)), "aborted");
        assert!(!count.has_pending());
        for late in [TransferEvent::Begun, TransferEvent::Delivered, TransferEvent::Aborted] {
            assert!(!t.is_expected(&late));
        }
    }
}

#[test]
fn a_data_url_is_delivered_at_once_and_pending_until_then() {
    let mut count = PendingCount::new();
    let (mut t, action) = begun("data:,hi", &mut count);
    assert_eq!(delivered(action), ("data:,hi".to_string(), b"hi".to_vec()));
    assert!(count.has_pending());
    assert!(!t.is_expected(&TransferEvent::Aborted));
    assert!(t.is_expected(&TransferEvent::Delivered));
    assert!(matches!(t.step(TransferEvent::Delivered, &mut count), TransferAction::Done));
    assert!(!count.has_pending());
    t.abandon(&mut count);
    assert!(!count.has_pending());

    let (_, action) = begun("data:nothing", &mut count);
    assert_eq!(given_up(action), "data url data:nothing: NoComma");
    assert!(!count.has_pending());
}

#[test]
fn a_file_transfer_follows_the_path() {
    let mut count = PendingCount::new();
    let mut t = Transfer::start(request("file:///x"), &mut count);
    match t.read_or_give_up(Ok(std::path::PathBuf::from("/named")), &mut count) {
        TransferAction::ReadFile(path) => assert_eq!(path, std::path::PathBuf::from("/named")),
        _ => panic!("no file is read"),
    }
    assert!(count.has_pending());
    let read = TransferEvent::FileRead(FileAnswer::Bytes(vec![]));
    assert!(t.is_expected(&read));
    assert!(t.is_expected(&TransferEvent::Aborted));
    t.abandon(&mut count);

    let mut t = Transfer::start(request("file:///x"), &mut count);
    let none = Err(Failure::new(BLITZ_ERR_INVALID_URL, "any"));
    assert_eq!(given_up(t.read_or_give_up(none, &mut count)), "bad file url: file:///x");
    assert!(!count.has_pending());
}

#[test]
fn pending_exactly_while_some_transfer_is_not_over() {
    let mut count = PendingCount::new();
    let mut a = Transfer::start(request("data:,a"), &mut count);
    let mut b = Transfer::start(request("http://h/"), &mut count);
    a.step(TransferEvent::Begun, &mut count);
    a.step(TransferEvent::Delivered, &mut count);
    assert!(count.has_pending());
    let mut c = Transfer::start(request("file:///c"), &mut count);
    b.step(TransferEvent::Begun, &mut count);
    b.abandon(&mut count);
    b.abandon(&mut count);
    assert!(count.has_pending());
    c.step(TransferEvent::Aborted, &mut count);
    assert!(!count.has_pending());
}

#[test]
fn a_file_is_read_and_delivered() {
    let mut count = PendingCount::new();
    let (mut t, action) = begun("file:///tmp/a.css", &mut count);
    match action {
        TransferAction::ReadFile(path) => assert_eq!(path, std::path::PathBuf::from("/tmp/a.css")),
        _ => panic!("no file is read"),
    }
    let read = TransferEvent::FileRead(FileAnswer::Bytes(vec![1]));
    assert!(t.is_expected(&read) && !t.is_expected(&TransferEvent::Turn));
    assert_eq!(delivered(t.step(read, &mut count)), ("file:///tmp/a.css".to_string(), vec![1]));
    assert!(count.has_pending());
    t.step(TransferEvent::Delivered, &mut count);
    assert!(!count.has_pending());

    let (_, action) = begun("file://server/share", &mut count);
    assert_eq!(given_up(action), "bad file url: file://server/share");
    assert!(!count.has_pending());

    let (mut t, _) = begun("file:///x", &mut count);
    let failed = FileAnswer::ReadFailed { path: "/x".to_string(), error: "gone".to_string() };
    assert_eq!(given_up(t.step(TransferEvent::FileRead(failed), &mut count)), "read /x: gone");
    assert!(!count.has_pending());
}

#[test]
fn an_http_transfer_goes_through_its_stages() {
    let mut count = PendingCount::new();
    let post = ResourceRequest {
        url: url("https://h/form"),
        content_type: Some(URLENCODED.to_string()),
        body: Body::Form(form(&[("k", "v")])),
    };
    let mut t = Transfer::start(post, &mut count);
    match t.step(TransferEvent::Begun, &mut count) {
        TransferAction::Queue { host } => assert_eq!(host, "h"),
        _ => panic!("not queued"),
    }
    match t.step(TransferEvent::Turn, &mut count) {
        TransferAction::Send { content_type, body } => {
            assert_eq!(content_type.as_deref(), Some(URLENCODED));
            assert_eq!(body, Some(b"k=v".to_vec()));
        }
        _ => panic!("not sent"),
    }
    let answer = TransferEvent::Http(HttpReply::Answered {
        status: 200,
        status_text: "200 OK".to_string(),
        url: "https://h/moved".to_string(),
    });
    assert!(t.is_expected(&answer));
    assert!(matches!(t.step(answer, &mut count), TransferAction::Receive));
    let body = TransferEvent::BodyRead(Ok(vec![8]));
    assert_eq!(delivered(t.step(body, &mut count)), ("https://h/moved".to_string(), vec![8]));
    assert!(count.has_pending());
    assert!(matches!(t.step(TransferEvent::Delivered, &mut count), TransferAction::Done));
    assert!(!count.has_pending());
    assert!(!t.is_expected(&TransferEvent::Delivered));
}

#[test]
fn failing_transfers_stop_counting() {
    let mut count = PendingCount::new();
    let queued = |count: &mut PendingCount| begun("http://h/", count).0;

    let mut t = queued(&mut count);
    let closed = TransferEvent::Http(HttpReply::PermitFailed("closed".to_string()));
    assert!(t.is_expected(&closed));
    assert_eq!(given_up(t.step(closed, &mut count)), "per-host semaphore: closed");
    assert!(!count.has_pending());

    let mut t = queued(&mut count);
    t.step(TransferEvent::Turn, &mut count);
    let missing = TransferEvent::Http(HttpReply::Answered {
        status: 404,
        status_text: "404 Not Found".to_string(),
        url: "http://h/".to_string(),
    });
    assert_eq!(given_up(t.step(missing, &mut count)), "HTTP 404 Not Found for http://h/");
    assert!(!count.has_pending());

    let mut t = queued(&mut count);
    t.step(TransferEvent::Turn, &mut count);
    let refused = TransferEvent::Http(HttpReply::SendFailed("refused".to_string()));
    assert_eq!(given_up(t.step(refused, &mut count)), "refused");
    assert!(!count.has_pending());

    let mut t = queued(&mut count);
    assert!(t.is_expected(&TransferEvent::Aborted));
    assert_eq!(given_up(t.step(TransferEvent::Aborted, &mut count)), "aborted");
    assert!(!count.has_pending());

    let mut t = queued(&mut count);
    assert!(count.has_pending());
    t.abandon(&mut count);
    assert!(!count.has_pending());
}

#[test]
fn places_at_a_host_are_taken_by_turns_and_given_back() {
    let mut count = PendingCount::new();
    let answered = || {
        TransferEvent::Http(HttpReply::Answered {
            status: 200,
            status_text: "200 OK".to_string(),
            url: "http://h/".to_string(),
        })
    };
    let holds_place = |t: &Transfer| {
        t.is_expected(&answered()) || t.is_expected(&TransferEvent::BodyRead(Ok(vec![])))
    };
    let mut transfers: Vec<Transfer> = Vec::new();
    for _ in 0..8 {
        transfers.push(begun("http://h/", &mut count).0);
    }
    let mut other = begun("http://other/", &mut count).0;
    let places = |ts: &[Transfer]| ts.iter().filter(|t| holds_place(t)).count();
    assert_eq!(places(&transfers), 0);
    for i in 0..PER_HOST_MAX_CONCURRENT {
        transfers[i].step(TransferEvent::Turn, &mut count);
    }
    assert_eq!(places(&transfers), 6);
    other.step(TransferEvent::Turn, &mut count);
    assert_eq!(places(&transfers), 6);
    assert!(holds_place(&other));

    transfers[0].step(answered(), &mut count);
    assert_eq!(places(&transfers), 6);
    transfers[0].step(TransferEvent::BodyRead(Ok(vec![1])), &mut count);
    assert_eq!(places(&transfers), 5);
    transfers[6].step(TransferEvent::Turn, &mut count);
    assert_eq!(places(&transfers), 6);
    transfers[1].step(TransferEvent::Aborted, &mut count);
    transfers[2].abandon(&mut count);
    transfers[3].step(TransferEvent::Http(HttpReply::SendFailed("s".to_string())), &mut count);
    assert_eq!(places(&transfers), 3);
    assert!(holds_place(&other));
}
