//! Laws of a transfer: what its steps ask for and hand over.

use vstd::prelude::*;
use vstd::string::*;

use crate::laws::resources;
use crate::location;
use crate::net;
use crate::net::{apply_body, FileAnswer, HttpReply};
use crate::pending::PendingCount;
use crate::status::Failure;
use crate::transfer::{
    ResourceRequest, Transfer, TransferAction, TransferEvent, TransferPhase,
};

verus! {

/// The transfer gave up, for this reason, and stopped counting.
pub open spec fn gave_up(
    transfer: Transfer,
    action: TransferAction,
    reason: Seq<char>,
) -> bool {
    &&& action matches TransferAction::GiveUp(t) && t@ == reason
    &&& transfer.phase() == TransferPhase::Over
    &&& !transfer.counts()
}

/// The transfer hands over these bytes under this URL, and still counts.
pub open spec fn hands_over(
    transfer: Transfer,
    action: TransferAction,
    url: Seq<char>,
    bytes: Seq<u8>,
) -> bool {
    &&& action matches TransferAction::Deliver(r) && resources::holds(r, url, bytes)
    &&& transfer.phase() == TransferPhase::Delivering
    &&& transfer.counts()
}

/// A transfer starts out with the URL, the content type and the body of its request, and
/// counts as pending at once.
pub proof fn law_transfers_start_with_their_request(
    request: ResourceRequest,
    count: &mut PendingCount,
    transfer: Transfer,
    body: Option<Vec<u8>>,
)
    requires
        call_ensures(Transfer::start, (request, count), transfer),
        call_ensures(apply_body, (request.body, &request.content_type), body),
        old(count)@ < usize::MAX,
    ensures
        transfer.phase() == TransferPhase::Spawned,
        transfer.counts(),
        transfer.url() == request.url,
        transfer.content_type() is Some <==> request.content_type is Some,
        request.content_type matches Some(t) ==> transfer.content_type() == Some(t@),
        transfer.body() is Some <==> body is Some,
        body matches Some(b) ==> transfer.body() == Some(b@),
        final(count)@ == old(count)@ + 1,
{
}

/// A data URL that decodes is handed over at once, with the very bytes that it decodes to;
/// one that does not is given up.
pub proof fn law_data_urls_are_handed_over(
    transfer: &mut Transfer,
    count: &mut PendingCount,
    action: TransferAction,
)
    requires
        old(transfer).url().scheme@ == "data"@,
        call_ensures(Transfer::step, (transfer, TransferEvent::Begun, count), action),
    ensures
        ({
            let text = old(transfer).url().text@;
            &&& net::data_url_refusal(text) is None && net::data_url_body(text) is Ok ==> hands_over(
                *final(transfer),
                action,
                text,
                net::data_url_body(text)->Ok_0,
            )
            &&& net::data_url_refusal(text) is Some ==> gave_up(
                *final(transfer),
                action,
                "data url "@ + text + ": "@ + net::data_url_refusal(text)->0,
            )
            &&& net::data_url_refusal(text) is None && net::data_url_body(text) is Err ==> gave_up(
                *final(transfer),
                action,
                "data url base64 "@ + text + ": "@ + net::data_url_body(text)->Err_0,
            )
        }),
{
}

/// Whatever is neither `data:` nor `file:` waits for its turn at its own host, with its
/// content type and body as they were.
pub proof fn law_requests_wait_at_their_host(
    transfer: &mut Transfer,
    count: &mut PendingCount,
    action: TransferAction,
)
    requires
        old(transfer).url().scheme@ != "data"@,
        old(transfer).url().scheme@ != "file"@,
        call_ensures(Transfer::step, (transfer, TransferEvent::Begun, count), action),
    ensures
        action matches TransferAction::Queue { host } && (old(transfer).url().host matches Some(h)
            ==> host@ == h@) && (old(transfer).url().host is None ==> host@.len() == 0),
        final(transfer).phase() == TransferPhase::Queued,
        final(transfer).url() == old(transfer).url(),
        final(transfer).content_type() == old(transfer).content_type(),
        final(transfer).body() == old(transfer).body(),
        final(count)@ == old(count)@,
{
}

/// A `file:` URL leads to reading a path that the system may name for it, and is given up
/// only where the system may name none.
pub proof fn law_files_are_read_where_the_system_says(
    transfer: &mut Transfer,
    count: &mut PendingCount,
    action: TransferAction,
)
    requires
        old(transfer).url().scheme@ == "file"@,
        call_ensures(Transfer::step, (transfer, TransferEvent::Begun, count), action),
    ensures
        action is ReadFile || action is GiveUp,
        action matches TransferAction::ReadFile(p) ==> location::may_name(
            old(transfer).url().text@,
            Some(p),
        ) && final(transfer).phase() == TransferPhase::Reading && final(count)@ == old(count)@,
        action is GiveUp ==> location::may_name(old(transfer).url().text@, None) && gave_up(
            *final(transfer),
            action,
            "bad file url: "@ + old(transfer).url().text@,
        ),
{
    reveal_strlit("data");
    reveal_strlit("file");
    assert("data"@[0] == 'd' && "file"@[0] == 'f');
    let path = choose|path: Result<std::path::PathBuf, Failure>|
        {
            &&& location::may_name(old(transfer).url().text@, location::path_of(path))
            &&& location::url_parse(old(transfer).url().text@) is Err ==> path is Err
            &&& #[trigger] Transfer::follows_path(
                old(count)@,
                final(count)@,
                *final(transfer),
                action,
                path,
            )
        };
    assert(Transfer::follows_path(old(count)@, final(count)@, *final(transfer), action, path));
}

/// The path that came back is the one that is read; without one the transfer gives up.
pub proof fn law_the_named_path_is_read(
    transfer: &mut Transfer,
    path: Result<std::path::PathBuf, Failure>,
    count: &mut PendingCount,
    action: TransferAction,
)
    requires
        call_ensures(Transfer::read_or_give_up, (transfer, path, count), action),
    ensures
        path matches Ok(p) ==> action == TransferAction::ReadFile(p) && final(transfer).phase()
            == TransferPhase::Reading && final(count)@ == old(count)@,
        path is Err ==> gave_up(
            *final(transfer),
            action,
            "bad file url: "@ + old(transfer).url().text@,
        ),
        final(transfer).url() == old(transfer).url(),
{
}

/// A file that was read is handed over byte for byte under its own URL.
pub proof fn law_read_files_are_handed_over(
    transfer: &mut Transfer,
    answer: FileAnswer,
    count: &mut PendingCount,
    action: TransferAction,
)
    requires
        call_ensures(Transfer::step, (transfer, TransferEvent::FileRead(answer), count), action),
    ensures
        answer matches FileAnswer::Bytes(b) ==> hands_over(
            *final(transfer),
            action,
            old(transfer).url().text@,
            b@,
        ),
        answer is NoPath ==> gave_up(
            *final(transfer),
            action,
            "bad file url: "@ + old(transfer).url().text@,
        ),
        answer matches FileAnswer::ReadFailed { path, error } ==> gave_up(
            *final(transfer),
            action,
            "read "@ + path@ + ": "@ + error@,
        ),
{
}

/// When its turn has come, a request is sent with its own content type and body.
pub proof fn law_requests_are_sent_as_they_are(
    transfer: &mut Transfer,
    count: &mut PendingCount,
    action: TransferAction,
)
    requires
        call_ensures(Transfer::step, (transfer, TransferEvent::Turn, count), action),
    ensures
        action is Send,
        action matches TransferAction::Send { content_type, body } ==> {
            &&& content_type is Some <==> old(transfer).content_type() is Some
            &&& content_type matches Some(t) ==> old(transfer).content_type() == Some(t@)
            &&& body is Some <==> old(transfer).body() is Some
            &&& body matches Some(b) ==> old(transfer).body() == Some(b@)
        },
        final(transfer).phase() == TransferPhase::Sending,
        final(count)@ == old(count)@,
{
}

/// The body of an answer is read exactly where the status is one of success, and the
/// answer then counts under the URL that it came from; otherwise the transfer gives up.
pub proof fn law_successful_answers_are_received(
    transfer: &mut Transfer,
    reply: HttpReply,
    count: &mut PendingCount,
    action: TransferAction,
)
    requires
        call_ensures(Transfer::step, (transfer, TransferEvent::Http(reply), count), action),
    ensures
        reply matches HttpReply::Answered { status, status_text, url } ==> if 200 <= status <= 299 {
            &&& action is Receive
            &&& final(transfer).phase() == TransferPhase::Receiving
            &&& final(transfer).answered_by() == url@
            &&& final(count)@ == old(count)@
        } else {
            gave_up(*final(transfer), action, "HTTP "@ + status_text@ + " for "@ + url@)
        },
        reply matches HttpReply::SendFailed(e) ==> gave_up(*final(transfer), action, e@),
        reply matches HttpReply::PermitFailed(e) ==> gave_up(
            *final(transfer),
            action,
            "per-host semaphore: "@ + e@,
        ),
{
}

/// The body of an answer is handed over byte for byte under the URL that it came from.
pub proof fn law_received_bodies_are_handed_over(
    transfer: &mut Transfer,
    body: Result<Vec<u8>, String>,
    count: &mut PendingCount,
    action: TransferAction,
)
    requires
        call_ensures(Transfer::step, (transfer, TransferEvent::BodyRead(body), count), action),
    ensures
        body matches Ok(b) ==> hands_over(
            *final(transfer),
            action,
            old(transfer).answered_by(),
            b@,
        ),
        body matches Err(e) ==> gave_up(
            *final(transfer),
            action,
            "body of "@ + old(transfer).answered_by() + ": "@ + e@,
        ),
{
}

/// A request that is called off gives up, whatever it was waiting for.
pub proof fn law_called_off_requests_give_up(
    transfer: &mut Transfer,
    count: &mut PendingCount,
    action: TransferAction,
)
    requires
        call_ensures(Transfer::step, (transfer, TransferEvent::Aborted, count), action),
    ensures
        gave_up(*final(transfer), action, "aborted"@),
{
}

/// A transfer ends with the hand-over, and stops counting only then. An abandoned one
/// ends too.
pub proof fn law_transfers_end_after_the_hand_over(
    transfer: &mut Transfer,
    count: &mut PendingCount,
    action: TransferAction,
)
    requires
        old(transfer).counts(),
        old(count)@ > 0,
        call_ensures(Transfer::step, (transfer, TransferEvent::Delivered, count), action),
    ensures
        action is Done,
        final(transfer).phase() == TransferPhase::Over,
        !final(transfer).counts(),
        final(count)@ == old(count)@ - 1,
{
}

/// An abandoned transfer is over and counts no more; one that was over changes nothing.
pub proof fn law_abandoned_transfers_are_over(transfer: &mut Transfer, count: &mut PendingCount)
    requires
        old(transfer).counts() ==> old(count)@ > 0,
        call_ensures(Transfer::abandon, (transfer, count), ()),
    ensures
        final(transfer).phase() == TransferPhase::Over,
        !final(transfer).counts(),
        old(transfer).counts() ==> final(count)@ == old(count)@ - 1,
        !old(transfer).counts() ==> final(count)@ == old(count)@,
{
}

/// Any step counts one transfer less exactly where it ends one that counted.
pub proof fn law_steps_count_what_they_end(
    transfer: &mut Transfer,
    event: TransferEvent,
    count: &mut PendingCount,
    action: TransferAction,
)
    requires
        old(transfer).counts(),
        old(count)@ > 0,
        call_ensures(Transfer::step, (transfer, event, count), action),
    ensures
        final(transfer).phase() == TransferPhase::Over ==> final(count)@ == old(count)@ - 1,
        final(transfer).phase() != TransferPhase::Over ==> final(count)@ == old(count)@,
        final(transfer).url() == old(transfer).url(),
{
}

/// A transfer takes in what answers its last action, and being called off until its bytes
/// are being handed over; nothing else.
pub proof fn law_transfers_take_in_only_answers(transfer: &Transfer, event: &TransferEvent, r: bool)
    requires
        call_ensures(Transfer::is_expected, (transfer, event), r),
    ensures
        event is Begun ==> (r <==> transfer.phase() == TransferPhase::Spawned),
        event is FileRead ==> (r <==> transfer.phase() == TransferPhase::Reading),
        event is Turn ==> (r <==> transfer.phase() == TransferPhase::Queued),
        event matches TransferEvent::Http(reply) ==> if reply is PermitFailed {
            r <==> transfer.phase() == TransferPhase::Queued
        } else {
            r <==> transfer.phase() == TransferPhase::Sending
        },
        event is BodyRead ==> (r <==> transfer.phase() == TransferPhase::Receiving),
        event is Delivered ==> (r <==> transfer.phase() == TransferPhase::Delivering),
        event is Aborted ==> (r <==> transfer.phase() != TransferPhase::Delivering
            && transfer.phase() != TransferPhase::Over),
{
}

} // verus!
