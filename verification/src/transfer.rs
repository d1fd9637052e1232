//! The course of one sub-resource: from its request, through reading a file or
//! asking a server, to the hand-over of its bytes.
//!
//! A transfer counts as pending until it is over, and it is over only after its
//! bytes were handed over: settling stops as soon as nothing is pending, so a
//! transfer that stopped counting earlier could come too late for the picture.

use vstd::prelude::*;

use crate::image;
use crate::location;
use crate::location::{local_path, UrlParts};
use crate::net;
use crate::net::{
    apply_body, fetch_data, file_resource, host_key, http_answer, http_resource, resource_route,
    Body, FileAnswer, HttpReply, Resource, ResourceRoute, PER_HOST_MAX_CONCURRENT,
};
use crate::pending;
use crate::pending::{PendingCount, PendingGuard};
use crate::status::Failure;

verus! {

/// A request for a sub-resource.
pub struct ResourceRequest {
    pub url: UrlParts,
    pub content_type: Option<String>,
    pub body: Body,
}

/// What a transfer is waiting for.
#[derive(Clone, Copy, Debug, PartialEq, Eq, Structural)]
pub enum TransferPhase {
    /// The request was taken on and nothing was done for it yet.
    Spawned,
    /// A local file is being read.
    Reading,
    /// The request waits for its turn at the host.
    Queued,
    /// The request is on its way.
    Sending,
    /// The body of the answer is being read.
    Receiving,
    /// The bytes are being handed over.
    Delivering,
    /// The transfer is over.
    Over,
}

/// What the caller does next.
pub enum TransferAction {
    /// Read this local file.
    ReadFile(std::path::PathBuf),
    /// Wait until fewer than the allowed number of requests to this host are in
    /// flight. The place is kept until the body of the answer was read.
    Queue { host: String },
    /// Send the request, with this content type and body where there are any.
    Send { content_type: Option<String>, body: Option<Vec<u8>> },
    /// Read the body of the answer.
    Receive,
    /// Hand the bytes over to the document.
    Deliver(Resource),
    /// Nothing more: the document renders without this sub-resource, for this reason.
    GiveUp(String),
    /// Nothing more: the bytes were handed over.
    Done,
}

/// What came of an action.
pub enum TransferEvent {
    /// The request is taken up for the first time, and was not called off before.
    Begun,
    /// The file was read, or could not be.
    FileRead(FileAnswer),
    /// It is the request's turn.
    Turn,
    /// There was an answer, or none.
    Http(HttpReply),
    /// The body of the answer was read, or could not be.
    BodyRead(Result<Vec<u8>, String>),
    /// The document has the bytes.
    Delivered,
    /// The request was called off.
    Aborted,
}

/// How many events a transfer in this phase can still take in.
pub open spec fn events_left(phase: TransferPhase) -> nat {
    match phase {
        TransferPhase::Spawned => 5,
        TransferPhase::Queued => 4,
        TransferPhase::Sending => 3,
        TransferPhase::Reading => 2,
        TransferPhase::Receiving => 2,
        TransferPhase::Delivering => 1,
        TransferPhase::Over => 0,
    }
}

/// One transfer under way.
pub struct Transfer {
    url: UrlParts,
    content_type: Option<String>,
    body: Option<Vec<u8>>,
    answered_by: String,
    phase: TransferPhase,
    guard: PendingGuard,
}

impl Transfer {
    /// The URL that was asked for.
    pub closed spec fn url(self) -> UrlParts {
        self.url
    }

    /// The content type that goes with the request.
    pub closed spec fn content_type(self) -> Option<Seq<char>> {
        net::string_of(self.content_type)
    }

    /// The bytes that go with the request.
    pub closed spec fn body(self) -> Option<Seq<u8>> {
        image::bytes_of(self.body)
    }

    /// The URL that the answer came from.
    pub closed spec fn answered_by(self) -> Seq<char> {
        self.answered_by@
    }

    /// What the transfer is waiting for.
    pub closed spec fn phase(self) -> TransferPhase {
        self.phase
    }

    /// The transfer counts as pending.
    pub closed spec fn counts(self) -> bool {
        self.guard.holds()
    }

    /// A transfer counts as pending exactly until it is over.
    pub open spec fn well_formed(self) -> bool {
        self.counts() <==> self.phase() != TransferPhase::Over
    }

    /// The transfer holds a place at its host: its request was sent, and the body of the
    /// answer was not read to its end.
    pub open spec fn holds_place(self) -> bool {
        self.phase() == TransferPhase::Sending || self.phase() == TransferPhase::Receiving
    }

    /// What no event changes: the URL stays, a transfer that is over stays over, and a
    /// place at the host is taken only by a queued request whose turn has come.
    pub open spec fn may_become(from: Transfer, to: Transfer) -> bool {
        &&& to.url() == from.url()
        &&& from.phase() == TransferPhase::Over ==> to.phase() == TransferPhase::Over
        &&& to.holds_place() && !from.holds_place() ==> from.phase() == TransferPhase::Queued
            && to.phase() == TransferPhase::Sending
    }

    /// The event answers the action that the transfer asked for last. Whatever its
    /// scheme, a request can be called off before it is begun, and from then on until
    /// its bytes are being handed over.
    pub open spec fn expects(self, event: TransferEvent) -> bool {
        match (self.phase(), event) {
            (TransferPhase::Spawned, TransferEvent::Begun) => true,
            (TransferPhase::Reading, TransferEvent::FileRead(_)) => true,
            (TransferPhase::Queued, TransferEvent::Turn) => true,
            (TransferPhase::Queued, TransferEvent::Http(HttpReply::PermitFailed(_))) => true,
            (TransferPhase::Sending, TransferEvent::Http(HttpReply::SendFailed(_))) => true,
            (TransferPhase::Sending, TransferEvent::Http(HttpReply::Answered { .. })) => true,
            (TransferPhase::Receiving, TransferEvent::BodyRead(_)) => true,
            (TransferPhase::Delivering, TransferEvent::Delivered) => true,
            (TransferPhase::Spawned, TransferEvent::Aborted) => true,
            (TransferPhase::Reading, TransferEvent::Aborted) => true,
            (TransferPhase::Queued, TransferEvent::Aborted) => true,
            (TransferPhase::Sending, TransferEvent::Aborted) => true,
            (TransferPhase::Receiving, TransferEvent::Aborted) => true,
            _ => false,
        }
    }

    /// Whether the event answers the action that the transfer asked for last.
    pub fn is_expected(&self, event: &TransferEvent) -> (r: bool)
        ensures
            r == self.expects(*event),
    {
        match (self.phase, event) {
            (TransferPhase::Spawned, TransferEvent::Begun) => true,
            (TransferPhase::Reading, TransferEvent::FileRead(_)) => true,
            (TransferPhase::Queued, TransferEvent::Turn) => true,
            (TransferPhase::Queued, TransferEvent::Http(HttpReply::PermitFailed(_))) => true,
            (TransferPhase::Sending, TransferEvent::Http(HttpReply::SendFailed(_))) => true,
            (TransferPhase::Sending, TransferEvent::Http(HttpReply::Answered { .. })) => true,
            (TransferPhase::Receiving, TransferEvent::BodyRead(_)) => true,
            (TransferPhase::Delivering, TransferEvent::Delivered) => true,
            (TransferPhase::Spawned, TransferEvent::Aborted) => true,
            (TransferPhase::Reading, TransferEvent::Aborted) => true,
            (TransferPhase::Queued, TransferEvent::Aborted) => true,
            (TransferPhase::Sending, TransferEvent::Aborted) => true,
            (TransferPhase::Receiving, TransferEvent::Aborted) => true,
            _ => false,
        }
    }

    /// The transfer goes on as this result says: the bytes are handed over, or the
    /// transfer is over and stops counting.
    pub open spec fn concludes(
        before: nat,
        after: nat,
        transfer: Transfer,
        action: TransferAction,
        result: Result<(Seq<char>, Seq<u8>), Seq<char>>,
    ) -> bool {
        match result {
            Ok(x) => {
                &&& action matches TransferAction::Deliver(r) && r@ == x
                &&& transfer.phase() == TransferPhase::Delivering
                &&& after == before
            },
            Err(e) => {
                &&& action matches TransferAction::GiveUp(t) && t@ == e
                &&& transfer.phase() == TransferPhase::Over
                &&& after == pending::one_less(before)
            },
        }
    }

    /// Goes on to the hand-over, or gives up.
    fn conclude(&mut self, result: Result<Resource, String>, count: &mut PendingCount) -> (action:
        TransferAction)
        requires
            old(self).well_formed(),
            old(self).phase() != TransferPhase::Over,
        ensures
            Transfer::concludes(
                old(count)@,
                final(count)@,
                *final(self),
                action,
                net::resource_of(result),
            ),
            final(self).well_formed(),
            final(self).url() == old(self).url(),
            final(self).content_type() == old(self).content_type(),
            final(self).body() == old(self).body(),
    {
        match result {
            Ok(x) => {
                self.phase = TransferPhase::Delivering;
                TransferAction::Deliver(x)
            },
            Err(e) => {
                self.phase = TransferPhase::Over;
                self.guard.release(count);
                TransferAction::GiveUp(e)
            },
        }
    }

    /// How a transfer of a `file:` URL goes on with the path that the system named:
    /// that file is read. Without a path the transfer is over.
    pub open spec fn follows_path(
        before: nat,
        after: nat,
        transfer: Transfer,
        action: TransferAction,
        path: Result<std::path::PathBuf, Failure>,
    ) -> bool {
        match path {
            Ok(p) => {
                &&& action == TransferAction::ReadFile(p)
                &&& transfer.phase() == TransferPhase::Reading
                &&& after == before
            },
            Err(_) => Transfer::concludes(
                before,
                after,
                transfer,
                action,
                Err("bad file url: "@ + transfer.url().text@),
            ),
        }
    }

    /// The number of transfers that count, after this one went from one state to
    /// another: one less where it stopped counting.
    pub open spec fn count_after(before: nat, from: Transfer, to: Transfer) -> nat {
        if from.counts() && !to.counts() {
            pending::one_less(before)
        } else {
            before
        }
    }

    /// Takes on a request, which counts as pending from now on. Nothing is done for it
    /// until it is begun.
    pub fn start(request: ResourceRequest, count: &mut PendingCount) -> (transfer: Transfer)
        ensures
            transfer.well_formed(),
            transfer.phase() == TransferPhase::Spawned,
            transfer.url() == request.url,
            transfer.content_type() == net::string_of(request.content_type),
            transfer.body() == net::body_bytes(request.body, net::string_of(request.content_type)),
            final(count)@ == pending::one_more(old(count)@),
    {
        let guard = PendingGuard::new(count);
        let body = apply_body(request.body, &request.content_type);
        Transfer {
            url: request.url,
            content_type: request.content_type,
            body,
            answered_by: String::new(),
            phase: TransferPhase::Spawned,
            guard,
        }
    }

    /// Goes on with the path that the system named for a `file:` URL: reads that file,
    /// or gives up where there is none.
    pub fn read_or_give_up(
        &mut self,
        path: Result<std::path::PathBuf, Failure>,
        count: &mut PendingCount,
    ) -> (action: TransferAction)
        requires
            old(self).well_formed(),
            old(self).phase() == TransferPhase::Spawned,
        ensures
            final(self).well_formed(),
            final(self).url() == old(self).url(),
            final(self).content_type() == old(self).content_type(),
            final(self).body() == old(self).body(),
            Transfer::follows_path(old(count)@, final(count)@, *final(self), action, path),
    {
        match path {
            Ok(p) => {
                self.phase = TransferPhase::Reading;
                TransferAction::ReadFile(p)
            },
            Err(_) => {
                let result = file_resource(&self.url, FileAnswer::NoPath);
                self.conclude(result, count)
            },
        }
    }

    /// Begins a transfer. A data URL holds its bytes itself, `file:` is read locally,
    /// and everything else waits for its turn at the host. Whether a `file:` URL names
    /// a path, and which, is for the system to say; `read_or_give_up` says what follows.
    fn begin(&mut self, count: &mut PendingCount) -> (action: TransferAction)
        requires
            old(self).well_formed(),
            old(self).phase() == TransferPhase::Spawned,
        ensures
            final(self).well_formed(),
            final(self).url() == old(self).url(),
            final(self).content_type() == old(self).content_type(),
            final(self).body() == old(self).body(),
            Transfer::begins(old(count)@, final(count)@, *final(self), action),
    {
        match resource_route(&self.url) {
            ResourceRoute::Data => {
                let result = fetch_data(&self.url);
                self.conclude(result, count)
            },
            ResourceRoute::File => {
                let path = local_path(&self.url);
                self.read_or_give_up(path, count)
            },
            ResourceRoute::Http => {
                self.phase = TransferPhase::Queued;
                TransferAction::Queue { host: host_key(&self.url) }
            },
        }
    }

    /// How a transfer that was not called off goes on from its start, by the scheme of
    /// its URL.
    pub open spec fn begins(
        before: nat,
        after: nat,
        transfer: Transfer,
        action: TransferAction,
    ) -> bool {
        let url = transfer.url();
        match net::route_of(url.scheme@) {
            ResourceRoute::Data => Transfer::concludes(
                before,
                after,
                transfer,
                action,
                net::data_resource_of(
                    url.text@,
                    net::data_url_refusal(url.text@),
                    net::data_url_body(url.text@),
                ),
            ),
            ResourceRoute::File => exists|path: Result<std::path::PathBuf, Failure>|
                {
                    &&& location::may_name(url.text@, location::path_of(path))
                    &&& location::url_parse(url.text@) is Err ==> path is Err
                    &&& #[trigger] Transfer::follows_path(before, after, transfer, action, path)
                },
            ResourceRoute::Http => {
                &&& action matches TransferAction::Queue { host } && host@ == net::host_of(url)
                &&& transfer.phase() == TransferPhase::Queued
                &&& after == before
            },
        }
    }

    /// Takes in what came of the last action and says what to do next.
    pub fn step(&mut self, event: TransferEvent, count: &mut PendingCount) -> (action:
        TransferAction)
        requires
            old(self).well_formed(),
            old(self).expects(event),
        ensures
            final(self).well_formed(),
            Transfer::may_become(*old(self), *final(self)),
            events_left(final(self).phase()) < events_left(old(self).phase()),
            final(count)@ == Transfer::count_after(old(count)@, *old(self), *final(self)),
            action is Deliver <==> final(self).phase() == TransferPhase::Delivering,
            action is GiveUp || action is Done <==> final(self).phase() == TransferPhase::Over,
            match event {
                TransferEvent::Begun => {
                    &&& Transfer::begins(old(count)@, final(count)@, *final(self), action)
                    &&& final(self).content_type() == old(self).content_type()
                    &&& final(self).body() == old(self).body()
                },
                TransferEvent::FileRead(answer) => Transfer::concludes(
                    old(count)@,
                    final(count)@,
                    *final(self),
                    action,
                    net::file_result(old(self).url().text@, answer),
                ),
                TransferEvent::Turn => {
                    &&& action matches TransferAction::Send { content_type, body }
                        && net::string_of(content_type) == old(self).content_type()
                        && image::bytes_of(body) == old(self).body()
                    &&& final(self).phase() == TransferPhase::Sending
                    &&& final(count)@ == old(count)@
                },
                TransferEvent::Http(reply) => match net::answer_of(reply) {
                    Ok(url) => {
                        &&& action is Receive
                        &&& final(self).phase() == TransferPhase::Receiving
                        &&& final(self).answered_by() == url
                        &&& final(count)@ == old(count)@
                    },
                    Err(e) => Transfer::concludes(
                        old(count)@,
                        final(count)@,
                        *final(self),
                        action,
                        Err(e),
                    ),
                },
                TransferEvent::BodyRead(body) => Transfer::concludes(
                    old(count)@,
                    final(count)@,
                    *final(self),
                    action,
                    net::http_result(old(self).answered_by(), body),
                ),
                TransferEvent::Delivered => {
                    &&& action is Done
                    &&& final(self).phase() == TransferPhase::Over
                    &&& final(count)@ == pending::one_less(old(count)@)
                },
                TransferEvent::Aborted => Transfer::concludes(
                    old(count)@,
                    final(count)@,
                    *final(self),
                    action,
                    Err("aborted"@),
                ),
            },
    {
        match event {
            TransferEvent::Begun => self.begin(count),
            TransferEvent::FileRead(answer) => {
                let result = file_resource(&self.url, answer);
                self.conclude(result, count)
            },
            TransferEvent::Turn => {
                self.phase = TransferPhase::Sending;
                TransferAction::Send {
                    content_type: self.content_type.take(),
                    body: self.body.take(),
                }
            },
            TransferEvent::Http(reply) => match http_answer(reply) {
                Ok(url) => {
                    self.answered_by = url;
                    self.phase = TransferPhase::Receiving;
                    TransferAction::Receive
                },
                Err(e) => self.conclude(Err(e), count),
            },
            TransferEvent::BodyRead(body) => {
                let result = http_resource(self.answered_by.clone(), body);
                self.conclude(result, count)
            },
            TransferEvent::Delivered => {
                self.phase = TransferPhase::Over;
                self.guard.release(count);
                TransferAction::Done
            },
            TransferEvent::Aborted => self.conclude(Err("aborted".to_owned()), count),
        }
    }

    /// Ends a transfer that was dropped half-way, so that it stops counting. One that
    /// is over is left alone.
    pub fn abandon(&mut self, count: &mut PendingCount)
        requires
            old(self).well_formed(),
        ensures
            final(self).well_formed(),
            Transfer::may_become(*old(self), *final(self)),
            final(self).phase() == TransferPhase::Over,
            final(count)@ == Transfer::count_after(old(count)@, *old(self), *final(self)),
    {
        self.phase = TransferPhase::Over;
        self.guard.release(count);
    }
}

/// Bytes are handed over at most once, and never once the request was called off: any
/// request can be called off before it is begun, one whose bytes are being handed over
/// takes in nothing but the end of that, and one that is over takes in nothing.
pub proof fn law_handed_over_at_most_once(transfer: Transfer, event: TransferEvent)
    ensures
        transfer.phase() == TransferPhase::Spawned ==> transfer.expects(TransferEvent::Aborted),
        transfer.phase() == TransferPhase::Delivering && transfer.expects(event) ==> event
            == TransferEvent::Delivered,
        transfer.phase() == TransferPhase::Over ==> !transfer.expects(event),
{
}

/// How many of the transfers count as pending.
pub open spec fn counting(transfers: Seq<Transfer>) -> nat
    decreases transfers.len(),
{
    if transfers.len() == 0 {
        0
    } else {
        counting(transfers.drop_last()) + counted(transfers.last())
    }
}

/// One for a transfer that counts as pending.
pub open spec fn counted(transfer: Transfer) -> nat {
    if transfer.counts() {
        1
    } else {
        0
    }
}

/// A transfer whose bytes were not handed over yet keeps something pending, so
/// settling goes on until the hand-over.
pub proof fn law_pending_until_delivered(transfers: Seq<Transfer>, i: int)
    requires
        0 <= i < transfers.len(),
        transfers[i].well_formed(),
        transfers[i].phase() != TransferPhase::Over,
    ensures
        counting(transfers) > 0,
    decreases transfers.len(),
{
    if i < transfers.len() - 1 {
        law_pending_until_delivered(transfers.drop_last(), i);
    }
}

/// A transfer that goes from one state to another changes the number of pending
/// transfers by its own share alone.
pub proof fn law_count_follows_each_transfer(transfers: Seq<Transfer>, i: int, next: Transfer)
    requires
        0 <= i < transfers.len(),
    ensures
        counting(transfers.update(i, next)) + counted(transfers[i]) == counting(transfers)
            + counted(next),
    decreases transfers.len(),
{
    let changed = transfers.update(i, next);
    if i < transfers.len() - 1 {
        law_count_follows_each_transfer(transfers.drop_last(), i, next);
        assert(changed.drop_last() =~= transfers.drop_last().update(i, next));
    } else {
        assert(changed.drop_last() =~= transfers.drop_last());
    }
}

/// The transfers of a document, and the count beside them.
pub struct Ledger {
    pub transfers: Seq<Transfer>,
    pub count: nat,
}

impl Ledger {
    /// The count is the number of transfers that count, each of which is well formed.
    pub open spec fn balanced(self) -> bool {
        &&& self.count == counting(self.transfers)
        &&& forall|i: int|
            0 <= i < self.transfers.len() ==> (#[trigger] self.transfers[i]).well_formed()
    }

    /// Some transfer is not over.
    pub open spec fn unfinished(self) -> bool {
        exists|i: int|
            0 <= i < self.transfers.len() && (#[trigger] self.transfers[i]).phase()
                != TransferPhase::Over
    }

    /// What is left once a transfer was started.
    pub open spec fn started(self, transfer: Transfer) -> Ledger {
        Ledger {
            transfers: self.transfers.push(transfer),
            count: pending::one_more(self.count),
        }
    }

    /// What is left once one transfer took in an event or was abandoned.
    pub open spec fn moved(self, i: int, to: Transfer) -> Ledger {
        Ledger {
            transfers: self.transfers.update(i, to),
            count: Transfer::count_after(self.count, self.transfers[i], to),
        }
    }

    /// One start, event or abandonment leads from here to `next`.
    pub open spec fn leads_to(self, next: Ledger) -> bool {
        ||| exists|t: Transfer|
            {
                &&& t.well_formed()
                &&& t.phase() == TransferPhase::Spawned
                &&& next == #[trigger] self.started(t)
            }
        ||| exists|i: int, t: Transfer|
            {
                &&& 0 <= i < self.transfers.len()
                &&& t.well_formed()
                &&& Transfer::may_become(self.transfers[i], t)
                &&& next == #[trigger] self.moved(i, t)
            }
    }

    /// The caller kept to the limit on the way to `next`: a transfer took a place at its
    /// host only where fewer than the allowed number held one.
    pub open spec fn keeps_limit(self, next: Ledger) -> bool {
        forall|i: int|
            0 <= i < self.transfers.len() && !(#[trigger] self.transfers[i]).holds_place()
                && next.transfers[i].holds_place() ==> has_place(
                self.transfers,
                net::host_of(self.transfers[i].url()),
            )
    }
}

/// One for a transfer that holds a place at this host.
pub open spec fn placed(transfer: Transfer, host: Seq<char>) -> nat {
    if transfer.holds_place() && net::host_of(transfer.url()) == host {
        1
    } else {
        0
    }
}

/// How many of the transfers hold a place at this host. A URL without a host counts
/// under the empty one.
pub open spec fn places(transfers: Seq<Transfer>, host: Seq<char>) -> nat
    decreases transfers.len(),
{
    if transfers.len() == 0 {
        0
    } else {
        places(transfers.drop_last(), host) + placed(transfers.last(), host)
    }
}

/// A request to this host can have its turn.
pub open spec fn has_place(transfers: Seq<Transfer>, host: Seq<char>) -> bool {
    places(transfers, host) < PER_HOST_MAX_CONCURRENT
}

/// A transfer that goes from one state to another changes the number of places taken at
/// a host by its own share alone.
pub proof fn law_places_follow_each_transfer(
    transfers: Seq<Transfer>,
    i: int,
    to: Transfer,
    host: Seq<char>,
)
    requires
        0 <= i < transfers.len(),
    ensures
        places(transfers.update(i, to), host) + placed(transfers[i], host) == places(
            transfers,
            host,
        ) + placed(to, host),
    decreases transfers.len(),
{
    let changed = transfers.update(i, to);
    if i < transfers.len() - 1 {
        law_places_follow_each_transfer(transfers.drop_last(), i, to, host);
        assert(changed.drop_last() =~= transfers.drop_last().update(i, to));
    } else {
        assert(changed.drop_last() =~= transfers.drop_last());
    }
}

/// A place is given back however the transfer leaves it: where its bytes are ready,
/// where it failed, where it was called off and where it was abandoned.
pub proof fn law_place_is_given_back(transfers: Seq<Transfer>, i: int, to: Transfer)
    requires
        0 <= i < transfers.len(),
        Transfer::may_become(transfers[i], to),
        transfers[i].holds_place(),
        !to.holds_place(),
    ensures
        ({
            let host = net::host_of(transfers[i].url());
            places(transfers.update(i, to), host) == places(transfers, host) - 1
        }),
{
    law_places_follow_each_transfer(transfers, i, to, net::host_of(transfers[i].url()));
}

/// Requests to different hosts never wait for each other: what a transfer does changes
/// nothing about the places at any other host.
pub proof fn law_hosts_do_not_wait_for_each_other(
    transfers: Seq<Transfer>,
    i: int,
    to: Transfer,
    other: Seq<char>,
)
    requires
        0 <= i < transfers.len(),
        Transfer::may_become(transfers[i], to),
        net::host_of(transfers[i].url()) != other,
    ensures
        places(transfers.update(i, to), other) == places(transfers, other),
        has_place(transfers.update(i, to), other) == has_place(transfers, other),
{
    law_places_follow_each_transfer(transfers, i, to, other);
}

/// At every moment at most the allowed number of requests to one host are between being
/// sent and being finished, after any starts, events and abandonments in any order. The
/// turns are the caller's to grant: each was granted while a place was left.
pub proof fn law_host_limit_is_kept(history: Seq<Ledger>, host: Seq<char>, k: int)
    requires
        0 <= k < history.len(),
        history[0].transfers.len() == 0,
        forall|i: int|
            0 <= i < history.len() - 1 ==> (#[trigger] history[i]).leads_to(history[i + 1])
                && history[i].keeps_limit(history[i + 1]),
    ensures
        places(history[k].transfers, host) <= PER_HOST_MAX_CONCURRENT,
    decreases k,
{
    if k > 0 {
        law_host_limit_is_kept(history, host, k - 1);
        let before = history[k - 1];
        let after = history[k];
        assert(before.leads_to(history[k - 1 + 1]));
        assert(before.keeps_limit(after));
        if exists|t: Transfer|
            {
                &&& t.well_formed()
                &&& t.phase() == TransferPhase::Spawned
                &&& after == #[trigger] before.started(t)
            } {
            assert(after.transfers.drop_last() =~= before.transfers);
        } else {
            let (i, t) = choose|i: int, t: Transfer|
                {
                    &&& 0 <= i < before.transfers.len()
                    &&& t.well_formed()
                    &&& Transfer::may_become(before.transfers[i], t)
                    &&& after == #[trigger] before.moved(i, t)
                };
            law_places_follow_each_transfer(before.transfers, i, t, host);
            assert(after.transfers[i] == t);
        }
    }
}

/// Starting a transfer keeps the count right, as long as a count holds one more.
pub proof fn law_start_keeps_the_balance(ledger: Ledger, transfer: Transfer)
    requires
        ledger.balanced(),
        ledger.count < usize::MAX,
        transfer.well_formed(),
        transfer.phase() == TransferPhase::Spawned,
    ensures
        ledger.started(transfer).balanced(),
{
    let next = ledger.started(transfer);
    assert(next.transfers.drop_last() =~= ledger.transfers);
    assert forall|i: int| 0 <= i < next.transfers.len() implies (
    #[trigger] next.transfers[i]).well_formed() by {
        if i < ledger.transfers.len() {
            assert(next.transfers[i] == ledger.transfers[i]);
        }
    }
}

/// An event of a transfer, and abandoning it, keep the count right.
pub proof fn law_step_keeps_the_balance(ledger: Ledger, i: int, to: Transfer)
    requires
        ledger.balanced(),
        0 <= i < ledger.transfers.len(),
        to.well_formed(),
        Transfer::may_become(ledger.transfers[i], to),
    ensures
        ledger.moved(i, to).balanced(),
{
    let next = ledger.moved(i, to);
    law_count_follows_each_transfer(ledger.transfers, i, to);
    assert forall|j: int| 0 <= j < next.transfers.len() implies (
    #[trigger] next.transfers[j]).well_formed() by {
        if j != i {
            assert(next.transfers[j] == ledger.transfers[j]);
        }
    }
}

/// Where the count is right, something is pending exactly while some transfer is not
/// over.
pub proof fn law_pending_iff_unfinished(ledger: Ledger)
    requires
        ledger.balanced(),
    ensures
        ledger.count > 0 <==> ledger.unfinished(),
{
    if ledger.unfinished() {
        let i = choose|i: int|
            0 <= i < ledger.transfers.len() && (#[trigger] ledger.transfers[i]).phase()
                != TransferPhase::Over;
        law_pending_until_delivered(ledger.transfers, i);
    } else {
        law_all_over_means_nothing_pending(ledger.transfers);
    }
}

/// From a fresh provider on, after any starts, events and abandonments in any order,
/// something is pending exactly while some transfer is not over. No more transfers are
/// unfinished at a time than a count holds.
pub proof fn law_has_pending_at_every_moment(history: Seq<Ledger>, k: int)
    requires
        0 <= k < history.len(),
        history[0].transfers.len() == 0,
        history[0].count == 0,
        forall|i: int|
            0 <= i < history.len() - 1 ==> (#[trigger] history[i]).leads_to(history[i + 1]),
        forall|i: int|
            0 <= i < history.len() ==> counting((#[trigger] history[i]).transfers) <= usize::MAX,
    ensures
        history[k].balanced(),
        history[k].count > 0 <==> history[k].unfinished(),
    decreases k,
{
    if k > 0 {
        law_has_pending_at_every_moment(history, k - 1);
        let before = history[k - 1];
        let after = history[k];
        assert(before.leads_to(history[k - 1 + 1]));
        if exists|t: Transfer|
            {
                &&& t.well_formed()
                &&& t.phase() == TransferPhase::Spawned
                &&& after == #[trigger] before.started(t)
            } {
            let t = choose|t: Transfer|
                {
                    &&& t.well_formed()
                    &&& t.phase() == TransferPhase::Spawned
                    &&& after == #[trigger] before.started(t)
                };
            assert(after.transfers.drop_last() =~= before.transfers);
            assert(counting(history[k].transfers) <= usize::MAX);
            law_start_keeps_the_balance(before, t);
        } else {
            let (i, t) = choose|i: int, t: Transfer|
                {
                    &&& 0 <= i < before.transfers.len()
                    &&& t.well_formed()
                    &&& Transfer::may_become(before.transfers[i], t)
                    &&& after == #[trigger] before.moved(i, t)
                };
            law_step_keeps_the_balance(before, i, t);
        }
    }
    law_pending_iff_unfinished(history[k]);
}

/// Nothing is pending once every transfer is over.
pub proof fn law_all_over_means_nothing_pending(transfers: Seq<Transfer>)
    requires
        forall|i: int|
            0 <= i < transfers.len() ==> (#[trigger] transfers[i]).well_formed()
                && transfers[i].phase() == TransferPhase::Over,
    ensures
        counting(transfers) == 0,
    decreases transfers.len(),
{
    if transfers.len() > 0 {
        let rest = transfers.drop_last();
        assert forall|i: int| 0 <= i < rest.len() implies (#[trigger] rest[i]).well_formed()
            && rest[i].phase() == TransferPhase::Over by {
            assert(rest[i] == transfers[i]);
        }
        law_all_over_means_nothing_pending(rest);
        assert(transfers.last() == transfers[transfers.len() - 1]);
    }
}

} // verus!
