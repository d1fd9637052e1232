//! Laws of statuses and error messages.

use vstd::prelude::*;
use vstd::string::*;
use vstd::utf8::*;

use crate::context::{blitz_context_new, context_started, RuntimePlan};
use crate::status;
use crate::status::{
    blitz_last_error_message, clear_error, guard, set_error, CallOutcome, ErrorChannel, Failure,
};
use crate::text;
use crate::text::{push_decimal, same_text};

verus! {

/// Zero bytes are all that a message loses: its parts are kept in their order, each
/// without its zero bytes.
pub proof fn law_zero_bytes_are_dropped_part_by_part(a: Seq<u8>, b: Seq<u8>)
    ensures
        status::without_nul(a + b) == status::without_nul(a) + status::without_nul(b),
        status::without_nul(seq![0u8]) == Seq::<u8>::empty(),
        !a.contains(0) ==> status::without_nul(a) == a,
        !status::without_nul(a).contains(0),
    decreases b.len(),
{
    reveal(Seq::filter);
    status::law_message_has_no_nul(a);
    let keep = |x: u8| x != 0;
    assert(seq![0u8].drop_last() =~= Seq::<u8>::empty());
    assert(Seq::<u8>::empty().filter(keep) =~= Seq::<u8>::empty());
    assert(seq![0u8].filter(keep) =~= Seq::<u8>::empty());
    if b.len() == 0 {
        assert(a + b =~= a);
        assert(b.filter(keep) =~= Seq::<u8>::empty());
    } else {
        law_zero_bytes_are_dropped_part_by_part(a, b.drop_last());
        assert((a + b).drop_last() =~= a + b.drop_last());
        assert(status::without_nul(a + b) =~= status::without_nul(a) + status::without_nul(b));
    }
}

/// A recorded message is the pending one until the next is recorded or it is forgotten,
/// and what is read back is what was recorded, but for zero bytes.
pub proof fn law_recorded_messages_are_read_back(
    channel: &mut ErrorChannel,
    message: &[u8],
    read: Option<&[u8]>,
)
    requires
        call_ensures(set_error, (channel, message), ()),
        call_ensures(blitz_last_error_message, (final(channel),), read),
    ensures
        read matches Some(m) && m@ == status::without_nul(message@),
        !message@.contains(0) ==> read->0@ == message@,
{
    status::law_message_has_no_nul(message@);
}

/// Nothing is pending at first.
pub proof fn law_channels_start_empty(channel: ErrorChannel, read: Option<&[u8]>)
    requires
        call_ensures(ErrorChannel::new, (), channel),
        call_ensures(blitz_last_error_message, (&channel,), read),
    ensures
        read is None,
{
}

/// Nothing is read after the message was forgotten.
pub proof fn law_forgotten_messages_are_gone(channel: &mut ErrorChannel, read: Option<&[u8]>)
    requires
        call_ensures(clear_error, (channel,), ()),
        call_ensures(blitz_last_error_message, (final(channel),), read),
    ensures
        read is None,
{
}

/// A call that succeeded has status zero and leaves the pending message alone.
pub proof fn law_success_is_silent(channel: &mut ErrorChannel, status: i32)
    requires
        call_ensures(guard, (channel, CallOutcome::Returned(Ok(()))), status),
    ensures
        status == 0,
        final(channel)@ == old(channel)@,
{
}

/// A call that failed has the code of its failure for its status, and its message is the
/// pending one.
pub proof fn law_failures_are_reported(channel: &mut ErrorChannel, f: Failure, status: i32)
    requires
        call_ensures(guard, (channel, CallOutcome::Returned(Err(f))), status),
    ensures
        status == f.code,
        final(channel)@ == Some(status::without_nul(encode_utf8(f.message@))),
        !encode_utf8(f.message@).contains(0) ==> final(channel)@ == Some(encode_utf8(f.message@)),
{
    status::law_message_has_no_nul(encode_utf8(f.message@));
}

/// A panic becomes a status of its own, and its text the pending message.
pub proof fn law_panics_are_reported(
    channel: &mut ErrorChannel,
    payload: Option<String>,
    status: i32,
)
    requires
        call_ensures(guard, (channel, CallOutcome::Panicked(payload)), status),
    ensures
        status == -7,
        final(channel)@ == Some(
            status::without_nul(
                encode_utf8(
                    "panic: "@ + match payload {
                        Some(m) => m@,
                        None => "panic in blitz"@,
                    },
                ),
            ),
        ),
{
}

/// Failures carry the code and the texts that they were made of, in order.
pub proof fn law_failures_hold_what_they_are_made_of(
    code: i32,
    a: &str,
    b: &str,
    c: &str,
    one: Failure,
    two: Failure,
    three: Failure,
)
    requires
        call_ensures(Failure::new, (code, a), one),
        call_ensures(Failure::of_two, (code, a, b), two),
        call_ensures(Failure::of_cause, (code, a, b, c), three),
    ensures
        one.code == code && two.code == code && three.code == code,
        one.message@ == a@,
        two.message@ == a@ + b@,
        three.message@ == a@ + b@ + ": "@ + c@,
{
}

/// A context has as many worker threads as were asked for, and leaves their number open
/// where none were.
pub proof fn law_worker_threads_are_those_asked_for(workers: u32, plan: RuntimePlan)
    requires
        call_ensures(blitz_context_new, (workers,), plan),
    ensures
        plan.thread_name@ == "blitz-net"@,
        plan.worker_threads is None <==> workers == 0,
        plan.worker_threads matches Some(n) ==> n == workers,
{
}

/// A runtime that started is handed over and leaves the channel alone; otherwise nothing
/// is handed over and the channel says why.
pub proof fn law_contexts_start_or_say_why<T>(
    channel: &mut ErrorChannel,
    outcome: CallOutcome<T, String>,
    r: Option<T>,
)
    requires
        call_ensures(context_started, (channel, outcome), r),
    ensures
        r is Some <==> outcome matches CallOutcome::Returned(Ok(_)),
        outcome matches CallOutcome::Returned(Ok(t)) ==> r == Some(t) && final(channel)@
            == old(channel)@,
        outcome matches CallOutcome::Returned(Err(e)) ==> final(channel)@ == Some(
            status::without_nul(encode_utf8("failed to start tokio runtime: "@ + e@)),
        ),
        outcome is Panicked ==> final(channel)@ == Some(
            status::without_nul(encode_utf8("panic while creating context"@)),
        ),
{
}

/// The number that a text of decimal digits stands for.
pub open spec fn number(s: Seq<char>) -> nat
    decreases s.len(),
{
    if s.len() == 0 {
        0
    } else {
        number(s.drop_last()) * 10 + (s.last() as nat - 0x30) as nat
    }
}

/// Decimal notation reads back as the number, is made of digits, and has no leading zero.
pub proof fn law_decimal_reads_back(n: nat)
    ensures
        number(text::decimal(n)) == n,
        text::decimal(n).len() > 0,
        forall|i: int|
            0 <= i < text::decimal(n).len() ==> '0' <= #[trigger] text::decimal(n)[i] <= '9',
        n > 0 ==> text::decimal(n)[0] != '0',
    decreases n,
{
    let s = text::decimal(n);
    if n < 10 {
        assert(s.drop_last() =~= Seq::<char>::empty());
        assert(number(Seq::<char>::empty()) == 0);
    } else {
        law_decimal_reads_back(n / 10);
        assert(s.drop_last() =~= text::decimal(n / 10));
        assert(s[0] == text::decimal(n / 10)[0]);
        assert forall|i: int| 0 <= i < s.len() implies '0' <= #[trigger] s[i] <= '9' by {
            if i < s.len() - 1 {
                assert(s[i] == text::decimal(n / 10)[i]);
            }
        }
    }
}

/// Writing a number appends it and changes nothing before it.
pub proof fn law_numbers_are_appended(s: &mut String, n: u64)
    requires
        call_ensures(push_decimal, (s, n), ()),
    ensures
        old(s)@ =~= final(s)@.take(old(s)@.len() as int),
        number(final(s)@.skip(old(s)@.len() as int)) == n,
{
    law_decimal_reads_back(n as nat);
    assert(final(s)@.skip(old(s)@.len() as int) =~= text::decimal(n as nat));
}

/// Two texts are the same where they have the same characters.
pub proof fn law_same_text_is_same_characters(a: &str, b: &str, r: bool)
    requires
        call_ensures(same_text, (a, b), r),
    ensures
        r <==> a@.len() == b@.len() && forall|i: int| 0 <= i < a@.len() ==> a@[i] == b@[i],
{
    if a@.len() == b@.len() && forall|i: int| 0 <= i < a@.len() ==> a@[i] == b@[i] {
        assert(a@ =~= b@);
    }
}

} // verus!
