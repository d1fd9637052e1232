//! Status codes, failures, and the channel that keeps the last error message.

use vstd::prelude::*;
use vstd::string::*;
use vstd::utf8::*;

verus! {

/// The call succeeded.
pub const BLITZ_OK: i32 = 0;

/// A required argument is missing or unusable.
pub const BLITZ_ERR_INVALID_ARG: i32 = -1;

/// Text is not valid UTF-8.
pub const BLITZ_ERR_INVALID_UTF8: i32 = -2;

/// A URL does not parse, or a `file:` URL names no path.
pub const BLITZ_ERR_INVALID_URL: i32 = -3;

/// A request failed.
pub const BLITZ_ERR_NETWORK: i32 = -4;

/// Reading or writing a file, or encoding an image, failed.
pub const BLITZ_ERR_IO: i32 = -5;

/// The renderer produced too few pixels.
pub const BLITZ_ERR_RENDER: i32 = -6;

/// A call panicked.
pub const BLITZ_ERR_PANIC: i32 = -7;

/// Why a call failed: its status code and a message.
#[derive(Clone, Debug)]
pub struct Failure {
    pub code: i32,
    pub message: String,
}

impl View for Failure {
    type V = (i32, Seq<char>);

    open spec fn view(&self) -> (i32, Seq<char>) {
        (self.code, self.message@)
    }
}

impl Failure {
    /// A failure with the given code and message.
    pub fn new(code: i32, message: &str) -> (f: Failure)
        ensures
            f@ == (code, message@),
    {
        Failure { code, message: message.to_owned() }
    }

    /// A failure whose message is two texts in a row.
    pub fn of_two(code: i32, first: &str, second: &str) -> (f: Failure)
        ensures
            f@ == (code, first@ + second@),
    {
        let mut message = first.to_owned();
        message.append(second);
        Failure { code, message }
    }

    /// A failure whose message names a subject and then gives the cause after a
    /// colon.
    pub fn of_cause(code: i32, before: &str, subject: &str, cause: &str) -> (f: Failure)
        ensures
            f@ == (code, before@ + subject@ + ": "@ + cause@),
    {
        let mut message = before.to_owned();
        message.append(subject);
        message.append(": ");
        message.append(cause);
        Failure { code, message }
    }
}

/// Message of the most recent failure on one thread, as bytes without NUL.
pub struct ErrorChannel {
    message: Option<Vec<u8>>,
}

impl View for ErrorChannel {
    type V = Option<Seq<u8>>;

    closed spec fn view(&self) -> Option<Seq<u8>> {
        match self.message {
            Some(m) => Some(m@),
            None => None,
        }
    }
}

/// `bytes` without its zeros.
pub open spec fn without_nul(bytes: Seq<u8>) -> Seq<u8> {
    bytes.filter(|b: u8| b != 0)
}

impl ErrorChannel {
    /// A channel with no pending error.
    pub fn new() -> (c: ErrorChannel)
        ensures
            c@ is None,
            c.well_formed(),
    {
        ErrorChannel { message: None }
    }

    /// The pending message can stand in a NUL-terminated string.
    pub open spec fn well_formed(&self) -> bool {
        self@ matches Some(m) ==> !m.contains(0)
    }
}

/// Records a message, dropping the zero bytes in it.
pub fn set_error(channel: &mut ErrorChannel, message: &[u8])
    ensures
        final(channel)@ == Some(without_nul(message@)),
        final(channel).well_formed(),
{
    let mut cleaned: Vec<u8> = Vec::new();
    let ghost keep = |b: u8| b != 0;
    let mut i: usize = 0;
    while i < message.len()
        invariant
            i <= message.len(),
            keep == (|b: u8| b != 0),
            cleaned@ == message@.take(i as int).filter(keep),
        decreases message.len() - i,
    {
        proof {
            reveal(Seq::filter);
            assert(message@.take(i + 1).drop_last() =~= message@.take(i as int));
        }
        if message[i] != 0 {
            cleaned.push(message[i]);
        }
        i = i + 1;
    }
    proof {
        assert(message@.take(i as int) =~= message@);
        assert forall|j: int| 0 <= j < cleaned@.len() implies cleaned@[j] != 0 by {
            message@.lemma_filter_pred(keep, j);
        }
    }
    channel.message = Some(cleaned);
}

/// Forgets the pending message.
pub fn clear_error(channel: &mut ErrorChannel)
    ensures
        final(channel)@ is None,
        final(channel).well_formed(),
{
    channel.message = None;
}

/// The pending message, if there is one.
pub fn blitz_last_error_message(channel: &ErrorChannel) -> (r: Option<&[u8]>)
    ensures
        r is Some <==> channel@ is Some,
        r matches Some(m) ==> channel@ == Some(m@),
{
    match &channel.message {
        Some(m) => Some(m.as_slice()),
        None => None,
    }
}

/// How the body of a call ended: it returned, or it panicked with a text where
/// the panic carried one.
pub enum CallOutcome<T, E> {
    Returned(Result<T, E>),
    Panicked(Option<String>),
}

/// The status of a call that ended in the given way.
pub open spec fn outcome_status(outcome: CallOutcome<(), Failure>) -> i32 {
    match outcome {
        CallOutcome::Returned(Ok(())) => BLITZ_OK,
        CallOutcome::Returned(Err(f)) => f.code,
        CallOutcome::Panicked(_) => BLITZ_ERR_PANIC,
    }
}

/// The message that a call leaves, before zero bytes are dropped. A call that
/// succeeded leaves none.
pub open spec fn outcome_message(outcome: CallOutcome<(), Failure>) -> Option<Seq<char>> {
    match outcome {
        CallOutcome::Returned(Ok(())) => None,
        CallOutcome::Returned(Err(f)) => Some(f.message@),
        CallOutcome::Panicked(Some(m)) => Some("panic: "@ + m@),
        CallOutcome::Panicked(None) => Some("panic: "@ + "panic in blitz"@),
    }
}

/// What the channel holds after a call: the message of a failure or a panic
/// without its zero bytes, and what it held before where the call succeeded.
pub open spec fn after_call(
    before: Option<Seq<u8>>,
    outcome: CallOutcome<(), Failure>,
) -> Option<Seq<u8>> {
    match outcome_message(outcome) {
        None => before,
        Some(m) => Some(without_nul(encode_utf8(m))),
    }
}

/// Turns the end of a call into its status, and records the message of a failure
/// or a panic. Success leaves the channel as it is.
pub fn guard(channel: &mut ErrorChannel, outcome: CallOutcome<(), Failure>) -> (status: i32)
    ensures
        status == outcome_status(outcome),
        final(channel)@ == after_call(old(channel)@, outcome),
        old(channel).well_formed() ==> final(channel).well_formed(),
{
    match outcome {
        CallOutcome::Returned(Ok(())) => BLITZ_OK,
        CallOutcome::Returned(Err(f)) => {
            set_error(channel, f.message.as_str().as_bytes());
            f.code
        },
        CallOutcome::Panicked(payload) => {
            let mut message = "panic: ".to_owned();
            match payload {
                Some(m) => {
                    message.append(m.as_str());
                },
                None => {
                    message.append("panic in blitz");
                },
            }
            set_error(channel, message.as_str().as_bytes());
            BLITZ_ERR_PANIC
        },
    }
}

/// Every entry point starts from a cleared channel. After it the channel holds a
/// message exactly where the call did not succeed, since a failure never carries
/// the code of success.
pub proof fn law_message_iff_failure(outcome: CallOutcome<(), Failure>)
    requires
        outcome matches CallOutcome::Returned(Err(f)) ==> f.code != BLITZ_OK,
    ensures
        outcome_status(outcome) == BLITZ_OK <==> after_call(None, outcome) is None,
{
}

/// A message never holds a zero byte, whatever the failure text was, and loses
/// nothing else: without zeros in it the text is kept as it is.
pub proof fn law_message_has_no_nul(text: Seq<u8>)
    ensures
        !without_nul(text).contains(0),
        !text.contains(0) ==> without_nul(text) == text,
    decreases text.len(),
{
    let keep = |b: u8| b != 0;
    assert forall|j: int| 0 <= j < without_nul(text).len() implies without_nul(text)[j] != 0 by {
        text.lemma_filter_pred(keep, j);
    }
    reveal(Seq::filter);
    if text.len() > 0 && !text.contains(0) {
        assert forall|j: int| 0 <= j < text.len() - 1 implies text.drop_last()[j] != 0 by {
            assert(text.contains(text[j]));
        }
        law_message_has_no_nul(text.drop_last());
        assert(text.contains(text.last()));
        assert(text.drop_last().push(text.last()) =~= text);
    }
}

} // verus!
