use blitz::blitz_last_error_message;
use blitz::context::{blitz_context_new, context_started};
use blitz::status::{clear_error, guard, set_error, CallOutcome, ErrorChannel, Failure};
use blitz::text::push_decimal;
use blitz::{
    blitz_version, BLITZ_ERR_INVALID_ARG, BLITZ_ERR_INVALID_URL, BLITZ_ERR_INVALID_UTF8,
    BLITZ_ERR_IO, BLITZ_ERR_NETWORK, BLITZ_ERR_PANIC, BLITZ_ERR_RENDER, BLITZ_OK,
};

#[test]
fn codes_are_fixed() {
    let codes = [
        BLITZ_OK,
        BLITZ_ERR_INVALID_ARG,
        BLITZ_ERR_INVALID_UTF8,
        BLITZ_ERR_INVALID_URL,
        BLITZ_ERR_NETWORK,
        BLITZ_ERR_IO,
        BLITZ_ERR_RENDER,
        BLITZ_ERR_PANIC,
    ];
    assert_eq!(codes, [0, -1, -2, -3, -4, -5, -6, -7]);
    assert_eq!(blitz_version(), "0.1.0");
}

#[test]
fn messages_lose_their_zero_bytes() {
    let mut channel = ErrorChannel::new();
    assert_eq!(blitz_last_error_message(&channel), None);
    set_error(&mut channel, b"a\0b\0\0c");
    assert_eq!(blitz_last_error_message(&channel), Some(&b"abc"[..]));
    set_error(&mut channel, b"plain");
    assert_eq!(blitz_last_error_message(&channel), Some(&b"plain"[..]));
    set_error(&mut channel, b"\0");
    assert_eq!(blitz_last_error_message(&channel), Some(&b""[..]));
    clear_error(&mut channel);
    assert_eq!(blitz_last_error_message(&channel), None);
}

#[test]
fn guard_turns_outcomes_into_statuses() {
    let mut channel = ErrorChannel::new();
    assert_eq!(guard(&mut channel, CallOutcome::Returned(Ok(()))), BLITZ_OK);
    assert_eq!(blitz_last_error_message(&channel), None);

    let failure = Failure::new(BLITZ_ERR_IO, "disk\0 full");
    assert_eq!(guard(&mut channel, CallOutcome::Returned(Err(failure))), BLITZ_ERR_IO);
    assert_eq!(blitz_last_error_message(&channel), Some(&b"disk full"[..]));

    assert_eq!(guard(&mut channel, CallOutcome::Returned(Ok(()))), BLITZ_OK);
    assert_eq!(blitz_last_error_message(&channel), Some(&b"disk full"[..]));

    let panicked = CallOutcome::Panicked(Some("index out of bounds".to_string()));
    assert_eq!(guard(&mut channel, panicked), BLITZ_ERR_PANIC);
    assert_eq!(blitz_last_error_message(&channel), Some(&b"panic: index out of bounds"[..]));

    assert_eq!(guard(&mut channel, CallOutcome::Panicked(None)), BLITZ_ERR_PANIC);
    assert_eq!(blitz_last_error_message(&channel), Some(&b"panic: panic in blitz"[..]));
}

#[test]
fn failures_put_their_texts_together() {
    let f = Failure::of_two(BLITZ_ERR_NETWORK, "http client: ", "no");
    assert_eq!((f.code, f.message.as_str()), (BLITZ_ERR_NETWORK, "http client: no"));
    let f = Failure::of_cause(BLITZ_ERR_IO, "read ", "/x", "gone");
    assert_eq!((f.code, f.message.as_str()), (BLITZ_ERR_IO, "read /x: gone"));
}

#[test]
fn numbers_are_written_in_decimal() {
    let written = |n: u64| {
        let mut s = "n=".to_string();
        push_decimal(&mut s, n);
        s
    };
    for n in [0, 9, 10, 99, 100, 1_234_567_890, u64::MAX] {
        assert_eq!(written(n), format!("n={}", n));
    }
}

#[test]
fn context_plan_follows_the_worker_count() {
    let p = blitz_context_new(0);
    assert_eq!((p.thread_name.as_str(), p.worker_threads), ("blitz-net", None));
    let p = blitz_context_new(3);
    assert_eq!((p.thread_name.as_str(), p.worker_threads), ("blitz-net", Some(3)));
}

#[test]
fn context_failures_leave_a_message() {
    let mut channel = ErrorChannel::new();
    assert_eq!(context_started(&mut channel, CallOutcome::Returned(Ok(5))), Some(5));
    assert_eq!(blitz_last_error_message(&channel), None);

    let failed: CallOutcome<u8, String> = CallOutcome::Returned(Err("out of\0 threads".to_string()));
    assert_eq!(context_started(&mut channel, failed), None);
    assert_eq!(
        blitz_last_error_message(&channel),
        Some(&b"failed to start tokio runtime: out of threads"[..])
    );

    let panicked: CallOutcome<u8, String> = CallOutcome::Panicked(Some("x".to_string()));
    assert_eq!(context_started(&mut channel, panicked), None);
    assert_eq!(blitz_last_error_message(&channel), Some(&b"panic while creating context"[..]));
}
