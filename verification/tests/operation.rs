use std::cell::Cell;
use std::time::{Duration, Instant};

use net_raw::error::IoError;
use net_raw::operation::{after_attempt, Step};

/// Carries an operation out as the owner of a handle does: attempt, decide,
/// and attempt again for as long as the decision is to retry.
fn carry_out<T>(op: impl Fn() -> Result<T, IoError>) -> Result<T, IoError> {
    loop {
        match after_attempt(op()) {
            Step::Retry => {}
            Step::Return(result) => return result,
        }
    }
}

/// An operation that is interrupted `interruptions` times and then gives
/// `last`, and that counts its attempts in `attempts`.
fn scripted<'a>(
    attempts: &'a Cell<usize>,
    interruptions: usize,
    last: Result<usize, IoError>,
) -> impl Fn() -> Result<usize, IoError> + 'a {
    move || {
        let made = attempts.get();
        attempts.set(made + 1);
        if made < interruptions {
            Err(IoError::Interrupted)
        } else {
            last
        }
    }
}

#[test]
fn success_is_returned_as_it_is() {
    assert_eq!(after_attempt(Ok::<usize, IoError>(4)), Step::Return(Ok(4)));
    assert_eq!(after_attempt(Ok::<(), IoError>(())), Step::Return(Ok(())));
}

#[test]
fn interruption_asks_for_another_attempt() {
    assert_eq!(after_attempt::<usize>(Err(IoError::Interrupted)), Step::Retry);
}

#[test]
fn would_block_is_returned_as_it_is() {
    assert_eq!(
        after_attempt::<usize>(Err(IoError::WouldBlock)),
        Step::Return(Err(IoError::WouldBlock))
    );
}

#[test]
fn os_failure_keeps_its_code() {
    assert_eq!(after_attempt::<usize>(Err(IoError::Os(98))), Step::Return(Err(IoError::Os(98))));
    assert_eq!(after_attempt::<usize>(Err(IoError::Os(-1))), Step::Return(Err(IoError::Os(-1))));
    assert_ne!(after_attempt::<usize>(Err(IoError::Os(98))), Step::Return(Err(IoError::Os(13))));
}

#[test]
fn interrupted_k_times_then_success_takes_k_plus_one_attempts() {
    for k in [0usize, 1, 2, 5, 100] {
        let attempts = Cell::new(0);
        let result = carry_out(scripted(&attempts, k, Ok(7)));
        assert_eq!(result, Ok(7));
        assert_eq!(attempts.get(), k + 1);
    }
}

#[test]
fn interrupted_then_failure_surfaces_the_failure() {
    let attempts = Cell::new(0);
    let result = carry_out(scripted(&attempts, 3, Err(IoError::Os(13))));
    assert_eq!(result, Err(IoError::Os(13)));
    assert_eq!(attempts.get(), 4);
}

#[test]
fn would_block_returns_at_once_without_a_second_attempt() {
    let attempts = Cell::new(0);
    let started = Instant::now();
    let result = carry_out(scripted(&attempts, 0, Err(IoError::WouldBlock)));
    assert_eq!(result, Err(IoError::WouldBlock));
    assert_eq!(attempts.get(), 1);
    assert!(started.elapsed() < Duration::from_secs(1));
}

#[test]
fn interruption_is_never_what_the_caller_gets() {
    for k in [0usize, 1, 7] {
        for last in [Ok(4), Err(IoError::WouldBlock), Err(IoError::Os(101))] {
            let attempts = Cell::new(0);
            let result = carry_out(scripted(&attempts, k, last));
            assert_ne!(result, Err(IoError::Interrupted));
            assert_eq!(result, last);
        }
    }
}

#[test]
fn four_byte_send_reports_four_bytes_or_would_block() {
    let payload = [0xde_u8, 0xad, 0xbe, 0xef];

    let attempts = Cell::new(0);
    let sent = carry_out(scripted(&attempts, 0, Ok(payload.len())));
    assert_eq!(sent, Ok(4));

    let attempts = Cell::new(0);
    let sent = carry_out(scripted(&attempts, 2, Ok(payload.len())));
    assert_eq!(sent, Ok(4));
    assert_eq!(attempts.get(), 3);

    let attempts = Cell::new(0);
    let sent = carry_out(scripted(&attempts, 1, Err(IoError::WouldBlock)));
    assert_eq!(sent, Err(IoError::WouldBlock));
    assert!(matches!(sent, Ok(4) | Err(IoError::WouldBlock)));
}

#[test]
fn io_error_tells_its_kind() {
    assert!(IoError::WouldBlock.is_would_block());
    assert!(!IoError::Interrupted.is_would_block());
    assert!(!IoError::Os(11).is_would_block());
    assert!(IoError::Interrupted.is_interrupted());
    assert!(!IoError::WouldBlock.is_interrupted());
    assert!(!IoError::Os(4).is_interrupted());
    assert_eq!(IoError::Os(98).os_code(), Some(98));
    assert_eq!(IoError::WouldBlock.os_code(), None);
    assert_eq!(IoError::Interrupted.os_code(), None);
}
