//! Return-exit call sites: yield the payload on success, return early from
//! the enclosing routine on failure, under each logging policy.

use std::fmt::Debug;

use tiny_bail::{bail_message, observe, ExitKind, IntoResult, LogPolicy, OnceLatch, Splice};

/// A routine with one return-exit call site: on failure it returns the
/// routine's default value.
fn bail_return<T: Eq + Debug, E: Debug, I: IntoResult<T, E>>(
    policy: LogPolicy,
    latch: &mut OnceLatch,
    outer: I,
    inner: T,
) -> i32 {
    let x = match observe(ExitKind::Return, policy, latch, outer) {
        (Splice::Yield(v), _) => v,
        (Splice::Bail(_, detail), log) => {
            if log {
                println!(
                    "{}",
                    bail_message("tests/return_exits.rs", 1, 1, "outer", Some(&format!("{:?}", detail)))
                );
            }
            return Default::default();
        }
    };
    assert_eq!(x, inner);
    2
}

/// A routine with one return-exit call site carrying an explicit early-return
/// value, evaluated only on the failure path.
fn bail_return_with<T: Eq + Debug, E: Debug, I: IntoResult<T, E>>(
    policy: LogPolicy,
    latch: &mut OnceLatch,
    ret: i32,
    outer: I,
    inner: T,
) -> i32 {
    let x = match observe(ExitKind::Return, policy, latch, outer) {
        (Splice::Yield(v), _) => v,
        (Splice::Bail(_, detail), log) => {
            if log {
                println!(
                    "{}",
                    bail_message("tests/return_exits.rs", 2, 1, "outer", Some(&format!("{:?}", detail)))
                );
            }
            return ret;
        }
    };
    assert_eq!(x, inner);
    2
}

#[test]
fn r() {
    let mut latch = OnceLatch::new();

    // Success cases should fall through.
    let success: i32 = 2;
    assert_eq!(bail_return(LogPolicy::Always, &mut latch, true, true), success);
    assert_eq!(bail_return(LogPolicy::Always, &mut latch, Some(-1), -1), success);
    assert_eq!(bail_return(LogPolicy::Always, &mut latch, Ok::<_, ()>(-1), -1), success);

    // Failure cases should return early with the default value.
    let failure: i32 = 0;
    assert_eq!(bail_return(LogPolicy::Always, &mut latch, false, true), failure);
    assert_eq!(bail_return(LogPolicy::Always, &mut latch, None, -1), failure);
    assert_eq!(bail_return(LogPolicy::Always, &mut latch, Err(()), -1), failure);
}

#[test]
fn r_with_value() {
    let mut latch = OnceLatch::new();

    // Success cases should fall through.
    let success: i32 = 2;
    assert_eq!(bail_return_with(LogPolicy::Always, &mut latch, 1, true, true), success);
    assert_eq!(bail_return_with(LogPolicy::Always, &mut latch, 1, Some(-1), -1), success);
    assert_eq!(bail_return_with(LogPolicy::Always, &mut latch, 1, Ok::<_, ()>(-1), -1), success);

    // Failure cases should return early with the provided value.
    let failure: i32 = 1;
    assert_eq!(bail_return_with(LogPolicy::Always, &mut latch, 1, false, true), failure);
    assert_eq!(bail_return_with(LogPolicy::Always, &mut latch, 1, None, -1), failure);
    assert_eq!(bail_return_with(LogPolicy::Always, &mut latch, 1, Err(()), -1), failure);
}

#[test]
fn rq() {
    let mut latch = OnceLatch::new();

    // Success cases should fall through.
    let success: i32 = 2;
    assert_eq!(bail_return(LogPolicy::Quiet, &mut latch, true, true), success);
    assert_eq!(bail_return(LogPolicy::Quiet, &mut latch, Some(-1), -1), success);
    assert_eq!(bail_return(LogPolicy::Quiet, &mut latch, Ok::<_, ()>(-1), -1), success);

    // Failure cases should return early with the default value.
    let failure: i32 = 0;
    assert_eq!(bail_return(LogPolicy::Quiet, &mut latch, false, true), failure);
    assert_eq!(bail_return(LogPolicy::Quiet, &mut latch, None, -1), failure);
    assert_eq!(bail_return(LogPolicy::Quiet, &mut latch, Err(()), -1), failure);
}

#[test]
fn rq_with_value() {
    let mut latch = OnceLatch::new();

    // Success cases should fall through.
    let success: i32 = 2;
    assert_eq!(bail_return_with(LogPolicy::Quiet, &mut latch, 1, true, true), success);
    assert_eq!(bail_return_with(LogPolicy::Quiet, &mut latch, 1, Some(-1), -1), success);
    assert_eq!(bail_return_with(LogPolicy::Quiet, &mut latch, 1, Ok::<_, ()>(-1), -1), success);

    // Failure cases should return early with the provided value.
    let failure: i32 = 1;
    assert_eq!(bail_return_with(LogPolicy::Quiet, &mut latch, 1, false, true), failure);
    assert_eq!(bail_return_with(LogPolicy::Quiet, &mut latch, 1, None, -1), failure);
    assert_eq!(bail_return_with(LogPolicy::Quiet, &mut latch, 1, Err(()), -1), failure);
}

#[test]
fn ro() {
    let mut latch = OnceLatch::new();

    // Success cases should fall through.
    let success: i32 = 2;
    assert_eq!(bail_return(LogPolicy::Once, &mut latch, true, true), success);
    assert_eq!(bail_return(LogPolicy::Once, &mut latch, Some(-1), -1), success);
    assert_eq!(bail_return(LogPolicy::Once, &mut latch, Ok::<_, ()>(-1), -1), success);

    // Failure cases should return early with the default value.
    let failure: i32 = 0;
    assert_eq!(bail_return(LogPolicy::Once, &mut latch, false, true), failure);
    assert_eq!(bail_return(LogPolicy::Once, &mut latch, None, -1), failure);
    assert_eq!(bail_return(LogPolicy::Once, &mut latch, Err(()), -1), failure);
}

#[test]
fn ro_with_value() {
    let mut latch = OnceLatch::new();

    // Success cases should fall through.
    let success: i32 = 2;
    assert_eq!(bail_return_with(LogPolicy::Once, &mut latch, 1, true, true), success);
    assert_eq!(bail_return_with(LogPolicy::Once, &mut latch, 1, Some(-1), -1), success);
    assert_eq!(bail_return_with(LogPolicy::Once, &mut latch, 1, Ok::<_, ()>(-1), -1), success);

    // Failure cases should return early with the provided value.
    let failure: i32 = 1;
    assert_eq!(bail_return_with(LogPolicy::Once, &mut latch, 1, false, true), failure);
    assert_eq!(bail_return_with(LogPolicy::Once, &mut latch, 1, None, -1), failure);
    assert_eq!(bail_return_with(LogPolicy::Once, &mut latch, 1, Err(()), -1), failure);
}
