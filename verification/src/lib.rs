//! Bailing is an error-handling pattern that takes the middle path between
//! `unwrap` and `?`:
//!
//! - Compared to `unwrap`: a bail exits the surrounding routine or loop
//!   (`return`, `continue`, or `break`) instead of panicking.
//! - Compared to `?`: a bail logs or discards the failure instead of
//!   propagating it to the caller.
//!
//! This crate provides the verified core of that pattern:
//!
//! - [`IntoResult`] normalizes the three fallible shapes (`bool`, `Option`,
//!   `Result`) into a single two-armed outcome.
//! - [`splice`](exit::splice) consumes a normalized outcome at a call site and
//!   either yields the success payload or hands back the configured exit for
//!   the call site to perform.
//! - [`should_log`](exit::should_log) decides whether an observed failure is
//!   logged, under the silent, always-log, and log-once policies, and
//!   [`observe`](exit::observe) composes the two decisions for one call site.
//! - [`bail_message`](message::bail_message) renders the diagnostic line that
//!   a logging bail emits.
//! - [`validate_features`](config::validate_features) checks a build-time
//!   selection of log backend and log level and rejects ambiguous choices.

use vstd::prelude::*;

pub mod config;
pub mod exit;
pub mod latch;
pub mod message;

pub use config::{validate_features, Backend, FeatureError, Features, Level, LogTarget};
pub use exit::{observe, should_log, splice, ExitKind, LogPolicy, LoopTarget, Splice};
pub use latch::OnceLatch;
pub use message::{bail_message, decimal_string};

verus! {

/// A trait for types that can be separated into success and failure values.
///
/// This trait is implemented for [`Result`], [`Option`], and [`bool`]; any
/// other type can participate by supplying its own reduction to a success
/// payload or a failure detail. No other requirement is imposed.
pub trait IntoResult<T, E> {
    /// The normalized outcome of this value: `Ok` with the success payload,
    /// or `Err` with the failure detail.
    spec fn outcome(self) -> Result<T, E>;

    /// Return the success or failure value as a `Result`.
    fn into_result(self) -> (r: Result<T, E>)
        ensures
            r == self.outcome(),
    ;
}

/// A flag is success exactly when it is `true`; neither arm carries a payload
/// beyond the flag itself.
impl IntoResult<bool, bool> for bool {
    open spec fn outcome(self) -> Result<bool, bool> {
        if self {
            Ok(true)
        } else {
            Err(false)
        }
    }

    fn into_result(self) -> (r: Result<bool, bool>) {
        if self {
            Ok(true)
        } else {
            Err(false)
        }
    }
}

/// An optional value is success exactly when it is present; absence carries an
/// empty marker as the failure detail, so that the detail type stays uniform.
impl<T> IntoResult<T, Option<()>> for Option<T> {
    open spec fn outcome(self) -> Result<T, Option<()>> {
        match self {
            Some(t) => Ok(t),
            None => Err(None),
        }
    }

    fn into_result(self) -> (r: Result<T, Option<()>>) {
        match self {
            Some(t) => Ok(t),
            None => Err(None),
        }
    }
}

/// A success-or-error value is already normalized.
impl<T, E> IntoResult<T, E> for Result<T, E> {
    open spec fn outcome(self) -> Result<T, E> {
        self
    }

    fn into_result(self) -> (r: Result<T, E>) {
        self
    }
}

} // verus!
