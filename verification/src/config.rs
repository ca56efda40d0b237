//! Build-time configuration of the bail diagnostics.
//!
//! A build selects at most one log backend and at most one log severity
//! level. Selecting two backends, two levels, a backend without a level, or a
//! level without a backend is ambiguous and must fail the build with a
//! distinguishing message rather than compile with a silently resolved
//! meaning. Selecting nothing falls back to plain standard-output printing.
//!
//! [`validate_features`] is that check as a total, verified decision: a build
//! script or code generator calls it with the selected flags and either gets
//! the one [`LogTarget`] the selection denotes, or the one [`FeatureError`]
//! that names what is wrong.

use vstd::prelude::*;

verus! {

/// The build-time selection: one flag per selectable backend and level.
#[derive(Clone, Copy, Debug, PartialEq, Eq, Structural)]
pub struct Features {
    /// Log through the `log` facade.
    pub log: bool,
    /// Log through the `tracing` facade.
    pub tracing: bool,
    /// Log at trace severity.
    pub trace: bool,
    /// Log at debug severity.
    pub debug: bool,
    /// Log at info severity.
    pub info: bool,
    /// Log at warn severity.
    pub warn: bool,
    /// Log at error severity.
    pub error: bool,
}

/// A structured logging backend.
#[derive(Clone, Copy, Debug, PartialEq, Eq, Structural)]
pub enum Backend {
    /// The `log` facade.
    Log,
    /// The `tracing` facade.
    Tracing,
}

/// A log severity level.
#[derive(Clone, Copy, Debug, PartialEq, Eq, Structural)]
pub enum Level {
    /// Trace severity.
    Trace,
    /// Debug severity.
    Debug,
    /// Info severity.
    Info,
    /// Warn severity.
    Warn,
    /// Error severity.
    Error,
}

/// Where a valid selection sends the bail diagnostics.
#[derive(Clone, Copy, Debug, PartialEq, Eq, Structural)]
pub enum LogTarget {
    /// No backend and no level selected: print the line to standard output.
    Stdout,
    /// The selected backend at the selected severity level.
    Structured(Backend, Level),
}

/// Why a selection is rejected.
#[derive(Clone, Copy, Debug, PartialEq, Eq, Structural)]
pub enum FeatureError {
    /// More than one log backend is selected.
    MultipleBackends,
    /// More than one log severity level is selected.
    MultipleLevels,
    /// A backend is selected, but no severity level is.
    MissingLevel,
    /// A severity level is selected, but no backend is.
    MissingBackend,
}

impl FeatureError {
    /// The build error text for this rejected selection; each variant gets
    /// its own distinguishing message.
    pub fn message(&self) -> (r: &'static str)
        ensures
            *self is MultipleBackends ==> r@ == "multiple log backend features are set (log, tracing)"@,
            *self is MultipleLevels ==> r@ == "multiple log level features are set (trace, debug, info, warn, error)"@,
            *self is MissingLevel ==> r@ == "a log backend feature is set (log, tracing), but no log level feature is set (trace, debug, info, warn, error)"@,
            *self is MissingBackend ==> r@ == "a log level feature is set (trace, debug, info, warn, error), but no log backend feature is set (log, tracing)"@,
    {
        match self {
            FeatureError::MultipleBackends => "multiple log backend features are set (log, tracing)",
            FeatureError::MultipleLevels => "multiple log level features are set (trace, debug, info, warn, error)",
            FeatureError::MissingLevel => "a log backend feature is set (log, tracing), but no log level feature is set (trace, debug, info, warn, error)",
            FeatureError::MissingBackend => "a log level feature is set (trace, debug, info, warn, error), but no log backend feature is set (log, tracing)",
        }
    }
}

/// How many backends the selection names.
pub open spec fn spec_backend_count(f: Features) -> int {
    (if f.log {
        1int
    } else {
        0int
    }) + (if f.tracing {
        1int
    } else {
        0int
    })
}

/// How many severity levels the selection names.
pub open spec fn spec_level_count(f: Features) -> int {
    (if f.trace {
        1int
    } else {
        0int
    }) + (if f.debug {
        1int
    } else {
        0int
    }) + (if f.info {
        1int
    } else {
        0int
    }) + (if f.warn {
        1int
    } else {
        0int
    }) + (if f.error {
        1int
    } else {
        0int
    })
}

/// The backend a selection names; meaningful when it names exactly one.
pub open spec fn spec_backend(f: Features) -> Backend {
    if f.log {
        Backend::Log
    } else {
        Backend::Tracing
    }
}

/// The severity level a selection names; meaningful when it names exactly
/// one.
pub open spec fn spec_level(f: Features) -> Level {
    if f.trace {
        Level::Trace
    } else if f.debug {
        Level::Debug
    } else if f.info {
        Level::Info
    } else if f.warn {
        Level::Warn
    } else {
        Level::Error
    }
}

/// The decision table for a selection: the first ambiguity found, in the
/// order the build reports them, or the one target the selection denotes.
pub open spec fn spec_validate(f: Features) -> Result<LogTarget, FeatureError> {
    if spec_backend_count(f) > 1 {
        Err(FeatureError::MultipleBackends)
    } else if spec_level_count(f) > 1 {
        Err(FeatureError::MultipleLevels)
    } else if spec_backend_count(f) == 1 && spec_level_count(f) == 0 {
        Err(FeatureError::MissingLevel)
    } else if spec_backend_count(f) == 0 && spec_level_count(f) == 1 {
        Err(FeatureError::MissingBackend)
    } else if spec_backend_count(f) == 0 {
        Ok(LogTarget::Stdout)
    } else {
        Ok(LogTarget::Structured(spec_backend(f), spec_level(f)))
    }
}

/// Check a build-time selection: reject every ambiguous combination with its
/// distinguishing error, and resolve every valid one to its target.
pub fn validate_features(f: &Features) -> (r: Result<LogTarget, FeatureError>)
    ensures
        r == spec_validate(*f),
{
    let backends: u32 = (if f.log {
        1
    } else {
        0
    }) + (if f.tracing {
        1
    } else {
        0
    });
    let levels: u32 = (if f.trace {
        1
    } else {
        0
    }) + (if f.debug {
        1
    } else {
        0
    }) + (if f.info {
        1
    } else {
        0
    }) + (if f.warn {
        1
    } else {
        0
    }) + (if f.error {
        1
    } else {
        0
    });
    if backends > 1 {
        Err(FeatureError::MultipleBackends)
    } else if levels > 1 {
        Err(FeatureError::MultipleLevels)
    } else if backends == 1 && levels == 0 {
        Err(FeatureError::MissingLevel)
    } else if backends == 0 && levels == 1 {
        Err(FeatureError::MissingBackend)
    } else if backends == 0 {
        Ok(LogTarget::Stdout)
    } else {
        let backend = if f.log {
            Backend::Log
        } else {
            Backend::Tracing
        };
        let level = if f.trace {
            Level::Trace
        } else if f.debug {
            Level::Debug
        } else if f.info {
            Level::Info
        } else if f.warn {
            Level::Warn
        } else {
            Level::Error
        };
        Ok(LogTarget::Structured(backend, level))
    }
}

/// Law: each of the four ambiguous selections is rejected with its own
/// distinguishing error, and each unambiguous selection resolves to its
/// target; no selection is silently resolved.
pub proof fn lemma_feature_validation(f: Features)
    ensures
        spec_backend_count(f) > 1 ==> spec_validate(f) == Err::<LogTarget, FeatureError>(
            FeatureError::MultipleBackends,
        ),
        spec_backend_count(f) <= 1 && spec_level_count(f) > 1 ==> spec_validate(f) == Err::<
            LogTarget,
            FeatureError,
        >(FeatureError::MultipleLevels),
        spec_backend_count(f) == 1 && spec_level_count(f) == 0 ==> spec_validate(f) == Err::<
            LogTarget,
            FeatureError,
        >(FeatureError::MissingLevel),
        spec_backend_count(f) == 0 && spec_level_count(f) == 1 ==> spec_validate(f) == Err::<
            LogTarget,
            FeatureError,
        >(FeatureError::MissingBackend),
        spec_backend_count(f) == 0 && spec_level_count(f) == 0 ==> spec_validate(f) == Ok::<
            LogTarget,
            FeatureError,
        >(LogTarget::Stdout),
        spec_backend_count(f) == 1 && spec_level_count(f) == 1 ==> spec_validate(f) == Ok::<
            LogTarget,
            FeatureError,
        >(LogTarget::Structured(spec_backend(f), spec_level(f))),
{
}

} // verus!
