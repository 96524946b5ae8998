//! Severity selection and the boundary to the logging backend.
//!
//! A query that ran for at least [`SLOW_QUERY_THRESHOLD_NANOS`] is reported as
//! a warning, any other query as informational. Before a record is built, the
//! backend's two ceilings (the compile-time one and the runtime-adjustable
//! one) are consulted; both must admit the chosen severity.

use vstd::prelude::*;

verus! {

/// `core::fmt::Arguments`, declared so that it may cross a trusted signature;
/// this crate only passes such a value through, never looks inside it.
#[verifier::external_type_specification]
#[verifier::external_body]
pub struct ExArguments<'a>(core::fmt::Arguments<'a>);

/// Importance of the emitted record. Exactly two levels are used.
#[derive(Clone, Copy, Debug, PartialEq, Eq, Structural)]
pub enum Severity {
    Informational,
    Warning,
}

/// A ceiling on record importance, mirroring the backend's filter levels from
/// most restrictive (`Off`: nothing passes) to least (`Trace`).
#[derive(Clone, Copy, Debug, PartialEq, Eq, Structural)]
pub enum LevelCeiling {
    Off,
    Error,
    Warn,
    Info,
    Debug,
    Trace,
}

/// Queries that run at least this long are reported at `Severity::Warning`.
pub const SLOW_QUERY_THRESHOLD_NANOS: u64 = 1_000_000_000;

/// Which severity a finished query is reported at, given its elapsed time.
pub open spec fn severity_spec(elapsed_ns: nat) -> Severity {
    if elapsed_ns >= SLOW_QUERY_THRESHOLD_NANOS {
        Severity::Warning
    } else {
        Severity::Informational
    }
}

/// Selects the severity for a query that took `elapsed_ns` nanoseconds:
/// `Warning` exactly when the slow-query threshold was reached.
pub fn severity_for_nanos(elapsed_ns: u64) -> (s: Severity)
    ensures
        s == severity_spec(elapsed_ns as nat),
        (s == Severity::Warning) <==> (elapsed_ns >= SLOW_QUERY_THRESHOLD_NANOS),
{
    if elapsed_ns >= SLOW_QUERY_THRESHOLD_NANOS {
        Severity::Warning
    } else {
        Severity::Informational
    }
}

/// Whether a ceiling lets a record of the given severity through.
pub open spec fn ceiling_permits(cap: LevelCeiling, sev: Severity) -> bool {
    match sev {
        Severity::Warning => match cap {
            LevelCeiling::Off | LevelCeiling::Error => false,
            _ => true,
        },
        Severity::Informational => match cap {
            LevelCeiling::Off | LevelCeiling::Error | LevelCeiling::Warn => false,
            _ => true,
        },
    }
}

/// Decides whether a record of severity `sev` passes a ceiling `cap`.
pub fn permits(cap: LevelCeiling, sev: Severity) -> (r: bool)
    ensures
        r == ceiling_permits(cap, sev),
{
    match sev {
        Severity::Warning => match cap {
            LevelCeiling::Off | LevelCeiling::Error => false,
            _ => true,
        },
        Severity::Informational => match cap {
            LevelCeiling::Off | LevelCeiling::Error | LevelCeiling::Warn => false,
            _ => true,
        },
    }
}

/// Relies on `log::STATIC_MAX_LEVEL`: the compile-time ceiling the `log` crate
/// was built with; fixed for the process, read here variant by variant.
#[verifier::external_body]
pub(crate) fn static_max_ceiling() -> LevelCeiling {
    match log::STATIC_MAX_LEVEL {
        log::LevelFilter::Off => LevelCeiling::Off,
        log::LevelFilter::Error => LevelCeiling::Error,
        log::LevelFilter::Warn => LevelCeiling::Warn,
        log::LevelFilter::Info => LevelCeiling::Info,
        log::LevelFilter::Debug => LevelCeiling::Debug,
        log::LevelFilter::Trace => LevelCeiling::Trace,
    }
}

/// Relies on `log::max_level`: the runtime-adjustable ceiling; its value
/// depends on process-wide state, so nothing is promised of it.
#[verifier::external_body]
pub(crate) fn dynamic_max_ceiling() -> LevelCeiling {
    match log::max_level() {
        log::LevelFilter::Off => LevelCeiling::Off,
        log::LevelFilter::Error => LevelCeiling::Error,
        log::LevelFilter::Warn => LevelCeiling::Warn,
        log::LevelFilter::Info => LevelCeiling::Info,
        log::LevelFilter::Debug => LevelCeiling::Debug,
        log::LevelFilter::Trace => LevelCeiling::Trace,
    }
}

/// Carries a chosen severity while a record for the backend is being built.
/// Its one method is the point where a record leaves this crate.
pub(crate) struct RecordSink {
    pub(crate) sev: Severity,
}

impl RecordSink {
    /// Relies on `log::logger` and `log::Log::log`: hands exactly one record
    /// to the installed backend, carrying this sink's severity, the message in
    /// `args`, and the fixed source tag `sqlx::query`. Named `write_fmt` so
    /// that `write!` resolves to it; nothing else calls it.
    #[verifier::external_body]
    fn write_fmt(&mut self, args: core::fmt::Arguments<'_>) {
        let level = match self.sev {
            Severity::Warning => log::Level::Warn,
            Severity::Informational => log::Level::Info,
        };
        log::logger().log(
            &log::Record::builder()
                .args(args)
                .level(level)
                .module_path_static(Some("sqlx::query"))
                .build(),
        );
    }
}

/// Relies on `core::fmt::Arguments` (built by `write!`): passes `message` on
/// to [`RecordSink::write_fmt`] unchanged, as the one-shot record of severity
/// `sev`.
#[verifier::external_body]
pub(crate) fn emit_record(sev: Severity, message: &str) {
    let mut sink = RecordSink { sev };
    write!(sink, "{}", message);
}

} // verus!
