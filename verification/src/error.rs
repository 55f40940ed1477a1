//! Errors across the boundary between the pgrust backend and pgrx.
//!
//! The backend reports an error as a value ([`PgErrorData`]); pgrx carries
//! it as a report with a log level ([`ErrorReportWithLevel`]). A report made
//! from a backend error keeps the original, so converting it back gives the
//! very same error.

use vstd::prelude::*;

verus! {

/// pgrx's log levels; [`level_to_pg`] gives each its C `elevel` value.
#[derive(Clone, Copy, Debug, PartialEq, Eq, Structural)]
#[allow(non_camel_case_types)]
pub enum PgLogLevel {
    DEBUG5,
    DEBUG4,
    DEBUG3,
    DEBUG2,
    DEBUG1,
    LOG,
    LOG_SERVER_ONLY,
    INFO,
    NOTICE,
    WARNING,
    ERROR,
    FATAL,
    PANIC,
}

/// The C `elevel` of a level.
pub open spec fn spec_level_to_pg(level: PgLogLevel) -> i32 {
    match level {
        PgLogLevel::DEBUG5 => 10,
        PgLogLevel::DEBUG4 => 11,
        PgLogLevel::DEBUG3 => 12,
        PgLogLevel::DEBUG2 => 13,
        PgLogLevel::DEBUG1 => 14,
        PgLogLevel::LOG => 15,
        PgLogLevel::LOG_SERVER_ONLY => 16,
        PgLogLevel::INFO => 17,
        PgLogLevel::NOTICE => 18,
        PgLogLevel::WARNING => 19,
        PgLogLevel::ERROR => 21,
        PgLogLevel::FATAL => 22,
        PgLogLevel::PANIC => 23,
    }
}

/// The level of a C `elevel`: `WARNING_CLIENT_ONLY` (20) reads as WARNING,
/// and anything outside the known values as PANIC.
pub open spec fn spec_level_from_pg(elevel: i32) -> PgLogLevel {
    if elevel == 10 {
        PgLogLevel::DEBUG5
    } else if elevel == 11 {
        PgLogLevel::DEBUG4
    } else if elevel == 12 {
        PgLogLevel::DEBUG3
    } else if elevel == 13 {
        PgLogLevel::DEBUG2
    } else if elevel == 14 {
        PgLogLevel::DEBUG1
    } else if elevel == 15 {
        PgLogLevel::LOG
    } else if elevel == 16 {
        PgLogLevel::LOG_SERVER_ONLY
    } else if elevel == 17 {
        PgLogLevel::INFO
    } else if elevel == 18 {
        PgLogLevel::NOTICE
    } else if elevel == 19 || elevel == 20 {
        PgLogLevel::WARNING
    } else if elevel == 21 {
        PgLogLevel::ERROR
    } else if elevel == 22 {
        PgLogLevel::FATAL
    } else {
        PgLogLevel::PANIC
    }
}

pub fn level_to_pg(level: PgLogLevel) -> (elevel: i32)
    ensures
        elevel == spec_level_to_pg(level),
{
    match level {
        PgLogLevel::DEBUG5 => 10,
        PgLogLevel::DEBUG4 => 11,
        PgLogLevel::DEBUG3 => 12,
        PgLogLevel::DEBUG2 => 13,
        PgLogLevel::DEBUG1 => 14,
        PgLogLevel::LOG => 15,
        PgLogLevel::LOG_SERVER_ONLY => 16,
        PgLogLevel::INFO => 17,
        PgLogLevel::NOTICE => 18,
        PgLogLevel::WARNING => 19,
        PgLogLevel::ERROR => 21,
        PgLogLevel::FATAL => 22,
        PgLogLevel::PANIC => 23,
    }
}

pub fn level_from_pg(elevel: i32) -> (level: PgLogLevel)
    ensures
        level == spec_level_from_pg(elevel),
{
    match elevel {
        10 => PgLogLevel::DEBUG5,
        11 => PgLogLevel::DEBUG4,
        12 => PgLogLevel::DEBUG3,
        13 => PgLogLevel::DEBUG2,
        14 => PgLogLevel::DEBUG1,
        15 => PgLogLevel::LOG,
        16 => PgLogLevel::LOG_SERVER_ONLY,
        17 => PgLogLevel::INFO,
        18 => PgLogLevel::NOTICE,
        19 | 20 => PgLogLevel::WARNING,
        21 => PgLogLevel::ERROR,
        22 => PgLogLevel::FATAL,
        _ => PgLogLevel::PANIC,
    }
}

/// Every level survives the trip to its C value and back.
pub proof fn lemma_level_round_trip(level: PgLogLevel)
    ensures
        spec_level_from_pg(spec_level_to_pg(level)) == level,
{
}

/// The elevels follow severity: `DEBUG5` is 10 and each level is one above
/// the one before it (DEBUG5, DEBUG4, DEBUG3, DEBUG2, DEBUG1, LOG,
/// LOG_SERVER_ONLY, INFO, NOTICE, WARNING, ERROR, FATAL, PANIC), except that
/// ERROR is two above WARNING, where C's `WARNING_CLIENT_ONLY` (20) sits.
pub proof fn lemma_levels_follow_severity()
    ensures
        spec_level_to_pg(PgLogLevel::DEBUG5) == 10,
        spec_level_to_pg(PgLogLevel::DEBUG4) == spec_level_to_pg(PgLogLevel::DEBUG5) + 1,
        spec_level_to_pg(PgLogLevel::DEBUG3) == spec_level_to_pg(PgLogLevel::DEBUG4) + 1,
        spec_level_to_pg(PgLogLevel::DEBUG2) == spec_level_to_pg(PgLogLevel::DEBUG3) + 1,
        spec_level_to_pg(PgLogLevel::DEBUG1) == spec_level_to_pg(PgLogLevel::DEBUG2) + 1,
        spec_level_to_pg(PgLogLevel::LOG) == spec_level_to_pg(PgLogLevel::DEBUG1) + 1,
        spec_level_to_pg(PgLogLevel::LOG_SERVER_ONLY) == spec_level_to_pg(PgLogLevel::LOG) + 1,
        spec_level_to_pg(PgLogLevel::INFO) == spec_level_to_pg(PgLogLevel::LOG_SERVER_ONLY) + 1,
        spec_level_to_pg(PgLogLevel::NOTICE) == spec_level_to_pg(PgLogLevel::INFO) + 1,
        spec_level_to_pg(PgLogLevel::WARNING) == spec_level_to_pg(PgLogLevel::NOTICE) + 1,
        spec_level_to_pg(PgLogLevel::ERROR) == spec_level_to_pg(PgLogLevel::WARNING) + 2,
        spec_level_to_pg(PgLogLevel::FATAL) == spec_level_to_pg(PgLogLevel::ERROR) + 1,
        spec_level_to_pg(PgLogLevel::PANIC) == spec_level_to_pg(PgLogLevel::FATAL) + 1,
{
}

/// Every known elevel reads back as the level that has it; 20
/// (`WARNING_CLIENT_ONLY`) reads as WARNING.
pub proof fn lemma_known_elevels_read_back(elevel: i32)
    requires
        10 <= elevel <= 23,
    ensures
        elevel != 20 ==> spec_level_to_pg(spec_level_from_pg(elevel)) == elevel,
        elevel == 20 ==> spec_level_from_pg(elevel) == PgLogLevel::WARNING,
{
}

/// Where in the source a backend error was raised.
#[derive(Debug, PartialEq, Eq)]
pub struct PgErrorLocation {
    pub file: String,
    pub line: i32,
    pub funcname: String,
}

/// A backend error: what the backend's error value carries.
#[derive(Debug, PartialEq, Eq)]
pub struct PgErrorData {
    /// The C `elevel`.
    pub level: i32,
    /// The SQLSTATE, encoded as C's `MAKE_SQLSTATE` does.
    pub sqlstate: i32,
    pub message: String,
    pub detail: Option<String>,
    pub hint: Option<String>,
    pub domain: Option<String>,
    pub location: Option<PgErrorLocation>,
}

/// Where in the source pgrx raised a report.
#[derive(Debug, PartialEq, Eq)]
pub struct ErrorReportLocation {
    pub file: String,
    pub funcname: Option<String>,
    pub line: u32,
    pub col: u32,
}

/// pgrx's error report.
#[derive(Debug, PartialEq, Eq)]
pub struct ErrorReport {
    /// The SQLSTATE, encoded as C's `MAKE_SQLSTATE` does.
    pub sqlerrcode: i32,
    pub message: String,
    pub hint: Option<String>,
    pub detail: Option<String>,
    pub domain: Option<String>,
    pub location: ErrorReportLocation,
    /// The backend error this report was made from, if any.
    pub pgrust: Option<PgErrorData>,
}

/// A report together with the level it is raised at.
#[derive(Debug, PartialEq, Eq)]
pub struct ErrorReportWithLevel {
    pub level: PgLogLevel,
    pub inner: ErrorReport,
}

/// What pgrx's function wrapper caught.
#[derive(Debug, PartialEq, Eq)]
pub enum CaughtError {
    /// A backend error re-raised through pgrx.
    PostgresError(ErrorReportWithLevel),
    /// A report pgrx code raised.
    ErrorReport(ErrorReportWithLevel),
    /// A Rust panic, with the report made of it.
    RustPanic { ereport: ErrorReportWithLevel },
}

fn copy_text(s: &String) -> (r: String)
    ensures
        r == *s,
{
    s.clone()
}

fn copy_opt_text(s: &Option<String>) -> (r: Option<String>)
    ensures
        r == *s,
{
    match s {
        Some(t) => Some(copy_text(t)),
        None => None,
    }
}

/// A copy of a backend error.
pub fn copy_pg_error(e: &PgErrorData) -> (r: PgErrorData)
    ensures
        r == *e,
{
    PgErrorData {
        level: e.level,
        sqlstate: e.sqlstate,
        message: copy_text(&e.message),
        detail: copy_opt_text(&e.detail),
        hint: copy_opt_text(&e.hint),
        domain: copy_opt_text(&e.domain),
        location: match &e.location {
            Some(l) => Some(
                PgErrorLocation { file: copy_text(&l.file), line: l.line, funcname: copy_text(&l.funcname) },
            ),
            None => None,
        },
    }
}

/// `r` is the report made of a backend error: its level, SQLSTATE and texts,
/// no source location of pgrx's own, and the error itself kept alongside.
pub open spec fn is_report_of(r: ErrorReportWithLevel, err: PgErrorData) -> bool {
    &&& r.level == spec_level_from_pg(err.level)
    &&& r.inner.sqlerrcode == err.sqlstate
    &&& r.inner.message == err.message
    &&& r.inner.hint == err.hint
    &&& r.inner.detail == err.detail
    &&& r.inner.domain == err.domain
    &&& r.inner.location.file@.len() == 0
    &&& r.inner.location.funcname is None
    &&& r.inner.location.line == 0
    &&& r.inner.location.col == 0
    &&& r.inner.pgrust == Some(err)
}

/// `e` is the backend error a report stands for: the original when the
/// report was made from one; otherwise one built from the report's level,
/// SQLSTATE and texts, with a location exactly when the report names a
/// source file (its function name, or an empty one).
pub open spec fn is_pg_error_of(e: PgErrorData, report: ErrorReportWithLevel) -> bool {
    match report.inner.pgrust {
        Some(orig) => e == orig,
        None => {
            &&& e.level == spec_level_to_pg(report.level)
            &&& e.sqlstate == report.inner.sqlerrcode
            &&& e.message == report.inner.message
            &&& e.detail == report.inner.detail
            &&& e.hint == report.inner.hint
            &&& e.domain == report.inner.domain
            &&& if report.inner.location.file@.len() == 0 {
                e.location is None
            } else {
                e.location matches Some(l) && {
                    &&& l.file == report.inner.location.file
                    &&& l.line == report.inner.location.line as i32
                    &&& match report.inner.location.funcname {
                        Some(f) => l.funcname == f,
                        None => l.funcname@.len() == 0,
                    }
                }
            }
        },
    }
}

pub fn report_from_pg_error(err: PgErrorData) -> (r: ErrorReportWithLevel)
    ensures
        is_report_of(r, err),
{
    ErrorReportWithLevel {
        level: level_from_pg(err.level),
        inner: ErrorReport {
            sqlerrcode: err.sqlstate,
            message: copy_text(&err.message),
            hint: copy_opt_text(&err.hint),
            detail: copy_opt_text(&err.detail),
            domain: copy_opt_text(&err.domain),
            location: ErrorReportLocation { file: String::new(), funcname: None, line: 0, col: 0 },
            pgrust: Some(err),
        },
    }
}

pub fn to_pg_error(report: ErrorReportWithLevel) -> (r: PgErrorData)
    ensures
        is_pg_error_of(r, report),
{
    let ErrorReportWithLevel { level, inner } = report;
    if let Some(orig) = inner.pgrust {
        return orig;
    }
    let location = if inner.location.file.as_str().is_empty() {
        None
    } else {
        Some(
            PgErrorLocation {
                file: inner.location.file,
                line: inner.location.line as i32,
                funcname: match inner.location.funcname {
                    Some(f) => f,
                    None => String::new(),
                },
            },
        )
    };
    PgErrorData {
        level: level_to_pg(level),
        sqlstate: inner.sqlerrcode,
        message: inner.message,
        detail: inner.detail,
        hint: inner.hint,
        domain: inner.domain,
        location,
    }
}

/// The backend error for what the function wrapper caught: the error of
/// the report it carries.
pub fn caught_to_pg_error(caught: CaughtError) -> (r: PgErrorData)
    ensures
        match caught {
            CaughtError::PostgresError(rep) => is_pg_error_of(r, rep),
            CaughtError::ErrorReport(rep) => is_pg_error_of(r, rep),
            CaughtError::RustPanic { ereport } => is_pg_error_of(r, ereport),
        },
{
    match caught {
        CaughtError::PostgresError(r) | CaughtError::ErrorReport(r) => to_pg_error(r),
        CaughtError::RustPanic { ereport } => to_pg_error(ereport),
    }
}

/// What becomes of a report after the backend's `ThrowErrorData` returned.
#[derive(Debug, PartialEq, Eq)]
pub enum EreportOutcome {
    /// The report was emitted and the call goes on.
    Returned,
    /// The backend raised this error; it propagates.
    Raise(PgErrorData),
    /// A report at ERROR or above came back without raising; the caller
    /// raises an internal error in its place.
    NotRaised,
}

/// The last step of `do_ereport`, given the level of the report and what
/// the backend's `ThrowErrorData` returned for it.
pub fn do_ereport_outcome(level: PgLogLevel, thrown: Result<(), PgErrorData>) -> (r: EreportOutcome)
    ensures
        r == match thrown {
            Err(e) => EreportOutcome::Raise(e),
            Ok(()) => if spec_level_to_pg(level) >= 21 {
                EreportOutcome::NotRaised
            } else {
                EreportOutcome::Returned
            },
        },
{
    match thrown {
        Err(e) => EreportOutcome::Raise(e),
        Ok(()) => {
            if level_to_pg(level) >= 21 {
                EreportOutcome::NotRaised
            } else {
                EreportOutcome::Returned
            }
        },
    }
}

/// A report made from a backend error converts back to that very error.
pub proof fn lemma_backend_error_round_trip(
    err: PgErrorData,
    report: ErrorReportWithLevel,
    back: PgErrorData,
)
    requires
        is_report_of(report, err),
        is_pg_error_of(back, report),
    ensures
        back == err,
{
}

/// A report raised by pgrx code reaches the backend and comes back with the
/// same level, SQLSTATE, message, detail, hint and domain.
pub proof fn lemma_report_round_trip(
    report: ErrorReportWithLevel,
    err: PgErrorData,
    back: ErrorReportWithLevel,
)
    requires
        report.inner.pgrust is None,
        is_pg_error_of(err, report),
        is_report_of(back, err),
    ensures
        back.level == report.level,
        back.inner.sqlerrcode == report.inner.sqlerrcode,
        back.inner.message == report.inner.message,
        back.inner.detail == report.inner.detail,
        back.inner.hint == report.inner.hint,
        back.inner.domain == report.inner.domain,
{
    lemma_level_round_trip(report.level);
}

} // verus!
