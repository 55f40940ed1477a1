use pgrx::error::{
    caught_to_pg_error, do_ereport_outcome, level_from_pg, level_to_pg, report_from_pg_error,
    to_pg_error, CaughtError, EreportOutcome, ErrorReport, ErrorReportLocation,
    ErrorReportWithLevel, PgErrorData, PgErrorLocation, PgLogLevel,
};

const ALL: [PgLogLevel; 13] = [
    PgLogLevel::DEBUG5,
    PgLogLevel::DEBUG4,
    PgLogLevel::DEBUG3,
    PgLogLevel::DEBUG2,
    PgLogLevel::DEBUG1,
    PgLogLevel::LOG,
    PgLogLevel::LOG_SERVER_ONLY,
    PgLogLevel::INFO,
    PgLogLevel::NOTICE,
    PgLogLevel::WARNING,
    PgLogLevel::ERROR,
    PgLogLevel::FATAL,
    PgLogLevel::PANIC,
];

fn backend_error() -> PgErrorData {
    PgErrorData {
        level: 21,
        sqlstate: 0x0102_0304,
        message: "boom".to_string(),
        detail: Some("d".to_string()),
        hint: None,
        domain: Some("dom".to_string()),
        location: Some(PgErrorLocation { file: "f.rs".to_string(), line: 7, funcname: "g".to_string() }),
    }
}

fn report(file: &str, funcname: Option<&str>) -> ErrorReportWithLevel {
    ErrorReportWithLevel {
        level: PgLogLevel::WARNING,
        inner: ErrorReport {
            sqlerrcode: 42,
            message: "careful".to_string(),
            hint: Some("h".to_string()),
            detail: None,
            domain: None,
            location: ErrorReportLocation {
                file: file.to_string(),
                funcname: funcname.map(str::to_string),
                line: 12,
                col: 3,
            },
            pgrust: None,
        },
    }
}

#[test]
fn levels_round_trip() {
    for l in ALL {
        assert_eq!(level_from_pg(level_to_pg(l)), l);
    }
    assert_eq!(level_to_pg(PgLogLevel::ERROR), 21);
    assert_eq!(level_to_pg(PgLogLevel::DEBUG5), 10);
    assert_eq!(level_from_pg(20), PgLogLevel::WARNING);
    assert_eq!(level_from_pg(0), PgLogLevel::PANIC);
    assert_eq!(level_from_pg(99), PgLogLevel::PANIC);
}

#[test]
fn backend_error_round_trips_unchanged() {
    let e = backend_error();
    let r = report_from_pg_error(backend_error());
    assert_eq!(r.level, PgLogLevel::ERROR);
    assert_eq!(r.inner.sqlerrcode, 0x0102_0304);
    assert_eq!(r.inner.message, "boom");
    assert_eq!(r.inner.location.file, "");
    assert_eq!(to_pg_error(r), e);
}

#[test]
fn pgrx_report_becomes_backend_error() {
    let e = to_pg_error(report("lib.rs", Some("f")));
    assert_eq!(e.level, 19);
    assert_eq!(e.sqlstate, 42);
    assert_eq!(e.message, "careful");
    assert_eq!(e.hint.as_deref(), Some("h"));
    assert_eq!(e.detail, None);
    assert_eq!(
        e.location,
        Some(PgErrorLocation { file: "lib.rs".to_string(), line: 12, funcname: "f".to_string() })
    );
    let e = to_pg_error(report("lib.rs", None));
    assert_eq!(e.location.unwrap().funcname, "");
    assert_eq!(to_pg_error(report("", Some("f"))).location, None);
}

#[test]
fn report_survives_the_trip_through_the_backend() {
    let back = report_from_pg_error(to_pg_error(report("x.rs", None)));
    let orig = report("x.rs", None);
    assert_eq!(back.level, orig.level);
    assert_eq!(back.inner.sqlerrcode, orig.inner.sqlerrcode);
    assert_eq!(back.inner.message, orig.inner.message);
    assert_eq!(back.inner.hint, orig.inner.hint);
}

#[test]
fn caught_errors_convert_by_their_report() {
    assert_eq!(caught_to_pg_error(CaughtError::ErrorReport(report("", None))).sqlstate, 42);
    assert_eq!(
        caught_to_pg_error(CaughtError::PostgresError(report_from_pg_error(backend_error()))),
        backend_error()
    );
    assert_eq!(caught_to_pg_error(CaughtError::RustPanic { ereport: report("", None) }).level, 19);
}

#[test]
fn ereport_outcomes() {
    assert_eq!(do_ereport_outcome(PgLogLevel::NOTICE, Ok(())), EreportOutcome::Returned);
    assert_eq!(do_ereport_outcome(PgLogLevel::ERROR, Ok(())), EreportOutcome::NotRaised);
    assert_eq!(do_ereport_outcome(PgLogLevel::PANIC, Ok(())), EreportOutcome::NotRaised);
    assert_eq!(
        do_ereport_outcome(PgLogLevel::ERROR, Err(backend_error())),
        EreportOutcome::Raise(backend_error())
    );
}
