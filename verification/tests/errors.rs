//! Codes, messages and the guard.

use imbh_c::error::{
    classify, ErrorCategory, guard, imbh_last_error_message, LastError, panic_message,
    PanicPayload, CallError, EngineError,
};
use imbh_c::imbh_error;

fn engine(category: ErrorCategory, backpressure: bool, not_found: bool) -> EngineError {
    EngineError { category, backpressure, not_found, message: "engine says no".to_owned() }
}

#[test]
fn codes_have_their_numbers() {
    let codes = [
        imbh_error::Success,
        imbh_error::InvalidArg,
        imbh_error::Panic,
        imbh_error::NotFound,
        imbh_error::Backpressure,
        imbh_error::Open,
        imbh_error::Ingest,
        imbh_error::Query,
        imbh_error::Storage,
        imbh_error::Config,
        imbh_error::Closed,
    ];
    for (i, code) in codes.iter().enumerate() {
        assert_eq!(code.code(), i as i32);
    }
}

#[test]
fn every_category_has_its_code() {
    let expected = [
        (ErrorCategory::Open, imbh_error::Open),
        (ErrorCategory::Ingest, imbh_error::Ingest),
        (ErrorCategory::Query, imbh_error::Query),
        (ErrorCategory::Storage, imbh_error::Storage),
        (ErrorCategory::Config, imbh_error::Config),
        (ErrorCategory::Closed, imbh_error::Closed),
        (ErrorCategory::Other, imbh_error::Storage),
    ];
    for (category, code) in expected {
        assert_eq!(classify(&engine(category, false, false)), code);
    }
}

#[test]
fn classifiers_come_before_the_category() {
    assert_eq!(classify(&engine(ErrorCategory::Ingest, true, false)), imbh_error::Backpressure);
    assert_eq!(classify(&engine(ErrorCategory::Ingest, true, true)), imbh_error::Backpressure);
    assert_eq!(classify(&engine(ErrorCategory::Query, false, true)), imbh_error::NotFound);
}

#[test]
fn guard_reports_every_outcome() {
    let mut last = LastError::new();
    assert_eq!(imbh_last_error_message(&last), None);

    let failed = Ok(Err(CallError::InvalidArg("null".to_owned())));
    assert_eq!(guard(failed, &mut last), imbh_error::InvalidArg);
    assert_eq!(imbh_last_error_message(&last), Some("null"));

    let failed = Ok(Err(CallError::Query("promql: bad".to_owned())));
    assert_eq!(guard(failed, &mut last), imbh_error::Query);
    assert_eq!(imbh_last_error_message(&last), Some("promql: bad"));

    let failed = Ok(Err(CallError::from(engine(ErrorCategory::Closed, false, false))));
    assert_eq!(guard(failed, &mut last), imbh_error::Closed);
    assert_eq!(imbh_last_error_message(&last), Some("engine says no"));

    let panicked = Err(PanicPayload::Text("index out of bounds".to_owned()));
    assert_eq!(guard(panicked, &mut last), imbh_error::Panic);
    assert_eq!(imbh_last_error_message(&last), Some("panic: index out of bounds"));

    assert_eq!(guard(Err(PanicPayload::Other), &mut last), imbh_error::Panic);
    assert_eq!(imbh_last_error_message(&last), Some("panic: unknown panic"));

    assert_eq!(guard(Ok(Ok(())), &mut last), imbh_error::Success);
    assert_eq!(imbh_last_error_message(&last), None);
}

#[test]
fn panic_messages_come_from_the_payload() {
    assert_eq!(panic_message(&PanicPayload::Str("boom".to_owned())), "boom");
    assert_eq!(panic_message(&PanicPayload::Text("bang".to_owned())), "bang");
    assert_eq!(panic_message(&PanicPayload::Other), "unknown panic");
}

#[test]
fn a_nul_does_not_end_the_message() {
    let mut last = LastError::new();
    let failed = Ok(Err(CallError::Query("a\0b\0".to_owned())));
    assert_eq!(guard(failed, &mut last), imbh_error::Query);
    assert_eq!(imbh_last_error_message(&last), Some("a\u{fffd}b\u{fffd}"));
}
