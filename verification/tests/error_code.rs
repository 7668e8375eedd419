use ctre::error::{combine_errors, ErrorCode};

#[test]
fn error_code_ok_and_err() {
    assert!(ErrorCode::OK().is_ok());
    assert!(!ErrorCode::OK().is_err());
    assert_eq!(ErrorCode::OK().raw(), 0);
    let e = ErrorCode::from_raw(-200);
    assert!(e.is_err());
    assert_eq!(e.raw(), -200);
}

#[test]
fn error_code_or_keeps_first_error() {
    let ok = ErrorCode::OK();
    let a = ErrorCode::from_raw(-1);
    let b = ErrorCode::from_raw(-2);
    assert_eq!(ok.or(a), a);
    assert_eq!(a.or(b), a);
    assert_eq!(a.or(ok), a);
    assert_eq!(ok.or(ok), ok);
}

#[test]
fn error_code_into_result() {
    assert_eq!(ErrorCode::OK().into_result(7), Ok(7));
    assert_eq!(ErrorCode::from_raw(3).into_result(7), Err(ErrorCode::from_raw(3)));
}

#[test]
fn combine_errors_first_failure() {
    let ok = ErrorCode::OK();
    assert_eq!(combine_errors(&vec![]), ok);
    assert_eq!(combine_errors(&vec![ok, ok, ok]), ok);
    let codes = vec![ok, ErrorCode::from_raw(-3), ok, ErrorCode::from_raw(-7)];
    assert_eq!(combine_errors(&codes), ErrorCode::from_raw(-3));
    assert_eq!(combine_errors(&vec![ErrorCode::from_raw(5)]), ErrorCode::from_raw(5));
}
