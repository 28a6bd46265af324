use tacky_borders::errors::{
    from_os_error, ErrorText, LogIfErr, OsError, StandaloneWindowsError, ToWindowsResult,
    WindowsCompatibleError, WindowsContext, WrappedWindowsError, T_E_ERROR, T_E_REENTRANCY,
    T_E_UNINIT,
};

fn os_error(code: i32, message: &str) -> OsError {
    OsError { code, message: message.to_string() }
}

fn text(message: &str, sources: &[&str]) -> ErrorText {
    ErrorText {
        message: message.to_string(),
        sources: sources.iter().map(|source| source.to_string()).collect(),
    }
}

#[test]
fn own_codes_are_failures_of_the_interface_facility() {
    let codes = [(T_E_UNINIT, 0x2222), (T_E_ERROR, 0x2223), (T_E_REENTRANCY, 0x2224)];
    for (code, number) in codes {
        assert_eq!(code as u32, 0x8004_0000 | number);
        assert!((0x0200..=0xFFFF).contains(&(code as u32 & 0xFFFF)));
    }
}

#[test]
fn errors_of_the_system_keep_code_and_message() {
    let error = from_os_error(os_error(-5, "access denied"));
    assert!(matches!(error, WindowsCompatibleError::Wrapped(_)));
    assert_eq!(error.code(), -5);
    assert_eq!(error.message(), "access denied");
    assert!(error.source().is_empty());
    assert_eq!(error.to_text(true), "access denied");
}

#[test]
fn context_is_written_in_front_and_keeps_the_code() {
    let first: Result<(), OsError> = Err(os_error(-5, "access denied"));
    let second = first.windows_context("d2d_device".to_string());
    let third = second.windows_context("could not draw".to_string());
    let error = third.unwrap_err();
    assert_eq!(error.code(), -5);
    assert_eq!(error.message(), "could not draw");
    assert_eq!(error.to_text(false), "could not draw");
    assert_eq!(error.to_text(true), "could not draw: d2d_device: access denied");
    assert_eq!(error.source().len(), 2);
}

#[test]
fn context_is_made_only_for_errors() {
    let good: Result<u8, OsError> = Ok(3);
    let good = good.with_windows_context(|| panic!("not needed"));
    assert!(matches!(good, Ok(3)));
    let bad: Result<u8, OsError> = Err(os_error(7, "inner"));
    let bad = bad.with_windows_context(|| "outer".to_string());
    let worse = bad.with_windows_context(|| "outermost".to_string());
    let error = worse.unwrap_err();
    assert_eq!(error.code(), 7);
    assert_eq!(error.to_text(true), "outermost: outer: inner");
}

#[test]
fn other_errors_get_a_code() {
    let good: Result<u8, ErrorText> = Ok(1);
    assert!(matches!(good.to_windows_result(T_E_UNINIT), Ok(1)));
    let bad: Result<u8, ErrorText> = Err(text("could not get device", &["no adapter"]));
    let error = bad.to_windows_result(T_E_UNINIT).unwrap_err();
    assert_eq!(error.code(), T_E_UNINIT);
    assert_eq!(error.message(), "could not get device");
    assert_eq!(error.to_text(true), "could not get device: no adapter");
}

#[test]
fn standalone_errors_may_have_a_source() {
    let alone = StandaloneWindowsError::new(T_E_ERROR, "alone".to_string());
    assert_eq!((alone.code(), alone.message()), (T_E_ERROR, "alone"));
    assert_eq!(WindowsCompatibleError::Standalone(alone).to_text(true), "alone");
    let caused =
        StandaloneWindowsError::with_source(1, "outer".to_string(), text("inner", &["innermost"]));
    assert_eq!(
        WindowsCompatibleError::Standalone(caused).to_text(true),
        "outer: inner: innermost"
    );
    let wrapped = WrappedWindowsError::new(2, text("wrapped", &[]));
    assert_eq!((wrapped.code(), wrapped.message()), (2, "wrapped"));
}

#[test]
fn only_errors_are_logged() {
    let good: Result<(), WindowsCompatibleError> = Ok(());
    assert_eq!(good.log_if_err(), None);
    let bad: Result<(), OsError> = Err(os_error(1, "inner"));
    let bad = bad.windows_context("outer".to_string());
    assert_eq!(bad.log_if_err(), Some("outer: inner".to_string()));
}
