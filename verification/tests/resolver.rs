use kasa_cloud::errors::ClientError;
use kasa_cloud::settings::{resolve_login, setup_guard, LoginDetails, Settings};

fn record() -> Settings {
    Settings::new(
        String::from("user@example.com"),
        String::from("hunter2"),
        String::from("cached-token"),
    )
}

#[test]
fn only_username_is_invalid_arguments() {
    let r = resolve_login(Some(String::from("user@example.com")), None, Some(record()));
    assert_eq!(r, Err(ClientError::InvalidArguments));
}

#[test]
fn only_password_is_invalid_arguments() {
    let r = resolve_login(None, Some(String::from("hunter2")), None);
    assert_eq!(r, Err(ClientError::InvalidArguments));
}

#[test]
fn both_flags_resolve_to_explicit_ignoring_record() {
    let r = resolve_login(
        Some(String::from("other@example.com")),
        Some(String::from("secret")),
        Some(record()),
    );
    assert_eq!(
        r,
        Ok(LoginDetails::Explicit(
            String::from("other@example.com"),
            String::from("secret"),
        ))
    );
}

#[test]
fn no_flags_resolve_to_stored_record() {
    let r = resolve_login(None, None, Some(record()));
    assert_eq!(r, Ok(LoginDetails::Stored(record())));
}

#[test]
fn no_flags_no_record_is_missing_configuration() {
    let r = resolve_login(None, None, None);
    assert_eq!(r, Err(ClientError::MissingConfiguration));
}

#[test]
fn setup_against_existing_record_fails_without_overwrite() {
    assert_eq!(setup_guard(true, false), Err(ClientError::ExistingConfiguration));
}

#[test]
fn setup_against_existing_record_proceeds_with_overwrite() {
    assert_eq!(setup_guard(true, true), Ok(()));
}

#[test]
fn setup_against_absent_record_proceeds() {
    assert_eq!(setup_guard(false, false), Ok(()));
    assert_eq!(setup_guard(false, true), Ok(()));
}
