use kasa_cloud::errors::ClientError;
use kasa_cloud::session::{Action, ApiOutcome, LoginOutcome, Phase, Session};
use kasa_cloud::settings::{LoginDetails, Settings};

fn stored() -> LoginDetails {
    LoginDetails::Stored(Settings::new(
        String::from("u"),
        String::from("p"),
        String::from("stale-token"),
    ))
}

fn payload() -> String {
    String::from("{\"deviceList\":[]}")
}

#[test]
fn stored_accepted_token_performs_zero_logins() {
    let (mut session, first) = Session::start(stored());
    assert_eq!(
        first,
        Action::Send { token: String::from("stale-token"), persist: None }
    );
    assert_eq!(session.login_calls, 0);
    let done = session.on_api_outcome(ApiOutcome::Success(payload()));
    assert_eq!(done, Action::Finish(Ok(payload())));
    assert_eq!(session.login_calls, 0);
    assert_eq!(session.send_calls, 1);
    assert_eq!(session.phase, Phase::Finished);
}

#[test]
fn stored_expired_token_reauthenticates_exactly_once_and_persists() {
    let (mut session, first) = Session::start(stored());
    assert!(matches!(first, Action::Send { .. }));
    let next = session.on_api_outcome(ApiOutcome::TokenExpired);
    assert_eq!(
        next,
        Action::Login { username: String::from("u"), password: String::from("p") }
    );
    assert_eq!(session.login_calls, 1);
    let retry = session.on_login_outcome(LoginOutcome::Token(String::from("T2")));
    assert_eq!(
        retry,
        Action::Send {
            token: String::from("T2"),
            persist: Some(Settings::new(
                String::from("u"),
                String::from("p"),
                String::from("T2"),
            )),
        }
    );
    assert_eq!(session.login_calls, 1);
    assert_eq!(session.send_calls, 2);
    let done = session.on_api_outcome(ApiOutcome::Success(payload()));
    assert_eq!(done, Action::Finish(Ok(payload())));
    assert_eq!(session.login_calls, 1);
    assert_eq!(session.send_calls, 2);
}

#[test]
fn explicit_identity_performs_one_login_and_never_persists() {
    let details = LoginDetails::Explicit(String::from("u"), String::from("p"));
    let (mut session, first) = Session::start(details);
    assert_eq!(
        first,
        Action::Login { username: String::from("u"), password: String::from("p") }
    );
    assert_eq!(session.login_calls, 1);
    let send = session.on_login_outcome(LoginOutcome::Token(String::from("fresh")));
    assert_eq!(
        send,
        Action::Send { token: String::from("fresh"), persist: None }
    );
    let done = session.on_api_outcome(ApiOutcome::Success(payload()));
    assert_eq!(done, Action::Finish(Ok(payload())));
    assert_eq!(session.login_calls, 1);
    assert_eq!(session.send_calls, 1);
}

#[test]
fn expiry_after_fresh_token_is_protocol_invariant_violation() {
    let (mut session, _) = Session::start(stored());
    session.on_api_outcome(ApiOutcome::TokenExpired);
    session.on_login_outcome(LoginOutcome::Token(String::from("T2")));
    let done = session.on_api_outcome(ApiOutcome::TokenExpired);
    assert_eq!(
        done,
        Action::Finish(Err(ClientError::ProtocolInvariantViolation))
    );
    assert_eq!(session.phase, Phase::Finished);
    assert_eq!(session.login_calls, 1);
    assert_eq!(session.send_calls, 2);
}

#[test]
fn rejected_login_is_authentication_error() {
    let details = LoginDetails::Explicit(String::from("u"), String::from("p"));
    let (mut session, _) = Session::start(details);
    let done = session.on_login_outcome(LoginOutcome::Rejected(String::from(
        "{\"error_code\":-20601}",
    )));
    assert_eq!(
        done,
        Action::Finish(Err(ClientError::AuthenticationError(String::from(
            "{\"error_code\":-20601}"
        ))))
    );
    assert_eq!(session.phase, Phase::Finished);
}

#[test]
fn non_expiry_error_is_terminal_api_error() {
    let (mut session, _) = Session::start(stored());
    let done = session.on_api_outcome(ApiOutcome::Error(String::from("{\"error_code\":-1}")));
    assert_eq!(
        done,
        Action::Finish(Err(ClientError::ApiError(String::from("{\"error_code\":-1}"))))
    );
    assert_eq!(session.phase, Phase::Finished);
    assert_eq!(session.login_calls, 0);
}
