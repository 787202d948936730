//! The authenticated request pipeline, as an explicit state machine.
//!
//! One API call runs through at most four steps: try a cached token, detect
//! the expiry sentinel, re-authenticate exactly once, retry exactly once. The
//! machine here makes every decision; the surrounding program only performs
//! the actions it is handed (send a request, perform a login, persist a
//! record) and feeds the decoded outcome back in. The transition functions
//! are spec functions, the executable methods are proved equal to them, and
//! the retry-policy guarantees are proved as lemmas over the spec functions.

use vstd::prelude::*;

use crate::errors::ClientError;
use crate::settings::{LoginDetails, Settings};

verus! {

/// The decoded outcome of one authenticated API call, classified from the
/// response envelope `{error_code, result}`.
#[derive(Debug, Clone, PartialEq, Eq)]
pub enum ApiOutcome {
    /// `error_code == 0`: the `result` payload, as JSON text.
    Success(String),
    /// The reserved expiry sentinel code: the token is no longer valid.
    TokenExpired,
    /// Any other non-zero code: the raw response body, unrecoverable for this
    /// call.
    Error(String),
}

/// The decoded outcome of one login call.
#[derive(Debug, Clone, PartialEq, Eq)]
pub enum LoginOutcome {
    /// `error_code == 0`: the freshly minted session token.
    Token(String),
    /// A non-zero code: the raw response body of the rejection.
    Rejected(String),
}

/// What the surrounding program must do next.
#[derive(Debug, PartialEq, Eq)]
pub enum Action {
    /// Post the login request for exactly these credentials and feed the
    /// decoded `LoginOutcome` back in.
    Login { username: String, password: String },
    /// First persist `persist` to the credential record if it is `Some`, then
    /// post the API request with `token` and feed the decoded `ApiOutcome`
    /// back in.
    Send { token: String, persist: Option<Settings> },
    /// The call is over: hand this to the caller — the `result` payload as
    /// JSON text, or the error.
    Finish(Result<String, ClientError>),
}

/// Where the pipeline stands.
#[derive(Debug, Clone, Copy, PartialEq, Eq, Structural)]
pub enum Phase {
    /// A request with the cached token is outstanding.
    AwaitFirst,
    /// A login call is outstanding.
    AwaitLogin,
    /// A request with a freshly minted token is outstanding.
    AwaitRetry,
    /// Terminal: a `Finish` action has been emitted.
    Finished,
}

/// One API call's trip through the pipeline. `login_calls` and `send_calls`
/// count the actions emitted so far, so that the at-most-one-re-authentication
/// policy is visible in the state itself.
#[derive(Debug, PartialEq)]
pub struct Session {
    pub details: LoginDetails,
    pub phase: Phase,
    pub login_calls: u64,
    pub send_calls: u64,
}

/// The login action for an identity: it carries exactly the identity's own
/// username and password, wherever they came from.
pub open spec fn login_action_for(d: LoginDetails) -> Action {
    match d {
        LoginDetails::Stored(s) => Action::Login { username: s.username, password: s.password },
        LoginDetails::Explicit(u, p) => Action::Login { username: u, password: p },
    }
}

/// The record that a fresh token is written back to: the identity's own
/// username and password with the rotated token — but only for a `Stored`
/// identity. Explicit one-off credentials are never persisted.
pub open spec fn persist_for(d: LoginDetails, token: String) -> Option<Settings> {
    match d {
        LoginDetails::Stored(s) => Some(
            Settings { username: s.username, password: s.password, token },
        ),
        LoginDetails::Explicit(_, _) => None,
    }
}

/// Opening transition: a `Stored` identity tries its cached token directly; an
/// `Explicit` identity goes straight to a fresh login.
pub open spec fn start_spec(d: LoginDetails) -> (Session, Action) {
    match d {
        LoginDetails::Stored(s) => (
            Session { details: d, phase: Phase::AwaitFirst, login_calls: 0, send_calls: 1 },
            Action::Send { token: s.token, persist: None },
        ),
        LoginDetails::Explicit(_, _) => (
            Session { details: d, phase: Phase::AwaitLogin, login_calls: 1, send_calls: 0 },
            login_action_for(d),
        ),
    }
}

/// Transition on the outcome of a sent request. Success and non-expiry errors
/// are terminal in either phase. The expiry sentinel triggers the single
/// re-authentication when the token was the cached one, and is a protocol
/// violation when the token had just been minted.
pub open spec fn api_step_spec(s: Session, o: ApiOutcome) -> (Session, Action) {
    match o {
        ApiOutcome::Success(payload) => (
            Session {
                details: s.details,
                phase: Phase::Finished,
                login_calls: s.login_calls,
                send_calls: s.send_calls,
            },
            Action::Finish(Ok(payload)),
        ),
        ApiOutcome::Error(body) => (
            Session {
                details: s.details,
                phase: Phase::Finished,
                login_calls: s.login_calls,
                send_calls: s.send_calls,
            },
            Action::Finish(Err(ClientError::ApiError(body))),
        ),
        ApiOutcome::TokenExpired => if s.phase == Phase::AwaitFirst {
            (
                Session {
                    details: s.details,
                    phase: Phase::AwaitLogin,
                    login_calls: (s.login_calls + 1) as u64,
                    send_calls: s.send_calls,
                },
                login_action_for(s.details),
            )
        } else {
            (
                Session {
                    details: s.details,
                    phase: Phase::Finished,
                    login_calls: s.login_calls,
                    send_calls: s.send_calls,
                },
                Action::Finish(Err(ClientError::ProtocolInvariantViolation)),
            )
        },
    }
}

/// Transition on the outcome of a login call. A rejection is terminal. A fresh
/// token is sent exactly once more, and is persisted to the record if and only
/// if the identity came from the record.
pub open spec fn login_step_spec(s: Session, o: LoginOutcome) -> (Session, Action) {
    match o {
        LoginOutcome::Rejected(body) => (
            Session {
                details: s.details,
                phase: Phase::Finished,
                login_calls: s.login_calls,
                send_calls: s.send_calls,
            },
            Action::Finish(Err(ClientError::AuthenticationError(body))),
        ),
        LoginOutcome::Token(token) => (
            Session {
                details: s.details,
                phase: Phase::AwaitRetry,
                login_calls: s.login_calls,
                send_calls: (s.send_calls + 1) as u64,
            },
            Action::Send { token, persist: persist_for(s.details, token) },
        ),
    }
}

impl Session {
    /// Well-formedness: the counters never pass the policy's caps, and the
    /// cached-token phase only ever belongs to a `Stored` identity.
    pub open spec fn wf(self) -> bool {
        &&& self.login_calls <= 1
        &&& self.send_calls <= 2
        &&& (self.phase == Phase::AwaitFirst ==> self.details is Stored && self.login_calls == 0
            && self.send_calls == 1)
        &&& (self.phase == Phase::AwaitLogin ==> self.send_calls <= 1)
    }

    /// Open a session for one API call and return the first action.
    pub fn start(details: LoginDetails) -> (r: (Session, Action))
        ensures
            r == start_spec(details),
            r.0.wf(),
    {
        match details {
            LoginDetails::Stored(s) => {
                let token = s.token.clone();
                (
                    Session {
                        details: LoginDetails::Stored(s),
                        phase: Phase::AwaitFirst,
                        login_calls: 0,
                        send_calls: 1,
                    },
                    Action::Send { token, persist: None },
                )
            },
            LoginDetails::Explicit(u, p) => {
                let username = u.clone();
                let password = p.clone();
                (
                    Session {
                        details: LoginDetails::Explicit(u, p),
                        phase: Phase::AwaitLogin,
                        login_calls: 1,
                        send_calls: 0,
                    },
                    Action::Login { username, password },
                )
            },
        }
    }

    /// Feed back the classified outcome of a request this session asked to be
    /// sent.
    pub fn on_api_outcome(&mut self, o: ApiOutcome) -> (a: Action)
        requires
            old(self).wf(),
            old(self).phase == Phase::AwaitFirst || old(self).phase == Phase::AwaitRetry,
        ensures
            (*final(self), a) == api_step_spec(*old(self), o),
            final(self).wf(),
    {
        match o {
            ApiOutcome::Success(payload) => {
                self.phase = Phase::Finished;
                Action::Finish(Ok(payload))
            },
            ApiOutcome::Error(body) => {
                self.phase = Phase::Finished;
                Action::Finish(Err(ClientError::ApiError(body)))
            },
            ApiOutcome::TokenExpired => {
                if self.phase == Phase::AwaitFirst {
                    self.phase = Phase::AwaitLogin;
                    self.login_calls = self.login_calls + 1;
                    match &self.details {
                        LoginDetails::Stored(s) => Action::Login {
                            username: s.username.clone(),
                            password: s.password.clone(),
                        },
                        LoginDetails::Explicit(u, p) => Action::Login {
                            username: u.clone(),
                            password: p.clone(),
                        },
                    }
                } else {
                    self.phase = Phase::Finished;
                    Action::Finish(Err(ClientError::ProtocolInvariantViolation))
                }
            },
        }
    }

    /// Feed back the decoded outcome of the login call this session asked for.
    pub fn on_login_outcome(&mut self, o: LoginOutcome) -> (a: Action)
        requires
            old(self).wf(),
            old(self).phase == Phase::AwaitLogin,
        ensures
            (*final(self), a) == login_step_spec(*old(self), o),
            final(self).wf(),
    {
        match o {
            LoginOutcome::Rejected(body) => {
                self.phase = Phase::Finished;
                Action::Finish(Err(ClientError::AuthenticationError(body)))
            },
            LoginOutcome::Token(token) => {
                self.phase = Phase::AwaitRetry;
                self.send_calls = self.send_calls + 1;
                let persist = match &self.details {
                    LoginDetails::Stored(s) => Some(
                        Settings {
                            username: s.username.clone(),
                            password: s.password.clone(),
                            token: token.clone(),
                        },
                    ),
                    LoginDetails::Explicit(_, _) => None,
                };
                Action::Send { token, persist }
            },
        }
    }
}

/// The deliberate cap on retries: a session starts well-formed and every
/// transition keeps it so, and a well-formed session never exceeds one login
/// call and two sent requests. No run of the machine, whatever the service
/// answers, asks for a second re-authentication.
pub proof fn lemma_retry_policy_capped(
    d: LoginDetails,
    s: Session,
    ao: ApiOutcome,
    lo: LoginOutcome,
)
    ensures
        start_spec(d).0.wf(),
        s.wf() && (s.phase == Phase::AwaitFirst || s.phase == Phase::AwaitRetry)
            ==> api_step_spec(s, ao).0.wf(),
        s.wf() && s.phase == Phase::AwaitLogin ==> login_step_spec(s, lo).0.wf(),
        s.wf() ==> s.login_calls <= 1 && s.send_calls <= 2,
{
}

/// A `Stored` identity whose cached token the service accepts finishes with
/// the payload after zero login calls and the one original request.
pub proof fn lemma_stored_accepted_no_login(d: LoginDetails, payload: String)
    requires
        d is Stored,
    ensures
        ({
            let (s1, a1) = start_spec(d);
            let (s2, a2) = api_step_spec(s1, ApiOutcome::Success(payload));
            &&& s1.login_calls == 0
            &&& s2.login_calls == 0
            &&& s2.send_calls == 1
            &&& a2 == Action::Finish(Ok::<String, ClientError>(payload))
            &&& s2.phase == Phase::Finished
        }),
{
}

/// A `Stored` identity whose cached token yields the expiry sentinel performs
/// exactly one login call — with the record's own username and password — and
/// exactly one retried request, and the fresh token is persisted to the
/// record with the username and password unchanged.
pub proof fn lemma_stored_expired_single_reauth(st: Settings, token: String)
    ensures
        ({
            let d = LoginDetails::Stored(st);
            let (s1, a1) = start_spec(d);
            let (s2, a2) = api_step_spec(s1, ApiOutcome::TokenExpired);
            let (s3, a3) = login_step_spec(s2, LoginOutcome::Token(token));
            &&& a2 == (Action::Login { username: st.username, password: st.password })
            &&& s2.login_calls == 1
            &&& s3.login_calls == 1
            &&& s3.send_calls == 2
            &&& a3 == (Action::Send {
                token,
                persist: Some(
                    Settings { username: st.username, password: st.password, token },
                ),
            })
            &&& s3.phase == Phase::AwaitRetry
        }),
{
}

/// An `Explicit` identity performs exactly one login call — with exactly the
/// given username and password — whatever the service answers, and never has
/// a credential record written for it: its one `Send` action carries no
/// record, and every later transition is terminal.
pub proof fn lemma_explicit_one_login_no_persist(
    u: String,
    p: String,
    token: String,
    o: ApiOutcome,
)
    ensures
        ({
            let d = LoginDetails::Explicit(u, p);
            let (s1, a1) = start_spec(d);
            let (s2, a2) = login_step_spec(s1, LoginOutcome::Token(token));
            let (s3, a3) = api_step_spec(s2, o);
            &&& a1 == (Action::Login { username: u, password: p })
            &&& s1.login_calls == 1
            &&& a2 == (Action::Send { token, persist: None })
            &&& s3.login_calls == 1
            &&& a3 matches Action::Finish(_)
            &&& s3.phase == Phase::Finished
        }),
{
}

/// If the retried request also reports the expiry sentinel, the call fails
/// with `ProtocolInvariantViolation` and the session is terminal: no further
/// login or request is ever asked for.
pub proof fn lemma_retry_expiry_fatal(s: Session)
    requires
        s.phase == Phase::AwaitRetry,
    ensures
        ({
            let (s2, a2) = api_step_spec(s, ApiOutcome::TokenExpired);
            &&& a2 == Action::Finish(
                Err::<String, ClientError>(ClientError::ProtocolInvariantViolation),
            )
            &&& s2.phase == Phase::Finished
            &&& s2.login_calls == s.login_calls
            &&& s2.send_calls == s.send_calls
        }),
{
}

} // verus!
