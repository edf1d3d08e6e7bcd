use crate::clock::{rfc3339_millis, SessionExpiration};
use crate::config::{token_valid_at, Config, ConfigView};
use crate::errors::{AuthError, AuthErrorView, ConfigError, ConfigErrorView, StsCall};
use vstd::prelude::*;

verus! {

/// The credentials of one assumed role.
#[derive(Clone, Debug, PartialEq, Eq)]
pub struct Credentials {
    pub aws_access_key: String,
    pub aws_secret_key: String,
    pub aws_sts_token: String,
}

/// What the token-issuing service hands out: a temporary key, its secret, a
/// session token, and the end of their validity as an RFC 3339 timestamp.
#[derive(Clone, Debug, PartialEq, Eq)]
pub struct IssuedCredentials {
    pub access_key_id: String,
    pub secret_access_key: String,
    pub session_token: String,
    pub expiration: String,
}

/// A request for a session token: the long-term identity that signs it, the
/// MFA device and the one-time code read off it.
#[derive(Clone, Debug, PartialEq, Eq)]
pub struct SessionTokenRequest {
    pub access_key_id: String,
    pub secret_access_key: String,
    pub serial_number: String,
    pub token_code: String,
}

/// A session-token request over plain text.
pub struct SessionTokenRequestView {
    pub access_key_id: Seq<char>,
    pub secret_access_key: Seq<char>,
    pub serial_number: Seq<char>,
    pub token_code: Seq<char>,
}

impl View for SessionTokenRequest {
    type V = SessionTokenRequestView;

    open spec fn view(&self) -> SessionTokenRequestView {
        SessionTokenRequestView {
            access_key_id: self.access_key_id@,
            secret_access_key: self.secret_access_key@,
            serial_number: self.serial_number@,
            token_code: self.token_code@,
        }
    }
}

/// A request for the credentials of a role: the session that signs it, the
/// role, and the name under which the role is taken.
#[derive(Clone, Debug, PartialEq, Eq)]
pub struct AssumeRoleRequest {
    pub access_key_id: String,
    pub secret_access_key: String,
    pub session_token: Option<String>,
    pub role_arn: String,
    pub role_session_name: String,
}

/// Why a refresh failed: the configuration or the authentication.
#[derive(Clone, Debug, PartialEq, Eq)]
pub enum RefreshError {
    Config(ConfigError),
    Auth(AuthError),
}

/// A refresh error over plain text.
pub enum RefreshErrorView {
    Config(ConfigErrorView),
    Auth(AuthErrorView),
}

impl View for RefreshError {
    type V = RefreshErrorView;

    open spec fn view(&self) -> RefreshErrorView {
        match self {
            RefreshError::Config(error) => RefreshErrorView::Config(error@),
            RefreshError::Auth(error) => RefreshErrorView::Auth(error@),
        }
    }
}

/// What the outside hands to the refresh of the session.
#[derive(Clone, Debug, PartialEq, Eq)]
pub enum RefreshEvent {
    /// The refresh begins, at this time in milliseconds since the Unix epoch.
    Begin { now_millis: i64 },
    /// The one-time code that the operator entered.
    MfaCode(String),
    /// The service answered, with or without credentials.
    Issued(Option<IssuedCredentials>),
    /// The service refused, for this reason.
    Rejected(String),
}

/// What the refresh asks the outside to do next.
#[derive(Clone, Debug, PartialEq, Eq)]
pub enum RefreshAction {
    /// Ask the operator for the current one-time code.
    AskMfaCode,
    /// Send this request to the service.
    RequestToken(SessionTokenRequest),
    /// Store the configuration: the refresh has ended well.
    Persist,
    /// Give up with this error.
    Fail(RefreshError),
}

/// An action of the refresh over plain text.
pub enum RefreshActionView {
    AskMfaCode,
    RequestToken(SessionTokenRequestView),
    Persist,
    Fail(RefreshErrorView),
}

impl View for RefreshAction {
    type V = RefreshActionView;

    open spec fn view(&self) -> RefreshActionView {
        match self {
            RefreshAction::AskMfaCode => RefreshActionView::AskMfaCode,
            RefreshAction::RequestToken(request) => RefreshActionView::RequestToken(request@),
            RefreshAction::Persist => RefreshActionView::Persist,
            RefreshAction::Fail(error) => RefreshActionView::Fail(error@),
        }
    }
}

/// The session name under which every role is taken.
pub const ROLE_SESSION_NAME: &'static str = "dummy";

/// `config` with the key, the secret and the token of `issued` as its cached session.
pub open spec fn with_issued_session(config: ConfigView, issued: IssuedCredentials) -> ConfigView {
    ConfigView {
        aws_temp_access_key_id: Some(issued.access_key_id@),
        aws_temp_secret_access_key: Some(issued.secret_access_key@),
        aws_session_token: Some(issued.session_token@),
        ..config
    }
}

/// What the refresh asks for on `event`. At the beginning a session that is
/// still valid is only stored again; else the one-time code is asked for. With
/// the code the request is made, which needs the MFA device. An answer with
/// credentials is stored once its expiration has been read.
pub open spec fn refresh_action(config: ConfigView, event: RefreshEvent) -> RefreshActionView {
    match event {
        RefreshEvent::Begin { now_millis } => if token_valid_at(config, now_millis as int) {
            RefreshActionView::Persist
        } else {
            RefreshActionView::AskMfaCode
        },
        RefreshEvent::MfaCode(code) => match config.aws_mfa_device_arn {
            Some(device) => RefreshActionView::RequestToken(
                SessionTokenRequestView {
                    access_key_id: config.aws_access_key_id,
                    secret_access_key: config.aws_secret_access_key,
                    serial_number: device,
                    token_code: code@,
                },
            ),
            None => RefreshActionView::Fail(
                RefreshErrorView::Auth(AuthErrorView::MfaDeviceUnset),
            ),
        },
        RefreshEvent::Issued(Some(issued)) => if rfc3339_millis(issued.expiration@) is Some {
            RefreshActionView::Persist
        } else {
            RefreshActionView::Fail(RefreshErrorView::Config(ConfigErrorView::InvalidExpiration))
        },
        RefreshEvent::Issued(None) => RefreshActionView::Fail(
            RefreshErrorView::Auth(
                AuthErrorView::MissingCredentials { call: StsCall::GetSessionToken },
            ),
        ),
        RefreshEvent::Rejected(reason) => RefreshActionView::Fail(
            RefreshErrorView::Auth(
                AuthErrorView::Rejected { call: StsCall::GetSessionToken, reason: reason@ },
            ),
        ),
    }
}

/// Whether `after` is `before` once `event` has been taken in. Only an answer
/// with credentials whose expiration can be read changes the configuration:
/// its key, secret, token and expiration become the cached session. On
/// anything else, a failure too, the configuration stays as it was.
pub open spec fn refreshed(before: ConfigView, event: RefreshEvent, after: ConfigView) -> bool {
    match event {
        RefreshEvent::Issued(Some(issued)) => match rfc3339_millis(issued.expiration@) {
            Some(millis) => {
                &&& after.aws_session_expiration matches Some(expiration)
                &&& expiration.text == issued.expiration@
                &&& expiration.timestamp_millis == millis
                &&& after == ConfigView {
                    aws_session_expiration: after.aws_session_expiration,
                    ..with_issued_session(before, issued)
                }
            },
            None => after == before,
        },
        _ => after == before,
    }
}

/// One step of refreshing the cached session: takes in what the outside has
/// handed over and tells what to do next.
pub fn update_temp_credentials(config: &mut Config, event: RefreshEvent) -> (r: RefreshAction)
    ensures
        r@ == refresh_action(old(config)@, event),
        refreshed(old(config)@, event, final(config)@),
{
    match event {
        RefreshEvent::Begin { now_millis } => {
            if config.is_token_valid_at(now_millis) {
                RefreshAction::Persist
            } else {
                RefreshAction::AskMfaCode
            }
        },
        RefreshEvent::MfaCode(code) => {
            match &config.aws_mfa_device_arn {
                Some(device) => RefreshAction::RequestToken(
                    SessionTokenRequest {
                        access_key_id: config.aws_access_key_id.clone(),
                        secret_access_key: config.aws_secret_access_key.clone(),
                        serial_number: device.clone(),
                        token_code: code,
                    },
                ),
                None => RefreshAction::Fail(RefreshError::Auth(AuthError::MfaDeviceUnset)),
            }
        },
        RefreshEvent::Issued(Some(issued)) => {
            match SessionExpiration::parse(issued.expiration) {
                Ok(expiration) => {
                    config.aws_temp_access_key_id = Some(issued.access_key_id);
                    config.aws_temp_secret_access_key = Some(issued.secret_access_key);
                    config.aws_session_token = Some(issued.session_token);
                    config.aws_session_expiration = Some(expiration);
                    RefreshAction::Persist
                },
                Err(error) => RefreshAction::Fail(RefreshError::Config(error)),
            }
        },
        RefreshEvent::Issued(None) => RefreshAction::Fail(
            RefreshError::Auth(AuthError::MissingCredentials { call: StsCall::GetSessionToken }),
        ),
        RefreshEvent::Rejected(reason) => RefreshAction::Fail(
            RefreshError::Auth(AuthError::Rejected { call: StsCall::GetSessionToken, reason }),
        ),
    }
}

/// The request for the credentials of the role `role_arn`, signed with the
/// cached session of `config` and made under the fixed session name.
pub fn assume_role(config: &Config, role_arn: &String) -> (r: AssumeRoleRequest)
    requires
        config@.aws_temp_access_key_id is Some,
        config@.aws_temp_secret_access_key is Some,
    ensures
        Some(r.access_key_id@) == config@.aws_temp_access_key_id,
        Some(r.secret_access_key@) == config@.aws_temp_secret_access_key,
        r.session_token.deep_view() == config@.aws_session_token,
        r.role_arn@ == role_arn@,
        r.role_session_name@ == ROLE_SESSION_NAME@,
{
    let access_key_id = match &config.aws_temp_access_key_id {
        Some(key) => key.clone(),
        None => String::new(),
    };
    let secret_access_key = match &config.aws_temp_secret_access_key {
        Some(secret) => secret.clone(),
        None => String::new(),
    };
    AssumeRoleRequest {
        access_key_id,
        secret_access_key,
        session_token: config.aws_session_token.clone(),
        role_arn: role_arn.clone(),
        role_session_name: ROLE_SESSION_NAME.to_owned(),
    }
}

/// The credentials of a role, read off the service's answer to the request
/// for them: `Err` with the service's reason where it refused, `Ok(None)`
/// where it answered without credentials.
pub fn role_credentials(answer: Result<Option<IssuedCredentials>, String>) -> (r: Result<
    Credentials,
    AuthError,
>)
    ensures
        match answer {
            Ok(Some(issued)) => r matches Ok(credentials) && credentials.aws_access_key
                == issued.access_key_id && credentials.aws_secret_key == issued.secret_access_key
                && credentials.aws_sts_token == issued.session_token,
            Ok(None) => r matches Err(error) && error@ == (AuthErrorView::MissingCredentials {
                call: StsCall::AssumeRole,
            }),
            Err(reason) => r matches Err(error) && error@ == (AuthErrorView::Rejected {
                call: StsCall::AssumeRole,
                reason: reason@,
            }),
        },
{
    match answer {
        Ok(Some(issued)) => Ok(
            Credentials {
                aws_access_key: issued.access_key_id,
                aws_secret_key: issued.secret_access_key,
                aws_sts_token: issued.session_token,
            },
        ),
        Ok(None) => Err(AuthError::MissingCredentials { call: StsCall::AssumeRole }),
        Err(reason) => Err(AuthError::Rejected { call: StsCall::AssumeRole, reason }),
    }
}

} // verus!
