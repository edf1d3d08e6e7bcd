use crate::clock::{now_millis, SessionExpiration, SessionExpirationView};
use vstd::prelude::*;

verus! {

/// The operator's configuration: the long-term identity, the MFA device, and
/// the session that was issued last.
#[derive(Clone, Debug, PartialEq, Eq)]
pub struct Config {
    pub aws_access_key_id: String,
    pub aws_secret_access_key: String,
    pub aws_mfa_device_arn: Option<String>,
    pub aws_use_default_credentials: bool,
    pub region: Option<String>,
    pub aws_sts_profile: Option<String>,
    pub aws_temp_access_key_id: Option<String>,
    pub aws_temp_secret_access_key: Option<String>,
    pub aws_session_token: Option<String>,
    pub aws_session_expiration: Option<SessionExpiration>,
}

/// A configuration over plain values.
pub struct ConfigView {
    pub aws_access_key_id: Seq<char>,
    pub aws_secret_access_key: Seq<char>,
    pub aws_mfa_device_arn: Option<Seq<char>>,
    pub aws_use_default_credentials: bool,
    pub region: Option<Seq<char>>,
    pub aws_sts_profile: Option<Seq<char>>,
    pub aws_temp_access_key_id: Option<Seq<char>>,
    pub aws_temp_secret_access_key: Option<Seq<char>>,
    pub aws_session_token: Option<Seq<char>>,
    pub aws_session_expiration: Option<SessionExpirationView>,
}

impl View for Config {
    type V = ConfigView;

    open spec fn view(&self) -> ConfigView {
        ConfigView {
            aws_access_key_id: self.aws_access_key_id@,
            aws_secret_access_key: self.aws_secret_access_key@,
            aws_mfa_device_arn: self.aws_mfa_device_arn.deep_view(),
            aws_use_default_credentials: self.aws_use_default_credentials,
            region: self.region.deep_view(),
            aws_sts_profile: self.aws_sts_profile.deep_view(),
            aws_temp_access_key_id: self.aws_temp_access_key_id.deep_view(),
            aws_temp_secret_access_key: self.aws_temp_secret_access_key.deep_view(),
            aws_session_token: self.aws_session_token.deep_view(),
            aws_session_expiration: match self.aws_session_expiration {
                Some(expiration) => Some(expiration@),
                None => None,
            },
        }
    }
}

/// The configuration that holds nothing: empty keys, no device, no session.
pub open spec fn empty_config() -> ConfigView {
    ConfigView {
        aws_access_key_id: Seq::empty(),
        aws_secret_access_key: Seq::empty(),
        aws_mfa_device_arn: None,
        aws_use_default_credentials: false,
        region: None,
        aws_sts_profile: None,
        aws_temp_access_key_id: None,
        aws_temp_secret_access_key: None,
        aws_session_token: None,
        aws_session_expiration: None,
    }
}

/// Whether the cached session of `config` can still be used at `now_millis`:
/// never without a cached token; always where the session comes from a named
/// profile of the credentials file; else while its expiration lies strictly ahead.
pub open spec fn token_valid_at(config: ConfigView, now_millis: int) -> bool {
    config.aws_session_token is Some && (config.aws_sts_profile is Some || (
    config.aws_session_expiration matches Some(expiration) && now_millis
        < expiration.timestamp_millis))
}

/// The answers of the first-run setup.
#[derive(Clone, Debug, PartialEq, Eq)]
pub enum Setup {
    /// Take the long-term keys from the credentials file.
    DefaultCredentials,
    /// The long-term keys as the operator entered them.
    OwnKeys { access_key_id: String, secret_access_key: String },
}

/// The configuration that the first-run setup `setup` leads to, for the region `region`.
pub open spec fn initial_config(region: Seq<char>, setup: Setup) -> ConfigView {
    match setup {
        Setup::DefaultCredentials => ConfigView {
            region: Some(region),
            aws_use_default_credentials: true,
            ..empty_config()
        },
        Setup::OwnKeys { access_key_id, secret_access_key } => ConfigView {
            region: Some(region),
            aws_access_key_id: access_key_id@,
            aws_secret_access_key: secret_access_key@,
            ..empty_config()
        },
    }
}

impl Default for Config {
    fn default() -> (r: Config)
        ensures
            r@ == empty_config(),
    {
        Config {
            aws_access_key_id: String::new(),
            aws_secret_access_key: String::new(),
            aws_mfa_device_arn: None,
            aws_use_default_credentials: false,
            region: None,
            aws_sts_profile: None,
            aws_temp_access_key_id: None,
            aws_temp_secret_access_key: None,
            aws_session_token: None,
            aws_session_expiration: None,
        }
    }
}

impl Config {
    /// The configuration of a first run: the region, and either the mark that
    /// the long-term keys come from the credentials file or the keys themselves.
    pub fn init(region: String, setup: Setup) -> (r: Config)
        ensures
            r@ == initial_config(region@, setup),
    {
        let mut config = Config::default();
        config.region = Some(region);
        match setup {
            Setup::DefaultCredentials => {
                config.aws_use_default_credentials = true;
            },
            Setup::OwnKeys { access_key_id, secret_access_key } => {
                config.aws_access_key_id = access_key_id;
                config.aws_secret_access_key = secret_access_key;
            },
        }
        config
    }

    /// Whether the cached session can still be used at `now_millis`,
    /// milliseconds since the Unix epoch.
    pub fn is_token_valid_at(&self, now_millis: i64) -> (r: bool)
        ensures
            r == token_valid_at(self@, now_millis as int),
            self@.aws_session_token is None ==> !r,
            self@.aws_session_token is Some && self@.aws_sts_profile is Some ==> r,
            self@.aws_session_token is Some && self@.aws_sts_profile is None ==> (r <==> (
            self@.aws_session_expiration matches Some(expiration) && now_millis
                < expiration.timestamp_millis)),
    {
        if self.aws_session_token.is_none() {
            return false;
        }
        if self.aws_sts_profile.is_some() {
            return true;
        }
        match &self.aws_session_expiration {
            Some(expiration) => now_millis < expiration.timestamp_millis(),
            None => false,
        }
    }

    /// Whether the cached session can still be used now. The clock is read
    /// here, so the contract states what holds whatever it shows:
    /// `is_token_valid_at` is exact.
    pub fn is_token_valid(&self) -> (r: bool)
        ensures
            self@.aws_session_token is None ==> !r,
            self@.aws_session_token is Some && self@.aws_sts_profile is Some ==> r,
            self@.aws_sts_profile is None && self@.aws_session_expiration is None ==> !r,
            exists|now_millis: i64| r == token_valid_at(self@, now_millis as int),
    {
        let now = now_millis();
        self.is_token_valid_at(now)
    }
}

} // verus!
