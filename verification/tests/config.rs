use aws_manager::clock::SessionExpiration;
use aws_manager::config::{Config, Setup};
use aws_manager::errors::ConfigError;
use aws_manager::loading::{is_mfa_device_arn, LoadEvent, LoadState};

fn expiring(text: &str) -> SessionExpiration {
    SessionExpiration::parse(text.to_string()).unwrap()
}

fn with_session(profile: Option<&str>, expiration: Option<&str>) -> Config {
    let mut config = Config::default();
    config.aws_temp_access_key_id = Some("TK".to_string());
    config.aws_temp_secret_access_key = Some("TS".to_string());
    config.aws_session_token = Some("TOK".to_string());
    config.aws_sts_profile = profile.map(|p| p.to_string());
    config.aws_session_expiration = expiration.map(expiring);
    config
}

#[test]
fn default_configuration_is_empty() {
    let config = Config::default();
    assert_eq!(config.aws_access_key_id, "");
    assert_eq!(config.aws_secret_access_key, "");
    assert_eq!(config.aws_mfa_device_arn, None);
    assert!(!config.aws_use_default_credentials);
    assert_eq!(config.region, None);
    assert_eq!(config.aws_sts_profile, None);
    assert_eq!(config.aws_temp_access_key_id, None);
    assert_eq!(config.aws_temp_secret_access_key, None);
    assert_eq!(config.aws_session_token, None);
    assert_eq!(config.aws_session_expiration, None);
}

#[test]
fn expiration_is_read_as_milliseconds() {
    let expiration = expiring("1970-01-01T00:00:01.444Z");
    assert_eq!(expiration.timestamp_millis(), 1_444);
    assert_eq!(expiration.text(), "1970-01-01T00:00:01.444Z");
    assert_eq!(expiring("2001-09-09T01:46:40.555Z").timestamp_millis(), 1_000_000_000_555);
}

#[test]
fn expiration_honours_the_offset() {
    assert_eq!(expiring("1970-01-01T01:00:00+01:00").timestamp_millis(), 0);
    assert_eq!(expiring("1969-12-31T23:00:00-01:00").timestamp_millis(), 0);
    assert_eq!(expiring("1969-12-31T23:59:59Z").timestamp_millis(), -1_000);
}

#[test]
fn malformed_expiration_is_refused() {
    assert_eq!(
        SessionExpiration::parse("tomorrow".to_string()),
        Err(ConfigError::InvalidExpiration)
    );
    assert_eq!(SessionExpiration::parse(String::new()), Err(ConfigError::InvalidExpiration));
    assert_eq!(
        SessionExpiration::parse("2020-01-01 00:00:00".to_string()),
        Err(ConfigError::InvalidExpiration)
    );
}

#[test]
fn expiration_clone_is_equal() {
    let expiration = expiring("2020-05-01T12:00:00Z");
    assert_eq!(expiration.clone(), expiration);
}

#[test]
fn session_profile_is_valid_even_when_expired() {
    let config = with_session(Some("temp"), Some("1999-01-01T00:00:00Z"));
    assert!(config.is_token_valid_at(1_700_000_000_000));
    assert!(config.is_token_valid_at(i64::MAX));
    assert!(config.is_token_valid());
    let without_expiration = with_session(Some("temp"), None);
    assert!(without_expiration.is_token_valid_at(0));
    assert!(without_expiration.is_token_valid());
}

#[test]
fn no_cached_session_is_invalid() {
    let config = Config::default();
    assert!(!config.is_token_valid_at(0));
    assert!(!config.is_token_valid_at(i64::MIN));
    assert!(!config.is_token_valid());
    let mut named = Config::default();
    named.aws_sts_profile = Some("temp".to_string());
    named.aws_session_expiration = Some(expiring("2999-01-01T00:00:00Z"));
    assert!(!named.is_token_valid_at(0));
    assert!(!named.is_token_valid());
}

#[test]
fn cached_session_is_valid_strictly_before_its_expiration() {
    let config = with_session(None, Some("1970-01-01T00:00:10Z"));
    assert!(config.is_token_valid_at(9_999));
    assert!(!config.is_token_valid_at(10_000));
    assert!(!config.is_token_valid_at(10_001));
    assert!(config.is_token_valid_at(-5));
}

#[test]
fn cached_session_without_expiration_is_invalid() {
    let config = with_session(None, None);
    assert!(!config.is_token_valid_at(0));
    assert!(!config.is_token_valid());
}

#[test]
fn clock_decides_for_a_plain_session() {
    assert!(!with_session(None, Some("2000-01-01T00:00:00Z")).is_token_valid());
    assert!(with_session(None, Some("9000-01-01T00:00:00Z")).is_token_valid());
}

#[test]
fn first_run_with_own_keys() {
    let config = Config::init(
        "eu-west-1".to_string(),
        Setup::OwnKeys { access_key_id: "AK".to_string(), secret_access_key: "SK".to_string() },
    );
    let mut expected = Config::default();
    expected.region = Some("eu-west-1".to_string());
    expected.aws_access_key_id = "AK".to_string();
    expected.aws_secret_access_key = "SK".to_string();
    assert_eq!(config, expected);
}

#[test]
fn first_run_with_default_credentials() {
    let config = Config::init("eu-west-1".to_string(), Setup::DefaultCredentials);
    let mut expected = Config::default();
    expected.region = Some("eu-west-1".to_string());
    expected.aws_use_default_credentials = true;
    assert_eq!(config, expected);
}

#[test]
fn mfa_device_begins_with_arn() {
    assert!(is_mfa_device_arn("arn:aws:iam::123456789012:mfa/user"));
    assert!(is_mfa_device_arn("arn"));
    assert!(!is_mfa_device_arn("ar"));
    assert!(!is_mfa_device_arn(""));
    assert!(!is_mfa_device_arn("Arn:aws"));
    assert!(!is_mfa_device_arn(" arn:aws"));
    assert!(!is_mfa_device_arn("GAHT12345678"));
}

#[test]
fn stored_configuration_with_device_is_loaded_as_it_is() {
    let mut stored = Config::default();
    stored.aws_access_key_id = "AK".to_string();
    stored.aws_mfa_device_arn = Some("arn:mfa".to_string());
    let state = Config::load(LoadState::Start, LoadEvent::Stored(stored.clone()));
    assert_eq!(state, LoadState::Loaded(stored));
}

#[test]
fn stored_configuration_without_device_asks_for_it() {
    let stored = Config::default();
    let state = Config::load(LoadState::Start, LoadEvent::Stored(stored.clone()));
    assert_eq!(state, LoadState::NeedsMfaDevice(stored.clone()));
    let refused = Config::load(state, LoadEvent::MfaDevice("nonsense".to_string()));
    assert_eq!(refused, LoadState::NeedsMfaDevice(stored.clone()));
    let accepted = Config::load(refused, LoadEvent::MfaDevice("arn:mfa".to_string()));
    let mut expected = stored;
    expected.aws_mfa_device_arn = Some("arn:mfa".to_string());
    assert_eq!(accepted, LoadState::Loaded(expected));
}

#[test]
fn stored_session_profile_needs_no_device() {
    let mut stored = Config::default();
    stored.aws_sts_profile = Some("temp".to_string());
    let state = Config::load(LoadState::Start, LoadEvent::Stored(stored.clone()));
    assert_eq!(state, LoadState::Loaded(stored));
}

#[test]
fn first_run_with_default_credentials_reads_the_credentials_file() {
    let state = Config::load(
        LoadState::Start,
        LoadEvent::FirstRun { region: "eu-west-1".to_string(), setup: Setup::DefaultCredentials },
    );
    let pending = Config::init("eu-west-1".to_string(), Setup::DefaultCredentials);
    assert_eq!(state, LoadState::NeedsCredentialsFile(pending.clone()));
    let lines: Vec<String> = vec![
        "[default]".to_string(),
        "aws_access_key_id = AK1".to_string(),
        "aws_secret_access_key = SK1".to_string(),
    ];
    let state =
        Config::load(state, LoadEvent::CredentialsFile { path: "creds".to_string(), lines });
    let mut filled = pending;
    filled.aws_access_key_id = "AK1".to_string();
    filled.aws_secret_access_key = "SK1".to_string();
    assert_eq!(state, LoadState::NeedsMfaDevice(filled));
}

#[test]
fn credentials_file_with_a_session_needs_no_device() {
    let mut stored = Config::default();
    stored.aws_use_default_credentials = true;
    let state = Config::load(LoadState::Start, LoadEvent::Stored(stored));
    let lines: Vec<String> = vec![
        "[default]".to_string(),
        "aws_access_key_id=AK1".to_string(),
        "aws_secret_access_key=SK1".to_string(),
        "[temp]".to_string(),
        "aws_session_token=TOK".to_string(),
        "aws_access_key_id=AK2".to_string(),
        "aws_secret_access_key=SK2".to_string(),
    ];
    let state =
        Config::load(state, LoadEvent::CredentialsFile { path: "creds".to_string(), lines });
    match state {
        LoadState::Loaded(config) => {
            assert_eq!(config.aws_access_key_id, "AK1");
            assert_eq!(config.aws_secret_access_key, "SK1");
            assert_eq!(config.aws_temp_access_key_id, Some("AK2".to_string()));
            assert_eq!(config.aws_temp_secret_access_key, Some("SK2".to_string()));
            assert_eq!(config.aws_session_token, Some("TOK".to_string()));
            assert_eq!(config.aws_sts_profile, Some("temp".to_string()));
            assert!(config.aws_use_default_credentials);
            assert!(config.is_token_valid_at(i64::MAX));
        }
        other => panic!("not loaded: {:?}", other),
    }
}

#[test]
fn credentials_file_without_default_profile_fails_the_loading() {
    let mut stored = Config::default();
    stored.aws_use_default_credentials = true;
    let state = Config::load(LoadState::Start, LoadEvent::Stored(stored));
    let state = Config::load(
        state,
        LoadEvent::CredentialsFile { path: "creds".to_string(), lines: vec!["[other]".to_string()] },
    );
    assert_eq!(
        state,
        LoadState::Failed(ConfigError::MissingCredentials { path: "creds".to_string() })
    );
}

#[test]
fn store_failures_fail_the_loading() {
    assert_eq!(
        Config::load(LoadState::Start, LoadEvent::HomeDirectoryUnknown),
        LoadState::Failed(ConfigError::MissingHomeDirectory)
    );
    assert_eq!(
        Config::load(LoadState::Start, LoadEvent::StoredUnreadable { path: "p".to_string() }),
        LoadState::Failed(ConfigError::UnreadableFile { path: "p".to_string() })
    );
    assert_eq!(
        Config::load(LoadState::Start, LoadEvent::StoredInvalid),
        LoadState::Failed(ConfigError::InvalidStoredConfig)
    );
}

#[test]
fn events_out_of_turn_change_nothing() {
    assert_eq!(
        Config::load(LoadState::Start, LoadEvent::MfaDevice("arn:mfa".to_string())),
        LoadState::Start
    );
    let waiting = LoadState::NeedsMfaDevice(Config::default());
    assert_eq!(Config::load(waiting.clone(), LoadEvent::StoredInvalid), waiting);
    let needs_file = LoadState::NeedsCredentialsFile(Config::default());
    assert_eq!(
        Config::load(needs_file.clone(), LoadEvent::MfaDevice("arn:mfa".to_string())),
        needs_file
    );
    let loaded = LoadState::Loaded(Config::default());
    assert_eq!(Config::load(loaded.clone(), LoadEvent::HomeDirectoryUnknown), loaded);
    let failed = LoadState::Failed(ConfigError::NoCredentialsFile);
    assert_eq!(Config::load(failed.clone(), LoadEvent::Stored(Config::default())), failed);
}
