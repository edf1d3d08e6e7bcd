use crate::config::{initial_config, Config, ConfigView, Setup};
use crate::errors::{ConfigError, ConfigErrorView};
use crate::profiles::{
    lines_readable, profiles_of, set_default_aws_credentials, with_default_credentials,
};
use vstd::prelude::*;

verus! {

/// Whether `input` can name an MFA device: it begins with `arn`.
pub open spec fn is_mfa_device(input: Seq<char>) -> bool {
    input.len() >= 3 && input[0] == 'a' && input[1] == 'r' && input[2] == 'n'
}

/// Tells whether `input` can name an MFA device.
pub fn is_mfa_device_arn(input: &str) -> (r: bool)
    ensures
        r == is_mfa_device(input@),
{
    let mut letters = input.chars();
    let first = letters.next();
    let second = letters.next();
    let third = letters.next();
    first == Some('a') && second == Some('r') && third == Some('n')
}

/// How far the loading of a configuration has come, and with it what is
/// needed next from outside.
#[derive(Clone, Debug, PartialEq, Eq)]
pub enum LoadState {
    /// Nothing is known yet: the stored configuration is needed, or the
    /// answers of the first-run setup where none is stored.
    Start,
    /// The long-term keys come from the credentials file, which is needed.
    NeedsCredentialsFile(Config),
    /// Neither a session profile nor an MFA device is known: the operator is
    /// asked for the device.
    NeedsMfaDevice(Config),
    /// The configuration is ready.
    Loaded(Config),
    /// Loading has failed.
    Failed(ConfigError),
}

/// A state of loading over plain values.
pub enum LoadStateView {
    Start,
    NeedsCredentialsFile(ConfigView),
    NeedsMfaDevice(ConfigView),
    Loaded(ConfigView),
    Failed(ConfigErrorView),
}

impl View for LoadState {
    type V = LoadStateView;

    open spec fn view(&self) -> LoadStateView {
        match self {
            LoadState::Start => LoadStateView::Start,
            LoadState::NeedsCredentialsFile(config) => LoadStateView::NeedsCredentialsFile(
                config@,
            ),
            LoadState::NeedsMfaDevice(config) => LoadStateView::NeedsMfaDevice(config@),
            LoadState::Loaded(config) => LoadStateView::Loaded(config@),
            LoadState::Failed(error) => LoadStateView::Failed(error@),
        }
    }
}

/// What the outside hands to the loading.
#[derive(Clone, Debug, PartialEq, Eq)]
pub enum LoadEvent {
    /// The home directory, where the configuration is stored, is not known.
    HomeDirectoryUnknown,
    /// A configuration is stored at `path`, and it could not be read.
    StoredUnreadable { path: String },
    /// What is stored is not a configuration.
    StoredInvalid,
    /// The configuration as it was stored.
    Stored(Config),
    /// Nothing was stored: the region and the answers of the first-run setup.
    FirstRun { region: String, setup: Setup },
    /// The credentials file: where it was found, and its lines.
    CredentialsFile { path: String, lines: Vec<String> },
    /// The operator's answer to the question for the MFA device.
    MfaDevice(String),
}

/// The state once the long-term keys of `config` are settled: without a
/// session profile and without an MFA device the device is asked for.
pub open spec fn after_credentials(config: ConfigView) -> LoadStateView {
    if config.aws_sts_profile is None && config.aws_mfa_device_arn is None {
        LoadStateView::NeedsMfaDevice(config)
    } else {
        LoadStateView::Loaded(config)
    }
}

/// The state once `config` has been read or set up: where it defers to the
/// credentials file, that file is needed first.
pub open spec fn after_source(config: ConfigView) -> LoadStateView {
    if config.aws_use_default_credentials {
        LoadStateView::NeedsCredentialsFile(config)
    } else {
        after_credentials(config)
    }
}

/// The state that follows `state` on `event`. At the start the stored
/// configuration is taken as it is, a first run is set up, and a store that
/// cannot be found, read or understood fails the loading. An event that the
/// state does not wait for changes nothing; an answer that cannot name an MFA
/// device leaves the question open.
pub open spec fn load_step(state: LoadStateView, event: LoadEvent) -> LoadStateView {
    match (state, event) {
        (LoadStateView::Start, LoadEvent::HomeDirectoryUnknown) => LoadStateView::Failed(
            ConfigErrorView::MissingHomeDirectory,
        ),
        (LoadStateView::Start, LoadEvent::StoredUnreadable { path }) => LoadStateView::Failed(
            ConfigErrorView::UnreadableFile { path: path@ },
        ),
        (LoadStateView::Start, LoadEvent::StoredInvalid) => LoadStateView::Failed(
            ConfigErrorView::InvalidStoredConfig,
        ),
        (LoadStateView::Start, LoadEvent::Stored(config)) => after_source(config@),
        (LoadStateView::Start, LoadEvent::FirstRun { region, setup }) => after_source(
            initial_config(region@, setup),
        ),
        (
            LoadStateView::NeedsCredentialsFile(config),
            LoadEvent::CredentialsFile { path, lines },
        ) => if !lines_readable(lines.deep_view()) {
            LoadStateView::Failed(ConfigErrorView::LineGrammar)
        } else {
            match with_default_credentials(config, profiles_of(lines.deep_view())) {
                Some(filled) => after_credentials(filled),
                None => LoadStateView::Failed(ConfigErrorView::MissingCredentials { path: path@ }),
            }
        },
        (LoadStateView::NeedsMfaDevice(config), LoadEvent::MfaDevice(device)) => if is_mfa_device(
            device@,
        ) {
            LoadStateView::Loaded(ConfigView { aws_mfa_device_arn: Some(device@), ..config })
        } else {
            LoadStateView::NeedsMfaDevice(config)
        },
        _ => state,
    }
}

fn settle_credentials(config: Config) -> (r: LoadState)
    ensures
        r@ == after_credentials(config@),
{
    if config.aws_sts_profile.is_none() && config.aws_mfa_device_arn.is_none() {
        LoadState::NeedsMfaDevice(config)
    } else {
        LoadState::Loaded(config)
    }
}

fn settle_source(config: Config) -> (r: LoadState)
    ensures
        r@ == after_source(config@),
{
    if config.aws_use_default_credentials {
        LoadState::NeedsCredentialsFile(config)
    } else {
        settle_credentials(config)
    }
}

impl Config {
    /// One step of loading a configuration: takes the state and what the
    /// outside has handed in, and gives the state that follows. The state
    /// tells what is needed next; `Loaded` and `Failed` end the loading.
    pub fn load(state: LoadState, event: LoadEvent) -> (r: LoadState)
        ensures
            r@ == load_step(state@, event),
    {
        match state {
            LoadState::Start => match event {
                LoadEvent::HomeDirectoryUnknown => LoadState::Failed(
                    ConfigError::MissingHomeDirectory,
                ),
                LoadEvent::StoredUnreadable { path } => LoadState::Failed(
                    ConfigError::UnreadableFile { path },
                ),
                LoadEvent::StoredInvalid => LoadState::Failed(ConfigError::InvalidStoredConfig),
                LoadEvent::Stored(config) => settle_source(config),
                LoadEvent::FirstRun { region, setup } => settle_source(Config::init(region, setup)),
                _ => LoadState::Start,
            },
            LoadState::NeedsCredentialsFile(config) => match event {
                LoadEvent::CredentialsFile { path, lines } => {
                    let mut config = config;
                    match set_default_aws_credentials(&mut config, &lines, path.as_str()) {
                        Ok(()) => settle_credentials(config),
                        Err(error) => LoadState::Failed(error),
                    }
                },
                _ => LoadState::NeedsCredentialsFile(config),
            },
            LoadState::NeedsMfaDevice(config) => match event {
                LoadEvent::MfaDevice(device) => {
                    if is_mfa_device_arn(device.as_str()) {
                        let mut config = config;
                        config.aws_mfa_device_arn = Some(device);
                        LoadState::Loaded(config)
                    } else {
                        LoadState::NeedsMfaDevice(config)
                    }
                },
                _ => LoadState::NeedsMfaDevice(config),
            },
            LoadState::Loaded(config) => LoadState::Loaded(config),
            LoadState::Failed(error) => LoadState::Failed(error),
        }
    }
}

} // verus!
