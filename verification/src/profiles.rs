use crate::config::{Config, ConfigView};
use crate::errors::ConfigError;
use crate::grammar::{classify_line, line_shape, LineShape, LineShapeView};
use crate::table::{lookup, put, TextMap};
use vstd::prelude::*;

verus! {

/// The settings of one profile: each key with its value, which may be absent.
pub type Settings = TextMap<Option<String>>;

/// The profiles of a credentials file, by name.
pub type ProfileTable = TextMap<TextMap<Option<String>>>;

/// The settings of one profile over plain text.
pub type SettingsView = Seq<(Seq<char>, Option<Seq<char>>)>;

/// The profiles of a credentials file over plain text.
pub type ProfileTableView = Seq<(Seq<char>, Seq<(Seq<char>, Option<Seq<char>>)>)>;

/// The scan of a credentials file, between two lines: the sections closed so
/// far, the name of the open section if one is open, and the assignments
/// gathered since a section was last closed.
pub struct ProfileParser {
    table: TextMap<TextMap<Option<String>>>,
    current: Option<String>,
    settings: TextMap<Option<String>>,
}

/// A scan over plain text.
pub struct ProfileParserView {
    pub table: ProfileTableView,
    pub current: Option<Seq<char>>,
    pub settings: SettingsView,
}

/// The scan before the first line.
pub open spec fn scan_start() -> ProfileParserView {
    ProfileParserView { table: Seq::empty(), current: None, settings: Seq::empty() }
}

/// The scan after one more line of shape `shape`. A section header closes the
/// open section, if one is open, into the table, and opens the next with
/// nothing gathered. An assignment is gathered into the open section, the
/// later value replacing an earlier one of the same key; while no section is
/// open it belongs to no profile and is passed over. Any other line changes
/// nothing.
pub open spec fn scan_step(scan: ProfileParserView, shape: LineShapeView) -> ProfileParserView {
    match shape {
        LineShapeView::Section(name) => ProfileParserView {
            table: scan_end(scan),
            current: Some(name),
            settings: Seq::empty(),
        },
        LineShapeView::Assignment(key, value) => match scan.current {
            Some(_) => ProfileParserView { settings: put(scan.settings, key, value), ..scan },
            None => scan,
        },
        LineShapeView::Other => scan,
    }
}

/// The table once the input has ended: the open section, if one is open, is
/// closed into it.
pub open spec fn scan_end(scan: ProfileParserView) -> ProfileTableView {
    match scan.current {
        Some(open) => put(scan.table, open, scan.settings),
        None => scan.table,
    }
}

/// The scan after the lines of shapes `shapes`, in order.
pub open spec fn scan_of(shapes: Seq<LineShapeView>) -> ProfileParserView
    decreases shapes.len(),
{
    if shapes.len() == 0 {
        scan_start()
    } else {
        scan_step(scan_of(shapes.drop_last()), shapes.last())
    }
}

/// Whether every line of `lines` can be given a shape.
pub open spec fn lines_readable(lines: Seq<Seq<char>>) -> bool {
    forall|i: int| 0 <= i < lines.len() ==> line_shape(#[trigger] lines[i]) is Some
}

/// The shapes of `lines`, line by line.
pub open spec fn shapes_of(lines: Seq<Seq<char>>) -> Seq<LineShapeView> {
    Seq::new(lines.len(), |i: int| line_shape(lines[i])->0)
}

/// The profile table that the lines of a credentials file stand for.
pub open spec fn profiles_of(lines: Seq<Seq<char>>) -> ProfileTableView {
    scan_end(scan_of(shapes_of(lines)))
}

impl View for ProfileParser {
    type V = ProfileParserView;

    closed spec fn view(&self) -> ProfileParserView {
        ProfileParserView {
            table: self.table.deep_view(),
            current: self.current.deep_view(),
            settings: self.settings.deep_view(),
        }
    }
}

impl ProfileParser {
    /// The scan before the first line.
    pub fn new() -> (r: ProfileParser)
        ensures
            r@ == scan_start(),
    {
        ProfileParser { table: TextMap::new(), current: None, settings: TextMap::new() }
    }

    /// Takes in the next line, by its shape.
    pub fn feed(&mut self, shape: LineShape)
        ensures
            final(self)@ == scan_step(old(self)@, shape.deep_view()),
    {
        match shape {
            LineShape::Section(name) => {
                let mut opened = Some(name);
                core::mem::swap(&mut self.current, &mut opened);
                let mut gathered = TextMap::new();
                core::mem::swap(&mut self.settings, &mut gathered);
                match opened {
                    Some(closed) => {
                        self.table.insert(closed, gathered);
                    },
                    None => {},
                }
            },
            LineShape::Assignment(key, value) => {
                if self.current.is_some() {
                    self.settings.insert(key, value);
                }
            },
            LineShape::Other => {},
        }
    }

    /// Ends the input and hands out the table.
    pub fn finish(self) -> (r: TextMap<TextMap<Option<String>>>)
        ensures
            r.deep_view() == scan_end(self@),
    {
        let mut table = self.table;
        match self.current {
            Some(open) => {
                table.insert(open, self.settings);
            },
            None => {},
        }
        table
    }
}

/// Reads the profiles off the lines of a credentials file. The lines are read
/// in order; one that has neither shape of the grammar is passed over.
pub fn parse_profiles(lines: &Vec<String>) -> (r: Result<
    TextMap<TextMap<Option<String>>>,
    ConfigError,
>)
    ensures
        r is Ok <==> lines_readable(lines.deep_view()),
        r matches Ok(table) ==> table.deep_view() == profiles_of(lines.deep_view()),
        r matches Err(e) ==> e == ConfigError::LineGrammar,
{
    let mut parser = ProfileParser::new();
    let mut i: usize = 0;
    while i < lines.len()
        invariant
            i <= lines.len(),
            lines_readable(lines.deep_view().take(i as int)),
            parser@ == scan_of(shapes_of(lines.deep_view().take(i as int))),
        decreases lines.len() - i,
    {
        let ghost all = lines.deep_view();
        assert(all[i as int] == lines@[i as int]@);
        match classify_line(lines[i].as_str()) {
            Ok(shape) => {
                proof {
                    let before = all.take(i as int);
                    let after = all.take(i + 1);
                    assert(after.drop_last() =~= before);
                    assert(after.last() == all[i as int]);
                    assert(shapes_of(after).drop_last() =~= shapes_of(before));
                    assert(shapes_of(after).last() == shape.deep_view());
                    assert forall|j: int| 0 <= j < after.len() implies line_shape(
                        #[trigger] after[j],
                    ) is Some by {
                        if j < i {
                            assert(after[j] == before[j]);
                        }
                    }
                }
                parser.feed(shape);
            },
            Err(_) => {
                assert(line_shape(all[i as int]) is None);
                return Err(ConfigError::LineGrammar);
            },
        }
        i = i + 1;
    }
    assert(lines.deep_view().take(i as int) =~= lines.deep_view());
    Ok(parser.finish())
}

/// The value of `key` in `settings`, where the key is there and has one. A
/// blank value is no value.
pub open spec fn setting(settings: SettingsView, key: Seq<char>) -> Option<Seq<char>> {
    match lookup(settings, key) {
        Some(Some(value)) => if value.len() > 0 {
            Some(value)
        } else {
            None
        },
        _ => None,
    }
}

/// The long-term key and secret of the profile `default`, where it has both.
pub open spec fn default_keys(table: ProfileTableView) -> Option<(Seq<char>, Seq<char>)> {
    match lookup(table, "default"@) {
        Some(settings) => match (
            setting(settings, "aws_access_key_id"@),
            setting(settings, "aws_secret_access_key"@),
        ) {
            (Some(key), Some(secret)) => Some((key, secret)),
            _ => None,
        },
        None => None,
    }
}

/// Whether a profile carries a session: it has a session token.
pub open spec fn carries_session(settings: SettingsView) -> bool {
    setting(settings, "aws_session_token"@) is Some
}

/// Whether `i` is the place of the first profile of `table` that carries a session.
pub open spec fn is_session_profile(table: ProfileTableView, i: int) -> bool {
    &&& 0 <= i < table.len()
    &&& carries_session(table[i].1)
    &&& forall|j: int| 0 <= j < i ==> !carries_session(#[trigger] table[j].1)
}

/// The place of the first profile of `table` that carries a session, if one does.
pub open spec fn session_profile(table: ProfileTableView) -> Option<int> {
    if exists|i: int| is_session_profile(table, i) {
        Some(choose|i: int| is_session_profile(table, i))
    } else {
        None
    }
}

/// `config` with the session of `table` adopted. The first profile, in the
/// table's order, that carries a session gives its name as the session
/// profile and its token as the session token; its key and its secret, where
/// it has them, become the temporary key and secret. Without such a profile
/// nothing changes.
pub open spec fn adopt_session(config: ConfigView, table: ProfileTableView) -> ConfigView {
    match session_profile(table) {
        Some(i) => {
            let settings = table[i].1;
            ConfigView {
                aws_sts_profile: Some(table[i].0),
                aws_session_token: setting(settings, "aws_session_token"@),
                aws_temp_access_key_id: match setting(settings, "aws_access_key_id"@) {
                    Some(key) => Some(key),
                    None => config.aws_temp_access_key_id,
                },
                aws_temp_secret_access_key: match setting(settings, "aws_secret_access_key"@) {
                    Some(secret) => Some(secret),
                    None => config.aws_temp_secret_access_key,
                },
                ..config
            }
        },
        None => config,
    }
}

/// `config` with the credentials of `table`: the session adopted, and the
/// long-term key and secret of the profile `default`. `None` where that
/// profile lacks either.
pub open spec fn with_default_credentials(config: ConfigView, table: ProfileTableView) -> Option<
    ConfigView,
> {
    match default_keys(table) {
        Some((key, secret)) => Some(
            ConfigView {
                aws_access_key_id: key,
                aws_secret_access_key: secret,
                ..adopt_session(config, table)
            },
        ),
        None => None,
    }
}

/// The first place at which a profile carries a session is the only one that
/// `is_session_profile` holds of.
pub proof fn lemma_session_profile(table: ProfileTableView, i: int)
    requires
        is_session_profile(table, i),
    ensures
        session_profile(table) == Some(i),
{
    let chosen = choose|k: int| is_session_profile(table, k);
    if chosen < i {
        assert(!carries_session(table[chosen].1));
    } else if i < chosen {
        assert(!carries_session(table[i].1));
    }
}

/// Copies the value of `key` out of `settings`, where the key has one.
fn copy_setting(settings: &TextMap<Option<String>>, key: &str) -> (r: Option<String>)
    ensures
        r.deep_view() == setting(settings.deep_view(), key@),
{
    match settings.get(key) {
        Some(Some(value)) => if value.as_str().is_empty() {
            None
        } else {
            Some(value.clone())
        },
        _ => None,
    }
}

/// Adopts into `config` the session of the first profile that carries one.
fn adopt_session_of(config: &mut Config, table: &TextMap<TextMap<Option<String>>>)
    ensures
        final(config)@ == adopt_session(old(config)@, table.deep_view()),
{
    let mut i: usize = 0;
    while i < table.len()
        invariant
            i <= table.deep_view().len(),
            *config == *old(config),
            forall|j: int| 0 <= j < i ==> !carries_session(#[trigger] table.deep_view()[j].1),
        decreases table.deep_view().len() - i,
    {
        let settings = table.value_at(i);
        match copy_setting(settings, "aws_session_token") {
            Some(token) => {
                proof {
                    lemma_session_profile(table.deep_view(), i as int);
                }
                config.aws_sts_profile = Some(table.key_at(i).clone());
                config.aws_session_token = Some(token);
                match copy_setting(settings, "aws_access_key_id") {
                    Some(key) => {
                        config.aws_temp_access_key_id = Some(key);
                    },
                    None => {},
                }
                match copy_setting(settings, "aws_secret_access_key") {
                    Some(secret) => {
                        config.aws_temp_secret_access_key = Some(secret);
                    },
                    None => {},
                }
                return ;
            },
            None => {},
        }
        i = i + 1;
    }
    assert(session_profile(table.deep_view()) is None);
}

/// Fills `config` from the profiles `table` of the credentials file that was
/// found at `path`. The long-term key and secret are those of the profile
/// `default`; where it lacks either, the file is named in the error and
/// `config` stays as it was. Else the session of the first profile that
/// carries one is adopted as well.
pub fn apply_profiles(
    config: &mut Config,
    table: &TextMap<TextMap<Option<String>>>,
    path: &str,
) -> (r: Result<(), ConfigError>)
    ensures
        r is Ok <==> with_default_credentials(old(config)@, table.deep_view()) is Some,
        r is Ok ==> Some(final(config)@) == with_default_credentials(
            old(config)@,
            table.deep_view(),
        ),
        r is Err ==> (r matches Err(ConfigError::MissingCredentials { path: named }) && named@
            == path@) && *final(config) == *old(config),
{
    let mut key: Option<String> = None;
    let mut secret: Option<String> = None;
    match table.get("default") {
        Some(settings) => {
            key = copy_setting(settings, "aws_access_key_id");
            secret = copy_setting(settings, "aws_secret_access_key");
        },
        None => {},
    }
    match (key, secret) {
        (Some(key), Some(secret)) => {
            adopt_session_of(config, table);
            config.aws_access_key_id = key;
            config.aws_secret_access_key = secret;
            Ok(())
        },
        _ => Err(ConfigError::MissingCredentials { path: path.to_owned() }),
    }
}

/// Fills `config` from the credentials file whose lines are `lines` and which
/// was found at `path`: reads the profiles off the lines and applies them. On
/// any error `config` stays as it was.
pub fn set_default_aws_credentials(config: &mut Config, lines: &Vec<String>, path: &str) -> (r:
    Result<(), ConfigError>)
    ensures
        r is Ok <==> lines_readable(lines.deep_view()) && with_default_credentials(
            old(config)@,
            profiles_of(lines.deep_view()),
        ) is Some,
        r is Ok ==> Some(final(config)@) == with_default_credentials(
            old(config)@,
            profiles_of(lines.deep_view()),
        ),
        r is Err ==> *final(config) == *old(config),
        !lines_readable(lines.deep_view()) ==> r == Err::<(), ConfigError>(
            ConfigError::LineGrammar,
        ),
        r is Err && lines_readable(lines.deep_view()) ==> (r matches Err(
            ConfigError::MissingCredentials { path: named },
        ) && named@ == path@),
{
    match parse_profiles(lines) {
        Ok(table) => apply_profiles(config, &table, path),
        Err(error) => Err(error),
    }
}

/// Which of the two places a credentials file is looked for in.
#[derive(Clone, Copy, Debug, PartialEq, Eq, Structural)]
pub enum CredentialsLocation {
    /// Below the home directory.
    Home,
    /// Below the configuration directory.
    ConfigDirectory,
}

/// Where the credentials file is read from. Each argument tells of one
/// directory: `None` where the directory is not known, else whether it holds
/// the file. The home directory comes first; the configuration directory is
/// asked only where the home directory holds no file.
pub open spec fn credentials_location(home: Option<bool>, config_directory: Option<bool>) -> Result<
    CredentialsLocation,
    ConfigError,
> {
    match home {
        None => Err(ConfigError::MissingHomeDirectory),
        Some(true) => Ok(CredentialsLocation::Home),
        Some(false) => match config_directory {
            None => Err(ConfigError::MissingConfigDirectory),
            Some(true) => Ok(CredentialsLocation::ConfigDirectory),
            Some(false) => Err(ConfigError::NoCredentialsFile),
        },
    }
}

/// Picks the place to read the credentials file from.
pub fn select_credentials_file(home: Option<bool>, config_directory: Option<bool>) -> (r: Result<
    CredentialsLocation,
    ConfigError,
>)
    ensures
        r == credentials_location(home, config_directory),
{
    match home {
        None => Err(ConfigError::MissingHomeDirectory),
        Some(true) => Ok(CredentialsLocation::Home),
        Some(false) => match config_directory {
            None => Err(ConfigError::MissingConfigDirectory),
            Some(true) => Ok(CredentialsLocation::ConfigDirectory),
            Some(false) => Err(ConfigError::NoCredentialsFile),
        },
    }
}

} // verus!
