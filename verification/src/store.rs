//! The local documents: the configuration and the credentials.
//!
//! Both lie in one folder below the user's home directory. The caller reads
//! and writes the files; this module says where they lie, what a file's
//! content means, and which steps change them.

use vstd::prelude::*;
use crate::error::{CommandError, ErrorView};
use crate::json::{error_text, json_parse, json_pretty, json_text, parse, render_pretty};

verus! {

/// A document that the application keeps.
#[derive(Clone, Copy, Debug, PartialEq, Eq, Structural)]
pub enum Document {
    /// The settings of the graphical shell.
    Config,
    /// The credentials that the authorization flow leaves behind.
    Credentials,
}

/// The name of the folder below the home directory that holds the documents.
pub open spec fn folder_name_text() -> Seq<char> {
    ".iflow"@
}

/// The name of the folder below the home directory that holds the documents.
pub fn folder_name() -> (name: &'static str)
    ensures
        name@ == folder_name_text(),
{
    ".iflow"
}

impl Document {
    /// The name of the document's file in the folder.
    pub open spec fn file_name_text(self) -> Seq<char> {
        match self {
            Document::Config => "gui_config.json"@,
            Document::Credentials => "oauth_creds.json"@,
        }
    }

    /// The name of the document's file in the folder.
    pub fn file_name(self) -> (name: &'static str)
        ensures
            name@ == self.file_name_text(),
    {
        match self {
            Document::Config => "gui_config.json",
            Document::Credentials => "oauth_creds.json",
        }
    }
}

/// The home directory as the caller found it, or the error of a command
/// that cannot know where the documents lie.
pub fn require_home<P>(home: Option<P>) -> (found: Result<P, CommandError>)
    ensures
        match home {
            Some(directory) => found == Ok::<P, CommandError>(directory),
            None => found matches Err(error) && error@ == ErrorView::HomeDirUnavailable,
        },
{
    match home {
        Some(directory) => Ok(directory),
        None => Err(CommandError::HomeDirUnavailable),
    }
}

/// What the caller found at a document's path.
#[derive(Debug, PartialEq, Eq)]
pub enum FileState {
    /// There is no such file.
    Absent,
    /// The file is there and could not be read; the operating system's
    /// words.
    Unreadable(String),
    /// The text of the file.
    Content(String),
}

/// The value of a setting in the default configuration.
#[derive(Debug, PartialEq, Eq)]
pub enum SettingValue {
    /// A JSON number.
    Number(u32),
    /// A JSON string.
    Text(String),
}

/// A member of the default configuration: its name in the document, and
/// its value.
#[derive(Debug, PartialEq, Eq)]
pub struct Setting {
    pub name: String,
    pub value: SettingValue,
}

/// The value of a setting as a mathematical value.
pub enum SettingValueView {
    Number(u32),
    Text(Seq<char>),
}

impl View for SettingValue {
    type V = SettingValueView;

    open spec fn view(&self) -> SettingValueView {
        match *self {
            SettingValue::Number(number) => SettingValueView::Number(number),
            SettingValue::Text(text) => SettingValueView::Text(text@),
        }
    }
}

impl View for Setting {
    type V = (Seq<char>, SettingValueView);

    open spec fn view(&self) -> (Seq<char>, SettingValueView) {
        (self.name@, self.value@)
    }
}

/// The members that a sequence of settings holds, in its order.
pub open spec fn settings_of(settings: Seq<Setting>) -> Seq<(Seq<char>, SettingValueView)> {
    Seq::new(settings.len(), |i: int| settings[i]@)
}

/// The members of the default configuration, which holds while no
/// configuration was saved.
pub open spec fn default_settings() -> Seq<(Seq<char>, SettingValueView)> {
    seq![
        ("port"@, SettingValueView::Number(8000)),
        ("baseUrl"@, SettingValueView::Text("https://apis.iflow.cn/v1"@)),
        ("retry"@, SettingValueView::Number(3)),
        ("timeout"@, SettingValueView::Number(60)),
        ("theme"@, SettingValueView::Text("dark"@)),
        ("language"@, SettingValueView::Text("zh-CN"@)),
    ]
}

fn number_setting(name: &str, number: u32) -> (setting: Setting)
    ensures
        setting@ == (name@, SettingValueView::Number(number)),
{
    Setting { name: name.to_owned(), value: SettingValue::Number(number) }
}

fn text_setting(name: &str, text: &str) -> (setting: Setting)
    ensures
        setting@ == (name@, SettingValueView::Text(text@)),
{
    Setting { name: name.to_owned(), value: SettingValue::Text(text.to_owned()) }
}

/// The default configuration: the members of the document that a load
/// yields while no configuration was saved.
pub fn default_config() -> (settings: Vec<Setting>)
    ensures
        settings_of(settings@) == default_settings(),
{
    let mut settings: Vec<Setting> = Vec::new();
    settings.push(number_setting("port", 8000));
    settings.push(text_setting("baseUrl", "https://apis.iflow.cn/v1"));
    settings.push(number_setting("retry", 3));
    settings.push(number_setting("timeout", 60));
    settings.push(text_setting("theme", "dark"));
    settings.push(text_setting("language", "zh-CN"));
    assert(settings_of(settings@) =~= default_settings());
    settings
}

/// The configuration that a load yields.
#[derive(Debug, PartialEq)]
pub enum Config {
    /// No configuration was saved: the document with the default settings
    /// as its members.
    Defaults(Vec<Setting>),
    /// The saved document, with all its members.
    Stored(serde_json::Value),
}

/// What a document's file means.
pub enum Meaning {
    /// There is no file.
    Nothing,
    /// The file holds the document with this compact text.
    Document(Seq<char>),
    /// The file could not be read; the operating system's words.
    Unreadable(Seq<char>),
    /// The file holds no well-formed JSON.
    Malformed,
}

/// What a document's file means.
pub open spec fn meaning(file: FileState) -> Meaning {
    match file {
        FileState::Absent => Meaning::Nothing,
        FileState::Unreadable(detail) => Meaning::Unreadable(detail@),
        FileState::Content(text) => match json_parse(text@) {
            Some(document) => Meaning::Document(document),
            None => Meaning::Malformed,
        },
    }
}

/// Reads the document that a file holds; `None` where there is no file.
pub fn read_document(file: FileState) -> (read: Result<Option<serde_json::Value>, CommandError>)
    ensures
        match meaning(file) {
            Meaning::Nothing => read matches Ok(None),
            Meaning::Document(document) => read matches Ok(Some(found)) && json_text(found)
                == document,
            Meaning::Unreadable(detail) => read matches Err(error) && error@ == ErrorView::Io(
                detail,
            ),
            Meaning::Malformed => read matches Err(CommandError::ParseFailed(_)),
        },
{
    match file {
        FileState::Absent => Ok(None),
        FileState::Unreadable(detail) => Err(CommandError::Io(detail)),
        FileState::Content(text) => match parse(text.as_str()) {
            Ok(document) => Ok(Some(document)),
            Err(error) => Err(CommandError::ParseFailed(error_text(&error))),
        },
    }
}

/// The configuration for what the file holds: the saved document where
/// there is one, and the defaults where there is none.
pub fn config_or_defaults(stored: Option<serde_json::Value>) -> (config: Config)
    ensures
        match stored {
            Some(document) => config == Config::Stored(document),
            None => config matches Config::Defaults(settings) && settings_of(settings@)
                == default_settings(),
        },
{
    match stored {
        Some(document) => Config::Stored(document),
        None => Config::Defaults(default_config()),
    }
}

/// Loads the configuration: the saved document where there is one, the
/// defaults where there is no file. A file that cannot be read, or that
/// holds no well-formed JSON, is an error and never replaced by the
/// defaults.
pub fn get_config(file: FileState) -> (loaded: Result<Config, CommandError>)
    ensures
        match meaning(file) {
            Meaning::Nothing => loaded matches Ok(Config::Defaults(settings)) && settings_of(
                settings@,
            ) == default_settings(),
            Meaning::Document(document) => loaded matches Ok(Config::Stored(found)) && json_text(
                found,
            ) == document,
            Meaning::Unreadable(detail) => loaded matches Err(error) && error@ == ErrorView::Io(
                detail,
            ),
            Meaning::Malformed => loaded matches Err(CommandError::ParseFailed(_)),
        },
{
    match read_document(file) {
        Ok(stored) => Ok(config_or_defaults(stored)),
        Err(error) => Err(error),
    }
}

/// Loads the credentials: the saved document, or `None`, which stands for
/// the JSON value null, where there is no file. A missing file is no error.
pub fn get_oauth_creds(file: FileState) -> (loaded: Result<
    Option<serde_json::Value>,
    CommandError,
>)
    ensures
        match meaning(file) {
            Meaning::Nothing => loaded matches Ok(None),
            Meaning::Document(document) => loaded matches Ok(Some(found)) && json_text(found)
                == document,
            Meaning::Unreadable(detail) => loaded matches Err(error) && error@ == ErrorView::Io(
                detail,
            ),
            Meaning::Malformed => loaded matches Err(CommandError::ParseFailed(_)),
        },
{
    read_document(file)
}

/// One change of the files, for the caller to make.
#[derive(Debug, PartialEq, Eq)]
pub enum StoreStep {
    /// Create the folder of the documents, and what lies above it, unless
    /// it is there already.
    EnsureFolder,
    /// Write this text to the document's file, in place of all that the
    /// file held.
    WriteFile(String),
    /// Remove the document's file.
    RemoveFile,
}

/// A step as a mathematical value.
pub enum StepView {
    EnsureFolder,
    WriteFile(Seq<char>),
    RemoveFile,
}

impl View for StoreStep {
    type V = StepView;

    open spec fn view(&self) -> StepView {
        match *self {
            StoreStep::EnsureFolder => StepView::EnsureFolder,
            StoreStep::WriteFile(text) => StepView::WriteFile(text@),
            StoreStep::RemoveFile => StepView::RemoveFile,
        }
    }
}

/// The steps that a sequence holds.
pub open spec fn steps_of(steps: Seq<StoreStep>) -> Seq<StepView> {
    Seq::new(steps.len(), |i: int| steps[i]@)
}

/// The steps that save a document whose text was written as `written`, or
/// the error of a document that could not be written as text.
pub open spec fn save_plan(written: Result<Seq<char>, Seq<char>>) -> Result<
    Seq<StepView>,
    ErrorView,
> {
    match written {
        Ok(text) => Ok(seq![StepView::EnsureFolder, StepView::WriteFile(text)]),
        Err(detail) => Err(ErrorView::ParseFailed(detail)),
    }
}

/// Plans the saving of a document from its indented text: first the folder
/// is made sure of, then the file is written. The caller makes the steps in
/// this order and stops at the first that fails.
pub fn plan_save(written: Result<String, String>) -> (plan: Result<Vec<StoreStep>, CommandError>)
    ensures
        match plan {
            Ok(steps) => save_plan(written_view(written)) == Ok::<Seq<StepView>, ErrorView>(
                steps_of(steps@),
            ),
            Err(error) => save_plan(written_view(written)) == Err::<Seq<StepView>, ErrorView>(
                error@,
            ),
        },
{
    match written {
        Ok(text) => {
            let mut steps: Vec<StoreStep> = Vec::new();
            steps.push(StoreStep::EnsureFolder);
            steps.push(StoreStep::WriteFile(text));
            assert(steps_of(steps@) =~= seq![StepView::EnsureFolder, StepView::WriteFile(text@)]);
            Ok(steps)
        },
        Err(detail) => Err(CommandError::ParseFailed(detail)),
    }
}

/// A written text, or the words of the error, as a mathematical value.
pub open spec fn written_view(written: Result<String, String>) -> Result<Seq<char>, Seq<char>> {
    match written {
        Ok(text) => Ok(text@),
        Err(detail) => Err(detail@),
    }
}

/// Plans the saving of the configuration: the folder is made sure of, then
/// the file is overwritten with the indented text of the document. A
/// document that the JSON writer refuses is an error, and nothing is to be
/// done for it.
pub fn save_config(config: &serde_json::Value) -> (plan: Result<Vec<StoreStep>, CommandError>)
    ensures
        match json_pretty(json_text(*config)) {
            Some(text) => plan matches Ok(steps) && steps_of(steps@) == seq![
                StepView::EnsureFolder,
                StepView::WriteFile(text),
            ],
            None => plan matches Err(CommandError::ParseFailed(_)),
        },
{
    let written = match render_pretty(config) {
        Ok(text) => Ok(text),
        Err(error) => Err(error_text(&error)),
    };
    plan_save(written)
}

/// The steps that delete the credentials, where `exists` says whether
/// their file is there.
pub open spec fn delete_plan(exists: bool) -> Seq<StepView> {
    if exists {
        seq![StepView::RemoveFile]
    } else {
        Seq::empty()
    }
}

/// Plans the deleting of the credentials: the file is removed where it is
/// there, and nothing is done where it is not.
pub fn delete_oauth_creds(exists: bool) -> (steps: Vec<StoreStep>)
    ensures
        steps_of(steps@) == delete_plan(exists),
{
    let mut steps: Vec<StoreStep> = Vec::new();
    if exists {
        steps.push(StoreStep::RemoveFile);
    }
    assert(steps_of(steps@) =~= delete_plan(exists));
    steps
}

/// What a load finds after a save: the file holds the indented text of
/// the saved document, and the load yields whatever the JSON reader makes of
/// that text. Wherever the reader gives back the document that the writer
/// wrote, the load yields the saved document.
pub proof fn lemma_load_reads_what_save_wrote(config: serde_json::Value, file: FileState)
    requires
        file matches FileState::Content(text) && json_pretty(json_text(config)) == Some(text@),
    ensures
        meaning(file) == match json_parse(json_pretty(json_text(config))->0) {
            Some(document) => Meaning::Document(document),
            None => Meaning::Malformed,
        },
        json_parse(json_pretty(json_text(config))->0) == Some(json_text(config)) ==> meaning(file)
            == Meaning::Document(json_text(config)),
{
}

} // verus!
