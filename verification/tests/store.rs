use iflow_supervisor::error::CommandError;
use iflow_supervisor::store::{
    config_or_defaults, default_config, delete_oauth_creds, folder_name, get_config, get_oauth_creds, plan_save,
    read_document, require_home, save_config, Config, Document, FileState, Setting,
    SettingValue, StoreStep,
};

fn json(text: &str) -> serde_json::Value {
    serde_json::from_str(text).unwrap()
}

#[test]
fn documents_lie_in_the_application_folder() {
    assert_eq!(folder_name(), ".iflow");
    assert_eq!(Document::Config.file_name(), "gui_config.json");
    assert_eq!(Document::Credentials.file_name(), "oauth_creds.json");
}

#[test]
fn home_directory_is_required() {
    assert_eq!(require_home(Some("/home/u")), Ok("/home/u"));
    assert_eq!(require_home::<String>(None), Err(CommandError::HomeDirUnavailable));
}

fn number(name: &str, number: u32) -> Setting {
    Setting { name: name.to_string(), value: SettingValue::Number(number) }
}

fn text(name: &str, text: &str) -> Setting {
    Setting { name: name.to_string(), value: SettingValue::Text(text.to_string()) }
}

#[test]
fn default_config_is_the_documented_one() {
    assert_eq!(
        default_config(),
        vec![
            number("port", 8000),
            text("baseUrl", "https://apis.iflow.cn/v1"),
            number("retry", 3),
            number("timeout", 60),
            text("theme", "dark"),
            text("language", "zh-CN"),
        ]
    );
}

#[test]
fn default_config_as_a_document_is_the_documented_json() {
    let mut members = serde_json::Map::new();
    for setting in default_config() {
        let value = match setting.value {
            SettingValue::Number(number) => serde_json::Value::from(number),
            SettingValue::Text(text) => serde_json::Value::from(text),
        };
        members.insert(setting.name, value);
    }
    let documented = "{\"port\":8000,\"baseUrl\":\"https://apis.iflow.cn/v1\",\"retry\":3,\"timeout\":60,\"theme\":\"dark\",\"language\":\"zh-CN\"}";
    assert_eq!(serde_json::Value::Object(members), json(documented));
}

#[test]
fn config_is_the_stored_document_or_else_the_defaults() {
    assert_eq!(config_or_defaults(None), Config::Defaults(default_config()));
    let document = json("{\"port\":1}");
    assert_eq!(config_or_defaults(Some(document.clone())), Config::Stored(document));
    assert_eq!(
        config_or_defaults(Some(serde_json::Value::Null)),
        Config::Stored(serde_json::Value::Null)
    );
}

#[test]
fn config_of_missing_file_is_the_defaults() {
    assert_eq!(get_config(FileState::Absent), Ok(Config::Defaults(default_config())));
}

#[test]
fn config_of_stored_file_is_the_document_with_all_members() {
    let text = "{\"port\": 9001, \"theme\": \"light\", \"custom\": {\"deep\": [1, 2, 3]}}";
    assert_eq!(
        get_config(FileState::Content(text.to_string())),
        Ok(Config::Stored(json(text)))
    );
}

#[test]
fn config_that_is_no_json_is_an_error_and_not_the_defaults() {
    let loaded = get_config(FileState::Content("{\"port\": ".to_string()));
    assert_eq!(
        loaded,
        Err(CommandError::ParseFailed("EOF while parsing a value at line 1 column 9".to_string()))
    );
    assert!(matches!(
        get_config(FileState::Content("".to_string())),
        Err(CommandError::ParseFailed(_))
    ));
}

#[test]
fn config_that_cannot_be_read_is_an_error() {
    assert_eq!(
        get_config(FileState::Unreadable("Permission denied (os error 13)".to_string())),
        Err(CommandError::Io("Permission denied (os error 13)".to_string()))
    );
}

#[test]
fn credentials_of_missing_file_are_null_and_no_error() {
    assert_eq!(get_oauth_creds(FileState::Absent), Ok(None));
    assert_eq!(read_document(FileState::Absent), Ok(None));
}

#[test]
fn credentials_of_stored_file_are_the_document() {
    let text = "{\"access_token\":\"t\",\"expires\":1234}\n";
    assert_eq!(get_oauth_creds(FileState::Content(text.to_string())), Ok(Some(json(text))));
    assert_eq!(
        get_oauth_creds(FileState::Content("null".to_string())),
        Ok(Some(serde_json::Value::Null))
    );
}

#[test]
fn credentials_that_are_no_json_or_unreadable_are_errors() {
    assert!(matches!(
        get_oauth_creds(FileState::Content("token=abc".to_string())),
        Err(CommandError::ParseFailed(_))
    ));
    assert_eq!(
        get_oauth_creds(FileState::Unreadable("broken pipe".to_string())),
        Err(CommandError::Io("broken pipe".to_string()))
    );
}

#[test]
fn deleting_missing_credentials_does_nothing() {
    assert_eq!(delete_oauth_creds(false), Vec::<StoreStep>::new());
}

#[test]
fn deleting_present_credentials_removes_the_file() {
    assert_eq!(delete_oauth_creds(true), vec![StoreStep::RemoveFile]);
}

#[test]
fn saving_makes_the_folder_then_writes_the_indented_text() {
    let config = json("{\"port\":8000,\"theme\":\"dark\"}");
    assert_eq!(
        save_config(&config),
        Ok(vec![
            StoreStep::EnsureFolder,
            StoreStep::WriteFile("{\n  \"port\": 8000,\n  \"theme\": \"dark\"\n}".to_string()),
        ])
    );
}

#[test]
fn plan_save_of_written_text_and_of_a_failure() {
    assert_eq!(
        plan_save(Ok("{}".to_string())),
        Ok(vec![StoreStep::EnsureFolder, StoreStep::WriteFile("{}".to_string())])
    );
    assert_eq!(
        plan_save(Err("key must be a string".to_string())),
        Err(CommandError::ParseFailed("key must be a string".to_string()))
    );
}

#[test]
fn saved_config_loads_as_the_same_document() {
    let config = json(
        "{\"port\":8123,\"baseUrl\":\"https://example.test/v1\",\"retry\":0,\"nested\":{\"list\":[1,\"two\",null,true],\"text\":\"a \\\"quoted\\\" \\u4e2d\"},\"unknown\":-5}",
    );
    let steps = save_config(&config).unwrap();
    let written = match &steps[1] {
        StoreStep::WriteFile(text) => text.clone(),
        other => panic!("unexpected step {:?}", other),
    };
    assert_eq!(get_config(FileState::Content(written)), Ok(Config::Stored(config)));
}
