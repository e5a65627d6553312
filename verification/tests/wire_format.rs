//! The emitted JSON bodies and frames, held against their exact expected
//! text and against an independent JSON parser.

use locator_messaging::{
    EnvManager, EnvManagerMessage, EnvManagerType, ExitMessage, LogLevel, LogMessage,
    PythonEnvironment, PythonEnvironmentCategory, PythonEnvironmentMessage,
};
use locator_messaging::frame::frame_message;

#[test]
fn manager_message_exact_text() {
    let manager = EnvManager::new(
        String::from("/opt/conda/bin/conda"),
        Some(String::from("23.1.0")),
        EnvManagerType::Conda,
    );
    let body = EnvManagerMessage::new(manager).to_json();
    assert_eq!(
        body,
        "{\"jsonrpc\":\"2.0\",\"method\":\"envManager\",\"params\":\
         {\"executablePath\":\"/opt/conda/bin/conda\",\"version\":\"23.1.0\",\
         \"tool\":\"conda\"}}"
    );
}

#[test]
fn manager_absent_version_is_null() {
    let manager = EnvManager::new(String::from("/usr/bin/pyenv"), None, EnvManagerType::Pyenv);
    let body = EnvManagerMessage::new(manager).to_json();
    assert_eq!(
        body,
        "{\"jsonrpc\":\"2.0\",\"method\":\"envManager\",\"params\":\
         {\"executablePath\":\"/usr/bin/pyenv\",\"version\":null,\"tool\":\"pyenv\"}}"
    );
}

#[test]
fn manager_round_trips_through_a_json_parser() {
    let manager = EnvManager::new(
        String::from("/usr/bin/pyenv"),
        Some(String::from("2.3.35")),
        EnvManagerType::Pyenv,
    );
    let body = EnvManagerMessage::new(manager).to_json();
    let value: serde_json::Value = serde_json::from_str(&body).unwrap();
    let params = &value["params"];
    // Rebuild the manager from the parsed fields and serialize it again:
    // an equal value gives equal text.
    let rebuilt = EnvManager::new(
        String::from(params["executablePath"].as_str().unwrap()),
        params["version"].as_str().map(String::from),
        match params["tool"].as_str().unwrap() {
            "conda" => EnvManagerType::Conda,
            "pyenv" => EnvManagerType::Pyenv,
            other => panic!("unexpected tool tag {other}"),
        },
    );
    let again = EnvManagerMessage::new(rebuilt).to_json();
    assert_eq!(body, again);
}

#[test]
fn manager_without_version_round_trips_absence() {
    let manager = EnvManager::new(String::from("/opt/conda/bin/conda"), None, EnvManagerType::Conda);
    let body = EnvManagerMessage::new(manager).to_json();
    let value: serde_json::Value = serde_json::from_str(&body).unwrap();
    assert!(value["params"]["version"].is_null());
    let rebuilt = EnvManager::new(
        String::from(value["params"]["executablePath"].as_str().unwrap()),
        value["params"]["version"].as_str().map(String::from),
        EnvManagerType::Conda,
    );
    assert_eq!(body, EnvManagerMessage::new(rebuilt).to_json());
}

#[test]
fn string_escaping_matches_a_real_json_parser() {
    let tricky = "a\"b\\c\nd\te\rf\u{08}g\u{0c}h\u{1f}i\u{0}j";
    let message = LogMessage::new(String::from(tricky), LogLevel::Info);
    let body = message.to_json();
    let value: serde_json::Value = serde_json::from_str(&body).unwrap();
    assert_eq!(value["params"]["message"].as_str().unwrap(), tricky);
}

#[test]
fn control_characters_escape_exactly() {
    let message = LogMessage::new(String::from("a\"b\\c\nd\u{1f}"), LogLevel::Debug);
    let body = message.to_json();
    assert_eq!(
        body,
        "{\"jsonrpc\":\"2.0\",\"method\":\"log\",\"params\":\
         {\"level\":\"debug\",\"message\":\"a\\\"b\\\\c\\nd\\u001f\"}}"
    );
}

#[test]
fn exit_message_exact_text() {
    let body = ExitMessage::new().to_json();
    assert_eq!(body, "{\"jsonrpc\":\"2.0\",\"method\":\"exit\",\"params\":null}");
}

#[test]
fn log_levels_serialize_to_their_tags() {
    let cases = [
        (LogLevel::Debug, "debug"),
        (LogLevel::Info, "info"),
        (LogLevel::Warning, "warning"),
        (LogLevel::Error, "error"),
    ];
    for (level, tag) in cases {
        let body = LogMessage::new(String::from("x"), level).to_json();
        let value: serde_json::Value = serde_json::from_str(&body).unwrap();
        assert_eq!(value["method"].as_str().unwrap(), "log");
        assert_eq!(value["params"]["level"].as_str().unwrap(), tag);
    }
}

#[test]
fn environment_message_fields_and_tags() {
    let manager = EnvManager::new(String::from("/opt/conda/bin/conda"), None, EnvManagerType::Conda);
    let env = PythonEnvironment::new(
        Some(String::from("base")),
        Some(String::from("/opt/conda/bin/python")),
        PythonEnvironmentCategory::Conda,
        Some(String::from("3.11.4")),
        Some(String::from("/opt/conda")),
        None,
        Some(manager),
        Some(vec![String::from("/opt/conda/bin/python")]),
    );
    let body = PythonEnvironmentMessage::new(env).to_json();
    let value: serde_json::Value = serde_json::from_str(&body).unwrap();
    assert_eq!(value["jsonrpc"].as_str().unwrap(), "2.0");
    assert_eq!(value["method"].as_str().unwrap(), "pythonEnvironment");
    let params = &value["params"];
    assert_eq!(params["name"].as_str().unwrap(), "base");
    assert_eq!(params["pythonExecutablePath"].as_str().unwrap(), "/opt/conda/bin/python");
    assert_eq!(params["category"].as_str().unwrap(), "conda");
    assert_eq!(params["version"].as_str().unwrap(), "3.11.4");
    assert_eq!(params["envPath"].as_str().unwrap(), "/opt/conda");
    assert!(params["sysPrefixPath"].is_null());
    assert_eq!(params["envManager"]["tool"].as_str().unwrap(), "conda");
    assert!(params["envManager"]["version"].is_null());
    assert_eq!(params["pythonRunCommand"][0].as_str().unwrap(), "/opt/conda/bin/python");
    assert!(params["projectPath"].is_null());
}

#[test]
fn category_tags_are_camel_case() {
    let cases = [
        (PythonEnvironmentCategory::System, "system"),
        (PythonEnvironmentCategory::Homebrew, "homebrew"),
        (PythonEnvironmentCategory::Conda, "conda"),
        (PythonEnvironmentCategory::Pyenv, "pyenv"),
        (PythonEnvironmentCategory::PyenvVirtualEnv, "pyenvVirtualEnv"),
        (PythonEnvironmentCategory::WindowsStore, "windowsStore"),
        (PythonEnvironmentCategory::Pipenv, "pipenv"),
        (PythonEnvironmentCategory::VirtualEnvWrapper, "virtualEnvWrapper"),
    ];
    for (category, tag) in cases {
        let env = PythonEnvironment::new(None, None, category, None, None, None, None, None);
        let body = PythonEnvironmentMessage::new(env).to_json();
        let value: serde_json::Value = serde_json::from_str(&body).unwrap();
        assert_eq!(value["params"]["category"].as_str().unwrap(), tag);
    }
}

#[test]
fn empty_run_command_serializes_as_empty_array() {
    let env = PythonEnvironment::new(
        None,
        None,
        PythonEnvironmentCategory::System,
        None,
        None,
        None,
        None,
        Some(Vec::new()),
    );
    let body = PythonEnvironmentMessage::new(env).to_json();
    assert!(body.contains("\"pythonRunCommand\":[],"));
}

#[test]
fn run_command_keeps_argument_order() {
    let env = PythonEnvironment::new(
        None,
        None,
        PythonEnvironmentCategory::Pyenv,
        None,
        None,
        None,
        None,
        Some(vec![String::from("pyenv"), String::from("exec"), String::from("python")]),
    );
    let body = PythonEnvironmentMessage::new(env).to_json();
    assert!(body.contains("\"pythonRunCommand\":[\"pyenv\",\"exec\",\"python\"],"));
}

#[test]
fn frame_exact_text() {
    assert_eq!(
        frame_message("abc"),
        "Content-Length: 3\r\nContent-Type: application/vscode-jsonrpc; charset=utf-8\r\n\r\nabc"
    );
}

#[test]
fn content_length_counts_utf8_bytes_not_characters() {
    let message = LogMessage::new(String::from("h\u{e9}llo \u{2192} \u{221e}"), LogLevel::Info);
    let body = message.to_json();
    let framed = frame_message(&body);
    let header_end = framed.find("\r\n\r\n").unwrap();
    let declared: usize = framed["Content-Length: ".len()..framed.find("\r\n").unwrap()]
        .parse()
        .unwrap();
    let actual_body = &framed[header_end + 4..];
    assert_eq!(actual_body, body);
    assert_eq!(declared, body.as_bytes().len());
    assert!(declared > body.chars().count());
}
