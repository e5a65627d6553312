//! The constructors' fixed rules, the dispatcher, and the end-to-end
//! four-message scenario.

use locator_messaging::{
    create_dispatcher, EnvManager, EnvManagerMessage, EnvManagerType, ExitMessage, LogLevel,
    LogMessage, MessageDispatcher, PythonEnvironment, PythonEnvironmentCategory,
    PythonEnvironmentMessage,
};
use locator_messaging::frame::frame_message;

#[test]
fn pipenv_constructor_derives_run_command() {
    let env = PythonEnvironment::new_pipenv(
        Some(String::from("/usr/bin/py")),
        None,
        None,
        None,
        None,
        String::from("proj"),
    );
    assert!(env.name.is_none());
    assert!(matches!(env.category, PythonEnvironmentCategory::Pipenv));
    assert_eq!(env.python_executable_path.as_deref(), Some("/usr/bin/py"));
    assert_eq!(env.python_run_command, Some(vec![String::from("/usr/bin/py")]));
    assert_eq!(env.project_path.as_deref(), Some("proj"));
    assert!(env.version.is_none());
    assert!(env.env_path.is_none());
    assert!(env.sys_prefix_path.is_none());
    assert!(env.env_manager.is_none());
}

#[test]
fn pipenv_constructor_without_executable_leaves_run_command_unset() {
    let env = PythonEnvironment::new_pipenv(
        None,
        Some(String::from("3.12.1")),
        None,
        None,
        None,
        String::from("proj"),
    );
    assert!(env.python_run_command.is_none());
    assert!(env.python_executable_path.is_none());
    assert_eq!(env.project_path.as_deref(), Some("proj"));
}

#[test]
fn general_constructor_leaves_project_path_unset() {
    let env = PythonEnvironment::new(
        Some(String::from("venv")),
        None,
        PythonEnvironmentCategory::VirtualEnvWrapper,
        None,
        None,
        None,
        None,
        None,
    );
    assert!(env.project_path.is_none());
}

#[test]
fn manager_constructor_keeps_fields() {
    let manager = EnvManager::new(
        String::from("/opt/conda/bin/conda"),
        Some(String::from("23.1.0")),
        EnvManagerType::Conda,
    );
    assert_eq!(manager.executable_path, "/opt/conda/bin/conda");
    assert_eq!(manager.version.as_deref(), Some("23.1.0"));
    assert!(matches!(manager.tool, EnvManagerType::Conda));
    let copy = manager.clone();
    assert_eq!(copy.executable_path, manager.executable_path);
    assert_eq!(copy.version, manager.version);
}

/// Reads one `Content-Length`-framed message off the front of `stream` and
/// returns its parsed body and the remainder.
fn read_frame(stream: &str) -> (serde_json::Value, &str) {
    let after_key = stream.strip_prefix("Content-Length: ").unwrap();
    let line_end = after_key.find("\r\n").unwrap();
    let declared: usize = after_key[..line_end].parse().unwrap();
    let rest = after_key[line_end..]
        .strip_prefix("\r\nContent-Type: application/vscode-jsonrpc; charset=utf-8\r\n\r\n")
        .unwrap();
    let body = &rest[..declared];
    let value: serde_json::Value = serde_json::from_str(body).unwrap();
    (value, &rest[declared..])
}

#[test]
fn four_message_scenario_frames_in_order() {
    let manager = EnvManager::new(
        String::from("/opt/conda/bin/conda"),
        Some(String::from("23.1.0")),
        EnvManagerType::Conda,
    );
    let env = PythonEnvironment::new(
        None,
        Some(String::from("/usr/bin/python3")),
        PythonEnvironmentCategory::System,
        None,
        None,
        None,
        None,
        None,
    );
    // The same frames the stream dispatcher writes, in the same order.
    let mut stream = String::new();
    stream.push_str(&frame_message(&EnvManagerMessage::new(manager).to_json()));
    stream.push_str(&frame_message(&PythonEnvironmentMessage::new(env).to_json()));
    stream.push_str(&frame_message(&LogMessage::new(String::from("done"), LogLevel::Info).to_json()));
    stream.push_str(&frame_message(&ExitMessage::new().to_json()));

    let (first, rest) = read_frame(&stream);
    assert_eq!(first["method"].as_str().unwrap(), "envManager");
    let (second, rest) = read_frame(rest);
    assert_eq!(second["method"].as_str().unwrap(), "pythonEnvironment");
    let (third, rest) = read_frame(rest);
    assert_eq!(third["method"].as_str().unwrap(), "log");
    assert_eq!(third["params"]["message"].as_str().unwrap(), "done");
    let (fourth, rest) = read_frame(rest);
    assert_eq!(fourth["method"].as_str().unwrap(), "exit");
    assert!(fourth["params"].is_null());
    assert!(rest.is_empty());
}

#[test]
fn envelope_methods_are_fixed() {
    let manager = EnvManager::new(String::from("/x"), None, EnvManagerType::Pyenv);
    let m1 = EnvManagerMessage::new(manager);
    assert_eq!(m1.jsonrpc, "2.0");
    assert_eq!(m1.method, "envManager");
    let env = PythonEnvironment::new(
        None,
        None,
        PythonEnvironmentCategory::Homebrew,
        None,
        None,
        None,
        None,
        None,
    );
    let m2 = PythonEnvironmentMessage::new(env);
    assert_eq!(m2.jsonrpc, "2.0");
    assert_eq!(m2.method, "pythonEnvironment");
    let m3 = LogMessage::new(String::from("hi"), LogLevel::Warning);
    assert_eq!(m3.jsonrpc, "2.0");
    assert_eq!(m3.method, "log");
    let m4 = ExitMessage::new();
    assert_eq!(m4.jsonrpc, "2.0");
    assert_eq!(m4.method, "exit");
    assert!(m4.params.is_none());
}

#[test]
fn dispatcher_writes_each_operation() {
    // The stream dispatcher writes to the process's own standard output;
    // this exercises the whole write path end to end.
    let mut dispatcher = create_dispatcher();
    let manager = EnvManager::new(String::from("/usr/bin/pyenv"), None, EnvManagerType::Pyenv);
    dispatcher.report_environment_manager(manager);
    let env = PythonEnvironment::new(
        None,
        Some(String::from("/usr/bin/python3")),
        PythonEnvironmentCategory::System,
        Some(String::from("3.12.1")),
        None,
        None,
        None,
        None,
    );
    dispatcher.report_environment(env);
    dispatcher.log_debug("starting");
    dispatcher.log_info("found one");
    dispatcher.log_warning("slow scan");
    dispatcher.log_error("unreadable entry");
    dispatcher.exit();
}
