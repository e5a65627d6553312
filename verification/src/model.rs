//! The immutable data model: discovered environment-manager tools, discovered
//! runtime environments, log events, and the notification envelopes that wrap
//! them on the wire.

use vstd::prelude::*;

verus! {

/// Which kind of environment-manager tool was discovered.
#[derive(Clone, Copy, PartialEq, Eq, Structural, Debug)]
pub enum EnvManagerType {
    Conda,
    Pyenv,
}

/// One discovered environment-manager tool.
pub struct EnvManager {
    pub executable_path: String,
    pub version: Option<String>,
    pub tool: EnvManagerType,
}

/// The mathematical value of an [`EnvManager`]: each text field as a
/// character sequence.
pub struct EnvManagerV {
    pub executable_path: Seq<char>,
    pub version: Option<Seq<char>>,
    pub tool: EnvManagerType,
}

impl View for EnvManager {
    type V = EnvManagerV;

    open spec fn view(&self) -> EnvManagerV {
        EnvManagerV {
            executable_path: self.executable_path@,
            version: self.version.deep_view(),
            tool: self.tool,
        }
    }
}

impl EnvManager {
    pub fn new(executable_path: String, version: Option<String>, tool: EnvManagerType) -> (r: Self)
        ensures
            r@ == (EnvManagerV {
                executable_path: executable_path@,
                version: version.deep_view(),
                tool,
            }),
    {
        Self { executable_path, version, tool }
    }
}

impl Clone for EnvManager {
    fn clone(&self) -> (r: Self)
        ensures
            r@ == self@,
    {
        Self {
            executable_path: self.executable_path.clone(),
            version: match &self.version {
                Some(v) => Some(v.clone()),
                None => None,
            },
            tool: self.tool,
        }
    }
}

/// How a discovered runtime environment was found or is organized.
#[derive(Clone, Copy, PartialEq, Eq, Structural, Debug)]
pub enum PythonEnvironmentCategory {
    System,
    Homebrew,
    Conda,
    Pyenv,
    PyenvVirtualEnv,
    WindowsStore,
    Pipenv,
    VirtualEnvWrapper,
}

/// One discovered runtime installation or virtual environment.
pub struct PythonEnvironment {
    pub name: Option<String>,
    pub python_executable_path: Option<String>,
    pub category: PythonEnvironmentCategory,
    pub version: Option<String>,
    pub env_path: Option<String>,
    pub sys_prefix_path: Option<String>,
    pub env_manager: Option<EnvManager>,
    pub python_run_command: Option<Vec<String>>,
    /// The project path for a Pipenv environment; absent for every other
    /// category.
    pub project_path: Option<String>,
}

/// The mathematical value of a [`PythonEnvironment`].
pub struct PythonEnvironmentV {
    pub name: Option<Seq<char>>,
    pub python_executable_path: Option<Seq<char>>,
    pub category: PythonEnvironmentCategory,
    pub version: Option<Seq<char>>,
    pub env_path: Option<Seq<char>>,
    pub sys_prefix_path: Option<Seq<char>>,
    pub env_manager: Option<EnvManagerV>,
    pub python_run_command: Option<Seq<Seq<char>>>,
    pub project_path: Option<Seq<char>>,
}

impl View for PythonEnvironment {
    type V = PythonEnvironmentV;

    open spec fn view(&self) -> PythonEnvironmentV {
        PythonEnvironmentV {
            name: self.name.deep_view(),
            python_executable_path: self.python_executable_path.deep_view(),
            category: self.category,
            version: self.version.deep_view(),
            env_path: self.env_path.deep_view(),
            sys_prefix_path: self.sys_prefix_path.deep_view(),
            env_manager: match self.env_manager {
                Some(m) => Some(m@),
                None => None,
            },
            python_run_command: self.python_run_command.deep_view(),
            project_path: self.project_path.deep_view(),
        }
    }
}

impl PythonEnvironment {
    /// The general constructor: every field from its argument, and no
    /// project path.
    pub fn new(
        name: Option<String>,
        python_executable_path: Option<String>,
        category: PythonEnvironmentCategory,
        version: Option<String>,
        env_path: Option<String>,
        sys_prefix_path: Option<String>,
        env_manager: Option<EnvManager>,
        python_run_command: Option<Vec<String>>,
    ) -> (r: Self)
        ensures
            r@ == (PythonEnvironmentV {
                name: name.deep_view(),
                python_executable_path: python_executable_path.deep_view(),
                category,
                version: version.deep_view(),
                env_path: env_path.deep_view(),
                sys_prefix_path: sys_prefix_path.deep_view(),
                env_manager: match env_manager {
                    Some(m) => Some(m@),
                    None => None,
                },
                python_run_command: python_run_command.deep_view(),
                project_path: None::<Seq<char>>,
            }),
    {
        Self {
            name,
            python_executable_path,
            category,
            version,
            env_path,
            sys_prefix_path,
            env_manager,
            python_run_command,
            project_path: None,
        }
    }

    /// The constructor for Pipenv-managed environments: the category is
    /// forced to `Pipenv`, the display name is left unset, the project path
    /// is required, and the run command is the one-element sequence holding
    /// the executable path exactly when that path is present.
    pub fn new_pipenv(
        python_executable_path: Option<String>,
        version: Option<String>,
        env_path: Option<String>,
        sys_prefix_path: Option<String>,
        env_manager: Option<EnvManager>,
        project_path: String,
    ) -> (r: Self)
        ensures
            r@ == (PythonEnvironmentV {
                name: None::<Seq<char>>,
                python_executable_path: python_executable_path.deep_view(),
                category: PythonEnvironmentCategory::Pipenv,
                version: version.deep_view(),
                env_path: env_path.deep_view(),
                sys_prefix_path: sys_prefix_path.deep_view(),
                env_manager: match env_manager {
                    Some(m) => Some(m@),
                    None => None,
                },
                python_run_command: match python_executable_path.deep_view() {
                    Some(exe) => Some(seq![exe]),
                    None => None::<Seq<Seq<char>>>,
                },
                project_path: Some(project_path@),
            }),
    {
        let (exe_field, run_command): (Option<String>, Option<Vec<String>>) =
            match python_executable_path {
            Some(exe) => {
                let exe_copy = exe.clone();
                let mut argv: Vec<String> = Vec::new();
                argv.push(exe);
                proof {
                    assert(argv.deep_view() =~= seq![exe_copy@]);
                }
                (Some(exe_copy), Some(argv))
            },
            None => (None, None),
        };
        Self {
            name: None,
            python_executable_path: exe_field,
            category: PythonEnvironmentCategory::Pipenv,
            version,
            env_path,
            sys_prefix_path,
            env_manager,
            python_run_command: run_command,
            project_path: Some(project_path),
        }
    }
}

/// The severity of a log event.
#[derive(Clone, Copy, PartialEq, Eq, Structural, Debug)]
pub enum LogLevel {
    Debug,
    Info,
    Warning,
    Error,
}

/// One diagnostic log event: a severity and a free-form message.
pub struct LogEvent {
    pub level: LogLevel,
    pub message: String,
}

/// The mathematical value of a [`LogEvent`].
pub struct LogEventV {
    pub level: LogLevel,
    pub message: Seq<char>,
}

impl View for LogEvent {
    type V = LogEventV;

    open spec fn view(&self) -> LogEventV {
        LogEventV { level: self.level, message: self.message@ }
    }
}

/// The notification envelope around an [`EnvManager`] report.
pub struct EnvManagerMessage {
    pub jsonrpc: String,
    pub method: String,
    pub params: EnvManager,
}

/// The mathematical value of an [`EnvManagerMessage`].
pub struct EnvManagerMessageV {
    pub jsonrpc: Seq<char>,
    pub method: Seq<char>,
    pub params: EnvManagerV,
}

impl View for EnvManagerMessage {
    type V = EnvManagerMessageV;

    open spec fn view(&self) -> EnvManagerMessageV {
        EnvManagerMessageV { jsonrpc: self.jsonrpc@, method: self.method@, params: self.params@ }
    }
}

impl EnvManagerMessage {
    pub fn new(params: EnvManager) -> (r: Self)
        ensures
            r@ == (EnvManagerMessageV {
                jsonrpc: "2.0"@,
                method: "envManager"@,
                params: params@,
            }),
    {
        Self {
            jsonrpc: String::from_str("2.0"),
            method: String::from_str("envManager"),
            params,
        }
    }
}

/// The notification envelope around a [`PythonEnvironment`] report.
pub struct PythonEnvironmentMessage {
    pub jsonrpc: String,
    pub method: String,
    pub params: PythonEnvironment,
}

/// The mathematical value of a [`PythonEnvironmentMessage`].
pub struct PythonEnvironmentMessageV {
    pub jsonrpc: Seq<char>,
    pub method: Seq<char>,
    pub params: PythonEnvironmentV,
}

impl View for PythonEnvironmentMessage {
    type V = PythonEnvironmentMessageV;

    open spec fn view(&self) -> PythonEnvironmentMessageV {
        PythonEnvironmentMessageV {
            jsonrpc: self.jsonrpc@,
            method: self.method@,
            params: self.params@,
        }
    }
}

impl PythonEnvironmentMessage {
    pub fn new(params: PythonEnvironment) -> (r: Self)
        ensures
            r@ == (PythonEnvironmentMessageV {
                jsonrpc: "2.0"@,
                method: "pythonEnvironment"@,
                params: params@,
            }),
    {
        Self {
            jsonrpc: String::from_str("2.0"),
            method: String::from_str("pythonEnvironment"),
            params,
        }
    }
}

/// The notification envelope around a [`LogEvent`].
pub struct LogMessage {
    pub jsonrpc: String,
    pub method: String,
    pub params: LogEvent,
}

/// The mathematical value of a [`LogMessage`].
pub struct LogMessageV {
    pub jsonrpc: Seq<char>,
    pub method: Seq<char>,
    pub params: LogEventV,
}

impl View for LogMessage {
    type V = LogMessageV;

    open spec fn view(&self) -> LogMessageV {
        LogMessageV { jsonrpc: self.jsonrpc@, method: self.method@, params: self.params@ }
    }
}

impl LogMessage {
    pub fn new(message: String, level: LogLevel) -> (r: Self)
        ensures
            r@ == (LogMessageV {
                jsonrpc: "2.0"@,
                method: "log"@,
                params: LogEventV { level, message: message@ },
            }),
    {
        Self {
            jsonrpc: String::from_str("2.0"),
            method: String::from_str("log"),
            params: LogEvent { level, message },
        }
    }
}

/// The terminal notification: no further messages will follow.
pub struct ExitMessage {
    pub jsonrpc: String,
    pub method: String,
    pub params: Option<()>,
}

/// The mathematical value of an [`ExitMessage`].
pub struct ExitMessageV {
    pub jsonrpc: Seq<char>,
    pub method: Seq<char>,
    pub params: Option<()>,
}

impl View for ExitMessage {
    type V = ExitMessageV;

    open spec fn view(&self) -> ExitMessageV {
        ExitMessageV { jsonrpc: self.jsonrpc@, method: self.method@, params: self.params }
    }
}

impl ExitMessage {
    pub fn new() -> (r: Self)
        ensures
            r@ == (ExitMessageV { jsonrpc: "2.0"@, method: "exit"@, params: None::<()> }),
    {
        Self {
            jsonrpc: String::from_str("2.0"),
            method: String::from_str("exit"),
            params: None,
        }
    }
}

} // verus!
