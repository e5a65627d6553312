//! The wire shape of each notification: the exact JSON body emitted for a
//! manager report, an environment report, a log event and the exit signal,
//! with every field name in lowerCamelCase and every absent optional field
//! rendered as `null`.

use vstd::prelude::*;
use crate::json::{
    append_json_string, append_opt_string, append_opt_string_array, json_string, opt_string_json,
    opt_string_array_json,
};
use crate::model::{
    EnvManager, EnvManagerMessage, EnvManagerMessageV, EnvManagerType, EnvManagerV, ExitMessage,
    ExitMessageV, LogEvent, LogEventV, LogLevel, LogMessage, LogMessageV, PythonEnvironment,
    PythonEnvironmentCategory, PythonEnvironmentMessage, PythonEnvironmentMessageV,
    PythonEnvironmentV,
};

verus! {

/// The wire tag of an environment-manager kind.
pub open spec fn tool_json(t: EnvManagerType) -> Seq<char> {
    match t {
        EnvManagerType::Conda => "\"conda\""@,
        EnvManagerType::Pyenv => "\"pyenv\""@,
    }
}

/// The wire tag of an environment category.
pub open spec fn category_json(c: PythonEnvironmentCategory) -> Seq<char> {
    match c {
        PythonEnvironmentCategory::System => "\"system\""@,
        PythonEnvironmentCategory::Homebrew => "\"homebrew\""@,
        PythonEnvironmentCategory::Conda => "\"conda\""@,
        PythonEnvironmentCategory::Pyenv => "\"pyenv\""@,
        PythonEnvironmentCategory::PyenvVirtualEnv => "\"pyenvVirtualEnv\""@,
        PythonEnvironmentCategory::WindowsStore => "\"windowsStore\""@,
        PythonEnvironmentCategory::Pipenv => "\"pipenv\""@,
        PythonEnvironmentCategory::VirtualEnvWrapper => "\"virtualEnvWrapper\""@,
    }
}

/// The wire tag of a log severity.
pub open spec fn level_json(l: LogLevel) -> Seq<char> {
    match l {
        LogLevel::Debug => "\"debug\""@,
        LogLevel::Info => "\"info\""@,
        LogLevel::Warning => "\"warning\""@,
        LogLevel::Error => "\"error\""@,
    }
}

/// The JSON object for one environment-manager tool.
pub open spec fn manager_json(m: EnvManagerV) -> Seq<char> {
    "{\"executablePath\":"@ + json_string(m.executable_path) + ",\"version\":"@
        + opt_string_json(m.version) + ",\"tool\":"@ + tool_json(m.tool) + "}"@
}

/// An optional manager field: the manager object when present, `null` when
/// absent.
pub open spec fn opt_manager_json(m: Option<EnvManagerV>) -> Seq<char> {
    match m {
        Some(v) => manager_json(v),
        None => seq!['n', 'u', 'l', 'l'],
    }
}

/// The first half of the environment object: the fields up to and including
/// `version`.
pub open spec fn environment_json_head(e: PythonEnvironmentV) -> Seq<char> {
    "{\"name\":"@ + opt_string_json(e.name) + ",\"pythonExecutablePath\":"@
        + opt_string_json(e.python_executable_path) + ",\"category\":"@
        + category_json(e.category) + ",\"version\":"@ + opt_string_json(e.version)
}

/// The second half of the environment object: the fields from `envPath` on.
pub open spec fn environment_json_tail(e: PythonEnvironmentV) -> Seq<char> {
    ",\"envPath\":"@ + opt_string_json(e.env_path) + ",\"sysPrefixPath\":"@
        + opt_string_json(e.sys_prefix_path) + ",\"envManager\":"@
        + opt_manager_json(e.env_manager) + ",\"pythonRunCommand\":"@
        + opt_string_array_json(e.python_run_command) + ",\"projectPath\":"@
        + opt_string_json(e.project_path) + "}"@
}

/// The JSON object for one runtime environment.
pub open spec fn environment_json(e: PythonEnvironmentV) -> Seq<char> {
    environment_json_head(e) + environment_json_tail(e)
}

/// The JSON object for one log event.
pub open spec fn log_event_json(l: LogEventV) -> Seq<char> {
    "{\"level\":"@ + level_json(l.level) + ",\"message\":"@ + json_string(l.message) + "}"@
}

/// The three-field notification envelope.
pub open spec fn envelope_json(jsonrpc: Seq<char>, method: Seq<char>, params: Seq<char>) -> Seq<
    char,
> {
    "{\"jsonrpc\":"@ + json_string(jsonrpc) + ",\"method\":"@ + json_string(method)
        + ",\"params\":"@ + params + "}"@
}

/// The body of a manager-report notification.
pub open spec fn env_manager_message_json(m: EnvManagerMessageV) -> Seq<char> {
    envelope_json(m.jsonrpc, m.method, manager_json(m.params))
}

/// The body of an environment-report notification.
pub open spec fn python_environment_message_json(m: PythonEnvironmentMessageV) -> Seq<char> {
    envelope_json(m.jsonrpc, m.method, environment_json(m.params))
}

/// The body of a log notification.
pub open spec fn log_message_json(m: LogMessageV) -> Seq<char> {
    envelope_json(m.jsonrpc, m.method, log_event_json(m.params))
}

/// The body of the exit notification: its `params` field holds no value and
/// is rendered as `null`.
pub open spec fn exit_message_json(m: ExitMessageV) -> Seq<char> {
    envelope_json(m.jsonrpc, m.method, seq!['n', 'u', 'l', 'l'])
}

/// Appends the wire tag of an environment-manager kind.
fn append_tool(out: &mut String, t: EnvManagerType)
    ensures
        final(out)@ == old(out)@ + tool_json(t),
{
    match t {
        EnvManagerType::Conda => out.append("\"conda\""),
        EnvManagerType::Pyenv => out.append("\"pyenv\""),
    }
}

/// Appends the wire tag of an environment category.
fn append_category(out: &mut String, c: PythonEnvironmentCategory)
    ensures
        final(out)@ == old(out)@ + category_json(c),
{
    match c {
        PythonEnvironmentCategory::System => out.append("\"system\""),
        PythonEnvironmentCategory::Homebrew => out.append("\"homebrew\""),
        PythonEnvironmentCategory::Conda => out.append("\"conda\""),
        PythonEnvironmentCategory::Pyenv => out.append("\"pyenv\""),
        PythonEnvironmentCategory::PyenvVirtualEnv => out.append("\"pyenvVirtualEnv\""),
        PythonEnvironmentCategory::WindowsStore => out.append("\"windowsStore\""),
        PythonEnvironmentCategory::Pipenv => out.append("\"pipenv\""),
        PythonEnvironmentCategory::VirtualEnvWrapper => out.append("\"virtualEnvWrapper\""),
    }
}

/// Appends the wire tag of a log severity.
fn append_level(out: &mut String, l: LogLevel)
    ensures
        final(out)@ == old(out)@ + level_json(l),
{
    match l {
        LogLevel::Debug => out.append("\"debug\""),
        LogLevel::Info => out.append("\"info\""),
        LogLevel::Warning => out.append("\"warning\""),
        LogLevel::Error => out.append("\"error\""),
    }
}

/// Appends the JSON object for one environment-manager tool.
fn append_manager(out: &mut String, m: &EnvManager)
    ensures
        final(out)@ == old(out)@ + manager_json(m@),
{
    out.append("{\"executablePath\":");
    append_json_string(out, m.executable_path.as_str());
    out.append(",\"version\":");
    append_opt_string(out, &m.version);
    out.append(",\"tool\":");
    append_tool(out, m.tool);
    out.append("}");
    proof {
        assert(final(out)@ =~= old(out)@ + manager_json(m@));
    }
}

/// Appends an optional manager field: the manager object or `null`.
fn append_opt_manager(out: &mut String, m: &Option<EnvManager>)
    ensures
        final(out)@ == old(out)@ + opt_manager_json(match *m {
            Some(v) => Some(v@),
            None => None,
        }),
{
    match m {
        Some(v) => {
            append_manager(out, v);
        }
        None => {
            out.append("null");
            proof {
                reveal_strlit("null");
                assert(final(out)@ =~= old(out)@ + seq!['n', 'u', 'l', 'l']);
            }
        }
    }
}

/// Appends the first half of the environment object.
fn append_environment_head(out: &mut String, e: &PythonEnvironment)
    ensures
        final(out)@ == old(out)@ + environment_json_head(e@),
{
    out.append("{\"name\":");
    append_opt_string(out, &e.name);
    out.append(",\"pythonExecutablePath\":");
    append_opt_string(out, &e.python_executable_path);
    out.append(",\"category\":");
    append_category(out, e.category);
    out.append(",\"version\":");
    append_opt_string(out, &e.version);
    proof {
        assert(final(out)@ =~= old(out)@ + environment_json_head(e@));
    }
}

/// Appends the second half of the environment object.
fn append_environment_tail(out: &mut String, e: &PythonEnvironment)
    ensures
        final(out)@ == old(out)@ + environment_json_tail(e@),
{
    out.append(",\"envPath\":");
    append_opt_string(out, &e.env_path);
    out.append(",\"sysPrefixPath\":");
    append_opt_string(out, &e.sys_prefix_path);
    out.append(",\"envManager\":");
    append_opt_manager(out, &e.env_manager);
    out.append(",\"pythonRunCommand\":");
    append_opt_string_array(out, &e.python_run_command);
    out.append(",\"projectPath\":");
    append_opt_string(out, &e.project_path);
    out.append("}");
    proof {
        assert(final(out)@ =~= old(out)@ + environment_json_tail(e@));
    }
}

/// Appends the JSON object for one runtime environment.
fn append_environment(out: &mut String, e: &PythonEnvironment)
    ensures
        final(out)@ == old(out)@ + environment_json(e@),
{
    append_environment_head(out, e);
    append_environment_tail(out, e);
    proof {
        assert(final(out)@ =~= old(out)@ + environment_json(e@));
    }
}

/// Appends the JSON object for one log event.
fn append_log_event(out: &mut String, l: &LogEvent)
    ensures
        final(out)@ == old(out)@ + log_event_json(l@),
{
    out.append("{\"level\":");
    append_level(out, l.level);
    out.append(",\"message\":");
    append_json_string(out, l.message.as_str());
    out.append("}");
    proof {
        assert(final(out)@ =~= old(out)@ + log_event_json(l@));
    }
}

/// Appends the opening of the envelope up to and including the `params` key,
/// for the given `jsonrpc` and `method` field values.
fn append_envelope_head(out: &mut String, jsonrpc: &str, method: &str)
    ensures
        final(out)@ == old(out)@ + "{\"jsonrpc\":"@ + json_string(jsonrpc@) + ",\"method\":"@
            + json_string(method@) + ",\"params\":"@,
{
    out.append("{\"jsonrpc\":");
    append_json_string(out, jsonrpc);
    out.append(",\"method\":");
    append_json_string(out, method);
    out.append(",\"params\":");
    proof {
        assert(final(out)@ =~= old(out)@ + "{\"jsonrpc\":"@ + json_string(jsonrpc@)
            + ",\"method\":"@ + json_string(method@) + ",\"params\":"@);
    }
}

impl EnvManagerMessage {
    /// The serialized JSON body of this message.
    pub fn to_json(&self) -> (r: String)
        ensures
            r@ == env_manager_message_json(self@),
    {
        let mut out = String::new();
        append_envelope_head(&mut out, self.jsonrpc.as_str(), self.method.as_str());
        append_manager(&mut out, &self.params);
        out.append("}");
        proof {
            assert(out@ =~= env_manager_message_json(self@));
        }
        out
    }
}

impl PythonEnvironmentMessage {
    /// The serialized JSON body of this message.
    pub fn to_json(&self) -> (r: String)
        ensures
            r@ == python_environment_message_json(self@),
    {
        let mut out = String::new();
        append_envelope_head(&mut out, self.jsonrpc.as_str(), self.method.as_str());
        append_environment(&mut out, &self.params);
        out.append("}");
        proof {
            assert(out@ =~= python_environment_message_json(self@));
        }
        out
    }
}

impl LogMessage {
    /// The serialized JSON body of this message.
    pub fn to_json(&self) -> (r: String)
        ensures
            r@ == log_message_json(self@),
    {
        let mut out = String::new();
        append_envelope_head(&mut out, self.jsonrpc.as_str(), self.method.as_str());
        append_log_event(&mut out, &self.params);
        out.append("}");
        proof {
            assert(out@ =~= log_message_json(self@));
        }
        out
    }
}

impl ExitMessage {
    /// The serialized JSON body of this message: the `params` field holds no
    /// value and is rendered as `null`.
    pub fn to_json(&self) -> (r: String)
        ensures
            r@ == exit_message_json(self@),
    {
        let mut out = String::new();
        append_envelope_head(&mut out, self.jsonrpc.as_str(), self.method.as_str());
        out.append("null");
        out.append("}");
        proof {
            reveal_strlit("null");
            assert(out@ =~= exit_message_json(self@));
        }
        out
    }
}

} // verus!
