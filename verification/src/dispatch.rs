//! The dispatcher: wraps each data-model value in its notification envelope,
//! serializes it, frames it, and hands the framed message to the output
//! stream in one contiguous write.
//!
//! The stream dispatcher carries a ghost trace of every framed message it
//! has emitted, in order; each operation's contract states exactly which
//! framed message the call appends to that trace.

use vstd::prelude::*;
use crate::frame::{frame_chars, frame_message};
use crate::model::{
    EnvManager, EnvManagerMessage, EnvManagerMessageV, ExitMessage, ExitMessageV, LogEventV,
    LogLevel, LogMessage, LogMessageV, PythonEnvironment, PythonEnvironmentMessage,
    PythonEnvironmentMessageV,
};
use crate::wire::{
    env_manager_message_json, exit_message_json, log_message_json, python_environment_message_json,
};

verus! {

/// The framed log notification for `message` at severity `level`.
pub open spec fn log_frame(level: LogLevel, message: Seq<char>) -> Seq<char> {
    frame_chars(log_message_json(LogMessageV {
        jsonrpc: "2.0"@,
        method: "log"@,
        params: LogEventV { level, message },
    }))
}

/// The capability set of the reporting side: report a discovered manager,
/// report a discovered environment, log at four severities, and signal that
/// no further messages follow. An implementation other than the stream
/// dispatcher may record the values instead of writing bytes.
pub trait MessageDispatcher {
    fn report_environment_manager(&mut self, env: EnvManager);

    fn report_environment(&mut self, env: PythonEnvironment);

    fn exit(&mut self);

    fn log_debug(&mut self, message: &str);

    fn log_info(&mut self, message: &str);

    fn log_warning(&mut self, message: &str);

    fn log_error(&mut self, message: &str);
}

/// The stream dispatcher: each operation emits exactly one framed
/// notification on the output stream.
pub struct JsonRpcDispatcher {
    history: Ghost<Seq<Seq<char>>>,
}

impl JsonRpcDispatcher {
    /// The framed messages this dispatcher has emitted on the output stream,
    /// in the order they were written.
    pub closed spec fn emitted(&self) -> Seq<Seq<char>> {
        self.history@
    }

    /// Frames the serialized body, writes the framed message to the output
    /// stream, and records it in the trace.
    fn emit(&mut self, body: String)
        ensures
            final(self).emitted() == old(self).emitted().push(frame_chars(body@)),
    {
        let framed = frame_message(body.as_str());
        write_stdout(framed.as_str());
        proof {
            self.history@ = self.history@.push(frame_chars(body@));
        }
    }
}

impl MessageDispatcher for JsonRpcDispatcher {
    fn report_environment_manager(&mut self, env: EnvManager)
        ensures
            final(self).emitted() == old(self).emitted().push(
                frame_chars(env_manager_message_json(EnvManagerMessageV {
                    jsonrpc: "2.0"@,
                    method: "envManager"@,
                    params: env@,
                })),
            ),
    {
        let message = EnvManagerMessage::new(env);
        let body = message.to_json();
        self.emit(body);
    }

    fn report_environment(&mut self, env: PythonEnvironment)
        ensures
            final(self).emitted() == old(self).emitted().push(
                frame_chars(python_environment_message_json(PythonEnvironmentMessageV {
                    jsonrpc: "2.0"@,
                    method: "pythonEnvironment"@,
                    params: env@,
                })),
            ),
    {
        let message = PythonEnvironmentMessage::new(env);
        let body = message.to_json();
        self.emit(body);
    }

    fn exit(&mut self)
        ensures
            final(self).emitted() == old(self).emitted().push(
                frame_chars(exit_message_json(ExitMessageV {
                    jsonrpc: "2.0"@,
                    method: "exit"@,
                    params: None::<()>,
                })),
            ),
    {
        let message = ExitMessage::new();
        let body = message.to_json();
        self.emit(body);
    }

    fn log_debug(&mut self, message: &str)
        ensures
            final(self).emitted() == old(self).emitted().push(
                log_frame(LogLevel::Debug, message@),
            ),
    {
        let log = LogMessage::new(String::from_str(message), LogLevel::Debug);
        let body = log.to_json();
        self.emit(body);
    }

    fn log_info(&mut self, message: &str)
        ensures
            final(self).emitted() == old(self).emitted().push(
                log_frame(LogLevel::Info, message@),
            ),
    {
        let log = LogMessage::new(String::from_str(message), LogLevel::Info);
        let body = log.to_json();
        self.emit(body);
    }

    fn log_warning(&mut self, message: &str)
        ensures
            final(self).emitted() == old(self).emitted().push(
                log_frame(LogLevel::Warning, message@),
            ),
    {
        let log = LogMessage::new(String::from_str(message), LogLevel::Warning);
        let body = log.to_json();
        self.emit(body);
    }

    fn log_error(&mut self, message: &str)
        ensures
            final(self).emitted() == old(self).emitted().push(
                log_frame(LogLevel::Error, message@),
            ),
    {
        let log = LogMessage::new(String::from_str(message), LogLevel::Error);
        let body = log.to_json();
        self.emit(body);
    }
}

/// A fresh stream dispatcher with an empty trace.
pub fn create_dispatcher() -> (r: JsonRpcDispatcher)
    ensures
        r.emitted() == Seq::<Seq<char>>::empty(),
{
    JsonRpcDispatcher { history: Ghost(Seq::empty()) }
}

/// Relies on `std::io::Stdout`: one `write_all` on the locked handle hands
/// the whole framed message to the stream as a single contiguous write, so
/// a concurrent writer of the same stream cannot interleave its bytes
/// within this message. A failed write panics and so ends the process: a
/// broken reporting channel is fatal and nothing is retried.
#[verifier::external_body]
fn write_stdout(s: &str) {
    let mut out = std::io::stdout().lock();
    std::io::Write::write_all(&mut out, s.as_bytes()).unwrap();
}

} // verus!
