//! The two methods the client serves, as plain reactions: `shutdown` records
//! that the process has to exit, `log` turns the daemon's message into a line
//! for the logger. Neither waits for anything.

use vstd::prelude::*;
use vstd::string::StringExecFns;
use crate::protocol::{Level, LogChannel, LogMessage, LogMessageView, LogOutput, LogOutputView};

verus! {

/// Whether the daemon has asked this process to exit. A flag starts unset,
/// `shutdown` sets it, and nothing unsets it.
#[derive(Debug)]
pub struct ExitFlag {
    set: bool,
}

impl View for ExitFlag {
    type V = bool;

    closed spec fn view(&self) -> bool {
        self.set
    }
}

impl ExitFlag {
    /// A fresh, unset flag.
    pub fn new() -> (flag: ExitFlag)
        ensures
            !flag@,
    {
        ExitFlag { set: false }
    }

    /// Sets the flag. Setting a set flag changes nothing.
    pub fn set(&mut self)
        ensures
            final(self)@,
    {
        self.set = true;
    }

    /// Reads the flag.
    pub fn get(&self) -> (set: bool)
        ensures
            set == self@,
    {
        self.set
    }
}

/// The channel a message goes to: the leveled log when it names a severity, the
/// result channel when it names none.
pub open spec fn log_channel(level: Option<Level>) -> LogChannel {
    match level {
        Some(level) => LogChannel::Leveled(level),
        None => LogChannel::ResultLine,
    }
}

/// The line that the logger receives for a message: the prefix with the
/// message directly behind it, on the channel that the level selects.
pub open spec fn log_output(message: LogMessageView) -> LogOutputView {
    LogOutputView { channel: log_channel(message.level), text: message.prefix + message.message }
}

/// Serves `shutdown`: sets the exit flag.
pub fn handle_shutdown(exit_entirely: &mut ExitFlag)
    ensures
        final(exit_entirely)@,
{
    exit_entirely.set();
}

/// Serves `log`: builds the line for the logger. The text is the prefix with
/// the message directly behind it. A message without a level goes to the
/// result channel, a message with a level to the leveled log at just that
/// level.
pub fn handle_log(message: &LogMessage) -> (output: LogOutput)
    ensures
        output@ == log_output(message@),
        output@.text == message@.prefix + message@.message,
        message.level is None ==> output.channel == LogChannel::ResultLine,
        forall|level: Level|
            message.level == Some(level) ==> output.channel == LogChannel::Leveled(level),
{
    let channel = match message.level {
        Some(level) => LogChannel::Leveled(level),
        None => LogChannel::ResultLine,
    };
    let mut text = message.prefix.clone();
    text.append(message.message.as_str());
    LogOutput { channel, text }
}

} // verus!
