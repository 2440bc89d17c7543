//! The messages of the singleton protocol: what the daemon may call on an
//! attached client, what the client may tell the daemon, and what the client
//! hands to its logger.

use vstd::prelude::*;

verus! {

/// Severity of a log record.
#[derive(Clone, Copy, Debug, PartialEq, Eq, Structural)]
pub enum Level {
    Trace,
    Debug,
    Info,
    Warn,
    Error,
    Critical,
    Off,
}

/// Parameters of the `log` method: a line of the daemon's log, or, when no
/// level is given, a line of its final output.
#[derive(Clone, Debug, PartialEq, Eq)]
pub struct LogMessage {
    pub level: Option<Level>,
    pub prefix: String,
    pub message: String,
}

/// A [`LogMessage`] with its strings as sequences of characters.
pub struct LogMessageView {
    pub level: Option<Level>,
    pub prefix: Seq<char>,
    pub message: Seq<char>,
}

impl View for LogMessage {
    type V = LogMessageView;

    open spec fn view(&self) -> LogMessageView {
        LogMessageView { level: self.level, prefix: self.prefix@, message: self.message@ }
    }
}

/// Where the logger puts a line.
#[derive(Clone, Copy, Debug, PartialEq, Eq, Structural)]
pub enum LogChannel {
    /// An ordinary log record of the given severity.
    Leveled(Level),
    /// The terminal result channel: final output meant for the user.
    ResultLine,
}

/// One line for the logger: the channel it goes to and its text.
#[derive(Clone, Debug, PartialEq, Eq)]
pub struct LogOutput {
    pub channel: LogChannel,
    pub text: String,
}

/// A [`LogOutput`] with its text as a sequence of characters.
pub struct LogOutputView {
    pub channel: LogChannel,
    pub text: Seq<char>,
}

impl View for LogOutput {
    type V = LogOutputView;

    open spec fn view(&self) -> LogOutputView {
        LogOutputView { channel: self.channel, text: self.text@ }
    }
}

/// A notification the client sends to the daemon. Both carry an empty payload
/// and expect no reply.
#[derive(Clone, Copy, Debug, PartialEq, Eq, Structural)]
pub enum Notification {
    /// Ask the daemon to shut down.
    Shutdown,
    /// Ask the daemon to restart.
    Restart,
}

impl Notification {
    /// The method name under which the notification travels.
    pub open spec fn method_name(self) -> Seq<char> {
        match self {
            Notification::Shutdown => "shutdown"@,
            Notification::Restart => "restart"@,
        }
    }

    /// The method name under which the notification travels.
    pub fn method(&self) -> (name: &'static str)
        ensures
            name@ == self.method_name(),
    {
        match self {
            Notification::Shutdown => "shutdown",
            Notification::Restart => "restart",
        }
    }
}

/// A method call that the daemon makes on the client. Each is answered with a
/// bare acknowledgement.
#[derive(Clone, Debug, PartialEq, Eq)]
pub enum MethodCall {
    /// `shutdown`, without parameters.
    Shutdown,
    /// `log`, with the line to show.
    Log(LogMessage),
}

/// A [`MethodCall`] with its parameters viewed.
pub enum MethodCallView {
    Shutdown,
    Log(LogMessageView),
}

impl View for MethodCall {
    type V = MethodCallView;

    open spec fn view(&self) -> MethodCallView {
        match self {
            MethodCall::Shutdown => MethodCallView::Shutdown,
            MethodCall::Log(message) => MethodCallView::Log(message@),
        }
    }
}

impl MethodCall {
    /// The method name under which the call arrives.
    pub open spec fn method_name(self) -> Seq<char> {
        match self {
            MethodCall::Shutdown => "shutdown"@,
            MethodCall::Log(_) => "log"@,
        }
    }

    /// The method name under which the call arrives.
    pub fn method(&self) -> (name: &'static str)
        ensures
            name@ == self.method_name(),
    {
        match self {
            MethodCall::Shutdown => "shutdown",
            MethodCall::Log(_) => "log",
        }
    }
}

} // verus!
