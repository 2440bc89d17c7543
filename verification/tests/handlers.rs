use singleton_client::handlers::{handle_log, handle_shutdown, ExitFlag};
use singleton_client::protocol::{Level, LogChannel, LogMessage, LogOutput, MethodCall, Notification};

fn message(level: Option<Level>, prefix: &str, text: &str) -> LogMessage {
    LogMessage { level, prefix: prefix.to_string(), message: text.to_string() }
}

#[test]
fn log_without_level_goes_to_the_result_channel() {
    let output = handle_log(&message(None, "tunnel: ", "https://example.test/t/1"));
    assert_eq!(
        output,
        LogOutput {
            channel: LogChannel::ResultLine,
            text: "tunnel: https://example.test/t/1".to_string(),
        }
    );
}

#[test]
fn log_with_level_keeps_that_level() {
    let levels = [
        Level::Trace,
        Level::Debug,
        Level::Info,
        Level::Warn,
        Level::Error,
        Level::Critical,
        Level::Off,
    ];
    for level in levels {
        let output = handle_log(&message(Some(level), "[p] ", "m"));
        assert_eq!(output.channel, LogChannel::Leveled(level));
        assert_eq!(output.text, "[p] m");
    }
}

#[test]
fn info_line_of_the_daemon_is_joined_to_its_prefix() {
    let output = handle_log(&message(Some(Level::Info), "[daemon] ", "ready"));
    assert_eq!(
        output,
        LogOutput { channel: LogChannel::Leveled(Level::Info), text: "[daemon] ready".to_string() }
    );
}

#[test]
fn log_joins_without_a_separator() {
    assert_eq!(handle_log(&message(None, "ab", "cd")).text, "abcd");
    assert_eq!(handle_log(&message(None, "", "only message")).text, "only message");
    assert_eq!(handle_log(&message(Some(Level::Warn), "only prefix", "")).text, "only prefix");
    assert_eq!(handle_log(&message(None, "", "")).text, "");
}

#[test]
fn log_keeps_text_outside_ascii() {
    let output = handle_log(&message(Some(Level::Error), "«démon» ", "prêt ✓"));
    assert_eq!(output.text, "«démon» prêt ✓");
}

#[test]
fn log_leaves_the_message_as_it_was() {
    let line = message(Some(Level::Debug), "a", "b");
    let _ = handle_log(&line);
    assert_eq!(line, message(Some(Level::Debug), "a", "b"));
}

#[test]
fn exit_flag_starts_unset() {
    assert!(!ExitFlag::new().get());
}

#[test]
fn shutdown_sets_the_exit_flag() {
    let mut flag = ExitFlag::new();
    handle_shutdown(&mut flag);
    assert!(flag.get());
}

#[test]
fn shutdown_twice_leaves_the_flag_set() {
    let mut once = ExitFlag::new();
    handle_shutdown(&mut once);
    let mut twice = ExitFlag::new();
    handle_shutdown(&mut twice);
    handle_shutdown(&mut twice);
    assert_eq!(once.get(), twice.get());
    assert!(twice.get());
}

#[test]
fn exit_flag_set_directly() {
    let mut flag = ExitFlag::new();
    flag.set();
    flag.set();
    assert!(flag.get());
}

#[test]
fn method_names_of_notifications() {
    assert_eq!(Notification::Shutdown.method(), "shutdown");
    assert_eq!(Notification::Restart.method(), "restart");
}

#[test]
fn method_names_of_served_calls() {
    assert_eq!(MethodCall::Shutdown.method(), "shutdown");
    assert_eq!(MethodCall::Log(message(None, "", "")).method(), "log");
}
