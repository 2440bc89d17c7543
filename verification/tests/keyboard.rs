use singleton_client::caller::{outbound_channel, OutboundCaller};
use singleton_client::keyboard::{relay_keys, relay_step, KeyRead, RelayStep};
use singleton_client::protocol::Notification;
use tokio::sync::mpsc::error::TryRecvError;

#[test]
fn key_x_asks_for_shutdown() {
    assert_eq!(relay_step(KeyRead::Char('x')), RelayStep::Send(Notification::Shutdown));
}

#[test]
fn key_r_asks_for_restart() {
    assert_eq!(relay_step(KeyRead::Char('r')), RelayStep::Send(Notification::Restart));
}

#[test]
fn other_keys_are_ignored() {
    for c in ['q', 'X', 'R', ' ', '\n', '\u{0}', 'é', '1'] {
        assert_eq!(relay_step(KeyRead::Char(c)), RelayStep::Ignore);
    }
    assert_eq!(relay_step(KeyRead::Other), RelayStep::Ignore);
}

#[test]
fn failed_read_stops_the_relay() {
    assert_eq!(relay_step(KeyRead::Failed), RelayStep::Stop);
}

#[test]
fn keys_r_x_q_then_end_of_input() {
    let reads =
        vec![KeyRead::Char('r'), KeyRead::Char('x'), KeyRead::Char('q'), KeyRead::Failed];
    assert_eq!(relay_keys(&reads), vec![Notification::Restart, Notification::Shutdown]);
}

#[test]
fn nothing_is_relayed_after_a_failed_read() {
    let reads = vec![
        KeyRead::Char('x'),
        KeyRead::Failed,
        KeyRead::Char('r'),
        KeyRead::Char('x'),
        KeyRead::Failed,
    ];
    assert_eq!(relay_keys(&reads), vec![Notification::Shutdown]);
}

#[test]
fn relay_of_no_reads_sends_nothing() {
    assert_eq!(relay_keys(&vec![]), vec![]);
    assert_eq!(relay_keys(&vec![KeyRead::Failed]), vec![]);
}

#[test]
fn relay_without_failure_reads_to_the_end() {
    let reads = vec![
        KeyRead::Char('x'),
        KeyRead::Other,
        KeyRead::Char('x'),
        KeyRead::Char('a'),
        KeyRead::Char('r'),
    ];
    assert_eq!(
        relay_keys(&reads),
        vec![Notification::Shutdown, Notification::Shutdown, Notification::Restart]
    );
}

#[test]
fn relay_through_the_channel_sends_restart_then_shutdown() {
    let (caller, mut outbound) = outbound_channel();
    let reads = [KeyRead::Char('r'), KeyRead::Char('x'), KeyRead::Char('q'), KeyRead::Failed];
    let mut steps = Vec::new();
    for read in reads {
        let step = caller.relay(read);
        steps.push(step);
        if step == RelayStep::Stop {
            break;
        }
    }
    assert_eq!(
        steps,
        vec![
            RelayStep::Send(Notification::Restart),
            RelayStep::Send(Notification::Shutdown),
            RelayStep::Ignore,
            RelayStep::Stop,
        ]
    );
    assert_eq!(outbound.try_recv(), Ok(Notification::Restart));
    assert_eq!(outbound.try_recv(), Ok(Notification::Shutdown));
    assert_eq!(outbound.try_recv(), Err(TryRecvError::Empty));
}

#[test]
fn notify_reaches_the_receiving_half() {
    let (caller, mut outbound) = outbound_channel();
    caller.notify(Notification::Shutdown);
    caller.notify(Notification::Restart);
    assert_eq!(outbound.try_recv(), Ok(Notification::Shutdown));
    assert_eq!(outbound.try_recv(), Ok(Notification::Restart));
    drop(caller);
    assert_eq!(outbound.try_recv(), Err(TryRecvError::Disconnected));
}

#[test]
fn notify_after_the_session_ended_is_dropped() {
    let (caller, outbound) = outbound_channel();
    drop(outbound);
    caller.notify(Notification::Restart);
    assert_eq!(caller.relay(KeyRead::Char('x')), RelayStep::Send(Notification::Shutdown));
    assert_eq!(caller.relay(KeyRead::Failed), RelayStep::Stop);
}

#[test]
fn handle_of_a_sending_half_emits_into_its_channel() {
    let (sender, mut receiver) = tokio::sync::mpsc::unbounded_channel();
    let caller = OutboundCaller::new(sender);
    caller.notify(Notification::Restart);
    assert_eq!(receiver.try_recv(), Ok(Notification::Restart));
    assert_eq!(receiver.try_recv(), Err(TryRecvError::Empty));
}
