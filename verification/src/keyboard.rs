//! The keyboard relay: which notification, if any, a key press turns into, and
//! when the relay gives up reading.

use vstd::prelude::*;
use crate::protocol::Notification;

verus! {

/// What one attempt to read a key from the terminal gave.
#[derive(Clone, Copy, Debug, PartialEq, Eq, Structural)]
pub enum KeyRead {
    /// A key that stands for a character.
    Char(char),
    /// Any other key: an arrow, enter, escape, ...
    Other,
    /// The read failed: the input has ended or is no interactive terminal.
    Failed,
}

/// What the relay does after one read.
#[derive(Clone, Copy, Debug, PartialEq, Eq, Structural)]
pub enum RelayStep {
    /// Send the notification, then read on.
    Send(Notification),
    /// Read on.
    Ignore,
    /// Stop reading for good.
    Stop,
}

/// The relay's rule: `x` asks for a shutdown, `r` for a restart, a failed read
/// ends the relay, and every other key is passed over.
pub open spec fn relay_step_of(read: KeyRead) -> RelayStep {
    match read {
        KeyRead::Char(c) => if c == 'x' {
            RelayStep::Send(Notification::Shutdown)
        } else if c == 'r' {
            RelayStep::Send(Notification::Restart)
        } else {
            RelayStep::Ignore
        },
        KeyRead::Other => RelayStep::Ignore,
        KeyRead::Failed => RelayStep::Stop,
    }
}

/// The notifications that the relay sends, in order, when its reads come out
/// as `reads`: those of the keys before the first failed read.
pub open spec fn relayed(reads: Seq<KeyRead>) -> Seq<Notification>
    decreases reads.len(),
{
    if reads.len() == 0 {
        Seq::empty()
    } else {
        match relay_step_of(reads[0]) {
            RelayStep::Stop => Seq::empty(),
            RelayStep::Ignore => relayed(reads.skip(1)),
            RelayStep::Send(notification) => seq![notification] + relayed(reads.skip(1)),
        }
    }
}

/// Decides what to do after one read.
pub fn relay_step(read: KeyRead) -> (step: RelayStep)
    ensures
        step == relay_step_of(read),
{
    match read {
        KeyRead::Char('x') => RelayStep::Send(Notification::Shutdown),
        KeyRead::Char('r') => RelayStep::Send(Notification::Restart),
        KeyRead::Failed => RelayStep::Stop,
        _ => RelayStep::Ignore,
    }
}

/// Runs the relay over a recorded series of reads and returns what it sends.
pub fn relay_keys(reads: &Vec<KeyRead>) -> (sent: Vec<Notification>)
    ensures
        sent@ == relayed(reads@),
{
    let mut sent: Vec<Notification> = Vec::new();
    let mut i: usize = 0;
    proof {
        assert(reads@.skip(0) == reads@);
    }
    while i < reads.len()
        invariant
            i <= reads.len(),
            sent@ + relayed(reads@.skip(i as int)) == relayed(reads@),
        decreases reads.len() - i,
    {
        proof {
            assert(reads@.skip(i as int).skip(1) == reads@.skip(i as int + 1));
        }
        match relay_step(reads[i]) {
            RelayStep::Send(notification) => sent.push(notification),
            RelayStep::Ignore => {},
            RelayStep::Stop => return sent,
        }
        i += 1;
    }
    sent
}

/// A failed read ends the relay for good: what it sends is what it sent
/// before the failure, whatever keys are pressed afterwards.
pub proof fn lemma_nothing_relayed_after_failure(before: Seq<KeyRead>, after: Seq<KeyRead>)
    ensures
        relayed(before.push(KeyRead::Failed) + after) == relayed(before),
    decreases before.len(),
{
    let reads = before.push(KeyRead::Failed) + after;
    if before.len() > 0 {
        assert(reads.skip(1) == before.skip(1).push(KeyRead::Failed) + after);
        lemma_nothing_relayed_after_failure(before.skip(1), after);
    }
}

} // verus!
