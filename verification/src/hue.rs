//! The hardware event listener's decision logic. The bridge invokes a
//! callback per event from a foreign, non-suspending context; the callback
//! may only test the event against the two configured buttons and attempt a
//! non-blocking submission into the command channel. A full slot must never
//! crash the listener: the duplicate command is dropped (and logged by the
//! caller) — a `StartAlert` repeated while already alerting is harmless to
//! coalesce away.

use vstd::prelude::*;
use crate::Command;
use crate::channel::SingleSlot;

verus! {

/// Which configured button an event matched.
#[derive(Clone, Copy, Debug, PartialEq, Eq, Structural)]
pub enum Button {
    /// The on-button: alerting begins.
    On,
    /// The off-button: alerting ends.
    Off,
}

/// The command each button press stands for.
pub fn command_for_button(b: Button) -> (c: Command)
    ensures
        c == (match b {
            Button::On => Command::StartAlert,
            Button::Off => Command::StopAlert,
        }),
{
    match b {
        Button::On => Command::StartAlert,
        Button::Off => Command::StopAlert,
    }
}

/// The membership test the listener applies to each bridge event: the
/// on-button wins when an event somehow matches both, and an event matching
/// neither is ignored.
pub fn classify_event(matches_on: bool, matches_off: bool) -> (r: Option<Button>)
    ensures
        r == (if matches_on {
            Some(Button::On)
        } else if matches_off {
            Some(Button::Off)
        } else {
            None::<Button>
        }),
{
    if matches_on {
        Some(Button::On)
    } else if matches_off {
        Some(Button::Off)
    } else {
        None
    }
}

/// One listener callback invocation: classify the event and, when it matched
/// a configured button, attempt a non-blocking submission of the matching
/// command. Returns the command that was actually enqueued, or `None` when
/// the event was ignored or the submission was rejected (slot full or channel
/// closed) — a rejection leaves the channel exactly as it was and never
/// displaces the pending command.
pub fn handle_bridge_event(
    chan: &mut SingleSlot<Command>,
    matches_on: bool,
    matches_off: bool,
) -> (submitted: Option<Command>)
    ensures
        !matches_on && !matches_off ==> {
            &&& submitted is None
            &&& *final(chan) == *old(chan)
        },
        matches_on || matches_off ==> {
            let cmd = if matches_on { Command::StartAlert } else { Command::StopAlert };
            if !old(chan).is_closed() && old(chan).pending() is None {
                &&& submitted == Some(cmd)
                &&& final(chan).pending() == Some(cmd)
                &&& !final(chan).is_closed()
            } else {
                &&& submitted is None
                &&& *final(chan) == *old(chan)
            }
        },
{
    match classify_event(matches_on, matches_off) {
        None => None,
        Some(b) => {
            let cmd = command_for_button(b);
            match chan.try_send(cmd) {
                Ok(()) => Some(cmd),
                Err(_) => None,
            }
        }
    }
}

} // verus!
