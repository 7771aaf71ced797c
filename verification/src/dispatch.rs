//! The dispatcher: sole owner of the alert state, sole writer of blink
//! signals, sole invoker of notification and icon side effects. Its control
//! loop blocks only on the command receive; each received command (or the
//! channel closing) is turned into one `DispatchOutcome` by `dispatch_step`,
//! and the surrounding loop performs the listed side effects verbatim.

use vstd::prelude::*;
use crate::{AlertState, Command};
use crate::tray::Icon;

verus! {

/// Which notification the dispatcher asks the sink to show.
#[derive(Clone, Copy, Debug, PartialEq, Eq, Structural)]
pub enum NotificationKind {
    /// "Alert started".
    Started,
    /// "Alert stopped".
    Stopped,
}

/// Everything one turn of the dispatcher loop decides: the state after the
/// turn, whether the loop ends, and which side effects to issue, in the
/// fixed order notification, blink signal, icon.
pub struct DispatchOutcome {
    /// The alert state after this turn.
    pub next_state: AlertState,
    /// Whether the dispatcher loop terminates after this turn.
    pub terminate: bool,
    /// The notification to show, if any.
    pub notification: Option<NotificationKind>,
    /// The signal to send the blink controller, if any.
    pub blink_signal: Option<bool>,
    /// The icon to hand the tray widget, if any.
    pub icon: Option<Icon>,
}

/// The alert state after one command. `Quit` leaves the state alone; the two
/// alerting commands force their target state, so both are idempotent.
pub open spec fn next_alert_state(s: AlertState, c: Command) -> AlertState {
    match c {
        Command::StartAlert => AlertState::Alerting,
        Command::StopAlert => AlertState::Idle,
        Command::Quit => s,
    }
}

/// The alert state after a whole sequence of commands, first to last.
pub open spec fn run_commands(s: AlertState, cmds: Seq<Command>) -> AlertState
    decreases cmds.len(),
{
    if cmds.len() == 0 {
        s
    } else {
        next_alert_state(run_commands(s, cmds.drop_last()), cmds.last())
    }
}

/// Whether a command changes the alert state.
pub open spec fn state_changing(c: Command) -> bool {
    c != Command::Quit
}

/// The last state-changing command of a sequence, if there is one.
pub open spec fn last_state_changing(cmds: Seq<Command>) -> Option<Command>
    decreases cmds.len(),
{
    if cmds.len() == 0 {
        None
    } else if state_changing(cmds.last()) {
        Some(cmds.last())
    } else {
        last_state_changing(cmds.drop_last())
    }
}

/// One turn of the dispatcher loop. `received` is what the command receive
/// yielded: a command, or `None` when the channel closed with no producer
/// left, which terminates the loop just as `Quit` does.
pub fn dispatch_step(state: AlertState, received: Option<Command>) -> (o: DispatchOutcome)
    ensures
        o.terminate <==> (received is None || received == Some(Command::Quit)),
        o.next_state == (match received {
            Some(c) => next_alert_state(state, c),
            None => state,
        }),
        o.notification == (match received {
            Some(Command::StartAlert) => Some(NotificationKind::Started),
            Some(Command::StopAlert) => Some(NotificationKind::Stopped),
            _ => None::<NotificationKind>,
        }),
        o.blink_signal == (match received {
            Some(Command::StartAlert) => Some(true),
            Some(Command::StopAlert) => Some(false),
            _ => None::<bool>,
        }),
        o.icon == (match received {
            Some(Command::StartAlert) => Some(Icon::Red),
            Some(Command::StopAlert) => Some(Icon::Green),
            _ => None::<Icon>,
        }),
{
    match received {
        Some(Command::StartAlert) => DispatchOutcome {
            next_state: AlertState::Alerting,
            terminate: false,
            notification: Some(NotificationKind::Started),
            blink_signal: Some(true),
            icon: Some(Icon::Red),
        },
        Some(Command::StopAlert) => DispatchOutcome {
            next_state: AlertState::Idle,
            terminate: false,
            notification: Some(NotificationKind::Stopped),
            blink_signal: Some(false),
            icon: Some(Icon::Green),
        },
        Some(Command::Quit) => DispatchOutcome {
            next_state: state,
            terminate: true,
            notification: None,
            blink_signal: None,
            icon: None,
        },
        None => DispatchOutcome {
            next_state: state,
            terminate: true,
            notification: None,
            blink_signal: None,
            icon: None,
        },
    }
}

/// After any sequence of commands the alert state is `Alerting` exactly when
/// the last state-changing command was `StartAlert`; a sequence with no
/// state-changing command leaves the initial state in force.
pub proof fn lemma_alerting_iff_last_start(s: AlertState, cmds: Seq<Command>)
    ensures
        (run_commands(s, cmds) == AlertState::Alerting) <==> (match last_state_changing(cmds) {
            Some(c) => c == Command::StartAlert,
            None => s == AlertState::Alerting,
        }),
    decreases cmds.len(),
{
    if cmds.len() > 0 {
        lemma_alerting_iff_last_start(s, cmds.drop_last());
    }
}

/// Idempotence of `StartAlert`: a second `StartAlert` with no `StopAlert`
/// between leaves the state `Alerting`, exactly as the first did; and the
/// redundant `true` it sends the blink controller keeps the controller's
/// inner loop running, so the blink phase is not even reset.
pub proof fn lemma_start_alert_idempotent(s: AlertState)
    ensures
        next_alert_state(s, Command::StartAlert) == AlertState::Alerting,
        next_alert_state(next_alert_state(s, Command::StartAlert), Command::StartAlert)
            == next_alert_state(s, Command::StartAlert),
        crate::blink::poll_continues(crate::channel::RecvPoll::Value(true)),
{
}

/// The alert state after draining a whole backlog of commands, first to
/// last: the executable counterpart of `run_commands`.
pub fn replay_commands(s: AlertState, cmds: &Vec<Command>) -> (r: AlertState)
    ensures
        r == run_commands(s, cmds@),
{
    let mut state = s;
    let mut i: usize = 0;
    while i < cmds.len()
        invariant
            0 <= i <= cmds.len(),
            state == run_commands(s, cmds@.take(i as int)),
        decreases cmds.len() - i,
    {
        let o = dispatch_step(state, Some(cmds[i]));
        state = o.next_state;
        i = i + 1;
        proof {
            assert(cmds@.take(i as int).drop_last() =~= cmds@.take(i - 1));
        }
    }
    proof {
        assert(cmds@.take(cmds@.len() as int) =~= cmds@);
    }
    state
}

} // verus!
