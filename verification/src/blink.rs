//! The blink controller: an independently scheduled task that owns the signal
//! channel's receiving side and runs the repeating "on one time unit, off one
//! time unit" pattern on the light while active.
//!
//! The control structure is a two-level loop. The outer loop is a suspending
//! receive on the signal channel (`blink_wait_step` decides what to do with
//! what it yields). The inner active loop performs one blink cycle — light on
//! with the alert color, sleep, light off, sleep — and only then polls the
//! channel without suspending (`blink_poll_step` decides). Cancellation is
//! therefore polled between cycles, never preemptive: at most one full cycle
//! (two time units) passes between a stop signal arriving and the light
//! resting off.

use vstd::prelude::*;
use crate::channel::RecvPoll;

verus! {

/// Where the controller stands in its two-level loop.
#[derive(Clone, Copy, Debug, PartialEq, Eq, Structural)]
pub enum BlinkState {
    /// Outer loop: suspended on the signal channel.
    Waiting,
    /// Inner loop: blinking, polling the channel once per cycle.
    Active,
    /// The signal channel closed; the controller exits for good.
    Terminated,
}

/// One step of the pattern the controller asks of its collaborators while
/// active. Light commands go to the light; each sleep suspends the controller
/// for one time unit.
#[derive(Clone, Copy, Debug, PartialEq, Eq, Structural)]
pub enum BlinkAction {
    /// Turn the light on, set to the alert color.
    LightOnAlert,
    /// Suspend for one time unit.
    SleepUnit,
    /// Turn the light off.
    LightOff,
}

/// What the outer loop does with a value from the suspending receive:
/// `true` enters the active inner loop, `false` is a harmless no-op (stopping
/// while not running), and a closed channel terminates the whole controller —
/// the only way it ever exits once started.
pub fn blink_wait_step(signal: Option<bool>) -> (s: BlinkState)
    ensures
        s == (match signal {
            Some(true) => BlinkState::Active,
            Some(false) => BlinkState::Waiting,
            None => BlinkState::Terminated,
        }),
{
    match signal {
        Some(true) => BlinkState::Active,
        Some(false) => BlinkState::Waiting,
        None => BlinkState::Terminated,
    }
}

/// What the inner loop does with the non-suspending poll made after each
/// cycle: nothing pending or a redundant `true` keeps blinking (so a repeated
/// start never resets the phase), `false` breaks to the outer wait, and a
/// closed channel terminates the whole controller.
pub fn blink_poll_step(poll: RecvPoll<bool>) -> (s: BlinkState)
    ensures
        s == (match poll {
            RecvPoll::Value(false) => BlinkState::Waiting,
            RecvPoll::Value(true) => BlinkState::Active,
            RecvPoll::Empty => BlinkState::Active,
            RecvPoll::Closed => BlinkState::Terminated,
        }),
        (s == BlinkState::Active) <==> poll_continues(poll),
{
    match poll {
        RecvPoll::Value(false) => BlinkState::Waiting,
        RecvPoll::Value(true) => BlinkState::Active,
        RecvPoll::Empty => BlinkState::Active,
        RecvPoll::Closed => BlinkState::Terminated,
    }
}

/// One blink cycle as the inner loop performs it, in order.
pub open spec fn cycle_spec() -> Seq<BlinkAction> {
    seq![
        BlinkAction::LightOnAlert,
        BlinkAction::SleepUnit,
        BlinkAction::LightOff,
        BlinkAction::SleepUnit,
    ]
}

/// The actions of one blink cycle, for the loop around the controller to
/// perform in order: light on with the alert color, one time unit, light
/// off, one time unit.
pub fn blink_cycle() -> (v: Vec<BlinkAction>)
    ensures
        v@ == cycle_spec(),
{
    let mut v: Vec<BlinkAction> = Vec::new();
    v.push(BlinkAction::LightOnAlert);
    v.push(BlinkAction::SleepUnit);
    v.push(BlinkAction::LightOff);
    v.push(BlinkAction::SleepUnit);
    proof {
        assert(v@ =~= cycle_spec());
    }
    v
}

/// The whole trace of `n` consecutive blink cycles.
pub open spec fn cycles_trace(n: nat) -> Seq<BlinkAction>
    decreases n,
{
    if n == 0 {
        Seq::empty()
    } else {
        cycles_trace((n - 1) as nat) + cycle_spec()
    }
}

/// Whether a poll outcome keeps the inner loop running: nothing pending, or a
/// redundant start signal.
pub open spec fn poll_continues(p: RecvPoll<bool>) -> bool {
    p == RecvPoll::<bool>::Empty || p == RecvPoll::Value(true)
}

/// How many cycles the inner loop runs when, entered on a start signal, its
/// per-cycle polls yield `polls` in order: one cycle always runs before the
/// first poll, and each continuing poll buys one more. Polls past the end of
/// the sequence never happen.
pub open spec fn cycles_run(polls: Seq<RecvPoll<bool>>) -> nat
    decreases polls.len(),
{
    if polls.len() == 0 {
        1
    } else if poll_continues(polls.first()) {
        (1 + cycles_run(polls.drop_first())) as nat
    } else {
        1
    }
}

/// Alternation law: while active, the light observes a strict on/off
/// alternation, one time unit per phase — position `i` of the trace of `n`
/// cycles is light-on exactly at multiples of four, light-off two steps
/// later, and a one-unit sleep between any two light commands.
pub proof fn lemma_trace_alternates(n: nat, i: int)
    requires
        0 <= i < 4 * n,
    ensures
        cycles_trace(n).len() == 4 * n,
        cycles_trace(n)[i] == (if i % 4 == 0 {
            BlinkAction::LightOnAlert
        } else if i % 4 == 2 {
            BlinkAction::LightOff
        } else {
            BlinkAction::SleepUnit
        }),
    decreases n,
{
    lemma_trace_len(n);
    if i < 4 * (n - 1) {
        lemma_trace_alternates((n - 1) as nat, i);
    } else {
        lemma_trace_len((n - 1) as nat);
        assert(cycles_trace(n)[i] == cycle_spec()[i - 4 * (n - 1)]);
    }
}

/// The trace of `n` cycles has exactly four actions per cycle.
pub proof fn lemma_trace_len(n: nat)
    ensures
        cycles_trace(n).len() == 4 * n,
    decreases n,
{
    if n > 0 {
        lemma_trace_len((n - 1) as nat);
    }
}

/// Cancellation-latency law: if the first stopping poll outcome is the one
/// after cycle `k` (counting from zero), exactly `k + 1` cycles run — the
/// cycle under way completes, ends with the light off, and nothing follows.
/// The stop is thus observed at most one full cycle (two time units) after
/// the signal arrives.
pub proof fn lemma_stop_bounded(polls: Seq<RecvPoll<bool>>, k: int)
    requires
        0 <= k < polls.len(),
        !poll_continues(polls[k]),
        forall|j: int| 0 <= j < k ==> poll_continues(#[trigger] polls[j]),
    ensures
        cycles_run(polls) == k + 1,
        cycles_trace(cycles_run(polls)).last() == BlinkAction::SleepUnit,
        cycles_trace(cycles_run(polls))[4 * (k + 1) - 2] == BlinkAction::LightOff,
    decreases k,
{
    if k == 0 {
        assert(!poll_continues(polls.first()));
    } else {
        assert(poll_continues(polls.first()));
        lemma_stop_bounded(polls.drop_first(), k - 1);
    }
    let n = cycles_run(polls);
    lemma_trace_len(n);
    lemma_trace_alternates(n, 4 * (k + 1) - 2);
    lemma_trace_alternates(n, 4 * (k + 1) - 1);
}

/// Liveness law: while every poll keeps coming back empty (or with a
/// redundant start), the blinking goes on — one more cycle per poll, with no
/// upper bound imposed by the controller itself.
pub proof fn lemma_blink_continues(polls: Seq<RecvPoll<bool>>)
    requires
        forall|j: int| 0 <= j < polls.len() ==> poll_continues(#[trigger] polls[j]),
    ensures
        cycles_run(polls) == polls.len() + 1,
    decreases polls.len(),
{
    if polls.len() > 0 {
        assert(poll_continues(polls.first()));
        lemma_blink_continues(polls.drop_first());
    }
}

} // verus!
