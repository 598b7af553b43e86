use vstd::prelude::*;
use crate::cycle::SunTracking;

verus! {

/// Pause between the end of one cycle's write and the start of the next.
pub const CYCLE_INTERVAL_MILLIS: u64 = 5000;

/// Bound on each device request.
pub const FETCH_TIMEOUT_SECS: u64 = 10;

/// Status with which the process ends when the sink refuses a batch.
pub const SINK_FAILURE_EXIT_CODE: i32 = 1;

#[derive(Clone, Copy, Debug, PartialEq, Eq, Structural)]
pub enum Phase {
    /// Between cycles.
    Idle,
    /// Fetching, composing and writing one batch.
    Cycling,
    /// Stopped for good after a failed write.
    Halted,
}

#[derive(Clone, Copy, Debug, PartialEq, Eq, Structural)]
pub enum Event {
    /// The process has started.
    Started,
    /// The pause after a cycle is over.
    IntervalElapsed,
    /// The sink accepted the cycle's batch.
    WriteSucceeded,
    /// The sink refused the cycle's batch.
    WriteFailed,
}

#[derive(Clone, Copy, Debug, PartialEq, Eq, Structural)]
pub enum Action {
    /// Fetch every device, build the batch and write it once.
    RunCycle,
    /// Wait this long, then report `IntervalElapsed`.
    Sleep { millis: u64 },
    /// End the process with this status.
    Exit { code: i32 },
    /// Nothing to do: the event does not apply in this phase.
    Ignore,
}

/// The phase after `e` arrives in phase `p`, and what to do about it.
pub open spec fn transition(p: Phase, e: Event) -> (Phase, Action) {
    match p {
        Phase::Idle => match e {
            Event::Started | Event::IntervalElapsed => (Phase::Cycling, Action::RunCycle),
            _ => (p, Action::Ignore),
        },
        Phase::Cycling => match e {
            Event::WriteSucceeded => (Phase::Idle, Action::Sleep { millis: CYCLE_INTERVAL_MILLIS }),
            Event::WriteFailed => (Phase::Halted, Action::Exit { code: SINK_FAILURE_EXIT_CODE }),
            _ => (p, Action::Ignore),
        },
        Phase::Halted => (p, Action::Exit { code: SINK_FAILURE_EXIT_CODE }),
    }
}

/// The actions taken, one per event, when the events `es` arrive in turn from phase `p`.
pub open spec fn actions_from(p: Phase, es: Seq<Event>) -> Seq<Action>
    decreases es.len(),
{
    if es.len() == 0 {
        Seq::empty()
    } else {
        let (q, a) = transition(p, es[0]);
        seq![a] + actions_from(q, es.drop_first())
    }
}

/// Why the process cannot start its cycles.
#[derive(Clone, Copy, Debug, PartialEq, Eq, Structural)]
pub enum ConfigError {
    /// No device endpoint was configured.
    NoDevices,
}

/// The sampling loop's decisions, with its fixed configuration: the device endpoints
/// in report order and the sun-tracking setting.
pub struct Scheduler {
    pub devices: Vec<String>,
    pub tracking: SunTracking,
    pub phase: Phase,
}

impl Scheduler {
    /// A scheduler in the idle phase; an empty device list is refused.
    pub fn new(devices: Vec<String>, tracking: SunTracking) -> (r: Result<Scheduler, ConfigError>)
        ensures
            devices@.len() == 0 <==> r.is_err(),
            r matches Err(e) ==> e == ConfigError::NoDevices,
            r matches Ok(s) ==> s.devices@ == devices@ && s.tracking == tracking && s.phase
                == Phase::Idle,
    {
        if devices.len() == 0 {
            Err(ConfigError::NoDevices)
        } else {
            Ok(Scheduler { devices, tracking, phase: Phase::Idle })
        }
    }

    /// Takes the event `e` and says what to do next.
    pub fn on_event(&mut self, e: Event) -> (a: Action)
        ensures
            (final(self).phase, a) == transition(old(self).phase, e),
            final(self).devices@ == old(self).devices@,
            final(self).tracking == old(self).tracking,
    {
        let (next, action) = match self.phase {
            Phase::Idle => match e {
                Event::Started | Event::IntervalElapsed => (Phase::Cycling, Action::RunCycle),
                _ => (Phase::Idle, Action::Ignore),
            },
            Phase::Cycling => match e {
                Event::WriteSucceeded => (
                    Phase::Idle,
                    Action::Sleep { millis: CYCLE_INTERVAL_MILLIS },
                ),
                Event::WriteFailed => (
                    Phase::Halted,
                    Action::Exit { code: SINK_FAILURE_EXIT_CODE },
                ),
                _ => (Phase::Cycling, Action::Ignore),
            },
            Phase::Halted => (Phase::Halted, Action::Exit { code: SINK_FAILURE_EXIT_CODE }),
        };
        self.phase = next;
        action
    }
}

/// One action is taken per event.
pub proof fn lemma_one_action_per_event(p: Phase, es: Seq<Event>)
    ensures
        actions_from(p, es).len() == es.len(),
    decreases es.len(),
{
    if es.len() > 0 {
        lemma_one_action_per_event(transition(p, es[0]).0, es.drop_first());
    }
}

/// Once halted, the loop only ever asks to exit: it starts no further cycle.
pub proof fn lemma_halted_stays_halted(es: Seq<Event>)
    ensures
        forall|i: int|
            0 <= i < es.len() ==> #[trigger] actions_from(Phase::Halted, es)[i] == (Action::Exit {
                code: SINK_FAILURE_EXIT_CODE,
            }),
    decreases es.len(),
{
    lemma_one_action_per_event(Phase::Halted, es);
    if es.len() > 0 {
        lemma_halted_stays_halted(es.drop_first());
        lemma_one_action_per_event(Phase::Halted, es.drop_first());
        assert forall|i: int| 0 <= i < es.len() implies #[trigger] actions_from(
            Phase::Halted,
            es,
        )[i] == (Action::Exit { code: SINK_FAILURE_EXIT_CODE }) by {
            if i > 0 {
                assert(actions_from(Phase::Halted, es)[i] == actions_from(
                    Phase::Halted,
                    es.drop_first(),
                )[i - 1]);
            }
        }
    }
}

/// A failed write during a cycle ends the loop with a nonzero status, and whatever
/// events follow, the batch is never written again nor another cycle started.
pub proof fn lemma_sink_failure_is_fatal(es: Seq<Event>)
    ensures
        ({
            let acts = actions_from(Phase::Cycling, seq![Event::WriteFailed] + es);
            &&& acts[0] matches Action::Exit { code } && code != 0
            &&& forall|i: int| 0 <= i < acts.len() ==> #[trigger] acts[i] != Action::RunCycle
        }),
{
    let all = seq![Event::WriteFailed] + es;
    assert(all.drop_first() =~= es);
    lemma_halted_stays_halted(es);
    lemma_one_action_per_event(Phase::Halted, es);
    lemma_one_action_per_event(Phase::Cycling, all);
    let acts = actions_from(Phase::Cycling, all);
    assert forall|i: int| 0 <= i < acts.len() implies #[trigger] acts[i] != Action::RunCycle by {
        if i > 0 {
            assert(acts[i] == actions_from(Phase::Halted, es)[i - 1]);
        }
    }
}

} // verus!
