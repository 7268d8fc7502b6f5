use vstd::prelude::*;

verus! {

/// Where a graphics system stands in its life.
#[derive(Clone, Copy, Debug, PartialEq, Eq, Structural)]
pub enum Phase {
    /// Made, not started.
    Created,
    /// Started, with windows to serve.
    Running,
    /// All windows are gone and the end hook has fired.
    Ended,
}

/// What the event loop is to do next.
#[derive(Clone, Copy, Debug, PartialEq, Eq, Structural)]
pub enum LoopAction {
    /// Fire the start hook.
    FireStart,
    /// Run one frame: fire the pre-update hook, poll input events, update each
    /// window's screen, swap buffers, then drop the windows asked to close.
    RunFrame,
    /// Fire the end hook.
    FireEnd,
    /// Leave the loop.
    Stop,
}

/// One decision of the loop, given how many windows are open.
pub open spec fn step(phase: Phase, open_windows: nat) -> (Phase, LoopAction) {
    match phase {
        Phase::Created => (Phase::Running, LoopAction::FireStart),
        Phase::Running => if open_windows > 0 {
            (Phase::Running, LoopAction::RunFrame)
        } else {
            (Phase::Ended, LoopAction::FireEnd)
        },
        Phase::Ended => (Phase::Ended, LoopAction::Stop),
    }
}

/// The actions taken from `phase` when the loop sees `opens[i]` windows open at its
/// `i`-th decision.
pub open spec fn trace(phase: Phase, opens: Seq<nat>) -> Seq<LoopAction>
    decreases opens.len(),
{
    if opens.len() == 0 {
        Seq::empty()
    } else {
        let (next, action) = step(phase, opens[0]);
        seq![action] + trace(next, opens.drop_first())
    }
}

/// The decisions of a graphics system's event loop; the loop itself runs the hooks
/// and talks to the windowing system.
#[derive(Clone, Copy, Debug, PartialEq, Eq, Structural)]
pub struct EventLoop {
    phase: Phase,
}

impl EventLoop {
    /// Where the loop stands.
    pub closed spec fn phase_spec(&self) -> Phase {
        self.phase
    }

    /// A loop that has not started.
    pub fn new() -> (l: EventLoop)
        ensures
            l.phase_spec() == Phase::Created,
    {
        EventLoop { phase: Phase::Created }
    }

    /// Where the loop stands.
    pub fn phase(&self) -> (p: Phase)
        ensures
            p == self.phase_spec(),
    {
        self.phase
    }

    /// Decide what to do next, with `open_windows` windows open: start first, then
    /// run frames while any window is open, then end once, then stop.
    pub fn next_action(&mut self, open_windows: usize) -> (a: LoopAction)
        ensures
            (final(self).phase_spec(), a) == step(old(self).phase_spec(), open_windows as nat),
    {
        match self.phase {
            Phase::Created => {
                self.phase = Phase::Running;
                LoopAction::FireStart
            },
            Phase::Running => {
                if open_windows > 0 {
                    LoopAction::RunFrame
                } else {
                    self.phase = Phase::Ended;
                    LoopAction::FireEnd
                }
            },
            Phase::Ended => LoopAction::Stop,
        }
    }
}

proof fn lemma_trace_len(phase: Phase, opens: Seq<nat>)
    ensures
        trace(phase, opens).len() == opens.len(),
    decreases opens.len(),
{
    if opens.len() > 0 {
        lemma_trace_len(step(phase, opens[0]).0, opens.drop_first());
    }
}

proof fn lemma_ended_stops(opens: Seq<nat>)
    ensures
        forall|k: int| 0 <= k < opens.len() ==> #[trigger] trace(Phase::Ended, opens)[k]
            == LoopAction::Stop,
    decreases opens.len(),
{
    lemma_trace_len(Phase::Ended, opens);
    if opens.len() > 0 {
        let rest = opens.drop_first();
        lemma_ended_stops(rest);
        lemma_trace_len(Phase::Ended, rest);
        assert forall|k: int| 0 <= k < opens.len() implies #[trigger] trace(Phase::Ended, opens)[k]
            == LoopAction::Stop by {
            if k > 0 {
                assert(trace(Phase::Ended, opens)[k] == trace(Phase::Ended, rest)[k - 1]);
            }
        }
    }
}

proof fn lemma_running(opens: Seq<nat>)
    ensures
        forall|j: int|
            0 <= j < opens.len() && #[trigger] trace(Phase::Running, opens)[j] == LoopAction::FireEnd
                ==> opens[j] == 0 && forall|k: int|
                j < k < opens.len() ==> #[trigger] trace(Phase::Running, opens)[k]
                    == LoopAction::Stop,
        forall|j: int|
            0 <= j < opens.len() && opens[j] == 0 && (forall|i: int|
                0 <= i < j ==> #[trigger] opens[i] > 0) ==> #[trigger] trace(
                Phase::Running,
                opens,
            )[j] == LoopAction::FireEnd,
        forall|j: int|
            0 <= j < opens.len() ==> #[trigger] trace(Phase::Running, opens)[j]
                != LoopAction::FireStart,
    decreases opens.len(),
{
    lemma_trace_len(Phase::Running, opens);
    if opens.len() > 0 {
        let rest = opens.drop_first();
        let t = trace(Phase::Running, opens);
        lemma_running(rest);
        lemma_ended_stops(rest);
        lemma_trace_len(Phase::Running, rest);
        lemma_trace_len(Phase::Ended, rest);
        assert forall|j: int| 0 < j < opens.len() implies (opens[0] > 0 ==> #[trigger] t[j]
            == trace(Phase::Running, rest)[j - 1]) && (opens[0] == 0 ==> t[j] == trace(
            Phase::Ended,
            rest,
        )[j - 1]) && opens[j] == rest[j - 1] by {}
        assert forall|j: int|
            0 <= j < opens.len() && #[trigger] t[j] == LoopAction::FireEnd implies opens[j] == 0
                && forall|k: int| j < k < opens.len() ==> #[trigger] t[k] == LoopAction::Stop by {
            if j > 0 {
                assert(opens[0] > 0);
                assert(trace(Phase::Running, rest)[j - 1] == LoopAction::FireEnd);
                assert forall|k: int| j < k < opens.len() implies #[trigger] t[k]
                    == LoopAction::Stop by {
                    assert(trace(Phase::Running, rest)[k - 1] == LoopAction::Stop);
                }
            } else {
                assert(opens[0] == 0);
                assert forall|k: int| j < k < opens.len() implies #[trigger] t[k]
                    == LoopAction::Stop by {
                    assert(trace(Phase::Ended, rest)[k - 1] == LoopAction::Stop);
                }
            }
        }
        assert forall|j: int|
            0 <= j < opens.len() && opens[j] == 0 && (forall|i: int|
                0 <= i < j ==> #[trigger] opens[i] > 0) implies #[trigger] t[j]
            == LoopAction::FireEnd by {
            if j > 0 {
                assert(opens[0] > 0);
                assert forall|i: int| 0 <= i < j - 1 implies #[trigger] rest[i] > 0 by {
                    assert(opens[i + 1] > 0);
                }
                assert(trace(Phase::Running, rest)[j - 1] == LoopAction::FireEnd);
            }
        }
        assert forall|j: int| 0 <= j < opens.len() implies #[trigger] t[j]
            != LoopAction::FireStart by {
            if j > 0 {
                if opens[0] > 0 {
                    assert(trace(Phase::Running, rest)[j - 1] != LoopAction::FireStart);
                } else {
                    assert(trace(Phase::Ended, rest)[j - 1] == LoopAction::Stop);
                }
            }
        }
    }
}

/// Closing all windows ends the loop, and the end hook fires exactly once.
///
/// From a fresh loop that sees `opens[i]` windows open at its `i`-th decision: the
/// first decision fires the start hook; the end hook fires at the first later
/// decision at which no window is open, and at no other; only `Stop` follows it.
pub proof fn lemma_end_hook_fires_once(opens: Seq<nat>)
    ensures
        trace(Phase::Created, opens).len() == opens.len(),
        opens.len() > 0 ==> trace(Phase::Created, opens)[0] == LoopAction::FireStart,
        forall|j: int, k: int|
            0 <= j < k < opens.len() && #[trigger] trace(Phase::Created, opens)[j]
                == LoopAction::FireEnd ==> #[trigger] trace(Phase::Created, opens)[k]
                == LoopAction::Stop,
        forall|j: int, k: int|
            0 <= j < opens.len() && 0 <= k < opens.len() && #[trigger] trace(
                Phase::Created,
                opens,
            )[j] == LoopAction::FireEnd && #[trigger] trace(Phase::Created, opens)[k]
                == LoopAction::FireEnd ==> j == k,
        forall|j: int|
            1 <= j < opens.len() && opens[j] == 0 && (forall|i: int|
                1 <= i < j ==> #[trigger] opens[i] > 0) ==> #[trigger] trace(
                Phase::Created,
                opens,
            )[j] == LoopAction::FireEnd,
{
    lemma_trace_len(Phase::Created, opens);
    if opens.len() > 0 {
        let rest = opens.drop_first();
        let t = trace(Phase::Created, opens);
        lemma_running(rest);
        lemma_trace_len(Phase::Running, rest);
        assert forall|j: int| 0 < j < opens.len() implies #[trigger] t[j] == trace(
            Phase::Running,
            rest,
        )[j - 1] && opens[j] == rest[j - 1] by {}
        assert forall|j: int, k: int|
            0 <= j < k < opens.len() && #[trigger] t[j] == LoopAction::FireEnd implies #[trigger] t[k]
            == LoopAction::Stop by {
            assert(j > 0);
            assert(trace(Phase::Running, rest)[j - 1] == LoopAction::FireEnd);
            assert(trace(Phase::Running, rest)[k - 1] == LoopAction::Stop);
        }
        assert forall|j: int|
            1 <= j < opens.len() && opens[j] == 0 && (forall|i: int|
                1 <= i < j ==> #[trigger] opens[i] > 0) implies #[trigger] t[j]
            == LoopAction::FireEnd by {
            assert forall|i: int| 0 <= i < j - 1 implies #[trigger] rest[i] > 0 by {
                assert(opens[i + 1] > 0);
            }
            assert(trace(Phase::Running, rest)[j - 1] == LoopAction::FireEnd);
        }
    }
}

} // verus!
