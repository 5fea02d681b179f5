use vstd::prelude::*;

verus! {

/// Interval between polls of the link and address state at startup.
pub const LINK_POLL_MS: u64 = 500;

/// Progress of the startup gate that precedes building any network client.
#[derive(Clone, Copy, Debug, PartialEq, Eq, Structural)]
pub enum GatePhase {
    /// Polling whether the link is up.
    AwaitingLink,
    /// The link is up; polling whether an address has been assigned.
    AwaitingAddress,
    /// Link up and address assigned.
    Ready,
}

/// What the startup task should do next.
#[derive(Clone, Copy, Debug, PartialEq, Eq, Structural)]
pub enum GateAction {
    /// Read whether the link is up.
    PollLink,
    /// Read whether an address has been assigned.
    PollAddress,
    /// Wait this many milliseconds before the next poll.
    Wait { millis: u64 },
    /// Build the network clients.
    Proceed,
}

/// Blocking startup gate: the link is polled until it is up, then the
/// address until one is assigned, with a fixed pause after each failed poll.
pub struct StartupGate {
    phase: GatePhase,
    waiting: bool,
}

/// The abstract state of a gate: its phase, and whether a pause is due.
pub struct GateView {
    pub phase: GatePhase,
    pub waiting: bool,
}

impl View for StartupGate {
    type V = GateView;

    closed spec fn view(&self) -> GateView {
        GateView { phase: self.phase, waiting: self.waiting }
    }
}

/// The action a gate asks for.
pub open spec fn gate_action(g: GateView) -> GateAction {
    if g.waiting {
        GateAction::Wait { millis: LINK_POLL_MS }
    } else {
        match g.phase {
            GatePhase::AwaitingLink => GateAction::PollLink,
            GatePhase::AwaitingAddress => GateAction::PollAddress,
            GatePhase::Ready => GateAction::Proceed,
        }
    }
}

/// A gate after the pending action was carried out; `reading` is the result
/// of a poll and is ignored after a pause or once ready.
pub open spec fn gate_step(g: GateView, reading: bool) -> GateView {
    if g.waiting {
        GateView { phase: g.phase, waiting: false }
    } else {
        match g.phase {
            GatePhase::AwaitingLink => if reading {
                GateView { phase: GatePhase::AwaitingAddress, waiting: false }
            } else {
                GateView { phase: GatePhase::AwaitingLink, waiting: true }
            },
            GatePhase::AwaitingAddress => if reading {
                GateView { phase: GatePhase::Ready, waiting: false }
            } else {
                GateView { phase: GatePhase::AwaitingAddress, waiting: true }
            },
            GatePhase::Ready => g,
        }
    }
}

/// A gate after a run of steps.
pub open spec fn gate_run(g: GateView, readings: Seq<bool>) -> GateView
    decreases readings.len(),
{
    if readings.len() == 0 {
        g
    } else {
        gate_step(gate_run(g, readings.drop_last()), readings.last())
    }
}

/// Whether some poll of the link, carried out in a run from a new gate,
/// reported the link up.
pub open spec fn link_seen_up(readings: Seq<bool>) -> bool {
    exists|i: int|
        0 <= i < readings.len() && readings[i] && #[trigger] gate_action(
            gate_run(GateView { phase: GatePhase::AwaitingLink, waiting: false }, readings.take(i)),
        ) == GateAction::PollLink
}

impl StartupGate {
    /// A gate that starts by polling the link.
    pub fn new() -> (g: Self)
        ensures
            g@ == (GateView { phase: GatePhase::AwaitingLink, waiting: false }),
    {
        StartupGate { phase: GatePhase::AwaitingLink, waiting: false }
    }

    /// What the startup task should do next.
    pub fn next_action(&self) -> (a: GateAction)
        ensures
            a == gate_action(self@),
    {
        if self.waiting {
            GateAction::Wait { millis: LINK_POLL_MS }
        } else {
            match self.phase {
                GatePhase::AwaitingLink => GateAction::PollLink,
                GatePhase::AwaitingAddress => GateAction::PollAddress,
                GatePhase::Ready => GateAction::Proceed,
            }
        }
    }

    /// Takes in the result of the action just carried out: the poll's
    /// reading, or anything after a pause.
    pub fn on_result(&mut self, reading: bool)
        ensures
            final(self)@ == gate_step(old(self)@, reading),
    {
        if self.waiting {
            self.waiting = false;
        } else {
            match self.phase {
                GatePhase::AwaitingLink => {
                    if reading {
                        self.phase = GatePhase::AwaitingAddress;
                    } else {
                        self.waiting = true;
                    }
                },
                GatePhase::AwaitingAddress => {
                    if reading {
                        self.phase = GatePhase::Ready;
                    } else {
                        self.waiting = true;
                    }
                },
                GatePhase::Ready => {},
            }
        }
    }
}

/// The address is never polled before the link: from a new gate, whenever
/// it asks for the address or lets the clients be built, an earlier
/// poll of the link reported it up.
pub proof fn lemma_link_before_address(readings: Seq<bool>)
    ensures
        gate_run(GateView { phase: GatePhase::AwaitingLink, waiting: false }, readings).phase
            != GatePhase::AwaitingLink ==> link_seen_up(readings),
    decreases readings.len(),
{
    let start = GateView { phase: GatePhase::AwaitingLink, waiting: false };
    if readings.len() > 0 {
        let init = readings.drop_last();
        let n = readings.len() - 1;
        lemma_link_before_address(init);
        assert(readings.take(n) =~= init);
        if gate_run(start, init).phase != GatePhase::AwaitingLink {
            let i = choose|i: int|
                0 <= i < init.len() && init[i] && #[trigger] gate_action(
                    gate_run(start, init.take(i)),
                ) == GateAction::PollLink;
            assert(readings.take(i) =~= init.take(i));
            assert(readings[i] == init[i]);
        } else if gate_run(start, readings).phase != GatePhase::AwaitingLink {
            assert(readings[n] == readings.last());
        }
    }
}

} // verus!
