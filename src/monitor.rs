use vstd::prelude::*;
use crate::channel::Level;

verus! {

/// Length of the debounce window, in milliseconds.
pub const DEBOUNCE_MS: u64 = 1;

/// Where the sensor monitor is in its cycle.
#[derive(Clone, Copy, Debug, PartialEq, Eq, Structural)]
pub enum MonitorPhase {
    /// Waiting for any edge on the input.
    AwaitingEdge,
    /// An edge was seen; waiting for the debounce window to pass.
    Debouncing,
}

/// What the monitor's task observed.
#[derive(Clone, Copy, Debug, PartialEq, Eq, Structural)]
pub enum MonitorEvent {
    /// A rising or falling edge on the input.
    Edge,
    /// The debounce window passed and the pin was read again.
    WindowElapsed(Level),
}

/// What the monitor's task should do next.
#[derive(Clone, Copy, Debug, PartialEq, Eq, Structural)]
pub enum MonitorAction {
    /// Suspend until an edge is observed.
    WaitForEdge,
    /// Suspend for the given number of milliseconds, then re-read the pin.
    Sleep { millis: u64 },
}

/// Debounces the sensor input: every edge opens a window, edges inside it
/// are absorbed, and only the level read when it closes is delivered.
pub struct SensorMonitor {
    pub phase: MonitorPhase,
}

/// The phase after `ev`, and the level to deliver, if any.
pub open spec fn monitor_step(phase: MonitorPhase, ev: MonitorEvent) -> (MonitorPhase, Option<Level>) {
    match (phase, ev) {
        (MonitorPhase::AwaitingEdge, MonitorEvent::Edge) => (MonitorPhase::Debouncing, None),
        (MonitorPhase::Debouncing, MonitorEvent::Edge) => (MonitorPhase::Debouncing, None),
        (MonitorPhase::Debouncing, MonitorEvent::WindowElapsed(l)) => (
            MonitorPhase::AwaitingEdge,
            Some(l),
        ),
        (MonitorPhase::AwaitingEdge, MonitorEvent::WindowElapsed(_)) => (
            MonitorPhase::AwaitingEdge,
            None,
        ),
    }
}

/// The action the monitor asks for in `phase`.
pub open spec fn monitor_action(phase: MonitorPhase) -> MonitorAction {
    match phase {
        MonitorPhase::AwaitingEdge => MonitorAction::WaitForEdge,
        MonitorPhase::Debouncing => MonitorAction::Sleep { millis: DEBOUNCE_MS },
    }
}

/// The phase after a run of events, and every level delivered on the way.
pub open spec fn monitor_run(phase: MonitorPhase, events: Seq<MonitorEvent>) -> (
    MonitorPhase,
    Seq<Level>,
)
    decreases events.len(),
{
    if events.len() == 0 {
        (phase, Seq::empty())
    } else {
        let (mid, pushed) = monitor_run(phase, events.drop_last());
        let (next, out) = monitor_step(mid, events.last());
        match out {
            Some(l) => (next, pushed.push(l)),
            None => (next, pushed),
        }
    }
}

impl SensorMonitor {
    /// A monitor waiting for its first edge.
    pub fn new() -> (m: Self)
        ensures
            m.phase == MonitorPhase::AwaitingEdge,
    {
        SensorMonitor { phase: MonitorPhase::AwaitingEdge }
    }

    /// What the task should wait for next.
    pub fn next_action(&self) -> (a: MonitorAction)
        ensures
            a == monitor_action(self.phase),
    {
        match self.phase {
            MonitorPhase::AwaitingEdge => MonitorAction::WaitForEdge,
            MonitorPhase::Debouncing => MonitorAction::Sleep { millis: DEBOUNCE_MS },
        }
    }

    /// Takes in what the task observed; returns the settled level to push
    /// into the channel, if the observation closes a debounce window.
    pub fn on_event(&mut self, ev: MonitorEvent) -> (pushed: Option<Level>)
        ensures
            (final(self).phase, pushed) == monitor_step(old(self).phase, ev),
    {
        match (self.phase, ev) {
            (MonitorPhase::AwaitingEdge, MonitorEvent::Edge) => {
                self.phase = MonitorPhase::Debouncing;
                None
            },
            (MonitorPhase::Debouncing, MonitorEvent::Edge) => None,
            (MonitorPhase::Debouncing, MonitorEvent::WindowElapsed(l)) => {
                self.phase = MonitorPhase::AwaitingEdge;
                Some(l)
            },
            (MonitorPhase::AwaitingEdge, MonitorEvent::WindowElapsed(_)) => None,
        }
    }
}

proof fn lemma_edges_only(edges: Seq<MonitorEvent>)
    requires
        edges.len() >= 1,
        forall|i: int| 0 <= i < edges.len() ==> edges[i] == MonitorEvent::Edge,
    ensures
        monitor_run(MonitorPhase::AwaitingEdge, edges) == (
            MonitorPhase::Debouncing,
            Seq::<Level>::empty(),
        ),
    decreases edges.len(),
{
    assert(edges.last() == MonitorEvent::Edge);
    if edges.len() > 1 {
        lemma_edges_only(edges.drop_last());
        assert forall|i: int| 0 <= i < edges.drop_last().len() implies edges.drop_last()[i]
            == MonitorEvent::Edge by {
            assert(edges.drop_last()[i] == edges[i]);
        }
    } else {
        assert(edges.drop_last() =~= Seq::<MonitorEvent>::empty());
        assert(monitor_run(MonitorPhase::AwaitingEdge, edges.drop_last()) == (
            MonitorPhase::AwaitingEdge,
            Seq::<Level>::empty(),
        ));
    }
}

/// Debouncing: any burst of edges that falls inside one window, followed by
/// the window's end, delivers exactly one level, the one read at the end.
pub proof fn lemma_debounce_single_push(edges: Seq<MonitorEvent>, settled: Level)
    requires
        edges.len() >= 1,
        forall|i: int| 0 <= i < edges.len() ==> edges[i] == MonitorEvent::Edge,
    ensures
        monitor_run(MonitorPhase::AwaitingEdge, edges.push(MonitorEvent::WindowElapsed(settled)))
            == (MonitorPhase::AwaitingEdge, seq![settled]),
{
    lemma_edges_only(edges);
    let all = edges.push(MonitorEvent::WindowElapsed(settled));
    assert(all.drop_last() =~= edges);
    assert(Seq::<Level>::empty().push(settled) =~= seq![settled]);
}

} // verus!
