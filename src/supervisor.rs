use vstd::prelude::*;

verus! {

/// Fixed wait, in milliseconds, after a failed connect or a disconnect.
pub const BACKOFF_MS: u64 = 5000;

/// Lifecycle of the wireless link as the supervisor sees it.
#[derive(Clone, Copy, Debug, PartialEq, Eq, Structural)]
pub enum ConnectionState {
    NotStarted,
    Started,
    Connected,
    Disconnected,
}

/// What the supervisor's task should do next.
#[derive(Clone, Copy, Debug, PartialEq, Eq, Structural)]
pub enum SupervisorAction {
    /// Configure the link credentials and start the radio.
    StartRadio,
    /// Attempt to join the network.
    Connect,
    /// Suspend until the link reports a disconnect.
    AwaitDisconnect,
    /// Suspend for the given number of milliseconds.
    Backoff { millis: u64 },
}

/// What the supervisor's task observed after carrying out an action.
#[derive(Clone, Copy, Debug, PartialEq, Eq, Structural)]
pub enum SupervisorEvent {
    RadioStarted,
    ConnectSucceeded,
    ConnectFailed,
    LinkLost,
    /// The backoff passed; carries whether the radio still reports started.
    BackoffElapsed { radio_started: bool },
}

/// Drives the wireless link: start, connect, and after any failure or
/// disconnect wait a fixed interval and try again, without end.
pub struct ConnectionSupervisor {
    state: ConnectionState,
    backing_off: bool,
}

/// The abstract state of a supervisor: the link state, and whether the
/// fixed backoff is due before the next attempt.
pub struct SupervisorView {
    pub state: ConnectionState,
    pub backing_off: bool,
}

impl SupervisorView {
    /// A backoff is only ever pending after the link went down.
    pub open spec fn wf(self) -> bool {
        self.backing_off ==> self.state == ConnectionState::Disconnected
    }
}

impl View for ConnectionSupervisor {
    type V = SupervisorView;

    closed spec fn view(&self) -> SupervisorView {
        SupervisorView { state: self.state, backing_off: self.backing_off }
    }
}

/// The action a supervisor asks for.
pub open spec fn supervisor_action(s: SupervisorView) -> SupervisorAction {
    if s.backing_off {
        SupervisorAction::Backoff { millis: BACKOFF_MS }
    } else {
        match s.state {
            ConnectionState::NotStarted => SupervisorAction::StartRadio,
            ConnectionState::Started => SupervisorAction::Connect,
            ConnectionState::Disconnected => SupervisorAction::Connect,
            ConnectionState::Connected => SupervisorAction::AwaitDisconnect,
        }
    }
}

/// The supervisor after observing `ev`. An event that does not answer the
/// pending action changes nothing.
pub open spec fn supervisor_step(s: SupervisorView, ev: SupervisorEvent) -> SupervisorView {
    match (supervisor_action(s), ev) {
        (SupervisorAction::StartRadio, SupervisorEvent::RadioStarted) => SupervisorView {
            state: ConnectionState::Started,
            backing_off: false,
        },
        (SupervisorAction::Connect, SupervisorEvent::ConnectSucceeded) => SupervisorView {
            state: ConnectionState::Connected,
            backing_off: false,
        },
        (SupervisorAction::Connect, SupervisorEvent::ConnectFailed) => SupervisorView {
            state: ConnectionState::Disconnected,
            backing_off: true,
        },
        (SupervisorAction::AwaitDisconnect, SupervisorEvent::LinkLost) => SupervisorView {
            state: ConnectionState::Disconnected,
            backing_off: true,
        },
        (
            SupervisorAction::Backoff { .. },
            SupervisorEvent::BackoffElapsed { radio_started },
        ) => SupervisorView {
            state: if radio_started {
                ConnectionState::Disconnected
            } else {
                ConnectionState::NotStarted
            },
            backing_off: false,
        },
        _ => s,
    }
}

/// The supervisor after a run of events.
pub open spec fn supervisor_run(s: SupervisorView, events: Seq<SupervisorEvent>) -> SupervisorView
    decreases events.len(),
{
    if events.len() == 0 {
        s
    } else {
        supervisor_step(supervisor_run(s, events.drop_last()), events.last())
    }
}

/// `n` rounds of a failed connect followed by the backoff passing.
pub open spec fn failed_rounds(n: nat) -> Seq<SupervisorEvent>
    decreases n,
{
    if n == 0 {
        Seq::empty()
    } else {
        failed_rounds((n - 1) as nat).push(SupervisorEvent::ConnectFailed).push(
            SupervisorEvent::BackoffElapsed { radio_started: true },
        )
    }
}

impl ConnectionSupervisor {
    /// A supervisor whose radio has not been started.
    pub fn new() -> (s: Self)
        ensures
            s@.state == ConnectionState::NotStarted,
            !s@.backing_off,
            s@.wf(),
            supervisor_action(s@) == SupervisorAction::StartRadio,
    {
        ConnectionSupervisor { state: ConnectionState::NotStarted, backing_off: false }
    }

    /// The link state as the supervisor sees it.
    pub fn state(&self) -> (st: ConnectionState)
        ensures
            st == self@.state,
    {
        self.state
    }

    /// What the task should do next.
    pub fn next_action(&self) -> (a: SupervisorAction)
        ensures
            a == supervisor_action(self@),
    {
        if self.backing_off {
            SupervisorAction::Backoff { millis: BACKOFF_MS }
        } else {
            match self.state {
                ConnectionState::NotStarted => SupervisorAction::StartRadio,
                ConnectionState::Started => SupervisorAction::Connect,
                ConnectionState::Disconnected => SupervisorAction::Connect,
                ConnectionState::Connected => SupervisorAction::AwaitDisconnect,
            }
        }
    }

    /// Takes in what the task observed.
    pub fn on_event(&mut self, ev: SupervisorEvent)
        ensures
            final(self)@ == supervisor_step(old(self)@, ev),
            old(self)@.wf() ==> final(self)@.wf(),
    {
        let action = self.next_action();
        match (action, ev) {
            (SupervisorAction::StartRadio, SupervisorEvent::RadioStarted) => {
                self.state = ConnectionState::Started;
            },
            (SupervisorAction::Connect, SupervisorEvent::ConnectSucceeded) => {
                self.state = ConnectionState::Connected;
            },
            (SupervisorAction::Connect, SupervisorEvent::ConnectFailed) => {
                self.state = ConnectionState::Disconnected;
                self.backing_off = true;
            },
            (SupervisorAction::AwaitDisconnect, SupervisorEvent::LinkLost) => {
                self.state = ConnectionState::Disconnected;
                self.backing_off = true;
            },
            (SupervisorAction::Backoff { .. }, SupervisorEvent::BackoffElapsed { radio_started }) => {
                self.state = if radio_started {
                    ConnectionState::Disconnected
                } else {
                    ConnectionState::NotStarted
                };
                self.backing_off = false;
            },
            _ => {},
        }
    }
}

/// Retrying never stops: from a supervisor about to connect, any number of
/// failed connects each lead to a fixed backoff, after which it connects
/// again.
pub proof fn lemma_retries_forever(s: SupervisorView, n: nat)
    requires
        s.wf(),
        supervisor_action(s) == SupervisorAction::Connect,
    ensures
        supervisor_action(supervisor_run(s, failed_rounds(n))) == SupervisorAction::Connect,
        supervisor_action(supervisor_run(s, failed_rounds(n).push(SupervisorEvent::ConnectFailed)))
            == (SupervisorAction::Backoff { millis: BACKOFF_MS }),
    decreases n,
{
    let rounds = failed_rounds(n);
    let failed = rounds.push(SupervisorEvent::ConnectFailed);
    if n > 0 {
        lemma_retries_forever(s, (n - 1) as nat);
        let prev = failed_rounds((n - 1) as nat).push(SupervisorEvent::ConnectFailed);
        assert(rounds.drop_last() =~= prev);
        assert(prev.drop_last() =~= failed_rounds((n - 1) as nat));
    }
    assert(failed.drop_last() =~= rounds);
}

} // verus!
