use vstd::prelude::*;
use embassy_sync::blocking_mutex::raw::CriticalSectionRawMutex;
use embassy_sync::channel::Channel;

verus! {

/// Number of levels the channel holds before the producer must wait.
pub const CHANNEL_CAPACITY: usize = 8;

/// Instantaneous reading of the sensor's input pin.
#[derive(Clone, Copy, Debug, PartialEq, Eq, Structural)]
pub enum Level {
    Low,
    High,
}

/// The logical sensor status for a pin level: the input is pulled up and
/// active-low, so a low pin means "closed" (`true`).
pub open spec fn status_of(level: Level) -> bool {
    level == Level::Low
}

/// Derives the sensor status from a pin level.
pub fn sensor_status(level: Level) -> (status: bool)
    ensures
        status == status_of(level),
{
    match level {
        Level::Low => true,
        Level::High => false,
    }
}

/// Bounded FIFO of levels from the sensor monitor to the reporter.
#[verifier::external_body]
pub struct StateChannel {
    inner: Channel<CriticalSectionRawMutex, Level, 8>,
}

/// The levels queued in a channel, oldest first.
pub uninterp spec fn queued(c: StateChannel) -> Seq<Level>;

impl View for StateChannel {
    type V = Seq<Level>;

    open spec fn view(&self) -> Seq<Level> {
        queued(*self)
    }
}

/// Relies on embassy_sync's Channel::new: a new channel holds nothing.
#[verifier::external_body]
fn raw_new() -> (c: StateChannel)
    ensures
        queued(c) == Seq::<Level>::empty(),
{
    StateChannel { inner: Channel::new() }
}

/// Relies on embassy_sync's Channel::try_send: the level is appended at the
/// back when fewer than eight are queued; otherwise the queue is unchanged
/// and the level is handed back.
#[verifier::external_body]
fn raw_try_send(c: &mut StateChannel, level: Level) -> (r: Result<(), Level>)
    ensures
        r is Ok <==> queued(*old(c)).len() < 8,
        r is Ok ==> queued(*final(c)) == queued(*old(c)).push(level),
        r is Err ==> r->Err_0 == level && queued(*final(c)) == queued(*old(c)),
{
    c.inner.try_send(level).map_err(|e| match e {
        embassy_sync::channel::TrySendError::Full(l) => l,
    })
}

/// Relies on embassy_sync's Channel::try_receive: the oldest level is
/// removed and returned; an empty channel is left as it is.
#[verifier::external_body]
fn raw_try_receive(c: &mut StateChannel) -> (r: Option<Level>)
    ensures
        queued(*old(c)).len() == 0 ==> r is None && queued(*final(c)) == queued(*old(c)),
        queued(*old(c)).len() > 0 ==> r == Some(queued(*old(c))[0]) && queued(*final(c)) == queued(*old(c)).drop_first(),
{
    c.inner.try_receive().ok()
}

/// Relies on embassy_sync's Channel::len: the number of queued levels.
#[verifier::external_body]
fn raw_len(c: &StateChannel) -> (n: usize)
    ensures
        n == queued(*c).len(),
{
    c.inner.len()
}

/// The queue after offering `level` to it.
pub open spec fn after_send(q: Seq<Level>, level: Level) -> Seq<Level> {
    if q.len() < CHANNEL_CAPACITY {
        q.push(level)
    } else {
        q
    }
}

/// What one receive returns, and the queue it leaves.
pub open spec fn after_receive(q: Seq<Level>) -> (Option<Level>, Seq<Level>) {
    if q.len() == 0 {
        (None, q)
    } else {
        (Some(q[0]), q.drop_first())
    }
}

/// One operation on the channel.
#[derive(Clone, Copy, Debug, PartialEq, Eq, Structural)]
pub enum ChannelOp {
    Send(Level),
    Receive,
}

/// The record of a run of operations on a channel.
pub struct ChannelTrace {
    /// What the channel holds at the end.
    pub queue: Seq<Level>,
    /// Every level the channel accepted, in order.
    pub accepted: Seq<Level>,
    /// Every level a receive returned, in order.
    pub received: Seq<Level>,
}

/// The record of `ops` applied in turn to an empty channel.
pub open spec fn channel_run(ops: Seq<ChannelOp>) -> ChannelTrace
    decreases ops.len(),
{
    if ops.len() == 0 {
        ChannelTrace { queue: Seq::empty(), accepted: Seq::empty(), received: Seq::empty() }
    } else {
        let t = channel_run(ops.drop_last());
        match ops.last() {
            ChannelOp::Send(l) => ChannelTrace {
                queue: after_send(t.queue, l),
                accepted: if t.queue.len() < CHANNEL_CAPACITY {
                    t.accepted.push(l)
                } else {
                    t.accepted
                },
                received: t.received,
            },
            ChannelOp::Receive => ChannelTrace {
                queue: after_receive(t.queue).1,
                accepted: t.accepted,
                received: match after_receive(t.queue).0 {
                    Some(l) => t.received.push(l),
                    None => t.received,
                },
            },
        }
    }
}

/// Order is kept under any mix of sends and receives: what has been
/// received is always a prefix of what was accepted, and the channel holds
/// exactly the rest, in order and within its capacity.
pub proof fn lemma_channel_fifo(ops: Seq<ChannelOp>)
    ensures
        channel_run(ops).received + channel_run(ops).queue == channel_run(ops).accepted,
        channel_run(ops).queue.len() <= CHANNEL_CAPACITY,
    decreases ops.len(),
{
    if ops.len() == 0 {
        assert(Seq::<Level>::empty() + Seq::<Level>::empty() =~= Seq::<Level>::empty());
    } else {
        lemma_channel_fifo(ops.drop_last());
        let t = channel_run(ops.drop_last());
        let u = channel_run(ops);
        match ops.last() {
            ChannelOp::Send(l) => {
                if t.queue.len() < CHANNEL_CAPACITY {
                    assert(u.received + u.queue =~= (t.received + t.queue).push(l));
                }
            },
            ChannelOp::Receive => {
                if t.queue.len() > 0 {
                    assert(u.received + u.queue =~= t.received + t.queue);
                }
            },
        }
    }
}

impl StateChannel {
    /// The channel never holds more than its capacity.
    pub open spec fn wf(&self) -> bool {
        self@.len() <= CHANNEL_CAPACITY
    }

    /// An empty channel.
    pub fn new() -> (c: Self)
        ensures
            c@ == Seq::<Level>::empty(),
            c.wf(),
    {
        raw_new()
    }

    /// Offers a level to the channel. When the channel is full the level is
    /// handed back untouched, so the producer waits and tries again rather
    /// than dropping it.
    pub fn try_send(&mut self, level: Level) -> (r: Result<(), Level>)
        ensures
            old(self).wf() ==> final(self).wf(),
            final(self)@ == after_send(old(self)@, level),
            r is Ok <==> old(self)@.len() < CHANNEL_CAPACITY,
            r is Err ==> r->Err_0 == level,
    {
        raw_try_send(self, level)
    }

    /// Takes the oldest queued level, if any.
    pub fn try_receive(&mut self) -> (r: Option<Level>)
        ensures
            old(self).wf() ==> final(self).wf(),
            (r, final(self)@) == after_receive(old(self)@),
    {
        raw_try_receive(self)
    }

    /// Number of queued levels.
    pub fn len(&self) -> (n: usize)
        ensures
            n == self@.len(),
    {
        raw_len(self)
    }

    /// Whether the producer would have to wait.
    pub fn is_full(&self) -> (b: bool)
        ensures
            b == (self@.len() == CHANNEL_CAPACITY),
    {
        raw_len(self) == CHANNEL_CAPACITY
    }
}

} // verus!
