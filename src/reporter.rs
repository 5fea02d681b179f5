use vstd::prelude::*;
use crate::channel::{Level, sensor_status, status_of};
use crate::url::{build_url, buffer_text, url_fits, url_text};

verus! {

/// How long the reporter waits on the channel before reporting anyway.
pub const RECEIVE_TIMEOUT_MS: u64 = 5000;

/// Bound on one whole notification: request, send and response.
pub const NOTIFY_TIMEOUT_MS: u64 = 10000;

/// Grace period before the reset that follows a configuration fault.
pub const RESET_GRACE_MS: u64 = 30000;

/// How a wait on the channel ended.
#[derive(Clone, Copy, Debug, PartialEq, Eq, Structural)]
pub enum Wake {
    /// A settled level arrived.
    Received(Level),
    /// Nothing arrived within the receive timeout.
    TimedOut,
}

/// What the reporter's loop should do after a wake.
#[derive(Debug)]
pub enum ReporterAction {
    /// POST to this URL, bounded by the notification timeout.
    Notify(heapless::String<128>),
    /// The URL cannot be formed: wait this many milliseconds, then reset
    /// the device.
    ResetAfter { millis: u64 },
}

/// The main task's state: the device identifier and the last level that was
/// delivered (or read at startup).
pub struct Reporter {
    id: u64,
    level: Level,
}

/// The remembered level after a wake.
pub open spec fn level_after(level: Level, wake: Wake) -> Level {
    match wake {
        Wake::Received(l) => l,
        Wake::TimedOut => level,
    }
}

/// The remembered level after a run of wakes.
pub open spec fn level_after_all(level: Level, wakes: Seq<Wake>) -> Level
    decreases wakes.len(),
{
    if wakes.len() == 0 {
        level
    } else {
        level_after(level_after_all(level, wakes.drop_last()), wakes.last())
    }
}

impl Reporter {
    /// The device identifier, fixed when the reporter is made.
    pub closed spec fn device_id(&self) -> u64 {
        self.id
    }

    /// The last level delivered, or the one read at boot.
    pub closed spec fn remembered(&self) -> Level {
        self.level
    }

    /// A reporter for device `id` that starts from the level read at boot.
    pub fn new(id: u64, initial: Level) -> (r: Self)
        ensures
            r.device_id() == id,
            r.remembered() == initial,
    {
        Reporter { id, level: initial }
    }

    /// The device identifier.
    pub fn id(&self) -> (id: u64)
        ensures
            id == self.device_id(),
    {
        self.id
    }

    /// The remembered level.
    pub fn level(&self) -> (level: Level)
        ensures
            level == self.remembered(),
    {
        self.level
    }

    /// One iteration of the main loop after the channel wait ended: keeps
    /// the new level (or the old one on a timeout), derives the status and
    /// either asks for a notification or, when the URL does not fit, for the
    /// grace period and reset.
    pub fn on_wake(&mut self, base_url: &str, wake: Wake) -> (a: ReporterAction)
        ensures
            final(self).device_id() == old(self).device_id(),
            final(self).remembered() == level_after(old(self).remembered(), wake),
            a is Notify <==> url_fits(
                base_url@,
                old(self).device_id(),
                status_of(final(self).remembered()),
            ),
            a matches ReporterAction::Notify(url) ==> buffer_text(url) == url_text(
                base_url@,
                old(self).device_id(),
                status_of(final(self).remembered()),
            ),
            a matches ReporterAction::ResetAfter { millis } ==> millis == RESET_GRACE_MS,
    {
        match wake {
            Wake::Received(l) => {
                self.level = l;
            },
            Wake::TimedOut => {},
        }
        let status = sensor_status(self.level);
        match build_url(base_url, self.id, status) {
            Ok(url) => ReporterAction::Notify(url),
            Err(_) => ReporterAction::ResetAfter { millis: RESET_GRACE_MS },
        }
    }
}

/// Heartbeat: however many receive timeouts pass in a row, the reporter
/// keeps reporting the last delivered level.
pub proof fn lemma_timeouts_keep_level(level: Level, wakes: Seq<Wake>)
    requires
        forall|i: int| 0 <= i < wakes.len() ==> wakes[i] == Wake::TimedOut,
    ensures
        level_after_all(level, wakes) == level,
    decreases wakes.len(),
{
    if wakes.len() > 0 {
        assert(wakes.last() == Wake::TimedOut);
        lemma_timeouts_keep_level(level, wakes.drop_last());
    }
}

} // verus!
