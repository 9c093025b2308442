//! The decisions of the file watcher.
//!
//! The watcher polls one file. Each poll first looks at the file's
//! modification time and, only if that differs from the one seen last,
//! reads the file and reports its text. The modification time is the sole
//! change signal: however many writes happened since the last poll, they
//! show as one changed time and lead to one report, which carries what the
//! file holds when it is read.
//!
//! A failed read loses nothing: the modification time counts as seen only
//! once the file has been read with success, so the same change is tried
//! again at the next poll.
//!
//! A [`Watcher`] makes these decisions; looking at the file, reading it,
//! sleeping and sending are left to the caller.

use vstd::prelude::*;

verus! {

/// A modification time: its distance from the Unix epoch and the side of
/// the epoch it lies on.
#[derive(Clone, Copy, Debug, PartialEq, Eq, Structural)]
pub struct Stamp {
    /// Whether the time lies before the epoch.
    pub before_epoch: bool,
    /// Whole seconds between the time and the epoch.
    pub secs: u64,
    /// Nanoseconds beyond the whole seconds.
    pub nanos: u32,
}

/// Nanoseconds in a second.
pub const NANOS_PER_SEC: u32 = 1_000_000_000;

impl Stamp {
    /// The time as a signed count of nanoseconds from the epoch.
    pub open spec fn offset_nanos(self) -> int {
        if self.before_epoch {
            -(self.secs * NANOS_PER_SEC + self.nanos)
        } else {
            self.secs * NANOS_PER_SEC + self.nanos
        }
    }

    /// The time as a Unix timestamp: whole seconds from the epoch, rounded
    /// towards the past, and the nanoseconds that lie beyond them. There is
    /// none if the nanoseconds do not lie within a second or the seconds do
    /// not fit the signed type.
    pub fn timestamp(&self) -> (unix: Option<(i64, u32)>)
        ensures
            self.nanos >= NANOS_PER_SEC ==> unix is None,
            match unix {
                Some((seconds, nanos)) => {
                    &&& nanos < NANOS_PER_SEC
                    &&& seconds * NANOS_PER_SEC + nanos == self.offset_nanos()
                },
                None => {
                    ||| self.nanos >= NANOS_PER_SEC
                    ||| self.offset_nanos() >= (i64::MAX + 1) * NANOS_PER_SEC
                    ||| self.offset_nanos() < i64::MIN * NANOS_PER_SEC
                },
            },
    {
        if self.nanos >= NANOS_PER_SEC {
            return None;
        }
        if !self.before_epoch {
            if self.secs > i64::MAX as u64 {
                None
            } else {
                Some((self.secs as i64, self.nanos))
            }
        } else if self.nanos == 0 {
            if self.secs > i64::MAX as u64 + 1 {
                None
            } else if self.secs == i64::MAX as u64 + 1 {
                Some((i64::MIN, 0))
            } else {
                Some((-(self.secs as i64), 0))
            }
        } else {
            if self.secs > i64::MAX as u64 {
                None
            } else {
                Some((-(self.secs as i64) - 1, NANOS_PER_SEC - self.nanos))
            }
        }
    }
}

/// What to do about the watched file before watching starts.
#[derive(Clone, Copy, Debug, PartialEq, Eq, Structural)]
pub enum StartUp {
    /// The file is there: watch it as it is.
    Watch,
    /// The file is missing and may be created: write the default shader to
    /// it, then watch it.
    CreateDefault,
    /// The file is missing and must not be created: give up.
    Abort,
}

/// Decides what to do before watching starts, from whether the file exists
/// and whether a missing file is to be created.
pub fn start_up(file_exists: bool, create_missing: bool) -> (decision: StartUp)
    ensures
        decision == if file_exists {
            StartUp::Watch
        } else if create_missing {
            StartUp::CreateDefault
        } else {
            StartUp::Abort
        },
{
    if file_exists {
        StartUp::Watch
    } else if create_missing {
        StartUp::CreateDefault
    } else {
        StartUp::Abort
    }
}

/// What one look at the file showed.
#[derive(Clone, Copy, Debug, PartialEq, Eq, Structural)]
pub enum Probe {
    /// The file's metadata could not be had: it is missing or unreadable.
    Missing,
    /// The metadata holds no modification time.
    Untimed,
    /// The file was last modified at this time.
    Modified(Stamp),
}

/// What is to be done with what a read brought.
#[derive(Debug)]
pub enum Delivery {
    /// Report `code`. `time` is the modification time that led to the
    /// read, absent for the report made at start-up.
    Send { time: Option<Stamp>, code: String },
    /// Nothing to report; poll again after the interval.
    Skip,
    /// The file could not be read at start-up: there is no shader to begin
    /// with.
    Fatal,
}

/// The mathematical value of a [`Watcher`].
pub struct Watch {
    /// The modification time of the file as it was last read with success,
    /// if it ever was.
    pub last_modified: Option<Stamp>,
    /// The changed modification time that a read has been asked for and
    /// whose outcome is still awaited.
    pub pending: Option<Stamp>,
    /// Whether the start-up report has been made.
    pub announced: bool,
}

impl Watch {
    /// The state before the file was looked at.
    pub open spec fn fresh() -> Watch {
        Watch { last_modified: None, pending: None, announced: false }
    }

    /// Whether `probe` shows a modification time other than that of the
    /// last successful read.
    pub open spec fn changed(self, probe: Probe) -> bool {
        probe matches Probe::Modified(time) && self.last_modified != Some(time)
    }

    /// The state after `probe`: a changed time is noted as pending, to be
    /// kept only if the read succeeds; anything else leaves the state as it
    /// was.
    pub open spec fn observed(self, probe: Probe) -> Watch {
        match probe {
            Probe::Modified(time) if self.last_modified != Some(time) => Watch {
                last_modified: self.last_modified,
                pending: Some(time),
                announced: self.announced,
            },
            _ => self,
        }
    }

    /// The modification time that the read now awaited stands for: the
    /// pending one, or without one the time of the last successful read.
    pub open spec fn read_time(self) -> Option<Stamp> {
        if self.pending is Some {
            self.pending
        } else {
            self.last_modified
        }
    }

    /// The time a report carries: none at start-up, afterwards the
    /// modification time that led to the read.
    pub open spec fn report_time(self) -> Option<Stamp> {
        if self.announced {
            self.read_time()
        } else {
            None
        }
    }

    /// The state after a read. One that succeeded has led to a report, and
    /// the pending time is now that of the last successful read. One that
    /// failed drops the pending time, so that the same modification time
    /// counts as a change again at the next look.
    pub open spec fn delivered(self, read_ok: bool) -> Watch {
        if read_ok {
            Watch { last_modified: self.read_time(), pending: None, announced: true }
        } else {
            Watch { last_modified: self.last_modified, pending: None, announced: self.announced }
        }
    }

    /// Whether a whole poll, a look at the file and, if it changed, a read
    /// that succeeds or not, ends in a report.
    pub open spec fn reports(self, probe: Probe, read_ok: bool) -> bool {
        self.changed(probe) && read_ok
    }

    /// The state after a whole poll.
    pub open spec fn polled(self, probe: Probe, read_ok: bool) -> Watch {
        if self.changed(probe) {
            self.observed(probe).delivered(read_ok)
        } else {
            self
        }
    }
}

/// Remembers what the watcher has seen of the file.
pub struct Watcher {
    last_modified: Option<Stamp>,
    pending: Option<Stamp>,
    announced: bool,
}

impl View for Watcher {
    type V = Watch;

    closed spec fn view(&self) -> Watch {
        Watch {
            last_modified: self.last_modified,
            pending: self.pending,
            announced: self.announced,
        }
    }
}

impl Watcher {
    /// A watcher that has not seen the file yet.
    pub fn new() -> (watcher: Watcher)
        ensures
            watcher@ == Watch::fresh(),
    {
        Watcher { last_modified: None, pending: None, announced: false }
    }

    /// Whether a look is worth a message: it shows the file missing after
    /// its text had been reported. Before the first report the watcher
    /// waits for the file in silence.
    pub fn went_missing(&self, probe: Probe) -> (gone: bool)
        ensures
            gone == (probe is Missing && self@.announced),
    {
        match probe {
            Probe::Missing => self.announced,
            _ => false,
        }
    }

    /// Takes one look at the file and says whether it has to be read: it
    /// has exactly when the look shows a modification time other than that
    /// of the last successful read. The new time is only noted as pending:
    /// it replaces the old one once [`Watcher::deliver`] is given what the
    /// read brought, and is forgotten if the read failed, so that a change
    /// whose read failed is seen as a change again at the next look.
    pub fn is_code_updated(&mut self, probe: Probe) -> (read: bool)
        ensures
            read == old(self)@.changed(probe),
            final(self)@ == old(self)@.observed(probe),
    {
        match probe {
            Probe::Modified(time) => {
                let seen = match self.last_modified {
                    Some(last) => last == time,
                    None => false,
                };
                if seen {
                    false
                } else {
                    self.pending = Some(time);
                    true
                }
            },
            _ => false,
        }
    }

    /// Takes what the read brought, `None` if it failed. Text is always
    /// reported, exactly as read: without a time the first time, with the
    /// modification time that led to the read from then on; that time is
    /// now the one of the last successful read. A failed read is fatal
    /// before the first report; after it, it is skipped and the previous
    /// state stands, to be tried again at the next look.
    pub fn deliver(&mut self, content: Option<String>) -> (delivery: Delivery)
        ensures
            final(self)@ == old(self)@.delivered(content is Some),
            match content {
                Some(text) => delivery matches Delivery::Send { time, code } && code@ == text@ && time
                    == old(self)@.report_time(),
                None => if old(self)@.announced {
                    delivery is Skip
                } else {
                    delivery is Fatal
                },
            },
    {
        let read_time = match self.pending {
            Some(time) => Some(time),
            None => self.last_modified,
        };
        self.pending = None;
        match content {
            Some(code) => {
                let time = if self.announced {
                    read_time
                } else {
                    None
                };
                self.last_modified = read_time;
                self.announced = true;
                Delivery::Send { time, code }
            },
            None => {
                if self.announced {
                    Delivery::Skip
                } else {
                    Delivery::Fatal
                }
            },
        }
    }
}

/// Coalescing: one poll ends in at most one report, and only if the
/// modification time changed. Once a poll has read the file with success,
/// or has seen no change, a second poll that sees the same modification
/// time reports nothing and changes nothing, however the file was written
/// in between.
pub proof fn lemma_coalescing(before: Watch, probe: Probe, first_read_ok: bool, second_read_ok: bool)
    requires
        first_read_ok || !before.changed(probe),
    ensures
        before.reports(probe, first_read_ok) ==> before.changed(probe),
        !before.polled(probe, first_read_ok).changed(probe),
        !before.polled(probe, first_read_ok).reports(probe, second_read_ok),
        before.polled(probe, first_read_ok).polled(probe, second_read_ok) == before.polled(
            probe,
            first_read_ok,
        ),
{
}

/// A failed read loses nothing: after a change whose read failed the
/// watcher remembers the modification time it remembered before, the same
/// modification time is a change again at the next look, and a read that
/// then succeeds is reported and makes that time the remembered one.
pub proof fn lemma_failed_read_is_retried(before: Watch, probe: Probe)
    requires
        before.changed(probe),
    ensures
        before.polled(probe, false).last_modified == before.last_modified,
        before.polled(probe, false).announced == before.announced,
        before.polled(probe, false).changed(probe),
        before.polled(probe, false).reports(probe, true),
        before.polled(probe, false).polled(probe, true).last_modified == Some(probe->Modified_0),
        !before.polled(probe, false).polled(probe, true).changed(probe),
{
}

/// A look that shows no modification time, or that of the last successful
/// read, never asks for a read and never changes what the watcher
/// remembers.
pub proof fn lemma_quiet_poll(before: Watch, probe: Probe, read_ok: bool)
    requires
        !(probe is Modified) || before.last_modified == Some(probe->Modified_0),
    ensures
        !before.reports(probe, read_ok),
        before.polled(probe, read_ok) == before,
        before.observed(probe) == before,
{
}

} // verus!
