//! What the runtime loop decides: which of its sources it serves first, how
//! it reacts to what the update channel hands it, and the counters behind
//! the periodic report.

use vstd::prelude::*;

verus! {

/// The sources of events that the loop waits on.
#[derive(Clone, Copy, Debug, PartialEq, Eq, Structural)]
pub enum Source {
    /// A datagram has arrived.
    Datagram,
    /// The report timer has fired.
    ReportTick,
    /// The update channel has something.
    Update,
}

/// Picks the source to serve among those that are ready: datagrams first,
/// then the report timer, then updates, so that a burst of updates cannot
/// hold up the stream. `None` when nothing is ready.
pub fn next_source(datagram_ready: bool, tick_due: bool, update_ready: bool) -> (r: Option<Source>)
    ensures
        r == if datagram_ready {
            Some(Source::Datagram)
        } else if tick_due {
            Some(Source::ReportTick)
        } else if update_ready {
            Some(Source::Update)
        } else {
            None
        },
{
    if datagram_ready {
        Some(Source::Datagram)
    } else if tick_due {
        Some(Source::ReportTick)
    } else if update_ready {
        Some(Source::Update)
    } else {
        None
    }
}

/// What the update channel can hand over.
#[derive(Clone, Copy, Debug, PartialEq, Eq, Structural)]
pub enum Update {
    /// An axis has a new value.
    Axis,
    /// A button was pressed or released.
    Button,
    /// The sender asks for a flush.
    Flush,
    /// The channel dropped this many updates that were not received in time.
    Overflowed(u64),
    /// The channel is closed.
    Closed,
}

/// What the loop does about an update.
#[derive(Clone, Copy, Debug, PartialEq, Eq, Structural)]
pub enum Reaction {
    /// Fold the axis value into the scene and the devices.
    FoldAxis,
    /// Fold the button state into the scene and the devices.
    FoldButton,
    /// Go on.
    Nothing,
    /// Warn that this many updates were missed, and go on.
    WarnMissed(u64),
    /// Leave the loop.
    Stop,
}

/// Decides what the loop does about an update. Axis and button updates are
/// folded in; a flush means nothing here; missed updates are warned about
/// and not asked for again; a closed channel ends the loop.
pub fn react(update: Update) -> (r: Reaction)
    ensures
        r == match update {
            Update::Axis => Reaction::FoldAxis,
            Update::Button => Reaction::FoldButton,
            Update::Flush => Reaction::Nothing,
            Update::Overflowed(n) => Reaction::WarnMissed(n),
            Update::Closed => Reaction::Stop,
        },
{
    match update {
        Update::Axis => Reaction::FoldAxis,
        Update::Button => Reaction::FoldButton,
        Update::Flush => Reaction::Nothing,
        Update::Overflowed(n) => Reaction::WarnMissed(n),
        Update::Closed => Reaction::Stop,
    }
}

/// The processing times of one report period, in nanoseconds.
#[derive(Clone, Copy, Debug, PartialEq, Eq, Structural)]
pub struct Timing {
    pub min: u64,
    pub max: u64,
    pub total: u64,
}

/// What one periodic report says.
#[derive(Clone, Copy, Debug, PartialEq, Eq, Structural)]
pub struct Report {
    /// How many packets were received and answered in the period.
    pub received: u32,
    /// Their processing times; `None` when there were none.
    pub timing: Option<Timing>,
}

/// The counters of the current report period.
#[derive(Clone, Copy, Debug, PartialEq, Eq, Structural)]
pub struct ReportStats {
    pub received: u32,
    pub min: u64,
    pub max: u64,
    pub total: u64,
}

impl ReportStats {
    /// The counters at the start of a period.
    pub open spec fn spec_fresh() -> ReportStats {
        ReportStats { received: 0, min: u64::MAX, max: 0, total: 0 }
    }

    /// The counters after one more packet that took `nanos` to process.
    pub open spec fn spec_record(self, nanos: u64) -> ReportStats {
        ReportStats {
            received: (self.received + 1) as u32,
            min: if nanos < self.min {
                nanos
            } else {
                self.min
            },
            max: if nanos > self.max {
                nanos
            } else {
                self.max
            },
            total: (self.total + nanos) as u64,
        }
    }

    /// What a report of these counters says.
    pub open spec fn spec_report(self) -> Report {
        Report {
            received: self.received,
            timing: if self.received > 0 {
                Some(Timing { min: self.min, max: self.max, total: self.total })
            } else {
                None
            },
        }
    }

    /// Whether one more packet that took `nanos` can be counted.
    pub open spec fn spec_has_room(self, nanos: u64) -> bool {
        self.received < u32::MAX && self.total + nanos <= u64::MAX
    }

    pub fn new() -> (r: ReportStats)
        ensures
            r == Self::spec_fresh(),
    {
        ReportStats { received: 0, min: u64::MAX, max: 0, total: 0 }
    }

    pub fn has_room(&self, nanos: u64) -> (r: bool)
        ensures
            r == self.spec_has_room(nanos),
    {
        self.received < u32::MAX && nanos <= u64::MAX - self.total
    }

    /// Counts one packet that took `nanos` nanoseconds to process.
    pub fn record(&mut self, nanos: u64)
        requires
            old(self).spec_has_room(nanos),
        ensures
            *final(self) == old(self).spec_record(nanos),
    {
        self.received = self.received + 1;
        if nanos < self.min {
            self.min = nanos;
        }
        if nanos > self.max {
            self.max = nanos;
        }
        self.total = self.total + nanos;
    }

    /// Counts one packet where there is room for it; says whether it did.
    pub fn try_record(&mut self, nanos: u64) -> (r: bool)
        ensures
            r == old(self).spec_has_room(nanos),
            *final(self) == if r {
                old(self).spec_record(nanos)
            } else {
                *old(self)
            },
    {
        if self.has_room(nanos) {
            self.record(nanos);
            true
        } else {
            false
        }
    }

    /// Ends the period: hands out the report and starts the counters anew.
    pub fn report(&mut self) -> (r: Report)
        ensures
            r == old(self).spec_report(),
            *final(self) == Self::spec_fresh(),
    {
        let r = Report {
            received: self.received,
            timing: if self.received > 0 {
                Some(Timing { min: self.min, max: self.max, total: self.total })
            } else {
                None
            },
        };
        *self = ReportStats::new();
        r
    }
}

/// What the counters hold after a run of packets: the number of packets, the
/// least and the greatest of their times, and the sum.
pub open spec fn spec_record_all(times: Seq<u64>) -> ReportStats
    decreases times.len(),
{
    if times.len() == 0 {
        ReportStats::spec_fresh()
    } else {
        spec_record_all(times.drop_last()).spec_record(times.last())
    }
}

/// After any run of packets that the counters had room for, the report
/// counts them all, its least time is at most each of the times and its
/// greatest time at least each, and where there was a packet both are times
/// of the run.
pub proof fn lemma_report_bounds(times: Seq<u64>)
    requires
        times.len() <= u32::MAX,
    ensures
        spec_record_all(times).received == times.len(),
        forall|i: int|
            0 <= i < times.len() ==> spec_record_all(times).min <= #[trigger] times[i]
                <= spec_record_all(times).max,
        times.len() > 0 ==> times.contains(spec_record_all(times).min) && times.contains(
            spec_record_all(times).max,
        ) && spec_record_all(times).min <= spec_record_all(times).max,
    decreases times.len(),
{
    if times.len() > 0 {
        let front = times.drop_last();
        lemma_report_bounds(front);
        let stats = spec_record_all(times);
        assert forall|i: int| 0 <= i < times.len() implies stats.min <= #[trigger] times[i]
            <= stats.max by {
            if i < front.len() {
                assert(front[i] == times[i]);
            }
        }
        let last = times.len() - 1;
        assert(times[last] == times.last());
        if front.len() > 0 {
            let a = choose|a: int| 0 <= a < front.len() && front[a] == spec_record_all(front).min;
            let b = choose|b: int| 0 <= b < front.len() && front[b] == spec_record_all(front).max;
            assert(times[a] == front[a]);
            assert(times[b] == front[b]);
        }
    }
}

} // verus!
