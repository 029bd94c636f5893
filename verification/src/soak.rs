//! The course of a production gate run, and of the probe that fills a disk.
use crate::production::{self, Signal};
use vstd::prelude::*;

verus! {

/// What is to be done next.
#[derive(Clone, Copy, Debug, PartialEq, Eq, Structural)]
pub enum GateAction {
    /// Start the server of a signal.
    Start(Signal),
    /// Write one batch.
    Write(Signal),
    /// Flush, and check that every record is durable.
    Barrier(Signal),
    /// Start a second server on the same address; it must fail.
    AddressConflict(Signal),
    /// Start servers on damaged and on read-only databases; they must fail.
    InvalidStorage(Signal),
    /// Use up the descriptors of a server; it must recover.
    DescriptorPressure(Signal),
    /// Fill the disk of a server; it must keep what was durable.
    DiskFull(Signal),
    /// Run the workers for the configured time.
    Soak,
    /// Flush for the last time, and check.
    FinalBarrier(Signal),
    /// Take the last sample.
    Sample(Signal),
    /// Hold the results to the limits.
    Judge,
}

/// A signal by its number.
pub open spec fn numbered(i: int) -> Signal {
    if i == 0 {
        Signal::Metrics
    } else if i == 1 {
        Signal::Logs
    } else {
        Signal::Traces
    }
}

fn by_number(i: usize) -> (signal: Signal)
    ensures
        signal == numbered(i as int),
{
    if i == 0 {
        Signal::Metrics
    } else if i == 1 {
        Signal::Logs
    } else {
        Signal::Traces
    }
}

/// Step `step` of a run: every server is started, written to and checked; each
/// is put through the startup faults, unless faults are skipped; then comes the
/// soak, a last check of every signal, and the judgement.
pub open spec fn gate_action(skip_faults: bool, step: int) -> Option<GateAction> {
    let faults: int = if skip_faults {
        0
    } else {
        12
    };
    if 0 <= step < 9 {
        let signal = numbered(step / 3);
        if step % 3 == 0 {
            Some(GateAction::Start(signal))
        } else if step % 3 == 1 {
            Some(GateAction::Write(signal))
        } else {
            Some(GateAction::Barrier(signal))
        }
    } else if 9 <= step < 9 + faults {
        let signal = numbered((step - 9) / 4);
        if (step - 9) % 4 == 0 {
            Some(GateAction::AddressConflict(signal))
        } else if (step - 9) % 4 == 1 {
            Some(GateAction::InvalidStorage(signal))
        } else if (step - 9) % 4 == 2 {
            Some(GateAction::DescriptorPressure(signal))
        } else {
            Some(GateAction::DiskFull(signal))
        }
    } else if step == 9 + faults {
        Some(GateAction::Soak)
    } else if 10 + faults <= step < 16 + faults {
        let signal = numbered((step - 10 - faults) / 2);
        if (step - 10 - faults) % 2 == 0 {
            Some(GateAction::FinalBarrier(signal))
        } else {
            Some(GateAction::Sample(signal))
        }
    } else if step == 16 + faults {
        Some(GateAction::Judge)
    } else {
        None
    }
}

/// Step `step` of a run.
pub fn run_gate(skip_faults: bool, step: usize) -> (action: Option<GateAction>)
    ensures
        action == gate_action(skip_faults, step as int),
{
    let faults: usize = if skip_faults {
        0
    } else {
        12
    };
    if step < 9 {
        let signal = by_number(step / 3);
        if step % 3 == 0 {
            Some(GateAction::Start(signal))
        } else if step % 3 == 1 {
            Some(GateAction::Write(signal))
        } else {
            Some(GateAction::Barrier(signal))
        }
    } else if step < 9 + faults {
        let signal = by_number((step - 9) / 4);
        if (step - 9) % 4 == 0 {
            Some(GateAction::AddressConflict(signal))
        } else if (step - 9) % 4 == 1 {
            Some(GateAction::InvalidStorage(signal))
        } else if (step - 9) % 4 == 2 {
            Some(GateAction::DescriptorPressure(signal))
        } else {
            Some(GateAction::DiskFull(signal))
        }
    } else if step == 9 + faults {
        Some(GateAction::Soak)
    } else if step < 16 + faults {
        let signal = by_number((step - 10 - faults) / 2);
        if (step - 10 - faults) % 2 == 0 {
            Some(GateAction::FinalBarrier(signal))
        } else {
            Some(GateAction::Sample(signal))
        }
    } else if step == 16 + faults {
        Some(GateAction::Judge)
    } else {
        None
    }
}

/// The judgement is the last step, and nothing is judged before every signal has
/// passed its last barrier.
pub proof fn judgement_comes_last(skip_faults: bool, step: int, signal: Signal)
    requires
        gate_action(skip_faults, step) == Some(GateAction::Judge),
    ensures
        forall|later: int|
            later > step ==> #[trigger] gate_action(skip_faults, later) is None,
        exists|earlier: int|
            earlier < step && #[trigger] gate_action(skip_faults, earlier) == Some(
                GateAction::FinalBarrier(signal),
            ),
{
    let faults: int = if skip_faults {
        0
    } else {
        12
    };
    let place: int = match signal {
        Signal::Metrics => 10 + faults,
        Signal::Logs => 12 + faults,
        Signal::Traces => 14 + faults,
    };
    assert(gate_action(skip_faults, place) == Some(GateAction::FinalBarrier(signal)));
}

/// A fault during the soak.
#[derive(Clone, Copy, Debug, PartialEq, Eq, Structural)]
pub enum Fault {
    /// Slow and cancelled clients.
    Slow,
    /// A backup while a signal is written.
    Backup(Signal),
    /// Every server is stopped and started again.
    Graceful,
    /// Every server is killed and started again.
    Abrupt,
}

/// Fault `i`, with the percentage of the soak after which it is due.
pub open spec fn scheduled(i: int) -> Option<(u64, Fault)> {
    if i == 0 {
        Some((12u64, Fault::Slow))
    } else if i == 1 {
        Some((22u64, Fault::Backup(Signal::Metrics)))
    } else if i == 2 {
        Some((30u64, Fault::Graceful))
    } else if i == 3 {
        Some((42u64, Fault::Backup(Signal::Logs)))
    } else if i == 4 {
        Some((52u64, Fault::Abrupt))
    } else if i == 5 {
        Some((64u64, Fault::Backup(Signal::Traces)))
    } else if i == 6 {
        Some((74u64, Fault::Slow))
    } else if i == 7 {
        Some((84u64, Fault::Graceful))
    } else if i == 8 {
        Some((92u64, Fault::Abrupt))
    } else {
        None
    }
}

/// Fault `i`, with the percentage of the soak after which it is due.
pub fn schedule(i: usize) -> (entry: Option<(u64, Fault)>)
    ensures
        entry == scheduled(i as int),
{
    if i == 0 {
        Some((12, Fault::Slow))
    } else if i == 1 {
        Some((22, Fault::Backup(Signal::Metrics)))
    } else if i == 2 {
        Some((30, Fault::Graceful))
    } else if i == 3 {
        Some((42, Fault::Backup(Signal::Logs)))
    } else if i == 4 {
        Some((52, Fault::Abrupt))
    } else if i == 5 {
        Some((64, Fault::Backup(Signal::Traces)))
    } else if i == 6 {
        Some((74, Fault::Slow))
    } else if i == 7 {
        Some((84, Fault::Graceful))
    } else if i == 8 {
        Some((92, Fault::Abrupt))
    } else {
        None
    }
}

/// The soak: how long it lasts, how often it is sampled, and how far it has
/// come. Times are nanoseconds.
#[derive(Debug)]
pub struct Soak {
    pub skip_faults: bool,
    pub duration_ns: u64,
    pub sample_ns: u64,
    pub next_fault: usize,
    pub next_sample_ns: u128,
}

/// What a tick of the soak asks for.
#[derive(Clone, Copy, Debug, PartialEq, Eq, Structural)]
pub enum Tick {
    /// The soak is over.
    Over,
    /// Take a sample where it is due, then inject a fault where one is due, then
    /// rest.
    Work { sample: bool, fault: Option<Fault>, rest_ns: u64 },
}

impl Soak {
    /// The fault that is due.
    pub open spec fn due(&self, elapsed_ns: u64) -> Option<Fault> {
        if self.skip_faults {
            None
        } else {
            match scheduled(self.next_fault as int) {
                Some((percent, fault)) => if elapsed_ns * 100 >= self.duration_ns * percent {
                    Some(fault)
                } else {
                    None
                },
                None => None,
            }
        }
    }

    /// No more faults are behind than there are.
    pub open spec fn well_formed(&self) -> bool {
        self.next_fault <= 9
    }

    /// A soak that starts.
    pub fn new(skip_faults: bool, duration_ns: u64, sample_ns: u64) -> (soak: Soak)
        ensures
            soak.well_formed(),
            soak.skip_faults == skip_faults,
            soak.duration_ns == duration_ns,
            soak.sample_ns == sample_ns,
            soak.next_fault == 0,
            soak.next_sample_ns == 0,
    {
        Soak { skip_faults, duration_ns, sample_ns, next_fault: 0, next_sample_ns: 0 }
    }

    /// One tick of the soak. It is over once a worker has stopped it or its time
    /// is up. Otherwise a sample is due at every sample time, and faults come one
    /// by one in the order of the schedule.
    pub fn tick(&mut self, stopped: bool, elapsed_ns: u64) -> (tick: Tick)
        requires
            old(self).well_formed(),
        ensures
            final(self).well_formed(),
            final(self).skip_faults == old(self).skip_faults,
            final(self).duration_ns == old(self).duration_ns,
            final(self).sample_ns == old(self).sample_ns,
            stopped || elapsed_ns >= old(self).duration_ns ==> tick == Tick::Over && *final(self)
                == *old(self),
            !stopped && elapsed_ns < old(self).duration_ns ==> {
                &&& tick == (Tick::Work {
                    sample: elapsed_ns >= old(self).next_sample_ns,
                    fault: old(self).due(elapsed_ns),
                    rest_ns: if old(self).duration_ns - elapsed_ns < 100_000_000 {
                        (old(self).duration_ns - elapsed_ns) as u64
                    } else {
                        100_000_000u64
                    },
                })
                &&& final(self).next_sample_ns == (if elapsed_ns >= old(self).next_sample_ns {
                    old(self).next_sample_ns + old(self).sample_ns
                } else {
                    old(self).next_sample_ns as int
                })
                &&& final(self).next_fault == (if old(self).due(elapsed_ns) is Some {
                    old(self).next_fault + 1
                } else {
                    old(self).next_fault as int
                })
            },
    {
        if stopped || elapsed_ns >= self.duration_ns {
            return Tick::Over;
        }
        let sample: bool = elapsed_ns as u128 >= self.next_sample_ns;
        let mut fault: Option<Fault> = None;
        if !self.skip_faults {
            if let Some((percent, next)) = schedule(self.next_fault) {
                assert(self.duration_ns * percent <= 0xffff_ffff_ffff_ffff * 100) by (nonlinear_arith)
                    requires
                        self.duration_ns <= 0xffff_ffff_ffff_ffff,
                        percent <= 100,
                ;
                if elapsed_ns as u128 * 100 >= self.duration_ns as u128 * percent as u128 {
                    fault = Some(next);
                }
            }
        }
        if sample {
            self.next_sample_ns = self.next_sample_ns + self.sample_ns as u128;
        }
        if fault.is_some() {
            self.next_fault = self.next_fault + 1;
        }
        let left: u64 = self.duration_ns - elapsed_ns;
        let rest_ns: u64 = if left < 100_000_000 {
            left
        } else {
            100_000_000
        };
        Tick::Work { sample, fault, rest_ns }
    }
}

/// The faults of the schedule come in the order of their times.
pub proof fn schedule_is_ordered(i: int, j: int)
    requires
        0 <= i < j,
        scheduled(j) is Some,
    ensures
        scheduled(i) matches Some(a) && scheduled(j) matches Some(b) && a.0 < b.0,
{
}

/// Why the probe that fills a disk ended.
#[derive(Clone, Copy, Debug, PartialEq, Eq, Structural)]
pub enum DiskEnd {
    ProcessExit,
    IngestStatus(u16),
    FlushStatus(u16),
    PrefixMismatch,
    NoFault,
}

/// What the probe does next.
#[derive(Clone, Copy, Debug, PartialEq, Eq, Structural)]
pub enum DiskStep {
    /// See whether the process still runs.
    Watch,
    /// Write a batch at the accepted ordinal.
    Ingest,
    /// Flush.
    Flush,
    /// Read the counters.
    Count,
    /// The probe is over.
    End(DiskEnd),
}

/// What a step gave back.
#[derive(Clone, Copy, Debug, PartialEq, Eq, Structural)]
pub enum DiskEvent {
    Running(bool),
    Status(u16),
    Counted(Option<u64>),
}

/// The probe: what was accepted, what was seen to be durable, how many rounds
/// are left, and the next step.
#[derive(Debug)]
pub struct DiskProbe {
    pub signal: Signal,
    pub accepted: u64,
    pub durable: u64,
    pub rounds_left: u64,
    pub next: DiskStep,
}

/// The size of one batch of the probe.
pub open spec fn probe_batch(signal: Signal) -> u64 {
    match signal {
        Signal::Metrics => 4_096,
        Signal::Logs => 2_048,
        Signal::Traces => 1_024,
    }
}

/// The status of an accepted batch.
pub open spec fn accepted_status(signal: Signal) -> u16 {
    match signal {
        Signal::Traces => 200,
        _ => 204,
    }
}

impl DiskProbe {
    /// What was durable was accepted, and at most one batch more than the rounds
    /// so far allow.
    pub open spec fn well_formed(&self) -> bool {
        &&& self.rounds_left <= 32
        &&& self.durable <= self.accepted
        &&& self.accepted <= (32 - self.rounds_left) * 4_096 + 4_096
        &&& (self.next is Watch || self.next is Ingest) ==> self.accepted <= (32
            - self.rounds_left) * 4_096
        &&& (self.next is Ingest || self.next is Flush || self.next is Count) ==> self.rounds_left
            > 0
    }

    /// A probe that starts.
    pub fn new(signal: Signal) -> (probe: DiskProbe)
        ensures
            probe.well_formed(),
            probe.signal == signal,
            probe.accepted == 0,
            probe.durable == 0,
            probe.rounds_left == 32,
            probe.next == DiskStep::Watch,
    {
        DiskProbe { signal, accepted: 0, durable: 0, rounds_left: 32, next: DiskStep::Watch }
    }

    /// What the probe becomes by an event. Each of up to 32 rounds watches the
    /// process, writes a batch, flushes it and reads it back; the first failure
    /// ends the probe, and so does the last round.
    pub open spec fn after(&self, event: DiskEvent) -> (u64, u64, u64, DiskStep) {
        match (self.next, event) {
            (DiskStep::Watch, DiskEvent::Running(running)) => if self.rounds_left == 0 {
                (self.accepted, self.durable, self.rounds_left, DiskStep::End(DiskEnd::NoFault))
            } else if running {
                (self.accepted, self.durable, self.rounds_left, DiskStep::Ingest)
            } else {
                (
                    self.accepted,
                    self.durable,
                    self.rounds_left,
                    DiskStep::End(DiskEnd::ProcessExit),
                )
            },
            (DiskStep::Ingest, DiskEvent::Status(status)) => if status != accepted_status(
                self.signal,
            ) {
                (
                    self.accepted,
                    self.durable,
                    self.rounds_left,
                    DiskStep::End(DiskEnd::IngestStatus(status)),
                )
            } else {
                (
                    (self.accepted + probe_batch(self.signal)) as u64,
                    self.durable,
                    self.rounds_left,
                    DiskStep::Flush,
                )
            },
            (DiskStep::Flush, DiskEvent::Status(status)) => if status != 200 {
                (
                    self.accepted,
                    self.durable,
                    self.rounds_left,
                    DiskStep::End(DiskEnd::FlushStatus(status)),
                )
            } else {
                (self.accepted, self.durable, self.rounds_left, DiskStep::Count)
            },
            (DiskStep::Count, DiskEvent::Counted(count)) => if count != Some(self.accepted) {
                (
                    self.accepted,
                    self.durable,
                    self.rounds_left,
                    DiskStep::End(DiskEnd::PrefixMismatch),
                )
            } else {
                (
                    self.accepted,
                    self.accepted,
                    (self.rounds_left - 1) as u64,
                    DiskStep::Watch,
                )
            },
            _ => (self.accepted, self.durable, self.rounds_left, self.next),
        }
    }

    /// Takes an event. An event that does not answer the next step changes
    /// nothing.
    pub fn advance(&mut self, event: DiskEvent)
        requires
            old(self).well_formed(),
        ensures
            final(self).well_formed(),
            final(self).signal == old(self).signal,
            (final(self).accepted, final(self).durable, final(self).rounds_left, final(self).next)
                == old(self).after(event),
    {
        match (self.next, event) {
            (DiskStep::Watch, DiskEvent::Running(running)) => {
                if self.rounds_left == 0 {
                    self.next = DiskStep::End(DiskEnd::NoFault);
                } else if running {
                    self.next = DiskStep::Ingest;
                } else {
                    self.next = DiskStep::End(DiskEnd::ProcessExit);
                }
            },
            (DiskStep::Ingest, DiskEvent::Status(status)) => {
                if status != self.signal.expected_ingest_status() {
                    self.next = DiskStep::End(DiskEnd::IngestStatus(status));
                } else {
                    self.accepted = self.accepted + self.signal.disk_batch() as u64;
                    self.next = DiskStep::Flush;
                }
            },
            (DiskStep::Flush, DiskEvent::Status(status)) => {
                if status != 200 {
                    self.next = DiskStep::End(DiskEnd::FlushStatus(status));
                } else {
                    self.next = DiskStep::Count;
                }
            },
            (DiskStep::Count, DiskEvent::Counted(count)) => {
                let same: bool = match count {
                    Some(n) => n == self.accepted,
                    None => false,
                };
                if !same {
                    self.next = DiskStep::End(DiskEnd::PrefixMismatch);
                } else {
                    self.durable = self.accepted;
                    self.rounds_left = self.rounds_left - 1;
                    self.next = DiskStep::Watch;
                }
            },
            _ => {},
        }
    }

    /// Whether a reopened database has what was durable, and nothing that was
    /// not accepted.
    pub fn recovered(&self, count: u64) -> (yes: bool)
        ensures
            yes == (self.durable <= count <= self.accepted),
    {
        self.durable <= count && count <= self.accepted
    }
}

/// What was seen to be durable never shrinks, and stays within what was
/// accepted, whatever the events are.
pub proof fn durable_prefix_grows(probe: DiskProbe, event: DiskEvent)
    requires
        probe.well_formed(),
    ensures
        probe.durable <= probe.after(event).1 <= probe.after(event).0,
        probe.accepted <= probe.after(event).0,
{
}

} // verus!
