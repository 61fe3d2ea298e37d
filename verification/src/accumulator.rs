use vstd::prelude::*;
use vstd::string::StringExecFns;

use crate::device::DeviceInfo;
use crate::device::DeviceInfoV;
use crate::device::PropertySet;
use crate::device::device_of_lookup;
use crate::device::device_views;
use crate::device::props_view;
use crate::errors::DiscoveryError;
use crate::laws::DiscoveryV;
use crate::laws::accumulated;

verus! {

/// How long the loop suspends between two reads of the pause flag.
pub const PAUSE_POLL_MILLIS: u64 = 100;

/// One adapter-level notification, reduced to what the accumulator
/// distinguishes: a newly discovered identity, or anything else.
pub enum Event {
    Discovered(String),
    Other,
}

pub ghost enum EventV {
    Discovered(Seq<char>),
    Other,
}

impl View for Event {
    type V = EventV;

    open spec fn view(&self) -> EventV {
        match self {
            Event::Discovered(id) => EventV::Discovered(id@),
            Event::Other => EventV::Other,
        }
    }
}

/// Where the accumulator stands between two suspension points of its loop.
pub enum Phase {
    /// Ready to take the next event from the source.
    Idle,
    /// Holding an event while the pause flag is polled.
    Gated(Event),
    /// Waiting for the property lookup of a discovered identity.
    Lookup(String),
    /// Waiting for the outcome of publishing a snapshot.
    Sending,
    /// The run has ended with the given terminal result.
    Stopped(Result<(), DiscoveryError>),
}

#[verifier::ext_equal]
pub ghost enum PhaseV {
    Idle,
    Gated(EventV),
    Lookup(Seq<char>),
    Sending,
    Stopped(Result<(), DiscoveryError>),
}

impl View for Phase {
    type V = PhaseV;

    open spec fn view(&self) -> PhaseV {
        match self {
            Phase::Idle => PhaseV::Idle,
            Phase::Gated(ev) => PhaseV::Gated(ev@),
            Phase::Lookup(id) => PhaseV::Lookup(id@),
            Phase::Sending => PhaseV::Sending,
            Phase::Stopped(r) => PhaseV::Stopped(*r),
        }
    }
}

/// What the driver of the loop must do after a read of the pause flag.
pub enum GateStep {
    /// The flag is set: suspend for `PAUSE_POLL_MILLIS` and poll again.
    Sleep,
    /// The held event discovered this identity: look its properties up.
    Resolve(String),
    /// The held event is of no interest: take the next event.
    Skip,
}

/// The outcome of resolving a discovered identity against the source.
pub enum LookupOutcome {
    /// The source no longer knows the identity: the event is skipped.
    NoHandle,
    /// The property read errored: fatal to the whole run.
    Failed,
    /// The property read succeeded, possibly with no properties.
    Properties(Option<PropertySet>),
}

/// What the driver of the loop must do after a completed lookup.
pub enum LookupStep {
    /// Push this snapshot of the accumulated records to the consumer.
    Publish(Vec<DeviceInfo>),
    /// Take the next event.
    Skip,
    /// The run has failed with this error.
    Abort(DiscoveryError),
}

/// The discovery accumulator: an ordered, append-only sequence of device
/// records, together with the phase of its event-consumption loop. The
/// surrounding driver performs the suspensions (awaiting an event, sleeping
/// out a pause interval, sending a snapshot) and reports each outcome back;
/// every decision in between is made here.
pub struct Accumulator {
    devices: Vec<DeviceInfo>,
    phase: Phase,
    history: Ghost<Seq<DiscoveryV>>,
}

impl Accumulator {
    /// The accumulated records so far, in discovery order.
    pub closed spec fn devices_view(&self) -> Seq<DeviceInfoV> {
        device_views(self.devices@)
    }

    /// The phase of the loop.
    pub closed spec fn phase_view(&self) -> PhaseV {
        self.phase@
    }

    /// The discoveries processed so far, in order: the run this accumulator
    /// has performed, as `crate::laws` speaks of runs.
    pub closed spec fn history_view(&self) -> Seq<DiscoveryV> {
        self.history@
    }

    /// The records are exactly those accumulated over the processed
    /// discoveries: established at construction, preserved by every step,
    /// so every law proved of `accumulated` holds of this machine.
    pub open spec fn wf(&self) -> bool {
        self.devices_view() == accumulated(self.history_view())
    }

    /// A fresh accumulator: no records, no history, ready for the first
    /// event.
    pub fn new() -> (a: Accumulator)
        ensures
            a.devices_view() == Seq::<DeviceInfoV>::empty(),
            a.history_view() == Seq::<DiscoveryV>::empty(),
            a.phase_view() == PhaseV::Idle,
            a.wf(),
    {
        let a = Accumulator {
            devices: Vec::new(),
            phase: Phase::Idle,
            history: Ghost(Seq::empty()),
        };
        proof {
            assert(a.devices_view() =~= Seq::<DeviceInfoV>::empty());
        }
        a
    }

    /// Takes the next event from the source. No record changes; the event is
    /// held until the pause flag has been seen clear.
    pub fn accept_event(&mut self, event: Event)
        requires
            old(self).wf(),
            old(self).phase_view() == PhaseV::Idle,
        ensures
            final(self).wf(),
            final(self).devices_view() == old(self).devices_view(),
            final(self).history_view() == old(self).history_view(),
            final(self).phase_view() == PhaseV::Gated(event@),
    {
        self.phase = Phase::Gated(event);
    }

    /// The source is exhausted: the run ends cleanly.
    pub fn source_exhausted(&mut self)
        requires
            old(self).wf(),
            old(self).phase_view() == PhaseV::Idle,
        ensures
            final(self).wf(),
            final(self).devices_view() == old(self).devices_view(),
            final(self).history_view() == old(self).history_view(),
            final(self).phase_view() == PhaseV::Stopped(Ok(())),
    {
        self.phase = Phase::Stopped(Ok(()));
    }

    /// Acts on one read of the pause flag while an event is held. While the
    /// flag is set nothing is processed and nothing is published: the held
    /// event is retained unchanged and the driver is told to sleep. Once the
    /// flag reads clear, processing resumes with exactly the held event: a
    /// discovered identity moves on to its property lookup, any other event
    /// is dropped without touching the records.
    pub fn poll_pause(&mut self, paused: bool) -> (step: GateStep)
        requires
            old(self).wf(),
            old(self).phase_view() matches PhaseV::Gated(_),
        ensures
            final(self).wf(),
            final(self).devices_view() == old(self).devices_view(),
            final(self).history_view() == old(self).history_view(),
            paused ==> final(self).phase_view() == old(self).phase_view() && step == GateStep::Sleep,
            !paused ==> match old(self).phase_view() {
                PhaseV::Gated(EventV::Discovered(id)) => {
                    &&& final(self).phase_view() == PhaseV::Lookup(id)
                    &&& step matches GateStep::Resolve(s) && s@ == id
                },
                PhaseV::Gated(EventV::Other) => {
                    &&& final(self).phase_view() == PhaseV::Idle
                    &&& step == GateStep::Skip
                },
                _ => false,
            },
    {
        if paused {
            return GateStep::Sleep;
        }
        let discovered = match &self.phase {
            Phase::Gated(Event::Discovered(id)) => Some(id.clone()),
            _ => None,
        };
        match discovered {
            Some(id) => {
                let out = id.clone();
                self.phase = Phase::Lookup(id);
                GateStep::Resolve(out)
            }
            None => {
                self.phase = Phase::Idle;
                GateStep::Skip
            }
        }
    }

    /// Acts on the outcome of the property lookup of the identity under
    /// resolution. An identity the source no longer knows is skipped; an
    /// errored read aborts the run; a successful read (its missing
    /// properties replaced by the empty default) appends exactly one record
    /// and hands back the grown snapshot for publication.
    pub fn complete_lookup(&mut self, outcome: LookupOutcome) -> (step: LookupStep)
        requires
            old(self).wf(),
            old(self).phase_view() matches PhaseV::Lookup(_),
        ensures
            final(self).wf(),
            old(self).phase_view() matches PhaseV::Lookup(id) ==> {
                &&& (outcome matches LookupOutcome::NoHandle ==> {
                    &&& final(self).devices_view() == old(self).devices_view()
                    &&& final(self).history_view() == old(self).history_view()
                    &&& final(self).phase_view() == PhaseV::Idle
                    &&& step == LookupStep::Skip
                })
                &&& (outcome matches LookupOutcome::Failed ==> {
                    &&& final(self).devices_view() == old(self).devices_view()
                    &&& final(self).history_view() == old(self).history_view()
                    &&& final(self).phase_view() == PhaseV::Stopped(
                        Err(DiscoveryError::PropertyLookupFailed),
                    )
                    &&& step == LookupStep::Abort(DiscoveryError::PropertyLookupFailed)
                })
                &&& (outcome matches LookupOutcome::Properties(props) ==> {
                    &&& final(self).devices_view() == old(self).devices_view().push(
                        device_of_lookup(id, props_view(props)),
                    )
                    &&& final(self).history_view() == old(self).history_view().push(
                        DiscoveryV { id: id, props: props_view(props) },
                    )
                    &&& final(self).phase_view() == PhaseV::Sending
                    &&& step matches LookupStep::Publish(snap) && device_views(snap@)
                        == final(self).devices_view()
                })
            },
    {
        match outcome {
            LookupOutcome::NoHandle => {
                self.phase = Phase::Idle;
                LookupStep::Skip
            }
            LookupOutcome::Failed => {
                self.phase = Phase::Stopped(Err(DiscoveryError::PropertyLookupFailed));
                LookupStep::Abort(DiscoveryError::PropertyLookupFailed)
            }
            LookupOutcome::Properties(props) => {
                let id = match &self.phase {
                    Phase::Lookup(s) => s.clone(),
                    // Never taken: the precondition puts the phase at Lookup.
                    _ => String::from_str(""),
                };
                let ghost entry = DiscoveryV { id: id@, props: props_view(props) };
                let record = DeviceInfo::from_lookup(id, props);
                let ghost before = self.devices@;
                self.devices.push(record);
                self.history = Ghost(self.history@.push(entry));
                proof {
                    assert(device_views(self.devices@) =~= device_views(before).push(
                        self.devices@.last()@,
                    ));
                    assert(self.history@.drop_last() =~= old(self).history@);
                }
                self.phase = Phase::Sending;
                let snapshot = self.snapshot();
                LookupStep::Publish(snapshot)
            }
        }
    }

    /// Acts on the outcome of publishing a snapshot. A delivered snapshot
    /// lets the loop move on to the next event; a closed output channel ends
    /// the run with `OutputClosed`, and no further event is consumed.
    pub fn delivery_result(&mut self, delivered: bool) -> (r: Option<DiscoveryError>)
        requires
            old(self).wf(),
            old(self).phase_view() == PhaseV::Sending,
        ensures
            final(self).wf(),
            final(self).devices_view() == old(self).devices_view(),
            final(self).history_view() == old(self).history_view(),
            delivered ==> final(self).phase_view() == PhaseV::Idle && r
                == None::<DiscoveryError>,
            !delivered ==> final(self).phase_view() == PhaseV::Stopped(
                Err(DiscoveryError::OutputClosed),
            ) && r == Some(DiscoveryError::OutputClosed),
    {
        if delivered {
            self.phase = Phase::Idle;
            None
        } else {
            self.phase = Phase::Stopped(Err(DiscoveryError::OutputClosed));
            Some(DiscoveryError::OutputClosed)
        }
    }

    /// How many records have been accumulated so far.
    pub fn device_count(&self) -> (n: usize)
        ensures
            n == self.devices_view().len(),
    {
        self.devices.len()
    }

    /// Whether the loop is ready to take the next event.
    pub fn is_idle(&self) -> (b: bool)
        ensures
            b == (self.phase_view() == PhaseV::Idle),
    {
        matches!(self.phase, Phase::Idle)
    }

    /// Whether the run has ended.
    pub fn is_stopped(&self) -> (b: bool)
        ensures
            b == (self.phase_view() matches PhaseV::Stopped(_)),
    {
        matches!(self.phase, Phase::Stopped(_))
    }

    /// The terminal result of the run, once it has ended.
    pub fn terminal_result(&self) -> (r: Option<Result<(), DiscoveryError>>)
        ensures
            match self.phase_view() {
                PhaseV::Stopped(res) => r == Some(res),
                _ => r is None,
            },
    {
        match &self.phase {
            Phase::Stopped(res) => Some(*res),
            _ => None,
        }
    }

    /// An independent copy of the accumulated records, in discovery order.
    fn snapshot(&self) -> (r: Vec<DeviceInfo>)
        ensures
            device_views(r@) == self.devices_view(),
    {
        let mut r: Vec<DeviceInfo> = Vec::new();
        let mut i: usize = 0;
        while i < self.devices.len()
            invariant
                i <= self.devices.len(),
                r@.len() == i,
                forall|j: int| 0 <= j < i ==> #[trigger] r@[j]@ == self.devices@[j]@,
            decreases self.devices.len() - i,
        {
            r.push(self.devices[i].clone());
            i = i + 1;
        }
        proof {
            assert(device_views(r@) =~= device_views(self.devices@));
        }
        r
    }
}

/// Picks the adapter a run uses: the first one enumerated; with none
/// enumerated the run fails with `AdapterUnavailable`.
pub fn select_adapter(count: usize) -> (r: Result<usize, DiscoveryError>)
    ensures
        count == 0 ==> r == Err::<usize, DiscoveryError>(DiscoveryError::AdapterUnavailable),
        count > 0 ==> r == Ok::<usize, DiscoveryError>(0usize),
{
    if count == 0 {
        Err(DiscoveryError::AdapterUnavailable)
    } else {
        Ok(0)
    }
}

/// Maps the adapter's answer to a scan request onto the run's error
/// taxonomy: a rejected request is `ScanStartFailed`.
pub fn scan_start_result(accepted: bool) -> (r: Result<(), DiscoveryError>)
    ensures
        accepted ==> r == Ok::<(), DiscoveryError>(()),
        !accepted ==> r == Err::<(), DiscoveryError>(DiscoveryError::ScanStartFailed),
{
    if accepted {
        Ok(())
    } else {
        Err(DiscoveryError::ScanStartFailed)
    }
}

} // verus!
