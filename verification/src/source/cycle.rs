//! One capture cycle as a state machine. [`begin`] takes what the graph and the
//! device show at the start of the cycle; from then on the machine names one
//! operation at a time and [`step`] takes the operation's result, until the cycle
//! is done.
use vstd::prelude::*;

use crate::abi;
use crate::arith::{imax, imin, sat32};
use crate::device::{DevicePhase, IoStatus, ReadOutcome};
use crate::port::{
    counter_delta, device_event_fill, event_fill_of, take_device_event_xruns, take_fallback_xruns,
    Port,
};
use crate::sink::cycle::DriverClock;
use crate::source::geometry::{
    fragment_cap, layout_of, plan_retune, prime_capture, prime_layout, primed, retune_planned, retune_stopped,
    retune_suspended, CaptureLayout, RetunePlan, SourcePort, SourcePortExt,
};
use crate::source::read::{
    finish_overrun_recovery, floor_to_frames, followed, follower_error, follower_servo,
    output_length, overrun_counted, overrun_recovered, pinned_after, plan_read, read_length,
    read_taken, reads_are_bounded, recover_overrun, take_read, whole_frames, PINNED_CYCLE_LIMIT,
};
use crate::timing::{device_period_bytes, frame_bytes_in, ns_to_frame_bytes, period_bytes};

verus! {

/// The buffer id that stands for none.
pub const NO_BUFFER: u32 = 0xffff_ffff;

/// What a capture cycle starts from.
#[derive(Debug, Clone, Copy, PartialEq, Eq)]
pub struct SourceInput {
    /// The device's descriptor.
    pub fd: Option<i32>,
    pub phase: DevicePhase,
    /// A rebuild of the device is still in flight.
    pub rebuilding: bool,
    /// The host registered buffers and an exchange area.
    pub negotiated: bool,
    /// The status in the exchange area.
    pub status: i32,
    /// The buffer named in the exchange area, [`NO_BUFFER`] for none.
    pub buffer_id: u32,
    /// The driver's clock, `None` while the graph has no position.
    pub clock: Option<DriverClock>,
    /// The node follows another driver.
    pub following: bool,
    /// The driver runs on this device's clock.
    pub same_clock: bool,
    /// The largest negotiable period in bytes.
    pub max_period: u32,
    /// The configured fragment size, 0 for the device's own choice.
    pub fragment: u32,
    /// The hardware's delivery interval in nanoseconds.
    pub hw_quantum_ns: u64,
    /// The time of this call in nanoseconds.
    pub now: u64,
}

impl SourceInput {
    /// The node follows a driver on a foreign clock, which it has to match.
    pub open spec fn matching(self) -> bool {
        self.following && !self.same_clock
    }

    /// The graph runs faster than real time.
    pub open spec fn freewheels(self) -> bool {
        self.clock matches Some(clock) && clock.flags & abi::CLOCK_FLAG_FREEWHEEL != 0
    }
}

/// Where a capture cycle waits.
#[derive(Debug, Clone, Copy, PartialEq, Eq, Structural)]
pub enum SourceStage {
    /// A rebuild of a closed device is being queued.
    RebuildingClosed,
    /// The output buffer is being mapped.
    Mapping,
    /// The channel is being stopped for a new layout.
    RetuneStop,
    /// A rebuild is being queued after the device refused to stop.
    RebuildingRefused,
    /// The ring layout is being set.
    PrimeLayout,
    /// The channel is being triggered.
    PrimeTrigger,
    /// The backlog is being discarded.
    Draining { backlog: u32, fragment: u32, ring: u32 },
    /// The queue is being measured.
    Filling,
    /// The rate servo is being fed.
    Feeding { queued: u32 },
    /// The data is being read.
    Reading { length: u32 },
    /// The error counter is being read.
    Xruns,
    /// The channel is being stopped for a recovery.
    RecoverStop,
    Done,
}

/// The data of an output buffer: `length` bytes, silence from `silence_from` on.
#[derive(Debug, Clone, Copy, PartialEq, Eq, Structural)]
pub struct SourceData {
    pub length: u32,
    pub silence_from: u32,
}

/// What goes into the exchange area.
#[derive(Debug, Clone, Copy, PartialEq, Eq, Structural)]
pub struct SourceIo {
    pub buffer_id: u32,
    pub status: i32,
}

/// How a capture cycle ended.
#[derive(Debug, Clone, Copy, PartialEq, Eq, Structural)]
pub struct SourceOutcome {
    /// The buffer and the status to put into the exchange area; `None` leaves it.
    pub io: Option<SourceIo>,
    /// The data to publish in that buffer.
    pub data: Option<SourceData>,
    /// The status bits that the cycle returns.
    pub result: i32,
    /// Whether rate matching is to be published as active; `None` leaves it.
    pub rate_match: Option<bool>,
}

/// The next operation of a capture cycle.
#[derive(Debug, Clone, Copy, PartialEq, Eq, Structural)]
pub enum SourceAction {
    /// Hand the device to the rebuild worker.
    QueueRebuild,
    /// Map the buffer with this id.
    MapBuffer(u32),
    /// Stop the channel, dropping its queue.
    Stop,
    /// Ask for this ring layout.
    SetLayout(CaptureLayout),
    /// Trigger the channel and report its layout.
    Trigger,
    /// Measure the queued bytes.
    MeasureFill,
    /// Feed the rate servo this error, in half bytes.
    FeedServo(i64),
    /// Read this many bytes into the start of the buffer.
    Read(u32),
    /// Read, and thereby clear, the error counter.
    ReadXruns,
    Done(SourceOutcome),
}

/// The result of an operation.
#[derive(Debug, Clone, Copy, PartialEq, Eq, Structural)]
pub enum SourceReply {
    Queued(bool),
    /// The mapped buffer's size, `None` where it is unusable.
    Mapped(Option<u32>),
    Stopped(bool),
    LayoutSet,
    /// The triggered channel: whether it can be read, what it queued, and the
    /// layout that it was granted.
    Triggered { running: bool, ready: bool, queued: u32, fragment: u32, ring: u32 },
    Fill(u32),
    Fed,
    Read(ReadOutcome),
    Xruns(u32),
}

/// A capture cycle in progress.
#[derive(Debug, Clone, Copy, PartialEq, Eq)]
pub struct SourceCycle {
    pub input: SourceInput,
    pub stage: SourceStage,
    pub stride: u32,
    pub rate: u32,
    /// Device bytes per graph cycle; 0 while the graph has no position.
    pub period: u32,
    /// The hardware's transfer size in bytes.
    pub chunk: u32,
    /// The channel is triggered.
    pub running: bool,
    pub buffer_id: u32,
    /// The size of the output buffer.
    pub maxsize: u32,
    /// The queue before this cycle's read, where it was measured.
    pub pre_read_fill: Option<u32>,
    /// The output, once it is decided.
    pub data: Option<SourceData>,
    /// Whether rate matching was active, once that is decided.
    pub rate_match: Option<bool>,
}

/// A machine, its port, and the operation that it asks for.
pub type SourceStep = (SourceCycle, SourcePort, SourceAction);

impl SourceStage {
    /// Whether `reply` is a result of the operation that this stage waits for,
    /// where `asked` bytes were asked of a read.
    pub open spec fn accepts(self, reply: SourceReply, asked: int) -> bool {
        match self {
            SourceStage::RebuildingClosed | SourceStage::RebuildingRefused => reply is Queued,
            SourceStage::Mapping => reply is Mapped,
            SourceStage::RetuneStop | SourceStage::RecoverStop => reply is Stopped,
            SourceStage::PrimeLayout => reply is LayoutSet,
            SourceStage::PrimeTrigger => reply is Triggered,
            SourceStage::Draining { .. } | SourceStage::Reading { .. } => {
                reply matches SourceReply::Read(read) && read.bytes <= asked
            },
            SourceStage::Filling => reply is Fill,
            SourceStage::Feeding { .. } => reply is Fed,
            SourceStage::Xruns => reply is Xruns,
            SourceStage::Done => false,
        }
    }

    /// Whether this stage waits for the result of `action`.
    pub open spec fn awaits(self, action: SourceAction) -> bool {
        match self {
            SourceStage::RebuildingClosed | SourceStage::RebuildingRefused => action
                is QueueRebuild,
            SourceStage::Mapping => action is MapBuffer,
            SourceStage::RetuneStop | SourceStage::RecoverStop => action is Stop,
            SourceStage::PrimeLayout => action is SetLayout,
            SourceStage::PrimeTrigger => action is Trigger,
            SourceStage::Draining { .. } | SourceStage::Reading { .. } => action is Read,
            SourceStage::Filling => action is MeasureFill,
            SourceStage::Feeding { .. } => action is FeedServo,
            SourceStage::Xruns => action is ReadXruns,
            SourceStage::Done => action is Done,
        }
    }

    /// How many further stages may follow.
    pub open spec fn rank(self) -> nat {
        match self {
            SourceStage::Mapping => 9,
            SourceStage::RetuneStop => 8,
            SourceStage::RebuildingRefused => 7,
            SourceStage::PrimeLayout => 6,
            SourceStage::PrimeTrigger | SourceStage::Filling => 5,
            SourceStage::Draining { .. } | SourceStage::Feeding { .. } => 4,
            SourceStage::Reading { .. } => 3,
            SourceStage::Xruns => 2,
            SourceStage::RecoverStop | SourceStage::RebuildingClosed => 1,
            SourceStage::Done => 0,
        }
    }

    /// The backlog that is left to discard.
    pub open spec fn backlog(self) -> nat {
        match self {
            SourceStage::Draining { backlog, .. } => backlog as nat,
            _ => 0,
        }
    }
}

impl SourceCycle {
    /// The machine at another stage.
    pub open spec fn at(self, stage: SourceStage) -> SourceCycle {
        SourceCycle { stage, ..self }
    }

    /// How many bytes the read in progress asked for.
    pub open spec fn asked(self) -> int {
        match self.stage {
            SourceStage::Draining { backlog, .. } => whole_frames(
                imin(backlog as int, self.maxsize as int),
                self.stride as int,
            ),
            SourceStage::Reading { length } => length as int,
            _ => 0,
        }
    }

    /// What holds of a machine between two steps: reads and outputs lie inside the
    /// buffer.
    pub open spec fn wf(self) -> bool {
        &&& self.stride > 0
        &&& self.stage is Mapping ==> self.data is None
        &&& self.data matches Some(data) ==> data.silence_from <= data.length <= self.maxsize
        &&& self.stage matches SourceStage::Reading { length } ==> length <= self.maxsize
        &&& self.stage matches SourceStage::Draining { backlog, .. } ==> 0 < self.asked()
            <= self.maxsize && self.asked() <= backlog
    }
}

/// The cycle ends without touching the exchange area.
pub open spec fn idle(cycle: SourceCycle, port: SourcePort, result: i32) -> SourceStep {
    (
        cycle.at(SourceStage::Done),
        port,
        SourceAction::Done(SourceOutcome { io: None, data: None, result, rate_match: None }),
    )
}

/// The cycle ends: with data, the buffer is published; without, it stays free.
pub open spec fn published(cycle: SourceCycle, port: SourcePort) -> SourceStep {
    let status = if cycle.data is Some {
        abi::STATUS_HAVE_DATA
    } else {
        abi::STATUS_OK
    };
    (
        cycle.at(SourceStage::Done),
        port,
        SourceAction::Done(
            SourceOutcome {
                io: Some(SourceIo { buffer_id: cycle.buffer_id, status }),
                data: cycle.data,
                result: status,
                rate_match: cycle.rate_match,
            },
        ),
    )
}

/// After the error counter was taken.
pub open spec fn after_overruns(cycle: SourceCycle, port: SourcePort, overruns: u32) -> SourceStep {
    if overruns > 0 {
        let counted = overrun_counted(port, cycle.pre_read_fill, cycle.input.now);
        if pinned_after(port, cycle.pre_read_fill) >= PINNED_CYCLE_LIMIT {
            (cycle.at(SourceStage::RecoverStop), counted, SourceAction::Stop)
        } else {
            published(cycle, counted)
        }
    } else {
        published(cycle, Port { ext: SourcePortExt { pinned_cycles: 0, ..port.ext }, ..port })
    }
}

/// The output is decided: overruns of a running channel are weighed, except while
/// freewheeling, when the ring overruns by design.
#[verifier::opaque]
pub open spec fn output_phase(
    cycle: SourceCycle,
    port: SourcePort,
    data: Option<SourceData>,
) -> SourceStep {
    let matching = cycle.input.matching();
    let port = Port { was_matching: matching, ..port };
    let rate_match = if data is Some {
        Some(matching)
    } else {
        None
    };
    let cycle = SourceCycle { data, rate_match, ..cycle };
    if cycle.running && !cycle.input.freewheels() {
        match port.current_event(cycle.input.fd) {
            Some(event) => after_overruns(
                cycle,
                Port { event_xruns_seen: event.xruns, ..port },
                counter_delta(event.xruns, port.event_xruns_seen),
            ),
            None => (cycle.at(SourceStage::Xruns), port, SourceAction::ReadXruns),
        }
    } else {
        after_overruns(cycle, port, 0)
    }
}

/// After the read.
pub open spec fn after_read(cycle: SourceCycle, port: SourcePort, read: ReadOutcome) -> SourceStep {
    output_phase(
        cycle,
        read_taken(port, read),
        Some(
            SourceData {
                length: output_length(port, read.bytes as int, cycle.maxsize as int) as u32,
                silence_from: read.bytes as u32,
            },
        ),
    )
}

/// The read phase; a queue without a whole frame is not read at all.
#[verifier::opaque]
pub open spec fn read_phase(cycle: SourceCycle, port: SourcePort, queued: u32) -> SourceStep {
    let length = read_length(port, queued, cycle.maxsize, cycle.stride) as u32;
    if length > 0 {
        (cycle.at(SourceStage::Reading { length }), port, SourceAction::Read(length))
    } else {
        after_read(cycle, port, ReadOutcome { bytes: 0, status: IoStatus::Progress })
    }
}

/// Whether the rate servo runs in this cycle: the node matches a foreign clock at
/// a committed and stable geometry.
pub open spec fn follows(cycle: SourceCycle, port: SourcePort) -> bool {
    cycle.input.matching() && cycle.period > 0 && port.setup_period != 0
        && port.ext.period_mismatch == 0
}

/// After the queue was measured.
#[verifier::opaque]
pub open spec fn after_fill(cycle: SourceCycle, port: SourcePort, queued: u32) -> SourceStep {
    let cycle = SourceCycle { pre_read_fill: Some(queued), ..cycle };
    if follows(cycle, port) {
        let after = followed(port, queued, cycle.stride);
        match follower_error(port, queued, cycle.stride) {
            Some(err) => (
                cycle.at(SourceStage::Feeding { queued }),
                after,
                SourceAction::FeedServo(err),
            ),
            None => read_phase(cycle, after, queued),
        }
    } else {
        read_phase(cycle, port, queued)
    }
}

/// A period of silence, as far as it fits.
pub open spec fn silent(cycle: SourceCycle) -> Option<SourceData> {
    Some(
        SourceData {
            length: imin(cycle.period as int, cycle.maxsize as int) as u32,
            silence_from: 0,
        },
    )
}

/// The backlog is gone: the geometry is committed, and the graph gets a period of
/// silence while the ring fills.
pub open spec fn prime_done(
    cycle: SourceCycle,
    port: SourcePort,
    fragment: u32,
    ring: u32,
) -> SourceStep {
    output_phase(
        cycle,
        primed(port, cycle.period, ring, fragment, cycle.chunk),
        silent(cycle),
    )
}

/// The rest of the backlog is discarded, in whole frames and buffers.
#[verifier::opaque]
pub open spec fn draining(
    cycle: SourceCycle,
    port: SourcePort,
    backlog: u32,
    fragment: u32,
    ring: u32,
) -> SourceStep {
    let length = whole_frames(imin(backlog as int, cycle.maxsize as int), cycle.stride as int);
    if length > 0 {
        (
            cycle.at(SourceStage::Draining { backlog, fragment, ring }),
            port,
            SourceAction::Read(length as u32),
        )
    } else {
        prime_done(cycle, port, fragment, ring)
    }
}

/// The port at the entry of the data phase: leaving freewheel primes again.
pub open spec fn freewheel_noted(port: SourcePort, freewheels: bool) -> SourcePort {
    Port {
        ext: SourcePortExt {
            primed: port.ext.primed && !(port.ext.was_freewheeling && !freewheels),
            was_freewheeling: freewheels,
            ..port.ext
        },
        ..port
    }
}

/// The data phase: silence while freewheeling, priming, or a measured read.
#[verifier::opaque]
pub open spec fn data_phase(cycle: SourceCycle, port: SourcePort) -> SourceStep {
    let input = cycle.input;
    let port = freewheel_noted(port, input.freewheels());
    if input.freewheels() && cycle.period > 0 {
        output_phase(cycle, port, silent(cycle))
    } else if !port.ext.primed && cycle.period > 0 {
        if cycle.running {
            (cycle.at(SourceStage::PrimeTrigger), port, SourceAction::Trigger)
        } else {
            (
                cycle.at(SourceStage::PrimeLayout),
                port,
                SourceAction::SetLayout(
                    layout_of(
                        cycle.period,
                        input.max_period,
                        input.fragment,
                        cycle.stride,
                        cycle.rate,
                    ),
                ),
            )
        }
    } else if !cycle.running {
        output_phase(cycle, port, None)
    } else {
        match event_fill_of(&port, false, input.fd) {
            Some(queued) => after_fill(cycle, port, queued),
            None => (cycle.at(SourceStage::Filling), port, SourceAction::MeasureFill),
        }
    }
}

/// After the output buffer was mapped.
pub open spec fn after_map(cycle: SourceCycle, port: SourcePort, mapped: Option<u32>) -> SourceStep {
    match mapped {
        Some(maxsize) => {
            let cycle = SourceCycle { maxsize, ..cycle };
            let (planned, plan) = retune_planned(port, cycle.period);
            match plan {
                RetunePlan::Continue => data_phase(cycle, planned),
                RetunePlan::Suspend => (
                    cycle.at(SourceStage::RetuneStop),
                    planned,
                    SourceAction::Stop,
                ),
            }
        },
        None => idle(cycle, port, abi::STATUS_OK),
    }
}

/// One graph cycle in device bytes, 0 while the graph has no position or no rate.
pub open spec fn cycle_period(port: SourcePort, input: SourceInput) -> u32 {
    match input.clock {
        Some(clock) => period_bytes(
            clock.target_duration,
            port.rate(),
            clock.target_rate,
            port.stride(),
        ),
        None => 0,
    }
}

/// The first operation of a cycle.
pub open spec fn begun(port: SourcePort, input: SourceInput) -> SourceStep {
    let cycle = SourceCycle {
        input,
        stage: SourceStage::Done,
        stride: port.stride(),
        rate: port.rate(),
        period: cycle_period(port, input),
        chunk: frame_bytes_in(input.hw_quantum_ns, port.rate(), port.stride()),
        running: input.phase == DevicePhase::Running,
        buffer_id: input.buffer_id,
        maxsize: 0,
        pre_read_fill: None,
        data: None,
        rate_match: None,
    };
    if input.rebuilding || port.config is None || !input.negotiated {
        idle(cycle, port, abi::STATUS_OK)
    } else if input.phase == DevicePhase::Closed {
        (cycle.at(SourceStage::RebuildingClosed), port, SourceAction::QueueRebuild)
    } else if input.status == abi::STATUS_HAVE_DATA {
        idle(cycle, port, abi::STATUS_HAVE_DATA)
    } else if input.status != abi::STATUS_OK && input.status != abi::STATUS_NEED_DATA {
        idle(cycle, port, abi::STATUS_OK)
    } else if input.buffer_id == NO_BUFFER {
        let buffer_id = port.ext.active_buffers;
        (
            SourceCycle { buffer_id, ..cycle }.at(SourceStage::Mapping),
            Port {
                ext: SourcePortExt {
                    active_buffers: port.ext.active_buffers.wrapping_add(1),
                    ..port.ext
                },
                ..port
            },
            SourceAction::MapBuffer(buffer_id),
        )
    } else {
        (cycle.at(SourceStage::Mapping), port, SourceAction::MapBuffer(input.buffer_id))
    }
}

/// What a reply leads to.
pub open spec fn stepped(cycle: SourceCycle, port: SourcePort, reply: SourceReply) -> SourceStep {
    match (cycle.stage, reply) {
        (SourceStage::RebuildingClosed, SourceReply::Queued(_)) => idle(cycle, port, abi::STATUS_OK),
        (SourceStage::Mapping, SourceReply::Mapped(mapped)) => after_map(cycle, port, mapped),
        (SourceStage::RetuneStop, SourceReply::Stopped(accepted)) => if accepted {
            data_phase(SourceCycle { running: false, ..cycle }, retune_stopped(port, true))
        } else {
            (cycle.at(SourceStage::RebuildingRefused), port, SourceAction::QueueRebuild)
        },
        (SourceStage::RebuildingRefused, SourceReply::Queued(queued)) => if queued {
            idle(cycle, port, abi::STATUS_OK)
        } else {
            data_phase(cycle, port)
        },
        (SourceStage::PrimeLayout, SourceReply::LayoutSet) => (
            cycle.at(SourceStage::PrimeTrigger),
            port,
            SourceAction::Trigger,
        ),
        (
            SourceStage::PrimeTrigger,
            SourceReply::Triggered { running, ready, queued, fragment, ring },
        ) => {
            let cycle = SourceCycle { running, ..cycle };
            if ready {
                draining(cycle, port, queued, fragment, ring)
            } else {
                prime_done(cycle, port, fragment, ring)
            }
        },
        (SourceStage::Draining { backlog, fragment, ring }, SourceReply::Read(read)) => {
            let port = read_taken(port, read);
            if read.bytes == 0 {
                prime_done(cycle, port, fragment, ring)
            } else {
                draining(cycle, port, (backlog - read.bytes) as u32, fragment, ring)
            }
        },
        (SourceStage::Filling, SourceReply::Fill(queued)) => after_fill(cycle, port, queued),
        (SourceStage::Feeding { queued }, SourceReply::Fed) => read_phase(cycle, port, queued),
        (SourceStage::Reading { .. }, SourceReply::Read(read)) => after_read(cycle, port, read),
        (SourceStage::Xruns, SourceReply::Xruns(total)) => after_overruns(
            cycle,
            Port { event_xruns_seen: 0, ..port },
            counter_delta(total, port.event_xruns_seen),
        ),
        (SourceStage::RecoverStop, SourceReply::Stopped(stopped)) => published(
            cycle,
            overrun_recovered(port, stopped),
        ),
        _ => idle(cycle, port, abi::STATUS_OK),
    }
}

/// A step leaves a sound machine that waits for the operation it named.
pub open spec fn sound_step(next: SourceStep) -> bool {
    &&& next.0.wf()
    &&& next.0.stage.awaits(next.2)
    &&& next.2 matches SourceAction::Read(length) ==> length == next.0.asked()
    &&& next.2 matches SourceAction::Done(outcome) ==> (outcome.data matches Some(data)
        ==> data.silence_from <= data.length <= next.0.maxsize)
}

proof fn output_is_sound(cycle: SourceCycle, port: SourcePort, data: Option<SourceData>)
    requires
        cycle.wf(),
        data matches Some(data) ==> data.silence_from <= data.length <= cycle.maxsize,
    ensures
        sound_step(output_phase(cycle, port, data)),
        output_phase(cycle, port, data).0.stage.rank() <= 2,
{
    reveal(output_phase);
}

proof fn data_is_sound(cycle: SourceCycle, port: SourcePort, read: ReadOutcome)
    requires
        cycle.wf(),
        read.bytes <= cycle.maxsize,
    ensures
        sound_step(after_read(cycle, port, read)),
        after_read(cycle, port, read).0.stage.rank() <= 2,
{
    output_is_sound(
        cycle,
        read_taken(port, read),
        Some(
            SourceData {
                length: output_length(port, read.bytes as int, cycle.maxsize as int) as u32,
                silence_from: read.bytes as u32,
            },
        ),
    );
}

proof fn prime_is_sound(cycle: SourceCycle, port: SourcePort, fragment: u32, ring: u32)
    requires
        cycle.wf(),
    ensures
        sound_step(prime_done(cycle, port, fragment, ring)),
        prime_done(cycle, port, fragment, ring).0.stage.rank() <= 2,
{
    output_is_sound(
        cycle,
        primed(port, cycle.period, ring, fragment, cycle.chunk),
        silent(cycle),
    );
}

proof fn read_is_sound(cycle: SourceCycle, port: SourcePort, queued: u32)
    requires
        cycle.wf(),
    ensures
        sound_step(read_phase(cycle, port, queued)),
        read_phase(cycle, port, queued).0.stage.rank() <= 3,
        sound_step(after_fill(cycle, port, queued)),
        after_fill(cycle, port, queued).0.stage.rank() <= 4,
{
    reveal(read_phase);
    reveal(after_fill);
    let nothing = ReadOutcome { bytes: 0, status: IoStatus::Progress };
    let after = followed(port, queued, cycle.stride);
    let measured = SourceCycle { pre_read_fill: Some(queued), ..cycle };
    reads_are_bounded(port, queued, cycle.maxsize, cycle.stride);
    reads_are_bounded(after, queued, cycle.maxsize, cycle.stride);
    data_is_sound(cycle, port, nothing);
    data_is_sound(measured, port, nothing);
    data_is_sound(measured, after, nothing);
}

proof fn draining_is_sound(
    cycle: SourceCycle,
    port: SourcePort,
    backlog: u32,
    fragment: u32,
    ring: u32,
)
    requires
        cycle.wf(),
    ensures
        sound_step(draining(cycle, port, backlog, fragment, ring)),
        ({
            let stage = draining(cycle, port, backlog, fragment, ring).0.stage;
            stage.rank() <= 3 || (stage.rank() == 4 && stage.backlog() == backlog)
        }),
{
    reveal(draining);
    prime_is_sound(cycle, port, fragment, ring);
    let bytes = imin(backlog as int, cycle.maxsize as int);
    let s = cycle.stride as int;
    assert(0 <= bytes / s * s <= bytes) by (nonlinear_arith)
        requires
            bytes >= 0,
            s > 0,
    ;
}

proof fn data_phase_is_sound(cycle: SourceCycle, port: SourcePort)
    requires
        cycle.wf(),
    ensures
        sound_step(data_phase(cycle, port)),
        data_phase(cycle, port).0.stage.rank() <= 6,
{
    reveal(data_phase);
    let noted = freewheel_noted(port, cycle.input.freewheels());
    output_is_sound(cycle, noted, silent(cycle));
    output_is_sound(cycle, noted, None);
    if let Some(queued) = event_fill_of(&noted, false, cycle.input.fd) {
        read_is_sound(cycle, noted, queued);
    }
}

/// Every cycle starts soundly, whatever the graph and the device show.
pub proof fn beginning_is_sound(port: SourcePort, input: SourceInput)
    ensures
        sound_step(begun(port, input)),
{
}

/// Every step brings the cycle nearer to its end: it reaches a later stage, or
/// discards a part of the backlog. Reads and published data stay inside the
/// buffer, whatever the device answers.
pub proof fn every_step_makes_progress(cycle: SourceCycle, port: SourcePort, reply: SourceReply)
    requires
        cycle.wf(),
        cycle.stage.accepts(reply, cycle.asked()),
    ensures
        ({
            let next = stepped(cycle, port, reply);
            &&& sound_step(next)
            &&& next.0.stage.rank() < cycle.stage.rank() || (next.0.stage.rank()
                == cycle.stage.rank() && next.0.stage.backlog() < cycle.stage.backlog())
        }),
{
    match (cycle.stage, reply) {
        (SourceStage::Mapping, SourceReply::Mapped(Some(maxsize))) => {
            data_phase_is_sound(
                SourceCycle { maxsize, ..cycle },
                retune_planned(port, cycle.period).0,
            );
        },
        (SourceStage::RetuneStop, _) => {
            data_phase_is_sound(
                SourceCycle { running: false, ..cycle },
                retune_stopped(port, true),
            );
        },
        (SourceStage::RebuildingRefused, _) => {
            data_phase_is_sound(cycle, port);
        },
        (
            SourceStage::PrimeTrigger,
            SourceReply::Triggered { running, queued, fragment, ring, .. },
        ) => {
            draining_is_sound(SourceCycle { running, ..cycle }, port, queued, fragment, ring);
            prime_is_sound(SourceCycle { running, ..cycle }, port, fragment, ring);
        },
        (SourceStage::Draining { backlog, fragment, ring }, SourceReply::Read(read)) => {
            draining_is_sound(
                cycle,
                read_taken(port, read),
                (backlog - read.bytes) as u32,
                fragment,
                ring,
            );
            prime_is_sound(cycle, read_taken(port, read), fragment, ring);
        },
        (SourceStage::Reading { .. }, SourceReply::Read(read)) => {
            data_is_sound(cycle, port, read);
        },
        (SourceStage::Filling, SourceReply::Fill(queued)) => {
            read_is_sound(cycle, port, queued);
        },
        (SourceStage::Feeding { queued }, _) => {
            read_is_sound(cycle, port, queued);
        },
        _ => {},
    }
}

impl SourceInput {
    fn matching_now(&self) -> (matching: bool)
        ensures
            matching == self.matching(),
    {
        self.following && !self.same_clock
    }

    fn freewheels_now(&self) -> (freewheels: bool)
        ensures
            freewheels == self.freewheels(),
    {
        match self.clock {
            Some(clock) => clock.flags & abi::CLOCK_FLAG_FREEWHEEL != 0,
            None => false,
        }
    }
}

/// While the graph freewheels the device is not touched: the graph gets a period of
/// silence, as far as it fits, and the ring is primed again afterwards.
pub proof fn freewheel_leaves_the_device_alone(cycle: SourceCycle, port: SourcePort)
    requires
        cycle.input.freewheels(),
        cycle.period > 0,
    ensures
        ({
            let next = data_phase(cycle, port);
            &&& next.2 matches SourceAction::Done(outcome) && outcome.data == silent(cycle)
                && outcome.result == abi::STATUS_HAVE_DATA
            &&& next.1.ext.was_freewheeling
            &&& !freewheel_noted(next.1, false).ext.primed
        }),
{
    reveal(data_phase);
    reveal(output_phase);
}

/// A late device does not shorten the graph's cycle: whatever was read, the output is
/// at least a period, as far as it fits, and silence behind the data.
pub proof fn output_is_a_whole_period(cycle: SourceCycle, port: SourcePort, read: ReadOutcome)
    requires
        cycle.wf(),
        read.bytes <= cycle.maxsize,
    ensures
        after_read(cycle, port, read).0.data matches Some(data) && data.length >= imin(
            port.setup_period as int,
            cycle.maxsize as int,
        ) && data.length >= read.bytes && data.silence_from == read.bytes,
{
    reveal(output_phase);
}

/// Priming hands the graph a period of silence and commits the geometry of that period.
pub proof fn priming_hands_out_silence(
    cycle: SourceCycle,
    port: SourcePort,
    fragment: u32,
    ring: u32,
)
    ensures
        ({
            let next = prime_done(cycle, port, fragment, ring);
            &&& next.0.data == silent(cycle)
            &&& next.1.setup_period == cycle.period
            &&& next.1.ext.ring_size == ring
        }),
{
    reveal(output_phase);
}

proof fn small_fragment_is_kept(period: u32, fragment: u32)
    ensures
        fragment <= 1024 ==> fragment <= fragment_cap(period),
{
    let wide = imax(period as int, 1024) as nat;
    crate::arith::floor_pow2_is_the_largest(wide);
    crate::arith::floor_pow2_of_power(10);
    vstd::arithmetic::power2::lemma2_to64();
    crate::arith::floor_pow2_grows(1024, wide);
}

/// A cycle that fills a buffer: a format, an exchange area, an open device and no rebuild.
pub open spec fn able(port: SourcePort, input: SourceInput) -> bool {
    port.config is Some && input.negotiated && !input.rebuilding && input.phase
        != DevicePhase::Closed
}

/// A free exchange area is filled in this cycle: the buffer that the host gave back is
/// mapped, or, where it gave none, the next one that was never handed out, and each of
/// those once. Data that waits is left there, and an area in any other state is left alone.
pub proof fn free_area_gets_a_buffer(port: SourcePort, input: SourceInput)
    requires
        able(port, input),
    ensures
        ({
            let next = begun(port, input);
            let free = input.status == abi::STATUS_OK || input.status == abi::STATUS_NEED_DATA;
            &&& free && input.buffer_id != NO_BUFFER ==> next.2 == SourceAction::MapBuffer(
                input.buffer_id,
            ) && next.0.buffer_id == input.buffer_id && next.1 == port
            &&& free && input.buffer_id == NO_BUFFER ==> {
                &&& next.2 == SourceAction::MapBuffer(port.ext.active_buffers)
                &&& next.0.buffer_id == port.ext.active_buffers
                &&& port.ext.active_buffers < u32::MAX ==> next.1.ext.active_buffers
                    == port.ext.active_buffers + 1
                &&& next.1 == (Port {
                    ext: SourcePortExt {
                        active_buffers: next.1.ext.active_buffers,
                        ..port.ext
                    },
                    ..port
                })
            }
            &&& free ==> next.0.stage == SourceStage::Mapping
            &&& !free ==> next.1 == port && next.2 == SourceAction::Done(
                SourceOutcome {
                    io: None,
                    data: None,
                    result: if input.status == abi::STATUS_HAVE_DATA {
                        abi::STATUS_HAVE_DATA
                    } else {
                        abi::STATUS_OK
                    },
                    rate_match: None,
                },
            )
            &&& next.0.stride == port.stride() && next.0.rate == port.rate()
            &&& next.0.running == (input.phase == DevicePhase::Running)
            &&& next.0.period == match input.clock {
                Some(clock) => if clock.target_rate == 0 {
                    0
                } else {
                    sat32(
                        (clock.target_duration * port.rate()) / (clock.target_rate as int)
                            * port.stride(),
                    )
                },
                None => 0,
            }
            &&& next.0.chunk == sat32(
                (input.hw_quantum_ns * port.rate()) / 1_000_000_000 * port.stride(),
            )
        }),
{
}

/// Without a format, an exchange area or a settled device a cycle does nothing. A closed
/// device is handed to the worker, and the cycle ends whatever becomes of the order.
pub proof fn cycle_without_a_device(port: SourcePort, input: SourceInput, queued: bool)
    requires
        !able(port, input),
    ensures
        ({
            let nothing = SourceAction::Done(
                SourceOutcome { io: None, data: None, result: abi::STATUS_OK, rate_match: None },
            );
            let first = begun(port, input);
            let next = stepped(first.0, first.1, SourceReply::Queued(queued));
            let closed = port.config is Some && input.negotiated && !input.rebuilding;
            &&& first.1 == port
            &&& !closed ==> first.2 == nothing
            &&& closed ==> first.2 == SourceAction::QueueRebuild && next.2 == nothing && next.1
                == port
        }),
{
}

/// A primed stream at its period is read by what it holds: the queue is measured, unless a
/// wake-up reported it, in which case the cycle goes on as with the same measurement.
pub proof fn primed_stream_is_measured(cycle: SourceCycle, port: SourcePort, maxsize: u32)
    requires
        cycle.stage == SourceStage::Mapping,
        cycle.running,
        cycle.input.clock matches Some(clock) ==> clock.flags & abi::CLOCK_FLAG_FREEWHEEL == 0,
        port.ext.primed,
        !port.ext.was_freewheeling,
        cycle.period == port.setup_period || cycle.period == 0 || port.setup_period == 0,
    ensures
        ({
            let next = stepped(cycle, port, SourceReply::Mapped(Some(maxsize)));
            let settled = Port { ext: SourcePortExt { period_mismatch: 0, ..port.ext }, ..port };
            match port.device_event {
                Some(event) if cycle.input.fd == Some(event.fd) => {
                    let asked = SourceCycle {
                        maxsize,
                        stage: SourceStage::Filling,
                        ..cycle
                    };
                    let measured = stepped(
                        asked,
                        settled,
                        SourceReply::Fill(event.available_bytes),
                    );
                    next.2 == measured.2 && next.1 == measured.1 && next.0.data
                        == measured.0.data && next.0.stage == measured.0.stage
                },
                _ => {
                    &&& next.2 == SourceAction::MeasureFill
                    &&& next.0.stage == SourceStage::Filling
                    &&& next.0.maxsize == maxsize
                    &&& next.1 == settled
                },
            }
        }),
{
    reveal(data_phase);
    reveal(after_fill);
    reveal(read_phase);
    reveal(output_phase);
}

/// A buffer that cannot be mapped ends the cycle without touching the exchange area.
pub proof fn unusable_buffer_ends_the_cycle(cycle: SourceCycle, port: SourcePort)
    requires
        cycle.stage == SourceStage::Mapping,
    ensures
        ({
            let next = stepped(cycle, port, SourceReply::Mapped(None));
            next.1 == port && next.2 == SourceAction::Done(
                SourceOutcome { io: None, data: None, result: abi::STATUS_OK, rate_match: None },
            )
        }),
{
}

/// How much is read of a measured queue: a period, and what lies above the catch-up
/// threshold, but no more than is queued and fits the buffer, in whole frames. Without a
/// period everything that is queued. The rate servo of a node that matches a foreign clock
/// gets the deviation first, unless that is beyond a healthy swing; then it starts over.
pub proof fn measured_queue_is_read(cycle: SourceCycle, port: SourcePort, queued: u32)
    requires
        cycle.stage == SourceStage::Filling,
        cycle.stride > 0,
    ensures
        ({
            let next = stepped(cycle, port, SourceReply::Fill(queued));
            let period = port.setup_period as int;
            let want = if period != 0 {
                period + imax(0, queued - port.ext.read_peak)
            } else {
                queued as int
            };
            let most = imin(imin(want, queued as int), cycle.maxsize as int);
            let length = most / (cycle.stride as int) * (cycle.stride as int);
            let matches = cycle.input.following && !cycle.input.same_clock && cycle.period > 0
                && period != 0 && port.ext.period_mismatch == 0;
            let error = port.ext.target_fill - queued;
            let swing = imax(period, port.setup_blocksize as int / 2 + period / 2);
            let bound = imax(period, 512 * cycle.stride);
            let feeds = matches && -swing <= error <= swing;
            let twice = 2 * error;
            let fed = stepped(next.0, next.1, SourceReply::Fed);
            &&& next.0.pre_read_fill == Some(queued)
            &&& feeds ==> next.2 == SourceAction::FeedServo(
                (if twice > bound {
                    bound
                } else if twice < -bound {
                    -bound
                } else {
                    twice
                }) as i64,
            )
            &&& feeds && length > 0 ==> fed.2 == SourceAction::Read(length as u32)
            &&& !feeds && length > 0 ==> next.2 == SourceAction::Read(length as u32)
            &&& feeds && port.was_matching || !matches ==> next.1.servo == port.servo
            &&& matches && !(feeds && port.was_matching) ==> next.1.servo.loop_cold
                && next.1.servo.bandwidth_cold
            &&& !feeds && length == 0 ==> next.0.data == Some(
                SourceData {
                    length: imin(period, cycle.maxsize as int) as u32,
                    silence_from: 0,
                },
            )
            &&& feeds && length == 0 ==> fed.0.data == Some(
                SourceData {
                    length: imin(period, cycle.maxsize as int) as u32,
                    silence_from: 0,
                },
            )
        }),
{
    reveal(after_fill);
    reveal(read_phase);
    reveal(output_phase);
    reads_are_bounded(port, queued, cycle.maxsize, cycle.stride);
}

/// What was read is published in full, padded with silence to a period as far as that
/// fits, and a device that is gone is marked. The errors are asked for before the buffer
/// goes out.
pub proof fn read_data_is_padded_to_a_period(
    cycle: SourceCycle,
    port: SourcePort,
    length: u32,
    bytes: usize,
    status: IoStatus,
)
    requires
        cycle.stage == (SourceStage::Reading { length }),
        cycle.running,
        cycle.input.clock matches Some(clock) ==> clock.flags & abi::CLOCK_FLAG_FREEWHEEL == 0,
        port.device_event matches Some(event) ==> cycle.input.fd != Some(event.fd),
        bytes <= length <= cycle.maxsize,
    ensures
        ({
            let next = stepped(cycle, port, SourceReply::Read(ReadOutcome { bytes, status }));
            let matching = cycle.input.following && !cycle.input.same_clock;
            &&& next.2 == SourceAction::ReadXruns
            &&& next.0.data == Some(
                SourceData {
                    length: imax(
                        bytes as int,
                        imin(port.setup_period as int, cycle.maxsize as int),
                    ) as u32,
                    silence_from: bytes as u32,
                },
            )
            &&& next.0.rate_match == Some(matching)
            &&& next.1 == (Port {
                was_matching: matching,
                device_eof: port.device_eof || status == IoStatus::Lost,
                ..port
            })
        }),
{
    reveal(output_phase);
}

/// The buffer goes out with its data, or stays free where there is none. A third cycle in a
/// row with new errors and a full ring stops the channel first and tells the host; a cycle
/// without errors, or with room in the ring, starts the count over.
pub proof fn buffer_goes_out_after_the_errors(cycle: SourceCycle, port: SourcePort, total: u32)
    requires
        cycle.stage == SourceStage::Xruns,
    ensures
        ({
            let next = stepped(cycle, port, SourceReply::Xruns(total));
            let errors = total != 0 && total != port.event_xruns_seen;
            let full = cycle.pre_read_fill matches Some(fill) && (port.ext.ring_size == 0 || fill
                > imax(0, port.ext.ring_size - port.setup_blocksize));
            let count = if errors && full {
                port.ext.pinned_cycles + 1
            } else {
                0
            };
            let status = if cycle.data is Some {
                abi::STATUS_HAVE_DATA
            } else {
                abi::STATUS_OK
            };
            &&& next.1.event_xruns_seen == 0
            &&& count >= 3 ==> next.2 == SourceAction::Stop && next.0.stage
                == SourceStage::RecoverStop && next.1.pending_xrun == Some(
                (cycle.input.now / 1000) as u64,
            ) && next.1.ext.pinned_cycles == 0
            &&& count < 3 ==> next.2 == SourceAction::Done(
                SourceOutcome {
                    io: Some(SourceIo { buffer_id: cycle.buffer_id, status }),
                    data: cycle.data,
                    result: status,
                    rate_match: cycle.rate_match,
                },
            ) && next.1.pending_xrun == port.pending_xrun && next.1.ext.pinned_cycles == count
            &&& next.1 == (Port {
                event_xruns_seen: 0,
                pending_xrun: next.1.pending_xrun,
                ext: SourcePortExt { pinned_cycles: next.1.ext.pinned_cycles, ..port.ext },
                ..port
            })
        }),
{
}

/// A recovery publishes what was read, and has the ring primed again by the next cycle.
pub proof fn recovery_primes_again(cycle: SourceCycle, port: SourcePort, stopped: bool)
    requires
        cycle.stage == SourceStage::RecoverStop,
        cycle.data is Some,
    ensures
        ({
            let next = stepped(cycle, port, SourceReply::Stopped(stopped));
            &&& next.2 == SourceAction::Done(
                SourceOutcome {
                    io: Some(
                        SourceIo { buffer_id: cycle.buffer_id, status: abi::STATUS_HAVE_DATA },
                    ),
                    data: cycle.data,
                    result: abi::STATUS_HAVE_DATA,
                    rate_match: cycle.rate_match,
                },
            )
            &&& !next.1.ext.primed
            &&& next.1.servo.loop_cold && next.1.servo.bandwidth_cold
            &&& stopped ==> next.1.device_event is None && next.1.event_xruns_seen == 0
                && !next.1.device_eof
            &&& !stopped ==> next.1.device_event == port.device_event && next.1.device_eof
                == port.device_eof
            &&& next.1.ext == (SourcePortExt { primed: false, ..port.ext })
        }),
{
}

/// A ring that is not primed is emptied before anything of it is published. A stopped
/// channel gets its layout first: four of the largest periods, at least 64 KiB and at most
/// what the kernel grants, in the configured fragments as far as they fit a period.
pub proof fn unprimed_ring_is_triggered(cycle: SourceCycle, port: SourcePort, maxsize: u32)
    requires
        cycle.stage == SourceStage::Mapping,
        cycle.period > 0,
        cycle.input.clock matches Some(clock) ==> clock.flags & abi::CLOCK_FLAG_FREEWHEEL == 0,
        !port.ext.primed,
    ensures
        ({
            let next = stepped(cycle, port, SourceReply::Mapped(Some(maxsize)));
            let set = stepped(next.0, next.1, SourceReply::LayoutSet);
            let largest = imax(cycle.period as int, cycle.input.max_period as int);
            &&& cycle.running ==> next.2 == SourceAction::Trigger
            &&& !cycle.running ==> {
                &&& next.2 matches SourceAction::SetLayout(layout) && layout.ring == imin(
                    imax(4 * largest, 65536),
                    131072,
                ) && (cycle.input.fragment == 0 ==> layout.fragment == 1024) && (
                cycle.input.fragment != 0 ==> layout.fragment <= cycle.input.fragment
                    && layout.fragment <= imax(cycle.period as int, 1024)) && (0
                    < cycle.input.fragment <= 1024 ==> layout.fragment == cycle.input.fragment)
                    && (cycle.input.fragment > layout.fragment && cycle.input.fragment != 0
                    ==> 2 * layout.fragment > imax(cycle.period as int, 1024))
                &&& set.2 == SourceAction::Trigger
            }
            &&& next.0.maxsize == maxsize
            &&& next.1.ext.period_mismatch == 0
            &&& !next.1.ext.primed
        }),
{
    reveal(data_phase);
    crate::arith::floor_pow2_is_the_largest(imax(cycle.period as int, 1024) as nat);
    small_fragment_is_kept(cycle.period, cycle.input.fragment);
}

/// A triggered channel is emptied, a buffer at a time and in whole frames, until nothing is
/// left or nothing comes. Then the graph gets a period of silence, and the geometry is the
/// one of this period in the ring that was granted.
pub proof fn triggered_ring_is_emptied(
    cycle: SourceCycle,
    port: SourcePort,
    running: bool,
    ready: bool,
    queued: u32,
    fragment: u32,
    ring: u32,
)
    requires
        cycle.stage == SourceStage::PrimeTrigger,
        cycle.stride > 0,
    ensures
        ({
            let next = stepped(
                cycle,
                port,
                SourceReply::Triggered { running, ready, queued, fragment, ring },
            );
            let most = imin(queued as int, cycle.maxsize as int);
            let length = most / (cycle.stride as int) * (cycle.stride as int);
            &&& next.0.running == running
            &&& ready && length > 0 ==> next.2 == SourceAction::Read(length as u32)
                && next.0.stage == (SourceStage::Draining { backlog: queued, fragment, ring })
                && next.1 == port
            &&& !ready || length <= 0 ==> primed_with_silence(cycle, port, next, fragment, ring)
        }),
{
    reveal(draining);
    reveal(output_phase);
}

/// The graph gets a period of silence as far as it fits, and the ring is primed: the fill to
/// aim for is a period and half an arrival, and a read catches up above half a period more,
/// or an arrival more where that is larger, with an arrival of room left in a known ring.
pub open spec fn primed_with_silence(
    cycle: SourceCycle,
    port: SourcePort,
    next: SourceStep,
    fragment: u32,
    ring: u32,
) -> bool {
    let period = cycle.period as int;
    let block = imax(fragment as int, cycle.chunk as int);
    let target = period + block / 2;
    let open = target + block / 2 + period / 2;
    let peak = if ring == 0 {
        open
    } else {
        imin(imax(open, target + block), imax(0, ring - block))
    };
    &&& next.0.data == Some(
        SourceData {
            length: imin(period, cycle.maxsize as int) as u32,
            silence_from: 0,
        },
    )
    &&& next.1.ext.primed
    &&& next.1.ext.ring_size == ring
    &&& next.1.setup_period == period
    &&& next.1.setup_blocksize == block
    &&& next.1.ext.target_fill == imin(target, u32::MAX as int)
    &&& next.1.ext.read_peak == imin(peak, u32::MAX as int)
    &&& next.1.servo.loop_cold && next.1.servo.bandwidth_cold
    &&& next.1.servo.geometry matches Some(geometry) && geometry.period == period
        && geometry.blocksize == block && geometry.stride == port.stride()
}

/// What is discarded is taken off the backlog; the rest follows, or the ring is primed.
pub proof fn backlog_is_discarded(
    cycle: SourceCycle,
    port: SourcePort,
    backlog: u32,
    fragment: u32,
    ring: u32,
    bytes: usize,
    status: IoStatus,
)
    requires
        cycle.stage == (SourceStage::Draining { backlog, fragment, ring }),
        cycle.stride > 0,
        bytes <= backlog,
    ensures
        ({
            let next = stepped(cycle, port, SourceReply::Read(ReadOutcome { bytes, status }));
            let rest = backlog - bytes;
            let most = imin(rest, cycle.maxsize as int);
            let length = most / (cycle.stride as int) * (cycle.stride as int);
            &&& next.1.device_eof == (port.device_eof || status == IoStatus::Lost)
            &&& bytes > 0 && length > 0 ==> next.2 == SourceAction::Read(length as u32)
                && next.0.stage == (SourceStage::Draining {
                backlog: rest as u32,
                fragment,
                ring,
            })
            &&& bytes == 0 || length <= 0 ==> primed_with_silence(
                cycle,
                port,
                next,
                fragment,
                ring,
            )
        }),
{
    reveal(draining);
    reveal(output_phase);
}

/// While the graph freewheels it gets silence and the device is left alone; the first cycle
/// after that primes again.
pub proof fn freewheeling_capture_is_silent(cycle: SourceCycle, port: SourcePort, maxsize: u32)
    requires
        cycle.stage == SourceStage::Mapping,
        cycle.period > 0,
        cycle.input.clock matches Some(clock) && clock.flags & abi::CLOCK_FLAG_FREEWHEEL != 0,
        cycle.period == port.setup_period || !port.ext.primed,
    ensures
        ({
            let next = stepped(cycle, port, SourceReply::Mapped(Some(maxsize)));
            let matching = cycle.input.following && !cycle.input.same_clock;
            &&& next.2 == SourceAction::Done(
                SourceOutcome {
                    io: Some(
                        SourceIo { buffer_id: cycle.buffer_id, status: abi::STATUS_HAVE_DATA },
                    ),
                    data: Some(
                        SourceData {
                            length: imin(cycle.period as int, maxsize as int) as u32,
                            silence_from: 0,
                        },
                    ),
                    result: abi::STATUS_HAVE_DATA,
                    rate_match: Some(matching),
                },
            )
            &&& next.1.ext.was_freewheeling
            &&& next.1.pending_xrun == port.pending_xrun
        }),
{
    reveal(data_phase);
    reveal(output_phase);
}

/// The first cycle that no longer freewheels primes the ring again.
pub proof fn end_of_freewheel_primes_again(cycle: SourceCycle, port: SourcePort, maxsize: u32)
    requires
        cycle.stage == SourceStage::Mapping,
        cycle.running,
        cycle.period > 0,
        cycle.period == port.setup_period,
        cycle.input.clock matches Some(clock) ==> clock.flags & abi::CLOCK_FLAG_FREEWHEEL == 0,
        port.ext.was_freewheeling,
    ensures
        ({
            let next = stepped(cycle, port, SourceReply::Mapped(Some(maxsize)));
            &&& next.2 == SourceAction::Trigger
            &&& !next.1.ext.was_freewheeling
            &&& !next.1.ext.primed
        }),
{
    reveal(data_phase);
}

/// A channel that is not running, and has no period to be primed for, leaves the buffer
/// free.
pub proof fn idle_channel_leaves_the_buffer_free(cycle: SourceCycle, port: SourcePort, maxsize: u32)
    requires
        cycle.stage == SourceStage::Mapping,
        !cycle.running,
        cycle.period == 0,
    ensures
        stepped(cycle, port, SourceReply::Mapped(Some(maxsize))).2 == SourceAction::Done(
            SourceOutcome {
                io: Some(SourceIo { buffer_id: cycle.buffer_id, status: abi::STATUS_OK }),
                data: None,
                result: abi::STATUS_OK,
                rate_match: None,
            },
        ),
{
    reveal(data_phase);
    reveal(output_phase);
}

/// Another period is taken up by its second cycle in a row: at once where the ring holds its
/// fill and an arrival, else by a stop. A channel that stopped gets a new layout in the same
/// cycle; one that refuses is handed to the worker, and read on where that is not possible.
pub proof fn second_capture_cycle_retunes(
    cycle: SourceCycle,
    port: SourcePort,
    maxsize: u32,
    queued: bool,
)
    requires
        cycle.stage == SourceStage::Mapping,
        cycle.running,
        cycle.period > 0,
        cycle.input.clock matches Some(clock) ==> clock.flags & abi::CLOCK_FLAG_FREEWHEEL == 0,
        port.device_event matches Some(event) ==> cycle.input.fd != Some(event.fd),
        port.ext.primed,
        !port.ext.was_freewheeling,
        port.setup_period != 0,
        port.setup_period != cycle.period,
    ensures
        ({
            let next = stepped(cycle, port, SourceReply::Mapped(Some(maxsize)));
            let period = cycle.period as int;
            let block = port.setup_blocksize as int;
            let target = period + block / 2;
            let needed = imax(target + block / 2 + period / 2, target + block) + block;
            let first = port.ext.period_mismatch == 0;
            let holds = port.ext.ring_size >= imin(needed, u32::MAX as int);
            let stopped = stepped(next.0, next.1, SourceReply::Stopped(true));
            let refused = stepped(next.0, next.1, SourceReply::Stopped(false));
            let ordered = stepped(refused.0, refused.1, SourceReply::Queued(queued));
            &&& first ==> next.2 == SourceAction::MeasureFill && next.1 == (Port {
                ext: SourcePortExt { period_mismatch: 1, ..port.ext },
                ..port
            })
            &&& !first && holds ==> {
                &&& next.2 == SourceAction::MeasureFill
                &&& next.1.setup_period == period
                &&& next.1.setup_blocksize == block
                &&& next.1.ext.target_fill == imin(target, u32::MAX as int)
                &&& next.1.ext.period_mismatch == 0
                &&& next.1.ext.ring_size == port.ext.ring_size
                &&& next.1.servo.loop_cold && next.1.servo.bandwidth_cold
            }
            &&& !first && !holds ==> {
                &&& next.2 == SourceAction::Stop
                &&& next.1.setup_period == port.setup_period
                &&& stopped.2 is SetLayout && !stopped.0.running && !stopped.1.ext.primed
                    && stopped.1.ext.period_mismatch == 0 && stopped.1.device_event is None
                &&& refused.2 == SourceAction::QueueRebuild && refused.1 == next.1
                &&& queued ==> ordered.2 == SourceAction::Done(
                    SourceOutcome {
                        io: None,
                        data: None,
                        result: abi::STATUS_OK,
                        rate_match: None,
                    },
                )
                &&& !queued ==> ordered.2 == SourceAction::MeasureFill
            }
        }),
{
    reveal(data_phase);
}

/// Overruns that a wake-up reported are weighed like those that the device is asked for.
pub proof fn reported_overruns_are_weighed(
    cycle: SourceCycle,
    port: SourcePort,
    length: u32,
    bytes: usize,
    status: IoStatus,
)
    requires
        cycle.stage == (SourceStage::Reading { length }),
        cycle.running,
        cycle.input.clock matches Some(clock) ==> clock.flags & abi::CLOCK_FLAG_FREEWHEEL == 0,
        port.device_event matches Some(event) && cycle.input.fd == Some(event.fd),
        bytes <= length <= cycle.maxsize,
    ensures
        ({
            let reported = port.device_event->0.xruns;
            let read = SourceReply::Read(ReadOutcome { bytes, status });
            let informed = stepped(cycle, port, read);
            let asking = stepped(cycle, Port { device_event: None, ..port }, read);
            let asked = stepped(asking.0, asking.1, SourceReply::Xruns(reported));
            &&& informed.2 == asked.2
            &&& informed.0.data == asked.0.data
            &&& informed.1.ext == asked.1.ext
            &&& informed.1.pending_xrun == asked.1.pending_xrun
            &&& informed.1.event_xruns_seen == reported
        }),
{
    reveal(output_phase);
}

fn end_idle(cycle: &mut SourceCycle, result: i32) -> (action: SourceAction)
    ensures
        forall|port: SourcePort|
            (*final(cycle), port, action) == #[trigger] idle(*old(cycle), port, result),
{
    cycle.stage = SourceStage::Done;
    SourceAction::Done(SourceOutcome { io: None, data: None, result, rate_match: None })
}

fn publish(cycle: &mut SourceCycle) -> (action: SourceAction)
    ensures
        forall|port: SourcePort|
            (*final(cycle), port, action) == #[trigger] published(*old(cycle), port),
{
    let status: i32 = if cycle.data.is_some() {
        abi::STATUS_HAVE_DATA
    } else {
        abi::STATUS_OK
    };
    cycle.stage = SourceStage::Done;
    SourceAction::Done(
        SourceOutcome {
            io: Some(SourceIo { buffer_id: cycle.buffer_id, status }),
            data: cycle.data,
            result: status,
            rate_match: cycle.rate_match,
        },
    )
}

fn take_overruns(cycle: &mut SourceCycle, port: &mut SourcePort, overruns: u32) -> (action:
    SourceAction)
    ensures
        (*final(cycle), *final(port), action) == after_overruns(*old(cycle), *old(port), overruns),
{
    if overruns > 0 {
        if recover_overrun(port, cycle.pre_read_fill, cycle.input.now) {
            cycle.stage = SourceStage::RecoverStop;
            return SourceAction::Stop;
        }
    } else {
        port.ext.pinned_cycles = 0;
    }
    publish(cycle)
}

fn take_output(cycle: &mut SourceCycle, port: &mut SourcePort, data: Option<SourceData>) -> (action:
    SourceAction)
    ensures
        (*final(cycle), *final(port), action) == output_phase(*old(cycle), *old(port), data),
{
    proof {
        reveal(output_phase);
    }
    let matching = cycle.input.matching_now();
    port.was_matching = matching;
    cycle.rate_match = if data.is_some() {
        Some(matching)
    } else {
        None
    };
    cycle.data = data;
    if cycle.running && !cycle.input.freewheels_now() {
        match take_device_event_xruns(port, cycle.input.fd) {
            Some(count) => take_overruns(cycle, port, count),
            None => {
                cycle.stage = SourceStage::Xruns;
                SourceAction::ReadXruns
            },
        }
    } else {
        take_overruns(cycle, port, 0)
    }
}

fn take_data(cycle: &mut SourceCycle, port: &mut SourcePort, read: ReadOutcome) -> (action:
    SourceAction)
    requires
        read.bytes <= old(cycle).maxsize,
    ensures
        (*final(cycle), *final(port), action) == after_read(*old(cycle), *old(port), read),
{
    let length: u32 = take_read(port, read, cycle.maxsize);
    take_output(cycle, port, Some(SourceData { length, silence_from: read.bytes as u32 }))
}

fn read_queue(cycle: &mut SourceCycle, port: &mut SourcePort, queued: u32) -> (action: SourceAction)
    requires
        old(cycle).stride > 0,
    ensures
        (*final(cycle), *final(port), action) == read_phase(*old(cycle), *old(port), queued),
{
    proof {
        reveal(read_phase);
    }
    let length: u32 = plan_read(port, queued, cycle.maxsize, cycle.stride);
    if length > 0 {
        cycle.stage = SourceStage::Reading { length };
        SourceAction::Read(length)
    } else {
        take_data(cycle, port, ReadOutcome { bytes: 0, status: IoStatus::Progress })
    }
}

fn take_fill(cycle: &mut SourceCycle, port: &mut SourcePort, queued: u32) -> (action: SourceAction)
    requires
        old(cycle).stride > 0,
    ensures
        (*final(cycle), *final(port), action) == after_fill(*old(cycle), *old(port), queued),
{
    proof {
        reveal(after_fill);
    }
    cycle.pre_read_fill = Some(queued);
    if cycle.input.matching_now() && cycle.period > 0 && port.setup_period != 0
        && port.ext.period_mismatch == 0 {
        if let Some(err) = follower_servo(port, queued, cycle.stride) {
            cycle.stage = SourceStage::Feeding { queued };
            return SourceAction::FeedServo(err);
        }
    }
    read_queue(cycle, port, queued)
}

fn silence(cycle: &SourceCycle) -> (data: Option<SourceData>)
    ensures
        data == silent(*cycle),
{
    Some(SourceData { length: cycle.period.min(cycle.maxsize), silence_from: 0 })
}

fn finish_prime(cycle: &mut SourceCycle, port: &mut SourcePort, fragment: u32, ring: u32) -> (action:
    SourceAction)
    ensures
        (*final(cycle), *final(port), action) == prime_done(
            *old(cycle),
            *old(port),
            fragment,
            ring,
        ),
{
    prime_capture(port, cycle.period, ring, fragment, cycle.chunk);
    let data = silence(cycle);
    take_output(cycle, port, data)
}

fn drain(
    cycle: &mut SourceCycle,
    port: &mut SourcePort,
    backlog: u32,
    fragment: u32,
    ring: u32,
) -> (action: SourceAction)
    requires
        old(cycle).stride > 0,
    ensures
        (*final(cycle), *final(port), action) == draining(
            *old(cycle),
            *old(port),
            backlog,
            fragment,
            ring,
        ),
{
    proof {
        reveal(draining);
    }
    let length: u32 = floor_to_frames(backlog.min(cycle.maxsize), cycle.stride);
    if length > 0 {
        cycle.stage = SourceStage::Draining { backlog, fragment, ring };
        SourceAction::Read(length)
    } else {
        finish_prime(cycle, port, fragment, ring)
    }
}

fn produce(cycle: &mut SourceCycle, port: &mut SourcePort) -> (action: SourceAction)
    requires
        old(cycle).stride > 0,
    ensures
        (*final(cycle), *final(port), action) == data_phase(*old(cycle), *old(port)),
{
    proof {
        reveal(data_phase);
    }
    let freewheels = cycle.input.freewheels_now();
    if port.ext.was_freewheeling && !freewheels {
        port.ext.primed = false;
    }
    port.ext.was_freewheeling = freewheels;
    if freewheels && cycle.period > 0 {
        let data = silence(cycle);
        take_output(cycle, port, data)
    } else if !port.ext.primed && cycle.period > 0 {
        if cycle.running {
            cycle.stage = SourceStage::PrimeTrigger;
            SourceAction::Trigger
        } else {
            cycle.stage = SourceStage::PrimeLayout;
            SourceAction::SetLayout(
                prime_layout(
                    cycle.period,
                    cycle.input.max_period,
                    cycle.input.fragment,
                    cycle.stride,
                    cycle.rate,
                ),
            )
        }
    } else if !cycle.running {
        take_output(cycle, port, None)
    } else {
        match device_event_fill(port, false, cycle.input.fd) {
            Some(queued) => take_fill(cycle, port, queued),
            None => {
                cycle.stage = SourceStage::Filling;
                SourceAction::MeasureFill
            },
        }
    }
}

/// Starts a capture cycle and names its first operation.
pub fn begin(port: &mut SourcePort, input: SourceInput) -> (r: (SourceCycle, SourceAction))
    ensures
        (r.0, *final(port), r.1) == begun(*old(port), input),
        r.0.wf(),
{
    proof {
        beginning_is_sound(*port, input);
    }
    let (stride, rate) = match port.stride_rate() {
        Some((stride, rate)) => (stride, rate),
        None => (1, 0),
    };
    let period: u32 = match input.clock {
        Some(clock) => device_period_bytes(clock.target_duration, rate, clock.target_rate, stride),
        None => 0,
    };
    let mut cycle = SourceCycle {
        input,
        stage: SourceStage::Done,
        stride,
        rate,
        period,
        chunk: ns_to_frame_bytes(input.hw_quantum_ns, rate, stride),
        running: input.phase == DevicePhase::Running,
        buffer_id: input.buffer_id,
        maxsize: 0,
        pre_read_fill: None,
        data: None,
        rate_match: None,
    };
    let action = if input.rebuilding || port.config.is_none() || !input.negotiated {
        end_idle(&mut cycle, abi::STATUS_OK)
    } else if input.phase == DevicePhase::Closed {
        cycle.stage = SourceStage::RebuildingClosed;
        SourceAction::QueueRebuild
    } else if input.status == abi::STATUS_HAVE_DATA {
        end_idle(&mut cycle, abi::STATUS_HAVE_DATA)
    } else if input.status != abi::STATUS_OK && input.status != abi::STATUS_NEED_DATA {
        end_idle(&mut cycle, abi::STATUS_OK)
    } else {
        if input.buffer_id == NO_BUFFER {
            cycle.buffer_id = port.ext.active_buffers;
            port.ext.active_buffers = port.ext.active_buffers.wrapping_add(1);
        }
        cycle.stage = SourceStage::Mapping;
        SourceAction::MapBuffer(cycle.buffer_id)
    };
    (cycle, action)
}

/// Takes the result of the operation that the machine named, and names the next
/// one.
pub fn step(cycle: &mut SourceCycle, port: &mut SourcePort, reply: SourceReply) -> (action:
    SourceAction)
    requires
        old(cycle).wf(),
        old(cycle).stage.accepts(reply, old(cycle).asked()),
    ensures
        (*final(cycle), *final(port), action) == stepped(*old(cycle), *old(port), reply),
        final(cycle).wf(),
{
    proof {
        every_step_makes_progress(*cycle, *port, reply);
    }
    match (cycle.stage, reply) {
        (SourceStage::RebuildingClosed, SourceReply::Queued(_)) => end_idle(cycle, abi::STATUS_OK),
        (SourceStage::Mapping, SourceReply::Mapped(mapped)) => {
            cycle.maxsize = match mapped {
                Some(maxsize) => maxsize,
                None => return end_idle(cycle, abi::STATUS_OK),
            };
            match plan_retune(port, cycle.period) {
                RetunePlan::Continue => produce(cycle, port),
                RetunePlan::Suspend => {
                    cycle.stage = SourceStage::RetuneStop;
                    SourceAction::Stop
                },
            }
        },
        (SourceStage::RetuneStop, SourceReply::Stopped(accepted)) => if retune_suspended(
            port,
            accepted,
        ) {
            cycle.stage = SourceStage::RebuildingRefused;
            SourceAction::QueueRebuild
        } else {
            cycle.running = false;
            produce(cycle, port)
        },
        (SourceStage::RebuildingRefused, SourceReply::Queued(queued)) => if queued {
            end_idle(cycle, abi::STATUS_OK)
        } else {
            produce(cycle, port)
        },
        (SourceStage::PrimeLayout, SourceReply::LayoutSet) => {
            cycle.stage = SourceStage::PrimeTrigger;
            SourceAction::Trigger
        },
        (
            SourceStage::PrimeTrigger,
            SourceReply::Triggered { running, ready, queued, fragment, ring },
        ) => {
            cycle.running = running;
            if ready {
                drain(cycle, port, queued, fragment, ring)
            } else {
                finish_prime(cycle, port, fragment, ring)
            }
        },
        (SourceStage::Draining { backlog, fragment, ring }, SourceReply::Read(read)) => {
            if read.status.device_lost() {
                port.device_eof = true;
            }
            if read.bytes == 0 {
                finish_prime(cycle, port, fragment, ring)
            } else {
                drain(cycle, port, backlog - read.bytes as u32, fragment, ring)
            }
        },
        (SourceStage::Filling, SourceReply::Fill(queued)) => take_fill(cycle, port, queued),
        (SourceStage::Feeding { queued }, SourceReply::Fed) => read_queue(cycle, port, queued),
        (SourceStage::Reading { .. }, SourceReply::Read(read)) => take_data(cycle, port, read),
        (SourceStage::Xruns, SourceReply::Xruns(total)) => {
            let count: u32 = take_fallback_xruns(port, total);
            take_overruns(cycle, port, count)
        },
        (SourceStage::RecoverStop, SourceReply::Stopped(stopped)) => {
            finish_overrun_recovery(port, stopped);
            publish(cycle)
        },
        _ => end_idle(cycle, abi::STATUS_OK),
    }
}

/// A stage takes the reply that belongs to the operation it waits for, and no other one; a
/// read is never said to have given more than it was asked for.
pub proof fn reply_belongs_to_the_operation(
    stage: SourceStage,
    action: SourceAction,
    reply: SourceReply,
    asked: int,
)
    requires
        stage.awaits(action),
    ensures
        stage.accepts(reply, asked) <==> match action {
            SourceAction::QueueRebuild => reply is Queued,
            SourceAction::MapBuffer(_) => reply is Mapped,
            SourceAction::Stop => reply is Stopped,
            SourceAction::SetLayout(_) => reply is LayoutSet,
            SourceAction::Trigger => reply is Triggered,
            SourceAction::MeasureFill => reply is Fill,
            SourceAction::FeedServo(_) => reply is Fed,
            SourceAction::Read(_) => reply is Read && reply->Read_0.bytes <= asked,
            SourceAction::ReadXruns => reply is Xruns,
            SourceAction::Done(_) => false,
        },
{
}

} // verus!
