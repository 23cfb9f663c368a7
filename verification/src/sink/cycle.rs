//! One playback cycle as a state machine. [`begin`] takes what the graph and the
//! device show at the start of the cycle; from then on the machine names one
//! device operation at a time and [`step`] takes the operation's result, until
//! the cycle is done.
use vstd::prelude::*;

use crate::abi;
use crate::arith::{imax, imin, sat32};
use crate::device::{DevicePhase, IoStatus, WriteOutcome};
use crate::port::{
    counter_delta, device_event_fill, event_fill_of, take_device_event_xruns, take_fallback_xruns,
    Port,
};
use crate::sink::geometry::{
    mismatch_after, plan_retune, prime_playback, prime_request, prime_request_of, primed,
    retune_in_place, retune_plan, retune_stopped, retune_suspended, retuned_in_place,
    PeriodRequest, RetuneOutcome, RetunePlan, SinkPort, SinkPortExt,
};
use crate::sink::write::{
    detect_underrun, end_input_sequence, follower_servo, follower_step, followed, leaves_tail,
    level_correct, level_step, pause_lost_queue, pending_cleared, pending_differs, pending_matched,
    pending_write_changed, pending_write_offset, recover_or_hold, recovered, recovers, refill,
    resume_playback, resume_prepare, resume_prepared, resume_written, retain_partial_write,
    sequence_ended, settled_port, underrun_detected, FillStep,
};
use crate::timing::{device_period_bytes, frame_bytes_in, ns_to_frame_bytes, period_bytes};

verus! {

/// The driver's clock in this cycle.
#[derive(Debug, Clone, Copy, PartialEq, Eq)]
pub struct DriverClock {
    pub flags: u32,
    pub nsec: u64,
    /// The graph's period in frames, and its rate.
    pub target_duration: u64,
    pub target_rate: u32,
}

/// What a playback cycle starts from.
#[derive(Debug, Clone, Copy, PartialEq, Eq)]
pub struct SinkInput {
    /// The device's descriptor.
    pub fd: Option<i32>,
    pub phase: DevicePhase,
    /// A rebuild of the device is still in flight.
    pub rebuilding: bool,
    /// The host registered buffers and an exchange area.
    pub negotiated: bool,
    /// The status in the exchange area.
    pub status: i32,
    /// The buffer named in the exchange area.
    pub buffer_id: u32,
    /// The length of that buffer's data, `None` where the buffer is unusable.
    pub input_size: Option<u32>,
    /// The driver's clock, `None` while the graph has no position.
    pub clock: Option<DriverClock>,
    /// The node follows another driver.
    pub following: bool,
    /// The driver runs on this device's clock.
    pub same_clock: bool,
    /// The delay setting, in eighths of a period.
    pub delay_eighths: u32,
    /// The resampler's block in frames, where the port has one.
    pub rate_match_size: Option<u32>,
    /// The largest negotiable period in bytes.
    pub max_period: u32,
    /// The configured fragment size, 0 for the device's own choice.
    pub fragment: u32,
    /// The hardware's transfer interval in nanoseconds.
    pub hw_quantum_ns: u64,
    /// The time of this call in nanoseconds.
    pub now: u64,
}

impl SinkInput {
    /// The node follows a driver on a foreign clock, which it has to match.
    pub open spec fn matching(self) -> bool {
        self.following && !self.same_clock
    }

    /// The graph runs faster than real time.
    pub open spec fn freewheels(self) -> bool {
        self.clock matches Some(clock) && clock.flags & abi::CLOCK_FLAG_FREEWHEEL != 0
    }
}

/// Where a playback cycle waits for the device.
#[derive(Debug, Clone, Copy, PartialEq, Eq, Structural)]
pub enum SinkStage {
    /// The input sequence ends while the graph freewheels.
    Freewheeling,
    /// A rebuild of a closed device is being queued.
    RebuildingClosed,
    /// A rebuild of a device that a pause left unusable is being queued.
    RebuildingPaused,
    /// The accepted prefix of a replaced buffer is being closed.
    ClosingPrefix,
    /// The fill is being measured for a live retune.
    RetuneFill,
    /// The channel is being stopped for a new layout.
    RetuneStop,
    /// A rebuild is being queued after the device refused to stop.
    RebuildingRefused,
    /// The ring is being set.
    PrimeGrant,
    /// The priming silence is being written.
    PrimeSilence,
    /// The error counter of a resuming channel is being read.
    ResumeXruns,
    /// The queue of a resuming channel is being measured.
    ResumeFill { underruns: u32 },
    /// The first buffer after a pause is being written.
    ResumeWrite { queued: u32, underruns: u32 },
    /// The error counter is being read.
    Xruns,
    /// The fill is being measured to judge an underrun.
    UnderrunFill,
    /// The fill is being measured for a recovery.
    RecoverFill,
    /// The fill is being measured for the rate servo.
    FollowFill,
    /// The fill is being measured for the level correction.
    LevelFill,
    /// The buffer is being written.
    Writing,
    /// The input sequence ends before the buffer is handed back.
    Releasing,
    Done,
}

/// What precedes a write.
#[derive(Debug, Clone, Copy, PartialEq, Eq, Structural)]
pub enum Prelude {
    Nothing,
    /// Silence of this many bytes is written first.
    Silence(u32),
    /// The rate servo is fed this error, in half bytes.
    Servo(i64),
}

/// How a playback cycle ended.
#[derive(Debug, Clone, Copy, PartialEq, Eq, Structural)]
pub struct SinkOutcome {
    /// The status to put into the exchange area; `None` leaves it, and the host
    /// keeps its buffer.
    pub io_status: Option<i32>,
    /// The status bits that the cycle returns.
    pub result: i32,
    /// Whether rate matching is to be published as active; `None` leaves it.
    pub rate_match: Option<bool>,
    /// Bytes of the buffer that were given up.
    pub dropped: u32,
}

/// The next device operation of a playback cycle.
#[derive(Debug, Clone, Copy, PartialEq, Eq, Structural)]
pub enum SinkAction {
    /// Close the frame that an accepted prefix left open.
    EndSequence,
    /// Hand the device to the rebuild worker.
    QueueRebuild,
    /// Stop the channel, dropping its queue.
    Stop,
    /// Measure the queued bytes.
    MeasureFill,
    /// Read, and thereby clear, the error counter.
    ReadXruns,
    /// Ask for a ring of `ring` bytes in fragments of `fragment` bytes.
    SetBuffer { ring: u32, fragment: u32 },
    /// Write silence.
    WriteSilence(u32),
    /// Write the buffer's data from byte `from` to its end.
    Write { prelude: Prelude, from: u32 },
    Done(SinkOutcome),
}

/// The result of a device operation.
#[derive(Debug, Clone, Copy, PartialEq, Eq, Structural)]
pub enum SinkReply {
    /// The sequence ended; the device may have had to reset its queue.
    Ended { queue_reset: bool },
    Queued(bool),
    Stopped(bool),
    Fill(u32),
    Xruns(u32),
    Granted { ring: u32, blocksize: u32 },
    Silenced,
    Written(WriteOutcome),
}

/// A playback cycle in progress.
#[derive(Debug, Clone, Copy, PartialEq, Eq)]
pub struct SinkCycle {
    pub input: SinkInput,
    pub stage: SinkStage,
    /// What the cycle asks of the ring.
    pub request: PeriodRequest,
    /// The hardware's transfer size in bytes.
    pub chunk: u32,
    /// The channel is triggered.
    pub running: bool,
    /// This cycle committed another geometry.
    pub retuned: bool,
    /// The first byte of the buffer to write.
    pub offset: u32,
    /// The bytes to write from there.
    pub size: u32,
    /// Whether rate matching was active, once that is decided.
    pub rate_match: Option<bool>,
    /// Bytes of the buffer that were given up.
    pub dropped: u32,
}

/// A machine, its port, and the operation that it asks for.
pub type SinkStep = (SinkCycle, SinkPort, SinkAction);

impl SinkStage {
    /// Whether `reply` is a result of the operation that this stage waits for,
    /// where `size` bytes were offered to a write.
    pub open spec fn accepts(self, reply: SinkReply, size: u32) -> bool {
        match self {
            SinkStage::Freewheeling | SinkStage::ClosingPrefix | SinkStage::Releasing => reply
                is Ended,
            SinkStage::RebuildingClosed | SinkStage::RebuildingPaused
            | SinkStage::RebuildingRefused => reply is Queued,
            SinkStage::RetuneStop => reply is Stopped,
            SinkStage::RetuneFill | SinkStage::ResumeFill { .. } | SinkStage::UnderrunFill
            | SinkStage::RecoverFill | SinkStage::FollowFill | SinkStage::LevelFill => reply
                is Fill,
            SinkStage::ResumeXruns | SinkStage::Xruns => reply is Xruns,
            SinkStage::PrimeGrant => reply is Granted,
            SinkStage::PrimeSilence => reply is Silenced,
            SinkStage::Writing | SinkStage::ResumeWrite { .. } => reply matches SinkReply::Written(
                written,
            ) && written.bytes <= size,
            SinkStage::Done => false,
        }
    }

    /// Whether this stage waits for the result of `action`.
    pub open spec fn awaits(self, action: SinkAction) -> bool {
        match self {
            SinkStage::Freewheeling | SinkStage::ClosingPrefix | SinkStage::Releasing => action
                is EndSequence,
            SinkStage::RebuildingClosed | SinkStage::RebuildingPaused
            | SinkStage::RebuildingRefused => action is QueueRebuild,
            SinkStage::RetuneStop => action is Stop,
            SinkStage::RetuneFill | SinkStage::ResumeFill { .. } | SinkStage::UnderrunFill
            | SinkStage::RecoverFill | SinkStage::FollowFill | SinkStage::LevelFill => action
                is MeasureFill,
            SinkStage::ResumeXruns | SinkStage::Xruns => action is ReadXruns,
            SinkStage::PrimeGrant => action is SetBuffer,
            SinkStage::PrimeSilence => action is WriteSilence,
            SinkStage::Writing | SinkStage::ResumeWrite { .. } => action is Write,
            SinkStage::Done => action is Done,
        }
    }

    /// How many operations may still follow.
    pub open spec fn rank(self) -> nat {
        match self {
            SinkStage::ClosingPrefix => 9,
            SinkStage::RetuneFill | SinkStage::RetuneStop => 8,
            SinkStage::RebuildingRefused => 7,
            SinkStage::PrimeGrant | SinkStage::ResumeXruns | SinkStage::Xruns => 6,
            SinkStage::PrimeSilence | SinkStage::ResumeFill { .. } | SinkStage::UnderrunFill => 5,
            SinkStage::RecoverFill | SinkStage::FollowFill | SinkStage::LevelFill => 4,
            SinkStage::Writing | SinkStage::ResumeWrite { .. } => 3,
            SinkStage::RebuildingClosed | SinkStage::RebuildingPaused => 2,
            SinkStage::Releasing | SinkStage::Freewheeling => 1,
            SinkStage::Done => 0,
        }
    }
}

impl SinkCycle {
    /// The machine at another stage.
    pub open spec fn at(self, stage: SinkStage) -> SinkCycle {
        SinkCycle { stage, ..self }
    }

    /// The part of the buffer to write lies inside the buffer.
    pub open spec fn in_bounds(self) -> bool {
        self.input.input_size matches Some(input_size) && self.offset + self.size == input_size
    }

    /// What holds of a machine between two steps.
    pub open spec fn wf(self) -> bool {
        match self.stage {
            SinkStage::Freewheeling | SinkStage::RebuildingClosed | SinkStage::RebuildingPaused
            | SinkStage::Releasing | SinkStage::Done => true,
            SinkStage::ClosingPrefix => self.input.input_size is Some,
            SinkStage::RetuneFill | SinkStage::PrimeGrant => self.writes()
                && self.request.period != 0,
            _ => self.writes(),
        }
    }

    /// There is something of the buffer to write, and a clock to write it by.
    pub open spec fn writes(self) -> bool {
        self.in_bounds() && self.size > 0 && self.input.clock is Some
    }
}

/// What the port knows of the pending write is what the machine writes: the same buffer,
/// from the same byte on.
pub open spec fn tied(cycle: SinkCycle, port: SinkPort) -> bool {
    port.ext.pending_buffer == Some(cycle.input.buffer_id) && port.ext.pending_offset
        == cycle.offset
}

/// What holds between a machine and its port from one step to the next: from the moment
/// the buffer is matched until it is written or given back, they agree on the pending
/// write.
pub open spec fn linked(cycle: SinkCycle, port: SinkPort) -> bool {
    match cycle.stage {
        SinkStage::Freewheeling | SinkStage::RebuildingClosed | SinkStage::RebuildingPaused
        | SinkStage::ClosingPrefix | SinkStage::Releasing | SinkStage::Done => true,
        _ => tied(cycle, port),
    }
}

/// A step leaves a machine that is linked with its port.
pub open spec fn linked_step(next: SinkStep) -> bool {
    linked(next.0, next.1)
}

/// The cycle ends; `io_status` goes into the exchange area.
pub open spec fn done(cycle: SinkCycle, port: SinkPort, io_status: Option<i32>, result: i32) -> SinkStep {
    (
        cycle.at(SinkStage::Done),
        port,
        SinkAction::Done(
            SinkOutcome {
                io_status,
                result,
                rate_match: cycle.rate_match,
                dropped: cycle.dropped,
            },
        ),
    )
}

/// The buffer goes back to the host, once the input sequence has ended.
pub open spec fn releasing(cycle: SinkCycle, port: SinkPort) -> SinkStep {
    (cycle.at(SinkStage::Releasing), port, SinkAction::EndSequence)
}

/// The buffer's data is written.
pub open spec fn writing(cycle: SinkCycle, port: SinkPort, prelude: Prelude) -> SinkStep {
    (cycle.at(SinkStage::Writing), port, SinkAction::Write { prelude, from: cycle.offset })
}

/// After the write, or what stands for one: back pressure keeps the buffer with
/// the host, anything else hands it back.
#[verifier::opaque]
pub open spec fn after_write(cycle: SinkCycle, port: SinkPort, write: WriteOutcome) -> SinkStep {
    let matching = cycle.input.matching();
    let resuming = port.ext.resuming && (port.ext.pending_offset == 0 || write.blocked());
    let port = Port { was_matching: matching, ext: SinkPortExt { resuming, ..port.ext }, ..port };
    let cycle = SinkCycle { rate_match: Some(matching), ..cycle };
    if write.blocked() {
        done(cycle, port, None, abi::STATUS_OK)
    } else if leaves_tail(cycle.size, write) {
        let pending_offset = sat32(port.ext.pending_offset + write.bytes);
        let port = Port { ext: SinkPortExt { pending_offset, ..port.ext }, ..port };
        done(cycle, port, None, abi::STATUS_OK)
    } else {
        let dropped = if write.bytes < cycle.size {
            (cycle.size - write.bytes) as u32
        } else {
            0
        };
        releasing(SinkCycle { dropped, ..cycle }, port)
    }
}

/// The buffer counts as written without reaching the device.
pub open spec fn consumed(cycle: SinkCycle, port: SinkPort) -> SinkStep {
    after_write(
        cycle,
        port,
        WriteOutcome { bytes: cycle.size as usize, status: IoStatus::Progress },
    )
}

/// After the fill was measured for the rate servo.
#[verifier::opaque]
pub open spec fn after_follow_fill(cycle: SinkCycle, port: SinkPort, fill: u32) -> SinkStep {
    let stride = cycle.request.stride;
    let port_after = followed(port, fill, stride);
    match follower_step(settled_port(port, fill, stride), fill, stride) {
        FillStep::Keep => writing(cycle, port_after, Prelude::Nothing),
        FillStep::Refill(silence) => writing(cycle, port_after, Prelude::Silence(silence)),
        FillStep::Skip => consumed(cycle, port_after),
        FillStep::Servo(err) => writing(cycle, port_after, Prelude::Servo(err)),
    }
}

/// After the fill was measured for the level correction.
#[verifier::opaque]
pub open spec fn after_level_fill(cycle: SinkCycle, port: SinkPort, fill: u32) -> SinkStep {
    match level_step(port, fill) {
        FillStep::Refill(silence) => writing(cycle, port, Prelude::Silence(silence)),
        FillStep::Skip => consumed(cycle, port),
        _ => writing(cycle, port, Prelude::Nothing),
    }
}

/// After the fill was measured for a recovery.
pub open spec fn after_recover_fill(cycle: SinkCycle, port: SinkPort, fill: u32) -> SinkStep {
    writing(cycle, port, Prelude::Silence(sat32(port.ext.target_delay - fill)))
}

/// Either takes the fill from this cycle's event or asks for a measurement.
pub open spec fn with_fill(
    cycle: SinkCycle,
    port: SinkPort,
    stage: SinkStage,
    next: spec_fn(SinkCycle, SinkPort, u32) -> SinkStep,
) -> SinkStep {
    match event_fill_of(&port, true, cycle.input.fd) {
        Some(fill) => next(cycle, port, fill),
        None => (cycle.at(stage), port, SinkAction::MeasureFill),
    }
}

/// Whether a follower corrects its fill in this cycle: the geometry is committed
/// and stable, and was not changed by this very cycle.
pub open spec fn corrects(cycle: SinkCycle, port: SinkPort) -> bool {
    !cycle.retuned && cycle.input.following && port.setup_period != 0 && port.ext.period_mismatch
        == 0
}

/// The write phase: a retained tail goes first, then a pending recovery, then the
/// follower's correction.
#[verifier::opaque]
pub open spec fn write_phase(cycle: SinkCycle, port: SinkPort) -> SinkStep {
    let clock = cycle.input.clock->0;
    if port.ext.pending_offset != 0 {
        writing(cycle, port, Prelude::Nothing)
    } else if port.ext.xrun_timestamp != 0 {
        if recovers(port, clock.nsec, clock.flags) {
            with_fill(
                cycle,
                recovered(port),
                SinkStage::RecoverFill,
                |c: SinkCycle, p: SinkPort, fill: u32| after_recover_fill(c, p, fill),
            )
        } else {
            consumed(cycle, port)
        }
    } else if corrects(cycle, port) && cycle.input.matching() {
        with_fill(
            cycle,
            port,
            SinkStage::FollowFill,
            |c: SinkCycle, p: SinkPort, fill: u32| after_follow_fill(c, p, fill),
        )
    } else if corrects(cycle, port) {
        with_fill(
            cycle,
            port,
            SinkStage::LevelFill,
            |c: SinkCycle, p: SinkPort, fill: u32| after_level_fill(c, p, fill),
        )
    } else {
        writing(cycle, port, Prelude::Nothing)
    }
}

/// After the fill was measured to judge an underrun.
#[verifier::opaque]
pub open spec fn after_underrun_fill(cycle: SinkCycle, port: SinkPort, fill: u32) -> SinkStep {
    write_phase(
        cycle,
        underrun_detected(
            port,
            cycle.request.period,
            cycle.input.now,
            cycle.input.clock->0.nsec,
            fill,
        ),
    )
}

/// After the error counter was taken.
#[verifier::opaque]
pub open spec fn after_xruns(cycle: SinkCycle, port: SinkPort, underruns: u32) -> SinkStep {
    if underruns > 0 {
        with_fill(
            cycle,
            port,
            SinkStage::UnderrunFill,
            |c: SinkCycle, p: SinkPort, fill: u32| after_underrun_fill(c, p, fill),
        )
    } else {
        write_phase(cycle, port)
    }
}

/// After the queue of a resuming channel was measured.
pub open spec fn after_resume_fill(
    cycle: SinkCycle,
    port: SinkPort,
    queued: u32,
    underruns: u32,
) -> SinkStep {
    let prelude = if pause_lost_queue(queued, underruns) {
        Prelude::Silence(port.ext.target_goal)
    } else {
        Prelude::Nothing
    };
    (
        cycle.at(SinkStage::ResumeWrite { queued, underruns }),
        resume_prepared(port, queued, underruns),
        SinkAction::Write { prelude, from: cycle.offset },
    )
}

/// After the error counter of a resuming channel was taken: what accrued over the
/// pause is neither an xrun nor a reason to hold the buffer.
#[verifier::opaque]
pub open spec fn after_resume_xruns(cycle: SinkCycle, port: SinkPort, underruns: u32) -> SinkStep {
    if port.ext.pending_offset == 0 {
        with_fill(
            cycle,
            port,
            SinkStage::ResumeFill { underruns },
            |c: SinkCycle, p: SinkPort, queued: u32| after_resume_fill(c, p, queued, underruns),
        )
    } else {
        write_phase(cycle, port)
    }
}

/// The device phase: a stopped channel is primed, a resuming one continues its
/// queue, a running one is checked for underruns.
#[verifier::opaque]
pub open spec fn device_phase(cycle: SinkCycle, port: SinkPort) -> SinkStep {
    let input = cycle.input;
    if !cycle.running {
        let cycle = SinkCycle { offset: 0, size: (cycle.offset + cycle.size) as u32, ..cycle };
        let port = Port { ext: SinkPortExt { pending_offset: 0, ..port.ext }, ..port };
        if cycle.request.period == 0 {
            releasing(cycle, port)
        } else {
            let port = Port { ext: SinkPortExt { resuming: false, ..port.ext }, ..port };
            match prime_request_of(
                port,
                cycle.request,
                input.max_period,
                input.fragment,
                cycle.chunk,
            ) {
                Some(ring) => (
                    cycle.at(SinkStage::PrimeGrant),
                    port,
                    SinkAction::SetBuffer { ring, fragment: input.fragment },
                ),
                None => write_phase(cycle, port),
            }
        }
    } else {
        match port.current_event(input.fd) {
            Some(event) => {
                let count = counter_delta(event.xruns, port.event_xruns_seen);
                let taken = Port { event_xruns_seen: event.xruns, ..port };
                if port.ext.resuming {
                    after_resume_xruns(cycle, taken, count)
                } else {
                    after_xruns(cycle, taken, count)
                }
            },
            None => {
                let stage = if port.ext.resuming {
                    SinkStage::ResumeXruns
                } else {
                    SinkStage::Xruns
                };
                (cycle.at(stage), port, SinkAction::ReadXruns)
            },
        }
    }
}

/// After the fill was measured for a live retune.
#[verifier::opaque]
pub open spec fn after_retune_fill(cycle: SinkCycle, port: SinkPort, fill: u32) -> SinkStep {
    device_phase(
        SinkCycle { retuned: true, ..cycle },
        retuned_in_place(port, cycle.request, cycle.size, fill),
    )
}

/// The retune phase, on a buffer with something to write.
#[verifier::opaque]
pub open spec fn retune_phase(cycle: SinkCycle, port: SinkPort) -> SinkStep {
    let request = cycle.request;
    let counted = Port {
        ext: SinkPortExt {
            period_mismatch: mismatch_after(port, cycle.running, request.period),
            ..port.ext
        },
        ..port
    };
    match retune_plan(port, cycle.running, request) {
        RetunePlan::Keep => device_phase(cycle, counted),
        RetunePlan::InPlace => with_fill(
            cycle,
            counted,
            SinkStage::RetuneFill,
            |c: SinkCycle, p: SinkPort, fill: u32| after_retune_fill(c, p, fill),
        ),
        RetunePlan::Suspend => (cycle.at(SinkStage::RetuneStop), counted, SinkAction::Stop),
    }
}

/// The buffer phase: the untouched part of the buffer is what this cycle writes.
#[verifier::opaque]
pub open spec fn buffer_phase(cycle: SinkCycle, port: SinkPort, input_size: u32) -> SinkStep {
    let ext = pending_matched(port.ext, cycle.input.buffer_id, input_size as usize);
    let port = Port { ext, ..port };
    let cycle = SinkCycle {
        offset: ext.pending_offset,
        size: (input_size - ext.pending_offset) as u32,
        ..cycle
    };
    if cycle.size == 0 || cycle.input.clock is None {
        releasing(cycle, port)
    } else {
        retune_phase(cycle, port)
    }
}

/// What a cycle asks of the ring: one graph cycle in device bytes.
pub open spec fn request_of(port: SinkPort, input: SinkInput) -> PeriodRequest {
    PeriodRequest {
        period: match input.clock {
            Some(clock) => period_bytes(
                clock.target_duration,
                port.rate(),
                clock.target_rate,
                port.stride(),
            ),
            None => 0,
        },
        stride: port.stride(),
        delay_eighths: input.delay_eighths,
        rate_match_size: input.rate_match_size,
    }
}

/// The hardware's transfer size in bytes.
pub open spec fn chunk_of(port: SinkPort, input: SinkInput) -> u32 {
    frame_bytes_in(input.hw_quantum_ns, port.rate(), port.stride())
}

/// The first operation of a cycle.
pub open spec fn begun(port: SinkPort, input: SinkInput) -> SinkStep {
    let cycle = SinkCycle {
        input,
        stage: SinkStage::Releasing,
        request: request_of(port, input),
        chunk: chunk_of(port, input),
        running: input.phase == DevicePhase::Running,
        retuned: false,
        offset: 0,
        size: 0,
        rate_match: None,
        dropped: 0,
    };
    if input.freewheels() {
        (cycle.at(SinkStage::Freewheeling), port, SinkAction::EndSequence)
    } else if input.rebuilding {
        releasing(cycle, port)
    } else if port.config is None || !input.negotiated {
        done(cycle, port, None, abi::STATUS_OK)
    } else if input.phase == DevicePhase::Closed {
        (cycle.at(SinkStage::RebuildingClosed), port, SinkAction::QueueRebuild)
    } else if port.ext.rebuild_after_start {
        (cycle.at(SinkStage::RebuildingPaused), port, SinkAction::QueueRebuild)
    } else if input.status != abi::STATUS_HAVE_DATA {
        releasing(cycle, port)
    } else {
        match input.input_size {
            None => releasing(cycle, port),
            Some(input_size) => if port.ext.pending_offset != 0 && pending_differs(
                port.ext,
                input.buffer_id,
                input_size as usize,
            ) {
                (cycle.at(SinkStage::ClosingPrefix), port, SinkAction::EndSequence)
            } else {
                buffer_phase(cycle, port, input_size)
            },
        }
    }
}

/// What a reply leads to.
pub open spec fn stepped(cycle: SinkCycle, port: SinkPort, reply: SinkReply) -> SinkStep {
    match (cycle.stage, reply) {
        (SinkStage::Freewheeling, SinkReply::Ended { queue_reset }) => done(
            cycle,
            sequence_ended(port, queue_reset),
            Some(abi::STATUS_NEED_DATA),
            abi::STATUS_HAVE_DATA,
        ),
        (SinkStage::RebuildingClosed, SinkReply::Queued(_)) => releasing(cycle, port),
        (SinkStage::RebuildingPaused, SinkReply::Queued(queued)) => releasing(
            cycle,
            Port {
                ext: SinkPortExt {
                    rebuild_after_start: port.ext.rebuild_after_start && !queued,
                    ..port.ext
                },
                ..port
            },
        ),
        (SinkStage::ClosingPrefix, SinkReply::Ended { queue_reset }) => buffer_phase(
            cycle,
            sequence_ended(port, queue_reset),
            cycle.input.input_size->0,
        ),
        (SinkStage::RetuneFill, SinkReply::Fill(fill)) => after_retune_fill(cycle, port, fill),
        (SinkStage::RetuneStop, SinkReply::Stopped(accepted)) => if accepted {
            device_phase(
                SinkCycle { retuned: true, running: false, ..cycle },
                retune_stopped(port, true),
            )
        } else {
            (cycle.at(SinkStage::RebuildingRefused), port, SinkAction::QueueRebuild)
        },
        (SinkStage::RebuildingRefused, SinkReply::Queued(queued)) => if queued {
            releasing(cycle, Port { was_matching: false, ..port })
        } else {
            device_phase(cycle, port)
        },
        (SinkStage::PrimeGrant, SinkReply::Granted { ring, blocksize }) => {
            let port = primed(port, cycle.request, ring, blocksize, cycle.chunk);
            (
                cycle.at(SinkStage::PrimeSilence),
                port,
                SinkAction::WriteSilence(port.ext.target_delay),
            )
        },
        (SinkStage::PrimeSilence, SinkReply::Silenced) => write_phase(cycle, port),
        (SinkStage::ResumeXruns, SinkReply::Xruns(total)) => after_resume_xruns(
            cycle,
            Port { event_xruns_seen: 0, ..port },
            counter_delta(total, port.event_xruns_seen),
        ),
        (SinkStage::ResumeFill { underruns }, SinkReply::Fill(queued)) => after_resume_fill(
            cycle,
            port,
            queued,
            underruns,
        ),
        (SinkStage::ResumeWrite { queued, underruns }, SinkReply::Written(written)) => after_write(
            cycle,
            resume_written(port, queued, underruns, written),
            written,
        ),
        (SinkStage::Xruns, SinkReply::Xruns(total)) => after_xruns(
            cycle,
            Port { event_xruns_seen: 0, ..port },
            counter_delta(total, port.event_xruns_seen),
        ),
        (SinkStage::UnderrunFill, SinkReply::Fill(fill)) => after_underrun_fill(cycle, port, fill),
        (SinkStage::RecoverFill, SinkReply::Fill(fill)) => after_recover_fill(cycle, port, fill),
        (SinkStage::FollowFill, SinkReply::Fill(fill)) => after_follow_fill(cycle, port, fill),
        (SinkStage::LevelFill, SinkReply::Fill(fill)) => after_level_fill(cycle, port, fill),
        (SinkStage::Writing, SinkReply::Written(written)) => after_write(cycle, port, written),
        (SinkStage::Releasing, SinkReply::Ended { queue_reset }) => done(
            cycle,
            sequence_ended(port, queue_reset),
            Some(abi::STATUS_NEED_DATA),
            abi::STATUS_NEED_DATA,
        ),
        _ => done(cycle, port, None, abi::STATUS_OK),
    }
}

impl SinkInput {
    fn matching_now(&self) -> (matching: bool)
        ensures
            matching == self.matching(),
    {
        self.following && !self.same_clock
    }
}

/// A step leaves a sound machine, which waits for the operation that it named and
/// can name at most `rank` more.
pub open spec fn sound_step(next: SinkStep, rank: nat) -> bool {
    &&& next.0.wf()
    &&& next.0.stage.awaits(next.2)
    &&& next.0.stage.rank() <= rank
    &&& next.2 matches SinkAction::Write { from, .. } ==> from == next.0.offset
}

proof fn write_is_sound(cycle: SinkCycle, port: SinkPort)
    requires
        cycle.writes(),
    ensures
        forall|write: WriteOutcome| sound_step(#[trigger] after_write(cycle, port, write), 1),
        forall|fill: u32| sound_step(#[trigger] after_follow_fill(cycle, port, fill), 3),
        forall|fill: u32| sound_step(#[trigger] after_level_fill(cycle, port, fill), 3),
        forall|write: WriteOutcome| linked_step(#[trigger] after_write(cycle, port, write)),
        tied(cycle, port) ==> forall|fill: u32|
            linked_step(#[trigger] after_follow_fill(cycle, port, fill)),
        tied(cycle, port) ==> forall|fill: u32|
            linked_step(#[trigger] after_level_fill(cycle, port, fill)),
{
    reveal(after_write);
    reveal(after_follow_fill);
    reveal(after_level_fill);
}

proof fn write_phase_is_sound(cycle: SinkCycle, port: SinkPort)
    requires
        cycle.writes(),
    ensures
        sound_step(write_phase(cycle, port), 4),
        tied(cycle, port) ==> linked_step(write_phase(cycle, port)),
{
    reveal(write_phase);
    write_is_sound(cycle, port);
    write_is_sound(cycle, recovered(port));
}

proof fn xruns_are_sound(cycle: SinkCycle, port: SinkPort, count: u32)
    requires
        cycle.writes(),
    ensures
        sound_step(after_xruns(cycle, port, count), 5),
        sound_step(after_resume_xruns(cycle, port, count), 5),
        forall|fill: u32| sound_step(#[trigger] after_underrun_fill(cycle, port, fill), 4),
        tied(cycle, port) ==> linked_step(after_xruns(cycle, port, count)),
        tied(cycle, port) ==> linked_step(after_resume_xruns(cycle, port, count)),
        tied(cycle, port) ==> forall|fill: u32|
            linked_step(#[trigger] after_underrun_fill(cycle, port, fill)),
{
    reveal(after_xruns);
    reveal(after_resume_xruns);
    reveal(after_underrun_fill);
    write_phase_is_sound(cycle, port);
    assert forall|fill: u32|
        sound_step(#[trigger] after_underrun_fill(cycle, port, fill), 4) && (tied(cycle, port)
            ==> linked_step(after_underrun_fill(cycle, port, fill))) by {
        write_phase_is_sound(
            cycle,
            underrun_detected(
                port,
                cycle.request.period,
                cycle.input.now,
                cycle.input.clock->0.nsec,
                fill,
            ),
        );
    }
}

proof fn device_phase_is_sound(cycle: SinkCycle, port: SinkPort)
    requires
        cycle.writes(),
    ensures
        sound_step(device_phase(cycle, port), 6),
        tied(cycle, port) ==> linked_step(device_phase(cycle, port)),
{
    reveal(device_phase);
    if cycle.running {
        if let Some(event) = port.current_event(cycle.input.fd) {
            xruns_are_sound(
                cycle,
                Port { event_xruns_seen: event.xruns, ..port },
                counter_delta(event.xruns, port.event_xruns_seen),
            );
        }
    } else {
        let replay = SinkCycle { offset: 0, size: (cycle.offset + cycle.size) as u32, ..cycle };
        write_phase_is_sound(
            replay,
            Port {
                ext: SinkPortExt { pending_offset: 0, resuming: false, ..port.ext },
                ..port
            },
        );
    }
}

proof fn retune_phase_is_sound(cycle: SinkCycle, port: SinkPort)
    requires
        cycle.writes(),
    ensures
        sound_step(retune_phase(cycle, port), 8),
        forall|p: SinkPort, fill: u32|
            sound_step(#[trigger] after_retune_fill(cycle, p, fill), 6),
        tied(cycle, port) ==> linked_step(retune_phase(cycle, port)),
        forall|p: SinkPort, fill: u32|
            tied(cycle, p) ==> linked_step(#[trigger] after_retune_fill(cycle, p, fill)),
{
    reveal(after_retune_fill);
    reveal(retune_phase);
    assert forall|p: SinkPort, fill: u32|
        sound_step(#[trigger] after_retune_fill(cycle, p, fill), 6) && (tied(cycle, p)
            ==> linked_step(after_retune_fill(cycle, p, fill))) by {
        device_phase_is_sound(
            SinkCycle { retuned: true, ..cycle },
            retuned_in_place(p, cycle.request, cycle.size, fill),
        );
    }
    device_phase_is_sound(
        cycle,
        Port {
            ext: SinkPortExt {
                period_mismatch: mismatch_after(port, cycle.running, cycle.request.period),
                ..port.ext
            },
            ..port
        },
    );
}

proof fn buffer_phase_is_sound(cycle: SinkCycle, port: SinkPort, input_size: u32)
    requires
        cycle.input.input_size == Some(input_size),
    ensures
        sound_step(buffer_phase(cycle, port, input_size), 8),
        linked_step(buffer_phase(cycle, port, input_size)),
{
    reveal(buffer_phase);
    let ext = pending_matched(port.ext, cycle.input.buffer_id, input_size as usize);
    let next = SinkCycle {
        offset: ext.pending_offset,
        size: (input_size - ext.pending_offset) as u32,
        ..cycle
    };
    if next.size != 0 && cycle.input.clock is Some {
        retune_phase_is_sound(next, Port { ext, ..port });
    }
}

/// Every cycle starts soundly: whatever the graph and the device show, the first
/// operation is one that the machine can take the result of, and the machine and the port
/// agree on the pending write.
pub proof fn beginning_is_sound(port: SinkPort, input: SinkInput)
    ensures
        sound_step(begun(port, input), 9),
        linked_step(begun(port, input)),
{
    if let Some(input_size) = input.input_size {
        let cycle = SinkCycle {
            input,
            stage: SinkStage::Releasing,
            request: request_of(port, input),
            chunk: chunk_of(port, input),
            running: input.phase == DevicePhase::Running,
            retuned: false,
            offset: 0,
            size: 0,
            rate_match: None,
            dropped: 0,
        };
        buffer_phase_is_sound(cycle, port, input_size);
    }
}

/// Every step brings the cycle nearer to its end, and a write never leaves the
/// buffer: a cycle asks for at most ten operations, whatever the device answers. A machine
/// and a port that agree on the pending write go on to agree.
pub proof fn every_step_makes_progress(cycle: SinkCycle, port: SinkPort, reply: SinkReply)
    requires
        cycle.wf(),
        cycle.stage.accepts(reply, cycle.size),
    ensures
        sound_step(stepped(cycle, port, reply), (cycle.stage.rank() - 1) as nat),
        linked(cycle, port) ==> linked_step(stepped(cycle, port, reply)),
{
    match (cycle.stage, reply) {
        (SinkStage::ClosingPrefix, SinkReply::Ended { queue_reset }) => {
            buffer_phase_is_sound(
                cycle,
                sequence_ended(port, queue_reset),
                cycle.input.input_size->0,
            );
        },
        (SinkStage::RetuneFill, SinkReply::Fill(fill)) => {
            retune_phase_is_sound(cycle, port);
            assert(sound_step(after_retune_fill(cycle, port, fill), 6));
        },
        (SinkStage::RetuneStop, _) => {
            device_phase_is_sound(
                SinkCycle { retuned: true, running: false, ..cycle },
                retune_stopped(port, true),
            );
        },
        (SinkStage::RebuildingRefused, _) => {
            device_phase_is_sound(cycle, port);
        },
        (SinkStage::PrimeSilence, _) => {
            write_phase_is_sound(cycle, port);
        },
        (SinkStage::ResumeXruns, SinkReply::Xruns(total)) => {
            xruns_are_sound(
                cycle,
                Port { event_xruns_seen: 0, ..port },
                counter_delta(total, port.event_xruns_seen),
            );
        },
        (SinkStage::Xruns, SinkReply::Xruns(total)) => {
            xruns_are_sound(
                cycle,
                Port { event_xruns_seen: 0, ..port },
                counter_delta(total, port.event_xruns_seen),
            );
        },
        (SinkStage::UnderrunFill, SinkReply::Fill(fill)) => {
            xruns_are_sound(cycle, port, 0);
            assert(sound_step(after_underrun_fill(cycle, port, fill), 4));
        },
        (SinkStage::ResumeWrite { queued, underruns }, SinkReply::Written(written)) => {
            write_is_sound(cycle, resume_written(port, queued, underruns, written));
        },
        (SinkStage::FollowFill | SinkStage::LevelFill | SinkStage::Writing, _) => {
            write_is_sound(cycle, port);
        },
        _ => {},
    }
}

/// Once the device accepted a prefix of a buffer, the rest follows before anything
/// else: no recovery, no silence and no skipping comes between the two pieces.
pub proof fn retained_tail_goes_first(cycle: SinkCycle, port: SinkPort)
    requires
        cycle.writes(),
        port.ext.pending_offset != 0,
    ensures
        write_phase(cycle, port) == writing(cycle, port, Prelude::Nothing),
{
    reveal(write_phase);
}

/// While a recovery holds, buffers are handed back unwritten, and the hold stays as it
/// was stamped.
pub proof fn held_buffer_never_reaches_the_device(cycle: SinkCycle, port: SinkPort)
    requires
        cycle.writes(),
        port.ext.pending_offset == 0,
        port.ext.xrun_timestamp != 0,
        !recovers(port, cycle.input.clock->0.nsec, cycle.input.clock->0.flags),
    ensures
        ({
            let next = write_phase(cycle, port);
            &&& next.2 == SinkAction::EndSequence
            &&& next.0.stage == SinkStage::Releasing
            &&& next.0.dropped == 0
            &&& next.1.ext.xrun_timestamp == port.ext.xrun_timestamp
        }),
{
    reveal(write_phase);
    reveal(after_write);
}

/// A cycle that changed the geometry writes its buffer as it is: a live stream moves to
/// another period without silence in it and without a lost buffer.
pub proof fn retune_splices_nothing(cycle: SinkCycle, port: SinkPort)
    requires
        cycle.writes(),
        cycle.retuned,
        port.ext.xrun_timestamp == 0,
    ensures
        write_phase(cycle, port) == writing(cycle, port, Prelude::Nothing),
{
    reveal(write_phase);
}

/// The first buffer after a pause is written in its own cycle, behind the queue that
/// survived or behind the silence that replaces it.
pub proof fn resumed_buffer_is_not_held(
    cycle: SinkCycle,
    port: SinkPort,
    queued: u32,
    underruns: u32,
)
    ensures
        after_resume_fill(cycle, port, queued, underruns).2 matches SinkAction::Write {
            from,
            prelude,
        } && from == cycle.offset && (prelude == Prelude::Nothing || prelude == Prelude::Silence(
            port.ext.target_goal,
        )),
{
}

/// Back pressure loses nothing: after a blocked or a short write the host keeps its
/// buffer, and the port knows which buffer it is and how much of it was accepted. Any
/// other write hands the buffer back and says how much of it was given up.
pub proof fn back_pressure_keeps_the_buffer(cycle: SinkCycle, port: SinkPort, write: WriteOutcome)
    requires
        cycle.wf(),
        linked(cycle, port),
        cycle.stage is Writing || cycle.stage is ResumeWrite,
        cycle.stage.accepts(SinkReply::Written(write), cycle.size),
    ensures
        ({
            let next = stepped(cycle, port, SinkReply::Written(write));
            &&& write.blocked() || leaves_tail(cycle.size, write) ==> {
                &&& next.2 matches SinkAction::Done(outcome) && outcome.io_status is None
                    && outcome.result == abi::STATUS_OK && outcome.dropped == cycle.dropped
                &&& next.1.ext.pending_offset == cycle.offset + write.bytes
                &&& next.1.ext.pending_buffer == Some(cycle.input.buffer_id)
            }
            &&& !write.blocked() && !leaves_tail(cycle.size, write) ==> next.2
                == SinkAction::EndSequence && next.0.dropped == cycle.size - write.bytes
        }),
{
    reveal(after_write);
}

/// While the graph freewheels the device is not written to: the input is consumed, and
/// the pump keeps running.
pub proof fn freewheel_leaves_the_device_alone(port: SinkPort, input: SinkInput, queue_reset: bool)
    requires
        input.freewheels(),
    ensures
        ({
            let (cycle, begun_port, action) = begun(port, input);
            &&& action == SinkAction::EndSequence
            &&& begun_port == port
            &&& stepped(cycle, port, SinkReply::Ended { queue_reset }).2 matches SinkAction::Done(
                outcome,
            ) && outcome.io_status == Some(abi::STATUS_NEED_DATA) && outcome.result
                == abi::STATUS_HAVE_DATA
        }),
{
}

/// A channel is never primed for a period of zero: without a position the buffer goes
/// back and nothing of the geometry is committed.
pub proof fn zero_period_is_never_primed(cycle: SinkCycle, port: SinkPort)
    requires
        cycle.writes(),
        !cycle.running,
        cycle.request.period == 0,
    ensures
        ({
            let next = device_phase(cycle, port);
            &&& next.2 == SinkAction::EndSequence
            &&& next.1.setup_period == port.setup_period
            &&& next.1.ext.target_delay == port.ext.target_delay
            &&& next.1.ext.target_goal == port.ext.target_goal
        }),
{
    reveal(device_phase);
}

/// A cycle in the middle of a stream: a running device, a fresh buffer to write, and
/// nothing left over from a pause, an underrun or an earlier write.
pub open spec fn mid_stream(port: SinkPort, input: SinkInput) -> bool {
    &&& port.config is Some
    &&& input.negotiated
    &&& !input.rebuilding
    &&& input.phase == DevicePhase::Running
    &&& input.status == abi::STATUS_HAVE_DATA
    &&& input.input_size matches Some(size) && size > 0
    &&& input.clock matches Some(clock) && clock.flags & abi::CLOCK_FLAG_FREEWHEEL == 0
    &&& !port.ext.rebuild_after_start
    &&& !port.ext.resuming
    &&& port.ext.pending_offset == 0
    &&& port.ext.xrun_timestamp == 0
}

/// The graph's period is the one that the port is set up for.
pub open spec fn at_its_period(port: SinkPort, input: SinkInput) -> bool {
    port.setup_period != 0 && (input.clock matches Some(clock) && period_bytes(
        clock.target_duration,
        port.rate(),
        clock.target_rate,
        port.stride(),
    ) == port.setup_period)
}

/// No wake-up reported on the descriptor that the cycle works with.
pub open spec fn without_event(port: SinkPort, input: SinkInput) -> bool {
    port.device_event matches Some(event) ==> input.fd != Some(event.fd)
}

proof fn corrections_agree(a: SinkCycle, b: SinkCycle, p: SinkPort, q: SinkPort, fill: u32)
    requires
        a == b.at(a.stage),
        p.ext == q.ext,
        p.servo == q.servo,
        p.setup_period == q.setup_period,
        p.was_matching == q.was_matching,
    ensures
        ({
            let (x, y) = (after_follow_fill(a, p, fill), after_follow_fill(b, q, fill));
            x.2 == y.2 && x.0.stage == y.0.stage && x.1.ext == y.1.ext && x.1.servo == y.1.servo
        }),
        ({
            let (x, y) = (after_level_fill(a, p, fill), after_level_fill(b, q, fill));
            x.2 == y.2 && x.0.stage == y.0.stage && x.1.ext == y.1.ext && x.1.servo == y.1.servo
        }),
{
    reveal(after_follow_fill);
    reveal(after_level_fill);
    reveal(after_write);
}

proof fn informed_cycle_corrects_at_once(port: SinkPort, input: SinkInput, fill: u32)
    requires
        mid_stream(port, input),
        at_its_period(port, input),
        input.following,
        port.device_event matches Some(event) && input.fd == Some(event.fd) && event.xruns
            == port.event_xruns_seen,
        event_fill_of(&port, true, input.fd) == Some(fill),
    ensures
        ({
            let known = Port {
                ext: SinkPortExt {
                    pending_buffer: Some(input.buffer_id),
                    period_mismatch: 0,
                    ..port.ext
                },
                ..port
            };
            let first = begun(Port { device_event: None, ..port }, input);
            let cycle = stepped(
                first.0,
                first.1,
                SinkReply::Xruns(port.event_xruns_seen),
            ).0.at(SinkStage::Releasing);
            begun(port, input) == if input.same_clock {
                after_level_fill(cycle, known, fill)
            } else {
                after_follow_fill(cycle, known, fill)
            }
        }),
{
    reveal(buffer_phase);
    reveal(retune_phase);
    reveal(device_phase);
    reveal(after_xruns);
    reveal(write_phase);
}

/// A follower on a foreign clock keeps its queue at the target. A queue more than a period
/// short of it is filled up with exactly the silence that is missing, in front of the
/// buffer; one more than a period above it drains while the buffer goes back unwritten;
/// anything in between is left to the rate servo, which gets the deviation in half bytes,
/// within half a period or 256 frames. A target below its goal has moved up before that,
/// no further ahead of the queue than a quarter period or a frame.
pub proof fn follower_brings_the_queue_to_its_target(cycle: SinkCycle, port: SinkPort, fill: u32)
    requires
        cycle.stage == SinkStage::FollowFill,
    ensures
        ({
            let next = stepped(cycle, port, SinkReply::Fill(fill));
            let target = next.1.ext.target_delay;
            let goal = port.ext.target_goal;
            let period = port.setup_period;
            let stride = cycle.request.stride;
            let lead = imax(period as int / 4, stride as int);
            let bound = imax(period as int, 512 * stride);
            let twice = 2 * (fill - target);
            &&& target == if port.ext.target_delay >= goal {
                port.ext.target_delay as int
            } else {
                imax(port.ext.target_delay as int, imin(fill + lead, goal as int))
            }
            &&& target - fill > period ==> next.2 == (SinkAction::Write {
                prelude: Prelude::Silence((target - fill) as u32),
                from: cycle.offset,
            })
            &&& fill - target > period ==> next.2 == SinkAction::EndSequence && next.0.stage
                == SinkStage::Releasing && next.0.dropped == 0
            &&& -period <= fill - target <= period ==> next.2 == (SinkAction::Write {
                prelude: Prelude::Servo(
                    (if twice > bound {
                        bound
                    } else if twice < -bound {
                        -bound
                    } else {
                        twice
                    }) as i64,
                ),
                from: cycle.offset,
            })
            &&& next.1.servo.geometry == port.servo.geometry
            &&& -period <= fill - target <= period && port.was_matching ==> next.1.servo
                == port.servo
            &&& !(-period <= fill - target <= period && port.was_matching)
                ==> next.1.servo.loop_cold && next.1.servo.bandwidth_cold
        }),
{
    reveal(after_follow_fill);
    reveal(after_write);
}

/// A follower on the device's own clock corrects its queue in the same way, but has no rate
/// to match: within a period of the target the buffer is written as it is, and the target
/// stays where it is.
pub proof fn own_clock_corrects_only_past_a_period(cycle: SinkCycle, port: SinkPort, fill: u32)
    requires
        cycle.stage == SinkStage::LevelFill,
    ensures
        ({
            let next = stepped(cycle, port, SinkReply::Fill(fill));
            let target = port.ext.target_delay;
            let period = port.setup_period;
            &&& next.1.ext.target_delay == target
            &&& next.1.servo == port.servo
            &&& target - fill > period ==> next.2 == (SinkAction::Write {
                prelude: Prelude::Silence((target - fill) as u32),
                from: cycle.offset,
            })
            &&& fill - target > period ==> next.2 == SinkAction::EndSequence && next.0.stage
                == SinkStage::Releasing && next.0.dropped == 0
            &&& -period <= fill - target <= period ==> next.2 == (SinkAction::Write {
                prelude: Prelude::Nothing,
                from: cycle.offset,
            })
        }),
{
    reveal(after_level_fill);
    reveal(after_write);
}

/// In the middle of a stream the errors are asked for first. Without new ones a follower
/// measures its queue, for the rate servo on a foreign clock and for the level on the
/// device's own; a driver writes the buffer as it is. Until then the port is as it was, but
/// for the buffer that it now knows.
pub proof fn steady_cycle_corrects_followers_only(port: SinkPort, input: SinkInput, total: u32)
    requires
        mid_stream(port, input),
        at_its_period(port, input),
        without_event(port, input),
        total == port.event_xruns_seen || total == 0,
    ensures
        ({
            let first = begun(port, input);
            let next = stepped(first.0, first.1, SinkReply::Xruns(total));
            let known = Port {
                ext: SinkPortExt {
                    pending_buffer: Some(input.buffer_id),
                    period_mismatch: 0,
                    ..port.ext
                },
                ..port
            };
            &&& first.2 == SinkAction::ReadXruns
            &&& first.1 == known
            &&& next.1 == (Port { event_xruns_seen: 0, ..known })
            &&& next.0.offset == 0 && next.0.size == input.input_size->0
            &&& next.0.request.stride == port.stride()
            &&& input.following && !input.same_clock ==> next.2 == SinkAction::MeasureFill
                && next.0.stage == SinkStage::FollowFill
            &&& input.following && input.same_clock ==> next.2 == SinkAction::MeasureFill
                && next.0.stage == SinkStage::LevelFill
            &&& !input.following ==> next.2 == (SinkAction::Write {
                prelude: Prelude::Nothing,
                from: 0,
            })
        }),
{
    reveal(buffer_phase);
    reveal(retune_phase);
    reveal(device_phase);
    reveal(after_xruns);
    reveal(write_phase);
}

/// What a wake-up reported stands for the measurements: a cycle that has a report about
/// its own device ends up with the write that it would have made with the same numbers
/// from the device, and asks the device for neither of them.
pub proof fn report_stands_for_the_measurements(port: SinkPort, input: SinkInput, frames: u64)
    requires
        mid_stream(port, input),
        at_its_period(port, input),
        input.following,
        port.device_event matches Some(event) && input.fd == Some(event.fd)
            && event.queued_frames == Some(frames) && event.xruns == port.event_xruns_seen,
    ensures
        ({
            let informed = begun(port, input);
            let first = begun(Port { device_event: None, ..port }, input);
            let second = stepped(first.0, first.1, SinkReply::Xruns(port.event_xruns_seen));
            let bytes = frames * port.stride();
            let fill = if bytes > u32::MAX {
                u32::MAX
            } else {
                bytes as u32
            };
            let third = stepped(second.0, second.1, SinkReply::Fill(fill));
            &&& second.2 == SinkAction::MeasureFill
            &&& informed.2 == third.2
            &&& informed.0.stage == third.0.stage
            &&& informed.1.ext == third.1.ext
            &&& informed.1.servo == third.1.servo
        }),
{
    let quiet = Port { device_event: None, ..port };
    steady_cycle_corrects_followers_only(quiet, input, port.event_xruns_seen);
    assert(frames * port.stride() >= 0) by (nonlinear_arith)
        requires
            frames >= 0,
            port.stride() >= 0,
    ;
    let fill = sat32(frames * port.stride());
    let known = Port {
        ext: SinkPortExt { pending_buffer: Some(input.buffer_id), period_mismatch: 0, ..port.ext },
        ..port
    };
    let first = begun(quiet, input);
    let second = stepped(first.0, first.1, SinkReply::Xruns(port.event_xruns_seen));
    let cycle = second.0.at(SinkStage::Releasing);
    informed_cycle_corrects_at_once(port, input, fill);
    corrections_agree(cycle, second.0, known, second.1, fill);
}

/// New errors alone are no underrun: the queue is measured, whoever drives the graph.
pub proof fn new_errors_have_the_queue_measured(port: SinkPort, input: SinkInput, total: u32)
    requires
        mid_stream(port, input),
        at_its_period(port, input),
        without_event(port, input),
        total != port.event_xruns_seen,
        total != 0,
    ensures
        ({
            let first = begun(port, input);
            let next = stepped(first.0, first.1, SinkReply::Xruns(total));
            &&& first.2 == SinkAction::ReadXruns
            &&& next.2 == SinkAction::MeasureFill
            &&& next.0.stage == SinkStage::UnderrunFill
            &&& next.1.ext.xrun_timestamp == 0
            &&& next.1.event_xruns_seen == 0
        }),
{
    reveal(buffer_phase);
    reveal(retune_phase);
    reveal(device_phase);
    reveal(after_xruns);
}

/// A queue that is really low is an underrun. The host is told when, the hold is stamped
/// with the driver's time, and the buffer goes back unwritten. Low is below a period or the
/// target less one transfer, though at least a quarter period; a late wake-up lowers the
/// bound by what was played since, down to a sixteenth of a period. A queue that is not low
/// leaves no trace.
pub proof fn low_queue_is_an_underrun(cycle: SinkCycle, port: SinkPort, fill: u32)
    requires
        cycle.stage == SinkStage::UnderrunFill,
        cycle.input.clock is Some,
        port.config is Some,
        port.ext.pending_offset == 0,
        port.ext.xrun_timestamp == 0,
        without_event(port, cycle.input),
    ensures
        ({
            let next = stepped(cycle, port, SinkReply::Fill(fill));
            let nsec = cycle.input.clock->0.nsec;
            let now = cycle.input.now;
            let late = imax(0, now - nsec);
            let played = sat32((late * port.rate()) * port.stride() / 1_000_000_000);
            let period = cycle.request.period as int;
            let target = port.ext.target_delay;
            let block = port.setup_blocksize;
            let on_time = imax(imin(period, imax(0, target - block)), period / 4);
            let wander = imax(period / 4, block as int);
            let low = imax(imin(on_time, imax(0, target - played - wander)), period / 16);
            &&& fill < low ==> {
                &&& next.2 == SinkAction::EndSequence
                &&& next.0.stage == SinkStage::Releasing
                &&& next.0.dropped == 0
                &&& next.1.pending_xrun == Some((now / 1000) as u64)
                &&& next.1.ext.xrun_timestamp == if nsec == 0 {
                    1
                } else {
                    nsec
                }
            }
            &&& fill >= low ==> {
                &&& next.1.pending_xrun == port.pending_xrun
                &&& next.1.ext.xrun_timestamp == 0
                &&& next.1.ext.target_delay == target
                &&& !cycle.input.following ==> next.2 == (SinkAction::Write {
                    prelude: Prelude::Nothing,
                    from: cycle.offset,
                })
                &&& cycle.input.following && !cycle.retuned && port.setup_period != 0
                    && port.ext.period_mismatch == 0 ==> next.2 == SinkAction::MeasureFill
                    && next.0.stage == if cycle.input.same_clock {
                    SinkStage::LevelFill
                } else {
                    SinkStage::FollowFill
                }
            }
        }),
{
    reveal(after_underrun_fill);
    reveal(write_phase);
    reveal(after_write);
}

/// A hold ends with the first cycle past the underrun, unless the host recovers by itself:
/// the servo starts over, the target is at least the safe one and never above its goal, and
/// the buffer follows the silence that fills the queue up to it. Until then every buffer
/// goes back unwritten.
pub proof fn hold_ends_past_the_underrun(cycle: SinkCycle, port: SinkPort, total: u32, fill: u32)
    requires
        cycle.stage == SinkStage::Xruns,
        cycle.input.clock is Some,
        port.ext.pending_offset == 0,
        port.ext.xrun_timestamp != 0,
        without_event(port, cycle.input),
        total == port.event_xruns_seen || total == 0,
    ensures
        ({
            let clock = cycle.input.clock->0;
            let next = stepped(cycle, port, SinkReply::Xruns(total));
            let goal = port.ext.target_goal as int;
            let period = port.setup_period as int;
            let safe = imin(
                period + imax(period / 4, port.setup_blocksize as int),
                u32::MAX as int,
            );
            let target = next.1.ext.target_delay;
            if clock.nsec > port.ext.xrun_timestamp && clock.flags & abi::CLOCK_FLAG_XRUN_RECOVER
                == 0 {
                &&& next.2 == SinkAction::MeasureFill
                &&& next.0.stage == SinkStage::RecoverFill
                &&& next.1.ext.xrun_timestamp == 0
                &&& next.1.servo.loop_cold && next.1.servo.bandwidth_cold
                &&& target == imin(imax(port.ext.target_delay as int, imin(safe, goal)), goal)
                &&& stepped(next.0, next.1, SinkReply::Fill(fill)).2 == (SinkAction::Write {
                    prelude: Prelude::Silence(
                        if fill < target {
                            (target - fill) as u32
                        } else {
                            0
                        },
                    ),
                    from: cycle.offset,
                })
            } else {
                &&& next.2 == SinkAction::EndSequence
                &&& next.0.stage == SinkStage::Releasing
                &&& next.0.dropped == 0
                &&& next.1.ext == port.ext
                &&& next.1.servo == port.servo
            }
        }),
{
    reveal(after_xruns);
    reveal(write_phase);
    reveal(after_write);
}

/// What a cycle does that has nothing to write. While the graph freewheels, or a rebuild is
/// in flight, or there is no data or no usable buffer, the input goes back. Without a format
/// or an exchange area the cycle ends at once. A closed device, and one that a pause left
/// unusable, is handed to the worker first.
pub proof fn cycle_without_a_write(port: SinkPort, input: SinkInput)
    ensures
        ({
            let freewheels = input.clock matches Some(clock) && clock.flags
                & abi::CLOCK_FLAG_FREEWHEEL != 0;
            let ready = !freewheels && !input.rebuilding && port.config is Some
                && input.negotiated;
            let usable = ready && input.phase != DevicePhase::Closed
                && !port.ext.rebuild_after_start;
            let next = begun(port, input);
            &&& freewheels ==> next.2 == SinkAction::EndSequence && next.0.stage
                == SinkStage::Freewheeling && next.1 == port
            &&& !freewheels && input.rebuilding ==> next.2 == SinkAction::EndSequence
                && next.0.stage == SinkStage::Releasing && next.1 == port
            &&& !freewheels && !input.rebuilding && !ready ==> next.1 == port && next.2
                == SinkAction::Done(
                SinkOutcome {
                    io_status: None,
                    result: abi::STATUS_OK,
                    rate_match: None,
                    dropped: 0,
                },
            )
            &&& ready && !usable ==> next.2 == SinkAction::QueueRebuild && next.1 == port
            &&& usable && (input.status != abi::STATUS_HAVE_DATA || input.input_size is None)
                ==> next.2 == SinkAction::EndSequence && next.0.stage == SinkStage::Releasing
                && next.1 == port
            &&& usable && input.status == abi::STATUS_HAVE_DATA && input.input_size == Some(0u32)
                && port.ext.pending_offset == 0 ==> next.2 == SinkAction::EndSequence
                && next.0.stage == SinkStage::Releasing
        }),
{
    reveal(buffer_phase);
}

/// An order for a rebuild gives the input back in the same cycle. A device that a pause
/// left unusable is asked for again until an order is taken.
pub proof fn rebuild_order_gives_the_input_back(port: SinkPort, input: SinkInput, queued: bool)
    requires
        port.config is Some,
        input.negotiated,
        !input.rebuilding,
        input.clock matches Some(clock) ==> clock.flags & abi::CLOCK_FLAG_FREEWHEEL == 0,
        input.phase == DevicePhase::Closed || port.ext.rebuild_after_start,
    ensures
        ({
            let first = begun(port, input);
            let next = stepped(first.0, first.1, SinkReply::Queued(queued));
            &&& first.2 == SinkAction::QueueRebuild
            &&& first.1 == port
            &&& next.2 == SinkAction::EndSequence
            &&& next.0.stage == SinkStage::Releasing
            &&& next.1 == (Port {
                ext: SinkPortExt {
                    rebuild_after_start: port.ext.rebuild_after_start && (input.phase
                        == DevicePhase::Closed || !queued),
                    ..port.ext
                },
                ..port
            })
        }),
{
}

/// Input that goes back is asked for again, and the port forgets which buffer it was; a
/// freewheeling graph is told to go on at once. A queue that had to be reset for that takes
/// the reports about it along.
pub proof fn input_goes_back(cycle: SinkCycle, port: SinkPort, queue_reset: bool)
    requires
        cycle.stage == SinkStage::Releasing || cycle.stage == SinkStage::Freewheeling,
    ensures
        ({
            let next = stepped(cycle, port, SinkReply::Ended { queue_reset });
            &&& next.0.stage == SinkStage::Done
            &&& next.2 == SinkAction::Done(
                SinkOutcome {
                    io_status: Some(abi::STATUS_NEED_DATA),
                    result: if cycle.stage == SinkStage::Freewheeling {
                        abi::STATUS_HAVE_DATA
                    } else {
                        abi::STATUS_NEED_DATA
                    },
                    rate_match: cycle.rate_match,
                    dropped: cycle.dropped,
                },
            )
            &&& next.1.ext == (SinkPortExt {
                pending_buffer: None,
                pending_offset: 0,
                ..port.ext
            })
            &&& next.1 == if queue_reset {
                Port {
                    device_event: None,
                    device_eof: false,
                    event_xruns_seen: 0,
                    wake_threshold: 0,
                    ext: next.1.ext,
                    ..port
                }
            } else {
                Port { ext: next.1.ext, ..port }
            }
        }),
{
}

/// The rest of a buffer is written from where the device stopped. Only where the host
/// replaced the buffer, or handed over less of it than was accepted, the open frame is
/// closed first, and the new buffer is written from its beginning.
pub proof fn tail_is_written_from_where_it_stopped(
    port: SinkPort,
    input: SinkInput,
    total: u32,
    queue_reset: bool,
)
    requires
        port.config is Some,
        input.negotiated,
        !input.rebuilding,
        input.phase == DevicePhase::Running,
        input.status == abi::STATUS_HAVE_DATA,
        input.input_size is Some,
        input.clock matches Some(clock) && clock.flags & abi::CLOCK_FLAG_FREEWHEEL == 0,
        !port.ext.rebuild_after_start,
        !port.ext.resuming,
        port.ext.pending_offset != 0,
        at_its_period(port, input),
        without_event(port, input),
        total == port.event_xruns_seen || total == 0,
    ensures
        ({
            let size = input.input_size->0;
            let offset = port.ext.pending_offset;
            let first = begun(port, input);
            let same = port.ext.pending_buffer == Some(input.buffer_id) && offset <= size;
            &&& !same ==> {
                let next = stepped(first.0, first.1, SinkReply::Ended { queue_reset });
                &&& first.2 == SinkAction::EndSequence
                &&& first.0.stage == SinkStage::ClosingPrefix
                &&& first.1 == port
                &&& size > 0 ==> next.2 == SinkAction::ReadXruns
                &&& size == 0 ==> next.2 == SinkAction::EndSequence && next.0.stage
                    == SinkStage::Releasing
                &&& next.0.offset == 0 && next.0.size == size
                &&& next.1.ext.pending_buffer == Some(input.buffer_id)
                &&& next.1.ext.pending_offset == 0
                &&& queue_reset ==> next.1.device_event is None && next.1.event_xruns_seen == 0
            }
            &&& same && offset == size ==> first.2 == SinkAction::EndSequence && first.0.stage
                == SinkStage::Releasing
            &&& same && offset < size ==> {
                let next = stepped(first.0, first.1, SinkReply::Xruns(total));
                &&& first.2 == SinkAction::ReadXruns
                &&& next.2 == (SinkAction::Write { prelude: Prelude::Nothing, from: offset })
                &&& next.0.size == size - offset
                &&& next.1.ext.xrun_timestamp == port.ext.xrun_timestamp
            }
        }),
{
    reveal(buffer_phase);
    reveal(retune_phase);
    reveal(device_phase);
    reveal(after_xruns);
    reveal(write_phase);
}

/// What a write leaves behind. A blocked write, and one that the device cut short without
/// failing, keeps the buffer with the host, and the port remembers how much of it was
/// accepted. Anything else gives the buffer back; what a failed write did not transfer is
/// given up. Whether the rate is matched is told in either case.
pub proof fn short_write_keeps_the_rest(cycle: SinkCycle, port: SinkPort, bytes: usize, status: IoStatus)
    requires
        cycle.stage == SinkStage::Writing,
        bytes <= cycle.size,
        cycle.in_bounds(),
        cycle.size > 0,
        port.ext.pending_offset == cycle.offset,
    ensures
        ({
            let next = stepped(
                cycle,
                port,
                SinkReply::Written(WriteOutcome { bytes, status }),
            );
            let flows = status == IoStatus::Progress || status == IoStatus::WouldBlock;
            let keeps = bytes < cycle.size && (0 < bytes && flows || bytes == 0 && status
                == IoStatus::WouldBlock);
            let matching = cycle.input.following && !cycle.input.same_clock;
            &&& next.1.was_matching == matching
            &&& keeps ==> next.2 == SinkAction::Done(
                SinkOutcome {
                    io_status: None,
                    result: abi::STATUS_OK,
                    rate_match: Some(matching),
                    dropped: cycle.dropped,
                },
            ) && next.1.ext.pending_offset == cycle.offset + bytes
            &&& !keeps ==> next.2 == SinkAction::EndSequence && next.0.stage
                == SinkStage::Releasing && next.0.rate_match == Some(matching) && next.0.dropped
                == cycle.size - bytes && next.1.ext.pending_offset == cycle.offset
            &&& next.1 == (Port {
                was_matching: matching,
                ext: SinkPortExt {
                    pending_offset: next.1.ext.pending_offset,
                    resuming: next.1.ext.resuming,
                    ..port.ext
                },
                ..port
            })
        }),
{
    reveal(after_write);
}

/// Another period is taken up by its second cycle in a row, and not before. Where the ring
/// holds the new geometry the queue is measured and the stream goes on; else the channel
/// stops for another ring.
pub proof fn second_cycle_at_another_period_retunes(port: SinkPort, input: SinkInput)
    requires
        mid_stream(port, input),
        without_event(port, input),
        port.setup_period != 0,
    ensures
        ({
            let clock = input.clock->0;
            let period = period_bytes(
                clock.target_duration,
                port.rate(),
                clock.target_rate,
                port.stride(),
            ) as int;
            let next = begun(port, input);
            let asked = sat32((period / 8) * (input.delay_eighths as int));
            let block = port.setup_blocksize as int;
            let write = imax(
                period,
                match input.rate_match_size {
                    Some(size) => sat32(size * port.stride()) as int,
                    None => 0,
                },
            );
            let needed = imax(
                2 * period + asked,
                period + imax(period / 4, block) + write + block,
            );
            let count = next.1.ext.period_mismatch;
            &&& period == 0 || period == port.setup_period ==> count == 0 && next.2
                == SinkAction::ReadXruns
            &&& period != 0 && period != port.setup_period ==> {
                &&& count == imin(port.ext.period_mismatch + 1, u32::MAX as int)
                &&& count == 1 ==> next.2 == SinkAction::ReadXruns
                &&& count > 1 && port.ext.buffer_size >= imin(needed, u32::MAX as int) ==> next.2
                    == SinkAction::MeasureFill && next.0.stage == SinkStage::RetuneFill
                &&& count > 1 && port.ext.buffer_size < imin(needed, u32::MAX as int) ==> next.2
                    == SinkAction::Stop && next.0.stage == SinkStage::RetuneStop
            }
            &&& next.1 == (Port {
                ext: SinkPortExt {
                    pending_buffer: Some(input.buffer_id),
                    period_mismatch: count,
                    ..port.ext
                },
                ..port
            })
        }),
{
    reveal(buffer_phase);
    reveal(retune_phase);
    reveal(device_phase);
}

/// A stream moves to another period without a gap: the period is committed, the goal is what
/// the delay setting asks for, or the safe fill where that is more, as far as the ring has
/// room for it, and the target starts at what the queue will hold at the next cycle. The
/// buffer is still to be written, and no silence is.
pub proof fn live_retune_keeps_the_stream(cycle: SinkCycle, port: SinkPort, fill: u32)
    requires
        cycle.stage == SinkStage::RetuneFill,
        cycle.running,
        cycle.request.period != 0,
        cycle.in_bounds(),
        without_event(port, cycle.input),
        !port.ext.resuming,
    ensures
        ({
            let next = stepped(cycle, port, SinkReply::Fill(fill));
            let request = cycle.request;
            let period = request.period as int;
            let block = port.setup_blocksize as int;
            let asked = sat32((period / 8) * (request.delay_eighths as int)) as int;
            let safe = period + imax(period / 4, block);
            let write = imax(
                period,
                match request.rate_match_size {
                    Some(size) => sat32(size * request.stride) as int,
                    None => 0,
                },
            );
            let room = port.ext.buffer_size - write - block;
            let held = imax(0, imin(fill + cycle.size, u32::MAX as int) - period);
            &&& next.2 == SinkAction::ReadXruns
            &&& next.0.retuned
            &&& next.1.setup_period == period
            &&& next.1.setup_blocksize == block
            &&& next.1.ext.period_mismatch == 0
            &&& next.1.ext.buffer_size == port.ext.buffer_size
            &&& port.ext.buffer_size >= 2 * period && imax(asked, safe) <= room
                ==> next.1.ext.target_goal == imax(asked, safe)
            &&& port.ext.buffer_size >= 2 * period && imax(asked, safe) > room && safe
                <= u32::MAX ==> next.1.ext.target_goal == imin(imax(asked, safe), imax(room, period))
            &&& next.1.ext.target_delay == imin(next.1.ext.target_goal as int, held)
            &&& next.1.servo.loop_cold && next.1.servo.bandwidth_cold
            &&& next.1.servo.geometry matches Some(geometry) && geometry.period == period
                && geometry.blocksize == block && geometry.stride == port.stride()
        }),
{
    reveal(after_retune_fill);
    reveal(device_phase);
}

/// A channel that stopped for another ring is primed in the same cycle, with the whole
/// buffer, and holds nothing back for an earlier underrun. One that refuses is handed to the
/// worker; where even that is not possible, it plays on with the ring that it has.
pub proof fn stopped_channel_is_primed_anew(cycle: SinkCycle, port: SinkPort, queued: bool)
    requires
        cycle.stage == SinkStage::RetuneStop,
        cycle.request.period != 0,
        cycle.running,
        cycle.in_bounds(),
        port.config is Some,
        !port.ext.resuming,
        without_event(port, cycle.input),
    ensures
        ({
            let stopped = stepped(cycle, port, SinkReply::Stopped(true));
            let refused = stepped(cycle, port, SinkReply::Stopped(false));
            let after = stepped(refused.0, refused.1, SinkReply::Queued(queued));
            &&& stopped.2 matches SinkAction::SetBuffer { fragment, .. } && fragment
                == cycle.input.fragment
            &&& stopped.0.retuned && !stopped.0.running
            &&& stopped.0.offset == 0 && stopped.0.size == cycle.offset + cycle.size
            &&& stopped.1.ext.xrun_timestamp == 0
            &&& stopped.1.ext.period_mismatch == 0
            &&& stopped.1.ext.pending_offset == 0
            &&& stopped.1.device_event is None && stopped.1.event_xruns_seen == 0
                && !stopped.1.device_eof && stopped.1.wake_threshold == 0
            &&& !stopped.1.was_matching
            &&& refused.2 == SinkAction::QueueRebuild && refused.1 == port
            &&& queued ==> after.2 == SinkAction::EndSequence && after.0.stage
                == SinkStage::Releasing && !after.1.was_matching && after.1.ext == port.ext
            &&& !queued ==> after.2 == SinkAction::ReadXruns && after.1 == port
        }),
{
    reveal(device_phase);
}

/// A channel that is not running yet is primed with the whole buffer: the ring that is asked
/// for has room for two periods above the delay setting, or for the safe fill, the largest
/// write and one transfer, at the present period and at the largest one, and for at least
/// 64 KiB, up to what the kernel grants. Without a period nothing is primed.
pub proof fn setup_channel_is_primed(port: SinkPort, input: SinkInput)
    requires
        port.config is Some,
        input.negotiated,
        !input.rebuilding,
        input.phase == DevicePhase::Setup,
        input.status == abi::STATUS_HAVE_DATA,
        input.input_size matches Some(size) && size > 0,
        input.clock matches Some(clock) && clock.flags & abi::CLOCK_FLAG_FREEWHEEL == 0,
        !port.ext.rebuild_after_start,
        port.ext.pending_offset == 0,
    ensures
        ({
            let clock = input.clock->0;
            let period = period_bytes(
                clock.target_duration,
                port.rate(),
                clock.target_rate,
                port.stride(),
            ) as int;
            let largest = input.max_period as int;
            let eighths = input.delay_eighths as int;
            let chunk = sat32(
                (input.hw_quantum_ns * port.rate()) / 1_000_000_000 * port.stride(),
            ) as int;
            let block = imax(
                if input.fragment == 0 {
                    1024
                } else {
                    input.fragment as int
                },
                chunk,
            );
            let write = imax(
                period,
                match input.rate_match_size {
                    Some(size) => sat32(size * port.stride()) as int,
                    None => 0,
                },
            );
            let own = imax(
                2 * period + sat32((period / 8) * eighths),
                period + imax(period / 4, block) + write + block,
            );
            let most = imax(
                2 * largest + sat32((largest / 8) * eighths),
                largest + imax(largest / 4, block) + largest + block,
            );
            let next = begun(port, input);
            &&& period == 0 ==> next.2 == SinkAction::EndSequence && next.0.stage
                == SinkStage::Releasing
            &&& period != 0 ==> next.2 == (SinkAction::SetBuffer {
                ring: imin(imax(imax(own, most), 65536), 131072) as u32,
                fragment: input.fragment,
            })
            &&& next.0.offset == 0 && next.0.size == input.input_size->0
            &&& next.0.request.period == period && next.0.chunk == chunk
            &&& next.0.request.delay_eighths == eighths
            &&& !next.1.ext.resuming || period == 0
        }),
{
    reveal(buffer_phase);
    reveal(retune_phase);
    reveal(device_phase);
}

/// A primed ring holds its target before the first buffer reaches it: silence of exactly
/// that length is written, and then a driver's buffer, whole. The transfer is the device's
/// or the hardware's, whichever is coarser.
pub proof fn primed_ring_starts_at_its_target(cycle: SinkCycle, port: SinkPort, ring: u32, blocksize: u32)
    requires
        cycle.stage == SinkStage::PrimeGrant,
        cycle.request.period != 0,
        cycle.input.clock is Some,
        port.ext.pending_offset == 0,
        port.ext.xrun_timestamp == 0,
        !cycle.input.following,
    ensures
        ({
            let next = stepped(cycle, port, SinkReply::Granted { ring, blocksize });
            let last = stepped(next.0, next.1, SinkReply::Silenced);
            &&& next.2 == SinkAction::WriteSilence(next.1.ext.target_delay)
            &&& next.1.ext.target_delay == next.1.ext.target_goal
            &&& next.1.ext.buffer_size == ring
            &&& next.1.setup_period == cycle.request.period
            &&& next.1.setup_blocksize == imax(blocksize as int, cycle.chunk as int)
            &&& last.2 == (SinkAction::Write { prelude: Prelude::Nothing, from: cycle.offset })
            &&& last.1 == next.1
        }),
{
    reveal(write_phase);
}

/// The first cycle after a pause looks at what the device kept. A queue that ran dry, with
/// errors to show for it, starts over at the goal, behind that much silence; any other one
/// gets the buffer appended at once, and its target is what it will hold with the bytes that
/// the device took. The errors of the pause itself are no underrun.
pub proof fn resumed_stream_continues_its_queue(
    port: SinkPort,
    input: SinkInput,
    total: u32,
    queued: u32,
    bytes: usize,
    status: IoStatus,
)
    requires
        mid_stream(Port { ext: SinkPortExt { resuming: false, ..port.ext }, ..port }, input),
        at_its_period(port, input),
        without_event(port, input),
        port.ext.resuming,
        bytes <= input.input_size->0,
    ensures
        ({
            let first = begun(port, input);
            let second = stepped(first.0, first.1, SinkReply::Xruns(total));
            let third = stepped(second.0, second.1, SinkReply::Fill(queued));
            let last = stepped(
                third.0,
                third.1,
                SinkReply::Written(WriteOutcome { bytes, status }),
            );
            let errors = if total >= port.event_xruns_seen {
                total - port.event_xruns_seen
            } else {
                total as int
            };
            let lost = queued == 0 && errors > 0;
            let goal = port.ext.target_goal;
            let held = imax(0, imin(queued + bytes, u32::MAX as int) - port.setup_period);
            &&& first.2 == SinkAction::ReadXruns
            &&& second.2 == SinkAction::MeasureFill
            &&& third.2 == (SinkAction::Write {
                prelude: if lost {
                    Prelude::Silence(goal)
                } else {
                    Prelude::Nothing
                },
                from: 0,
            })
            &&& third.1.ext.xrun_timestamp == 0 && third.1.pending_xrun == port.pending_xrun
            &&& lost ==> third.1.ext.target_delay == goal && third.1.servo.loop_cold
            &&& !lost ==> third.1.ext.target_delay == port.ext.target_delay && third.1.servo
                == port.servo
            &&& last.1.ext.target_delay == if !lost && bytes > 0 {
                imin(goal as int, held)
            } else {
                third.1.ext.target_delay as int
            }
            &&& last.1.ext.resuming == (bytes == 0 && status == IoStatus::WouldBlock)
        }),
{
    reveal(buffer_phase);
    reveal(retune_phase);
    reveal(device_phase);
    reveal(after_resume_xruns);
    reveal(after_write);
}

/// Errors that a wake-up reports are weighed like those that the device is asked for: with
/// a queue that is really low they are an underrun, and with any other they leave no trace.
/// Either way they have been taken.
pub proof fn reported_errors_are_weighed(port: SinkPort, input: SinkInput, frames: u64)
    requires
        mid_stream(port, input),
        at_its_period(port, input),
        port.device_event matches Some(event) && input.fd == Some(event.fd)
            && event.queued_frames == Some(frames),
    ensures
        ({
            let next = begun(port, input);
            let reported = port.device_event->0.xruns;
            let errors = if reported >= port.event_xruns_seen {
                reported - port.event_xruns_seen
            } else {
                reported as int
            };
            let fill = sat32(frames * port.stride());
            let nsec = input.clock->0.nsec;
            let late = imax(0, input.now - nsec);
            let played = sat32((late * port.rate()) * port.stride() / 1_000_000_000);
            let period = port.setup_period as int;
            let target = port.ext.target_delay;
            let block = port.setup_blocksize;
            let on_time = imax(imin(period, imax(0, target - block)), period / 4);
            let wander = imax(period / 4, block as int);
            let low = imax(imin(on_time, imax(0, target - played - wander)), period / 16);
            &&& next.1.event_xruns_seen == reported
            &&& errors > 0 && fill < low ==> {
                &&& next.2 == SinkAction::EndSequence
                &&& next.0.stage == SinkStage::Releasing
                &&& next.0.dropped == 0
                &&& next.1.pending_xrun == Some((input.now / 1000) as u64)
                &&& next.1.ext.xrun_timestamp == if nsec == 0 {
                    1
                } else {
                    nsec
                }
            }
            &&& errors == 0 || fill >= low ==> {
                &&& next.1.pending_xrun == port.pending_xrun
                &&& next.1.ext.xrun_timestamp == 0
                &&& !input.following ==> next.2 == (SinkAction::Write {
                    prelude: Prelude::Nothing,
                    from: 0,
                })
            }
        }),
{
    reveal(buffer_phase);
    reveal(retune_phase);
    reveal(device_phase);
    reveal(after_xruns);
    reveal(after_underrun_fill);
    reveal(write_phase);
    reveal(after_write);
    reveal(after_follow_fill);
    reveal(after_level_fill);
}

/// After a pause, too, a report stands for the measurements.
pub proof fn reported_queue_is_continued(port: SinkPort, input: SinkInput, frames: u64)
    requires
        mid_stream(Port { ext: SinkPortExt { resuming: false, ..port.ext }, ..port }, input),
        at_its_period(port, input),
        port.ext.resuming,
        port.device_event matches Some(event) && input.fd == Some(event.fd)
            && event.queued_frames == Some(frames),
    ensures
        ({
            let next = begun(port, input);
            let reported = port.device_event->0.xruns;
            let errors = if reported >= port.event_xruns_seen {
                reported - port.event_xruns_seen
            } else {
                reported as int
            };
            let lost = frames * port.stride() == 0 && errors > 0;
            &&& next.1.event_xruns_seen == reported
            &&& next.1.pending_xrun == port.pending_xrun
            &&& next.2 == (SinkAction::Write {
                prelude: if lost {
                    Prelude::Silence(port.ext.target_goal)
                } else {
                    Prelude::Nothing
                },
                from: 0,
            })
        }),
{
    assert(frames * port.stride() >= 0) by (nonlinear_arith)
        requires
            frames >= 0,
            port.stride() >= 0,
    ;
    reveal(buffer_phase);
    reveal(retune_phase);
    reveal(device_phase);
    reveal(after_resume_xruns);
}

fn finish(cycle: &mut SinkCycle, io_status: Option<i32>, result: i32) -> (action: SinkAction)
    ensures
        forall|port: SinkPort|
            (*final(cycle), port, action) == #[trigger] done(*old(cycle), port, io_status, result),
{
    cycle.stage = SinkStage::Done;
    SinkAction::Done(
        SinkOutcome {
            io_status,
            result,
            rate_match: cycle.rate_match,
            dropped: cycle.dropped,
        },
    )
}

fn release_input(cycle: &mut SinkCycle) -> (action: SinkAction)
    ensures
        forall|port: SinkPort|
            (*final(cycle), port, action) == #[trigger] releasing(*old(cycle), port),
{
    cycle.stage = SinkStage::Releasing;
    SinkAction::EndSequence
}

fn write_buffer(cycle: &mut SinkCycle, prelude: Prelude) -> (action: SinkAction)
    ensures
        forall|port: SinkPort|
            (*final(cycle), port, action) == #[trigger] writing(*old(cycle), port, prelude),
{
    cycle.stage = SinkStage::Writing;
    SinkAction::Write { prelude, from: cycle.offset }
}

fn take_written(cycle: &mut SinkCycle, port: &mut SinkPort, write: WriteOutcome) -> (action:
    SinkAction)
    ensures
        (*final(cycle), *final(port), action) == after_write(*old(cycle), *old(port), write),
{
    proof {
        reveal(after_write);
    }
    let matching = cycle.input.matching_now();
    if port.ext.resuming && port.ext.pending_offset != 0 && !write.would_block() {
        port.ext.resuming = false;
    }
    port.was_matching = matching;
    cycle.rate_match = Some(matching);
    if write.would_block() {
        return finish(cycle, None, abi::STATUS_OK);
    }
    if retain_partial_write(&mut port.ext, cycle.size, write) {
        return finish(cycle, None, abi::STATUS_OK);
    }
    cycle.dropped = if write.bytes < cycle.size as usize {
        cycle.size - write.bytes as u32
    } else {
        0
    };
    release_input(cycle)
}

fn consume(cycle: &mut SinkCycle, port: &mut SinkPort) -> (action: SinkAction)
    ensures
        (*final(cycle), *final(port), action) == consumed(*old(cycle), *old(port)),
{
    let size: usize = cycle.size as usize;
    take_written(cycle, port, WriteOutcome::consumed(size))
}

fn take_follow_fill(cycle: &mut SinkCycle, port: &mut SinkPort, fill: u32) -> (action: SinkAction)
    ensures
        (*final(cycle), *final(port), action) == after_follow_fill(*old(cycle), *old(port), fill),
{
    proof {
        reveal(after_follow_fill);
    }
    match follower_servo(port, fill, cycle.request.stride) {
        FillStep::Keep => write_buffer(cycle, Prelude::Nothing),
        FillStep::Refill(silence) => write_buffer(cycle, Prelude::Silence(silence)),
        FillStep::Skip => consume(cycle, port),
        FillStep::Servo(err) => write_buffer(cycle, Prelude::Servo(err)),
    }
}

fn take_level_fill(cycle: &mut SinkCycle, port: &mut SinkPort, fill: u32) -> (action: SinkAction)
    ensures
        (*final(cycle), *final(port), action) == after_level_fill(*old(cycle), *old(port), fill),
{
    proof {
        reveal(after_level_fill);
    }
    match level_correct(port, fill) {
        FillStep::Refill(silence) => write_buffer(cycle, Prelude::Silence(silence)),
        FillStep::Skip => consume(cycle, port),
        _ => write_buffer(cycle, Prelude::Nothing),
    }
}

fn take_recover_fill(cycle: &mut SinkCycle, port: &mut SinkPort, fill: u32) -> (action: SinkAction)
    ensures
        (*final(cycle), *final(port), action) == after_recover_fill(*old(cycle), *old(port), fill),
{
    let silence: u32 = refill(port, fill);
    write_buffer(cycle, Prelude::Silence(silence))
}

fn await_fill(cycle: &mut SinkCycle, stage: SinkStage) -> (action: SinkAction)
    ensures
        *final(cycle) == old(cycle).at(stage),
        action == SinkAction::MeasureFill,
{
    cycle.stage = stage;
    SinkAction::MeasureFill
}

fn correct_and_write(cycle: &mut SinkCycle, port: &mut SinkPort) -> (action: SinkAction)
    requires
        old(cycle).input.clock is Some,
    ensures
        (*final(cycle), *final(port), action) == write_phase(*old(cycle), *old(port)),
{
    proof {
        reveal(write_phase);
    }
    let clock = match cycle.input.clock {
        Some(clock) => clock,
        None => return write_buffer(cycle, Prelude::Nothing),
    };
    if port.ext.pending_offset != 0 {
        return write_buffer(cycle, Prelude::Nothing);
    }
    if port.ext.xrun_timestamp != 0 {
        if !recover_or_hold(port, clock.nsec, clock.flags) {
            return consume(cycle, port);
        }
        return match device_event_fill(port, true, cycle.input.fd) {
            Some(fill) => take_recover_fill(cycle, port, fill),
            None => await_fill(cycle, SinkStage::RecoverFill),
        };
    }
    let corrects = !cycle.retuned && cycle.input.following && port.setup_period != 0
        && port.ext.period_mismatch == 0;
    if !corrects {
        write_buffer(cycle, Prelude::Nothing)
    } else if cycle.input.matching_now() {
        match device_event_fill(port, true, cycle.input.fd) {
            Some(fill) => take_follow_fill(cycle, port, fill),
            None => await_fill(cycle, SinkStage::FollowFill),
        }
    } else {
        match device_event_fill(port, true, cycle.input.fd) {
            Some(fill) => take_level_fill(cycle, port, fill),
            None => await_fill(cycle, SinkStage::LevelFill),
        }
    }
}

fn take_underrun_fill(cycle: &mut SinkCycle, port: &mut SinkPort, fill: u32) -> (action: SinkAction)
    requires
        old(cycle).input.clock is Some,
    ensures
        (*final(cycle), *final(port), action) == after_underrun_fill(*old(cycle), *old(port), fill),
{
    proof {
        reveal(after_underrun_fill);
    }
    let nsec: u64 = match cycle.input.clock {
        Some(clock) => clock.nsec,
        None => 0,
    };
    detect_underrun(
        port,
        cycle.request.period,
        cycle.input.now,
        nsec,
        fill,
    );
    correct_and_write(cycle, port)
}

fn take_xruns(cycle: &mut SinkCycle, port: &mut SinkPort, underruns: u32) -> (action: SinkAction)
    requires
        old(cycle).input.clock is Some,
    ensures
        (*final(cycle), *final(port), action) == after_xruns(*old(cycle), *old(port), underruns),
{
    proof {
        reveal(after_xruns);
    }
    if underruns > 0 {
        match device_event_fill(port, true, cycle.input.fd) {
            Some(fill) => take_underrun_fill(cycle, port, fill),
            None => await_fill(cycle, SinkStage::UnderrunFill),
        }
    } else {
        correct_and_write(cycle, port)
    }
}

fn take_resume_fill(cycle: &mut SinkCycle, port: &mut SinkPort, queued: u32, underruns: u32) -> (action:
    SinkAction)
    ensures
        (*final(cycle), *final(port), action) == after_resume_fill(
            *old(cycle),
            *old(port),
            queued,
            underruns,
        ),
{
    let prelude = match resume_prepare(port, queued, underruns) {
        Some(silence) => Prelude::Silence(silence),
        None => Prelude::Nothing,
    };
    cycle.stage = SinkStage::ResumeWrite { queued, underruns };
    SinkAction::Write { prelude, from: cycle.offset }
}

fn take_resume_xruns(cycle: &mut SinkCycle, port: &mut SinkPort, underruns: u32) -> (action:
    SinkAction)
    requires
        old(cycle).input.clock is Some,
    ensures
        (*final(cycle), *final(port), action) == after_resume_xruns(
            *old(cycle),
            *old(port),
            underruns,
        ),
{
    proof {
        reveal(after_resume_xruns);
    }
    if port.ext.pending_offset == 0 {
        match device_event_fill(port, true, cycle.input.fd) {
            Some(queued) => take_resume_fill(cycle, port, queued, underruns),
            None => await_fill(cycle, SinkStage::ResumeFill { underruns }),
        }
    } else {
        correct_and_write(cycle, port)
    }
}

fn drive_device(cycle: &mut SinkCycle, port: &mut SinkPort) -> (action: SinkAction)
    requires
        old(cycle).input.clock is Some,
        old(cycle).in_bounds(),
    ensures
        (*final(cycle), *final(port), action) == device_phase(*old(cycle), *old(port)),
{
    proof {
        reveal(device_phase);
    }
    if !cycle.running {
        port.ext.pending_offset = 0;
        cycle.size = cycle.offset + cycle.size;
        cycle.offset = 0;
        if cycle.request.period == 0 {
            return release_input(cycle);
        }
        port.ext.resuming = false;
        return match prime_request(
            port,
            cycle.request,
            cycle.input.max_period,
            cycle.input.fragment,
            cycle.chunk,
        ) {
            Some(ring) => {
                cycle.stage = SinkStage::PrimeGrant;
                SinkAction::SetBuffer { ring, fragment: cycle.input.fragment }
            },
            None => correct_and_write(cycle, port),
        };
    }
    let resuming = port.ext.resuming;
    match take_device_event_xruns(port, cycle.input.fd) {
        Some(count) => if resuming {
            take_resume_xruns(cycle, port, count)
        } else {
            take_xruns(cycle, port, count)
        },
        None => {
            cycle.stage = if resuming {
                SinkStage::ResumeXruns
            } else {
                SinkStage::Xruns
            };
            SinkAction::ReadXruns
        },
    }
}

fn take_retune_fill(cycle: &mut SinkCycle, port: &mut SinkPort, fill: u32) -> (action: SinkAction)
    requires
        old(cycle).input.clock is Some,
        old(cycle).in_bounds(),
        old(cycle).request.period != 0,
    ensures
        (*final(cycle), *final(port), action) == after_retune_fill(*old(cycle), *old(port), fill),
{
    proof {
        reveal(after_retune_fill);
    }
    retune_in_place(port, cycle.request, cycle.size, fill);
    cycle.retuned = true;
    drive_device(cycle, port)
}

fn retune(cycle: &mut SinkCycle, port: &mut SinkPort) -> (action: SinkAction)
    requires
        old(cycle).input.clock is Some,
        old(cycle).in_bounds(),
    ensures
        (*final(cycle), *final(port), action) == retune_phase(*old(cycle), *old(port)),
{
    proof {
        reveal(retune_phase);
    }
    match plan_retune(port, cycle.running, cycle.request) {
        RetunePlan::Keep => drive_device(cycle, port),
        RetunePlan::InPlace => match device_event_fill(port, true, cycle.input.fd) {
            Some(fill) => take_retune_fill(cycle, port, fill),
            None => await_fill(cycle, SinkStage::RetuneFill),
        },
        RetunePlan::Suspend => {
            cycle.stage = SinkStage::RetuneStop;
            SinkAction::Stop
        },
    }
}

fn take_buffer(cycle: &mut SinkCycle, port: &mut SinkPort, input_size: u32) -> (action: SinkAction)
    requires
        old(cycle).input.input_size == Some(input_size),
    ensures
        (*final(cycle), *final(port), action) == buffer_phase(*old(cycle), *old(port), input_size),
{
    proof {
        reveal(buffer_phase);
    }
    let offset: usize = pending_write_offset(
        &mut port.ext,
        cycle.input.buffer_id,
        input_size as usize,
    );
    cycle.offset = offset as u32;
    cycle.size = input_size - offset as u32;
    if cycle.size == 0 || cycle.input.clock.is_none() {
        return release_input(cycle);
    }
    retune(cycle, port)
}

/// Starts a playback cycle and names its first operation.
pub fn begin(port: &mut SinkPort, input: SinkInput) -> (r: (SinkCycle, SinkAction))
    ensures
        (r.0, *final(port), r.1) == begun(*old(port), input),
        r.0.wf(),
        linked(r.0, *final(port)),
{
    proof {
        beginning_is_sound(*port, input);
    }
    let (stride, rate) = match port.stride_rate() {
        Some((stride, rate)) => (stride, rate),
        None => (1, 0),
    };
    let period: u32 = match input.clock {
        Some(clock) => device_period_bytes(clock.target_duration, rate, clock.target_rate, stride),
        None => 0,
    };
    let mut cycle = SinkCycle {
        input,
        stage: SinkStage::Releasing,
        request: PeriodRequest {
            period,
            stride,
            delay_eighths: input.delay_eighths,
            rate_match_size: input.rate_match_size,
        },
        chunk: ns_to_frame_bytes(input.hw_quantum_ns, rate, stride),
        running: input.phase == DevicePhase::Running,
        retuned: false,
        offset: 0,
        size: 0,
        rate_match: None,
        dropped: 0,
    };
    let flags: u32 = match input.clock {
        Some(clock) => clock.flags,
        None => 0,
    };
    assert(0u32 & abi::CLOCK_FLAG_FREEWHEEL == 0) by (bit_vector);
    if flags & abi::CLOCK_FLAG_FREEWHEEL != 0 {
        cycle.stage = SinkStage::Freewheeling;
        return (cycle, SinkAction::EndSequence);
    }
    let action = if input.rebuilding {
        release_input(&mut cycle)
    } else if port.config.is_none() || !input.negotiated {
        finish(&mut cycle, None, abi::STATUS_OK)
    } else if input.phase == DevicePhase::Closed {
        cycle.stage = SinkStage::RebuildingClosed;
        SinkAction::QueueRebuild
    } else if port.ext.rebuild_after_start {
        cycle.stage = SinkStage::RebuildingPaused;
        SinkAction::QueueRebuild
    } else if input.status != abi::STATUS_HAVE_DATA {
        release_input(&mut cycle)
    } else {
        match input.input_size {
            None => release_input(&mut cycle),
            Some(input_size) => if pending_write_changed(
                &port.ext,
                input.buffer_id,
                input_size as usize,
            ) {
                cycle.stage = SinkStage::ClosingPrefix;
                SinkAction::EndSequence
            } else {
                take_buffer(&mut cycle, port, input_size)
            },
        }
    };
    (cycle, action)
}

/// Takes the result of the operation that the machine named, and names the next
/// one.
pub fn step(cycle: &mut SinkCycle, port: &mut SinkPort, reply: SinkReply) -> (action: SinkAction)
    requires
        old(cycle).wf(),
        old(cycle).stage.accepts(reply, old(cycle).size),
    ensures
        (*final(cycle), *final(port), action) == stepped(*old(cycle), *old(port), reply),
        final(cycle).wf(),
        linked(*old(cycle), *old(port)) ==> linked(*final(cycle), *final(port)),
{
    proof {
        every_step_makes_progress(*cycle, *port, reply);
    }
    match (cycle.stage, reply) {
        (SinkStage::Freewheeling, SinkReply::Ended { queue_reset }) => {
            end_input_sequence(port, queue_reset);
            finish(cycle, Some(abi::STATUS_NEED_DATA), abi::STATUS_HAVE_DATA)
        },
        (SinkStage::RebuildingClosed, SinkReply::Queued(_)) => release_input(cycle),
        (SinkStage::RebuildingPaused, SinkReply::Queued(queued)) => {
            if queued {
                port.ext.rebuild_after_start = false;
            }
            release_input(cycle)
        },
        (SinkStage::ClosingPrefix, SinkReply::Ended { queue_reset }) => {
            end_input_sequence(port, queue_reset);
            match cycle.input.input_size {
                Some(input_size) => take_buffer(cycle, port, input_size),
                None => release_input(cycle),
            }
        },
        (SinkStage::RetuneFill, SinkReply::Fill(fill)) => take_retune_fill(cycle, port, fill),
        (SinkStage::RetuneStop, SinkReply::Stopped(accepted)) => {
            match retune_suspended(port, accepted) {
                RetuneOutcome::Retuned => {
                    cycle.retuned = true;
                    cycle.running = false;
                    drive_device(cycle, port)
                },
                _ => {
                    cycle.stage = SinkStage::RebuildingRefused;
                    SinkAction::QueueRebuild
                },
            }
        },
        (SinkStage::RebuildingRefused, SinkReply::Queued(queued)) => if queued {
            port.was_matching = false;
            release_input(cycle)
        } else {
            drive_device(cycle, port)
        },
        (SinkStage::PrimeGrant, SinkReply::Granted { ring, blocksize }) => {
            let report = prime_playback(
                port,
                cycle.request,
                ring,
                blocksize,
                cycle.chunk,
            );
            cycle.stage = SinkStage::PrimeSilence;
            SinkAction::WriteSilence(report.silence)
        },
        (SinkStage::PrimeSilence, SinkReply::Silenced) => correct_and_write(cycle, port),
        (SinkStage::ResumeXruns, SinkReply::Xruns(total)) => {
            let count: u32 = take_fallback_xruns(port, total);
            take_resume_xruns(cycle, port, count)
        },
        (SinkStage::ResumeFill { underruns }, SinkReply::Fill(queued)) => take_resume_fill(
            cycle,
            port,
            queued,
            underruns,
        ),
        (SinkStage::ResumeWrite { queued, underruns }, SinkReply::Written(written)) => {
            resume_playback(port, queued, underruns, written);
            take_written(cycle, port, written)
        },
        (SinkStage::Xruns, SinkReply::Xruns(total)) => {
            let count: u32 = take_fallback_xruns(port, total);
            take_xruns(cycle, port, count)
        },
        (SinkStage::UnderrunFill, SinkReply::Fill(fill)) => take_underrun_fill(cycle, port, fill),
        (SinkStage::RecoverFill, SinkReply::Fill(fill)) => take_recover_fill(cycle, port, fill),
        (SinkStage::FollowFill, SinkReply::Fill(fill)) => take_follow_fill(cycle, port, fill),
        (SinkStage::LevelFill, SinkReply::Fill(fill)) => take_level_fill(cycle, port, fill),
        (SinkStage::Writing, SinkReply::Written(written)) => take_written(cycle, port, written),
        (SinkStage::Releasing, SinkReply::Ended { queue_reset }) => {
            end_input_sequence(port, queue_reset);
            finish(cycle, Some(abi::STATUS_NEED_DATA), abi::STATUS_NEED_DATA)
        },
        _ => finish(cycle, None, abi::STATUS_OK),
    }
}

/// A stage takes the reply that belongs to the operation it waits for, and no other one; a
/// write is never said to have taken more than it was offered.
pub proof fn reply_belongs_to_the_operation(
    stage: SinkStage,
    action: SinkAction,
    reply: SinkReply,
    size: u32,
)
    requires
        stage.awaits(action),
    ensures
        stage.accepts(reply, size) <==> match action {
            SinkAction::EndSequence => reply is Ended,
            SinkAction::QueueRebuild => reply is Queued,
            SinkAction::Stop => reply is Stopped,
            SinkAction::MeasureFill => reply is Fill,
            SinkAction::ReadXruns => reply is Xruns,
            SinkAction::SetBuffer { .. } => reply is Granted,
            SinkAction::WriteSilence(_) => reply is Silenced,
            SinkAction::Write { .. } => reply is Written && reply->Written_0.bytes <= size,
            SinkAction::Done(_) => false,
        },
{
}

} // verus!
