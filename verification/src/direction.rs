//! What playback and capture do differently when a node changes state.
use vstd::prelude::*;

use crate::port::{reset_device_event, Port};
use crate::sink::geometry::{SinkPort, SinkPortExt};
use crate::sink::write::{
    clear_pending_write, end_input_sequence, pending_cleared, sequence_ended, settle_target,
    settled_port,
};
use crate::source::geometry::{SourcePort, SourcePortExt};

verus! {

/// The hooks of a direction.
pub trait Direction: Sized {
    /// The port after another device was put in place.
    spec fn device_swapped(port: Port<Self>) -> Port<Self>;

    /// Forgets what belonged to the previous device.
    fn on_device_swapped(port: &mut Port<Self>)
        ensures
            *final(port) == Self::device_swapped(*old(port)),
    ;

    /// Another device leaves the port's configuration, generation, claim and matching
    /// history alone.
    proof fn swap_keeps_identity(port: Port<Self>)
        ensures
            Self::device_swapped(port).config == port.config,
            Self::device_swapped(port).generation == port.generation,
            Self::device_swapped(port).rebuild_pending == port.rebuild_pending,
            Self::device_swapped(port).was_matching == port.was_matching,
    ;

    /// The port after the host registered other buffers. `queue_reset` tells that
    /// the device had to reset its queue to close an open frame.
    spec fn buffers_swapped(port: Port<Self>, queue_reset: bool) -> Port<Self>;

    /// Forgets what belonged to the previous buffers.
    fn on_buffers_swapped(port: &mut Port<Self>, queue_reset: bool)
        ensures
            *final(port) == Self::buffers_swapped(*old(port), queue_reset),
    ;

    /// The port after the node was suspended.
    spec fn suspended(port: Port<Self>) -> Port<Self>;

    /// Forgets what does not outlive a suspend.
    fn on_suspend(port: &mut Port<Self>)
        ensures
            *final(port) == Self::suspended(*old(port)),
    ;

    /// Whether the driver's servo may run at all.
    spec fn ready(port: Port<Self>) -> bool;

    /// Whether the driver's servo may run at all.
    fn servo_ready(port: &Port<Self>) -> (ready: bool)
        ensures
            ready == Self::ready(*port),
    ;

    /// The port after its fill was sampled at a wake-up.
    spec fn sampled(port: Port<Self>, fill: u32) -> Port<Self>;

    /// Takes up a fill that was sampled at a wake-up.
    fn servo_fill(port: &mut Port<Self>, fill: u32)
        ensures
            *final(port) == Self::sampled(*old(port), fill),
    ;

    /// Whether a recovery holds the servo.
    spec fn held(port: Port<Self>) -> bool;

    /// Whether a recovery holds the servo.
    fn servo_hold(port: &Port<Self>) -> (held: bool)
        ensures
            held == Self::held(*port),
    ;

    /// The level error of a fill: positive when the device is too slow.
    spec fn level_error(port: Port<Self>, fill: u32) -> int;

    /// The level error of a fill: positive when the device is too slow.
    fn servo_err(port: &Port<Self>, fill: u32) -> (err: i64)
        ensures
            err == Self::level_error(*port, fill),
            -(u32::MAX as int) <= err <= u32::MAX,
    ;

    /// The fill, or the free space, that makes the device wake the node.
    spec fn threshold(port: Port<Self>) -> u32;

    /// The fill, or the free space, that makes the device wake the node.
    fn wake_threshold(port: &Port<Self>) -> (threshold: u32)
        ensures
            threshold == Self::threshold(*port),
    ;
}

impl Direction for SinkPortExt {
    open spec fn device_swapped(port: SinkPort) -> SinkPort {
        let port = port.without_device_event();
        Port {
            ext: SinkPortExt {
                xrun_timestamp: 0,
                resuming: false,
                rebuild_after_start: false,
                ..pending_cleared(port.ext)
            },
            ..port
        }
    }

    fn on_device_swapped(port: &mut SinkPort) {
        reset_device_event(port);
        port.ext.xrun_timestamp = 0;
        port.ext.resuming = false;
        port.ext.rebuild_after_start = false;
        clear_pending_write(&mut port.ext);
    }

    proof fn swap_keeps_identity(port: SinkPort) {
    }

    open spec fn buffers_swapped(port: SinkPort, queue_reset: bool) -> SinkPort {
        sequence_ended(port, queue_reset)
    }

    fn on_buffers_swapped(port: &mut SinkPort, queue_reset: bool) {
        end_input_sequence(port, queue_reset);
    }

    open spec fn suspended(port: SinkPort) -> SinkPort {
        Port {
            ext: SinkPortExt {
                resuming: false,
                rebuild_after_start: false,
                ..pending_cleared(port.ext)
            },
            ..port
        }
    }

    fn on_suspend(port: &mut SinkPort) {
        port.ext.resuming = false;
        port.ext.rebuild_after_start = false;
        clear_pending_write(&mut port.ext);
    }

    open spec fn ready(port: SinkPort) -> bool {
        true
    }

    fn servo_ready(_port: &SinkPort) -> (ready: bool) {
        true
    }

    open spec fn sampled(port: SinkPort, fill: u32) -> SinkPort {
        settled_port(port, fill, port.stride())
    }

    fn servo_fill(port: &mut SinkPort, fill: u32) {
        let stride: u32 = match port.stride_rate() {
            Some((stride, _)) => stride,
            None => 1,
        };
        settle_target(port, fill, stride);
    }

    open spec fn held(port: SinkPort) -> bool {
        port.ext.xrun_timestamp != 0
    }

    fn servo_hold(port: &SinkPort) -> (held: bool) {
        port.ext.xrun_timestamp != 0
    }

    open spec fn level_error(port: SinkPort, fill: u32) -> int {
        fill - port.ext.target_delay
    }

    fn servo_err(port: &SinkPort, fill: u32) -> (err: i64) {
        fill as i64 - port.ext.target_delay as i64
    }

    open spec fn threshold(port: SinkPort) -> u32 {
        crate::arith::imax(port.ext.buffer_size - port.ext.target_delay, 1) as u32
    }

    fn wake_threshold(port: &SinkPort) -> (threshold: u32) {
        crate::sink::write::wake_threshold(port)
    }
}

impl Direction for SourcePortExt {
    open spec fn device_swapped(port: SourcePort) -> SourcePort {
        let port = port.without_device_event();
        Port {
            servo: crate::port::Servo { loop_cold: true, ..port.servo },
            ext: SourcePortExt { primed: false, active_buffers: 0, ..port.ext },
            ..port
        }
    }

    fn on_device_swapped(port: &mut SourcePort) {
        reset_device_event(port);
        port.servo.loop_cold = true;
        port.ext.primed = false;
        port.ext.active_buffers = 0;
    }

    proof fn swap_keeps_identity(port: SourcePort) {
    }

    open spec fn buffers_swapped(port: SourcePort, queue_reset: bool) -> SourcePort {
        Port { ext: SourcePortExt { active_buffers: 0, ..port.ext }, ..port }
    }

    fn on_buffers_swapped(port: &mut SourcePort, _queue_reset: bool) {
        port.ext.active_buffers = 0;
    }

    open spec fn suspended(port: SourcePort) -> SourcePort {
        Port { ext: SourcePortExt { primed: false, ..port.ext }, ..port }
    }

    fn on_suspend(port: &mut SourcePort) {
        port.ext.primed = false;
    }

    open spec fn ready(port: SourcePort) -> bool {
        port.ext.primed
    }

    fn servo_ready(port: &SourcePort) -> (ready: bool) {
        port.ext.primed
    }

    open spec fn sampled(port: SourcePort, fill: u32) -> SourcePort {
        port
    }

    fn servo_fill(_port: &mut SourcePort, _fill: u32) {
    }

    open spec fn held(port: SourcePort) -> bool {
        false
    }

    fn servo_hold(_port: &SourcePort) -> (held: bool) {
        false
    }

    open spec fn level_error(port: SourcePort, fill: u32) -> int {
        port.ext.target_fill - fill
    }

    fn servo_err(port: &SourcePort, fill: u32) -> (err: i64) {
        port.ext.target_fill as i64 - fill as i64
    }

    open spec fn threshold(port: SourcePort) -> u32 {
        crate::arith::imax(
            crate::arith::imax(port.ext.target_fill as int, port.setup_period as int),
            1,
        ) as u32
    }

    fn wake_threshold(port: &SourcePort) -> (threshold: u32) {
        crate::source::read::wake_threshold(port)
    }
}

/// The port after the node's role changed between driver and follower.
pub open spec fn role_flipped<E>(port: Port<E>) -> Port<E> {
    Port { servo: port.servo.relocked(), was_matching: false, ..port }
}

/// A role flip shifts the phase of the servo's measurements, not the fill: the
/// servo restarts and nothing else changes.
pub fn on_role_flip<E>(port: &mut Port<E>)
    ensures
        *final(port) == role_flipped(*old(port)),
{
    port.servo.relock();
    port.was_matching = false;
}

/// The port of a capture node after Start: it primes again, for the device kept
/// capturing over a pause.
pub open spec fn source_started(port: SourcePort) -> SourcePort {
    Port {
        servo: port.servo.relocked(),
        ext: SourcePortExt { primed: false, ..port.ext },
        ..port
    }
}

/// Prepares a capture port for Start.
pub fn source_start(port: &mut SourcePort)
    ensures
        *final(port) == source_started(*old(port)),
{
    port.ext.primed = false;
    port.servo.relock();
}

/// Whether Start continues a paused playback queue.
pub open spec fn resumes(port: SinkPort, was_started: bool, running: bool) -> bool {
    !was_started && !port.ext.rebuild_after_start && running && port.setup_period != 0
}

/// How a playback device took the request to continue its queue.
#[derive(Debug, Clone, Copy, PartialEq, Eq, Structural)]
pub enum ResumeOutcome {
    /// There was nothing to continue.
    NotAsked,
    /// The queue is restored.
    Resumed,
    /// The queue could not be restored and was dropped.
    Reset,
    /// The queue could neither be restored nor dropped.
    Refused,
}

/// Whether Start has to ask a playback device to continue its paused queue.
pub fn sink_start_resumes(port: &SinkPort, was_started: bool, running: bool) -> (resume: bool)
    ensures
        resume == resumes(*port, was_started, running),
{
    !was_started && !port.ext.rebuild_after_start && running && port.setup_period != 0
}

/// What Start asks of a playback device next.
#[derive(Debug, Clone, Copy, PartialEq, Eq, Structural)]
pub enum ResumeStep {
    /// Restore the queue that a pause kept.
    Resume,
    /// Drop the queue, which could not be restored.
    Stop,
    Ended(ResumeOutcome),
}

/// What Start asks of a playback device first.
pub open spec fn resume_begun(port: SinkPort, was_started: bool, running: bool) -> ResumeStep {
    if resumes(port, was_started, running) {
        ResumeStep::Resume
    } else {
        ResumeStep::Ended(ResumeOutcome::NotAsked)
    }
}

/// What Start asks of a playback device first.
pub fn begin_resume(port: &SinkPort, was_started: bool, running: bool) -> (step: ResumeStep)
    ensures
        step == resume_begun(*port, was_started, running),
{
    if sink_start_resumes(port, was_started, running) {
        ResumeStep::Resume
    } else {
        ResumeStep::Ended(ResumeOutcome::NotAsked)
    }
}

/// What the device's reply leads to: a queue that cannot be restored is dropped, and only
/// a device that refuses that too is beyond use.
pub open spec fn resume_next(step: ResumeStep, accepted: bool) -> ResumeStep {
    match step {
        ResumeStep::Resume => if accepted {
            ResumeStep::Ended(ResumeOutcome::Resumed)
        } else {
            ResumeStep::Stop
        },
        ResumeStep::Stop => ResumeStep::Ended(
            if accepted {
                ResumeOutcome::Reset
            } else {
                ResumeOutcome::Refused
            },
        ),
        ResumeStep::Ended(outcome) => ResumeStep::Ended(outcome),
    }
}

/// Takes the device's reply and names what Start asks of it next.
pub fn step_resume(step: ResumeStep, accepted: bool) -> (next: ResumeStep)
    ensures
        next == resume_next(step, accepted),
{
    match step {
        ResumeStep::Resume => if accepted {
            ResumeStep::Ended(ResumeOutcome::Resumed)
        } else {
            ResumeStep::Stop
        },
        ResumeStep::Stop => if accepted {
            ResumeStep::Ended(ResumeOutcome::Reset)
        } else {
            ResumeStep::Ended(ResumeOutcome::Refused)
        },
        ResumeStep::Ended(outcome) => ResumeStep::Ended(outcome),
    }
}

/// The port of a playback node after Start.
pub open spec fn sink_started(port: SinkPort, outcome: ResumeOutcome) -> SinkPort {
    let port = if outcome == ResumeOutcome::Reset {
        port.without_device_event()
    } else {
        port
    };
    Port {
        servo: port.servo.relocked(),
        was_matching: false,
        ext: SinkPortExt {
            xrun_timestamp: 0,
            resuming: outcome == ResumeOutcome::Resumed,
            rebuild_after_start: port.ext.rebuild_after_start || outcome == ResumeOutcome::Refused,
            ..port.ext
        },
        ..port
    }
}

/// Prepares a playback port for Start. Real audio is never appended behind the
/// silence of a pause: a queue that could not be restored is primed anew, and a
/// device that refuses even that is replaced before the next write.
pub fn sink_start(port: &mut SinkPort, outcome: ResumeOutcome)
    ensures
        *final(port) == sink_started(*old(port), outcome),
{
    if outcome == ResumeOutcome::Reset {
        reset_device_event(port);
    }
    if outcome == ResumeOutcome::Refused {
        port.ext.rebuild_after_start = true;
    }
    port.ext.xrun_timestamp = 0;
    port.ext.resuming = outcome == ResumeOutcome::Resumed;
    port.servo.relock();
    port.was_matching = false;
}

/// The port of a playback node after Pause. `kept` tells that the device holds its
/// queue over the pause; where it does not, `reset` tells that it dropped it.
pub open spec fn sink_paused(port: SinkPort, kept: bool, reset: bool) -> SinkPort {
    if kept {
        port
    } else if reset {
        port.without_device_event()
    } else {
        Port { ext: SinkPortExt { rebuild_after_start: true, ..port.ext }, ..port }
    }
}

/// What Pause asks of a playback device next.
#[derive(Debug, Clone, Copy, PartialEq, Eq, Structural)]
pub enum PauseStep {
    /// Keep the queue over the pause.
    Pause,
    /// Drop the queue, which cannot be kept.
    Stop,
    /// `kept` tells that the device holds its queue, `reset` that it dropped it.
    Ended { kept: bool, reset: bool },
}

/// What Pause asks of a playback device first: nothing, where the node was not started
/// and the queue stays as it is.
pub fn begin_queue_pause(was_started: bool) -> (step: PauseStep)
    ensures
        step == if was_started {
            PauseStep::Pause
        } else {
            PauseStep::Ended { kept: true, reset: false }
        },
{
    if was_started {
        PauseStep::Pause
    } else {
        PauseStep::Ended { kept: true, reset: false }
    }
}

/// What the device's reply leads to: a queue that cannot be kept is dropped.
pub open spec fn queue_pause_next(step: PauseStep, accepted: bool) -> PauseStep {
    match step {
        PauseStep::Pause => if accepted {
            PauseStep::Ended { kept: true, reset: false }
        } else {
            PauseStep::Stop
        },
        PauseStep::Stop => PauseStep::Ended { kept: false, reset: accepted },
        PauseStep::Ended { kept, reset } => PauseStep::Ended { kept, reset },
    }
}

/// Takes the device's reply and names what Pause asks of it next.
pub fn step_queue_pause(step: PauseStep, accepted: bool) -> (next: PauseStep)
    ensures
        next == queue_pause_next(step, accepted),
{
    match step {
        PauseStep::Pause => if accepted {
            PauseStep::Ended { kept: true, reset: false }
        } else {
            PauseStep::Stop
        },
        PauseStep::Stop => PauseStep::Ended { kept: false, reset: accepted },
        PauseStep::Ended { kept, reset } => PauseStep::Ended { kept, reset },
    }
}

/// Takes up what became of the playback queue at Pause.
pub fn sink_pause(port: &mut SinkPort, kept: bool, reset: bool)
    ensures
        *final(port) == sink_paused(*old(port), kept, reset),
{
    if !kept {
        if reset {
            reset_device_event(port);
        } else {
            port.ext.rebuild_after_start = true;
        }
    }
}

/// A buffer that a pause interrupted survives it: what the device accepted of it
/// is still known at the next Start, and a device whose queue is in doubt is not
/// resumed.
pub proof fn pause_keeps_the_pending_write(
    port: SinkPort,
    kept: bool,
    reset: bool,
    outcome: ResumeOutcome,
    running: bool,
)
    ensures
        ({
            let paused = sink_paused(port, kept, reset);
            let started = sink_started(paused, outcome);
            &&& started.ext.pending_buffer == port.ext.pending_buffer
            &&& started.ext.pending_offset == port.ext.pending_offset
            &&& !kept && !reset ==> !resumes(paused, false, running)
                && started.ext.rebuild_after_start
        }),
{
}

/// A device that answers no request is replaced before it is written to again, whether it
/// refuses at Pause or at Start; one that answers any of them is not.
pub proof fn only_a_refusing_device_is_replaced(
    port: SinkPort,
    first: bool,
    second: bool,
    running: bool,
)
    requires
        !port.ext.rebuild_after_start,
    ensures
        ({
            let asked = queue_pause_next(PauseStep::Pause, first);
            let ended = if asked is Stop {
                queue_pause_next(asked, second)
            } else {
                asked
            };
            &&& ended is Ended
            &&& sink_paused(port, ended->kept, ended->reset).ext.rebuild_after_start == (!first
                && !second)
        }),
        resumes(port, false, running) ==> ({
            let asked = resume_next(resume_begun(port, false, running), first);
            let ended = if asked is Stop {
                resume_next(asked, second)
            } else {
                asked
            };
            &&& ended is Ended
            &&& sink_started(port, ended->0).ext.rebuild_after_start == (!first && !second)
            &&& sink_started(port, ended->0).ext.resuming == first
        }),
{
}

/// A capture node never delivers what queued up while it was paused or suspended.
pub proof fn capture_restarts_with_fresh_audio(port: SourcePort)
    ensures
        !source_started(port).ext.primed,
        !<SourcePortExt as Direction>::suspended(port).ext.primed,
        !<SourcePortExt as Direction>::device_swapped(port).ext.primed,
{
}

/// Another device takes nothing of the playback stream over: neither its predecessor's
/// events nor the recovery hold, the pending write or the paused queue. The fill targets and
/// the servo stay for the geometry that is committed next.
pub proof fn other_device_starts_a_clean_playback(port: SinkPort)
    ensures
        ({
            let after = <SinkPortExt as Direction>::device_swapped(port);
            &&& after.device_event is None
            &&& !after.device_eof
            &&& after.event_xruns_seen == 0
            &&& after.wake_threshold == 0
            &&& after.ext == (SinkPortExt {
                xrun_timestamp: 0,
                resuming: false,
                rebuild_after_start: false,
                pending_buffer: None,
                pending_offset: 0,
                ..port.ext
            })
            &&& after == (Port {
                device_event: None,
                device_eof: false,
                event_xruns_seen: 0,
                wake_threshold: 0,
                ext: after.ext,
                ..port
            })
        }),
{
}

/// Another device takes nothing of the capture stream over: it is primed anew, hands every
/// buffer out again, and its servo's loop restarts.
pub proof fn other_device_starts_a_clean_capture(port: SourcePort)
    ensures
        ({
            let after = <SourcePortExt as Direction>::device_swapped(port);
            &&& after.device_event is None
            &&& !after.device_eof
            &&& after.event_xruns_seen == 0
            &&& after.wake_threshold == 0
            &&& after.servo.loop_cold
            &&& after.servo.bandwidth_cold == port.servo.bandwidth_cold
            &&& after.servo.geometry == port.servo.geometry
            &&& after.ext == (SourcePortExt { primed: false, active_buffers: 0, ..port.ext })
            &&& after == (Port {
                device_event: None,
                device_eof: false,
                event_xruns_seen: 0,
                wake_threshold: 0,
                servo: after.servo,
                ext: after.ext,
                ..port
            })
        }),
{
}

/// Other buffers end the input sequence of playback, and capture hands them all out again;
/// the stream itself goes on.
pub proof fn other_buffers_keep_the_stream(
    sink: SinkPort,
    source: SourcePort,
    queue_reset: bool,
)
    ensures
        ({
            let after = <SinkPortExt as Direction>::buffers_swapped(sink, queue_reset);
            &&& after.ext == (SinkPortExt { pending_buffer: None, pending_offset: 0, ..sink.ext })
            &&& queue_reset ==> after.device_event is None && !after.device_eof
                && after.event_xruns_seen == 0 && after.wake_threshold == 0
            &&& !queue_reset ==> after == (Port { ext: after.ext, ..sink })
            &&& after.config == sink.config && after.setup_period == sink.setup_period
                && after.servo == sink.servo
        }),
        <SourcePortExt as Direction>::buffers_swapped(source, queue_reset) == (Port {
            ext: SourcePortExt { active_buffers: 0, ..source.ext },
            ..source
        }),
{
}

/// Suspend forgets what a stopped device cannot hold: the pending write and the paused queue
/// of playback, and the primed ring of capture.
pub proof fn suspend_forgets_the_queue(sink: SinkPort, source: SourcePort)
    ensures
        <SinkPortExt as Direction>::suspended(sink) == (Port {
            ext: SinkPortExt {
                resuming: false,
                rebuild_after_start: false,
                pending_buffer: None,
                pending_offset: 0,
                ..sink.ext
            },
            ..sink
        }),
        <SourcePortExt as Direction>::suspended(source) == (Port {
            ext: SourcePortExt { primed: false, ..source.ext },
            ..source
        }),
{
}

/// The driver's servo runs on playback at any time but during a recovery hold, and on
/// capture once the ring is primed.
pub proof fn servo_runs_on_a_live_stream(sink: SinkPort, source: SourcePort)
    ensures
        <SinkPortExt as Direction>::ready(sink),
        <SinkPortExt as Direction>::held(sink) <==> sink.ext.xrun_timestamp > 0,
        <SourcePortExt as Direction>::ready(source) <==> source.ext.primed,
        !<SourcePortExt as Direction>::held(source),
{
}

/// A slow device shows as a positive error on both sides: playback holds more than its
/// target, capture less.
pub proof fn slow_device_is_a_positive_error(sink: SinkPort, source: SourcePort, fill: u32)
    ensures
        <SinkPortExt as Direction>::level_error(sink, fill) + sink.ext.target_delay == fill,
        <SourcePortExt as Direction>::level_error(source, fill) + fill == source.ext.target_fill,
        fill > sink.ext.target_delay <==> <SinkPortExt as Direction>::level_error(sink, fill) > 0,
        fill < source.ext.target_fill <==> <SourcePortExt as Direction>::level_error(source, fill)
            > 0,
{
}

/// A sampled fill lets the target of playback settle toward its goal; capture has none to
/// settle.
pub proof fn sample_settles_the_playback_target(sink: SinkPort, source: SourcePort, fill: u32)
    ensures
        ({
            let after = <SinkPortExt as Direction>::sampled(sink, fill);
            let ahead = fill + crate::arith::imax(
                sink.setup_period as int / 4,
                sink.stride() as int,
            );
            &&& sink.ext.target_delay >= sink.ext.target_goal ==> after == sink
            &&& sink.ext.target_delay < sink.ext.target_goal <= ahead ==> after.ext.target_delay
                == sink.ext.target_goal
            &&& sink.ext.target_delay <= ahead < sink.ext.target_goal ==> after.ext.target_delay
                == ahead
            &&& ahead < sink.ext.target_delay ==> after == sink
            &&& after == (Port {
                ext: SinkPortExt { target_delay: after.ext.target_delay, ..sink.ext },
                ..sink
            })
        }),
        <SourcePortExt as Direction>::sampled(source, fill) == source,
{
}

/// A playback device wakes the node when its queue has drained to the target, a capture
/// device when the target, and a period, are there to be read. The threshold is never zero.
pub proof fn device_wakes_the_node_at_its_target(sink: SinkPort, source: SourcePort)
    ensures
        ({
            let free = <SinkPortExt as Direction>::threshold(sink);
            let filled = <SourcePortExt as Direction>::threshold(source);
            &&& free >= 1 && filled >= 1
            &&& sink.ext.buffer_size > sink.ext.target_delay ==> free + sink.ext.target_delay
                == sink.ext.buffer_size
            &&& sink.ext.buffer_size <= sink.ext.target_delay ==> free == 1
            &&& filled >= source.ext.target_fill && filled >= source.setup_period
            &&& filled == source.ext.target_fill || filled == source.setup_period || filled == 1
            &&& source.ext.target_fill + source.setup_period > 0 ==> filled
                == source.ext.target_fill || filled == source.setup_period
        }),
{
}

/// A change of role restarts both parts of the servo and forgets the matching history; the
/// rest of the port stays.
pub proof fn role_flip_restarts_the_servo<E>(port: Port<E>)
    ensures
        ({
            let after = role_flipped(port);
            &&& after.servo.loop_cold && after.servo.bandwidth_cold
            &&& after.servo.geometry == port.servo.geometry
            &&& !after.was_matching
            &&& after == (Port { servo: after.servo, was_matching: false, ..port })
        }),
{
}

/// Start of a capture node primes its ring anew and restarts the servo; the rest stays.
pub proof fn capture_start_primes_anew(port: SourcePort)
    ensures
        ({
            let after = source_started(port);
            &&& !after.ext.primed
            &&& after.servo.loop_cold && after.servo.bandwidth_cold
            &&& after.servo.geometry == port.servo.geometry
            &&& after == (Port {
                servo: after.servo,
                ext: SourcePortExt { primed: false, ..port.ext },
                ..port
            })
        }),
{
}

/// Start continues the queue of a running channel that a pause left with a committed period;
/// a node that was started already, a device that is to be replaced and a channel that never
/// ran have none to continue.
pub proof fn start_continues_a_paused_queue(port: SinkPort, was_started: bool, running: bool)
    ensures
        was_started ==> resume_begun(port, was_started, running) == ResumeStep::Ended(
            ResumeOutcome::NotAsked,
        ),
        port.ext.rebuild_after_start ==> resume_begun(port, was_started, running)
            == ResumeStep::Ended(ResumeOutcome::NotAsked),
        !running || port.setup_period == 0 ==> resume_begun(port, was_started, running)
            == ResumeStep::Ended(ResumeOutcome::NotAsked),
        !was_started && !port.ext.rebuild_after_start && running && port.setup_period > 0
            ==> resume_begun(port, was_started, running) == ResumeStep::Resume,
{
}

/// A queue that the device restores is resumed. One that it does not is dropped, and a
/// device that does not even drop it has refused.
pub proof fn device_answers_the_resume(accepted: bool)
    ensures
        resume_next(ResumeStep::Resume, true) == ResumeStep::Ended(ResumeOutcome::Resumed),
        resume_next(ResumeStep::Resume, false) == ResumeStep::Stop,
        resume_next(ResumeStep::Stop, true) == ResumeStep::Ended(ResumeOutcome::Reset),
        resume_next(ResumeStep::Stop, false) == ResumeStep::Ended(ResumeOutcome::Refused),
        queue_pause_next(PauseStep::Pause, true) == (PauseStep::Ended { kept: true, reset: false }),
        queue_pause_next(PauseStep::Pause, false) == PauseStep::Stop,
        queue_pause_next(PauseStep::Stop, accepted) == (PauseStep::Ended {
            kept: false,
            reset: accepted,
        }),
{
}

/// Start of a playback node restarts the servo and ends a recovery hold. Only a restored
/// queue is resumed, only a dropped one leaves the device without events, and only a device
/// that refused is replaced before it is written to.
pub proof fn playback_start_follows_the_answer(port: SinkPort, outcome: ResumeOutcome)
    ensures
        ({
            let after = sink_started(port, outcome);
            &&& after.servo.loop_cold && after.servo.bandwidth_cold
            &&& after.servo.geometry == port.servo.geometry
            &&& !after.was_matching
            &&& after.ext.xrun_timestamp == 0
            &&& after.ext.resuming <==> outcome == ResumeOutcome::Resumed
            &&& after.ext.rebuild_after_start <==> port.ext.rebuild_after_start || outcome
                == ResumeOutcome::Refused
            &&& outcome == ResumeOutcome::Reset ==> after.device_event is None
                && !after.device_eof && after.event_xruns_seen == 0 && after.wake_threshold == 0
            &&& outcome != ResumeOutcome::Reset ==> after.device_event == port.device_event
                && after.device_eof == port.device_eof && after.event_xruns_seen
                == port.event_xruns_seen && after.wake_threshold == port.wake_threshold
            &&& after.ext == (SinkPortExt {
                xrun_timestamp: 0,
                resuming: after.ext.resuming,
                rebuild_after_start: after.ext.rebuild_after_start,
                ..port.ext
            })
            &&& after.config == port.config && after.setup_period == port.setup_period
                && after.setup_blocksize == port.setup_blocksize && after.generation
                == port.generation && after.rebuild_pending == port.rebuild_pending
                && after.pending_xrun == port.pending_xrun
        }),
{
}

/// Pause leaves a kept queue as it is, a dropped one without events, and marks a device that
/// did neither to be replaced.
pub proof fn playback_pause_follows_the_answer(port: SinkPort, reset: bool)
    ensures
        sink_paused(port, true, reset) == port,
        sink_paused(port, false, true) == (Port {
            device_event: None,
            device_eof: false,
            event_xruns_seen: 0,
            wake_threshold: 0,
            ..port
        }),
        sink_paused(port, false, false) == (Port {
            ext: SinkPortExt { rebuild_after_start: true, ..port.ext },
            ..port
        }),
{
}

} // verus!
