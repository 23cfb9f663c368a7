//! The phases of a playback cycle: underrun detection and recovery, resuming
//! after a pause, fill correction, and the buffer that is written in pieces.
use vstd::prelude::*;

use crate::abi;
use crate::arith::{imax, imin, sat32};
use crate::device::{IoStatus, WriteOutcome};
use crate::port::Port;
use crate::sink::geometry::{
    fill_floor, floor_bytes, next_fill, predicted_next_fill, SinkPort, SinkPortExt,
};
use crate::timing::{bytes_in, ns_to_bytes};

verus! {

/// The fill below which a wake-up is a real underrun: a period, capped by the
/// healthy low point of the fill (the target less one transfer), lowered by what
/// drained over a late wake-up. The floor keeps an empty ring detectable at any
/// lateness.
pub open spec fn underrun_threshold(
    target_delay: int,
    blocksize: int,
    period: int,
    drained: int,
) -> int {
    let low = imax(imin(period, imax(0, target_delay - blocksize)), period / 4);
    let wander = imax(period / 4, blocksize);
    imax(imin(low, imax(0, target_delay - drained - wander)), period / 16)
}

/// The fill below which a wake-up counts as a real underrun.
pub fn underrun_low(target_delay: u32, blocksize: u32, period: u32, drained: u32) -> (low: u32)
    ensures
        low == underrun_threshold(
            target_delay as int,
            blocksize as int,
            period as int,
            drained as int,
        ),
{
    let low: u32 = period.min(target_delay.saturating_sub(blocksize)).max(period / 4);
    let wander: u32 = (period / 4).max(blocksize);
    low.min(target_delay.saturating_sub(drained).saturating_sub(wander)).max(period / 16)
}

/// An empty ring is below the threshold whatever the lateness, and a ring at its
/// healthy low point never is, when the wake-up is on time.
pub proof fn empty_is_low_and_healthy_is_not(
    target_delay: u32,
    blocksize: u32,
    period: u32,
    drained: u32,
)
    requires
        period >= 16,
    ensures
        0 < underrun_threshold(
            target_delay as int,
            blocksize as int,
            period as int,
            drained as int,
        ),
        target_delay - blocksize >= period / 4 ==> target_delay - blocksize >= underrun_threshold(
            target_delay as int,
            blocksize as int,
            period as int,
            0,
        ),
{
}

/// A moment in nanoseconds as a nonzero mark.
pub open spec fn nonzero_mark(nsec: u64) -> u64 {
    if nsec == 0 {
        1
    } else {
        nsec
    }
}

/// What the device played since the cycle was due.
pub open spec fn drained_bytes(port: SinkPort, cur_timestamp: u64, clock_nsec: u64) -> u32 {
    bytes_in(imax(0, cur_timestamp - clock_nsec), port.rate(), port.stride())
}

/// The port after an underrun count was weighed against the fill.
pub open spec fn underrun_detected(
    port: SinkPort,
    period: u32,
    cur_timestamp: u64,
    clock_nsec: u64,
    fill: u32,
) -> SinkPort {
    if port.config is Some && fill < underrun_threshold(
        port.ext.target_delay as int,
        port.setup_blocksize as int,
        period as int,
        drained_bytes(port, cur_timestamp, clock_nsec) as int,
    ) && port.ext.xrun_timestamp == 0 {
        Port {
            pending_xrun: Some(cur_timestamp / 1000),
            ext: SinkPortExt { xrun_timestamp: nonzero_mark(clock_nsec), ..port.ext },
            ..port
        }
    } else {
        port
    }
}

/// Weighs an underrun count against the fill: a device counts a momentarily short
/// queue too, so only a fill that is really low arms the recovery. The hold is
/// stamped with the driver's clock and reported to the host once per event.
pub fn detect_underrun(
    port: &mut SinkPort,
    period: u32,
    cur_timestamp: u64,
    clock_nsec: u64,
    fill: u32,
)
    ensures
        *final(port) == underrun_detected(*old(port), period, cur_timestamp, clock_nsec, fill),
{
    let (stride, rate) = match port.stride_rate() {
        Some((stride, rate)) => (stride, rate),
        None => return ,
    };
    let elapsed: u64 = cur_timestamp.saturating_sub(clock_nsec);
    let drained: u32 = ns_to_bytes(elapsed, rate, stride);
    let low: u32 = underrun_low(port.ext.target_delay, port.setup_blocksize, period, drained);
    if fill < low && port.ext.xrun_timestamp == 0 {
        port.ext.xrun_timestamp = if clock_nsec == 0 {
            1
        } else {
            clock_nsec
        };
        port.pending_xrun = Some(cur_timestamp / 1000);
    }
}

/// A hold that is armed stays as it was stamped, and is not reported again.
pub proof fn hold_is_armed_once(
    port: SinkPort,
    period: u32,
    cur_timestamp: u64,
    clock_nsec: u64,
    fill: u32,
)
    requires
        port.ext.xrun_timestamp != 0,
    ensures
        underrun_detected(port, period, cur_timestamp, clock_nsec, fill) == port,
{
}

/// Whether the cycle at `clock_nsec` ends a recovery hold: it lies past the event
/// and the host is not recovering itself.
pub open spec fn recovers(port: SinkPort, clock_nsec: u64, clock_flags: u32) -> bool {
    clock_nsec > port.ext.xrun_timestamp && clock_flags & abi::CLOCK_FLAG_XRUN_RECOVER == 0
}

/// The target after a recovery: at least the safe floor, never above the goal.
pub open spec fn recovery_target(port: SinkPort) -> int {
    let safe = sat32(floor_bytes(port.setup_period as int, port.setup_blocksize as int)) as int;
    let goal = port.ext.target_goal as int;
    imin(imax(port.ext.target_delay as int, imin(safe, goal)), goal)
}

/// The port after a recovery hold ended.
pub open spec fn recovered(port: SinkPort) -> SinkPort {
    Port {
        servo: port.servo.relocked(),
        ext: SinkPortExt {
            xrun_timestamp: 0,
            target_delay: recovery_target(port) as u32,
            ..port.ext
        },
        ..port
    }
}

/// Ends a recovery hold on the first cycle past the event: the servo restarts and
/// the target is restored to a safe level. Returns whether the hold ended; until
/// it does, buffers are consumed unwritten.
pub fn recover_or_hold(port: &mut SinkPort, clock_nsec: u64, clock_flags: u32) -> (recover: bool)
    ensures
        recover == recovers(*old(port), clock_nsec, clock_flags),
        *final(port) == if recover {
            recovered(*old(port))
        } else {
            *old(port)
        },
{
    if clock_nsec > port.ext.xrun_timestamp && clock_flags & abi::CLOCK_FLAG_XRUN_RECOVER == 0 {
        port.ext.xrun_timestamp = 0;
        port.servo.relock();
        let safe: u32 = fill_floor(port.setup_period, port.setup_blocksize);
        port.ext.target_delay = port.ext.target_delay.max(safe.min(port.ext.target_goal)).min(
            port.ext.target_goal,
        );
        true
    } else {
        false
    }
}

/// The silence that brings a queue of `fill` bytes up to the target.
pub fn refill(port: &SinkPort, fill: u32) -> (bytes: u32)
    ensures
        bytes == imax(0, port.ext.target_delay - fill),
{
    port.ext.target_delay.saturating_sub(fill)
}

/// A recovery restores a steady target in full and a settling one to the safe
/// floor, and never moves a target above its goal.
pub proof fn recovery_restores_safe_headroom(port: SinkPort)
    requires
        port.ext.target_delay <= port.ext.target_goal,
    ensures
        port.ext.target_delay <= recovery_target(port) <= port.ext.target_goal,
        port.ext.target_delay == port.ext.target_goal ==> recovery_target(port)
            == port.ext.target_goal,
        recovery_target(port) >= imin(
            sat32(floor_bytes(port.setup_period as int, port.setup_blocksize as int)) as int,
            port.ext.target_goal as int,
        ),
{
}

/// Whether a paused queue was lost: it is empty and the device counted underruns.
/// An empty soft queue alone does not show that playback stopped.
pub open spec fn pause_lost_queue(queued: u32, paused_underruns: u32) -> bool {
    queued == 0 && paused_underruns > 0
}

/// The port before the first write after a pause.
pub open spec fn resume_prepared(port: SinkPort, queued: u32, paused_underruns: u32) -> SinkPort {
    if pause_lost_queue(queued, paused_underruns) {
        Port {
            servo: port.servo.relocked(),
            ext: SinkPortExt { target_delay: port.ext.target_goal, ..port.ext },
            ..port
        }
    } else {
        port
    }
}

/// Prepares the first write after a pause. A lost queue is a cold restart: the
/// result is the silence to write first, the whole goal. A surviving queue gets
/// the buffer appended and no silence.
pub fn resume_prepare(port: &mut SinkPort, queued: u32, paused_underruns: u32) -> (silence: Option<u32>)
    ensures
        *final(port) == resume_prepared(*old(port), queued, paused_underruns),
        silence == if pause_lost_queue(queued, paused_underruns) {
            Some(old(port).ext.target_goal)
        } else {
            None
        },
{
    if queued == 0 && paused_underruns > 0 {
        port.ext.target_delay = port.ext.target_goal;
        port.servo.relock();
        Some(port.ext.target_delay)
    } else {
        None
    }
}

/// The port after the first write after a pause.
pub open spec fn resume_written(
    port: SinkPort,
    queued: u32,
    paused_underruns: u32,
    written: WriteOutcome,
) -> SinkPort {
    let target_delay = if !pause_lost_queue(queued, paused_underruns) && written.bytes > 0 {
        imin(
            port.ext.target_goal as int,
            next_fill(queued, written.bytes as u32, port.setup_period),
        ) as u32
    } else {
        port.ext.target_delay
    };
    Port {
        ext: SinkPortExt {
            target_delay,
            resuming: port.ext.resuming && written.blocked(),
            ..port.ext
        },
        ..port
    }
}

/// Takes up the first write after a pause. The target of a surviving queue is
/// what it will hold with the bytes that the device really accepted. A blocked
/// write leaves the port resuming, so that the buffer is tried again.
pub fn resume_playback(
    port: &mut SinkPort,
    queued: u32,
    paused_underruns: u32,
    written: WriteOutcome,
)
    requires
        written.bytes <= u32::MAX,
    ensures
        *final(port) == resume_written(*old(port), queued, paused_underruns, written),
{
    let drained = queued == 0 && paused_underruns > 0;
    if !drained && written.bytes > 0 {
        port.ext.target_delay = port.ext.target_goal.min(
            predicted_next_fill(queued, written.bytes as u32, port.setup_period),
        );
    }
    if !written.would_block() {
        port.ext.resuming = false;
    }
}

/// The target after a settling step.
pub open spec fn settled(port: SinkPort, fill: u32, stride: u32) -> int {
    let target = port.ext.target_delay as int;
    let goal = port.ext.target_goal as int;
    if target >= goal {
        target
    } else {
        let lead = imax((port.setup_period / 4) as int, stride as int);
        imax(target, imin(fill + lead, goal))
    }
}

/// The port after a settling step.
pub open spec fn settled_port(port: SinkPort, fill: u32, stride: u32) -> SinkPort {
    Port { ext: SinkPortExt { target_delay: settled(port, fill, stride) as u32, ..port.ext }, ..port }
}

/// Moves a seeded target toward its goal as real audio accumulates, never more
/// than a quarter period ahead of the measured fill.
pub fn settle_target(port: &mut SinkPort, fill: u32, stride: u32)
    ensures
        *final(port) == settled_port(*old(port), fill, stride),
{
    if port.ext.target_delay >= port.ext.target_goal {
        return ;
    }
    let lead: u32 = (port.setup_period / 4).max(stride);
    let capped_lead: u32 = fill.saturating_add(lead).min(port.ext.target_goal);
    port.ext.target_delay = port.ext.target_delay.max(capped_lead);
}

/// Settling never lowers the target, never passes the goal, and advances only
/// within a quarter period (or one frame) of the real fill; without new audio a
/// second step changes nothing.
pub proof fn settling_follows_the_real_fill(port: SinkPort, fill: u32, stride: u32)
    requires
        port.ext.target_delay <= port.ext.target_goal,
    ensures
        port.ext.target_delay <= settled(port, fill, stride) <= port.ext.target_goal,
        settled(port, fill, stride) > port.ext.target_delay ==> settled(port, fill, stride) <= fill
            + imax((port.setup_period / 4) as int, stride as int),
        settled_port(settled_port(port, fill, stride), fill, stride) == settled_port(
            port,
            fill,
            stride,
        ),
{
}

/// What a follower does about its fill in a cycle.
#[derive(Debug, Clone, Copy, PartialEq, Eq, Structural)]
pub enum FillStep {
    /// Nothing to correct.
    Keep,
    /// Write this much silence before the buffer.
    Refill(u32),
    /// Consume the buffer unwritten while the device drains.
    Skip,
    /// Feed this error, in half bytes, to the rate servo.
    Servo(i64),
}

/// `x` clamped to `-bound..=bound`.
pub open spec fn clamp_abs(x: int, bound: int) -> int {
    imax(-bound, imin(x, bound))
}

/// The error that a servo is fed, in half bytes: the level error, clamped to half
/// a period or 256 frames, whichever is larger.
pub open spec fn servo_error(level_error: int, setup_period: int, stride: int) -> int {
    clamp_abs(2 * level_error, imax(setup_period, 512 * stride))
}

/// The error that a rate servo is fed, in half bytes.
pub fn clamped_servo_error(level_error: i64, setup_period: u32, stride: u32) -> (err: i64)
    requires
        -(u32::MAX as int) <= level_error <= u32::MAX,
    ensures
        err == servo_error(level_error as int, setup_period as int, stride as int),
{
    let wide: i64 = stride as i64 * 512;
    let bound: i64 = if setup_period as i64 >= wide {
        setup_period as i64
    } else {
        wide
    };
    let doubled: i64 = level_error * 2;
    if doubled > bound {
        bound
    } else if doubled < -bound {
        -bound
    } else {
        doubled
    }
}

/// What [`follower_servo`] decides, for a port whose target has settled.
pub open spec fn follower_step(port: SinkPort, fill: u32, stride: u32) -> FillStep {
    let err = fill - port.ext.target_delay;
    if err < -port.setup_period {
        FillStep::Refill(-err as u32)
    } else if err > port.setup_period {
        FillStep::Skip
    } else {
        FillStep::Servo(servo_error(err as int, port.setup_period as int, stride as int) as i64)
    }
}

/// The port after [`follower_servo`].
pub open spec fn followed(port: SinkPort, fill: u32, stride: u32) -> SinkPort {
    let settled = settled_port(port, fill, stride);
    if !port.was_matching || follower_step(settled, fill, stride) !is Servo {
        Port { servo: port.servo.relocked(), ..settled }
    } else {
        settled
    }
}

/// The servo phase of a follower on a foreign clock. An error past one period is
/// corrected at once, by silence or by skipping the buffer, and the servo
/// restarts; a smaller one goes to the servo. A servo whose matching just began
/// restarts first.
pub fn follower_servo(port: &mut SinkPort, fill: u32, stride: u32) -> (step: FillStep)
    ensures
        step == follower_step(settled_port(*old(port), fill, stride), fill, stride),
        *final(port) == followed(*old(port), fill, stride),
{
    settle_target(port, fill, stride);
    if !port.was_matching {
        port.servo.relock();
    }
    let err: i64 = fill as i64 - port.ext.target_delay as i64;
    if err < -(port.setup_period as i64) {
        port.servo.relock();
        FillStep::Refill(port.ext.target_delay - fill)
    } else if err > port.setup_period as i64 {
        port.servo.relock();
        FillStep::Skip
    } else {
        FillStep::Servo(clamped_servo_error(err, port.setup_period, stride))
    }
}

/// What [`level_correct`] decides.
pub open spec fn level_step(port: SinkPort, fill: u32) -> FillStep {
    let err = fill - port.ext.target_delay;
    if err < -port.setup_period {
        FillStep::Refill(-err as u32)
    } else if err > port.setup_period {
        FillStep::Skip
    } else {
        FillStep::Keep
    }
}

/// The level correction of a follower on this device's own clock: there is no
/// rate to match, so only an error past one period is corrected, around the
/// target as it stands.
pub fn level_correct(port: &SinkPort, fill: u32) -> (step: FillStep)
    ensures
        step == level_step(*port, fill),
{
    let err: i64 = fill as i64 - port.ext.target_delay as i64;
    if err < -(port.setup_period as i64) {
        FillStep::Refill(port.ext.target_delay - fill)
    } else if err > port.setup_period as i64 {
        FillStep::Skip
    } else {
        FillStep::Keep
    }
}

/// A correction by silence brings the queue exactly to the target.
pub proof fn refill_reaches_the_target(port: SinkPort, fill: u32)
    ensures
        level_step(port, fill) matches FillStep::Refill(silence) ==> fill + silence
            == port.ext.target_delay && silence > port.setup_period,
{
}

/// Whether a buffer differs from the one whose prefix was accepted: another
/// identity, or a size below that prefix.
pub open spec fn pending_differs(ext: SinkPortExt, buffer_id: u32, size: usize) -> bool {
    ext.pending_buffer != Some(buffer_id) || ext.pending_offset > size
}

/// The fields after the pending write was matched against a buffer.
pub open spec fn pending_matched(ext: SinkPortExt, buffer_id: u32, size: usize) -> SinkPortExt {
    if pending_differs(ext, buffer_id, size) {
        SinkPortExt { pending_buffer: Some(buffer_id), pending_offset: 0, ..ext }
    } else {
        ext
    }
}

/// The first byte of this buffer that the device has not accepted. Another
/// buffer, or one shorter than the accepted prefix, starts at its beginning.
pub fn pending_write_offset(ext: &mut SinkPortExt, buffer_id: u32, size: usize) -> (offset: usize)
    ensures
        *final(ext) == pending_matched(*old(ext), buffer_id, size),
        offset == final(ext).pending_offset,
        offset <= size,
        final(ext).pending_buffer == Some(buffer_id),
{
    let differs = match ext.pending_buffer {
        Some(id) => id != buffer_id,
        None => true,
    };
    if differs || ext.pending_offset as usize > size {
        ext.pending_buffer = Some(buffer_id);
        ext.pending_offset = 0;
    }
    ext.pending_offset as usize
}

/// Whether an accepted prefix has to be closed before this buffer is written,
/// because the host replaced the buffer that it belongs to.
pub fn pending_write_changed(ext: &SinkPortExt, buffer_id: u32, size: usize) -> (changed: bool)
    ensures
        changed == (ext.pending_offset != 0 && pending_differs(*ext, buffer_id, size)),
{
    let differs = match ext.pending_buffer {
        Some(id) => id != buffer_id,
        None => true,
    };
    ext.pending_offset != 0 && (differs || ext.pending_offset as usize > size)
}

/// The fields without a pending write.
pub open spec fn pending_cleared(ext: SinkPortExt) -> SinkPortExt {
    SinkPortExt { pending_buffer: None, pending_offset: 0, ..ext }
}

/// Forgets the accepted prefix.
pub fn clear_pending_write(ext: &mut SinkPortExt)
    ensures
        *final(ext) == pending_cleared(*old(ext)),
{
    ext.pending_buffer = None;
    ext.pending_offset = 0;
}

/// The port after its input sequence ended.
pub open spec fn sequence_ended(port: SinkPort, queue_reset: bool) -> SinkPort {
    let port = if queue_reset {
        port.without_device_event()
    } else {
        port
    };
    Port { ext: pending_cleared(port.ext), ..port }
}

/// Takes up that the device closed the frame which an accepted prefix left open.
/// `queue_reset` tells that it had to reset its queue for that.
pub fn end_input_sequence(port: &mut SinkPort, queue_reset: bool)
    ensures
        *final(port) == sequence_ended(*old(port), queue_reset),
{
    if queue_reset {
        crate::port::reset_device_event(port);
    }
    clear_pending_write(&mut port.ext);
}

/// Whether a write of `requested` bytes left a tail to be written later.
pub open spec fn leaves_tail(requested: u32, write: WriteOutcome) -> bool {
    0 < write.bytes < requested && (write.status == IoStatus::Progress || write.status
        == IoStatus::WouldBlock)
}

/// Records the accepted prefix of a short write. A short write is ordinary back
/// pressure; only another failure gives the rest of the buffer up.
pub fn retain_partial_write(ext: &mut SinkPortExt, requested: u32, write: WriteOutcome) -> (retained:
    bool)
    ensures
        retained == leaves_tail(requested, write),
        *final(ext) == if retained {
            SinkPortExt {
                pending_offset: sat32(old(ext).pending_offset + write.bytes),
                ..*old(ext)
            }
        } else {
            *old(ext)
        },
{
    if write.bytes > 0 && write.bytes < requested as usize && (write.status == IoStatus::Progress
        || write.status == IoStatus::WouldBlock) {
        ext.pending_offset = ext.pending_offset.saturating_add(write.bytes as u32);
        true
    } else {
        false
    }
}

/// A buffer written in pieces is written whole: after a short write the next
/// offset into the same buffer lies right behind the accepted bytes, inside it.
pub proof fn pieces_make_up_the_buffer(
    ext: SinkPortExt,
    buffer_id: u32,
    size: u32,
    write: WriteOutcome,
)
    requires
        ext.pending_buffer == Some(buffer_id),
        ext.pending_offset < size,
        leaves_tail((size - ext.pending_offset) as u32, write),
    ensures
        ({
            let after = SinkPortExt {
                pending_offset: sat32(ext.pending_offset + write.bytes),
                ..ext
            };
            &&& after.pending_offset == ext.pending_offset + write.bytes
            &&& after.pending_offset < size
            &&& pending_matched(after, buffer_id, size as usize) == after
        }),
{
}

/// The wake-up threshold of a playback port: the free space at which the queue
/// has drained to the live target, never zero.
pub fn wake_threshold(port: &SinkPort) -> (threshold: u32)
    ensures
        threshold == imax(port.ext.buffer_size - port.ext.target_delay, 1),
{
    port.ext.buffer_size.saturating_sub(port.ext.target_delay).max(1)
}

/// The underrun threshold is what the target leaves below it: the target less what drained
/// meanwhile and less a quarter period or one transfer, whichever is larger. It is a period
/// at most, and a sixteenth of one at least.
pub proof fn underrun_threshold_follows_the_target(
    target_delay: u32,
    blocksize: u32,
    period: u32,
    drained: u32,
)
    ensures
        underrun_threshold(target_delay as int, blocksize as int, period as int, drained as int)
            == imax(
            period as int / 16,
            imin(
                period as int,
                target_delay - drained - imax(period as int / 4, blocksize as int),
            ),
        ),
{
}

/// An underrun is a fill below what the target leaves, with what the device played since
/// the cycle was due taken off. It holds the stream from the moment of the cycle, and the
/// host is told of it in microseconds; any other fill changes nothing.
pub proof fn underrun_is_weighed_against_the_lateness(
    port: SinkPort,
    period: u32,
    cur_timestamp: u64,
    clock_nsec: u64,
    fill: u32,
)
    requires
        port.config is Some,
        port.ext.xrun_timestamp == 0,
    ensures
        ({
            let elapsed = imax(0, cur_timestamp - clock_nsec);
            let drained = sat32((elapsed * port.rate()) * port.stride() / 1_000_000_000) as int;
            let margin = imax(period as int / 4, port.setup_blocksize as int);
            let low = imax(
                period as int / 16,
                imin(period as int, port.ext.target_delay - drained - margin),
            );
            let after = underrun_detected(port, period, cur_timestamp, clock_nsec, fill);
            &&& fill < low ==> {
                &&& after.pending_xrun == Some(cur_timestamp / 1000)
                &&& clock_nsec > 0 ==> after.ext.xrun_timestamp == clock_nsec
                &&& clock_nsec == 0 ==> after.ext.xrun_timestamp == 1
                &&& after == (Port {
                    pending_xrun: after.pending_xrun,
                    ext: SinkPortExt {
                        xrun_timestamp: after.ext.xrun_timestamp,
                        ..port.ext
                    },
                    ..port
                })
            }
            &&& fill >= low ==> after == port
        }),
{
    let drained = drained_bytes(port, cur_timestamp, clock_nsec);
    underrun_threshold_follows_the_target(
        port.ext.target_delay,
        port.setup_blocksize,
        period,
        drained,
    );
}

/// A hold ends with the first cycle past it that the host is not recovering: the servo
/// restarts, and the target is at least a period and its margin, as far as the goal allows.
pub proof fn hold_ends_at_a_safe_target(port: SinkPort, clock_nsec: u64, clock_flags: u32)
    requires
        port.ext.target_delay <= port.ext.target_goal,
        port.setup_period + imax(port.setup_period as int / 4, port.setup_blocksize as int)
            <= u32::MAX,
    ensures
        clock_nsec <= port.ext.xrun_timestamp ==> !recovers(port, clock_nsec, clock_flags),
        clock_flags & 2 != 0 ==> !recovers(port, clock_nsec, clock_flags),
        clock_nsec > port.ext.xrun_timestamp && clock_flags & 2 == 0 ==> recovers(
            port,
            clock_nsec,
            clock_flags,
        ),
        ({
            let after = recovered(port);
            let safe = port.setup_period + imax(
                port.setup_period as int / 4,
                port.setup_blocksize as int,
            );
            &&& after.ext.xrun_timestamp == 0
            &&& after.servo.loop_cold && after.servo.bandwidth_cold
            &&& after.servo.geometry == port.servo.geometry
            &&& after.ext.target_delay == imax(
                port.ext.target_delay as int,
                imin(safe, port.ext.target_goal as int),
            )
            &&& after == (Port {
                servo: after.servo,
                ext: SinkPortExt {
                    xrun_timestamp: 0,
                    target_delay: after.ext.target_delay,
                    ..port.ext
                },
                ..port
            })
        }),
{
}

/// A pause lost the queue where the device counted underruns and nothing is left of it:
/// the stream starts over at its whole goal. What is left of a queue is continued as it is.
pub proof fn lost_queue_starts_over(port: SinkPort, queued: u32, paused_underruns: u32)
    ensures
        pause_lost_queue(queued, paused_underruns) <==> queued == 0 && paused_underruns != 0,
        queued == 0 && paused_underruns != 0 ==> {
            let after = resume_prepared(port, queued, paused_underruns);
            &&& after.ext.target_delay == port.ext.target_goal
            &&& after.servo.loop_cold && after.servo.bandwidth_cold
            &&& after == (Port {
                servo: after.servo,
                ext: SinkPortExt { target_delay: port.ext.target_goal, ..port.ext },
                ..port
            })
        },
        queued != 0 || paused_underruns == 0 ==> resume_prepared(port, queued, paused_underruns)
            == port,
{
}

/// After the first write that follows a pause, the target of a queue that survived is what
/// it will hold at the next wake-up, the accepted bytes included, and never above the goal.
/// A device that took nothing and may take it later is asked again.
pub proof fn survived_queue_sets_the_target(
    port: SinkPort,
    queued: u32,
    paused_underruns: u32,
    written: WriteOutcome,
)
    requires
        written.bytes <= u32::MAX,
        queued + written.bytes <= u32::MAX,
    ensures
        ({
            let after = resume_written(port, queued, paused_underruns, written);
            let lost = queued == 0 && paused_underruns > 0;
            &&& !lost && written.bytes > 0 ==> after.ext.target_delay == imin(
                port.ext.target_goal as int,
                imax(0, queued + written.bytes - port.setup_period),
            )
            &&& lost || written.bytes == 0 ==> after.ext.target_delay == port.ext.target_delay
            &&& after.ext.resuming <==> port.ext.resuming && written.bytes == 0 && written.status
                == IoStatus::WouldBlock
            &&& after == (Port {
                ext: SinkPortExt {
                    target_delay: after.ext.target_delay,
                    resuming: after.ext.resuming,
                    ..port.ext
                },
                ..port
            })
        }),
{
}

/// A target below its goal follows the fill up: it stands a quarter period, or a frame,
/// ahead of the fill as soon as that is above where it stood, and stops at the goal.
pub proof fn target_rises_with_the_fill(port: SinkPort, fill: u32, stride: u32)
    requires
        port.ext.target_delay < port.ext.target_goal,
    ensures
        ({
            let ahead = fill + imax(port.setup_period as int / 4, stride as int);
            let after = settled_port(port, fill, stride);
            &&& ahead >= port.ext.target_goal ==> after.ext.target_delay == port.ext.target_goal
            &&& port.ext.target_delay <= ahead <= port.ext.target_goal ==> after.ext.target_delay
                == ahead
            &&& ahead <= port.ext.target_delay ==> after.ext.target_delay == port.ext.target_delay
            &&& after == (Port {
                ext: SinkPortExt { target_delay: after.ext.target_delay, ..port.ext },
                ..port
            })
        }),
{
}

/// A target at its goal stays there, whatever the fill.
pub proof fn settled_target_stays(port: SinkPort, fill: u32, stride: u32)
    requires
        port.ext.target_delay >= port.ext.target_goal,
    ensures
        settled_port(port, fill, stride) == port,
{
}

/// The servo is fed twice the level error while that is within a period, or within 512
/// frames, and the bound itself, with the error's sign, beyond.
pub proof fn servo_sees_the_error_up_to_a_bound(level_error: int, setup_period: u32, stride: u32)
    ensures
        ({
            let bound = imax(setup_period as int, 512 * stride as int);
            let fed = servo_error(level_error, setup_period as int, stride as int);
            &&& -bound <= 2 * level_error <= bound ==> fed == 2 * level_error
            &&& 2 * level_error > bound ==> fed == bound
            &&& 2 * level_error < -bound ==> fed == -bound
        }),
{
}

/// A follower's servo restarts where its matching just began and where the fill is off by
/// more than a period; otherwise the port only settles.
pub proof fn follower_restarts_its_servo(port: SinkPort, fill: u32, stride: u32)
    ensures
        ({
            let after = followed(port, fill, stride);
            let target = settled_port(port, fill, stride).ext.target_delay as int;
            let off = fill - target > port.setup_period || target - fill > port.setup_period;
            &&& after.ext == settled_port(port, fill, stride).ext
            &&& !port.was_matching || off ==> after.servo.loop_cold && after.servo.bandwidth_cold
                && after.servo.geometry == port.servo.geometry
            &&& port.was_matching && !off ==> after.servo == port.servo
            &&& after == (Port { servo: after.servo, ext: after.ext, ..port })
        }),
{
}

/// The accepted prefix belongs to one buffer of at least its size: any other buffer starts
/// at its beginning.
pub proof fn prefix_belongs_to_its_buffer(ext: SinkPortExt, buffer_id: u32, size: usize)
    ensures
        ext.pending_buffer == Some(buffer_id) && ext.pending_offset <= size ==> pending_matched(
            ext,
            buffer_id,
            size,
        ) == ext,
        ext.pending_buffer != Some(buffer_id) || ext.pending_offset > size ==> pending_matched(
            ext,
            buffer_id,
            size,
        ) == (SinkPortExt { pending_buffer: Some(buffer_id), pending_offset: 0, ..ext }),
        pending_differs(ext, buffer_id, size) <==> ext.pending_buffer != Some(buffer_id)
            || ext.pending_offset > size,
{
}

/// A write leaves a tail where the device took some of it, but not all, without a failure.
pub proof fn short_write_leaves_a_tail(requested: u32, write: WriteOutcome)
    ensures
        leaves_tail(requested, write) <==> {
            &&& write.bytes != 0
            &&& write.bytes < requested
            &&& write.status != IoStatus::Failed
            &&& write.status != IoStatus::Lost
        },
{
}

/// The end of an input sequence forgets the accepted prefix, and what the device reported
/// where its queue had to be reset for that.
pub proof fn ended_sequence_forgets_the_prefix(port: SinkPort, queue_reset: bool)
    ensures
        ({
            let after = sequence_ended(port, queue_reset);
            &&& after.ext == (SinkPortExt { pending_buffer: None, pending_offset: 0, ..port.ext })
            &&& queue_reset ==> after.device_event is None && !after.device_eof
                && after.event_xruns_seen == 0 && after.wake_threshold == 0
            &&& !queue_reset ==> after == (Port { ext: after.ext, ..port })
            &&& after == (Port {
                device_event: after.device_event,
                device_eof: after.device_eof,
                event_xruns_seen: after.event_xruns_seen,
                wake_threshold: after.wake_threshold,
                ext: after.ext,
                ..port
            })
        }),
{
}

} // verus!
