//! The phases of a capture cycle: the bounded read, the servo error, and the
//! recovery from overruns.
use vstd::prelude::*;

use crate::arith::{imax, imin};
use crate::device::ReadOutcome;
use crate::port::{reset_device_event, Port};
use crate::sink::write::{clamped_servo_error, servo_error};
use crate::source::geometry::{SourcePort, SourcePortExt};

verus! {

/// Consecutive overrun cycles with the ring pinned full before a recovery: the
/// catch-up read gets a chance to drain a passing one first.
pub const PINNED_CYCLE_LIMIT: u32 = 3;

/// Fills `data[from..to]` with one byte.
pub fn fill_bytes(data: &mut [u8], from: usize, to: usize, byte: u8)
    requires
        from <= to <= old(data)@.len(),
    ensures
        final(data)@.len() == old(data)@.len(),
        forall|i: int|
            0 <= i < final(data)@.len() ==> #[trigger] final(data)@[i] == if from <= i < to {
                byte
            } else {
                old(data)@[i]
            },
{
    let mut at: usize = from;
    while at < to
        invariant
            from <= at <= to <= data@.len(),
            data@.len() == old(data)@.len(),
            forall|i: int|
                0 <= i < data@.len() ==> #[trigger] data@[i] == if from <= i < at {
                    byte
                } else {
                    old(data)@[i]
                },
        decreases to - at,
    {
        data[at] = byte;
        at = at + 1;
    }
}

/// `bytes` without the tail that is less than a frame.
pub open spec fn whole_frames(bytes: int, stride: int) -> int {
    bytes / stride * stride
}

/// The bytes without the tail that is less than a frame.
pub fn floor_to_frames(bytes: u32, stride: u32) -> (r: u32)
    requires
        stride > 0,
    ensures
        r == whole_frames(bytes as int, stride as int),
        r <= bytes,
{
    assert(bytes as int / stride as int * stride as int <= bytes) by (nonlinear_arith)
        requires
            stride > 0,
            bytes >= 0,
    ;
    bytes / stride * stride
}

/// What [`plan_read`] returns: one period and the backlog above the healthy peak,
/// no more than is queued or fits, in whole frames. Without a committed period,
/// everything that is queued.
pub open spec fn read_length(port: SourcePort, queued: u32, maxsize: u32, stride: u32) -> int {
    let want = if port.setup_period != 0 {
        port.setup_period + imax(0, queued - port.ext.read_peak)
    } else {
        queued as int
    };
    whole_frames(imin(imin(want, queued as int), maxsize as int), stride as int)
}

/// How much to read in this cycle. Draining everything would turn back pressure
/// into lasting latency, so a read takes one period and only the backlog above
/// the healthy peak; a torn frame is left for later.
pub fn plan_read(port: &SourcePort, queued: u32, maxsize: u32, stride: u32) -> (length: u32)
    requires
        stride > 0,
    ensures
        length == read_length(*port, queued, maxsize, stride),
        length <= queued,
        length <= maxsize,
{
    let want: u32 = if port.setup_period != 0 {
        port.setup_period.saturating_add(queued.saturating_sub(port.ext.read_peak))
    } else {
        queued
    };
    floor_to_frames(want.min(queued).min(maxsize), stride)
}

/// A read never exceeds what is queued or what fits, consists of whole frames, and
/// takes no more than a period while the fill is healthy. What is left behind
/// after a catch-up read is at most the healthy peak less a period, up to a frame.
pub proof fn reads_are_bounded(port: SourcePort, queued: u32, maxsize: u32, stride: u32)
    requires
        stride > 0,
    ensures
        ({
            let length = read_length(port, queued, maxsize, stride);
            &&& 0 <= length <= queued
            &&& length <= maxsize
            &&& length % stride as int == 0
            &&& port.setup_period != 0 && queued <= port.ext.read_peak ==> length
                <= port.setup_period
            &&& port.setup_period != 0 && port.ext.read_peak >= port.setup_period && queued
                > port.ext.read_peak && maxsize >= queued ==> queued - length
                < port.ext.read_peak - port.setup_period + stride
        }),
{
    let want = if port.setup_period != 0 {
        port.setup_period + imax(0, queued - port.ext.read_peak)
    } else {
        queued as int
    };
    let bytes = imin(imin(want, queued as int), maxsize as int);
    let s = stride as int;
    assert(0 <= bytes / s * s <= bytes && bytes - bytes / s * s < s) by (nonlinear_arith)
        requires
            bytes >= 0,
            s > 0,
    ;
    assert((bytes / s * s) % s == 0) by (nonlinear_arith)
        requires
            s > 0,
    ;
}

/// The length of the output after a read of `nread` bytes: at least a period, as
/// far as it fits.
pub open spec fn output_length(port: SourcePort, nread: int, maxsize: int) -> int {
    imax(nread, imin(port.setup_period as int, maxsize))
}

/// The port after a read.
pub open spec fn read_taken(port: SourcePort, read: ReadOutcome) -> SourcePort {
    Port { device_eof: port.device_eof || read.status is Lost, ..port }
}

/// Takes up a read: marks a lost device, and returns the length of the output.
pub fn take_read(port: &mut SourcePort, read: ReadOutcome, maxsize: u32) -> (length: u32)
    requires
        read.bytes <= maxsize,
    ensures
        *final(port) == read_taken(*old(port), read),
        length == output_length(*old(port), read.bytes as int, maxsize as int),
        read.bytes <= length <= maxsize,
{
    if read.status.device_lost() {
        port.device_eof = true;
    }
    (read.bytes as u32).max(port.setup_period.min(maxsize))
}

/// Takes up a read into `data` and pads it with silence to a whole period, so that
/// a late device does not shorten the graph's cycle. A lost device is marked.
/// Returns the length of the output.
pub fn finish_read(port: &mut SourcePort, read: ReadOutcome, data: &mut [u8]) -> (length: u32)
    requires
        read.bytes <= old(data)@.len() <= u32::MAX,
    ensures
        *final(port) == read_taken(*old(port), read),
        length == output_length(*old(port), read.bytes as int, old(data)@.len() as int),
        length <= old(data)@.len(),
        final(data)@.len() == old(data)@.len(),
        forall|i: int|
            0 <= i < final(data)@.len() ==> #[trigger] final(data)@[i] == if read.bytes <= i
                < length {
                old(port).silence()
            } else {
                old(data)@[i]
            },
{
    let length: u32 = take_read(port, read, data.len() as u32);
    fill_bytes(data, read.bytes, length as usize, port.silence_byte());
    length
}

/// The error past which the servo restarts: a period, or half an arrival and half
/// a period, whichever is larger.
pub open spec fn snap_bytes(setup_period: int, blocksize: int) -> int {
    imax(setup_period, blocksize / 2 + setup_period / 2)
}

/// The error that the servo is fed, in half bytes; `None` where it restarts
/// instead.
pub open spec fn follower_error(port: SourcePort, queued: u32, stride: u32) -> Option<i64> {
    let err = port.ext.target_fill - queued;
    if -snap_bytes(port.setup_period as int, port.setup_blocksize as int) <= err <= snap_bytes(
        port.setup_period as int,
        port.setup_blocksize as int,
    ) {
        Some(servo_error(err as int, port.setup_period as int, stride as int) as i64)
    } else {
        None
    }
}

/// The port after the follower's servo phase.
pub open spec fn followed(port: SourcePort, queued: u32, stride: u32) -> SourcePort {
    if !port.was_matching || follower_error(port, queued, stride) is None {
        Port { servo: port.servo.relocked(), ..port }
    } else {
        port
    }
}

/// The servo phase of a follower on a foreign clock. Its error is the inverse of
/// playback's, for a slow device queues less. An error beyond the healthy swing
/// restarts the servo; the bounded read removes the backlog.
pub fn follower_servo(port: &mut SourcePort, queued: u32, stride: u32) -> (err: Option<i64>)
    ensures
        err == follower_error(*old(port), queued, stride),
        *final(port) == followed(*old(port), queued, stride),
{
    if !port.was_matching {
        port.servo.relock();
    }
    let err: i64 = port.ext.target_fill as i64 - queued as i64;
    let swing: u64 = (port.setup_blocksize / 2) as u64 + (port.setup_period / 2) as u64;
    let snap: i64 = if port.setup_period as u64 >= swing {
        port.setup_period as i64
    } else {
        swing as i64
    };
    if err > snap || err < -snap {
        port.servo.relock();
        None
    } else {
        Some(clamped_servo_error(err, port.setup_period, stride))
    }
}

/// Whether the ring was pinned full before the read: the fill within one arrival
/// of its end. With a ring of unknown size every overrun counts; without a
/// measured fill the ring was just emptied.
pub open spec fn pinned(port: SourcePort, pre_read_fill: Option<u32>) -> bool {
    match pre_read_fill {
        Some(fill) => port.ext.ring_size == 0 || fill > imax(
            0,
            port.ext.ring_size - port.setup_blocksize,
        ),
        None => false,
    }
}

/// The count of pinned cycles after an overrun.
pub open spec fn pinned_after(port: SourcePort, pre_read_fill: Option<u32>) -> int {
    if pinned(port, pre_read_fill) {
        imin(port.ext.pinned_cycles + 1, u32::MAX as int)
    } else {
        0
    }
}

/// The port after an overrun, before the device was asked to stop.
pub open spec fn overrun_counted(
    port: SourcePort,
    pre_read_fill: Option<u32>,
    now: u64,
) -> SourcePort {
    let count = pinned_after(port, pre_read_fill);
    if count >= PINNED_CYCLE_LIMIT {
        Port {
            pending_xrun: Some(now / 1000),
            ext: SourcePortExt { pinned_cycles: 0, ..port.ext },
            ..port
        }
    } else {
        Port { ext: SourcePortExt { pinned_cycles: count as u32, ..port.ext }, ..port }
    }
}

/// Weighs an overrun. The kernel drops data upstream of the ring, so the counter
/// alone shows nothing wrong here; only a ring that stays pinned over consecutive
/// cycles is recovered. Returns whether the channel is to be stopped for that.
pub fn recover_overrun(port: &mut SourcePort, pre_read_fill: Option<u32>, now: u64) -> (recover:
    bool)
    ensures
        recover == (pinned_after(*old(port), pre_read_fill) >= PINNED_CYCLE_LIMIT),
        *final(port) == overrun_counted(*old(port), pre_read_fill, now),
{
    let pinned = match pre_read_fill {
        Some(fill) => port.ext.ring_size == 0 || fill > port.ext.ring_size.saturating_sub(
            port.setup_blocksize,
        ),
        None => false,
    };
    port.ext.pinned_cycles = if pinned {
        port.ext.pinned_cycles.saturating_add(1)
    } else {
        0
    };
    if port.ext.pinned_cycles >= PINNED_CYCLE_LIMIT {
        port.ext.pinned_cycles = 0;
        port.pending_xrun = Some(now / 1000);
        true
    } else {
        false
    }
}

/// The port after the device answered the stop of a recovery.
pub open spec fn overrun_recovered(port: SourcePort, stopped: bool) -> SourcePort {
    let port = if stopped {
        port.without_device_event()
    } else {
        port
    };
    Port {
        servo: port.servo.relocked(),
        ext: SourcePortExt { primed: false, ..port.ext },
        ..port
    }
}

/// Takes up the stop of a recovery: the next cycle primes again, with a new layout
/// where the channel really stopped.
pub fn finish_overrun_recovery(port: &mut SourcePort, stopped: bool)
    ensures
        *final(port) == overrun_recovered(*old(port), stopped),
{
    if stopped {
        reset_device_event(port);
    }
    port.ext.primed = false;
    port.servo.relock();
}

/// A recovery takes three pinned overruns in a row: from a fresh count the first
/// two only count, and a cycle whose ring can be drained starts the count over.
pub proof fn recovery_takes_consecutive_pinned_cycles(
    port: SourcePort,
    first: Option<u32>,
    second: Option<u32>,
    third: Option<u32>,
    now: u64,
)
    requires
        port.ext.pinned_cycles == 0,
    ensures
        ({
            let one = overrun_counted(port, first, now);
            let two = overrun_counted(one, second, now);
            &&& pinned_after(port, first) < PINNED_CYCLE_LIMIT
            &&& pinned_after(one, second) < PINNED_CYCLE_LIMIT
            &&& one.pending_xrun == port.pending_xrun && two.pending_xrun == port.pending_xrun
            &&& pinned_after(two, third) >= PINNED_CYCLE_LIMIT <==> pinned(port, first) && pinned(
                port,
                second,
            ) && pinned(port, third)
            &&& !pinned(port, second) ==> two.ext.pinned_cycles == 0
        }),
{
}

/// The wake-up threshold of a capture port: the fill target or a period, whichever
/// is larger, never zero.
pub fn wake_threshold(port: &SourcePort) -> (threshold: u32)
    ensures
        threshold == imax(imax(port.ext.target_fill as int, port.setup_period as int), 1),
{
    port.ext.target_fill.max(port.setup_period).max(1)
}

/// A read takes a period and the backlog above the healthy peak, as far as that is queued
/// and fits, without the tail of less than a frame; without a committed period, all that is
/// queued and fits.
pub proof fn read_takes_a_period_and_the_backlog(
    port: SourcePort,
    queued: u32,
    maxsize: u32,
    stride: u32,
)
    requires
        stride > 0,
    ensures
        ({
            let length = read_length(port, queued, maxsize, stride);
            let backlog = imax(0, queued - port.ext.read_peak);
            let wanted = if port.setup_period == 0 {
                queued as int
            } else {
                port.setup_period + backlog
            };
            let most = imin(wanted, imin(queued as int, maxsize as int));
            &&& length <= most < length + stride
            &&& length % (stride as int) == 0
        }),
{
    let want = if port.setup_period != 0 {
        port.setup_period + imax(0, queued - port.ext.read_peak)
    } else {
        queued as int
    };
    let bytes = imin(imin(want, queued as int), maxsize as int);
    let s = stride as int;
    assert(0 <= bytes / s * s <= bytes && bytes - bytes / s * s < s) by (nonlinear_arith)
        requires
            bytes >= 0,
            s > 0,
    ;
    assert((bytes / s * s) % s == 0) by (nonlinear_arith)
        requires
            s > 0,
    ;
}

/// The output is never shorter than what was read, nor than a period that fits, and never
/// longer than both; a device that is gone is marked, and nothing else of the port changes.
pub proof fn output_is_a_period_or_what_was_read(
    port: SourcePort,
    read: ReadOutcome,
    maxsize: u32,
)
    requires
        read.bytes <= maxsize,
    ensures
        ({
            let length = output_length(port, read.bytes as int, maxsize as int);
            let after = read_taken(port, read);
            &&& length >= read.bytes
            &&& port.setup_period <= maxsize ==> length >= port.setup_period
            &&& port.setup_period > maxsize ==> length == maxsize
            &&& length == read.bytes || (length == port.setup_period && length <= maxsize)
                || length == maxsize
            &&& port.setup_period <= read.bytes ==> length == read.bytes
            &&& read.bytes <= port.setup_period <= maxsize ==> length == port.setup_period
            &&& read.status == crate::device::IoStatus::Lost ==> after.device_eof
            &&& read.status != crate::device::IoStatus::Lost ==> after == port
            &&& after == (Port { device_eof: after.device_eof, ..port })
        }),
{
}

/// The servo of a capture follower is fed twice what is missing from the target, within its
/// bound. Beyond a period, and beyond half an arrival and half a period, it restarts
/// instead, as it does where matching just began.
pub proof fn capture_servo_sees_what_is_missing(port: SourcePort, queued: u32, stride: u32)
    ensures
        ({
            let missing = port.ext.target_fill - queued;
            let period = port.setup_period as int;
            let swing = imax(period, port.setup_blocksize as int / 2 + period / 2);
            let bound = imax(period, 512 * stride as int);
            let near = -swing <= missing <= swing;
            let after = followed(port, queued, stride);
            &&& near && -bound <= 2 * missing <= bound ==> follower_error(port, queued, stride)
                == Some((2 * missing) as i64)
            &&& near && 2 * missing > bound ==> follower_error(port, queued, stride) == Some(
                bound as i64,
            )
            &&& near && 2 * missing < -bound ==> follower_error(port, queued, stride) == Some(
                (-bound) as i64,
            )
            &&& !near ==> follower_error(port, queued, stride) is None
            &&& !near || !port.was_matching ==> after.servo.loop_cold && after.servo.bandwidth_cold
                && after.servo.geometry == port.servo.geometry
            &&& near && port.was_matching ==> after == port
            &&& after == (Port { servo: after.servo, ..port })
        }),
{
}

/// A ring is pinned where its fill leaves no room for one arrival, or where its size is not
/// known; a fill that was not measured shows nothing.
pub proof fn pinned_ring_has_no_room_for_an_arrival(port: SourcePort, fill: u32)
    ensures
        !pinned(port, None),
        port.ext.ring_size == 0 ==> pinned(port, Some(fill)),
        port.ext.ring_size >= port.setup_blocksize && port.ext.ring_size > 0 ==> (pinned(
            port,
            Some(fill),
        ) <==> fill + port.setup_blocksize > port.ext.ring_size),
        0 < port.ext.ring_size < port.setup_blocksize ==> (pinned(port, Some(fill)) <==> fill > 0),
{
}

/// Every overrun of a pinned ring counts, and the third in a row is reported and starts the
/// count over; one of a ring with room starts it over at once.
pub proof fn third_pinned_overrun_is_reported(
    port: SourcePort,
    pre_read_fill: Option<u32>,
    now: u64,
)
    ensures
        ({
            let after = overrun_counted(port, pre_read_fill, now);
            &&& pinned(port, pre_read_fill) && port.ext.pinned_cycles < 2 ==> {
                &&& pinned_after(port, pre_read_fill) < PINNED_CYCLE_LIMIT
                &&& after.ext.pinned_cycles == port.ext.pinned_cycles + 1
                &&& after.pending_xrun == port.pending_xrun
            }
            &&& pinned(port, pre_read_fill) && port.ext.pinned_cycles >= 2 ==> {
                &&& pinned_after(port, pre_read_fill) >= PINNED_CYCLE_LIMIT
                &&& after.ext.pinned_cycles == 0
                &&& after.pending_xrun == Some(now / 1000)
            }
            &&& !pinned(port, pre_read_fill) ==> {
                &&& pinned_after(port, pre_read_fill) < PINNED_CYCLE_LIMIT
                &&& after.ext.pinned_cycles == 0
                &&& after.pending_xrun == port.pending_xrun
            }
            &&& after == (Port {
                pending_xrun: after.pending_xrun,
                ext: SourcePortExt { pinned_cycles: after.ext.pinned_cycles, ..port.ext },
                ..port
            })
        }),
{
}

/// A recovery primes again with a restarted servo; a channel that stopped for it has
/// nothing left of its events.
pub proof fn recovered_capture_primes_again(port: SourcePort, stopped: bool)
    ensures
        ({
            let after = overrun_recovered(port, stopped);
            &&& !after.ext.primed
            &&& after.servo.loop_cold && after.servo.bandwidth_cold
            &&& after.servo.geometry == port.servo.geometry
            &&& stopped ==> after.device_event is None && !after.device_eof
                && after.event_xruns_seen == 0 && after.wake_threshold == 0
            &&& !stopped ==> after.device_event == port.device_event && after.device_eof
                == port.device_eof && after.event_xruns_seen == port.event_xruns_seen
                && after.wake_threshold == port.wake_threshold
            &&& after.pending_xrun == port.pending_xrun
            &&& after.setup_period == port.setup_period
            &&& after.ext == (SourcePortExt { primed: false, ..port.ext })
        }),
{
}

} // verus!
