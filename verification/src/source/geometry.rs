//! Capture buffer geometry: how large a ring to ask for, how full it runs, when a
//! read catches up, and how a live stream moves to another period.
use vstd::prelude::*;

use crate::arith::{
    floor_pow2, floor_pow2_is_the_largest, floor_power_of_two, imax, imin, sat32, saturating_mul,
};
use crate::port::{reset_device_event, Port, Servo, ServoGeometry};
use crate::sink::geometry::{
    buffer_capacity_limit, capacity_limit, DEFAULT_FRAGMENT_BYTES, MIN_RING_BYTES,
};

verus! {

/// Capture fields of a port.
#[derive(Debug, Clone, Copy, PartialEq, Eq)]
pub struct SourcePortExt {
    /// The ring was emptied and the geometry committed.
    pub primed: bool,
    /// The next buffer that was never handed out.
    pub active_buffers: u32,
    /// The fill that the servo aims for.
    pub target_fill: u32,
    /// The fill above which a read catches up.
    pub read_peak: u32,
    /// The granted ring in bytes, 0 when unknown.
    pub ring_size: u32,
    /// Consecutive overrun cycles with the ring pinned full.
    pub pinned_cycles: u32,
    /// Consecutive cycles at another period than the committed one.
    pub period_mismatch: u32,
    /// The graph was freewheeling in the previous cycle.
    pub was_freewheeling: bool,
}

impl Default for SourcePortExt {
    fn default() -> (ext: SourcePortExt)
        ensures
            ext == (SourcePortExt {
                primed: false,
                active_buffers: 0,
                target_fill: 0,
                read_peak: 0,
                ring_size: 0,
                pinned_cycles: 0,
                period_mismatch: 0,
                was_freewheeling: false,
            }),
    {
        SourcePortExt {
            primed: false,
            active_buffers: 0,
            target_fill: 0,
            read_peak: 0,
            ring_size: 0,
            pinned_cycles: 0,
            period_mismatch: 0,
            was_freewheeling: false,
        }
    }
}

pub type SourcePort = Port<SourcePortExt>;

/// The fill that capture aims for: a period and half an arrival.
pub open spec fn capture_target(period: int, blocksize: int) -> int {
    period + blocksize / 2
}

/// The healthy peak of a ring of unknown size: half an arrival and half a period
/// above the target.
pub open spec fn open_peak(period: int, blocksize: int) -> int {
    capture_target(period, blocksize) + blocksize / 2 + period / 2
}

/// The healthy peak of a ring of known size: at least one arrival above the
/// target, so that every arrival leaves a band to catch up in.
pub open spec fn healthy_peak(period: int, blocksize: int) -> int {
    imax(open_peak(period, blocksize), capture_target(period, blocksize) + blocksize)
}

/// The catch-up threshold. A known ring keeps one arrival of headroom above it, so
/// that a fill at the ceiling can still be drained.
pub open spec fn capture_peak(period: int, blocksize: int, ring: int) -> int {
    if ring > 0 {
        imin(healthy_peak(period, blocksize), imax(0, ring - blocksize))
    } else {
        open_peak(period, blocksize)
    }
}

/// The fill target and the catch-up threshold of a capture ring; `ring` is its
/// size, 0 when unknown.
pub fn fill_targets(period: u32, blocksize: u32, ring: u32) -> (r: (u32, u32))
    ensures
        r.0 == sat32(capture_target(period as int, blocksize as int)),
        r.1 == sat32(capture_peak(period as int, blocksize as int, ring as int)),
{
    let target: u32 = period.saturating_add(blocksize / 2);
    let open: u32 = target.saturating_add(blocksize / 2).saturating_add(period / 2);
    let peak: u32 = if ring > 0 {
        open.max(target.saturating_add(blocksize)).min(ring.saturating_sub(blocksize))
    } else {
        open
    };
    (target, peak)
}

/// The ring that a capture geometry needs: its healthy peak and one arrival.
pub open spec fn capture_required(period: int, blocksize: int) -> int {
    healthy_peak(period, blocksize) + blocksize
}

/// The ring that a capture geometry needs.
pub fn ring_required(period: u32, blocksize: u32) -> (required: u32)
    ensures
        required == sat32(capture_required(period as int, blocksize as int)),
{
    let target: u32 = period.saturating_add(blocksize / 2);
    let open: u32 = target.saturating_add(blocksize / 2).saturating_add(period / 2);
    open.max(target.saturating_add(blocksize)).saturating_add(blocksize)
}

/// An adequate ring keeps the healthy peak: one arrival above the target to catch
/// up in, and one arrival of headroom above the peak.
pub proof fn adequate_ring_keeps_its_catch_up_band(period: u32, blocksize: u32, ring: u32)
    requires
        ring > 0,
        ring >= capture_required(period as int, blocksize as int),
    ensures
        ({
            let target = capture_target(period as int, blocksize as int);
            let peak = capture_peak(period as int, blocksize as int, ring as int);
            &&& target + blocksize <= peak
            &&& peak + blocksize <= ring
            &&& peak == healthy_peak(period as int, blocksize as int)
        }),
{
}

/// Whatever ring was granted, the catch-up threshold lies inside it.
pub proof fn peak_is_drainable(period: u32, blocksize: u32, ring: u32)
    requires
        ring > 0,
    ensures
        capture_peak(period as int, blocksize as int, ring as int) <= imax(0, ring - blocksize),
{
}

/// The ring to ask a capture device for: four of the largest periods, at least the
/// smallest ring, at most the kernel's limit.
pub open spec fn capture_request(period: u32, max_period: u32, cap: u32) -> int {
    imin(imax(4 * imax(period as int, max_period as int), MIN_RING_BYTES as int), cap as int)
}

/// The ring to ask a capture device for.
pub fn ring_request(period: u32, max_period: u32, stride: u32, rate: u32) -> (request: u32)
    ensures
        request == capture_request(period, max_period, capacity_limit(stride, rate)),
{
    saturating_mul(period.max(max_period), 4).max(MIN_RING_BYTES).min(
        buffer_capacity_limit(stride, rate),
    )
}

/// The servo geometry that a port commits.
pub open spec fn committed_servo(port: SourcePort, period: u32, blocksize: u32) -> ServoGeometry {
    ServoGeometry {
        stride: port.stride(),
        blocksize,
        period,
        byte_rate: sat32(port.rate() * port.stride()),
    }
}

/// The port after its geometry is committed against the granted ring.
pub open spec fn committed(port: SourcePort, period: u32, blocksize: u32) -> SourcePort {
    Port {
        setup_period: period,
        setup_blocksize: blocksize,
        servo: Servo {
            loop_cold: true,
            bandwidth_cold: true,
            geometry: Some(committed_servo(port, period, blocksize)),
        },
        ext: SourcePortExt {
            target_fill: sat32(capture_target(period as int, blocksize as int)),
            read_peak: sat32(
                capture_peak(period as int, blocksize as int, port.ext.ring_size as int),
            ),
            ..port.ext
        },
        ..port
    }
}

/// Commits the fill targets of `period` against the granted ring and restarts the
/// servo.
pub fn commit_geometry(port: &mut SourcePort, period: u32, blocksize: u32)
    ensures
        *final(port) == committed(*old(port), period, blocksize),
{
    let (target, peak) = fill_targets(period, blocksize, port.ext.ring_size);
    port.setup_period = period;
    port.setup_blocksize = blocksize;
    port.ext.target_fill = target;
    port.ext.read_peak = peak;
    port.servo.relock();
    let (stride, rate) = match port.stride_rate() {
        Some((stride, rate)) => (stride, rate),
        None => (1, 0),
    };
    port.servo.geometry = Some(
        ServoGeometry { stride, blocksize, period, byte_rate: saturating_mul(rate, stride) },
    );
}

/// How a period change is to be carried out.
#[derive(Debug, Clone, Copy, PartialEq, Eq, Structural)]
pub enum RetunePlan {
    /// The geometry stays, or was recommitted without touching the device.
    Continue,
    /// The ring is too small: the channel has to stop for a new layout.
    Suspend,
}

/// The mismatch count after a cycle at `period`.
pub open spec fn mismatch_after(port: SourcePort, period: u32) -> u32 {
    if port.ext.primed && port.setup_period != 0 && period != 0 && period != port.setup_period {
        sat32(port.ext.period_mismatch + 1)
    } else {
        0
    }
}

/// The port with another mismatch count.
pub open spec fn with_mismatch(port: SourcePort, period_mismatch: u32) -> SourcePort {
    Port { ext: SourcePortExt { period_mismatch, ..port.ext }, ..port }
}

/// Whether the granted ring holds the geometry of `period`.
pub open spec fn ring_holds(port: SourcePort, period: u32) -> bool {
    port.ext.ring_size >= sat32(capture_required(period as int, port.setup_blocksize as int))
}

/// The port and the plan of [`plan_retune`].
pub open spec fn retune_planned(port: SourcePort, period: u32) -> (SourcePort, RetunePlan) {
    let mismatch = mismatch_after(port, period);
    if mismatch < 2 {
        (with_mismatch(port, mismatch), RetunePlan::Continue)
    } else if ring_holds(port, period) {
        (
            with_mismatch(committed(port, period, port.setup_blocksize), 0),
            RetunePlan::Continue,
        )
    } else {
        (with_mismatch(port, mismatch), RetunePlan::Suspend)
    }
}

/// Counts the cycles at another period. The second one in a row retunes: in place
/// while the ring holds the new geometry, else by stopping the channel.
pub fn plan_retune(port: &mut SourcePort, period: u32) -> (plan: RetunePlan)
    ensures
        (*final(port), plan) == retune_planned(*old(port), period),
{
    if !port.ext.primed || port.setup_period == 0 || period == 0 || period == port.setup_period {
        port.ext.period_mismatch = 0;
        return RetunePlan::Continue;
    }
    port.ext.period_mismatch = port.ext.period_mismatch.saturating_add(1);
    if port.ext.period_mismatch < 2 {
        return RetunePlan::Continue;
    }
    let blocksize: u32 = port.setup_blocksize;
    if port.ext.ring_size >= ring_required(period, blocksize) {
        commit_geometry(port, period, blocksize);
        port.ext.period_mismatch = 0;
        RetunePlan::Continue
    } else {
        RetunePlan::Suspend
    }
}

/// The port after the device answered the request to stop for a new layout.
pub open spec fn retune_stopped(port: SourcePort, accepted: bool) -> SourcePort {
    if accepted {
        Port {
            ext: SourcePortExt { period_mismatch: 0, primed: false, ..port.ext },
            ..port.without_device_event()
        }
    } else {
        port
    }
}

/// Takes up the device's answer to a stop request. A stopped channel is primed
/// again in the same cycle; after a refusal only a rebuild is left, and the kept
/// mismatch count makes the next cycle ask again at once. Returns whether the
/// device has to be rebuilt.
pub fn retune_suspended(port: &mut SourcePort, accepted: bool) -> (rebuild: bool)
    ensures
        *final(port) == retune_stopped(*old(port), accepted),
        rebuild == !accepted,
{
    if accepted {
        port.ext.period_mismatch = 0;
        port.ext.primed = false;
        reset_device_event(port);
    }
    !accepted
}

/// The port and the result of [`retune_period`].
pub open spec fn retune_result(port: SourcePort, period: u32, stop_accepted: bool) -> (
    SourcePort,
    bool,
) {
    let (planned, plan) = retune_planned(port, period);
    match plan {
        RetunePlan::Continue => (planned, false),
        RetunePlan::Suspend => (retune_stopped(planned, stop_accepted), !stop_accepted),
    }
}

/// The retune phase in one call, for a caller that knows in advance whether the
/// device accepts a stop. Returns whether the device has to be rebuilt.
pub fn retune_period(port: &mut SourcePort, period: u32, stop_accepted: bool) -> (rebuild: bool)
    ensures
        (*final(port), rebuild) == retune_result(*old(port), period, stop_accepted),
{
    match plan_retune(port, period) {
        RetunePlan::Continue => false,
        RetunePlan::Suspend => retune_suspended(port, stop_accepted),
    }
}

/// A rebuild is asked for only when a primed stream outgrew its ring for a second
/// cycle and the device refused to stop; the geometry is then left as it was, and
/// the next cycle at that period asks again.
pub proof fn refused_stop_keeps_the_geometry(port: SourcePort, period: u32, stop_accepted: bool)
    requires
        retune_result(port, period, stop_accepted).1,
    ensures
        ({
            let after = retune_result(port, period, stop_accepted).0;
            &&& !stop_accepted
            &&& port.ext.primed && after.ext.primed
            &&& after == with_mismatch(port, after.ext.period_mismatch)
            &&& after.ext.period_mismatch >= 2
            &&& retune_result(after, period, false).1
        }),
{
}

/// The largest capture fragment for a period: a power of two that does not exceed
/// the period, or 1024 bytes where the period is shorter.
pub open spec fn fragment_cap(period: u32) -> nat {
    floor_pow2(imax(period as int, 1024) as nat)
}

/// The fragment and the ring to ask a capture device for.
#[derive(Debug, Clone, Copy, PartialEq, Eq, Structural)]
pub struct CaptureLayout {
    pub fragment: u32,
    pub ring: u32,
}

/// What [`prime_layout`] returns.
pub open spec fn layout_of(
    period: u32,
    max_period: u32,
    fragment: u32,
    stride: u32,
    rate: u32,
) -> CaptureLayout {
    CaptureLayout {
        fragment: if fragment == 0 {
            DEFAULT_FRAGMENT_BYTES
        } else {
            imin(fragment as int, fragment_cap(period) as int) as u32
        },
        ring: capture_request(period, max_period, capacity_limit(stride, rate)) as u32,
    }
}

/// The layout to ask for when a stopped channel is primed. Readings move in steps
/// of the fragment, so a configured fragment is capped at the period.
pub fn prime_layout(period: u32, max_period: u32, fragment: u32, stride: u32, rate: u32) -> (layout:
    CaptureLayout)
    ensures
        layout == layout_of(period, max_period, fragment, stride, rate),
{
    let cap: u32 = floor_power_of_two(period.max(1024));
    proof {
        floor_pow2_is_the_largest(imax(period as int, 1024) as nat);
    }
    CaptureLayout {
        fragment: if fragment == 0 {
            DEFAULT_FRAGMENT_BYTES
        } else {
            fragment.min(cap)
        },
        ring: ring_request(period, max_period, stride, rate),
    }
}

/// A capture fragment never exceeds the period, unless the period is shorter than
/// 1024 bytes, and a fragment that is a power of two stays one.
pub proof fn fragment_fits_the_period(
    period: u32,
    max_period: u32,
    fragment: u32,
    stride: u32,
    rate: u32,
)
    ensures
        layout_of(period, max_period, fragment, stride, rate).fragment <= imax(
            period as int,
            1024,
        ),
        fragment == 0 || crate::arith::is_pow2(fragment as nat) ==> crate::arith::is_pow2(
            layout_of(period, max_period, fragment, stride, rate).fragment as nat,
        ),
{
    floor_pow2_is_the_largest(imax(period as int, 1024) as nat);
    vstd::arithmetic::power2::lemma2_to64();
    assert(DEFAULT_FRAGMENT_BYTES == vstd::arithmetic::power2::pow2(10));
}

/// The arrival quantum of a primed channel.
pub open spec fn prime_blocksize(fragment: u32, chunk: u32) -> u32 {
    if fragment >= chunk {
        fragment
    } else {
        chunk
    }
}

/// The port after it was primed with a ring of `ring` bytes.
pub open spec fn primed(
    port: SourcePort,
    period: u32,
    ring: u32,
    fragment: u32,
    chunk: u32,
) -> SourcePort {
    let granted = Port {
        ext: SourcePortExt { primed: true, ring_size: ring, ..port.ext },
        ..port
    };
    let committed = committed(granted, period, prime_blocksize(fragment, chunk));
    Port { ext: SourcePortExt { pinned_cycles: 0, ..committed.ext }, ..committed }
}

/// Commits the geometry for the ring that the device granted; data arrives in
/// lumps of its fragment or of the hardware's own transfer, whichever is coarser.
/// Returns whether the ring is too small for the geometry.
pub fn prime_capture(port: &mut SourcePort, period: u32, ring: u32, fragment: u32, chunk: u32) -> (too_small:
    bool)
    ensures
        *final(port) == primed(*old(port), period, ring, fragment, chunk),
        too_small == (ring > 0 && ring < sat32(
            capture_required(period as int, prime_blocksize(fragment, chunk) as int),
        )),
{
    port.ext.primed = true;
    port.ext.ring_size = ring;
    commit_geometry(port, period, fragment.max(chunk));
    port.ext.pinned_cycles = 0;
    ring > 0 && ring < ring_required(period, port.setup_blocksize)
}

/// A committed capture geometry aims for a period and half an arrival. A read catches up
/// above an arrival more, or half an arrival and half a period more, whichever is larger,
/// and in time to keep one arrival of the ring free; a ring of unknown size is taken at half
/// an arrival and half a period above the target.
pub proof fn capture_aims_for_a_period_and_half_an_arrival(
    port: SourcePort,
    period: u32,
    blocksize: u32,
)
    requires
        2 * period + 3 * blocksize <= u32::MAX,
    ensures
        ({
            let after = committed(port, period, blocksize);
            let target = period + blocksize as int / 2;
            let open = target + blocksize as int / 2 + period as int / 2;
            let ring = port.ext.ring_size as int;
            &&& after.setup_period == period
            &&& after.setup_blocksize == blocksize
            &&& after.ext.target_fill == target
            &&& ring == 0 ==> after.ext.read_peak == open
            &&& ring >= imax(open, target + blocksize) + blocksize && ring > 0
                ==> after.ext.read_peak == imax(open, target + blocksize)
            &&& 0 < ring < imax(open, target + blocksize) + blocksize ==> after.ext.read_peak
                == imax(0, ring - blocksize)
            &&& after.servo.loop_cold && after.servo.bandwidth_cold
            &&& after.servo.geometry matches Some(geometry) && geometry.period == period
                && geometry.blocksize == blocksize && geometry.stride == port.stride()
                && geometry.byte_rate == imin(port.rate() * port.stride(), u32::MAX as int)
            &&& after == (Port {
                setup_period: period,
                setup_blocksize: blocksize,
                servo: after.servo,
                ext: SourcePortExt {
                    target_fill: after.ext.target_fill,
                    read_peak: after.ext.read_peak,
                    ..port.ext
                },
                ..port
            })
        }),
{
    assert(port.rate() * port.stride() >= 0) by (nonlinear_arith)
        requires
            port.rate() >= 0,
            port.stride() >= 0,
    ;
}

/// A capture channel is asked for four of the larger period, at least 64 KiB and at most
/// what the kernel grants, in fragments of the configured size up to the period; without a
/// configured size, of 1024 bytes.
pub proof fn capture_layout_holds_four_periods(
    period: u32,
    max_period: u32,
    fragment: u32,
    stride: u32,
    rate: u32,
)
    ensures
        ({
            let layout = layout_of(period, max_period, fragment, stride, rate);
            let largest = imax(period as int, max_period as int);
            &&& 4 * largest <= 65536 ==> layout.ring == 65536
            &&& 65536 <= 4 * largest <= 131072 ==> layout.ring == 4 * largest
            &&& 131072 <= 4 * largest ==> layout.ring == 131072
            &&& fragment == 0 ==> layout.fragment == 1024
            &&& 0 < fragment <= 1024 ==> layout.fragment == fragment
            &&& fragment > 0 ==> layout.fragment <= fragment
            &&& 0 < fragment && 2 * fragment <= period ==> layout.fragment == fragment
            &&& crate::arith::is_pow2(fragment as nat) && fragment <= imax(period as int, 1024)
                ==> layout.fragment == fragment
            &&& fragment > imax(period as int, 1024) ==> layout.fragment <= imax(
                period as int,
                1024,
            ) < 2 * layout.fragment
        }),
{
    let most = imax(period as int, 1024) as nat;
    floor_pow2_is_the_largest(most);
    vstd::arithmetic::power2::lemma2_to64();
    crate::arith::floor_pow2_of_power(10);
    crate::arith::floor_pow2_grows(1024, most);
    if crate::arith::is_pow2(fragment as nat) && fragment <= most {
        let k = choose|k: nat| vstd::arithmetic::power2::pow2(k) == fragment;
        crate::arith::floor_pow2_of_power(k);
        crate::arith::floor_pow2_grows(fragment as nat, most);
    }
}

/// A primed channel has its ring and its geometry: the arrival is the fragment or the
/// hardware's own transfer, whichever is larger, and the count of pinned cycles starts over.
pub proof fn primed_capture_has_its_geometry(
    port: SourcePort,
    period: u32,
    ring: u32,
    fragment: u32,
    chunk: u32,
)
    requires
        2 * period + 3 * imax(fragment as int, chunk as int) <= u32::MAX,
    ensures
        ({
            let after = primed(port, period, ring, fragment, chunk);
            let block = imax(fragment as int, chunk as int);
            let target = period + block / 2;
            let peak = imax(target + block / 2 + period as int / 2, target + block);
            &&& after.ext.primed
            &&& after.ext.ring_size == ring
            &&& after.ext.pinned_cycles == 0
            &&& after.setup_period == period
            &&& after.setup_blocksize == block
            &&& after.ext.target_fill == target
            &&& ring >= peak + block && ring > 0 ==> after.ext.read_peak == peak
            &&& 0 < ring < peak + block ==> after.ext.read_peak == imax(0, ring - block)
            &&& ring == 0 ==> after.ext.read_peak == target + block / 2 + period as int / 2
            &&& after.servo.loop_cold && after.servo.bandwidth_cold
            &&& after.servo.geometry is Some
            &&& after.ext.active_buffers == port.ext.active_buffers
            &&& after.ext.was_freewheeling == port.ext.was_freewheeling
            &&& after.config == port.config && after.generation == port.generation
                && after.rebuild_pending == port.rebuild_pending && after.device_event
                == port.device_event && after.pending_xrun == port.pending_xrun
        }),
{
}

/// A change of the period takes two cycles of a primed stream in a row. The second commits
/// it in place where the ring holds an arrival above the healthy peak, and stops the channel
/// otherwise; a channel that refuses has to be rebuilt. Any other cycle starts the count
/// over.
pub proof fn capture_period_change_takes_two_cycles(
    port: SourcePort,
    period: u32,
    stop_accepted: bool,
)
    requires
        2 * period + 4 * port.setup_blocksize <= u32::MAX,
    ensures
        ({
            let (after, rebuild) = retune_result(port, period, stop_accepted);
            let block = port.setup_blocksize as int;
            let differs = port.ext.primed && port.setup_period != 0 && period != 0 && period
                != port.setup_period;
            let target = period + block / 2;
            let needed = imax(target + block / 2 + period as int / 2, target + block) + block;
            &&& !differs ==> !rebuild && after == (Port {
                ext: SourcePortExt { period_mismatch: 0, ..port.ext },
                ..port
            })
            &&& differs && port.ext.period_mismatch == 0 ==> !rebuild && after == (Port {
                ext: SourcePortExt { period_mismatch: 1, ..port.ext },
                ..port
            })
            &&& differs && port.ext.period_mismatch > 0 && port.ext.ring_size >= needed ==> {
                &&& !rebuild
                &&& after.ext.primed
                &&& after.ext.period_mismatch == 0
                &&& after.setup_period == period
                &&& after.setup_blocksize == block
                &&& after.ext.target_fill == target
                &&& after.ext.ring_size == port.ext.ring_size
                &&& after.servo.loop_cold && after.servo.bandwidth_cold
            }
            &&& differs && port.ext.period_mismatch > 0 && port.ext.ring_size < needed ==> {
                &&& rebuild == !stop_accepted
                &&& after.setup_period == port.setup_period
                &&& after.ext.target_fill == port.ext.target_fill
                &&& after.ext.read_peak == port.ext.read_peak
                &&& stop_accepted ==> !after.ext.primed && after.ext.period_mismatch == 0
                    && after.device_event is None && !after.device_eof && after.event_xruns_seen
                    == 0 && after.wake_threshold == 0
                &&& !stop_accepted ==> after.ext.primed && after.device_event
                    == port.device_event
            }
        }),
{
}

} // verus!
