//! Playback buffer geometry: how large a ring to ask for, how full to keep it,
//! and how a live stream moves to another period.
use vstd::prelude::*;

use crate::arith::{imax, imin, sat32, saturating_mul};
use crate::port::{reset_device_event, Port, ServoGeometry};

verus! {

/// The smallest ring that is ever requested, in bytes.
pub const MIN_RING_BYTES: u32 = 65536;

/// The fragment size assumed while the device picks one itself.
pub const DEFAULT_FRAGMENT_BYTES: u32 = 1024;

/// The largest soft ring that the kernel grants, in bytes.
pub const KERNEL_RING_CAP: u32 = 131072;

/// Playback fields of a port.
#[derive(Debug, Clone, Copy, PartialEq, Eq)]
pub struct SinkPortExt {
    /// The driver time at which an underrun was noticed, 0 when none is pending.
    pub xrun_timestamp: u64,
    /// The live fill target in bytes.
    pub target_delay: u32,
    /// The fill target that the geometry aims for.
    pub target_goal: u32,
    /// The granted ring in bytes.
    pub buffer_size: u32,
    /// Consecutive cycles at another period than the committed one.
    pub period_mismatch: u32,
    /// The next buffer is the first one after a pause.
    pub resuming: bool,
    /// The device could neither keep nor drop its queue over a pause.
    pub rebuild_after_start: bool,
    /// The host buffer whose prefix the device has accepted.
    pub pending_buffer: Option<u32>,
    /// The length of that prefix.
    pub pending_offset: u32,
}

impl Default for SinkPortExt {
    fn default() -> (ext: SinkPortExt)
        ensures
            ext == (SinkPortExt {
                xrun_timestamp: 0,
                target_delay: 0,
                target_goal: 0,
                buffer_size: 0,
                period_mismatch: 0,
                resuming: false,
                rebuild_after_start: false,
                pending_buffer: None,
                pending_offset: 0,
            }),
    {
        SinkPortExt {
            xrun_timestamp: 0,
            target_delay: 0,
            target_goal: 0,
            buffer_size: 0,
            period_mismatch: 0,
            resuming: false,
            rebuild_after_start: false,
            pending_buffer: None,
            pending_offset: 0,
        }
    }
}

pub type SinkPort = Port<SinkPortExt>;

/// What [`predicted_next_fill`] returns.
pub open spec fn next_fill(fill: u32, write_now: u32, period: u32) -> int {
    imax(0, imin(fill + write_now, u32::MAX as int) - period)
}

/// What the queue holds at the next wake-up: the present fill and this cycle's
/// write, less the period that drains in between.
pub fn predicted_next_fill(fill: u32, write_now: u32, period: u32) -> (next: u32)
    ensures
        next == next_fill(fill, write_now, period),
{
    fill.saturating_add(write_now).saturating_sub(period)
}

/// The live target right after a retune: the goal, but no more than what the
/// queue will hold at the next wake-up.
pub fn retune_seed(target_goal: u32, fill: u32, write_now: u32, period: u32) -> (seed: u32)
    ensures
        seed == imin(target_goal as int, next_fill(fill, write_now, period)),
{
    target_goal.min(predicted_next_fill(fill, write_now, period))
}

/// The fill that a delay setting of `eighths` asks for, before saturation.
pub open spec fn delay_bytes(period: int, eighths: int) -> int {
    (period / 8) * eighths
}

/// The fill that a delay setting asks for: an eighth of a period per step.
pub fn desired_delay(period: u32, playback_delay_eighths: u32) -> (delay: u32)
    ensures
        delay == sat32(delay_bytes(period as int, playback_delay_eighths as int)),
{
    saturating_mul(period / 8, playback_delay_eighths)
}

/// The largest write that a resampler with a block of `size` frames makes.
pub open spec fn resampler_bytes(size: Option<u32>, stride: u32) -> u32 {
    match size {
        Some(size) => sat32(size * stride),
        None => 0,
    }
}

/// The bytes of one resampler block, 0 where the port has no resampler.
pub fn rate_match_bytes(rate_match_size: Option<u32>, stride: u32) -> (bytes: u32)
    ensures
        bytes == resampler_bytes(rate_match_size, stride),
{
    match rate_match_size {
        Some(size) => saturating_mul(size, stride),
        None => 0,
    }
}

/// The lowest safe fill target: one period and a jitter margin, which is a
/// quarter period or one transfer, whichever is larger.
pub open spec fn floor_bytes(period: int, blocksize: int) -> int {
    period + imax(period / 4, blocksize)
}

/// The lowest safe fill target of a geometry.
pub fn fill_floor(period: u32, blocksize: u32) -> (floor: u32)
    ensures
        floor == sat32(floor_bytes(period as int, blocksize as int)),
{
    period.saturating_add((period / 4).max(blocksize))
}

/// The ring that a period needs: room for two periods above the desired delay,
/// and for the largest write and one transfer above the lowest safe target.
pub open spec fn required_bytes(period: int, desired: int, blocksize: int, write_max: int) -> int {
    imax(2 * period + desired, floor_bytes(period, blocksize) + write_max + blocksize)
}

/// The ring that a period needs.
pub fn buffer_required(period: u32, desired: u32, blocksize: u32, write_max: u32) -> (required: u32)
    ensures
        required == sat32(
            required_bytes(period as int, desired as int, blocksize as int, write_max as int),
        ),
{
    saturating_mul(period, 2).saturating_add(desired).max(
        fill_floor(period, blocksize).saturating_add(write_max).saturating_add(blocksize),
    )
}

/// The largest ring that a device of this frame size and rate is granted: the
/// kernel's limit, which is the same for every format.
pub open spec fn capacity_limit(stride: u32, rate: u32) -> u32 {
    KERNEL_RING_CAP
}

/// The largest ring that a device of this frame size and rate is granted.
pub fn buffer_capacity_limit(_stride: u32, _rate: u32) -> (limit: u32)
    ensures
        limit == capacity_limit(_stride, _rate),
{
    KERNEL_RING_CAP
}

/// The transfer that a ring request reckons with.
pub open spec fn transfer_bytes(fragment: u32, chunk: u32) -> u32 {
    let fragment = if fragment == 0 {
        DEFAULT_FRAGMENT_BYTES
    } else {
        fragment
    };
    if fragment >= chunk {
        fragment
    } else {
        chunk
    }
}

/// What [`buffer_request`] returns: what `period` needs, but no less than what
/// the largest negotiable period needs, and no less than the smallest ring;
/// the kernel's limit wins over all of them.
pub open spec fn request_bytes(
    period: u32,
    max_period: u32,
    fragment: u32,
    chunk: u32,
    write_max: u32,
    eighths: u32,
    cap: u32,
) -> int {
    let transfer = transfer_bytes(fragment, chunk) as int;
    let own = required_bytes(
        period as int,
        sat32(delay_bytes(period as int, eighths as int)) as int,
        transfer,
        write_max as int,
    );
    let stable = required_bytes(
        max_period as int,
        sat32(delay_bytes(max_period as int, eighths as int)) as int,
        transfer,
        max_period as int,
    );
    imin(imax(imax(own, stable), MIN_RING_BYTES as int), cap as int)
}

/// The ring to ask the device for. Capacity is not latency: a ring that holds
/// every negotiable period lets the period change without resizing the device.
pub fn buffer_request(
    period: u32,
    max_period: u32,
    stride: u32,
    rate: u32,
    fragment: u32,
    chunk: u32,
    write_max: u32,
    playback_delay_eighths: u32,
) -> (request: u32)
    ensures
        request == request_bytes(
            period,
            max_period,
            fragment,
            chunk,
            write_max,
            playback_delay_eighths,
            capacity_limit(stride, rate),
        ),
{
    let frag_est: u32 = if fragment == 0 {
        DEFAULT_FRAGMENT_BYTES
    } else {
        fragment
    };
    let transfer: u32 = frag_est.max(chunk);
    let stable: u32 = buffer_required(
        max_period,
        desired_delay(max_period, playback_delay_eighths),
        transfer,
        max_period,
    );
    buffer_required(period, desired_delay(period, playback_delay_eighths), transfer, write_max).max(
        stable,
    ).max(MIN_RING_BYTES).min(buffer_capacity_limit(stride, rate))
}

/// The highest fill target that leaves room above it for the largest write and
/// one transfer, but never less than a period.
pub open spec fn ceiling_bytes(granted: int, period: int, blocksize: int, write_max: int) -> int {
    imax(granted - write_max - blocksize, period)
}

/// What [`target_delay`] returns: the target and whether the ring capped it.
pub open spec fn target_of(
    granted: int,
    period: int,
    blocksize: int,
    write_max: int,
    desired: int,
) -> (int, bool) {
    if granted >= imin(2 * period, u32::MAX as int) {
        let want = imin(imax(desired, floor_bytes(period, blocksize)), u32::MAX as int);
        let ceiling = ceiling_bytes(granted, period, blocksize, write_max);
        (imin(want, ceiling), want > ceiling)
    } else {
        (granted / 2, false)
    }
}

/// The fill target for a granted ring, and whether the ring is too small for
/// the fill that was asked for. A ring under two periods gets half its size.
pub fn target_delay(
    granted: u32,
    period: u32,
    blocksize: u32,
    write_max: u32,
    desired: u32,
) -> (r: (u32, bool))
    ensures
        (r.0 as int, r.1) == target_of(
            granted as int,
            period as int,
            blocksize as int,
            write_max as int,
            desired as int,
        ),
{
    if granted >= saturating_mul(period, 2) {
        let floor: u32 = fill_floor(period, blocksize);
        let ceil: u32 = granted.saturating_sub(write_max.saturating_add(blocksize)).max(period);
        let want: u32 = desired.max(floor);
        (want.min(ceil).max(period), want > ceil)
    } else {
        (granted / 2, false)
    }
}

/// A ring that is large enough to retune in place never starves the wake-up fill and never
/// drops a write: the target lies at or above the floor, and the largest write
/// and one transfer still fit above it.
pub proof fn adequate_ring_neither_starves_nor_drops(
    granted: u32,
    period: u32,
    blocksize: u32,
    write_max: u32,
    desired: u32,
)
    requires
        granted >= required_bytes(
            period as int,
            desired as int,
            blocksize as int,
            write_max as int,
        ),
    ensures
        ({
            let target = target_of(
                granted as int,
                period as int,
                blocksize as int,
                write_max as int,
                desired as int,
            ).0;
            &&& target >= floor_bytes(period as int, blocksize as int)
            &&& target + write_max + blocksize <= granted
        }),
{
}

/// A target that the ring did not cap is the larger of the desired delay and the
/// floor; a capped one is the highest that the ring allows.
pub proof fn uncapped_target_is_what_was_asked_for(
    granted: u32,
    period: u32,
    blocksize: u32,
    write_max: u32,
    desired: u32,
)
    requires
        granted >= 2 * period,
        floor_bytes(period as int, blocksize as int) <= u32::MAX,
    ensures
        ({
            let (target, capped) = target_of(
                granted as int,
                period as int,
                blocksize as int,
                write_max as int,
                desired as int,
            );
            &&& !capped ==> target == imax(
                desired as int,
                floor_bytes(period as int, blocksize as int),
            )
            &&& capped ==> target == ceiling_bytes(
                granted as int,
                period as int,
                blocksize as int,
                write_max as int,
            )
            &&& target >= period
        }),
{
}

/// A request never exceeds the kernel's limit, and unless that limit binds it
/// covers the present period and the largest negotiable one.
pub proof fn request_covers_every_period_up_to_the_cap(
    period: u32,
    max_period: u32,
    fragment: u32,
    chunk: u32,
    write_max: u32,
    eighths: u32,
    cap: u32,
)
    ensures
        ({
            let request = request_bytes(
                period,
                max_period,
                fragment,
                chunk,
                write_max,
                eighths,
                cap,
            );
            let transfer = transfer_bytes(fragment, chunk) as int;
            let desired = sat32(delay_bytes(period as int, eighths as int)) as int;
            let desired_max = sat32(delay_bytes(max_period as int, eighths as int)) as int;
            &&& imin(MIN_RING_BYTES as int, cap as int) <= request <= cap
            &&& request < cap ==> {
                &&& request >= required_bytes(period as int, desired, transfer, write_max as int)
                &&& request >= required_bytes(
                    max_period as int,
                    desired_max,
                    transfer,
                    max_period as int,
                )
            }
        }),
{
}

/// The seed of a retune never lies above the goal, nor above what the queue will
/// hold when the next cycle measures it.
pub proof fn seed_is_reachable(target_goal: u32, fill: u32, write_now: u32, period: u32)
    ensures
        imin(target_goal as int, next_fill(fill, write_now, period)) <= target_goal,
        fill + write_now <= u32::MAX && fill + write_now >= period ==> imin(
            target_goal as int,
            next_fill(fill, write_now, period),
        ) <= fill + write_now - period,
{
}

/// The servo geometry that a port commits.
pub open spec fn committed_servo(port: SinkPort, period: u32, blocksize: u32) -> ServoGeometry {
    ServoGeometry {
        stride: port.stride(),
        blocksize,
        period,
        byte_rate: sat32(port.rate() * port.stride()),
    }
}

/// The port after its geometry is committed for a ring of `granted` bytes. A
/// period of zero commits nothing.
pub open spec fn committed(
    port: SinkPort,
    granted: u32,
    period: u32,
    blocksize: u32,
    write_max: u32,
    desired: u32,
) -> SinkPort {
    if period == 0 {
        port
    } else {
        let target = target_of(
            granted as int,
            period as int,
            blocksize as int,
            write_max as int,
            desired as int,
        ).0 as u32;
        Port {
            setup_period: period,
            setup_blocksize: blocksize,
            servo: crate::port::Servo {
                loop_cold: true,
                bandwidth_cold: true,
                geometry: Some(committed_servo(port, period, blocksize)),
            },
            ext: SinkPortExt { target_delay: target, target_goal: target, ..port.ext },
            ..port
        }
    }
}

/// Commits the fill target for a ring of `granted` bytes at `period` and restarts
/// the servo. Returns whether the ring capped the target.
pub fn commit_geometry(
    port: &mut SinkPort,
    granted: u32,
    period: u32,
    blocksize: u32,
    write_max: u32,
    desired: u32,
) -> (delay_capped: bool)
    ensures
        *final(port) == committed(*old(port), granted, period, blocksize, write_max, desired),
        delay_capped == (period != 0 && target_of(
            granted as int,
            period as int,
            blocksize as int,
            write_max as int,
            desired as int,
        ).1),
{
    if period == 0 {
        return false;
    }
    let (target, delay_capped) = target_delay(granted, period, blocksize, write_max, desired);
    port.setup_period = period;
    port.setup_blocksize = blocksize;
    port.ext.target_delay = target;
    port.ext.target_goal = target;
    port.servo.relock();
    let (stride, rate) = match port.stride_rate() {
        Some((stride, rate)) => (stride, rate),
        None => (1, 0),
    };
    port.servo.geometry = Some(
        ServoGeometry { stride, blocksize, period, byte_rate: saturating_mul(rate, stride) },
    );
    delay_capped
}

/// What a period change comes to.
#[derive(Debug, Clone, Copy, PartialEq, Eq, Structural)]
pub enum RetuneOutcome {
    /// The current period remains in effect.
    Unchanged,
    /// The geometry changed, live or by a trigger stop that re-primes.
    Retuned,
    /// The ring cannot hold the period and the device refused to stop.
    Rebuild,
}

/// How a period change is to be carried out.
#[derive(Debug, Clone, Copy, PartialEq, Eq, Structural)]
pub enum RetunePlan {
    /// Nothing changes in this cycle.
    Keep,
    /// The granted ring holds the new geometry.
    InPlace,
    /// The ring is too small: the channel has to stop for a new layout.
    Suspend,
}

/// What a cycle asks of the ring.
#[derive(Debug, Clone, Copy, PartialEq, Eq)]
pub struct PeriodRequest {
    /// Device bytes per graph cycle; 0 while the graph has no position.
    pub period: u32,
    pub stride: u32,
    /// The delay setting, in eighths of a period.
    pub delay_eighths: u32,
    /// The resampler's block in frames, where the port has one.
    pub rate_match_size: Option<u32>,
}

impl PeriodRequest {
    /// The fill that the delay setting asks for.
    pub open spec fn desired(self) -> u32 {
        sat32(delay_bytes(self.period as int, self.delay_eighths as int))
    }

    /// The largest single write of a cycle.
    pub open spec fn write_max(self) -> u32 {
        let resampler = resampler_bytes(self.rate_match_size, self.stride);
        if self.period >= resampler {
            self.period
        } else {
            resampler
        }
    }

    fn desired_now(&self) -> (desired: u32)
        ensures
            desired == self.desired(),
    {
        desired_delay(self.period, self.delay_eighths)
    }

    fn write_max_now(&self) -> (write_max: u32)
        ensures
            write_max == self.write_max(),
    {
        self.period.max(rate_match_bytes(self.rate_match_size, self.stride))
    }
}

/// Whether a running channel is at another period than the graph.
pub open spec fn period_differs(port: SinkPort, running: bool, period: u32) -> bool {
    running && port.setup_period != 0 && period != 0 && period != port.setup_period
}

/// The mismatch count after a cycle at `period`.
pub open spec fn mismatch_after(port: SinkPort, running: bool, period: u32) -> u32 {
    if period_differs(port, running, period) {
        sat32(port.ext.period_mismatch + 1)
    } else {
        0
    }
}

/// How a cycle at `request.period` treats the geometry: a period that differs for
/// a second consecutive cycle is taken up.
pub open spec fn retune_plan(port: SinkPort, running: bool, request: PeriodRequest) -> RetunePlan {
    if mismatch_after(port, running, request.period) < 2 {
        RetunePlan::Keep
    } else if port.ext.buffer_size >= sat32(
        required_bytes(
            request.period as int,
            request.desired() as int,
            port.setup_blocksize as int,
            request.write_max() as int,
        ),
    ) {
        RetunePlan::InPlace
    } else {
        RetunePlan::Suspend
    }
}

/// Counts the cycles at another period and decides what to do about it. One
/// cycle at another period is usually a renegotiation in flight, so only the
/// second one acts.
pub fn plan_retune(port: &mut SinkPort, running: bool, request: PeriodRequest) -> (plan: RetunePlan)
    ensures
        plan == retune_plan(*old(port), running, request),
        *final(port) == (Port {
            ext: SinkPortExt {
                period_mismatch: mismatch_after(*old(port), running, request.period),
                ..old(port).ext
            },
            ..*old(port)
        }),
{
    if !running || port.setup_period == 0 || request.period == 0 || request.period
        == port.setup_period {
        port.ext.period_mismatch = 0;
        return RetunePlan::Keep;
    }
    port.ext.period_mismatch = port.ext.period_mismatch.saturating_add(1);
    if port.ext.period_mismatch < 2 {
        return RetunePlan::Keep;
    }
    let required: u32 = buffer_required(
        request.period,
        request.desired_now(),
        port.setup_blocksize,
        request.write_max_now(),
    );
    if port.ext.buffer_size >= required {
        RetunePlan::InPlace
    } else {
        RetunePlan::Suspend
    }
}

/// The port after a live retune: the new geometry with the target seeded from
/// the measured fill instead of its goal.
pub open spec fn retuned_in_place(
    port: SinkPort,
    request: PeriodRequest,
    write_now: u32,
    fill: u32,
) -> SinkPort {
    let committed = committed(
        port,
        port.ext.buffer_size,
        request.period,
        port.setup_blocksize,
        request.write_max(),
        request.desired(),
    );
    Port {
        ext: SinkPortExt {
            target_delay: imin(
                committed.ext.target_goal as int,
                next_fill(fill, write_now, request.period),
            ) as u32,
            period_mismatch: 0,
            ..committed.ext
        },
        ..committed
    }
}

/// Moves a live stream to a period that its ring already holds. `fill` is the
/// queue before this cycle's write of `write_now` bytes. Nothing is written: the
/// target starts at what the queue will hold, and settles toward the goal as
/// real audio accumulates. Returns whether the ring capped the goal.
pub fn retune_in_place(
    port: &mut SinkPort,
    request: PeriodRequest,
    write_now: u32,
    fill: u32,
) -> (delay_capped: bool)
    requires
        request.period != 0,
    ensures
        *final(port) == retuned_in_place(*old(port), request, write_now, fill),
        delay_capped == target_of(
            old(port).ext.buffer_size as int,
            request.period as int,
            old(port).setup_blocksize as int,
            request.write_max() as int,
            request.desired() as int,
        ).1,
{
    let granted: u32 = port.ext.buffer_size;
    let blocksize: u32 = port.setup_blocksize;
    let delay_capped = commit_geometry(
        port,
        granted,
        request.period,
        blocksize,
        request.write_max_now(),
        request.desired_now(),
    );
    port.ext.target_delay = retune_seed(port.ext.target_goal, fill, write_now, request.period);
    port.ext.period_mismatch = 0;
    delay_capped
}

/// The port after the device answered the request to stop for a new layout.
pub open spec fn retune_stopped(port: SinkPort, accepted: bool) -> SinkPort {
    if accepted {
        Port {
            was_matching: false,
            ext: SinkPortExt { period_mismatch: 0, xrun_timestamp: 0, ..port.ext },
            ..port.without_device_event()
        }
    } else {
        port
    }
}

/// Takes up the device's answer to a stop request. A stopped channel is primed
/// again in the same cycle, so no recovery hold may defer it; a refusal keeps the
/// mismatch count, so that the next cycle asks again at once.
pub fn retune_suspended(port: &mut SinkPort, accepted: bool) -> (outcome: RetuneOutcome)
    ensures
        *final(port) == retune_stopped(*old(port), accepted),
        outcome == if accepted {
            RetuneOutcome::Retuned
        } else {
            RetuneOutcome::Rebuild
        },
{
    if accepted {
        port.ext.period_mismatch = 0;
        port.ext.xrun_timestamp = 0;
        port.was_matching = false;
        reset_device_event(port);
        RetuneOutcome::Retuned
    } else {
        RetuneOutcome::Rebuild
    }
}

/// The port and the outcome of [`retune_period`].
pub open spec fn retune_result(
    port: SinkPort,
    running: bool,
    request: PeriodRequest,
    write_now: u32,
    fill: u32,
    stop_accepted: bool,
) -> (SinkPort, RetuneOutcome) {
    let counted = Port {
        ext: SinkPortExt {
            period_mismatch: mismatch_after(port, running, request.period),
            ..port.ext
        },
        ..port
    };
    match retune_plan(port, running, request) {
        RetunePlan::Keep => (counted, RetuneOutcome::Unchanged),
        RetunePlan::InPlace => (
            retuned_in_place(counted, request, write_now, fill),
            RetuneOutcome::Retuned,
        ),
        RetunePlan::Suspend => (
            retune_stopped(counted, stop_accepted),
            if stop_accepted {
                RetuneOutcome::Retuned
            } else {
                RetuneOutcome::Rebuild
            },
        ),
    }
}

/// The retune phase in one call, for a caller that knows in advance what the
/// device would answer: its fill, and whether it accepts a stop.
pub fn retune_period(
    port: &mut SinkPort,
    running: bool,
    request: PeriodRequest,
    write_now: u32,
    fill: u32,
    stop_accepted: bool,
) -> (outcome: RetuneOutcome)
    ensures
        (*final(port), outcome) == retune_result(
            *old(port),
            running,
            request,
            write_now,
            fill,
            stop_accepted,
        ),
{
    match plan_retune(port, running, request) {
        RetunePlan::Keep => RetuneOutcome::Unchanged,
        RetunePlan::InPlace => {
            retune_in_place(port, request, write_now, fill);
            RetuneOutcome::Retuned
        },
        RetunePlan::Suspend => retune_suspended(port, stop_accepted),
    }
}

/// The ring to ask the device for when the channel is primed; `None` while there
/// is no format or no period, when nothing is primed.
pub open spec fn prime_request_of(
    port: SinkPort,
    request: PeriodRequest,
    max_period: u32,
    fragment: u32,
    chunk: u32,
) -> Option<u32> {
    if port.config is None || request.period == 0 {
        None
    } else {
        Some(
            request_bytes(
                request.period,
                max_period,
                fragment,
                chunk,
                request.write_max(),
                request.delay_eighths,
                capacity_limit(port.stride(), port.rate()),
            ) as u32,
        )
    }
}

/// The ring request of the prime phase. `max_period` is the largest negotiable
/// period in bytes, `fragment` the configured fragment size (0 leaves it to the
/// device) and `chunk` the hardware's own transfer size.
pub fn prime_request(
    port: &SinkPort,
    request: PeriodRequest,
    max_period: u32,
    fragment: u32,
    chunk: u32,
) -> (ring: Option<u32>)
    ensures
        ring == prime_request_of(*port, request, max_period, fragment, chunk),
{
    let (stride, rate) = match port.stride_rate() {
        Some((stride, rate)) => (stride, rate),
        None => return None,
    };
    if request.period == 0 {
        return None;
    }
    Some(
        buffer_request(
            request.period,
            max_period,
            stride,
            rate,
            fragment,
            chunk,
            request.write_max_now(),
            request.delay_eighths,
        ),
    )
}

/// What the prime phase found out about the grant.
#[derive(Debug, Clone, Copy, PartialEq, Eq)]
pub struct PrimeReport {
    /// The silence to write before the first buffer, in bytes.
    pub silence: u32,
    /// The ring is too small for the configured delay.
    pub delay_capped: bool,
    /// The ring is smaller than two periods: playback will glitch.
    pub under_two_periods: bool,
}

/// The transfer quantum of a primed channel.
pub open spec fn prime_blocksize(device_blocksize: u32, chunk: u32) -> u32 {
    if device_blocksize >= chunk {
        device_blocksize
    } else {
        chunk
    }
}

/// The port after it was primed with a ring of `granted` bytes.
pub open spec fn primed(
    port: SinkPort,
    request: PeriodRequest,
    granted: u32,
    device_blocksize: u32,
    chunk: u32,
) -> SinkPort {
    let committed = committed(
        port,
        granted,
        request.period,
        prime_blocksize(device_blocksize, chunk),
        request.write_max(),
        request.desired(),
    );
    Port { ext: SinkPortExt { buffer_size: granted, ..committed.ext }, ..committed }
}

/// Commits the geometry for the ring that the device granted. The transfer
/// quantum is the device's fragment or the hardware's own, whichever is coarser.
pub fn prime_playback(
    port: &mut SinkPort,
    request: PeriodRequest,
    granted: u32,
    device_blocksize: u32,
    chunk: u32,
) -> (report: PrimeReport)
    requires
        request.period != 0,
    ensures
        *final(port) == primed(*old(port), request, granted, device_blocksize, chunk),
        report.silence == final(port).ext.target_delay,
        report.delay_capped == target_of(
            granted as int,
            request.period as int,
            prime_blocksize(device_blocksize, chunk) as int,
            request.write_max() as int,
            request.desired() as int,
        ).1,
        report.under_two_periods == (granted < sat32(2 * request.period)),
{
    let blocksize: u32 = device_blocksize.max(chunk);
    let delay_capped = commit_geometry(
        port,
        granted,
        request.period,
        blocksize,
        request.write_max_now(),
        request.desired_now(),
    );
    port.ext.buffer_size = granted;
    PrimeReport {
        silence: port.ext.target_delay,
        delay_capped,
        under_two_periods: granted < saturating_mul(request.period, 2),
    }
}

/// No retune ever leaves a stream without a period: a committed period stays
/// committed, and a period of zero is never taken up.
pub proof fn zero_period_is_never_taken_up(
    port: SinkPort,
    running: bool,
    request: PeriodRequest,
    write_now: u32,
    fill: u32,
    stop_accepted: bool,
)
    requires
        port.setup_period != 0,
    ensures
        retune_result(port, running, request, write_now, fill, stop_accepted).0.setup_period != 0,
        request.period == 0 ==> retune_result(
            port,
            running,
            request,
            write_now,
            fill,
            stop_accepted,
        ).0.setup_period == port.setup_period,
{
}

/// A single cycle at another period changes neither the geometry nor the target.
pub proof fn one_flip_is_debounced(
    port: SinkPort,
    running: bool,
    request: PeriodRequest,
    write_now: u32,
    fill: u32,
    stop_accepted: bool,
)
    requires
        port.ext.period_mismatch == 0,
    ensures
        ({
            let (after, outcome) = retune_result(
                port,
                running,
                request,
                write_now,
                fill,
                stop_accepted,
            );
            &&& outcome == RetuneOutcome::Unchanged
            &&& after == (Port {
                ext: SinkPortExt { period_mismatch: after.ext.period_mismatch, ..port.ext },
                ..port
            })
        }),
{
}

/// The fill of a primed ring is what the delay setting asks for, an eighth of a period per
/// step, but at least a period and its jitter margin: a quarter period or one transfer. A
/// ring without room for that above its largest write and one transfer gets the highest
/// fill that leaves the room, though no less than a period; one of less than two periods is
/// kept half full.
pub proof fn primed_fill_follows_the_delay_setting(
    port: SinkPort,
    request: PeriodRequest,
    granted: u32,
    device_blocksize: u32,
    chunk: u32,
)
    requires
        request.period != 0,
    ensures
        ({
            let after = primed(port, request, granted, device_blocksize, chunk);
            let period = request.period as int;
            let block = imax(device_blocksize as int, chunk as int);
            let asked = (period / 8) * (request.delay_eighths as int);
            let safe = period + imax(period / 4, block);
            let write = match request.rate_match_size {
                Some(size) => imax(period, imin(size * request.stride, u32::MAX as int)),
                None => period,
            };
            let room = granted - write - block;
            &&& after.ext.target_delay == after.ext.target_goal
            &&& after.ext.buffer_size == granted
            &&& after.setup_period == period
            &&& after.setup_blocksize == block
            &&& after.servo.loop_cold && after.servo.bandwidth_cold
            &&& after.servo.geometry matches Some(geometry) && geometry.period == period
                && geometry.blocksize == block && geometry.stride == port.stride()
                && geometry.byte_rate == imin(port.rate() * port.stride(), u32::MAX as int)
            &&& granted >= 2 * period && imax(asked, safe) <= room ==> after.ext.target_goal
                == imax(asked, safe)
            &&& granted >= 2 * period && imax(asked, safe) > room && safe <= u32::MAX
                ==> after.ext.target_goal == imin(imax(asked, safe), imax(room, period))
            &&& granted < 2 * period && 2 * period <= u32::MAX ==> after.ext.target_goal
                == granted / 2
            &&& after == (Port {
                setup_period: after.setup_period,
                setup_blocksize: after.setup_blocksize,
                servo: after.servo,
                ext: SinkPortExt {
                    target_delay: after.ext.target_delay,
                    target_goal: after.ext.target_goal,
                    buffer_size: after.ext.buffer_size,
                    ..port.ext
                },
                ..port
            })
        }),
{
    assert((request.period / 8) as int * (request.delay_eighths as int) >= 0) by (nonlinear_arith)
        requires
            request.period >= 0,
            request.delay_eighths >= 0,
    ;
    assert(port.rate() * port.stride() >= 0) by (nonlinear_arith)
        requires
            port.rate() >= 0,
            port.stride() >= 0,
    ;
    if let Some(size) = request.rate_match_size {
        assert(size * request.stride >= 0) by (nonlinear_arith)
            requires
                size >= 0,
                request.stride >= 0,
        ;
    }
}

/// A larger delay setting gives a fuller ring, as long as it asks for more than the safe
/// fill and the ring has the room: each step is worth an eighth of the period.
pub proof fn larger_delay_setting_gives_a_fuller_ring(
    port: SinkPort,
    request: PeriodRequest,
    larger: u32,
    granted: u32,
    blocksize: u32,
)
    requires
        request.period >= 8,
        request.rate_match_size is None,
        request.delay_eighths < larger,
        request.period + imax(request.period as int / 4, blocksize as int) <= (request.period as int
            / 8) * (request.delay_eighths as int),
        (request.period as int / 8) * (larger as int) + request.period + blocksize <= granted,
    ensures
        ({
            let small = primed(port, request, granted, blocksize, 0).ext.target_goal;
            let large = primed(
                port,
                PeriodRequest { delay_eighths: larger, ..request },
                granted,
                blocksize,
                0,
            ).ext.target_goal;
            &&& small < large
            &&& large - small == (request.period as int / 8) * (larger - request.delay_eighths)
        }),
{
    let step = request.period as int / 8;
    let (few, many) = (request.delay_eighths as int, larger as int);
    assert(step * few < step * many && step * many - step * few == step * (many - few))
        by (nonlinear_arith)
        requires
            step >= 1,
            few < many,
    ;
    let request_more = PeriodRequest { delay_eighths: larger, ..request };
    primed_fill_follows_the_delay_setting(port, request, granted, blocksize, 0);
    primed_fill_follows_the_delay_setting(port, request_more, granted, blocksize, 0);
}

/// A channel is asked for a ring only with a format and a period; the request is what the
/// present period and the largest one need, whichever is more: two periods above the delay
/// setting, or the safe fill, the largest write and one transfer; at least 64 KiB, and at
/// most what the kernel grants.
pub proof fn ring_request_holds_both_periods(
    port: SinkPort,
    request: PeriodRequest,
    max_period: u32,
    fragment: u32,
    chunk: u32,
)
    ensures
        ({
            let period = request.period as int;
            let largest = max_period as int;
            let eighths = request.delay_eighths as int;
            let block = imax(
                if fragment == 0 {
                    1024
                } else {
                    fragment as int
                },
                chunk as int,
            );
            let write = match request.rate_match_size {
                Some(size) => imax(period, sat32(size * request.stride) as int),
                None => period,
            };
            let own = imax(
                2 * period + sat32((period / 8) * eighths),
                period + imax(period / 4, block) + write + block,
            );
            let most = imax(
                2 * largest + sat32((largest / 8) * eighths),
                largest + imax(largest / 4, block) + largest + block,
            );
            prime_request_of(port, request, max_period, fragment, chunk) == if port.config is None
                || request.period == 0 {
                None::<u32>
            } else {
                Some(imin(imax(imax(own, most), 65536), 131072) as u32)
            }
        }),
{
}

/// A change of the period takes two cycles in a row. The first one is only counted; the
/// second retunes a ring that holds the new geometry in place and stops the channel
/// otherwise, and a channel that refuses has to be rebuilt. A cycle at the committed period,
/// or without one, starts the count over.
pub proof fn period_change_takes_two_cycles(
    port: SinkPort,
    running: bool,
    request: PeriodRequest,
    write_now: u32,
    fill: u32,
    stop_accepted: bool,
)
    ensures
        ({
            let (after, outcome) = retune_result(
                port,
                running,
                request,
                write_now,
                fill,
                stop_accepted,
            );
            let period = request.period as int;
            let differs = running && port.setup_period != 0 && period != 0 && period
                != port.setup_period;
            let asked = sat32((period / 8) * (request.delay_eighths as int)) as int;
            let block = port.setup_blocksize as int;
            let write = match request.rate_match_size {
                Some(size) => imax(period, sat32(size * request.stride) as int),
                None => period,
            };
            let safe = period + imax(period / 4, block);
            let needed = imin(imax(2 * period + asked, safe + write + block), u32::MAX as int);
            let held = imax(0, imin(fill + write_now, u32::MAX as int) - period);
            &&& !differs ==> outcome == RetuneOutcome::Unchanged && after == (Port {
                ext: SinkPortExt { period_mismatch: 0, ..port.ext },
                ..port
            })
            &&& differs && port.ext.period_mismatch == 0 ==> outcome == RetuneOutcome::Unchanged
                && after == (Port {
                ext: SinkPortExt { period_mismatch: 1, ..port.ext },
                ..port
            })
            &&& differs && port.ext.period_mismatch > 0 && port.ext.buffer_size >= needed ==> {
                &&& outcome == RetuneOutcome::Retuned
                &&& after.setup_period == period
                &&& after.ext.period_mismatch == 0
                &&& after.ext.buffer_size == port.ext.buffer_size
                &&& needed < u32::MAX ==> after.ext.target_goal == imax(asked, safe)
                    || after.ext.target_goal == imax(
                    port.ext.buffer_size - write - block,
                    period,
                )
                &&& imax(asked, safe) + write + block <= port.ext.buffer_size && 2 * period
                    <= port.ext.buffer_size ==> after.ext.target_goal == imax(asked, safe)
                &&& after.ext.target_delay == imin(after.ext.target_goal as int, held)
            }
            &&& differs && port.ext.period_mismatch > 0 && port.ext.buffer_size < needed ==> {
                &&& outcome == if stop_accepted {
                    RetuneOutcome::Retuned
                } else {
                    RetuneOutcome::Rebuild
                }
                &&& after.setup_period == port.setup_period
                &&& after.ext.target_goal == port.ext.target_goal
                &&& after.ext.target_delay == port.ext.target_delay
                &&& after.ext.period_mismatch == if stop_accepted {
                    0
                } else {
                    imin(port.ext.period_mismatch + 1, u32::MAX as int)
                }
                &&& stop_accepted ==> after.ext.xrun_timestamp == 0 && !after.was_matching
                    && after.device_event is None && after.event_xruns_seen == 0
            }
        }),
{
}

/// The target of a granted ring: what is asked for or the safe fill, whichever is more,
/// within the room that the largest write and one transfer leave, but at least a period;
/// half of a ring under two periods. It is capped where that room is what decides.
pub proof fn target_is_the_fill_that_fits(
    granted: u32,
    period: u32,
    blocksize: u32,
    write_max: u32,
    desired: u32,
)
    requires
        2 * period <= u32::MAX,
        period + blocksize <= u32::MAX,
    ensures
        ({
            let (target, capped) = target_of(
                granted as int,
                period as int,
                blocksize as int,
                write_max as int,
                desired as int,
            );
            let want = imax(desired as int, period + imax(period as int / 4, blocksize as int));
            let room = imax(granted - write_max - blocksize, period as int);
            if granted < 2 * period {
                target == granted / 2 && !capped
            } else {
                &&& target <= want && target <= room
                &&& target == want || target == room
                &&& capped <==> room < want
            }
        }),
{
}

/// A resampler writes whole blocks of its frames; a port without one makes no such write.
pub proof fn resampler_writes_its_blocks(size: u32, stride: u32)
    ensures
        resampler_bytes(None, stride) == 0,
        size * stride <= u32::MAX ==> resampler_bytes(Some(size), stride) == size * stride,
        size * stride > u32::MAX ==> resampler_bytes(Some(size), stride) == u32::MAX,
{
    assert(size * stride >= 0) by (nonlinear_arith)
        requires
            size >= 0,
            stride >= 0,
    ;
}

} // verus!
