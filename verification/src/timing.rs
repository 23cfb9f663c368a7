//! Time and bytes, and when a driving node wakes up.
use vstd::prelude::*;

use crate::arith::{imin, sat32};
use crate::direction::Direction;
use crate::port::Port;
use crate::sink::write::{clamped_servo_error, servo_error};

verus! {

pub const NSEC_PER_SEC: u64 = 1_000_000_000;

/// How long a node waits after its clock could not be read, and between cycles while
/// the graph has no usable period.
pub const RETRY_NSEC: u64 = 10_000_000;

/// How far a node may fall behind before it starts over from the present time.
pub const STALL_NSEC: u64 = 1_000_000_000;

/// The bytes of `frames` frames, clamped to 32 bits.
fn frames_to_bytes(frames: u128, stride: u32) -> (bytes: u32)
    requires
        frames <= 0xffff_ffff_ffff_ffff_ffff_ffff,
    ensures
        bytes == sat32(frames * stride),
{
    assert(0 <= frames * stride <= 0xffff_ffff_ffff_ffff_ffff_ffff * 0xffff_ffff)
        by (nonlinear_arith)
        requires
            0 <= frames <= 0xffff_ffff_ffff_ffff_ffff_ffff,
            0 <= stride <= 0xffff_ffff,
    ;
    let bytes: u128 = frames * stride as u128;
    if bytes > u32::MAX as u128 {
        u32::MAX
    } else {
        bytes as u32
    }
}

/// The product of a 64-bit and a 32-bit number, divided by a positive number.
fn scaled(a: u64, b: u32, d: u64) -> (q: u128)
    requires
        d > 0,
    ensures
        q == (a * b) / (d as int),
        q <= 0xffff_ffff_ffff_ffff_ffff_ffff,
{
    assert(0 <= a * b <= 0xffff_ffff_ffff_ffff_ffff_ffff) by (nonlinear_arith)
        requires
            0 <= a <= 0xffff_ffff_ffff_ffff,
            0 <= b <= 0xffff_ffff,
    ;
    let product: u128 = a as u128 * b as u128;
    assert(product as int / d as int <= product as int) by (nonlinear_arith)
        requires
            product >= 0,
            d > 0,
    ;
    product / d as u128
}

/// One graph cycle in device bytes: whole device frames, 0 while the graph has no rate.
pub open spec fn period_bytes(duration: u64, rate: u32, graph_rate: u32, stride: u32) -> u32 {
    if graph_rate == 0 {
        0
    } else {
        sat32((duration * rate) / (graph_rate as int) * stride)
    }
}

/// One graph cycle of `duration` frames at the graph's rate, in device bytes.
pub fn device_period_bytes(duration: u64, rate: u32, graph_rate: u32, stride: u32) -> (bytes: u32)
    ensures
        bytes == period_bytes(duration, rate, graph_rate, stride),
{
    if graph_rate == 0 {
        return 0;
    }
    frames_to_bytes(scaled(duration, rate, graph_rate as u64), stride)
}

/// The bytes that a device moves in `ns` nanoseconds, in whole frames.
pub open spec fn frame_bytes_in(ns: u64, rate: u32, stride: u32) -> u32 {
    sat32((ns * rate) / 1_000_000_000 * stride)
}

/// The bytes that a device moves in `ns` nanoseconds, in whole frames.
pub fn ns_to_frame_bytes(ns: u64, rate: u32, stride: u32) -> (bytes: u32)
    ensures
        bytes == frame_bytes_in(ns, rate, stride),
{
    frames_to_bytes(scaled(ns, rate, NSEC_PER_SEC), stride)
}

/// The bytes that a device moves in `ns` nanoseconds.
pub open spec fn bytes_in(ns: int, rate: u32, stride: u32) -> u32 {
    sat32((ns * rate) * stride / 1_000_000_000)
}

/// The bytes that a device moves in `ns` nanoseconds.
pub fn ns_to_bytes(ns: u64, rate: u32, stride: u32) -> (bytes: u32)
    ensures
        bytes == bytes_in(ns as int, rate, stride),
{
    assert(0 <= ns * rate <= 0xffff_ffff_ffff_ffff_ffff_ffff) by (nonlinear_arith)
        requires
            0 <= ns <= 0xffff_ffff_ffff_ffff,
            0 <= rate <= 0xffff_ffff,
    ;
    let frames: u128 = ns as u128 * rate as u128;
    assert(0 <= frames * stride <= 0xffff_ffff_ffff_ffff_ffff_ffff * 0xffff_ffff)
        by (nonlinear_arith)
        requires
            0 <= frames <= 0xffff_ffff_ffff_ffff_ffff_ffff,
            0 <= stride <= 0xffff_ffff,
    ;
    let bytes: u128 = frames * stride as u128 / NSEC_PER_SEC as u128;
    if bytes > u32::MAX as u128 {
        u32::MAX
    } else {
        bytes as u32
    }
}

/// At equal rates a cycle is its frames times the stride.
pub proof fn period_at_equal_rates(duration: u64, rate: u32, stride: u32)
    requires
        rate > 0,
    ensures
        period_bytes(duration, rate, rate, stride) == sat32(duration * stride),
{
    assert((duration * rate) / (rate as int) == duration) by (nonlinear_arith)
        requires
            rate > 0,
            duration >= 0,
    ;
}

/// A time as seconds and nanoseconds, for a one-shot timer; zero disarms it.
#[derive(Debug, Clone, Copy, PartialEq, Eq, Structural)]
pub struct TimerValue {
    pub sec: u64,
    pub nsec: u64,
}

/// A time as seconds and nanoseconds.
pub fn timer_value(value_ns: u64) -> (value: TimerValue)
    ensures
        value.sec * 1_000_000_000 + value.nsec == value_ns,
        value.nsec < 1_000_000_000,
{
    TimerValue { sec: value_ns / NSEC_PER_SEC, nsec: value_ns % NSEC_PER_SEC }
}

/// What is done with the timer.
#[derive(Debug, Clone, Copy, PartialEq, Eq, Structural)]
pub enum TimerPlan {
    /// Leave it: it was read, or is disarmed.
    Leave,
    /// Disarm it.
    Park,
    /// Fire at this time.
    At(u64),
    /// Fire after this time, for there is no time to reckon from.
    After(u64),
}

/// Whether the node drives the graph, so that it has to wake up by itself.
pub open spec fn drives(started: bool, following: bool, has_position: bool) -> bool {
    started && !following && has_position
}

/// Arms the timer of a node that drives the graph, from the present time; any other
/// node's is parked. A clock that cannot be read does not park a node that wants to
/// run. The result is the plan and the time of the next cycle.
pub fn update_timers(
    started: bool,
    following: bool,
    has_position: bool,
    now: Option<u64>,
    next_time: u64,
) -> (r: (TimerPlan, u64))
    ensures
        r == if !drives(started, following, has_position) {
            (TimerPlan::Park, next_time)
        } else {
            match now {
                Some(now) => (TimerPlan::At(now), now),
                None => (TimerPlan::After(RETRY_NSEC), next_time),
            }
        },
{
    if !(started && !following && has_position) {
        return (TimerPlan::Park, next_time);
    }
    match now {
        Some(now) => (TimerPlan::At(now), now),
        None => (TimerPlan::After(RETRY_NSEC), next_time),
    }
}

/// What a timer wake-up finds.
#[derive(Debug, Clone, Copy, PartialEq, Eq)]
pub struct WakeInput {
    /// The timer really fired.
    pub expired: bool,
    pub started: bool,
    pub following: bool,
    pub has_position: bool,
    pub has_clock: bool,
    /// The present time, where the clock could be read.
    pub now: Option<u64>,
    /// The time for which the cycle was due.
    pub next_time: u64,
    /// The graph's period in frames, and its rate.
    pub duration: u64,
    pub rate: u32,
}

/// What a timer wake-up comes to.
#[derive(Debug, Clone, Copy, PartialEq, Eq, Structural)]
pub enum WakePlan {
    /// No cycle; the timer is dealt with like this, and the next cycle is due then.
    Idle { timer: TimerPlan, next_time: u64 },
    /// A cycle that was due at `nsec`: run the servo, publish the clock, signal the
    /// host.
    Cycle { nsec: u64 },
}

/// What a timer wake-up comes to. A node that no longer drives does nothing. A node
/// that fell more than a second behind starts over from now instead of replaying the
/// cycles that it missed.
pub open spec fn wake_of(input: WakeInput) -> WakePlan {
    if !input.expired || !input.started || input.following || !input.has_position
        || !input.has_clock {
        WakePlan::Idle { timer: TimerPlan::Leave, next_time: input.next_time }
    } else {
        match input.now {
            None => WakePlan::Idle {
                timer: TimerPlan::After(RETRY_NSEC),
                next_time: input.next_time,
            },
            Some(now) => {
                let nsec = if now - input.next_time > STALL_NSEC {
                    now
                } else {
                    input.next_time
                };
                if input.duration == 0 || input.rate == 0 {
                    let next_time = imin(nsec + RETRY_NSEC, u64::MAX as int) as u64;
                    WakePlan::Idle { timer: TimerPlan::At(next_time), next_time }
                } else {
                    WakePlan::Cycle { nsec }
                }
            },
        }
    }
}

/// What a timer wake-up comes to.
pub fn timeout_cycle(input: WakeInput) -> (plan: WakePlan)
    ensures
        plan == wake_of(input),
{
    let leave = WakePlan::Idle { timer: TimerPlan::Leave, next_time: input.next_time };
    if !input.expired {
        return leave;
    }
    if !input.started || input.following {
        return leave;
    }
    if !input.has_position || !input.has_clock {
        return leave;
    }
    let now: u64 = match input.now {
        Some(now) => now,
        None => {
            return WakePlan::Idle {
                timer: TimerPlan::After(RETRY_NSEC),
                next_time: input.next_time,
            };
        },
    };
    let nsec: u64 = if now.saturating_sub(input.next_time) > STALL_NSEC {
        now
    } else {
        input.next_time
    };
    if input.duration == 0 || input.rate == 0 {
        let next_time: u64 = nsec.saturating_add(RETRY_NSEC);
        return WakePlan::Idle { timer: TimerPlan::At(next_time), next_time };
    }
    WakePlan::Cycle { nsec }
}

/// A driving node is never left without a wake-up: whatever a wake-up finds, it runs a
/// cycle or arms the timer again. A node that never catches up never replays more than
/// a second of cycles.
pub proof fn driving_node_keeps_ticking(input: WakeInput)
    requires
        input.expired,
        drives(input.started, input.following, input.has_position),
        input.has_clock,
    ensures
        match wake_of(input) {
            WakePlan::Cycle { nsec } => input.now matches Some(now) && now - nsec <= STALL_NSEC,
            WakePlan::Idle { timer, .. } => timer is At || timer is After,
        },
{
}

/// The timer after the host was signalled: the signal may have stopped the node, or
/// made it a follower, and that is not undone.
pub fn rearm_after_ready(
    started: bool,
    following: bool,
    has_position: bool,
    has_clock: bool,
    next_time: u64,
) -> (timer: TimerPlan)
    ensures
        timer == if drives(started, following, has_position) && has_clock {
            TimerPlan::At(next_time)
        } else {
            TimerPlan::Park
        },
{
    if started && !following && has_position && has_clock {
        TimerPlan::At(next_time)
    } else {
        TimerPlan::Park
    }
}

/// Whether the driver's servo measures a port in this cycle.
pub open spec fn measures<E: Direction>(port: Port<E>, running: bool) -> bool {
    port.config is Some && running && port.setup_period != 0 && !port.rebuild_pending && E::ready(
        port,
    )
}

/// Whether the driver's servo measures a port in this cycle.
pub fn servo_measures<E: Direction>(port: &Port<E>, running: bool) -> (r: bool)
    ensures
        r == measures(*port, running),
{
    port.config.is_some() && running && port.setup_period != 0 && !port.rebuild_pending
        && E::servo_ready(port)
}

/// What the driver's servo does with a measured fill.
#[derive(Debug, Clone, Copy, PartialEq, Eq, Structural)]
pub struct ServoPlan {
    /// The delay to publish, in graph frames.
    pub delay: i64,
    /// The error to feed the servo, in half bytes; `None` holds it.
    pub error: Option<i64>,
}

/// The published delay: the queued frames at the graph's rate, and what the resampler
/// holds.
pub open spec fn published_delay(fill: u32, stride: u32, rate: u32, device_rate: u32, resampler: i64) -> int {
    let device_rate = if device_rate == 0 {
        1
    } else {
        device_rate as int
    };
    fill as int / stride as int * rate / device_rate + resampler
}

/// The servo phase of a driving node: the fill is published as a delay, and its error,
/// clamped so that one late wake-up cannot wind the servo up, steers the timer. A
/// recovery holds the servo.
pub fn timeout_servo<E: Direction>(port: &mut Port<E>, fill: u32, rate: u32, resampler: i64) -> (plan:
    ServoPlan)
    requires
        0 <= fill as int / old(port).stride() as int * rate <= i64::MAX,
        i64::MIN <= published_delay(fill, old(port).stride(), rate, old(port).rate(), resampler)
            <= i64::MAX,
    ensures
        *final(port) == E::sampled(*old(port), fill),
        plan.delay == published_delay(fill, old(port).stride(), rate, old(port).rate(), resampler),
        plan.error == if E::held(*final(port)) {
            None
        } else {
            Some(
                servo_error(
                    E::level_error(*final(port), fill),
                    final(port).setup_period as int,
                    old(port).stride() as int,
                ) as i64,
            )
        },
{
    let (stride, device_rate) = match port.stride_rate() {
        Some((stride, device_rate)) => (stride, device_rate),
        None => (1, 0),
    };
    let device_rate: i64 = if device_rate == 0 {
        1
    } else {
        device_rate as i64
    };
    E::servo_fill(port, fill);
    assert(0 <= fill as int / stride as int <= fill) by (nonlinear_arith)
        requires
            stride > 0,
            fill >= 0,
    ;
    let frames: i64 = (fill / stride) as i64;
    let scaled: i64 = frames * rate as i64;
    assert(0 <= scaled as int / device_rate as int <= scaled) by (nonlinear_arith)
        requires
            scaled >= 0,
            device_rate > 0,
    ;
    let delay: i64 = scaled / device_rate + resampler;
    let error = if E::servo_hold(port) {
        None
    } else {
        Some(clamped_servo_error(E::servo_err(port, fill), port.setup_period, stride))
    };
    ServoPlan { delay, error }
}

/// A cycle of `duration` graph frames lasts as long as its device frames: their number is
/// the largest that takes no longer at the device's rate. Without a graph rate there is no
/// cycle.
pub proof fn cycle_holds_the_whole_device_frames(
    duration: u64,
    rate: u32,
    graph_rate: u32,
    stride: u32,
    frames: int,
)
    ensures
        period_bytes(duration, rate, 0, stride) == 0,
        graph_rate > 0 && frames * graph_rate <= duration * rate < (frames + 1) * graph_rate
            ==> period_bytes(duration, rate, graph_rate, stride) == sat32(frames * stride),
{
    let product = duration * rate;
    let d = graph_rate as int;
    if graph_rate > 0 && frames * graph_rate <= product < (frames + 1) * graph_rate {
        assert(product / d == frames) by (nonlinear_arith)
            requires
                d > 0,
                frames * d <= product < (frames + 1) * d,
        ;
    }
}

/// The whole frames of a time are those that fit into it at the device's rate.
pub proof fn time_holds_its_whole_frames(ns: u64, rate: u32, stride: u32, frames: int)
    requires
        frames * 1_000_000_000 <= ns * rate < (frames + 1) * 1_000_000_000,
    ensures
        frame_bytes_in(ns, rate, stride) == sat32(frames * stride),
{
}

/// The bytes of a time are those that pass in it at the device's byte rate, whole frames or
/// not; no time passes none.
pub proof fn time_holds_its_bytes(ns: u64, rate: u32, stride: u32, bytes: int)
    ensures
        bytes * 1_000_000_000 <= (ns * rate) * stride < (bytes + 1) * 1_000_000_000 ==> bytes_in(
            ns as int,
            rate,
            stride,
        ) == sat32(bytes),
        bytes_in(0, rate, stride) == 0,
{
    assert((0 * rate) * stride == 0) by (nonlinear_arith);
}

/// A node drives where it is started, follows nobody and has a position to drive by.
pub proof fn started_node_drives_unless_it_follows(
    started: bool,
    following: bool,
    has_position: bool,
)
    ensures
        drives(true, false, true),
        !started || following || !has_position ==> !drives(started, following, has_position),
{
}

/// A wake-up of a driving node runs the cycle that was due, or one from now where that lies
/// more than a second back. A graph without a period, and a clock that cannot be read, have
/// the node look again ten milliseconds later; any other node is left alone.
pub proof fn wake_up_runs_the_cycle_that_is_due(input: WakeInput)
    ensures
        ({
            let awake = input.expired && input.started && !input.following && input.has_position
                && input.has_clock;
            let plan = wake_of(input);
            &&& !awake ==> plan == (WakePlan::Idle {
                timer: TimerPlan::Leave,
                next_time: input.next_time,
            })
            &&& awake && input.now is None ==> plan == (WakePlan::Idle {
                timer: TimerPlan::After(10_000_000),
                next_time: input.next_time,
            })
            &&& awake && input.now is Some && input.duration > 0 && input.rate > 0 ==> {
                &&& input.now->0 <= input.next_time + 1_000_000_000 ==> plan == (WakePlan::Cycle {
                    nsec: input.next_time,
                })
                &&& input.now->0 > input.next_time + 1_000_000_000 ==> plan == (WakePlan::Cycle {
                    nsec: input.now->0,
                })
            }
            &&& awake && input.now is Some && (input.duration == 0 || input.rate == 0) ==> {
                let due = if input.now->0 > input.next_time + 1_000_000_000 {
                    input.now->0
                } else {
                    input.next_time
                };
                &&& plan is Idle
                &&& due + 10_000_000 <= u64::MAX ==> plan->Idle_next_time == due + 10_000_000
                &&& due + 10_000_000 > u64::MAX ==> plan->Idle_next_time == u64::MAX
                &&& plan->timer == TimerPlan::At(plan->Idle_next_time)
            }
        }),
{
}

/// The servo measures a port that has a format and a committed period on a running channel,
/// unless it waits for another device or for its ring.
pub proof fn servo_measures_a_live_port<E: Direction>(port: Port<E>, running: bool)
    ensures
        measures(port, running) ==> port.config is Some && running && port.setup_period > 0
            && !port.rebuild_pending && E::ready(port),
        port.config is Some && running && port.setup_period > 0 && !port.rebuild_pending
            && E::ready(port) ==> measures(port, running),
{
}

/// The published delay is the queued frames, as graph frames, and what the resampler holds.
pub proof fn delay_counts_the_queue_in_graph_frames(
    fill: u32,
    stride: u32,
    rate: u32,
    device_rate: u32,
    resampler: i64,
    queued: int,
    delay: int,
)
    requires
        stride > 0,
        device_rate > 0,
        queued * stride <= fill < (queued + 1) * stride,
        delay * device_rate <= queued * rate < (delay + 1) * device_rate,
    ensures
        published_delay(fill, stride, rate, device_rate, resampler) == delay + resampler,
        published_delay(fill, stride, rate, 0, resampler) == queued * rate + resampler,
{
    assert(fill as int / stride as int == queued) by (nonlinear_arith)
        requires
            stride > 0,
            queued * stride <= fill < (queued + 1) * stride,
    ;
    let scaled = queued * rate;
    assert(scaled / device_rate as int == delay) by (nonlinear_arith)
        requires
            device_rate > 0,
            delay * device_rate <= scaled < (delay + 1) * device_rate,
    ;
}

} // verus!
