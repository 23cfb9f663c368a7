use oss_node::abi;
use oss_node::device::{DevicePhase, IoStatus, WriteOutcome};
use oss_node::direction::Direction;
use oss_node::port::{
    device_event_fill, reset_device_event, take_device_event_xruns, take_fallback_xruns,
    DeviceEvent, Port, PortConfig,
};
use oss_node::sink::cycle::{
    begin, step, DriverClock, Prelude, SinkAction, SinkInput, SinkReply,
};
use oss_node::sink::geometry::{
    buffer_capacity_limit, buffer_request, buffer_required, commit_geometry, desired_delay,
    fill_floor, predicted_next_fill, prime_playback, prime_request, rate_match_bytes,
    retune_period, retune_seed, target_delay, PeriodRequest, RetuneOutcome, SinkPort, SinkPortExt,
};
use oss_node::sink::write::{
    detect_underrun, end_input_sequence, follower_servo, level_correct, pending_write_changed,
    pending_write_offset, recover_or_hold, refill, resume_playback, resume_prepare,
    retain_partial_write, settle_target, underrun_low, FillStep,
};
use oss_node::text::log_delay_capped;

// a playback ring of fixed capacity that accepts what fits and completes a
// torn frame with silence
struct Ring {
    capacity: usize,
    stride: usize,
    bytes: Vec<u8>,
    accepted: usize,
}

impl Ring {
    fn new() -> Ring {
        Ring { capacity: 65536, stride: 8, bytes: vec![], accepted: 0 }
    }

    fn fill(&mut self) -> usize {
        while self.bytes.len() < self.capacity {
            self.bytes.push(0x55);
        }
        self.capacity
    }

    fn free(&mut self, n: usize) {
        self.bytes.drain(..n);
    }

    fn drain(&mut self) -> Vec<u8> {
        std::mem::take(&mut self.bytes)
    }

    fn write(&mut self, data: &[u8]) -> WriteOutcome {
        let n = data.len().min(self.capacity - self.bytes.len());
        self.bytes.extend_from_slice(&data[..n]);
        self.accepted += n;
        WriteOutcome {
            bytes: n,
            status: if n == 0 { IoStatus::WouldBlock } else { IoStatus::Progress },
        }
    }

    fn write_silence(&mut self, n: u32) {
        let n = (n as usize).min(self.capacity - self.bytes.len());
        self.bytes.extend(std::iter::repeat(0).take(n));
    }

    fn end_sequence(&mut self) -> bool {
        while self.accepted % self.stride != 0 {
            self.bytes.push(0);
            self.accepted += 1;
        }
        false
    }
}

fn pattern(n: usize, seed: u8) -> Vec<u8> {
    (0..n).map(|i| (i as u8).wrapping_mul(7).wrapping_add(seed) | 1).collect()
}

fn config() -> PortConfig {
    PortConfig {
        format: abi::AUDIO_FORMAT_S16_LE,
        rate: 48000,
        channels: 4,
        positions: vec![],
        flags: 0,
        stride: 8,
    }
}

fn test_port(target_delay: u32, period: u32) -> SinkPort {
    let mut ext = SinkPortExt::default();
    ext.target_delay = target_delay;
    ext.target_goal = target_delay;
    let mut port = Port::new(ext);
    port.setup_period = period;
    port.setup_blocksize = 1024;
    port
}

fn recover_on(
    ring: &mut Ring,
    port: &mut SinkPort,
    clock_nsec: u64,
    clock_flags: u32,
    data: &[u8],
) -> WriteOutcome {
    if recover_or_hold(port, clock_nsec, clock_flags) {
        ring.write_silence(refill(port, 0));
        ring.write(data)
    } else {
        WriteOutcome::consumed(data.len())
    }
}

fn resume_on(
    ring: &mut Ring,
    port: &mut SinkPort,
    queued: u32,
    underruns: u32,
    data: &[u8],
) -> WriteOutcome {
    if let Some(silence) = resume_prepare(port, queued, underruns) {
        ring.write_silence(silence);
    }
    let written = ring.write(data);
    resume_playback(port, queued, underruns, written);
    written
}

fn prepare_pending_write(ring: &mut Ring, port: &mut SinkPort, buffer_id: u32, size: usize) -> usize {
    if pending_write_changed(&port.ext, buffer_id, size) {
        let reset = ring.end_sequence();
        end_input_sequence(port, reset);
    }
    pending_write_offset(&mut port.ext, buffer_id, size)
}

fn request(period: u32) -> PeriodRequest {
    PeriodRequest { period, stride: 8, delay_eighths: 0, rate_match_size: None }
}

#[test]
fn target_matches_live_geometry() {
    assert_eq!(target_delay(65536, 16384, 2048, 16384, 0), (20480, false));
    assert_eq!(fill_floor(16384, 8192), 16384 + 8192);
}

#[test]
fn playback_kevent_supplies_fill_and_xrun_deltas() {
    let fd = Some(5);
    let mut port = test_port(4096, 2048);
    port.config = Some(config());
    port.device_event = Some(DeviceEvent {
        fd: 5,
        available_bytes: 1234,
        queued_frames: Some(512),
        xruns: 3,
        eof: false,
    });

    assert_eq!(device_event_fill(&port, true, fd), Some(4096));
    assert_eq!(take_device_event_xruns(&mut port, fd), Some(3));
    assert_eq!(take_device_event_xruns(&mut port, fd), Some(0));
    assert_eq!(take_fallback_xruns(&mut port, 5), 2);
    assert_eq!(port.event_xruns_seen, 0);
    port.device_event.as_mut().unwrap().xruns = 1;
    assert_eq!(take_device_event_xruns(&mut port, fd), Some(1));
    port.wake_threshold = 4096;
    port.device_eof = true;
    reset_device_event(&mut port);
    assert!(port.device_event.is_none());
    assert!(!port.device_eof);
    assert_eq!(port.event_xruns_seen, 0);
    assert_eq!(port.wake_threshold, 0);
}

#[test]
fn events_of_another_descriptor_are_ignored() {
    let mut port = test_port(4096, 2048);
    port.device_event = Some(DeviceEvent {
        fd: 5,
        available_bytes: 1234,
        queued_frames: Some(u64::MAX),
        xruns: 3,
        eof: false,
    });
    assert_eq!(device_event_fill(&port, true, Some(6)), None);
    assert_eq!(device_event_fill(&port, true, None), None);
    assert_eq!(take_device_event_xruns(&mut port, Some(6)), None);
    assert_eq!(port.event_xruns_seen, 0);
    // an absurd frame count saturates instead of overflowing
    assert_eq!(device_event_fill(&port, true, Some(5)), Some(u32::MAX));
}

#[test]
fn counter_below_its_baseline_starts_a_new_epoch() {
    let mut port = test_port(4096, 2048);
    port.event_xruns_seen = 9;
    assert_eq!(take_fallback_xruns(&mut port, 4), 4);
    assert_eq!(port.event_xruns_seen, 0);
}

#[test]
fn playback_kevent_wakes_at_the_live_fill_target() {
    let mut port = test_port(20_480, 16_384);
    port.ext.buffer_size = 65_536;
    assert_eq!(<SinkPortExt as Direction>::wake_threshold(&port), 45_056);
    port.ext.target_delay = 65_536;
    assert_eq!(<SinkPortExt as Direction>::wake_threshold(&port), 1);
    port.ext.target_delay = 8_192;
    assert_eq!(<SinkPortExt as Direction>::wake_threshold(&port), 57_344);
}

#[test]
fn granted_at_required_never_starves_or_drops() {
    for period in [1024u32, 4096, 16384, 65536] {
        for blocksize in [512u32, 1024, 2047, 2048, 16384, 65536] {
            for write_max in [period, period * 2, period * 4] {
                for playback_delay_eighths in [0u32, 4, 32, 1024] {
                    let desired = desired_delay(period, playback_delay_eighths);
                    let required = buffer_required(period, desired, blocksize, write_max);
                    for granted in [required, required + 1, required.saturating_mul(2)] {
                        let (target, _) =
                            target_delay(granted, period, blocksize, write_max, desired);
                        assert!(
                            target >= fill_floor(period, blocksize),
                            "starved: target {} < floor {} (granted {}, period {}, blocksize {}, write_max {}, desired {})",
                            target,
                            fill_floor(period, blocksize),
                            granted,
                            period,
                            blocksize,
                            write_max,
                            desired
                        );
                        assert!(
                            target.saturating_add(write_max).saturating_add(blocksize) <= granted,
                            "will drop: target {target} + write_max {write_max} + blocksize {blocksize} > granted {granted} (period {period}, desired {desired})"
                        );
                    }
                }
            }
        }
    }
}

#[test]
fn small_grant_is_best_effort_half() {
    assert_eq!(target_delay(8192, 16384, 1024, 16384, 0), (4096, false));
}

#[test]
fn oversized_delay_is_capped_and_reported() {
    let (target, capped) = target_delay(65536, 4096, 1024, 4096, u32::MAX);
    assert_eq!(target, 65536 - 4096 - 1024);
    assert!(capped);
}

#[test]
fn capped_delay_message_names_the_path_and_the_grant() {
    assert_eq!(
        log_delay_capped("/dev/dsp0", 65536),
        "/dev/dsp0: the oss.delay target is capped by the granted buffer (65536)"
    );
}

#[test]
fn recovery_reprimes_then_writes_into_a_near_full_ring() {
    let mut ring = Ring::new();
    let mut port = test_port(4096, 2048);
    port.ext.xrun_timestamp = 1_000;
    let capacity = ring.fill();
    ring.free(4096 + 1024);

    let data = pattern(2048, 1);
    let n = recover_on(&mut ring, &mut port, 2_000, 0, &data);

    assert_eq!(port.ext.xrun_timestamp, 0);
    assert_eq!(n.bytes, 1024);
    let out = ring.drain();
    assert_eq!(out.len(), capacity);
    let tail = &out[out.len() - 5120..];
    assert!(tail[..4096].iter().all(|&b| b == 0), "the re-prime must precede the data");
    assert_eq!(&tail[4096..], &data[..1024]);
}

#[test]
fn recovery_holds_buffers_until_the_clock_passes_the_event() {
    let mut ring = Ring::new();
    let mut port = test_port(4096, 2048);
    port.ext.xrun_timestamp = 5_000;
    let data = pattern(2048, 2);

    let n = recover_on(&mut ring, &mut port, 5_000, 0, &data);
    assert_eq!(n.bytes, 2048);
    assert_eq!(port.ext.xrun_timestamp, 5_000);
    assert!(ring.drain().is_empty(), "a held buffer must not reach the device");

    let n = recover_on(&mut ring, &mut port, 6_000, abi::CLOCK_FLAG_XRUN_RECOVER, &data);
    assert_eq!(n.bytes, 2048);
    assert_eq!(port.ext.xrun_timestamp, 5_000);
    assert!(ring.drain().is_empty());

    let n = recover_on(&mut ring, &mut port, 6_000, 0, &data);
    assert_eq!(n.bytes, 2048);
    assert_eq!(port.ext.xrun_timestamp, 0);
    let out = ring.drain();
    assert_eq!(out.len(), 4096 + 2048);
    assert!(out[..4096].iter().all(|&b| b == 0));
    assert_eq!(&out[4096..], &data[..]);
}

#[test]
fn recovery_restores_safe_headroom_without_filling_the_latency_goal() {
    let mut ring = Ring::new();
    let mut port = test_port(1024, 2048);
    port.ext.target_goal = 8192;
    port.ext.xrun_timestamp = 1_000;
    let data = pattern(2048, 9);

    assert_eq!(recover_on(&mut ring, &mut port, 2_000, 0, &data).bytes, 2048);
    assert_eq!(port.ext.target_delay, 3072);
    assert_eq!(port.ext.target_goal, 8192);
    let out = ring.drain();
    assert_eq!(out.len(), 3072 + data.len());
    assert!(out[..3072].iter().all(|&b| b == 0));
    assert_eq!(&out[3072..], data);
}

#[test]
fn steady_recovery_restores_the_full_live_target() {
    let mut ring = Ring::new();
    let mut port = test_port(4096, 2048);
    port.ext.xrun_timestamp = 1_000;
    let data = pattern(2048, 19);

    assert_eq!(recover_on(&mut ring, &mut port, 2_000, 0, &data).bytes, 2048);
    assert_eq!(port.ext.target_delay, 4096);
    let out = ring.drain();
    assert_eq!(out.len(), 4096 + data.len());
    assert!(out[..4096].iter().all(|&b| b == 0));
    assert_eq!(&out[4096..], data);
}

#[test]
fn resume_writes_the_first_buffer_without_an_xrun_hold() {
    let mut ring = Ring::new();
    let mut port = test_port(4096, 2048);
    port.ext.resuming = true;
    let data = pattern(2048, 6);

    assert_eq!(resume_on(&mut ring, &mut port, 1024, 3, &data).bytes, data.len());
    assert!(!port.ext.resuming);
    assert_eq!(port.ext.target_delay, 1024);
    assert_eq!(ring.drain(), data);

    port.ext.resuming = true;
    assert_eq!(resume_on(&mut ring, &mut port, 0, 0, &data).bytes, data.len());
    assert_eq!(port.ext.target_delay, 0);
    assert_eq!(ring.drain(), data);
}

#[test]
fn full_resume_write_remains_retryable() {
    let mut ring = Ring::new();
    let mut port = test_port(4096, 2048);
    let capacity = ring.fill();
    let data = pattern(2048, 10);

    port.ext.resuming = true;
    let blocked = resume_on(&mut ring, &mut port, 1024, 0, &data);
    assert!(blocked.would_block());
    assert!(port.ext.resuming);
    assert_eq!(port.ext.target_delay, 4096);

    ring.free(data.len());
    let written = resume_on(&mut ring, &mut port, 1024, 0, &data);
    assert_eq!(written.bytes, data.len());
    assert_eq!(written.status, IoStatus::Progress);
    assert!(!port.ext.resuming);
    let queued = ring.drain();
    assert_eq!(queued.len(), capacity);
    assert_eq!(&queued[queued.len() - data.len()..], data);
}

#[test]
fn short_resume_seeds_from_bytes_the_device_accepted() {
    let mut ring = Ring::new();
    let mut port = test_port(4096, 2048);
    ring.fill();
    ring.free(1024);
    let data = pattern(2048, 18);

    port.ext.resuming = true;
    let written = resume_on(&mut ring, &mut port, 2048, 0, &data);
    assert_eq!(written.bytes, 1024);
    assert_eq!(port.ext.target_delay, 1024);
    assert!(!port.ext.resuming);
}

#[test]
fn partial_writes_advance_only_within_the_same_host_buffer() {
    let mut ext = SinkPortExt::default();

    assert_eq!(pending_write_offset(&mut ext, 7, 16384), 0);
    assert!(retain_partial_write(
        &mut ext,
        16384,
        WriteOutcome { bytes: 8192, status: IoStatus::Progress },
    ));
    assert_eq!(pending_write_offset(&mut ext, 7, 16384), 8192);

    assert!(retain_partial_write(
        &mut ext,
        8192,
        WriteOutcome { bytes: 4096, status: IoStatus::WouldBlock },
    ));
    assert_eq!(pending_write_offset(&mut ext, 7, 16384), 12288);

    assert_eq!(pending_write_offset(&mut ext, 8, 16384), 0);

    assert!(!retain_partial_write(
        &mut ext,
        16384,
        WriteOutcome { bytes: 4096, status: IoStatus::Failed },
    ));
    assert_eq!(ext.pending_offset, 0);
}

#[test]
fn zero_byte_write_is_retryable_backpressure() {
    let write = WriteOutcome { bytes: 0, status: IoStatus::WouldBlock };
    assert!(write.would_block());
}

#[test]
fn retained_tail_precedes_fill_correction() {
    let mut ring = Ring::new();
    let mut port = test_port(4096, 2048);
    port.config = Some(config());
    let capacity = ring.fill();
    ring.free(2048);

    let data = pattern(4096, 21);
    let input = SinkInput {
        fd: None,
        phase: DevicePhase::Running,
        rebuilding: false,
        negotiated: true,
        status: abi::STATUS_HAVE_DATA,
        buffer_id: 7,
        input_size: Some(4096),
        clock: Some(DriverClock {
            flags: 0,
            nsec: 1_000_000_000,
            target_duration: 256,
            target_rate: 48000,
        }),
        following: true,
        same_clock: false,
        delay_eighths: 10,
        rate_match_size: None,
        max_period: 8192,
        fragment: 0,
        hw_quantum_ns: 0,
        now: 1_000_000_000,
    };
    let first = ring.write(&data);
    assert_eq!(first.bytes, 2048);
    assert_eq!(pending_write_offset(&mut port.ext, 7, data.len()), 0);
    assert!(retain_partial_write(&mut port.ext, data.len() as u32, first));

    port.ext.xrun_timestamp = 1;
    ring.free(data.len());
    let (mut cycle, action) = begin(&mut port, input);
    assert_eq!(action, SinkAction::ReadXruns);
    let action = step(&mut cycle, &mut port, SinkReply::Xruns(0));
    assert_eq!(action, SinkAction::Write { prelude: Prelude::Nothing, from: 2048 });
    let tail = &data[port.ext.pending_offset as usize..];
    let written = ring.write(tail);
    assert_eq!(written.bytes, tail.len());
    assert_eq!(step(&mut cycle, &mut port, SinkReply::Written(written)), SinkAction::EndSequence);
    assert_eq!(port.ext.xrun_timestamp, 1);

    let queued = ring.drain();
    assert_eq!(queued.len(), capacity - 2048);
    assert_eq!(&queued[queued.len() - tail.len()..], tail);
}

#[test]
fn releasing_a_partial_write_closes_its_open_frame() {
    let mut ring = Ring::new();
    let mut port = test_port(4096, 2048);
    ring.fill();
    ring.free(2046);

    let data = pattern(4096, 22);
    let first = ring.write(&data);
    assert_eq!(first.bytes, 2046);
    assert!(retain_partial_write(&mut port.ext, data.len() as u32, first));

    ring.free(2);
    let reset = ring.end_sequence();
    end_input_sequence(&mut port, reset);
    assert_eq!(port.ext.pending_offset, 0);

    let queued = ring.drain();
    assert_eq!(&queued[queued.len() - 2..], &[0, 0]);
}

#[test]
fn changed_retained_buffer_closes_its_open_frame() {
    let mut ring = Ring::new();
    let mut port = test_port(4096, 2048);
    let data = pattern(4096, 24);

    for (old_id, new_id, new_size) in [(7, 8, data.len()), (9, 9, 1024)] {
        ring.fill();
        ring.free(2046);
        assert_eq!(prepare_pending_write(&mut ring, &mut port, old_id, data.len()), 0);
        let first = ring.write(&data);
        assert_eq!(first.bytes, 2046);
        assert!(retain_partial_write(&mut port.ext, data.len() as u32, first));

        ring.free(2);
        assert_eq!(prepare_pending_write(&mut ring, &mut port, new_id, new_size), 0);
        assert_eq!(port.ext.pending_buffer, Some(new_id));
        assert_eq!(port.ext.pending_offset, 0);

        let queued = ring.drain();
        assert_eq!(&queued[queued.len() - 2..], &[0, 0]);
    }
}

#[test]
fn drained_resume_reprimes_and_writes_in_the_same_cycle() {
    let mut ring = Ring::new();
    let mut port = test_port(4096, 2048);
    port.ext.resuming = true;
    let data = pattern(2048, 7);

    assert_eq!(resume_on(&mut ring, &mut port, 0, 1, &data).bytes, data.len());
    assert!(!port.ext.resuming);
    let out = ring.drain();
    assert_eq!(out.len(), 4096 + data.len());
    assert!(out[..4096].iter().all(|&b| b == 0));
    assert_eq!(&out[4096..], data);
}

#[test]
fn underrun_threshold_tracks_lateness() {
    assert_eq!(underrun_low(20480, 2048, 16384, 0), 16384);
    assert!(20480 - 2048 >= underrun_low(20480, 2048, 16384, 0));
    assert_eq!(underrun_low(20480, 18432, 16384, 0), 20480 - 18432);
    assert_eq!(underrun_low(20480, 2048, 16384, 8192), 20480 - 8192 - 4096);
    assert_eq!(underrun_low(20480, 2048, 16384, 1 << 30), 16384 / 16);
}

#[test]
fn underrun_detection_arms_the_hold_once() {
    let mut port = test_port(4096, 2048);
    port.config = Some(config());

    detect_underrun(&mut port, 2048, 1_000_000, 500_000, 0);
    assert_eq!(port.ext.xrun_timestamp, 500_000);
    assert_eq!(port.pending_xrun.take(), Some(1_000));

    detect_underrun(&mut port, 2048, 2_000_000, 700_000, 0);
    assert_eq!(port.ext.xrun_timestamp, 500_000);
    assert_eq!(port.pending_xrun, None);
}

#[test]
fn healthy_fill_is_no_underrun() {
    let mut port = test_port(4096, 2048);
    port.config = Some(config());
    detect_underrun(&mut port, 2048, 500_000, 500_000, 3072);
    assert_eq!(port.ext.xrun_timestamp, 0);
    assert_eq!(port.pending_xrun, None);
    // a driver clock of zero still arms a visible hold
    detect_underrun(&mut port, 2048, 0, 0, 0);
    assert_eq!(port.ext.xrun_timestamp, 1);
}

#[test]
fn fill_snap_refills_underfill_and_skips_overfill() {
    let mut port = test_port(4096, 2048);

    assert_eq!(follower_servo(&mut port, 1024, 8), FillStep::Refill(4096 - 1024));
    assert!(port.servo.loop_cold && port.servo.bandwidth_cold);

    assert_eq!(follower_servo(&mut port, 4096 + 2048 + 8, 8), FillStep::Skip);

    // in-band error: no snap, the servo absorbs it, in half bytes
    port.config = Some(config());
    commit_geometry(&mut port, 65536, 2048, 1024, 2048, 4096);
    port.setup_period = 2048;
    port.ext.target_delay = 4096;
    assert_eq!(follower_servo(&mut port, 4096 + 512, 8), FillStep::Servo(1024));
    port.was_matching = true;
    port.servo.loop_cold = false;
    port.servo.bandwidth_cold = false;
    assert_eq!(follower_servo(&mut port, 4096 + 512, 8), FillStep::Servo(1024));
    assert!(!port.servo.loop_cold, "an engaged servo keeps its state");
}

#[test]
fn servo_error_is_clamped_to_half_a_period_or_256_frames() {
    let mut port = test_port(8192, 8192);
    port.was_matching = true;
    assert_eq!(follower_servo(&mut port, 8192 + 8000, 8), FillStep::Servo(8192));
    assert_eq!(follower_servo(&mut port, 8192 - 8000, 8), FillStep::Servo(-8192));
    assert_eq!(follower_servo(&mut port, 8192 + 8000, 64), FillStep::Servo(16000));
}

#[test]
fn same_device_level_correct_snaps_the_fill() {
    let mut port = test_port(4096, 2048);

    assert_eq!(level_correct(&port, 4096), FillStep::Keep);
    assert_eq!(level_correct(&port, 4096 + 2049), FillStep::Skip);
    assert_eq!(level_correct(&port, 1024), FillStep::Refill(4096 - 1024));

    port.ext.target_delay = 1024;
    port.ext.target_goal = 4096;
    assert_eq!(level_correct(&port, 1024), FillStep::Keep);
    assert_eq!(port.ext.target_delay, 1024);
}

#[test]
fn retune_recommits_in_place_without_splicing_silence() {
    let mut port = test_port(4096, 2048);
    port.ext.buffer_size = 16384;

    assert_eq!(
        retune_period(&mut port, true, request(4096), 4096, 0, false),
        RetuneOutcome::Unchanged
    );
    assert_eq!(port.setup_period, 2048);

    assert_eq!(
        retune_period(&mut port, true, request(4096), 4096, 0, false),
        RetuneOutcome::Retuned
    );
    assert_eq!(port.setup_period, 4096);
    assert_eq!(port.ext.target_delay, 0);
    assert_eq!(port.ext.target_goal, 5120);
    assert_eq!(port.ext.period_mismatch, 0);

    settle_target(&mut port, 4096, 8);
    assert_eq!(port.ext.target_delay, 5120);
}

#[test]
fn retune_target_stays_bounded_ahead_of_real_fill() {
    let mut port = test_port(4096, 4096);
    port.ext.target_goal = 16384;

    settle_target(&mut port, 4096, 8);
    assert_eq!(port.ext.target_delay, 5120);
    settle_target(&mut port, 4096, 8);
    assert_eq!(port.ext.target_delay, 5120);
    settle_target(&mut port, 4608, 8);
    assert_eq!(port.ext.target_delay, 5632);
}

#[test]
fn short_retune_write_keeps_its_seed_for_the_current_cycle() {
    let period = 4096;
    let fill = 8192;
    let write_now = 0;
    let seed = predicted_next_fill(fill, write_now, period);
    assert_eq!(seed, 4096);
    assert_eq!(retune_seed(12_288, fill, write_now, period), seed);
    assert_eq!(retune_seed(12_288, fill, 2048, period), 6144);
    assert_eq!(retune_seed(4096, fill, 4096, period), 4096);

    let premature = fill + period / 4;
    assert!(premature - seed > period);

    let mut port = test_port(fill, 2048);
    port.ext.buffer_size = 16384;
    assert_eq!(
        retune_period(&mut port, true, request(period), write_now, 0, false),
        RetuneOutcome::Unchanged
    );
    assert_eq!(
        retune_period(&mut port, true, request(period), write_now, 0, false),
        RetuneOutcome::Retuned
    );
}

#[test]
fn retune_preserves_capacity_for_real_audio() {
    let mut ring = Ring::new();
    let mut port = test_port(4096, 2048);
    port.ext.buffer_size = 16384;

    assert_eq!(
        retune_period(&mut port, true, request(4096), 4096, 0, false),
        RetuneOutcome::Unchanged
    );
    let capacity = ring.fill();
    ring.free(1024);
    assert_eq!(
        retune_period(&mut port, true, request(4096), 4096, 0, false),
        RetuneOutcome::Retuned
    );
    assert_eq!(port.setup_period, 4096);
    assert_eq!(ring.drain().len(), capacity - 1024);

    let data = pattern(2048, 3);
    let n = ring.write(&data);
    assert_eq!(n.bytes, 2048);
    assert_eq!(n.bytes % 8, 0);
    assert_eq!(ring.drain(), data);
}

#[test]
fn retune_requests_rebuild_when_the_suspend_is_refused() {
    let mut port = test_port(4096, 2048);

    assert_eq!(
        retune_period(&mut port, true, request(4096), 4096, 0, false),
        RetuneOutcome::Unchanged
    );
    assert_eq!(
        retune_period(&mut port, true, request(4096), 4096, 0, false),
        RetuneOutcome::Rebuild
    );
    assert_eq!(port.setup_period, 2048);
    assert!(port.ext.period_mismatch >= 2);
}

#[test]
fn accepted_suspend_clears_the_hold_and_the_events() {
    let mut port = test_port(4096, 2048);
    port.ext.xrun_timestamp = 9;
    port.was_matching = true;
    port.event_xruns_seen = 4;
    port.wake_threshold = 77;
    retune_period(&mut port, true, request(4096), 4096, 0, true);
    assert_eq!(
        retune_period(&mut port, true, request(4096), 4096, 0, true),
        RetuneOutcome::Retuned
    );
    assert_eq!(port.ext.xrun_timestamp, 0);
    assert_eq!(port.ext.period_mismatch, 0);
    assert!(!port.was_matching);
    assert_eq!((port.event_xruns_seen, port.wake_threshold), (0, 0));
    assert_eq!(port.setup_period, 2048);
}

#[test]
fn zero_period_is_never_committed() {
    let mut port = test_port(4096, 2048);
    assert!(!commit_geometry(&mut port, 65536, 0, 1024, 2048, 0));
    assert_eq!(port.setup_period, 2048);
    assert_eq!(port.ext.target_delay, 4096);
}

#[test]
fn request_covers_the_largest_negotiable_quantum() {
    let cap = buffer_capacity_limit(8, 48000);
    let req = buffer_request(4096, 16384, 8, 48000, 0, 2048, 4096, 4);
    assert!(req >= buffer_required(16384, desired_delay(16384, 4), 2048, 16384));
    assert!(req >= 65_536.min(cap));
    assert!(req <= cap);
}

#[test]
fn formulas_have_their_exact_values() {
    assert_eq!(desired_delay(16384, 10), 20480);
    assert_eq!(desired_delay(u32::MAX, 1024), u32::MAX);
    assert_eq!(rate_match_bytes(Some(1030), 8), 8240);
    assert_eq!(rate_match_bytes(None, 8), 0);
    assert_eq!(fill_floor(4096, 1024), 5120);
    assert_eq!(buffer_required(16384, 8192, 2048, 16384), 40960);
    assert_eq!(buffer_request(4096, 16384, 8, 48000, 0, 2048, 4096, 4), 65536);
    assert_eq!(buffer_request(65536, 65536, 8, 48000, 0, 2048, 65536, 4), 131072);
    assert_eq!(predicted_next_fill(u32::MAX, u32::MAX, 1), u32::MAX - 1);
}

#[test]
fn priming_commits_the_granted_geometry() {
    let mut port = test_port(0, 0);
    assert_eq!(prime_request(&port, request(4096), 16384, 0, 2048), None);
    port.config = Some(config());
    assert_eq!(prime_request(&port, request(0), 16384, 0, 2048), None);
    assert_eq!(prime_request(&port, request(4096), 16384, 0, 2048), Some(65536));

    let report = prime_playback(&mut port, request(4096), 65536, 1024, 2048);
    assert_eq!(port.setup_period, 4096);
    assert_eq!(port.setup_blocksize, 2048);
    assert_eq!(port.ext.buffer_size, 65536);
    assert_eq!(port.ext.target_delay, 4096 + 2048);
    assert_eq!(report.silence, 4096 + 2048);
    assert!(!report.delay_capped);
    assert!(!report.under_two_periods);
    assert_eq!(port.servo.geometry.unwrap().byte_rate, 384_000);

    let report = prime_playback(&mut port, request(4096), 8000, 1024, 0);
    assert!(report.under_two_periods);
    assert_eq!(report.silence, 4000);
}
