use oss_node::abi;
use oss_node::device::{IoStatus, ReadOutcome};
use oss_node::direction::Direction;
use oss_node::init::new_node_data;
use oss_node::port::{device_event_fill, DeviceEvent, Port, PortConfig};
use oss_node::rebuild::{queue_rebuild, RebuildWork, RebuildWorkSlot};
use oss_node::sink::geometry::buffer_capacity_limit;
use oss_node::source::geometry::{
    commit_geometry, fill_targets, prime_capture, prime_layout, retune_period, ring_request,
    ring_required, CaptureLayout, SourcePort, SourcePortExt,
};
use oss_node::source::read::{
    finish_overrun_recovery, finish_read, follower_servo, plan_read, recover_overrun,
};

fn config(format: u32, channels: u32) -> PortConfig {
    PortConfig { format, rate: 48000, channels, positions: vec![], flags: 0, stride: 8 }
}

fn test_port(period: u32, read_peak: u32) -> SourcePort {
    let mut ext = SourcePortExt::default();
    ext.read_peak = read_peak;
    let mut port = Port::new(ext);
    port.setup_period = period;
    port.setup_blocksize = 1024;
    port
}

// a capture queue that hands out what it holds; `None` is a lost device
fn bounded_read(
    queue: &mut Option<Vec<u8>>,
    port: &mut SourcePort,
    queued: u32,
    data: &mut [u8],
    stride: u32,
) -> u32 {
    let length = plan_read(port, queued, data.len() as u32, stride) as usize;
    let read = if length == 0 {
        ReadOutcome { bytes: 0, status: IoStatus::Progress }
    } else {
        match queue {
            Some(queue) => {
                let n = length.min(queue.len());
                data[..n].copy_from_slice(&queue[..n]);
                queue.drain(..n);
                ReadOutcome { bytes: n, status: IoStatus::Progress }
            }
            None => ReadOutcome { bytes: 0, status: IoStatus::Lost },
        }
    };
    finish_read(port, read, data)
}

fn overrun(port: &mut SourcePort, fill: Option<u32>, now: u64) {
    if recover_overrun(port, fill, now) {
        finish_overrun_recovery(port, false);
    }
}

#[test]
fn bounded_read_caps_catchup_and_pads_late_cycles() {
    let mut port = test_port(1024, 2048);
    let mut buf = vec![0xaau8; 8192];
    let s: Vec<u8> = (0..4096).map(|i| (i % 251) as u8 | 1).collect();
    let mut queue = Some(s.clone());

    let n = bounded_read(&mut queue, &mut port, 4096, &mut buf, 8);
    assert_eq!(n, 1024 + (4096 - 2048));
    assert_eq!(&buf[..n as usize], &s[..n as usize]);

    let n = bounded_read(&mut queue, &mut port, 0, &mut buf, 8);
    assert_eq!(n, 1024);
    assert!(buf[..1024].iter().all(|&b| b == 0));
}

#[test]
fn disconnected_capture_transport_queues_a_rebuild() {
    let mut port = test_port(1_024, 2_048);
    port.config = Some(config(abi::AUDIO_FORMAT_S16_LE, 4));
    let mut buffer = vec![0xaau8; 1_024];

    assert_eq!(bounded_read(&mut None, &mut port, 1_024, &mut buffer, 8), 1_024);
    assert!(port.device_eof);
    assert!(buffer.iter().all(|&byte| byte == 0));

    let mut data = new_node_data("/dev/dsp".to_string(), 0, 0u32, SourcePortExt::default());
    data.port = port;
    let mut slot: RebuildWorkSlot<u32> = RebuildWorkSlot::new();
    assert!(queue_rebuild(&mut data, &mut slot, 0));
    assert!(data.port.rebuild_pending);
    match slot.take() {
        Some(RebuildWork::Rebuild(request)) => {
            assert_eq!(request.path, "/dev/dsp");
            assert_eq!(request.config, config(abi::AUDIO_FORMAT_S16_LE, 4));
            assert!(!request.retried);
            assert!(request.retire_first.is_none());
        }
        _ => panic!("no rebuild was ordered"),
    }
    assert!(data.deferred_work.is_none());
}

#[test]
fn capture_kevent_uses_ready_bytes_without_rounding_to_frames() {
    let mut port = test_port(1024, 2048);
    port.device_event = Some(DeviceEvent {
        fd: 3,
        available_bytes: 1027,
        queued_frames: Some(128),
        xruns: 0,
        eof: false,
    });
    assert_eq!(device_event_fill(&port, false, Some(3)), Some(1027));
}

#[test]
fn bounded_read_uses_biased_u8_silence() {
    let mut port = test_port(16, 32);
    port.config = Some(config(abi::AUDIO_FORMAT_U8, 8));
    let mut buf = [0u8; 16];
    assert_eq!(bounded_read(&mut Some(vec![]), &mut port, 0, &mut buf, 8), 16);
    assert_eq!(buf, [0x80; 16]);
}

#[test]
fn reads_take_whole_frames_only() {
    let port = test_port(1024, 2048);
    assert_eq!(plan_read(&port, 1027, 8192, 8), 1024);
    assert_eq!(plan_read(&port, 7, 8192, 8), 0);
    assert_eq!(plan_read(&port, 4096, 1001, 8), 1000);
    let fresh = test_port(0, 0);
    assert_eq!(plan_read(&fresh, 4099, 8192, 8), 4096);
}

#[test]
fn fill_targets_track_arrival_granularity() {
    for period in [1024u32, 4096, 16384, 65536] {
        for blocksize in [512u32, 1024, 2047, 2048, 16384, 65536] {
            let (target, peak) = fill_targets(period, blocksize, 0);
            assert_eq!(target, period + blocksize / 2);
            assert_eq!(peak, target + blocksize / 2 + period / 2);

            let ring = ring_required(period, blocksize);
            let (target2, peak2) = fill_targets(period, blocksize, ring);
            assert_eq!(target2, target);
            assert!(
                peak2 >= target + blocksize,
                "catch-up band lost: peak {peak2} < target {target} + arrival {blocksize} (ring {ring})"
            );
            assert!(
                peak2 <= ring - blocksize,
                "undrainable: peak {peak2} past ring {ring} - arrival {blocksize}"
            );

            let (_, peak3) = fill_targets(period, blocksize, period);
            assert!(peak3 <= period.saturating_sub(blocksize));
        }
    }
}

#[test]
fn retune_recommits_in_place() {
    let mut port = test_port(1024, 0);
    port.ext.primed = true;
    port.ext.ring_size = 8192;

    assert!(!retune_period(&mut port, 2048, false));
    assert_eq!(port.setup_period, 1024);
    assert!(!retune_period(&mut port, 2048, false));
    assert_eq!(port.setup_period, 2048);
    assert_eq!(port.ext.target_fill, 2048 + 512);
    assert_eq!(port.ext.read_peak, 4096);
    assert!(port.ext.primed);
}

#[test]
fn tests_retune_requests_rebuild_when_the_suspend_is_refused() {
    let mut port = test_port(1024, 0);
    port.ext.primed = true;
    port.ext.ring_size = 1024;

    assert!(!retune_period(&mut port, 2048, false));
    assert!(retune_period(&mut port, 2048, false));
    assert!(port.ext.primed);
    assert_eq!(port.setup_period, 1024);
    assert!(port.ext.period_mismatch >= 2);
}

#[test]
fn accepted_suspend_primes_again_in_the_same_cycle() {
    let mut port = test_port(1024, 0);
    port.ext.primed = true;
    port.ext.ring_size = 1024;
    port.event_xruns_seen = 3;
    assert!(!retune_period(&mut port, 2048, true));
    assert!(!retune_period(&mut port, 2048, true));
    assert!(!port.ext.primed);
    assert_eq!(port.ext.period_mismatch, 0);
    assert_eq!(port.event_xruns_seen, 0);
}

#[test]
fn overruns_recover_only_when_the_ring_stays_pinned() {
    let mut port = test_port(1024, 0);
    port.ext.primed = true;
    port.ext.ring_size = 8192;

    overrun(&mut port, Some(8000), 0);
    overrun(&mut port, Some(8000), 0);
    assert_eq!(port.ext.pinned_cycles, 2);
    assert!(port.ext.primed);
    assert_eq!(port.pending_xrun, None, "ignored ticks deposit no event");

    overrun(&mut port, Some(100), 0);
    assert_eq!(port.ext.pinned_cycles, 0);
    assert!(port.ext.primed);

    for _ in 0..3 {
        overrun(&mut port, Some(8000), 0);
    }
    assert_eq!(port.ext.pinned_cycles, 0);
    assert!(!port.ext.primed);
    assert_eq!(port.pending_xrun.take(), Some(0));
}

#[test]
fn unknown_ring_counts_every_measured_overrun() {
    let mut port = test_port(1024, 0);
    overrun(&mut port, Some(0), 5_000);
    assert_eq!(port.ext.pinned_cycles, 1);
    overrun(&mut port, None, 5_000);
    assert_eq!(port.ext.pinned_cycles, 0);
}

#[test]
fn follower_servo_locks_in_band_and_relocks_on_snap() {
    let mut port = test_port(1024, 0);
    port.ext.target_fill = 2560;

    port.servo.loop_cold = false;
    assert_eq!(follower_servo(&mut port, 2560 + 1500, 8), None);
    assert!(port.servo.loop_cold);

    port.config = Some(config(abi::AUDIO_FORMAT_S32_LE, 2));
    commit_geometry(&mut port, 1024, 1024);
    port.ext.target_fill = 2560;
    // a slow device queues less: the error is positive, in half bytes
    assert_eq!(follower_servo(&mut port, 2560 - 512, 8), Some(1024));
    port.was_matching = true;
    port.servo.loop_cold = false;
    assert_eq!(follower_servo(&mut port, 2560 - 512, 8), Some(1024));
    assert!(!port.servo.loop_cold, "an engaged servo keeps its state");
}

#[test]
fn ring_request_floors_and_caps() {
    assert_eq!(ring_request(1024, 16384, 8, 48_000), 16384 * 4);
    assert_eq!(ring_request(32768, 16384, 8, 48_000), 32768 * 4);
    assert!(ring_request(64, 64, 8, 48_000) >= 65_536);
    assert_eq!(ring_request(65536, 65536, 8, 48_000), buffer_capacity_limit(8, 48_000));
}

#[test]
fn capture_fragment_never_exceeds_the_period() {
    assert_eq!(
        prime_layout(3000, 16384, 16384, 8, 48000),
        CaptureLayout { fragment: 2048, ring: 65536 }
    );
    assert_eq!(prime_layout(100, 16384, 16384, 8, 48000).fragment, 1024);
    assert_eq!(prime_layout(3000, 16384, 0, 8, 48000).fragment, 1024);
    assert_eq!(prime_layout(3000, 16384, 512, 8, 48000).fragment, 512);
}

#[test]
fn priming_reports_a_ring_that_is_too_small() {
    let mut port = test_port(0, 0);
    port.config = Some(config(abi::AUDIO_FORMAT_S16_LE, 4));
    port.ext.pinned_cycles = 2;
    assert!(!prime_capture(&mut port, 1024, 65536, 1024, 2048));
    assert!(port.ext.primed);
    assert_eq!(port.setup_blocksize, 2048);
    assert_eq!(port.ext.target_fill, 2048);
    assert_eq!(port.ext.pinned_cycles, 0);
    assert!(prime_capture(&mut port, 1024, 1024, 1024, 0));
    assert!(!prime_capture(&mut port, 1024, 0, 1024, 0));
}

#[test]
fn capture_wakes_at_the_fill_target() {
    let mut port = test_port(1024, 0);
    port.ext.target_fill = 2560;
    assert_eq!(<SourcePortExt as Direction>::wake_threshold(&port), 2560);
    port.ext.target_fill = 0;
    assert_eq!(<SourcePortExt as Direction>::wake_threshold(&port), 1024);
    port.setup_period = 0;
    assert_eq!(<SourcePortExt as Direction>::wake_threshold(&port), 1);
}
