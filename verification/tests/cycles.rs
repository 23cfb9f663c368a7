use oss_node::abi;
use oss_node::device::{DevicePhase, IoStatus, ReadOutcome, WriteOutcome};
use oss_node::port::{DeviceEvent, Port, PortConfig};
use oss_node::sink::cycle as playback;
use oss_node::sink::cycle::{
    DriverClock, Prelude, SinkAction, SinkInput, SinkOutcome, SinkReply,
};
use oss_node::sink::geometry::{SinkPort, SinkPortExt};
use oss_node::sink::write::{pending_write_offset, retain_partial_write};
use oss_node::source::cycle as capture;
use oss_node::source::cycle::{
    SourceAction, SourceData, SourceInput, SourceIo, SourceOutcome, SourceReply, NO_BUFFER,
};
use oss_node::source::geometry::{CaptureLayout, SourcePort, SourcePortExt};

fn config() -> PortConfig {
    PortConfig {
        format: abi::AUDIO_FORMAT_S16_LE,
        rate: 48000,
        channels: 4,
        positions: vec![],
        flags: 0,
        stride: 8,
    }
}

// 256 frames of 8 bytes: a period of 2048 bytes
fn clock() -> DriverClock {
    DriverClock { flags: 0, nsec: 1_000_000_000, target_duration: 256, target_rate: 48000 }
}

fn sink_input() -> SinkInput {
    SinkInput {
        fd: Some(3),
        phase: DevicePhase::Running,
        rebuilding: false,
        negotiated: true,
        status: abi::STATUS_HAVE_DATA,
        buffer_id: 7,
        input_size: Some(2048),
        clock: Some(clock()),
        following: false,
        same_clock: false,
        delay_eighths: 10,
        rate_match_size: None,
        max_period: 8192,
        fragment: 0,
        hw_quantum_ns: 0,
        now: 1_000_000_000,
    }
}

fn sink_port() -> SinkPort {
    let mut ext = SinkPortExt::default();
    ext.target_delay = 4096;
    ext.target_goal = 4096;
    ext.buffer_size = 65536;
    let mut port = Port::new(ext);
    port.config = Some(config());
    port.setup_period = 2048;
    port.setup_blocksize = 1024;
    port
}

fn wrote(bytes: usize) -> SinkReply {
    SinkReply::Written(WriteOutcome { bytes, status: IoStatus::Progress })
}

const ENDED: SinkReply = SinkReply::Ended { queue_reset: false };

// runs a cycle against scripted replies
fn play(port: &mut SinkPort, input: SinkInput, replies: &[SinkReply]) -> (Vec<SinkAction>, SinkOutcome) {
    let (mut cycle, mut action) = playback::begin(port, input);
    let mut actions = vec![];
    for &reply in replies {
        actions.push(action);
        action = playback::step(&mut cycle, port, reply);
    }
    match action {
        SinkAction::Done(outcome) => (actions, outcome),
        other => panic!("not done: {other:?} after {actions:?}"),
    }
}

fn write(prelude: Prelude, from: u32) -> SinkAction {
    SinkAction::Write { prelude, from }
}

fn released(outcome: SinkOutcome) -> bool {
    outcome.io_status == Some(abi::STATUS_NEED_DATA) && outcome.result == abi::STATUS_NEED_DATA
}

fn kept(outcome: SinkOutcome) -> bool {
    outcome.io_status.is_none() && outcome.result == abi::STATUS_OK
}

#[test]
fn freewheel_closes_an_abandoned_partial_frame() {
    let mut port = sink_port();
    port.ext.target_delay = 4096;
    assert_eq!(pending_write_offset(&mut port.ext, 7, 4096), 0);
    let first = WriteOutcome { bytes: 2046, status: IoStatus::Progress };
    assert!(retain_partial_write(&mut port.ext, 4096, first));
    assert_eq!(port.ext.pending_offset, 2046);

    let mut input = sink_input();
    input.clock = Some(DriverClock { flags: abi::CLOCK_FLAG_FREEWHEEL, ..clock() });
    // the open frame is closed, and that is all the device sees
    let (actions, outcome) = play(&mut port, input, &[ENDED]);
    assert_eq!(actions, [SinkAction::EndSequence]);
    assert_eq!(port.ext.pending_offset, 0);
    assert_eq!(port.ext.pending_buffer, None);
    assert_eq!(outcome.io_status, Some(abi::STATUS_NEED_DATA));
    assert_eq!(outcome.result, abi::STATUS_HAVE_DATA);
}

#[test]
fn a_steady_driver_cycle_writes_its_buffer() {
    let mut port = sink_port();
    let (actions, outcome) =
        play(&mut port, sink_input(), &[SinkReply::Xruns(0), wrote(2048), ENDED]);
    assert_eq!(
        actions,
        [SinkAction::ReadXruns, write(Prelude::Nothing, 0), SinkAction::EndSequence]
    );
    assert!(released(outcome));
    assert_eq!((outcome.dropped, outcome.rate_match), (0, Some(false)));
}

#[test]
fn a_stopped_channel_is_primed_before_the_write() {
    let mut port = sink_port();
    port.ext.resuming = true;
    let input = SinkInput { phase: DevicePhase::Setup, ..sink_input() };
    let granted = SinkReply::Granted { ring: 65536, blocksize: 1024 };
    let (actions, outcome) =
        play(&mut port, input, &[granted, SinkReply::Silenced, wrote(2048), ENDED]);
    // two periods and the delay of ten eighths fit the smallest ring
    assert_eq!(actions[0], SinkAction::SetBuffer { ring: 65536, fragment: 0 });
    // one period and a transfer is above ten eighths of a period
    assert_eq!(actions[1], SinkAction::WriteSilence(3072));
    assert_eq!(actions[2], write(Prelude::Nothing, 0));
    assert!(released(outcome));
    assert!(!port.ext.resuming);
    assert_eq!((port.setup_period, port.ext.buffer_size), (2048, 65536));
}

#[test]
fn an_unusable_position_is_never_primed() {
    let mut port = sink_port();
    let mut input = SinkInput { phase: DevicePhase::Setup, ..sink_input() };
    input.clock = Some(DriverClock { target_rate: 0, ..clock() });
    let (actions, outcome) = play(&mut port, input, &[ENDED]);
    assert_eq!(actions, [SinkAction::EndSequence]);
    assert!(released(outcome));
}

#[test]
fn cycles_that_are_not_ready_ask_for_data() {
    for input in [
        SinkInput { rebuilding: true, ..sink_input() },
        SinkInput { status: abi::STATUS_OK, ..sink_input() },
        SinkInput { input_size: None, ..sink_input() },
        SinkInput { input_size: Some(0), ..sink_input() },
        SinkInput { clock: None, ..sink_input() },
    ] {
        let (actions, outcome) = play(&mut sink_port(), input, &[ENDED]);
        assert_eq!(actions, [SinkAction::EndSequence]);
        assert!(released(outcome));
    }
    let unnegotiated = SinkInput { negotiated: false, ..sink_input() };
    assert!(kept(play(&mut sink_port(), unnegotiated, &[]).1));
    let mut port = sink_port();
    port.config = None;
    assert!(kept(play(&mut port, sink_input(), &[]).1));
}

#[test]
fn closed_and_unpausable_devices_are_rebuilt() {
    let closed = SinkInput { phase: DevicePhase::Closed, ..sink_input() };
    let (actions, outcome) = play(&mut sink_port(), closed, &[SinkReply::Queued(true), ENDED]);
    assert_eq!(actions, [SinkAction::QueueRebuild, SinkAction::EndSequence]);
    assert!(released(outcome));
    for (queued, still) in [(true, false), (false, true)] {
        let mut port = sink_port();
        port.ext.rebuild_after_start = true;
        let (_, outcome) = play(&mut port, sink_input(), &[SinkReply::Queued(queued), ENDED]);
        assert!(released(outcome));
        assert_eq!(port.ext.rebuild_after_start, still);
    }
}

#[test]
fn back_pressure_and_short_writes_keep_the_buffer() {
    let mut port = sink_port();
    let full = SinkReply::Written(WriteOutcome { bytes: 0, status: IoStatus::WouldBlock });
    let (_, outcome) = play(&mut port, sink_input(), &[SinkReply::Xruns(0), full]);
    assert!(kept(outcome));
    assert_eq!(port.ext.pending_offset, 0);

    let (_, outcome) = play(&mut port, sink_input(), &[SinkReply::Xruns(0), wrote(1500)]);
    assert!(kept(outcome));
    assert_eq!((port.ext.pending_buffer, port.ext.pending_offset), (Some(7), 1500));

    // the rest goes first, without a correction in between
    let input = SinkInput { following: true, ..sink_input() };
    let (actions, outcome) = play(&mut port, input, &[SinkReply::Xruns(0), wrote(548), ENDED]);
    assert_eq!(actions[1], write(Prelude::Nothing, 1500));
    assert!(released(outcome));
    assert_eq!(port.ext.pending_offset, 0);
}

#[test]
fn a_retained_tail_is_written_before_a_recovery() {
    let mut port = sink_port();
    let (_, outcome) = play(&mut port, sink_input(), &[SinkReply::Xruns(0), wrote(1024)]);
    assert!(kept(outcome));
    port.ext.xrun_timestamp = 1;
    // the clock is past the event, so that without the tail the hold would end here
    let input = SinkInput { following: true, ..sink_input() };
    let (actions, outcome) =
        play(&mut port, input, &[SinkReply::Xruns(0), wrote(1024), ENDED]);
    assert_eq!(actions[1], write(Prelude::Nothing, 1024));
    assert!(released(outcome));
    assert_eq!(port.ext.xrun_timestamp, 1, "the recovery is still to come");
}

#[test]
fn a_replaced_buffer_closes_the_prefix_of_the_old_one() {
    let mut port = sink_port();
    port.ext.pending_buffer = Some(6);
    port.ext.pending_offset = 100;
    let (actions, outcome) =
        play(&mut port, sink_input(), &[ENDED, SinkReply::Xruns(0), wrote(2048), ENDED]);
    assert_eq!(actions[0], SinkAction::EndSequence);
    assert_eq!(actions[2], write(Prelude::Nothing, 0));
    assert!(released(outcome));
}

#[test]
fn failed_writes_drop_the_rest() {
    let failed = SinkReply::Written(WriteOutcome { bytes: 48, status: IoStatus::Failed });
    let (_, outcome) = play(&mut sink_port(), sink_input(), &[SinkReply::Xruns(0), failed, ENDED]);
    assert!(released(outcome));
    assert_eq!(outcome.dropped, 2000);
}

#[test]
fn underruns_hold_the_buffer_until_the_clock_passes() {
    let mut port = sink_port();
    let (actions, outcome) = play(
        &mut port,
        sink_input(),
        &[SinkReply::Xruns(1), SinkReply::Fill(0), ENDED],
    );
    assert_eq!(
        actions,
        [SinkAction::ReadXruns, SinkAction::MeasureFill, SinkAction::EndSequence]
    );
    assert!(released(outcome));
    assert_eq!(port.ext.xrun_timestamp, 1_000_000_000);
    assert_eq!(port.pending_xrun, Some(1_000_000));

    let mut later = sink_input();
    later.clock = Some(DriverClock { nsec: 1_005_000_000, ..clock() });
    let (actions, outcome) = play(
        &mut port,
        later,
        &[SinkReply::Xruns(0), SinkReply::Fill(1000), wrote(2048), ENDED],
    );
    assert_eq!(actions[2], write(Prelude::Silence(3096), 0));
    assert!(released(outcome));
    assert_eq!(port.ext.xrun_timestamp, 0);
}

#[test]
fn counted_underruns_of_a_healthy_fill_are_ignored() {
    let mut port = sink_port();
    let (actions, _) = play(
        &mut port,
        sink_input(),
        &[SinkReply::Xruns(5), SinkReply::Fill(4096), wrote(2048), ENDED],
    );
    assert_eq!(actions[2], write(Prelude::Nothing, 0));
    assert_eq!(port.pending_xrun, None);
}

#[test]
fn followers_feed_their_servo_or_correct_their_level() {
    let foreign = SinkInput { following: true, ..sink_input() };
    let (actions, outcome) = play(
        &mut sink_port(),
        foreign,
        &[SinkReply::Xruns(0), SinkReply::Fill(4112), wrote(2048), ENDED],
    );
    assert_eq!(actions[2], write(Prelude::Servo(32), 0));
    assert_eq!(outcome.rate_match, Some(true));

    let own = SinkInput { following: true, same_clock: true, ..sink_input() };
    let (actions, outcome) = play(
        &mut sink_port(),
        own,
        &[SinkReply::Xruns(0), SinkReply::Fill(4112), wrote(2048), ENDED],
    );
    assert_eq!(actions[2], write(Prelude::Nothing, 0));
    assert_eq!(outcome.rate_match, Some(false));
    // an overfull queue drains while a buffer counts as written
    let (actions, outcome) = play(
        &mut sink_port(),
        own,
        &[SinkReply::Xruns(0), SinkReply::Fill(40_000), ENDED],
    );
    assert_eq!(actions[2], SinkAction::EndSequence);
    assert!(released(outcome));
    // an underfull one is filled with silence first
    let (actions, _) = play(
        &mut sink_port(),
        own,
        &[SinkReply::Xruns(0), SinkReply::Fill(0), wrote(2048), ENDED],
    );
    assert_eq!(actions[2], write(Prelude::Silence(4096), 0));
}

#[test]
fn resumed_queues_go_on_without_an_xrun() {
    let mut port = sink_port();
    port.ext.resuming = true;
    let (actions, outcome) = play(
        &mut port,
        sink_input(),
        &[SinkReply::Xruns(3), SinkReply::Fill(0), wrote(2048), ENDED],
    );
    assert_eq!(actions[2], write(Prelude::Silence(4096), 0));
    assert!(released(outcome));
    assert!(!port.ext.resuming);
    assert_eq!((port.pending_xrun, port.ext.xrun_timestamp), (None, 0));

    let mut port = sink_port();
    port.ext.resuming = true;
    let (actions, _) = play(
        &mut port,
        sink_input(),
        &[SinkReply::Xruns(0), SinkReply::Fill(3000), wrote(2048), ENDED],
    );
    assert_eq!(actions[2], write(Prelude::Nothing, 0));
}

#[test]
fn events_answer_what_would_be_measured() {
    let mut port = sink_port();
    port.device_event = Some(DeviceEvent {
        fd: 3,
        available_bytes: 0,
        queued_frames: Some(514),
        xruns: 0,
        eof: false,
    });
    let foreign = SinkInput { following: true, ..sink_input() };
    let (actions, _) = play(&mut port, foreign, &[wrote(2048), ENDED]);
    assert_eq!(actions, [write(Prelude::Servo(32), 0), SinkAction::EndSequence]);
}

// a period of 4096 bytes, twice the committed one
fn longer() -> SinkInput {
    let mut input = SinkInput { input_size: Some(4096), ..sink_input() };
    input.clock = Some(DriverClock { target_duration: 512, ..clock() });
    input
}

#[test]
fn the_second_longer_period_retunes_in_place() {
    let mut port = sink_port();
    play(&mut port, longer(), &[SinkReply::Xruns(0), wrote(4096), ENDED]);
    assert_eq!((port.setup_period, port.ext.period_mismatch), (2048, 1));
    let (actions, outcome) = play(
        &mut port,
        longer(),
        &[SinkReply::Fill(4096), SinkReply::Xruns(0), wrote(4096), ENDED],
    );
    assert_eq!(
        actions,
        [
            SinkAction::MeasureFill,
            SinkAction::ReadXruns,
            write(Prelude::Nothing, 0),
            SinkAction::EndSequence
        ]
    );
    assert!(released(outcome));
    assert_eq!((port.setup_period, port.ext.period_mismatch), (4096, 0));
    assert_eq!(port.ext.target_delay, 4096, "what the queue will hold");
}

#[test]
fn a_ring_too_small_is_stopped_or_rebuilt() {
    let small = || {
        let mut port = sink_port();
        port.ext.buffer_size = 8192;
        port.ext.period_mismatch = 1;
        port
    };
    let granted = SinkReply::Granted { ring: 65536, blocksize: 1024 };
    let mut port = small();
    let (actions, outcome) = play(
        &mut port,
        longer(),
        &[SinkReply::Stopped(true), granted, SinkReply::Silenced, wrote(4096), ENDED],
    );
    assert_eq!(actions[0], SinkAction::Stop);
    assert!(matches!(actions[1], SinkAction::SetBuffer { .. }));
    assert!(released(outcome));
    assert_eq!(port.setup_period, 4096);

    let mut port = small();
    port.was_matching = true;
    let (actions, outcome) = play(
        &mut port,
        longer(),
        &[SinkReply::Stopped(false), SinkReply::Queued(true), ENDED],
    );
    assert_eq!(actions[1], SinkAction::QueueRebuild);
    assert!(released(outcome));
    assert!(!port.was_matching);

    // nobody to rebuild it: go on at the old geometry
    let mut port = small();
    let (actions, _) = play(
        &mut port,
        longer(),
        &[
            SinkReply::Stopped(false),
            SinkReply::Queued(false),
            SinkReply::Xruns(0),
            wrote(4096),
            ENDED,
        ],
    );
    assert_eq!(actions[3], write(Prelude::Nothing, 0));
    assert_eq!(port.setup_period, 2048);
}

fn source_input() -> SourceInput {
    SourceInput {
        fd: Some(3),
        phase: DevicePhase::Running,
        rebuilding: false,
        negotiated: true,
        status: abi::STATUS_NEED_DATA,
        buffer_id: 5,
        clock: Some(clock()),
        following: false,
        same_clock: false,
        max_period: 8192,
        fragment: 0,
        hw_quantum_ns: 0,
        now: 9_000,
    }
}

fn source_port() -> SourcePort {
    let mut ext = SourcePortExt::default();
    ext.primed = true;
    ext.target_fill = 2560;
    ext.read_peak = 4096;
    ext.ring_size = 65536;
    let mut port = Port::new(ext);
    port.config = Some(config());
    port.setup_period = 2048;
    port.setup_blocksize = 1024;
    port
}

fn read(bytes: usize) -> SourceReply {
    SourceReply::Read(ReadOutcome { bytes, status: IoStatus::Progress })
}

fn record(
    port: &mut SourcePort,
    input: SourceInput,
    replies: &[SourceReply],
) -> (Vec<SourceAction>, SourceOutcome) {
    let (mut cycle, mut action) = capture::begin(port, input);
    let mut actions = vec![];
    for &reply in replies {
        actions.push(action);
        action = capture::step(&mut cycle, port, reply);
    }
    match action {
        SourceAction::Done(outcome) => (actions, outcome),
        other => panic!("not done: {other:?} after {actions:?}"),
    }
}

const MAPPED: SourceReply = SourceReply::Mapped(Some(16384));

fn data(length: u32, silence_from: u32) -> Option<SourceData> {
    Some(SourceData { length, silence_from })
}

#[test]
fn a_steady_capture_cycle_reads_a_period() {
    let mut port = source_port();
    let (actions, outcome) = record(
        &mut port,
        source_input(),
        &[MAPPED, SourceReply::Fill(2560), read(2048), SourceReply::Xruns(0)],
    );
    assert_eq!(
        actions,
        [
            SourceAction::MapBuffer(5),
            SourceAction::MeasureFill,
            SourceAction::Read(2048),
            SourceAction::ReadXruns
        ]
    );
    assert_eq!(outcome.data, data(2048, 2048));
    assert_eq!(
        outcome.io,
        Some(SourceIo { buffer_id: 5, status: abi::STATUS_HAVE_DATA })
    );
    assert_eq!((outcome.result, outcome.rate_match), (abi::STATUS_HAVE_DATA, Some(false)));
}

#[test]
fn late_captures_are_padded_and_early_ones_catch_up() {
    let (_, outcome) = record(
        &mut source_port(),
        source_input(),
        &[MAPPED, SourceReply::Fill(1000), read(1000), SourceReply::Xruns(0)],
    );
    assert_eq!(outcome.data, data(2048, 1000));
    let (actions, outcome) = record(
        &mut source_port(),
        source_input(),
        &[MAPPED, SourceReply::Fill(0), SourceReply::Xruns(0)],
    );
    assert_eq!(actions[2], SourceAction::ReadXruns, "an empty queue is not read");
    assert_eq!(outcome.data, data(2048, 0));
    let (actions, _) = record(
        &mut source_port(),
        source_input(),
        &[MAPPED, SourceReply::Fill(6096), read(4048), SourceReply::Xruns(0)],
    );
    assert_eq!(actions[2], SourceAction::Read(2048 + 2000));
}

#[test]
fn unused_buffers_are_handed_out_in_order() {
    let mut port = source_port();
    let fresh = SourceInput { buffer_id: NO_BUFFER, ..source_input() };
    for id in [0, 1] {
        let (actions, outcome) = record(&mut port, fresh, &[SourceReply::Mapped(None)]);
        assert_eq!(actions, [SourceAction::MapBuffer(id)]);
        assert_eq!((outcome.io, outcome.result), (None, abi::STATUS_OK));
    }
}

#[test]
fn captures_that_are_not_ready_leave_the_exchange_area() {
    for (input, result) in [
        (SourceInput { rebuilding: true, ..source_input() }, abi::STATUS_OK),
        (SourceInput { negotiated: false, ..source_input() }, abi::STATUS_OK),
        (SourceInput { status: -5, ..source_input() }, abi::STATUS_OK),
        (
            SourceInput { status: abi::STATUS_HAVE_DATA, ..source_input() },
            abi::STATUS_HAVE_DATA,
        ),
    ] {
        let (actions, outcome) = record(&mut source_port(), input, &[]);
        assert!(actions.is_empty());
        assert_eq!((outcome.io, outcome.result), (None, result));
    }
    let closed = SourceInput { phase: DevicePhase::Closed, ..source_input() };
    let (actions, outcome) = record(&mut source_port(), closed, &[SourceReply::Queued(true)]);
    assert_eq!(actions, [SourceAction::QueueRebuild]);
    assert_eq!(outcome.io, None);
}

#[test]
fn priming_sets_the_layout_drains_the_backlog_and_hands_out_silence() {
    let mut port = source_port();
    port.ext.primed = false;
    port.ext.ring_size = 0;
    let setup = SourceInput { phase: DevicePhase::Setup, ..source_input() };
    let triggered = SourceReply::Triggered {
        running: true,
        ready: true,
        queued: 20_004,
        fragment: 1024,
        ring: 65536,
    };
    let (actions, outcome) = record(
        &mut port,
        setup,
        &[
            MAPPED,
            SourceReply::LayoutSet,
            triggered,
            read(16384),
            read(3616),
            SourceReply::Xruns(0),
        ],
    );
    assert!(matches!(actions[1], SourceAction::SetLayout(CaptureLayout { ring: 65536, .. })));
    assert_eq!(actions[2], SourceAction::Trigger);
    assert_eq!(actions[3], SourceAction::Read(16384));
    assert_eq!(actions[4], SourceAction::Read(3616), "whole frames only");
    assert_eq!(outcome.data, data(2048, 0));
    assert!(port.ext.primed);
    assert_eq!((port.setup_period, port.ext.ring_size), (2048, 65536));
    assert_eq!(port.ext.target_fill, 2560);
}

#[test]
fn a_channel_without_a_period_gives_nothing() {
    let mut port = source_port();
    port.ext.primed = false;
    let idle =
        SourceInput { phase: DevicePhase::Setup, clock: None, ..source_input() };
    let (_, outcome) = record(&mut port, idle, &[MAPPED]);
    assert_eq!(outcome.data, None);
    assert_eq!(outcome.io, Some(SourceIo { buffer_id: 5, status: abi::STATUS_OK }));
    assert_eq!((outcome.result, outcome.rate_match), (abi::STATUS_OK, None));
}

#[test]
fn freewheeling_hands_out_silence_and_primes_again_afterwards() {
    let mut port = source_port();
    let mut free = source_input();
    free.clock = Some(DriverClock { flags: abi::CLOCK_FLAG_FREEWHEEL, ..clock() });
    let (actions, outcome) = record(&mut port, free, &[MAPPED]);
    assert_eq!(actions, [SourceAction::MapBuffer(5)]);
    assert_eq!(outcome.data, data(2048, 0));
    assert!(port.ext.primed && port.ext.was_freewheeling);

    let triggered = SourceReply::Triggered {
        running: true,
        ready: false,
        queued: 9,
        fragment: 1024,
        ring: 65536,
    };
    let (actions, _) =
        record(&mut port, source_input(), &[MAPPED, triggered, SourceReply::Xruns(0)]);
    assert_eq!(actions[1], SourceAction::Trigger);
}

#[test]
fn matching_captures_feed_their_servo() {
    let foreign = SourceInput { following: true, ..source_input() };
    let (actions, outcome) = record(
        &mut source_port(),
        foreign,
        &[MAPPED, SourceReply::Fill(2544), SourceReply::Fed, read(2048), SourceReply::Xruns(0)],
    );
    assert_eq!(actions[2], SourceAction::FeedServo(32));
    assert_eq!(outcome.rate_match, Some(true));
}

#[test]
fn only_a_ring_that_stays_pinned_is_recovered() {
    let mut port = source_port();
    let pinned = [
        MAPPED,
        SourceReply::Fill(65000),
        read(16384),
        SourceReply::Xruns(1),
    ];
    for cycles in [1, 2] {
        record(&mut port, source_input(), &pinned);
        assert_eq!(port.ext.pinned_cycles, cycles);
    }
    let (mut cycle, _) = capture::begin(&mut port, source_input());
    let mut action = SourceAction::Trigger;
    for reply in pinned {
        action = capture::step(&mut cycle, &mut port, reply);
    }
    assert_eq!(action, SourceAction::Stop);
    let action = capture::step(&mut cycle, &mut port, SourceReply::Stopped(true));
    assert!(matches!(action, SourceAction::Done(_)));
    assert!(!port.ext.primed);
    assert_eq!(port.pending_xrun, Some(9));

    let mut port = source_port();
    port.ext.pinned_cycles = 2;
    let healthy = [MAPPED, SourceReply::Fill(2560), read(2048), SourceReply::Xruns(1)];
    record(&mut port, source_input(), &healthy);
    assert_eq!(port.ext.pinned_cycles, 0);
}

#[test]
fn captures_with_too_small_a_ring_are_stopped_or_rebuilt() {
    let small = || {
        let mut port = source_port();
        port.ext.ring_size = 4096;
        port.ext.period_mismatch = 1;
        port
    };
    let mut longer = source_input();
    longer.clock = Some(DriverClock { target_duration: 512, ..clock() });
    let (actions, outcome) = record(
        &mut small(),
        longer,
        &[MAPPED, SourceReply::Stopped(false), SourceReply::Queued(true)],
    );
    assert_eq!(actions[1..], [SourceAction::Stop, SourceAction::QueueRebuild]);
    assert_eq!((outcome.io, outcome.result), (None, abi::STATUS_OK));

    let triggered = SourceReply::Triggered {
        running: true,
        ready: true,
        queued: 0,
        fragment: 1024,
        ring: 65536,
    };
    let mut port = small();
    let (actions, _) = record(
        &mut port,
        longer,
        &[
            MAPPED,
            SourceReply::Stopped(true),
            SourceReply::LayoutSet,
            triggered,
            SourceReply::Xruns(0),
        ],
    );
    assert!(matches!(actions[2], SourceAction::SetLayout(_)));
    assert_eq!(port.setup_period, 4096);
}

#[test]
fn a_lost_capture_device_is_noted() {
    let mut port = source_port();
    let lost = SourceReply::Read(ReadOutcome { bytes: 0, status: IoStatus::Lost });
    let (_, outcome) = record(
        &mut port,
        source_input(),
        &[MAPPED, SourceReply::Fill(2560), lost, SourceReply::Xruns(0)],
    );
    assert_eq!(outcome.data, data(2048, 0));
    assert!(port.device_eof);
}
