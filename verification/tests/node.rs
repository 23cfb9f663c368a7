use oss_node::abi;
use oss_node::backend::{
    fallback_caps, ConversionKind, ProbedCaps, StreamCaps, StreamConfiguration,
};
use oss_node::block::{valid_data_block, BlockRange, Chunk, HostBuffer, HostData};
use oss_node::control::{
    apply_io_change, command_result, decode_command, io_area_ok, node_is_follower, spa_command_to_str,
    HandoffResult, IoAreaKind, NodeCommand,
};
use oss_node::direction::{
    begin_queue_pause, begin_resume, on_role_flip, sink_pause, sink_start, sink_start_resumes,
    source_start, step_queue_pause, step_resume, Direction, PauseStep, ResumeOutcome, ResumeStep,
};
use oss_node::errno::Errno;
use oss_node::format::RawFormat;
use oss_node::init::{
    initial_tunables, new_node_data, parse_init_dict, required_path, InitItem, InitProps,
};
use oss_node::params::{
    apply_node_param, build_node_param, decode_node_param, handle_process_latency,
    normalize_fragment, parse_props_update, step_node_param, LatencyChange, NodeParamRequest,
    ParamAction, ParamBuild, ParamItem, ParamPayload, PropEntry, PropValue, PropsUpdate, Tunables,
};
use oss_node::port::{Port, PortConfig};
use oss_node::ports::{
    build_port_format_info, check_port, decode_format, decode_latency_request, decode_port_param,
    format_result, parse_config, plan_format, port_enum_params, use_buffers_ok, wants_reprobe,
    LatencyRequest, LatencyValue, MediaKind, Negotiated, PortParam, PortParamKind,
    RequestedFormat,
};
use oss_node::process::{
    begin_process, check_loop_identity, finish_process, note_owner, NO_THREAD,
};
use oss_node::rebuild::{MainEvent, OpenError};
use oss_node::sink::geometry::SinkPortExt;
use oss_node::source::geometry::SourcePortExt;
use oss_node::text::{clock_name, decimal_text, latency_fraction, parse_u32};
use oss_node::timing::{
    device_period_bytes, ns_to_bytes, ns_to_frame_bytes, rearm_after_ready, servo_measures,
    timeout_cycle, timeout_servo, timer_value, update_timers, ServoPlan, TimerPlan, TimerValue,
    WakeInput, WakePlan,
};

fn check_normalize_fragment() {
    assert_eq!(normalize_fragment(0), 0);
    assert_eq!(normalize_fragment(1), 64);
    assert_eq!(normalize_fragment(63), 64);
    assert_eq!(normalize_fragment(64), 64);
    assert_eq!(normalize_fragment(65), 64);
    assert_eq!(normalize_fragment(1000), 512);
    assert_eq!(normalize_fragment(4096), 4096);
    assert_eq!(normalize_fragment(16384), 16384);
    assert_eq!(normalize_fragment(30000), 16384);
    assert_eq!(normalize_fragment(1 << 31), 16384);
    assert_eq!(normalize_fragment(u32::MAX), 16384);
}

#[test]
fn node_normalize_fragment_rounds_down_and_clamps() {
    check_normalize_fragment();
}

#[test]
fn tests_normalize_fragment_rounds_down_and_clamps() {
    check_normalize_fragment();
}

fn entry(key: u32, value: PropValue) -> PropEntry {
    PropEntry { key, value }
}

fn text(s: &str) -> ParamItem {
    ParamItem::Text(s.to_string())
}

fn check_props_update() {
    let params = PropValue::Struct(vec![
        text("oss.delay"),
        ParamItem::Int(8),
        text("oss.fragment"),
        ParamItem::Int(4096),
        text("bogus.key"),
        ParamItem::Int(1),
    ]);
    let update = parse_props_update(&vec![
        entry(abi::PROP_VOLUME, PropValue::Other),
        entry(abi::PROP_LATENCY_OFFSET_NSEC, PropValue::Long(250_000)),
        entry(abi::PROP_PARAMS, params),
        entry(0x77777, PropValue::Other),
    ]);
    assert_eq!(
        update,
        PropsUpdate {
            latency_offset_ns: Some(250_000),
            oss_delay: Some(8),
            oss_fragment: Some(4096),
        }
    );

    let update = parse_props_update(&vec![
        entry(abi::PROP_LATENCY_OFFSET_NSEC, PropValue::Other),
        entry(
            abi::PROP_PARAMS,
            PropValue::Struct(vec![text("oss.delay"), ParamItem::Int(-1)]),
        ),
    ]);
    assert_eq!(update, PropsUpdate::default());
    let update = parse_props_update(&vec![entry(
        abi::PROP_PARAMS,
        PropValue::Struct(vec![text("oss.delay")]),
    )]);
    assert_eq!(update, PropsUpdate::default());
}

#[test]
fn node_props_update_parses_known_keys_and_drops_the_rest() {
    check_props_update();
}

#[test]
fn params_props_update_parses_known_keys_and_drops_the_rest() {
    check_props_update();
}

#[test]
fn tests_props_update_parses_known_keys_and_drops_the_rest() {
    check_props_update();
}

#[test]
fn parameter_requests_are_told_apart() {
    let props = |type_| ParamPayload::Object { type_, properties: vec![] };
    assert_eq!(
        decode_node_param(abi::PARAM_PROPS, &ParamPayload::Absent),
        Ok(NodeParamRequest::ResetProps)
    );
    assert_eq!(
        decode_node_param(abi::PARAM_PROPS, &props(abi::OBJECT_PROPS)),
        Ok(NodeParamRequest::Props(PropsUpdate::default()))
    );
    assert_eq!(
        decode_node_param(abi::PARAM_PROPS, &props(abi::OBJECT_FORMAT)),
        Err(Errno::Invalid)
    );
    assert_eq!(
        decode_node_param(abi::PARAM_PROPS, &ParamPayload::Unreadable),
        Err(Errno::Invalid)
    );
    assert_eq!(
        decode_node_param(abi::PARAM_PROCESS_LATENCY, &ParamPayload::ProcessLatency),
        Ok(NodeParamRequest::ProcessLatency)
    );
    assert_eq!(
        decode_node_param(abi::PARAM_PROCESS_LATENCY, &ParamPayload::Absent),
        Ok(NodeParamRequest::ResetProcessLatency)
    );
    assert_eq!(
        decode_node_param(abi::PARAM_FORMAT, &ParamPayload::Absent),
        Err(Errno::NoEntry)
    );
}

fn tunables() -> Tunables {
    Tunables {
        playback: true,
        oss_delay: 20,
        oss_delay_default: 10,
        oss_fragment: 512,
        oss_fragment_default: 0,
    }
}

fn props(delay: u32, fragment: u32) -> NodeParamRequest {
    NodeParamRequest::Props(PropsUpdate {
        latency_offset_ns: Some(7),
        oss_delay: Some(delay),
        oss_fragment: Some(fragment),
    })
}

#[test]
fn properties_are_applied_in_turn() {
    let mut t = tunables();
    let (stage, action) = apply_node_param(&mut t, props(5000, 1000));
    assert_eq!(action, ParamAction::SetLatencyOffset(7));
    let (stage, action) = step_node_param(stage, &mut t, Ok(()));
    assert_eq!(t.oss_delay, 1024, "the delay is capped");
    assert_eq!(action, ParamAction::Store { tunables: t, announce: true });
    // the fragment that stands already is not stored again
    let (_, action) = step_node_param(stage, &mut t, Ok(()));
    assert_eq!(action, ParamAction::Done(Ok(())));
    assert_eq!(t.oss_fragment, 512);

    let (stage, _) = apply_node_param(&mut t, props(1024, 2048));
    let (stage, action) = step_node_param(stage, &mut t, Ok(()));
    assert_eq!(action, ParamAction::Store { tunables: t, announce: true });
    assert_eq!(t.oss_fragment, 2048);
    let (_, action) = step_node_param(stage, &mut t, Err(Errno::Io));
    assert_eq!(action, ParamAction::Done(Err(Errno::Io)));
    assert_eq!(t.oss_fragment, 512, "a failed store is undone");
}

#[test]
fn capture_has_no_delay_setting() {
    let mut t = Tunables { playback: false, ..tunables() };
    let (stage, _) = apply_node_param(&mut t, props(99, 512));
    let (_, action) = step_node_param(stage, &mut t, Ok(()));
    assert_eq!(action, ParamAction::Done(Ok(())));
    assert_eq!(t.oss_delay, 20);
}

#[test]
fn reset_goes_back_to_the_defaults_or_changes_nothing() {
    let mut t = tunables();
    let (stage, action) = apply_node_param(&mut t, NodeParamRequest::ResetProps);
    assert_eq!((t.oss_delay, t.oss_fragment), (10, 0));
    assert_eq!(action, ParamAction::Store { tunables: t, announce: false });
    let mut failed = t;
    let (_, action) = step_node_param(stage, &mut failed, Err(Errno::Busy));
    assert_eq!(action, ParamAction::Done(Err(Errno::Busy)));
    assert_eq!(failed, tunables());
    let (stage, action) = step_node_param(stage, &mut t, Ok(()));
    assert_eq!(action, ParamAction::ResetProcessLatency);
    let (stage, action) = step_node_param(stage, &mut t, Ok(()));
    assert_eq!(action, ParamAction::AnnounceProps);
    let (_, action) = step_node_param(stage, &mut t, Ok(()));
    assert_eq!(action, ParamAction::Done(Ok(())));
    let (stage, action) = apply_node_param(&mut t, NodeParamRequest::ProcessLatency);
    assert_eq!(action, ParamAction::SetProcessLatency);
    assert_eq!(step_node_param(stage, &mut t, Ok(())).1, ParamAction::Done(Ok(())));
}

#[test]
fn process_latency_changes_are_weighed() {
    assert_eq!(handle_process_latency(5, 5, true), LatencyChange::Unchanged);
    assert_eq!(handle_process_latency(5, 5, false), LatencyChange::Changed);
    assert_eq!(handle_process_latency(5, 6, true), LatencyChange::OffsetChanged);
}

#[test]
fn node_parameters_enumerate_to_their_end() {
    let t = tunables();
    let info = |index| build_node_param(&t, abi::PARAM_PROP_INFO, index);
    assert_eq!(info(0), ParamBuild::LatencyOffsetInfo);
    assert_eq!(info(1), ParamBuild::DelayInfo(20));
    assert_eq!(info(2), ParamBuild::FragmentInfo(512));
    assert_eq!(info(3), ParamBuild::Exhausted);
    let capture = Tunables { playback: false, ..t };
    assert_eq!(
        build_node_param(&capture, abi::PARAM_PROP_INFO, 1),
        ParamBuild::FragmentInfo(512)
    );
    assert_eq!(build_node_param(&capture, abi::PARAM_PROP_INFO, 2), ParamBuild::Exhausted);
    assert_eq!(
        build_node_param(&t, abi::PARAM_PROPS, 0),
        ParamBuild::Props { oss_delay: Some(20), oss_fragment: 512 }
    );
    assert_eq!(
        build_node_param(&capture, abi::PARAM_PROPS, 0),
        ParamBuild::Props { oss_delay: None, oss_fragment: 512 }
    );
    assert_eq!(
        build_node_param(&t, abi::PARAM_PROCESS_LATENCY, 0),
        ParamBuild::ProcessLatency
    );
    assert_eq!(build_node_param(&t, abi::PARAM_PROCESS_LATENCY, 1), ParamBuild::Exhausted);
    assert_eq!(build_node_param(&t, abi::PARAM_FORMAT, 0), ParamBuild::Unknown);
}

fn check_latency_requests() {
    let dir = |d, v| decode_latency_request(d, v).map(|r: LatencyRequest| r.direction);
    let (input, output) = (abi::DIRECTION_INPUT, abi::DIRECTION_OUTPUT);
    assert_eq!(dir(input, LatencyValue::Absent), Ok(output));
    assert_eq!(dir(output, LatencyValue::Absent), Ok(input));
    let value = LatencyValue::Of { direction: output };
    assert_eq!(dir(input, value), Ok(output));
    assert_eq!(dir(output, value), Err(Errno::Invalid));
    assert_eq!(dir(input, LatencyValue::Unreadable), Err(Errno::Invalid));
    assert!(decode_latency_request(input, LatencyValue::Absent).unwrap().reset);
    assert!(!decode_latency_request(input, value).unwrap().reset);
}

#[test]
fn node_latency_requests_decode_direction_gated() {
    check_latency_requests();
}

#[test]
fn ports_latency_requests_decode_direction_gated() {
    check_latency_requests();
}

#[test]
fn tests_latency_requests_decode_direction_gated() {
    check_latency_requests();
}

fn config() -> PortConfig {
    PortConfig {
        format: abi::AUDIO_FORMAT_S16_LE,
        rate: 48000,
        channels: 2,
        positions: vec![abi::CHANNEL_FL, abi::CHANNEL_FR],
        flags: 0,
        stride: 4,
    }
}

const RAW_AUDIO: Option<MediaKind> = Some(MediaKind {
    media_type: abi::MEDIA_TYPE_AUDIO,
    media_subtype: abi::MEDIA_SUBTYPE_RAW,
});

fn check_decode_format() {
    let raw = build_port_format_info(&config());
    let requested =
        decode_format(RAW_AUDIO, Some(raw)).expect("our own Format object must decode");
    assert_eq!(requested.raw.format, abi::AUDIO_FORMAT_S16_LE);
    assert_eq!(requested.raw.rate, 48000);
    assert_eq!(requested.raw.channels, 2);
    assert_eq!(&requested.raw.position[..2], &[abi::CHANNEL_FL, abi::CHANNEL_FR]);

    let zero_rate = PortConfig { rate: 0, ..config() };
    let raw = build_port_format_info(&zero_rate);
    assert_eq!(
        decode_format(RAW_AUDIO, Some(raw)).err().expect("rate 0 must be rejected"),
        Errno::Invalid
    );
}

#[test]
fn node_decode_format_roundtrips_and_rejects_degenerate_values() {
    check_decode_format();
}

#[test]
fn ports_decode_format_roundtrips_and_rejects_degenerate_values() {
    check_decode_format();
}

#[test]
fn tests_decode_format_roundtrips_and_rejects_degenerate_values() {
    check_decode_format();
}

#[test]
fn formats_without_audio_or_width_are_refused() {
    let raw = || Some(build_port_format_info(&config()));
    let video = Some(MediaKind { media_type: 2, media_subtype: abi::MEDIA_SUBTYPE_RAW });
    assert_eq!(decode_format(video, raw()).err(), Some(Errno::NoEntry));
    assert_eq!(decode_format(None, raw()).err(), Some(Errno::Invalid));
    assert_eq!(decode_format(RAW_AUDIO, None).err(), Some(Errno::Invalid));
    for channels in [0, 65] {
        let wide = PortConfig { channels, ..config() };
        assert_eq!(
            decode_format(RAW_AUDIO, Some(build_port_format_info(&wide))).err(),
            Some(Errno::Invalid)
        );
    }
}

fn raw(format: u32, position: &[u32]) -> RawFormat {
    let mut slots = vec![0; 64];
    slots[..position.len()].copy_from_slice(position);
    RawFormat {
        format,
        flags: 0,
        rate: 48000,
        channels: position.len() as u32,
        position: slots,
    }
}

#[test]
fn configurations_need_a_known_format_and_map() {
    let stereo = [abi::CHANNEL_FL, abi::CHANNEL_FR];
    let swapped = [abi::CHANNEL_FR, abi::CHANNEL_FL];
    let ok = raw(abi::AUDIO_FORMAT_S24_LE, &stereo);
    assert_eq!(
        parse_config(true, &ok),
        Ok(PortConfig { format: abi::AUDIO_FORMAT_S24_LE, stride: 6, ..config() })
    );
    assert_eq!(parse_config(false, &raw(1, &stereo)).err(), Some(Errno::NotSupported));
    // a reordering needs a device that can reorder
    let reordered = raw(abi::AUDIO_FORMAT_S16_LE, &swapped);
    assert!(parse_config(false, &reordered).is_ok());
    assert_eq!(parse_config(true, &reordered).err(), Some(Errno::Invalid));
    let twice = raw(abi::AUDIO_FORMAT_S16_LE, &[abi::CHANNEL_FL, abi::CHANNEL_FL]);
    assert_eq!(parse_config(false, &twice).err(), Some(Errno::Invalid));
}

fn s16_caps() -> StreamCaps {
    StreamCaps {
        configurations: vec![StreamConfiguration {
            formats: vec![abi::AUDIO_FORMAT_S16_LE],
            min_channels: 1,
            max_channels: 2,
            min_rate: 8000,
            max_rate: 96000,
            preferred_rate: None,
            rates: vec![],
            rate_tolerance: 50,
        }],
        preferred: 0,
        conversion: ConversionKind::Unavailable,
    }
}

#[test]
fn nearest_requests_are_snapped_and_others_refused() {
    let stereo = [abi::CHANNEL_FL, abi::CHANNEL_FR];
    let asked = || RequestedFormat { raw: raw(abi::AUDIO_FORMAT_F32_LE, &stereo) };
    assert_eq!(plan_format(&s16_caps(), 0, asked()).err(), Some(Errno::Invalid));
    let plan = plan_format(&s16_caps(), abi::PARAM_FLAG_NEAREST, asked()).ok().unwrap();
    assert!(plan.snapped);
    assert_eq!(plan.config, config());
    let native = RequestedFormat { raw: raw(abi::AUDIO_FORMAT_S16_LE, &stereo) };
    let plan = plan_format(&s16_caps(), abi::PARAM_FLAG_NEAREST, native).ok().unwrap();
    assert!(!plan.snapped);
    assert_eq!(plan.config, config());
}

#[test]
fn results_of_a_format_request_are_told() {
    assert_eq!(format_result(HandoffResult::Done, true), Ok(true));
    assert_eq!(format_result(HandoffResult::Done, false), Ok(false));
    assert_eq!(format_result(HandoffResult::Unavailable, true), Err(Errno::Io));
    for (error, told, reprobe) in [
        (OpenError::Busy, Errno::Busy, false),
        (OpenError::Invalid, Errno::Invalid, true),
        (OpenError::NotSupported, Errno::NotSupported, true),
        (OpenError::Other(6), Errno::Device(6), false),
    ] {
        let refused = HandoffResult::Refused(error);
        assert_eq!(format_result(refused, false), Err(told));
        assert_eq!(wants_reprobe(refused), reprobe);
    }
    assert!(!wants_reprobe(HandoffResult::Done));
}

#[test]
fn port_parameters_enumerate_to_their_end() {
    let caps = s16_caps();
    let ask = |negotiated: &Negotiated, id, index| {
        port_enum_params(abi::DIRECTION_INPUT, &caps, negotiated, id, index)
    };
    let format = Negotiated::Format(config());
    assert!(matches!(ask(&format, abi::PARAM_ENUM_FORMAT, 0), PortParam::EnumFormat(_)));
    match ask(&format, abi::PARAM_FORMAT, 0) {
        PortParam::Format(raw) => assert_eq!(raw, build_port_format_info(&config())),
        _ => panic!("a negotiated format is read back"),
    }
    match ask(&format, abi::PARAM_BUFFERS, 0) {
        PortParam::Buffers(object) => assert_eq!(object.type_, abi::OBJECT_BUFFERS),
        _ => panic!("a negotiated format asks for buffers"),
    }
    for id in [abi::PARAM_FORMAT, abi::PARAM_BUFFERS] {
        assert!(matches!(
            ask(&Negotiated::Nothing, id, 0),
            PortParam::Stop(Err(Errno::NoEntry))
        ));
        assert!(matches!(
            ask(&Negotiated::Unavailable, id, 0),
            PortParam::Stop(Err(Errno::Io))
        ));
        assert!(matches!(ask(&format, id, 1), PortParam::Stop(Ok(()))));
    }
    assert!(matches!(
        ask(&format, abi::PARAM_LATENCY, 0),
        PortParam::Latency { direction: 0, shifted: true }
    ));
    assert!(matches!(
        ask(&format, abi::PARAM_LATENCY, 1),
        PortParam::Latency { direction: 1, shifted: false }
    ));
    assert!(matches!(ask(&format, abi::PARAM_LATENCY, 2), PortParam::Stop(Ok(()))));
    assert!(matches!(
        ask(&format, abi::PARAM_PROPS, 0),
        PortParam::Stop(Err(Errno::NoEntry))
    ));
}

#[test]
fn requests_name_the_right_port_and_parameter() {
    let (input, output) = (abi::DIRECTION_INPUT, abi::DIRECTION_OUTPUT);
    assert_eq!(check_port(input, input, 0), Ok(()));
    assert_eq!(check_port(input, output, 0), Err(Errno::Invalid));
    assert_eq!(check_port(input, input, 1), Err(Errno::Invalid));
    let kind = |id| decode_port_param(input, input, 0, id);
    assert_eq!(kind(abi::PARAM_FORMAT), Ok(PortParamKind::Format));
    assert_eq!(kind(abi::PARAM_LATENCY), Ok(PortParamKind::Latency));
    assert_eq!(kind(abi::PARAM_TAG), Ok(PortParamKind::Tag));
    assert_eq!(kind(abi::PARAM_PROPS), Err(Errno::NoEntry));
    assert_eq!(decode_port_param(input, output, 0, abi::PARAM_TAG), Err(Errno::Invalid));
    assert_eq!(use_buffers_ok(input, input, 0, 32, 8), Ok(()));
    assert_eq!(use_buffers_ok(input, input, 0, u32::MAX, u32::MAX), Err(Errno::Invalid));
    assert_eq!(use_buffers_ok(input, input, 1, 2, 8), Err(Errno::Invalid));
}

fn check_unseeded_loop() {
    let mut unseeded = 0;
    assert!(!check_loop_identity(&mut unseeded, 77));
    assert_eq!(unseeded, usize::MAX, "an unseeded owner is permanently disabled");

    let mut seeded = 77;
    assert!(check_loop_identity(&mut seeded, 77));
    assert_eq!(seeded, 77);
}

#[test]
fn node_unseeded_data_loop_gate_never_falls_back_to_first_process_caller() {
    check_unseeded_loop();
}

#[test]
fn process_unseeded_data_loop_gate_never_falls_back_to_first_process_caller() {
    check_unseeded_loop();
}

#[test]
fn tests_unseeded_data_loop_gate_never_falls_back_to_first_process_caller() {
    check_unseeded_loop();
}

#[test]
fn a_stopped_owner_stays_stopped() {
    let mut owner = 0;
    note_owner(&mut owner, 5);
    note_owner(&mut owner, 6);
    assert_eq!(owner, 5);
    assert!(!check_loop_identity(&mut owner, 6));
    assert!(!check_loop_identity(&mut owner, 5));
    note_owner(&mut owner, 5);
    assert_eq!(owner, NO_THREAD);
}

#[test]
fn cycles_after_a_pause_are_dropped_and_reports_are_told_once() {
    let mut data = new_node_data("/dev/dsp".to_string(), 0, (), SinkPortExt::default());
    assert!(!begin_process(&mut data, true));
    data.started = true;
    assert!(!begin_process(&mut data, false));
    assert!(begin_process(&mut data, true));
    data.port.pending_xrun = Some(9);
    let event = MainEvent::FormatLost { expected_publication_epoch: 4 };
    data.pending_main_event = Some(event);
    let report = finish_process(&mut data);
    assert_eq!((report.xrun, report.event), (Some(9), Some(event)));
    let report = finish_process(&mut data);
    assert_eq!((report.xrun, report.event), (None, None));
}

fn host_data() -> HostData {
    HostData { type_: abi::DATA_MEM_PTR, mapped: true, has_chunk: true, maxsize: 64 }
}

fn host_buffer(data: HostData) -> Option<HostBuffer> {
    Some(HostBuffer { n_datas: 1, data: Some(data) })
}

fn chunk(offset: u32, size: u32) -> Chunk {
    Chunk { offset, size, stride: 8, flags: 0 }
}

fn check_valid_data_block() {
    let buffers = vec![host_buffer(host_data())];
    let block = valid_data_block(&buffers, 0).expect("a usable MemPtr block");
    assert_eq!(block.input_range(chunk(16, 32)), BlockRange { offset: 16, size: 32 });
    assert_eq!(block.output_size(), 64);

    let published = block.publish(60, 8);
    assert_eq!(published, chunk(0, 60));
    assert_eq!(block.input_range(published).size, 60);
    assert_eq!(block.input_range(chunk(60, 32)), BlockRange { offset: 60, size: 4 });
    assert_eq!(block.input_range(chunk(70, 32)), BlockRange { offset: 6, size: 32 });

    assert!(valid_data_block(&buffers, 1).is_none());
    assert!(valid_data_block(&vec![None], 0).is_none());
    for unusable in [
        Some(HostBuffer { n_datas: 2, data: Some(host_data()) }),
        Some(HostBuffer { n_datas: 1, data: None }),
        host_buffer(HostData { mapped: false, ..host_data() }),
        host_buffer(HostData { has_chunk: false, ..host_data() }),
        host_buffer(HostData { maxsize: 0, ..host_data() }),
        host_buffer(HostData { type_: abi::DATA_MEM_FD, ..host_data() }),
    ] {
        assert!(valid_data_block(&vec![unusable], 0).is_none());
    }
}

#[test]
fn node_valid_data_block_admits_only_a_usable_memptr_block() {
    check_valid_data_block();
}

#[test]
fn state_valid_data_block_admits_only_a_usable_memptr_block() {
    check_valid_data_block();
}

#[test]
fn tests_valid_data_block_admits_only_a_usable_memptr_block() {
    check_valid_data_block();
}

fn check_io_areas() {
    let full = 160;
    let bsize = 8;
    let p = 4096;
    let node = vec![
        IoAreaKind { id: abi::IO_CLOCK, size: full, align: 8 },
        IoAreaKind { id: abi::IO_POSITION, size: 1688, align: 8 },
    ];
    let port = vec![
        IoAreaKind { id: abi::IO_BUFFERS, size: bsize, align: 4 },
        IoAreaKind { id: abi::IO_RATE_MATCH, size: 48, align: 8 },
    ];
    assert_eq!(io_area_ok(&node, abi::IO_CLOCK, 0, 0), Ok(()));
    assert_eq!(io_area_ok(&node, abi::IO_CLOCK, p, full), Ok(()));
    assert_eq!(io_area_ok(&node, abi::IO_CLOCK, p, full + 8), Ok(()));
    assert_eq!(io_area_ok(&node, abi::IO_CLOCK, p, full - 1), Err(Errno::NoSpace));
    assert_eq!(io_area_ok(&node, abi::IO_CLOCK, p + 1, full), Err(Errno::Invalid));
    assert_eq!(io_area_ok(&node, abi::IO_BUFFERS, p, full), Err(Errno::NoEntry));
    assert_eq!(io_area_ok(&port, abi::IO_CLOCK, p, full), Err(Errno::NoEntry));
    assert_eq!(io_area_ok(&port, abi::IO_BUFFERS, p, bsize), Ok(()));
    assert_eq!(io_area_ok(&port, abi::IO_BUFFERS, p, bsize - 1), Err(Errno::NoSpace));
    assert_eq!(io_area_ok(&port, abi::IO_BUFFERS, p + 1, bsize - 1), Err(Errno::NoSpace));
    assert_eq!(io_area_ok(&port, abi::IO_RATE_MATCH, 0, 0), Ok(()));
}

#[test]
fn node_io_area_admission_null_short_exact_misaligned() {
    check_io_areas();
}

#[test]
fn commands_io_area_admission_null_short_exact_misaligned() {
    check_io_areas();
}

#[test]
fn tests_io_area_admission_null_short_exact_misaligned() {
    check_io_areas();
}

#[test]
fn commands_are_told_apart_and_named() {
    for (id, command, name) in [
        (abi::NODE_COMMAND_START, NodeCommand::Start, "SPA_NODE_COMMAND_Start"),
        (abi::NODE_COMMAND_PAUSE, NodeCommand::Pause, "SPA_NODE_COMMAND_Pause"),
        (abi::NODE_COMMAND_SUSPEND, NodeCommand::Suspend, "SPA_NODE_COMMAND_Suspend"),
        (abi::NODE_COMMAND_PARAM_BEGIN, NodeCommand::ParamBracket, "SPA_NODE_COMMAND_ParamBegin"),
        (abi::NODE_COMMAND_PARAM_END, NodeCommand::ParamBracket, "SPA_NODE_COMMAND_ParamEnd"),
        (5, NodeCommand::Unknown, "SPA_NODE_COMMAND_???"),
    ] {
        assert_eq!(decode_command(abi::COMMAND_NODE, id), command);
        assert_eq!(spa_command_to_str(abi::COMMAND_NODE, id), name);
    }
    assert_eq!(decode_command(1, abi::NODE_COMMAND_START), NodeCommand::Unknown);
    assert_eq!(spa_command_to_str(1, abi::NODE_COMMAND_START), "???");
}

#[test]
fn commands_that_are_not_carried_out_are_errors() {
    for command in [NodeCommand::Start, NodeCommand::Pause, NodeCommand::Suspend] {
        assert_eq!(command_result(command, true), Ok(()));
        assert_eq!(command_result(command, false), Err(Errno::Io));
    }
    assert_eq!(command_result(NodeCommand::ParamBracket, false), Ok(()));
    assert_eq!(command_result(NodeCommand::Unknown, true), Err(Errno::NotSupported));
}

#[test]
fn a_node_follows_another_clock_only() {
    assert!(node_is_follower(Some(1), Some(2)));
    assert!(!node_is_follower(Some(2), Some(2)));
    assert!(!node_is_follower(None, Some(2)));
    assert!(!node_is_follower(Some(2), None));
}

#[test]
fn role_flips_restart_the_servo_of_a_running_node() {
    let mut data = new_node_data("/dev/dsp".to_string(), 0, (), SinkPortExt::default());
    data.port.servo.loop_cold = false;
    data.port.was_matching = true;
    assert!(!apply_io_change(&mut data, true, false, true), "a stopped node takes nothing up");
    assert!(!data.following);
    data.started = true;
    assert!(apply_io_change(&mut data, true, true, true));
    assert!(!apply_io_change(&mut data, true, true, true), "no change, no timer reset");
    assert!(apply_io_change(&mut data, true, false, true));
    assert!(data.following && data.port.servo.loop_cold && !data.port.was_matching);
    data.port.servo.bandwidth_cold = false;
    on_role_flip(&mut data.port);
    assert!(data.port.servo.bandwidth_cold);
}

fn item(key: &str, value: &str) -> InitItem {
    InitItem { key: key.to_string(), value: value.to_string() }
}

#[test]
fn new_nodes_read_their_properties() {
    let items = vec![
        item("path", "/dev/dsp0"),
        item("oss.fragment", "1000"),
        item("oss.delay", "5000"),
        item("oss.delay", "fast"),
        item("path", "/dev/dsp1"),
    ];
    let props = parse_init_dict(&items, "path", true);
    assert_eq!(
        props,
        InitProps { path: Some("/dev/dsp1".to_string()), oss_fragment: 512, oss_delay: 1024 }
    );
    assert_eq!(required_path(&props), Ok("/dev/dsp1".to_string()));
    assert_eq!(
        initial_tunables(&props, true),
        Tunables {
            playback: true,
            oss_delay: 1024,
            oss_delay_default: 1024,
            oss_fragment: 512,
            oss_fragment_default: 512,
        }
    );
    let props = parse_init_dict(&items, "device", false);
    assert_eq!(props, InitProps { path: None, oss_fragment: 512, oss_delay: 10 });
    assert_eq!(required_path(&props), Err(Errno::Invalid));
}

#[test]
fn numbers_are_read_and_written() {
    for (text, value) in [
        ("0", Some(0)),
        ("4294967295", Some(u32::MAX)),
        ("4294967296", None),
        ("+7", Some(7)),
        ("007", Some(7)),
        ("", None),
        ("+", None),
        ("-1", None),
        ("1 ", None),
        ("++1", None),
    ] {
        assert_eq!(parse_u32(text), value, "{text:?}");
        assert_eq!(text.parse::<u32>().ok(), value, "{text:?}");
    }
    for n in [0, 9, 10, 48000, u32::MAX] {
        assert_eq!(decimal_text(n), n.to_string());
        assert_eq!(parse_u32(&decimal_text(n)), Some(n));
    }
    assert_eq!(latency_fraction(409, 48000), "409/48000");
}

#[test]
fn clocks_are_named_after_their_device() {
    assert_eq!(clock_name("/dev/dsp0"), "freebsd-oss.dsp0");
    assert_eq!(clock_name("/dev//dev/dsp0"), "freebsd-oss.dsp0");
    assert_eq!(clock_name("vdsp.ctl"), "freebsd-oss.vdsp.ctl");
    assert_eq!(clock_name("/dev"), "freebsd-oss./dev");
    assert_eq!(clock_name("/dev/d\0sp"), "");
}

#[test]
fn periods_and_times_become_bytes() {
    assert_eq!(device_period_bytes(1024, 48000, 48000, 8), 8192);
    assert_eq!(device_period_bytes(1024, 44100, 48000, 8), 940 * 8);
    assert_eq!(device_period_bytes(1024, 48000, 0, 8), 0);
    assert_eq!(device_period_bytes(u64::MAX, u32::MAX, 1, u32::MAX), u32::MAX);
    assert_eq!(ns_to_frame_bytes(1_000_000, 44100, 8), 44 * 8);
    assert_eq!(ns_to_bytes(1_000_000, 44100, 8), 352);
    assert_eq!(ns_to_bytes(1_500_000, 44100, 8), 529);
    assert_eq!(ns_to_bytes(u64::MAX, u32::MAX, u32::MAX), u32::MAX);
    assert_eq!(timer_value(2_500_000_001), TimerValue { sec: 2, nsec: 500_000_001 });
}

fn wake() -> WakeInput {
    WakeInput {
        expired: true,
        started: true,
        following: false,
        has_position: true,
        has_clock: true,
        now: Some(5_000_000_000),
        next_time: 4_900_000_000,
        duration: 1024,
        rate: 48000,
    }
}

#[test]
fn driving_nodes_keep_their_timer() {
    assert_eq!(timeout_cycle(wake()), WakePlan::Cycle { nsec: 4_900_000_000 });
    // more than a second behind: start over from now
    let stalled = WakeInput { next_time: 3_999_999_999, ..wake() };
    assert_eq!(timeout_cycle(stalled), WakePlan::Cycle { nsec: 5_000_000_000 });
    let barely = WakeInput { next_time: 4_000_000_000, ..wake() };
    assert_eq!(timeout_cycle(barely), WakePlan::Cycle { nsec: 4_000_000_000 });
    assert_eq!(
        timeout_cycle(WakeInput { now: None, ..wake() }),
        WakePlan::Idle { timer: TimerPlan::After(10_000_000), next_time: 4_900_000_000 }
    );
    for empty in [WakeInput { duration: 0, ..wake() }, WakeInput { rate: 0, ..wake() }] {
        assert_eq!(
            timeout_cycle(empty),
            WakePlan::Idle { timer: TimerPlan::At(4_910_000_000), next_time: 4_910_000_000 }
        );
    }
    for idle in [
        WakeInput { expired: false, ..wake() },
        WakeInput { started: false, ..wake() },
        WakeInput { following: true, ..wake() },
        WakeInput { has_position: false, ..wake() },
        WakeInput { has_clock: false, ..wake() },
    ] {
        assert_eq!(
            timeout_cycle(idle),
            WakePlan::Idle { timer: TimerPlan::Leave, next_time: 4_900_000_000 }
        );
    }
    assert_eq!(update_timers(true, false, true, Some(9), 3), (TimerPlan::At(9), 9));
    assert_eq!(update_timers(true, false, true, None, 3), (TimerPlan::After(10_000_000), 3));
    assert_eq!(update_timers(true, true, true, Some(9), 3), (TimerPlan::Park, 3));
    assert_eq!(rearm_after_ready(true, false, true, true, 8), TimerPlan::At(8));
    assert_eq!(rearm_after_ready(false, false, true, true, 8), TimerPlan::Park);
}

#[test]
fn the_driver_servo_publishes_a_delay_and_feeds_its_error() {
    let mut port = Port::new(SinkPortExt::default());
    port.config = Some(config());
    port.setup_period = 4096;
    port.ext.target_delay = 4096;
    port.ext.target_goal = 4096;
    assert!(servo_measures(&port, true));
    assert!(!servo_measures(&port, false));
    let plan = timeout_servo(&mut port, 4160, 96000, 5);
    assert_eq!(plan, ServoPlan { delay: 1040 * 2 + 5, error: Some(128) });
    port.ext.xrun_timestamp = 1;
    assert_eq!(timeout_servo(&mut port, 4160, 48000, 0).error, None);
    port.rebuild_pending = true;
    assert!(!servo_measures(&port, true));

    let mut port = Port::new(SourcePortExt::default());
    port.config = Some(config());
    port.setup_period = 4096;
    assert!(!servo_measures(&port, true));
    port.ext.primed = true;
    assert!(servo_measures(&port, true));
    port.ext.target_fill = 4608;
    assert_eq!(timeout_servo(&mut port, 4576, 48000, 0).error, Some(64));
}

#[test]
fn playback_pauses_and_starts_where_it_was() {
    let mut port = Port::new(SinkPortExt::default());
    port.setup_period = 4096;
    port.ext.pending_buffer = Some(3);
    port.ext.pending_offset = 100;
    sink_pause(&mut port, true, false);
    assert!(sink_start_resumes(&port, false, true));
    assert!(!sink_start_resumes(&port, true, true));
    assert!(!sink_start_resumes(&port, false, false));
    port.ext.xrun_timestamp = 4;
    port.servo.loop_cold = false;
    sink_start(&mut port, ResumeOutcome::Resumed);
    assert!(port.ext.resuming && port.servo.loop_cold);
    assert_eq!((port.ext.xrun_timestamp, port.ext.pending_offset), (0, 100));
    sink_start(&mut port, ResumeOutcome::NotAsked);
    assert!(!port.ext.resuming);

    // a queue that could neither be kept nor dropped has to go
    sink_pause(&mut port, false, false);
    assert!(port.ext.rebuild_after_start);
    assert!(!sink_start_resumes(&port, false, true));
    let mut port = Port::new(SinkPortExt::default());
    port.device_eof = true;
    sink_pause(&mut port, false, true);
    assert!(!port.ext.rebuild_after_start && !port.device_eof);
    sink_start(&mut port, ResumeOutcome::Refused);
    assert!(port.ext.rebuild_after_start && !port.ext.resuming);
}

#[test]
fn capture_primes_again_after_a_start_or_a_suspend() {
    let mut port = Port::new(SourcePortExt::default());
    port.ext.primed = true;
    port.ext.active_buffers = 4;
    source_start(&mut port);
    assert!(!port.ext.primed && port.servo.bandwidth_cold);
    port.ext.primed = true;
    SourcePortExt::on_suspend(&mut port);
    assert!(!port.ext.primed);
    SourcePortExt::on_buffers_swapped(&mut port, false);
    assert_eq!(port.ext.active_buffers, 0);
    port.ext.primed = true;
    SourcePortExt::on_device_swapped(&mut port);
    assert!(!port.ext.primed);
}

#[test]
fn device_replies_decide_how_a_queue_is_resumed() {
    let mut port = Port::new(SinkPortExt::default());
    port.setup_period = 4096;
    assert_eq!(
        begin_resume(&port, true, true),
        ResumeStep::Ended(ResumeOutcome::NotAsked)
    );
    let asked = begin_resume(&port, false, true);
    assert_eq!(asked, ResumeStep::Resume);
    assert_eq!(step_resume(asked, true), ResumeStep::Ended(ResumeOutcome::Resumed));
    let stop = step_resume(asked, false);
    assert_eq!(stop, ResumeStep::Stop);
    assert_eq!(step_resume(stop, true), ResumeStep::Ended(ResumeOutcome::Reset));
    let refused = step_resume(stop, false);
    assert_eq!(refused, ResumeStep::Ended(ResumeOutcome::Refused));
    assert_eq!(step_resume(refused, true), refused);
}

#[test]
fn device_replies_decide_what_a_pause_leaves() {
    let untouched = PauseStep::Ended { kept: true, reset: false };
    assert_eq!(begin_queue_pause(false), untouched);
    let asked = begin_queue_pause(true);
    assert_eq!(asked, PauseStep::Pause);
    assert_eq!(step_queue_pause(asked, true), untouched);
    let stop = step_queue_pause(asked, false);
    assert_eq!(stop, PauseStep::Stop);
    assert_eq!(step_queue_pause(stop, true), PauseStep::Ended { kept: false, reset: true });
    let refused = step_queue_pause(stop, false);
    assert_eq!(refused, PauseStep::Ended { kept: false, reset: false });
    assert_eq!(step_queue_pause(refused, true), refused);
}

#[test]
fn stand_in_capabilities_are_probed_again() {
    let mut held = ProbedCaps::new(None);
    assert_eq!(held.caps, fallback_caps());
    assert!(held.fallback);
    assert!(held.wants_fallback_probe(abi::PARAM_ENUM_FORMAT));
    assert!(!held.wants_fallback_probe(abi::PARAM_FORMAT));
    held.take_probe(None);
    assert!(held.fallback, "a device that is still busy keeps the stand-in");
    held.take_probe(Some(s16_caps()));
    assert_eq!(held, ProbedCaps::new(Some(s16_caps())));
    assert!(!held.wants_fallback_probe(abi::PARAM_ENUM_FORMAT));

    // after a rejection only a changed answer is announced
    assert!(!held.take_reprobe(None));
    assert!(!held.take_reprobe(Some(s16_caps())));
    let mut wider = s16_caps();
    wider.configurations[0].rates.push(44100);
    assert!(held.take_reprobe(Some(wider.clone())));
    assert_eq!(held.caps, wider);
    let mut stand_in = ProbedCaps::new(None);
    assert!(!stand_in.take_reprobe(Some(fallback_caps())));
    assert!(!stand_in.fallback);
}
