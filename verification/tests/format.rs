use oss_node::abi;
use oss_node::backend;
use oss_node::backend::{
    ConversionKind, DspCaps, StreamCaps, StreamConfiguration,
};
use oss_node::channels::{
    channel_positions, default_oss_channel_order, oss_channel_order, ChannelMapError,
};
use oss_node::format::{
    build_buffers_info, build_enum_format_info, enum_format_widths, nearest_rate, offered_formats,
    oss_format_info, snap_raw_to_caps, RawFormat,
};
use oss_node::pod::{PodObject, PodProperty, PodValue};

const FL: u32 = abi::CHANNEL_FL;
const FR: u32 = abi::CHANNEL_FR;
const FC: u32 = abi::CHANNEL_FC;
const LFE: u32 = abi::CHANNEL_LFE;
const SL: u32 = abi::CHANNEL_SL;
const SR: u32 = abi::CHANNEL_SR;
const RL: u32 = abi::CHANNEL_RL;
const RR: u32 = abi::CHANNEL_RR;
const FLC: u32 = 9;
const BC: u32 = 35;

fn native_channel_order(flags: u32, positions: &[u32]) -> Result<Option<u64>, ChannelMapError> {
    oss_channel_order(flags, &positions.to_vec())
}

#[test]
fn fallback_formats_cover_the_supported_surface() {
    let caps = backend::fallback_caps();
    assert_eq!(caps.preferred_configuration().unwrap().formats, backend::all_formats());
}

#[test]
fn default_channel_orders_need_no_ioctl() {
    for positions in [
        &[abi::CHANNEL_MONO][..],
        &[FL],
        &[FL, FR],
        &[FL, FR, RL, RR],
        &[FL, FR, RL, RR, FC, LFE],
        &[FL, FR, RL, RR, FC, LFE, SL, SR],
    ] {
        assert_eq!(native_channel_order(0, positions), Ok(None));
    }
}

#[test]
fn alternate_named_channel_orders_encode_oss_chid_nibbles() {
    assert_eq!(native_channel_order(0, &[FR, FL]), Ok(Some(0x12)));
    assert_eq!(native_channel_order(0, &[FL, FR, FC, LFE, RL, RR]), Ok(Some(0x87_4321)));
    assert_eq!(
        native_channel_order(0, &[FL, FR, FC, LFE, RL, RR, SL, SR]),
        Ok(Some(0x6587_4321))
    );
}

#[test]
fn opaque_and_unpositioned_channel_orders_stay_opaque() {
    assert_eq!(
        native_channel_order(
            0,
            &[abi::CHANNEL_AUX0, abi::CHANNEL_AUX0 + 1, abi::CHANNEL_AUX0 + 2]
        ),
        Ok(None)
    );
    assert_eq!(native_channel_order(abi::AUDIO_FLAG_UNPOSITIONED, &[FR, FL]), Ok(None));
}

#[test]
fn malformed_channel_orders_are_rejected() {
    for positions in [
        &[FL, FL][..],
        &[FL, abi::CHANNEL_AUX0],
        &[FL, FLC],
        &[FL, FR, FC, LFE],
        &[FL, FR, FC, LFE, RL, RR, SL, SR, BC],
    ] {
        assert_eq!(native_channel_order(0, positions), Err(ChannelMapError::Unsupported));
    }
}

#[test]
fn maps_of_unknown_speakers_are_rejected_and_empty_ones_are_opaque() {
    assert_eq!(native_channel_order(0, &[FLC, FLC]), Err(ChannelMapError::Unsupported));
    assert_eq!(native_channel_order(0, &[]), Ok(None));
    assert_eq!(native_channel_order(0, &[FL, FR, FC]), Err(ChannelMapError::Unsupported));
    assert_eq!(native_channel_order(0, &[FL, FR, RL, RR, FC]), Ok(None));
}

#[test]
fn default_orders_have_their_encoded_values() {
    let orders: Vec<Option<u64>> = (0..10).map(default_oss_channel_order).collect();
    assert_eq!(
        orders,
        [
            None,
            Some(0x1),
            Some(0x21),
            None,
            Some(0x8721),
            Some(0x3_8721),
            Some(0x43_8721),
            None,
            Some(0x6543_8721),
            None
        ]
    );
    assert_eq!(channel_positions(2), Some(vec![FL, FR]));
    assert_eq!(channel_positions(3), None);
    assert_eq!(channel_positions(6), Some(vec![FL, FR, RL, RR, FC, LFE]));
}

fn caps(
    formats: &[u32],
    channels: (u32, u32),
    rate_range: (u32, u32),
    rates: &[u32],
    preferred_rate: Option<u32>,
    convertless: bool,
) -> StreamCaps {
    StreamCaps {
        configurations: vec![StreamConfiguration {
            formats: formats.to_vec(),
            min_channels: channels.0,
            max_channels: channels.1,
            min_rate: rate_range.0,
            max_rate: rate_range.1,
            preferred_rate,
            rates: rates.to_vec(),
            rate_tolerance: 50,
        }],
        preferred: 0,
        conversion: if convertless {
            ConversionKind::Unavailable
        } else {
            ConversionKind::Backend
        },
    }
}

fn prop(key: u32, value: PodValue) -> PodProperty {
    PodProperty { key, value }
}

#[test]
fn enum_format_parses_back_with_expected_choices() {
    let caps = caps(
        &[
            abi::AUDIO_FORMAT_S32_LE,
            abi::AUDIO_FORMAT_S32_BE,
            abi::AUDIO_FORMAT_F32_LE,
            abi::AUDIO_FORMAT_F32_BE,
            abi::AUDIO_FORMAT_S24_LE,
            abi::AUDIO_FORMAT_S24_BE,
            abi::AUDIO_FORMAT_S16_LE,
            abi::AUDIO_FORMAT_S16_BE,
            abi::AUDIO_FORMAT_U8,
        ],
        (1, 2),
        (8000, 192000),
        &[],
        None,
        false,
    );
    assert_eq!(
        build_enum_format_info(&caps, 0).unwrap(),
        PodObject {
            type_: abi::OBJECT_FORMAT,
            id: abi::PARAM_ENUM_FORMAT,
            properties: vec![
                prop(abi::FORMAT_MEDIA_TYPE, PodValue::Id(abi::MEDIA_TYPE_AUDIO)),
                prop(abi::FORMAT_MEDIA_SUBTYPE, PodValue::Id(abi::MEDIA_SUBTYPE_RAW)),
                prop(
                    abi::FORMAT_AUDIO_FORMAT,
                    PodValue::IdEnum(
                        abi::AUDIO_FORMAT_S32_LE,
                        vec![
                            abi::AUDIO_FORMAT_S32_BE,
                            abi::AUDIO_FORMAT_F32_LE,
                            abi::AUDIO_FORMAT_F32_BE,
                            abi::AUDIO_FORMAT_S24_LE,
                            abi::AUDIO_FORMAT_S24_BE,
                            abi::AUDIO_FORMAT_S16_LE,
                            abi::AUDIO_FORMAT_S16_BE,
                            abi::AUDIO_FORMAT_U8,
                        ]
                    )
                ),
                prop(
                    abi::FORMAT_AUDIO_RATE,
                    PodValue::IntRange { default: 48000, min: 8000, max: 192000 }
                ),
                prop(abi::FORMAT_AUDIO_CHANNELS, PodValue::Int(2)),
                prop(abi::FORMAT_AUDIO_POSITION, PodValue::IdArray(vec![FL, FR])),
            ],
        }
    );
}

fn enum_format_summary(caps: &StreamCaps, index: u32) -> (u32, i32, i32) {
    let object = build_enum_format_info(caps, index).expect("configuration should enumerate");
    let mut summary = (0, 0, 0);
    for property in object.properties {
        match (property.key, property.value) {
            (abi::FORMAT_AUDIO_FORMAT, PodValue::Id(format)) => summary.0 = format,
            (abi::FORMAT_AUDIO_RATE, PodValue::Int(rate)) => summary.1 = rate,
            (abi::FORMAT_AUDIO_CHANNELS, PodValue::Int(channels)) => summary.2 = channels,
            _ => (),
        }
    }
    summary
}

#[test]
fn configurations_enumerate_preferred_first_without_crossing_constraints() {
    let caps = StreamCaps {
        configurations: vec![
            StreamConfiguration {
                formats: vec![abi::AUDIO_FORMAT_U8],
                min_channels: 1,
                max_channels: 1,
                min_rate: 44100,
                max_rate: 44100,
                preferred_rate: None,
                rates: vec![],
                rate_tolerance: 0,
            },
            StreamConfiguration {
                formats: vec![abi::AUDIO_FORMAT_S16_LE],
                min_channels: 2,
                max_channels: 2,
                min_rate: 48000,
                max_rate: 48000,
                preferred_rate: None,
                rates: vec![],
                rate_tolerance: 0,
            },
        ],
        preferred: 1,
        conversion: ConversionKind::Unavailable,
    };

    assert_eq!(enum_format_summary(&caps, 0), (abi::AUDIO_FORMAT_S16_LE, 48000, 2));
    assert_eq!(enum_format_summary(&caps, 1), (abi::AUDIO_FORMAT_U8, 44100, 1));
    assert!(build_enum_format_info(&caps, 2).is_none());
    assert!(!caps.admits(abi::AUDIO_FORMAT_U8, 2, 48000));
    assert!(caps.admits(abi::AUDIO_FORMAT_U8, 1, 44100));
}

fn raw_format(format: u32) -> RawFormat {
    let mut position = vec![0; 64];
    position[0] = FL;
    position[1] = FR;
    RawFormat { format, flags: 0, rate: 48000, channels: 2, position }
}

#[test]
fn format_snap_preserves_and_selects_float_three_byte_24_and_u8() {
    let float_caps = caps(
        &[abi::AUDIO_FORMAT_F32_LE, abi::AUDIO_FORMAT_S16_LE],
        (1, 2),
        (8000, 192000),
        &[],
        None,
        false,
    );
    let mut native_float = raw_format(abi::AUDIO_FORMAT_F32_LE);
    assert!(!snap_raw_to_caps(&float_caps, &mut native_float));
    assert_eq!(native_float.format, abi::AUDIO_FORMAT_F32_LE);

    let mut snapped_float = raw_format(abi::AUDIO_FORMAT_S24_BE);
    assert!(snap_raw_to_caps(&float_caps, &mut snapped_float));
    assert_eq!(snapped_float.format, abi::AUDIO_FORMAT_F32_LE);

    let three_byte_caps =
        caps(&[abi::AUDIO_FORMAT_S24_BE], (1, 2), (8000, 192000), &[], None, false);
    let mut snapped_three_byte = raw_format(abi::AUDIO_FORMAT_F32_LE);
    assert!(snap_raw_to_caps(&three_byte_caps, &mut snapped_three_byte));
    assert_eq!(snapped_three_byte.format, abi::AUDIO_FORMAT_S24_BE);

    let u8_caps = caps(&[abi::AUDIO_FORMAT_U8], (1, 2), (8000, 192000), &[], None, false);
    let mut snapped_u8 = raw_format(abi::AUDIO_FORMAT_S16_LE);
    assert!(snap_raw_to_caps(&u8_caps, &mut snapped_u8));
    assert_eq!(snapped_u8.format, abi::AUDIO_FORMAT_U8);

    assert_eq!(backend::bytes_per_sample(abi::AUDIO_FORMAT_F32_LE), Some(4));
    assert_eq!(backend::bytes_per_sample(abi::AUDIO_FORMAT_S24_BE), Some(3));
    assert_eq!(backend::bytes_per_sample(abi::AUDIO_FORMAT_S16_LE), Some(2));
    assert_eq!(backend::bytes_per_sample(abi::AUDIO_FORMAT_U8), Some(1));
}

#[test]
fn snapping_moves_width_and_rate_into_the_caps() {
    let narrow = caps(
        &[abi::AUDIO_FORMAT_S16_LE],
        (4, 8),
        (8000, 192000),
        &[44100, 96000],
        None,
        false,
    );
    let mut raw = raw_format(abi::AUDIO_FORMAT_S16_LE);
    assert!(snap_raw_to_caps(&narrow, &mut raw));
    assert_eq!((raw.channels, raw.rate), (4, 44100));
    assert_eq!(&raw.position[..5], &[FL, FR, RL, RR, 0]);
    let once = raw.clone();
    assert!(!snap_raw_to_caps(&narrow, &mut raw));
    assert_eq!(raw, once);

    // an odd width gets numbered slots, and no width exceeds the slots
    let odd = caps(&[abi::AUDIO_FORMAT_S16_LE], (3, 3), (8000, 192000), &[], None, false);
    let mut raw = raw_format(abi::AUDIO_FORMAT_S16_LE);
    raw.rate = 500_000;
    assert!(snap_raw_to_caps(&odd, &mut raw));
    assert_eq!((raw.channels, raw.rate), (3, 192_000));
    assert_eq!(
        &raw.position[..3],
        &[abi::CHANNEL_AUX0, abi::CHANNEL_AUX0 + 1, abi::CHANNEL_AUX0 + 2]
    );
    let huge = caps(&[abi::AUDIO_FORMAT_S16_LE], (100, 200), (8000, 192000), &[], None, false);
    let mut raw = raw_format(abi::AUDIO_FORMAT_S16_LE);
    assert!(snap_raw_to_caps(&huge, &mut raw));
    assert_eq!(raw.channels, 64);
}

#[test]
fn convertless_format_offers_are_native_only() {
    let native = caps(
        &[abi::AUDIO_FORMAT_F32_LE, abi::AUDIO_FORMAT_S24_BE, abi::AUDIO_FORMAT_U8],
        (1, 2),
        (8000, 192000),
        &[],
        None,
        true,
    );
    assert_eq!(
        backend::offered_formats(native.preferred_configuration().unwrap()),
        [abi::AUDIO_FORMAT_F32_LE, abi::AUDIO_FORMAT_S24_BE, abi::AUDIO_FORMAT_U8]
    );

    let unmatched = caps(&[], (1, 2), (8000, 192000), &[], None, true);
    assert!(backend::offered_formats(unmatched.preferred_configuration().unwrap()).is_empty());

    let feeder = caps(&backend::all_formats(), (1, 2), (8000, 192000), &[], None, false);
    assert_eq!(
        backend::offered_formats(feeder.preferred_configuration().unwrap()),
        backend::all_formats()
    );
}

fn dsp_caps(formats: u32, convertless: bool) -> DspCaps {
    DspCaps {
        formats,
        min_channels: 1,
        max_channels: 2,
        min_rate: 8000,
        max_rate: 192000,
        preferred_rate: None,
        rates: vec![],
        convertless,
    }
}

#[test]
fn device_masks_decide_what_is_offered() {
    let mask = abi::AFMT_U8 | abi::AFMT_F32_LE;
    assert_eq!(
        offered_formats(&dsp_caps(mask, true)),
        [abi::AUDIO_FORMAT_F32_LE, abi::AUDIO_FORMAT_U8]
    );
    assert!(offered_formats(&dsp_caps(0, true)).is_empty());
    assert_eq!(offered_formats(&dsp_caps(0, false)), backend::all_formats());

    let stream = backend::stream_caps(&dsp_caps(0, true));
    assert!(stream.convertless());
    assert!(build_enum_format_info(&stream, 0).is_none());
}

#[test]
fn every_format_has_its_device_bit_and_width() {
    let infos: Vec<(u32, u32)> =
        backend::all_formats().iter().map(|&f| oss_format_info(f).unwrap()).collect();
    assert_eq!(
        infos,
        [
            (0x1000, 4),
            (0x2000, 4),
            (0x1000_0000, 4),
            (0x2000_0000, 4),
            (0x10000, 3),
            (0x20000, 3),
            (0x10, 2),
            (0x20, 2),
            (0x8, 1)
        ]
    );
    assert_eq!(oss_format_info(0), None);
}

#[test]
fn stereo_pins_both_ends_of_enum_format() {
    for (min, max) in [(1u32, 2u32), (2, 2), (1, 8), (2, 8), (1, 10), (2, 32)] {
        let widths = enum_format_widths(min, max);
        assert_eq!(*widths.first().unwrap(), 2, "min {min} max {max}: {widths:?}");
        assert_eq!(*widths.last().unwrap(), 2, "min {min} max {max}: {widths:?}");
        assert!(widths.contains(&max), "native width lost: min {min} max {max}: {widths:?}");
        assert!(
            widths.iter().all(|w| *w >= min && *w <= max),
            "width out of range: min {min} max {max}: {widths:?}"
        );
        assert_eq!(
            widths.iter().filter(|w| **w == 2).count().min(2),
            if widths.len() == 1 { 1 } else { 2 }
        );
    }
    assert_eq!(enum_format_widths(2, 8), [2, 4, 6, 8, 2]);
    assert_eq!(enum_format_widths(1, 10), [2, 4, 6, 8, 1, 10, 2]);
    assert_eq!(enum_format_widths(2, 2), [2]);
    assert_eq!(enum_format_widths(1, 1), [1]);
    assert_eq!(enum_format_widths(4, 8), [4, 6, 8]);
    assert_eq!(enum_format_widths(3, 3), [3]);
}

#[test]
fn discrete_rates_are_offered_as_a_choice() {
    let caps = caps(
        &[abi::AUDIO_FORMAT_S16_LE],
        (2, 2),
        (44100, 96000),
        &[44100, 96000],
        None,
        true,
    );
    let object = build_enum_format_info(&caps, 0).unwrap();
    assert_eq!(object.properties[2].value, PodValue::Id(abi::AUDIO_FORMAT_S16_LE));
    assert_eq!(object.properties[3].value, PodValue::IntEnum(44100, vec![44100, 96000]));
    assert_eq!(nearest_rate(&vec![44100, 48000, 52000], 50000), 48000);
    // near a discrete rate is close enough to run
    assert!(caps.admits(abi::AUDIO_FORMAT_S16_LE, 2, 44150));
    assert!(!caps.admits(abi::AUDIO_FORMAT_S16_LE, 2, 44151));
}

#[test]
fn buffers_are_one_mapped_block_of_two_periods_or_more() {
    let object = build_buffers_info(8);
    assert_eq!(object.type_, abi::OBJECT_BUFFERS);
    assert_eq!(
        object.properties,
        vec![
            prop(abi::BUFFERS_BUFFERS, PodValue::IntRange { default: 2, min: 1, max: 32 }),
            prop(abi::BUFFERS_BLOCKS, PodValue::Int(1)),
            prop(
                abi::BUFFERS_SIZE,
                PodValue::IntRange { default: 16384, min: 16384, max: 131072 }
            ),
            prop(abi::BUFFERS_STRIDE, PodValue::Int(8)),
            prop(abi::BUFFERS_ALIGN, PodValue::Int(16)),
            prop(abi::BUFFERS_DATA_TYPE, PodValue::Int(1 << abi::DATA_MEM_PTR)),
        ]
    );
}
