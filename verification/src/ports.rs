//! Port parameters: reading a requested format, turning it into a configuration, and
//! answering what a port offers.
use vstd::prelude::*;

use crate::abi;
use crate::backend::{copied, ConversionKind, StreamCaps};
use crate::channels::{native_order, oss_channel_order};
use crate::control::HandoffResult;
use crate::errno::Errno;
use crate::format::{
    build_buffers_info, build_enum_format_info, buffers_object, enum_format_object, enumerated,
    first_offer_is_the_preferred_one, format_info, only_what_runs_is_offered, known_formats_are_mapped, offer_order, oss_format_info, snap_raw_to_caps, snapped,
    RawFormat, RawFormatView, MAX_BUFFER_FRAMES,
};
use crate::pod::PodObject;
use crate::port::{PortConfig, PortConfigView};
use crate::rebuild::OpenError;

verus! {

/// The number of ports of a node.
pub const MAX_PORTS: u32 = 1;

/// Whether a request names the node's port.
pub fn check_port(own_direction: u32, direction: u32, port_id: u32) -> (r: Result<(), Errno>)
    ensures
        r == if direction != own_direction || port_id >= MAX_PORTS {
            Err::<(), Errno>(Errno::Invalid)
        } else {
            Ok::<(), Errno>(())
        },
{
    if direction != own_direction || port_id >= MAX_PORTS {
        Err(Errno::Invalid)
    } else {
        Ok(())
    }
}

/// The raw format that a configuration stands for: its positions in the first slots.
pub open spec fn raw_view_of(config: PortConfigView) -> RawFormatView {
    RawFormatView {
        format: config.format,
        flags: config.flags,
        rate: config.rate,
        channels: config.channels,
        position: Seq::new(
            abi::AUDIO_MAX_CHANNELS as nat,
            |i: int|
                if i < config.positions.len() {
                    config.positions[i]
                } else {
                    0
                },
        ),
    }
}

/// The raw format that a configuration stands for.
pub fn build_port_format_info(config: &PortConfig) -> (raw: RawFormat)
    ensures
        raw@ == raw_view_of(config@),
        raw.wf(),
{
    let mut position: Vec<u32> = Vec::new();
    let mut i: usize = 0;
    while i < abi::AUDIO_MAX_CHANNELS as usize
        invariant
            i <= abi::AUDIO_MAX_CHANNELS,
            position@.len() == i,
            forall|j: int|
                0 <= j < i ==> #[trigger] position@[j] == raw_view_of(config@).position[j],
        decreases abi::AUDIO_MAX_CHANNELS - i,
    {
        if i < config.positions.len() {
            position.push(config.positions[i]);
        } else {
            position.push(0);
        }
        i = i + 1;
    }
    assert(position@ =~= raw_view_of(config@).position);
    RawFormat {
        format: config.format,
        flags: config.flags,
        rate: config.rate,
        channels: config.channels,
        position,
    }
}

/// A requested format that can be worked with.
#[derive(Debug, Clone, PartialEq, Eq)]
pub struct RequestedFormat {
    pub raw: RawFormat,
}

/// Whether a raw format has a rate and a number of channels with slots.
pub open spec fn usable(raw: RawFormatView) -> bool {
    raw.rate != 0 && 0 < raw.channels <= abi::AUDIO_MAX_CHANNELS
}

impl RequestedFormat {
    /// The format has a rate, and a slot for each of its channels.
    pub open spec fn wf(&self) -> bool {
        self.raw.wf() && usable(self.raw@)
    }
}

/// The media type and subtype that a format object names.
#[derive(Debug, Clone, Copy, PartialEq, Eq, Structural)]
pub struct MediaKind {
    pub media_type: u32,
    pub media_subtype: u32,
}

/// What a requested format comes to. `media` is what the object names, `raw` its raw
/// audio fields, `None` where they cannot be read.
pub open spec fn format_verdict(media: Option<MediaKind>, raw: Option<RawFormatView>) -> Result<
    RawFormatView,
    Errno,
> {
    match media {
        None => Err(Errno::Invalid),
        Some(kind) => if kind.media_type != abi::MEDIA_TYPE_AUDIO || kind.media_subtype
            != abi::MEDIA_SUBTYPE_RAW {
            Err(Errno::NoEntry)
        } else {
            match raw {
                Some(raw) => if usable(raw) {
                    Ok(raw)
                } else {
                    Err(Errno::Invalid)
                },
                None => Err(Errno::Invalid),
            }
        },
    }
}

/// Reads a requested format: other media have no entry here, and an unreadable or
/// degenerate format is invalid.
pub fn decode_format(media: Option<MediaKind>, raw: Option<RawFormat>) -> (requested: Result<
    RequestedFormat,
    Errno,
>)
    requires
        raw matches Some(raw) ==> raw.wf(),
    ensures
        match format_verdict(
            media,
            match raw {
                Some(raw) => Some(raw@),
                None => None,
            },
        ) {
            Ok(view) => requested matches Ok(requested) && requested.wf() && requested.raw@ == view,
            Err(error) => requested matches Err(e) && e == error,
        },
{
    let kind = match media {
        Some(kind) => kind,
        None => return Err(Errno::Invalid),
    };
    if kind.media_type != abi::MEDIA_TYPE_AUDIO || kind.media_subtype != abi::MEDIA_SUBTYPE_RAW {
        return Err(Errno::NoEntry);
    }
    let raw = match raw {
        Some(raw) => raw,
        None => return Err(Errno::Invalid),
    };
    if raw.rate == 0 || raw.channels == 0 || raw.channels > abi::AUDIO_MAX_CHANNELS {
        return Err(Errno::Invalid);
    }
    Ok(RequestedFormat { raw })
}

/// The configuration that a raw format stands for: a known format, and a speaker map
/// that the device takes. A device that converts nothing takes no reordering, for it
/// would only change the labels.
pub open spec fn config_of(convertless: bool, raw: RawFormatView) -> Result<
    PortConfigView,
    Errno,
> {
    let positions = raw.position.take(raw.channels as int);
    match format_info(raw.format) {
        None => Err(Errno::NotSupported),
        Some((_, bytes)) => match native_order(raw.flags, positions) {
            Err(_) => Err(Errno::Invalid),
            Ok(order) => if order is Some && convertless {
                Err(Errno::Invalid)
            } else {
                Ok(
                    PortConfigView {
                        format: raw.format,
                        rate: raw.rate,
                        channels: raw.channels,
                        positions,
                        flags: raw.flags,
                        stride: (bytes * raw.channels) as u32,
                    },
                )
            },
        },
    }
}

/// The configuration that a raw format stands for.
pub fn parse_config(convertless: bool, raw: &RawFormat) -> (config: Result<PortConfig, Errno>)
    requires
        raw.wf(),
        raw.channels <= abi::AUDIO_MAX_CHANNELS,
    ensures
        match config_of(convertless, raw@) {
            Ok(view) => config matches Ok(config) && config@ == view && config.stride <= 256,
            Err(error) => config matches Err(e) && e == error,
        },
{
    proof {
        known_formats_are_mapped(raw.format);
    }
    let bytes: u32 = match oss_format_info(raw.format) {
        Some((_, bytes)) => bytes,
        None => return Err(Errno::NotSupported),
    };
    let mut positions: Vec<u32> = copied(&raw.position);
    positions.truncate(raw.channels as usize);
    assert(positions@ =~= raw@.position.take(raw.channels as int));
    match oss_channel_order(raw.flags, &positions) {
        Err(_) => return Err(Errno::Invalid),
        Ok(order) => if order.is_some() && convertless {
            return Err(Errno::Invalid);
        },
    }
    assert(bytes * raw.channels <= 256) by (nonlinear_arith)
        requires
            bytes <= 4,
            raw.channels <= 64,
    ;
    Ok(
        PortConfig {
            format: raw.format,
            rate: raw.rate,
            channels: raw.channels,
            positions,
            flags: raw.flags,
            stride: bytes * raw.channels,
        },
    )
}

/// Whether the device runs a raw format as it is.
pub open spec fn admitted(caps: StreamCaps, raw: RawFormatView) -> bool {
    format_info(raw.format) is Some && caps.runs(raw.format, raw.channels, raw.rate)
}

/// The raw format that a request is carried out with: as it is, or snapped where the
/// caller wants the nearest and the device does not run it.
pub open spec fn effective_raw(caps: StreamCaps, flags: u32, raw: RawFormatView) -> RawFormatView {
    if flags & abi::PARAM_FLAG_NEAREST != 0 && !admitted(caps, raw) && caps.preferred
        < caps.configurations@.len() {
        snapped(caps.configurations@[caps.preferred as int], raw)
    } else {
        raw
    }
}

/// What a requested format is to be installed as.
pub struct FormatPlan {
    pub config: PortConfig,
    /// The request was changed: the caller has to read the format back.
    pub snapped: bool,
}

/// What a requested format comes to: the configuration of its effective form, if the
/// device runs that. What it does not run is refused before the working device is
/// touched.
pub open spec fn plan_of(caps: StreamCaps, flags: u32, raw: RawFormatView) -> Result<
    PortConfigView,
    Errno,
> {
    let effective = effective_raw(caps, flags, raw);
    match config_of(caps.conversion == ConversionKind::Unavailable, effective) {
        Ok(config) => if caps.runs(effective.format, effective.channels, effective.rate) {
            Ok(config)
        } else {
            Err(Errno::Invalid)
        },
        Err(error) => Err(error),
    }
}

/// Plans the installation of a requested format.
pub fn plan_format(caps: &StreamCaps, flags: u32, requested: RequestedFormat) -> (plan: Result<
    FormatPlan,
    Errno,
>)
    requires
        caps.wf(),
        requested.wf(),
    ensures
        match plan_of(*caps, flags, requested.raw@) {
            Ok(config) => {
                let effective = effective_raw(*caps, flags, requested.raw@);
                &&& plan matches Ok(plan) && plan.config@ == config && plan.config.stride <= 256
                    && plan.snapped == (effective.format != requested.raw.format
                    || effective.channels != requested.raw.channels || effective.rate
                    != requested.raw.rate)
            },
            Err(error) => plan matches Err(e) && e == error,
        },
{
    let mut raw = requested.raw;
    let runs = oss_format_info(raw.format).is_some() && caps.admits(
        raw.format,
        raw.channels,
        raw.rate,
    );
    let mut snapped = false;
    if flags & abi::PARAM_FLAG_NEAREST != 0 && !runs {
        snapped = snap_raw_to_caps(caps, &mut raw);
    }
    assert(raw@ == effective_raw(*caps, flags, requested.raw@));
    let config = match parse_config(caps.convertless(), &raw) {
        Ok(config) => config,
        Err(error) => return Err(error),
    };
    if !caps.admits(config.format, raw.channels, raw.rate) {
        return Err(Errno::Invalid);
    }
    Ok(FormatPlan { config, snapped })
}

/// The format that a port reads back can be set again, and stands for the same
/// configuration.
pub proof fn format_reads_back(convertless: bool, raw: RawFormatView)
    requires
        usable(raw),
        raw.position.len() == abi::AUDIO_MAX_CHANNELS,
        config_of(convertless, raw) is Ok,
    ensures
        ({
            let config = config_of(convertless, raw)->Ok_0;
            let kind = MediaKind {
                media_type: abi::MEDIA_TYPE_AUDIO,
                media_subtype: abi::MEDIA_SUBTYPE_RAW,
            };
            let back = raw_view_of(config);
            &&& format_verdict(Some(kind), Some(back)) == Ok::<RawFormatView, Errno>(back)
            &&& config_of(convertless, back) == Ok::<PortConfigView, Errno>(config)
        }),
{
    let config = config_of(convertless, raw)->Ok_0;
    let back = raw_view_of(config);
    assert(back.position.take(back.channels as int) =~= raw.position.take(raw.channels as int));
}

/// A format that is installed is one that the device runs, and a request that the
/// device runs already is installed as it is.
pub proof fn installed_formats_run(caps: StreamCaps, flags: u32, raw: RawFormatView)
    ensures
        plan_of(caps, flags, raw) matches Ok(config) ==> caps.runs(
            config.format,
            config.channels,
            config.rate,
        ),
        admitted(caps, raw) ==> effective_raw(caps, flags, raw) == raw,
        flags & abi::PARAM_FLAG_NEAREST == 0 ==> effective_raw(caps, flags, raw) == raw,
{
}

/// What the caller of a format request is told: success, with a mark where the format
/// has to be read back, or the error.
pub open spec fn format_result_of(result: HandoffResult, snapped: bool) -> Result<bool, Errno> {
    match result {
        HandoffResult::Done => Ok(snapped),
        HandoffResult::Unavailable => Err(Errno::Io),
        HandoffResult::Refused(error) => Err(
            match error {
                OpenError::Busy => Errno::Busy,
                OpenError::Invalid => Errno::Invalid,
                OpenError::NotSupported => Errno::NotSupported,
                OpenError::Other(number) => Errno::Device(number),
            },
        ),
    }
}

/// What the caller of a format request is told; `Ok(true)` has the format read back.
pub fn format_result(result: HandoffResult, snapped: bool) -> (r: Result<bool, Errno>)
    ensures
        r == format_result_of(result, snapped),
{
    match result {
        HandoffResult::Done => Ok(snapped),
        HandoffResult::Unavailable => Err(Errno::Io),
        HandoffResult::Refused(error) => Err(
            match error {
                OpenError::Busy => Errno::Busy,
                OpenError::Invalid => Errno::Invalid,
                OpenError::NotSupported => Errno::NotSupported,
                OpenError::Other(number) => Errno::Device(number),
            },
        ),
    }
}

/// Whether the capabilities may be stale: the device rejected values taken from them.
pub fn wants_reprobe(result: HandoffResult) -> (reprobe: bool)
    ensures
        reprobe == (result == HandoffResult::Refused(OpenError::Invalid) || result
            == HandoffResult::Refused(OpenError::NotSupported)),
{
    match result {
        HandoffResult::Refused(OpenError::Invalid)
        | HandoffResult::Refused(OpenError::NotSupported) => true,
        _ => false,
    }
}

/// What the data loop says of the negotiated format.
pub enum Negotiated {
    /// It did not answer.
    Unavailable,
    Nothing,
    Format(PortConfig),
}

/// What answers a request for one value of a port parameter.
pub enum PortParam {
    EnumFormat(PodObject),
    Format(RawFormat),
    Buffers(PodObject),
    /// The latency of a direction; `shifted` by the process latency.
    Latency { direction: u32, shifted: bool },
    Stop(Result<(), Errno>),
}

/// Whether `answer` is what a request for one value of a port parameter gets.
pub open spec fn answers(
    answer: PortParam,
    own_direction: u32,
    caps: StreamCaps,
    negotiated: Negotiated,
    id: u32,
    index: u32,
) -> bool {
    if id == abi::PARAM_ENUM_FORMAT {
        let order = offer_order(caps.configurations@.len(), caps.preferred as nat);
        match enumerated(caps.configurations@, order, index as int) {
            Some((which, channels)) => answer matches PortParam::EnumFormat(object) && object@
                == enum_format_object(caps.configurations@[which], channels),
            None => answer == PortParam::Stop(Ok(())),
        }
    } else if id == abi::PARAM_LATENCY && index <= 1 {
        answer == (PortParam::Latency { direction: index, shifted: index == own_direction })
    } else if (id == abi::PARAM_FORMAT || id == abi::PARAM_BUFFERS) && index == 0 {
        match negotiated {
            Negotiated::Unavailable => answer == PortParam::Stop(Err(Errno::Io)),
            Negotiated::Nothing => answer == PortParam::Stop(Err(Errno::NoEntry)),
            Negotiated::Format(config) => if id == abi::PARAM_FORMAT {
                answer matches PortParam::Format(raw) && raw@ == raw_view_of(config@)
            } else {
                answer matches PortParam::Buffers(object) && object@ == buffers_object(
                    config.stride,
                )
            },
        }
    } else if id == abi::PARAM_FORMAT || id == abi::PARAM_BUFFERS || id == abi::PARAM_LATENCY {
        answer == PortParam::Stop(Ok(()))
    } else {
        answer == PortParam::Stop(Err(Errno::NoEntry))
    }
}

/// Answers a request for one value of a port parameter. A known parameter without
/// further values ends the enumeration, an unknown one is an error.
pub fn port_enum_params(
    own_direction: u32,
    caps: &StreamCaps,
    negotiated: &Negotiated,
    id: u32,
    index: u32,
) -> (answer: PortParam)
    requires
        caps.wf(),
        negotiated matches Negotiated::Format(config) ==> MAX_BUFFER_FRAMES * config.stride
            <= u32::MAX,
    ensures
        answers(answer, own_direction, *caps, *negotiated, id, index),
{
    if id == abi::PARAM_ENUM_FORMAT {
        return match build_enum_format_info(caps, index) {
            Some(object) => PortParam::EnumFormat(object),
            None => PortParam::Stop(Ok(())),
        };
    }
    if id == abi::PARAM_LATENCY && index <= 1 {
        return PortParam::Latency { direction: index, shifted: index == own_direction };
    }
    if (id == abi::PARAM_FORMAT || id == abi::PARAM_BUFFERS) && index == 0 {
        return match negotiated {
            Negotiated::Unavailable => PortParam::Stop(Err(Errno::Io)),
            Negotiated::Nothing => PortParam::Stop(Err(Errno::NoEntry)),
            Negotiated::Format(config) => if id == abi::PARAM_FORMAT {
                PortParam::Format(build_port_format_info(config))
            } else {
                PortParam::Buffers(build_buffers_info(config.stride))
            },
        };
    }
    if id == abi::PARAM_FORMAT || id == abi::PARAM_BUFFERS || id == abi::PARAM_LATENCY {
        PortParam::Stop(Ok(()))
    } else {
        PortParam::Stop(Err(Errno::NoEntry))
    }
}

/// A port parameter that can be set.
#[derive(Debug, Clone, Copy, PartialEq, Eq, Structural)]
pub enum PortParamKind {
    Format,
    Latency,
    /// Accepted, and of no effect.
    Tag,
}

/// What a request to set a port parameter is about: the wrong port is invalid, an
/// unknown parameter has no entry.
pub fn decode_port_param(own_direction: u32, direction: u32, port_id: u32, id: u32) -> (kind:
    Result<PortParamKind, Errno>)
    ensures
        kind == if direction != own_direction || port_id >= MAX_PORTS {
            Err::<PortParamKind, Errno>(Errno::Invalid)
        } else if id == abi::PARAM_FORMAT {
            Ok(PortParamKind::Format)
        } else if id == abi::PARAM_LATENCY {
            Ok(PortParamKind::Latency)
        } else if id == abi::PARAM_TAG {
            Ok(PortParamKind::Tag)
        } else {
            Err(Errno::NoEntry)
        },
{
    if let Err(error) = check_port(own_direction, direction, port_id) {
        return Err(error);
    }
    match id {
        abi::PARAM_FORMAT => Ok(PortParamKind::Format),
        abi::PARAM_LATENCY => Ok(PortParamKind::Latency),
        abi::PARAM_TAG => Ok(PortParamKind::Tag),
        _ => Err(Errno::NoEntry),
    }
}

/// What the host handed over for the latency.
#[derive(Debug, Clone, Copy, PartialEq, Eq, Structural)]
pub enum LatencyValue {
    /// Nothing: the latency is reset.
    Absent,
    /// A latency of this direction.
    Of { direction: u32 },
    /// Something else.
    Unreadable,
}

/// The latency of which direction is to be set, and whether to its default.
#[derive(Debug, Clone, Copy, PartialEq, Eq, Structural)]
pub struct LatencyRequest {
    pub direction: u32,
    pub reset: bool,
}

/// The direction against `direction`.
pub open spec fn opposite(direction: u32) -> u32 {
    direction ^ 1
}

/// Input and output are each other's opposite.
pub proof fn input_is_opposite_to_output()
    ensures
        opposite(abi::DIRECTION_INPUT) == abi::DIRECTION_OUTPUT,
        opposite(abi::DIRECTION_OUTPUT) == abi::DIRECTION_INPUT,
{
    assert(0u32 ^ 1 == 1 && 1u32 ^ 1 == 0) by (bit_vector);
}

/// Reads a latency request: a peer sets the latency of the opposite direction only.
pub fn decode_latency_request(direction: u32, value: LatencyValue) -> (request: Result<
    LatencyRequest,
    Errno,
>)
    ensures
        request == match value {
            LatencyValue::Absent => Ok::<LatencyRequest, Errno>(
                LatencyRequest { direction: opposite(direction), reset: true },
            ),
            LatencyValue::Of { direction: given } => if given == opposite(direction) {
                Ok(LatencyRequest { direction: given, reset: false })
            } else {
                Err(Errno::Invalid)
            },
            LatencyValue::Unreadable => Err(Errno::Invalid),
        },
{
    let other: u32 = direction ^ 1;
    match value {
        LatencyValue::Absent => Ok(LatencyRequest { direction: other, reset: true }),
        LatencyValue::Of { direction: given } => if given == other {
            Ok(LatencyRequest { direction: given, reset: false })
        } else {
            Err(Errno::Invalid)
        },
        LatencyValue::Unreadable => Err(Errno::Invalid),
    }
}

/// Whether a list of `n_buffers` entries of `entry_size` bytes can exist in memory.
pub fn use_buffers_ok(own_direction: u32, direction: u32, port_id: u32, n_buffers: u32, entry_size: u32) -> (r:
    Result<(), Errno>)
    ensures
        r == if direction != own_direction || port_id >= MAX_PORTS || n_buffers * entry_size
            > isize::MAX {
            Err::<(), Errno>(Errno::Invalid)
        } else {
            Ok::<(), Errno>(())
        },
{
    if let Err(error) = check_port(own_direction, direction, port_id) {
        return Err(error);
    }
    assert(0 <= n_buffers * entry_size <= 0xffff_ffff * 0xffff_ffff) by (nonlinear_arith)
        requires
            0 <= n_buffers <= 0xffff_ffff,
            0 <= entry_size <= 0xffff_ffff,
    ;
    if n_buffers as u64 * entry_size as u64 > isize::MAX as u64 {
        Err(Errno::Invalid)
    } else {
        Ok(())
    }
}

/// A configuration is read back as it was negotiated: its own values, its positions in the
/// first slots, and nothing in the others.
pub proof fn readback_shows_the_configuration(config: PortConfigView)
    requires
        config.positions.len() <= abi::AUDIO_MAX_CHANNELS,
    ensures
        ({
            let raw = raw_view_of(config);
            &&& raw.format == config.format
            &&& raw.flags == config.flags
            &&& raw.rate == config.rate
            &&& raw.channels == config.channels
            &&& raw.position.len() == 64
            &&& raw.position.take(config.positions.len() as int) == config.positions
            &&& forall|i: int| config.positions.len() <= i < 64 ==> #[trigger] raw.position[i] == 0
        }),
{
    let raw = raw_view_of(config);
    assert(raw.position.take(config.positions.len() as int) =~= config.positions);
}

/// A request is accepted if and only if it names raw audio and can be read, with a rate and
/// one to 64 channels, and then it is taken as it is. Other media have no entry; everything
/// else is invalid.
pub proof fn only_raw_audio_is_accepted(media: Option<MediaKind>, raw: Option<RawFormatView>)
    ensures
        ({
            let is_raw = media matches Some(kind) && kind.media_type == 1 && kind.media_subtype
                == 1;
            let readable = raw matches Some(raw) && raw.rate > 0 && 1 <= raw.channels <= 64;
            let verdict = format_verdict(media, raw);
            &&& verdict is Ok <==> is_raw && readable
            &&& verdict matches Ok(taken) ==> raw == Some(taken)
            &&& verdict == Err::<RawFormatView, Errno>(Errno::NoEntry) <==> media is Some
                && !is_raw
            &&& verdict == Err::<RawFormatView, Errno>(Errno::Invalid) <==> media is None || (
            is_raw && !readable)
        }),
{
}

/// A format becomes a configuration with its own values and a frame of all its samples. It
/// does so unless the library does not know it, its speakers cannot be arranged, or they
/// would have to be reordered on a device that converts nothing.
pub proof fn configuration_is_what_was_requested(convertless: bool, raw: RawFormatView)
    requires
        raw.position.len() == abi::AUDIO_MAX_CHANNELS,
        raw.channels <= abi::AUDIO_MAX_CHANNELS,
    ensures
        ({
            let result = config_of(convertless, raw);
            let speakers = raw.position.take(raw.channels as int);
            let order = native_order(raw.flags, speakers);
            let known = format_info(raw.format) is Some;
            &&& !known ==> result == Err::<PortConfigView, Errno>(Errno::NotSupported)
            &&& known && (order is Err || (convertless && order matches Ok(Some(_)))) ==> result
                == Err::<PortConfigView, Errno>(Errno::Invalid)
            &&& known && order is Ok && !(convertless && order matches Ok(Some(_))) ==> {
                &&& result matches Ok(config) && config.format == raw.format && config.rate
                    == raw.rate && config.channels == raw.channels && config.flags == raw.flags
                    && config.positions == speakers && config.stride == (format_info(
                    raw.format,
                )->0).1 * raw.channels
            }
        }),
{
    known_formats_are_mapped(raw.format);
    if let Some((_, bytes)) = format_info(raw.format) {
        assert(0 <= bytes * raw.channels <= 256) by (nonlinear_arith)
            requires
                0 <= bytes <= 4,
                0 <= raw.channels <= 64,
        ;
    }
}

/// What a format request is installed as. A request that the device runs is installed as it
/// is. One that it does not run is refused, unless the caller wants the nearest: then it is
/// moved onto the preferred configuration first, and installed if the device runs that.
pub proof fn request_is_installed_as_it_is_or_nearest(
    caps: StreamCaps,
    flags: u32,
    raw: RawFormatView,
)
    ensures
        ({
            let convertless = caps.conversion == ConversionKind::Unavailable;
            let runs = format_info(raw.format) is Some && caps.runs(
                raw.format,
                raw.channels,
                raw.rate,
            );
            let nearest = flags & 4 != 0;
            let result = plan_of(caps, flags, raw);
            &&& runs ==> result == config_of(convertless, raw)
            &&& !runs && !nearest ==> result is Err
            &&& !runs && nearest && caps.preferred >= caps.configurations@.len() ==> result is Err
            &&& !runs && nearest && caps.preferred < caps.configurations@.len() ==> {
                let moved = snapped(caps.configurations@[caps.preferred as int], raw);
                &&& caps.runs(moved.format, moved.channels, moved.rate) ==> result == config_of(
                    convertless,
                    moved,
                )
                &&& !caps.runs(moved.format, moved.channels, moved.rate) ==> result is Err
            }
            &&& result matches Ok(config) ==> caps.runs(
                config.format,
                config.channels,
                config.rate,
            )
        }),
{
}

/// The caller hears what the device said: a mark to read the format back only where it was
/// moved, and the device's own error otherwise.
pub proof fn caller_hears_what_became_of_it(result: HandoffResult, snapped: bool)
    ensures
        format_result_of(result, snapped) is Ok <==> result is Done,
        format_result_of(result, snapped) matches Ok(readback) ==> readback == snapped,
        result is Unavailable ==> format_result_of(result, snapped) == Err::<bool, Errno>(
            Errno::Io,
        ),
        result == HandoffResult::Refused(OpenError::Busy) ==> format_result_of(result, snapped)
            == Err::<bool, Errno>(Errno::Busy),
        result == HandoffResult::Refused(OpenError::Invalid) ==> format_result_of(result, snapped)
            == Err::<bool, Errno>(Errno::Invalid),
        result == HandoffResult::Refused(OpenError::NotSupported) ==> format_result_of(
            result,
            snapped,
        ) == Err::<bool, Errno>(Errno::NotSupported),
        result matches HandoffResult::Refused(OpenError::Other(number)) ==> format_result_of(
            result,
            snapped,
        ) == Err::<bool, Errno>(Errno::Device(number)),
{
}

/// What a port shows. Its formats begin with the preferred configuration and end where no
/// configuration is left; the negotiated format and its buffers have one value each, as long
/// as there is a format; the latencies are those of both directions, of which its own is
/// shifted by the process latency. Nothing else has an entry.
pub proof fn port_shows_what_is_negotiated(
    answer: PortParam,
    own_direction: u32,
    caps: StreamCaps,
    negotiated: Negotiated,
    id: u32,
    index: u32,
)
    requires
        caps.wf(),
        answers(answer, own_direction, caps, negotiated, id, index),
    ensures
        id == 4 && index == 0 ==> match negotiated {
            Negotiated::Format(config) => answer matches PortParam::Format(raw) && raw@
                == raw_view_of(config@),
            Negotiated::Nothing => answer == PortParam::Stop(Err(Errno::NoEntry)),
            Negotiated::Unavailable => answer == PortParam::Stop(Err(Errno::Io)),
        },
        id == 5 && index == 0 ==> match negotiated {
            Negotiated::Format(config) => answer matches PortParam::Buffers(object) && object@
                == buffers_object(config.stride),
            Negotiated::Nothing => answer == PortParam::Stop(Err(Errno::NoEntry)),
            Negotiated::Unavailable => answer == PortParam::Stop(Err(Errno::Io)),
        },
        id == 15 && index < 2 ==> answer == (PortParam::Latency {
            direction: index,
            shifted: index == own_direction,
        }),
        (id == 4 || id == 5) && index > 0 || id == 15 && index > 1 ==> answer == PortParam::Stop(
            Ok(()),
        ),
        id != 3 && id != 4 && id != 5 && id != 15 ==> answer == PortParam::Stop(
            Err(Errno::NoEntry),
        ),
        id == 3 ==> answer is EnumFormat || answer == PortParam::Stop(Ok(())),
        id == 3 && index == 0 && caps.preferred < caps.configurations@.len()
            && caps.configurations@[caps.preferred as int].formats@.len() > 0 ==> ({
            let configuration = caps.configurations@[caps.preferred as int];
            &&& answer matches PortParam::EnumFormat(object) && exists|width: u32|
                configuration.min_channels <= width <= configuration.max_channels && (
                configuration.min_channels <= 2 <= configuration.max_channels ==> width == 2)
                    && object@ == #[trigger] enum_format_object(configuration, width)
        }),
        id == 3 && answer is EnumFormat ==> exists|which: int, width: u32|
            0 <= which < caps.configurations@.len()
                && caps.configurations@[which].formats@.len() > 0
                && caps.configurations@[which].min_channels <= width
                <= caps.configurations@[which].max_channels && answer->EnumFormat_0@
                == #[trigger] enum_format_object(caps.configurations@[which], width),
{
    if id == 3 {
        only_what_runs_is_offered(caps.configurations@, caps.preferred as nat, index as int);
        if caps.preferred < caps.configurations@.len()
            && caps.configurations@[caps.preferred as int].formats@.len() > 0 {
            first_offer_is_the_preferred_one(caps.configurations@, caps.preferred as nat);
        }
    }
}

} // verus!
