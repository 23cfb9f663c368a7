//! Numeric constants of the host protocol and of the device interface.
use vstd::prelude::*;

verus! {

pub const CLOCK_FLAG_FREEWHEEL: u32 = 1;
pub const CLOCK_FLAG_XRUN_RECOVER: u32 = 2;

pub const STATUS_OK: i32 = 0;
pub const STATUS_NEED_DATA: i32 = 1;
pub const STATUS_HAVE_DATA: i32 = 2;

/// The graph's sample formats.
pub const AUDIO_FORMAT_U8: u32 = 0x102;
pub const AUDIO_FORMAT_S16_LE: u32 = 0x103;
pub const AUDIO_FORMAT_S16_BE: u32 = 0x104;
pub const AUDIO_FORMAT_S32_LE: u32 = 0x10b;
pub const AUDIO_FORMAT_S32_BE: u32 = 0x10c;
pub const AUDIO_FORMAT_S24_LE: u32 = 0x10f;
pub const AUDIO_FORMAT_S24_BE: u32 = 0x110;
pub const AUDIO_FORMAT_F32_LE: u32 = 0x11b;
pub const AUDIO_FORMAT_F32_BE: u32 = 0x11c;

/// The device's sample formats, as bits of a capability mask.
pub const AFMT_U8: u32 = 0x8;
pub const AFMT_S16_LE: u32 = 0x10;
pub const AFMT_S16_BE: u32 = 0x20;
pub const AFMT_S32_LE: u32 = 0x1000;
pub const AFMT_S32_BE: u32 = 0x2000;
pub const AFMT_S24_LE: u32 = 0x10000;
pub const AFMT_S24_BE: u32 = 0x20000;
pub const AFMT_F32_LE: u32 = 0x1000_0000;
pub const AFMT_F32_BE: u32 = 0x2000_0000;

/// The most channels that a raw format describes.
pub const AUDIO_MAX_CHANNELS: u32 = 64;
/// A format whose channels carry no speaker positions.
pub const AUDIO_FLAG_UNPOSITIONED: u32 = 1;

/// Speaker positions.
pub const CHANNEL_UNKNOWN: u32 = 0;
pub const CHANNEL_NA: u32 = 1;
pub const CHANNEL_MONO: u32 = 2;
pub const CHANNEL_FL: u32 = 3;
pub const CHANNEL_FR: u32 = 4;
pub const CHANNEL_FC: u32 = 5;
pub const CHANNEL_LFE: u32 = 6;
pub const CHANNEL_SL: u32 = 7;
pub const CHANNEL_SR: u32 = 8;
pub const CHANNEL_RL: u32 = 12;
pub const CHANNEL_RR: u32 = 13;
/// The first position without a speaker; the rest follow it.
pub const CHANNEL_AUX0: u32 = 0x1000;

pub const MEDIA_TYPE_AUDIO: u32 = 1;
pub const MEDIA_SUBTYPE_RAW: u32 = 1;

/// Object types of parameters.
pub const OBJECT_FORMAT: u32 = 0x40003;
pub const OBJECT_BUFFERS: u32 = 0x40004;

/// Parameters.
pub const PARAM_PROP_INFO: u32 = 1;
pub const PARAM_PROPS: u32 = 2;
pub const PARAM_ENUM_FORMAT: u32 = 3;
pub const PARAM_FORMAT: u32 = 4;
pub const PARAM_BUFFERS: u32 = 5;
pub const PARAM_LATENCY: u32 = 15;
pub const PARAM_PROCESS_LATENCY: u32 = 16;

/// Keys of a format object.
pub const FORMAT_MEDIA_TYPE: u32 = 1;
pub const FORMAT_MEDIA_SUBTYPE: u32 = 2;
pub const FORMAT_AUDIO_FORMAT: u32 = 0x10001;
pub const FORMAT_AUDIO_RATE: u32 = 0x10003;
pub const FORMAT_AUDIO_CHANNELS: u32 = 0x10004;
pub const FORMAT_AUDIO_POSITION: u32 = 0x10005;

/// Keys of a buffer-requirements object.
pub const BUFFERS_BUFFERS: u32 = 1;
pub const BUFFERS_BLOCKS: u32 = 2;
pub const BUFFERS_SIZE: u32 = 3;
pub const BUFFERS_STRIDE: u32 = 4;
pub const BUFFERS_ALIGN: u32 = 5;
pub const BUFFERS_DATA_TYPE: u32 = 6;

/// Memory kinds of a buffer's data.
pub const DATA_MEM_PTR: u32 = 1;
pub const DATA_MEM_FD: u32 = 2;

/// Exchange areas.
pub const IO_BUFFERS: u32 = 1;
pub const IO_CLOCK: u32 = 3;
pub const IO_POSITION: u32 = 7;
pub const IO_RATE_MATCH: u32 = 8;

/// The type of node commands, and the commands.
pub const COMMAND_NODE: u32 = 0x30002;
pub const NODE_COMMAND_SUSPEND: u32 = 0;
pub const NODE_COMMAND_PAUSE: u32 = 1;
pub const NODE_COMMAND_START: u32 = 2;
pub const NODE_COMMAND_PARAM_BEGIN: u32 = 8;
pub const NODE_COMMAND_PARAM_END: u32 = 9;

/// What a parameter can be used for. The serial bit flips with every change.
pub const PARAM_INFO_SERIAL: u32 = 1;
pub const PARAM_INFO_READ: u32 = 2;
pub const PARAM_INFO_WRITE: u32 = 4;
pub const PARAM_INFO_READWRITE: u32 = 6;

/// Port directions.
pub const DIRECTION_INPUT: u32 = 0;
pub const DIRECTION_OUTPUT: u32 = 1;

/// The node's process function is safe on a real-time loop.
pub const NODE_FLAG_RT: u64 = 1;
/// The port is a physical end of the graph.
pub const PORT_FLAG_PHYSICAL: u64 = 0x40;
pub const PORT_FLAG_TERMINAL: u64 = 0x80;

/// The type of a properties object, and its keys.
pub const OBJECT_PROPS: u32 = 0x40002;
pub const PROP_VOLUME: u32 = 0x10003;
pub const PROP_LATENCY_OFFSET_NSEC: u32 = 0x1000e;
pub const PROP_PARAMS: u32 = 0x80001;

/// The parameter of metadata tags.
pub const PARAM_TAG: u32 = 17;
/// A parameter is set to the nearest value that can be.
pub const PARAM_FLAG_NEAREST: u32 = 4;

} // verus!
