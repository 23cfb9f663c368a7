//! The control and data-path logic of an OSS audio node: playback and capture
//! geometry, the per-cycle state machines, format negotiation, the rebuild
//! protocol and the parameter model. Device access, host callbacks and
//! floating-point servo filters are performed by the embedding program.
pub mod abi;
pub mod arith;
pub mod backend;
pub mod block;
pub mod channels;
pub mod control;
pub mod device;
pub mod direction;
pub mod errno;
pub mod events;
pub mod format;
pub mod init;
pub mod params;
pub mod pod;
pub mod port;
pub mod ports;
pub mod process;
pub mod rebuild;
pub mod sink;
pub mod source;
pub mod text;
pub mod timing;
