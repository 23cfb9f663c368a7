//! Per-port state shared by playback and capture, and the measurements that a
//! device wake-up delivers.
use vstd::prelude::*;

use crate::abi;
use crate::arith::sat32;

verus! {

/// A negotiated raw audio format, as the device is configured with it.
#[derive(Debug, Clone, PartialEq, Eq)]
pub struct PortConfig {
    pub format: u32,
    pub rate: u32,
    pub channels: u32,
    pub positions: Vec<u32>,
    pub flags: u32,
    /// Bytes per frame.
    pub stride: u32,
}

/// What a [`PortConfig`] holds.
pub struct PortConfigView {
    pub format: u32,
    pub rate: u32,
    pub channels: u32,
    pub positions: Seq<u32>,
    pub flags: u32,
    pub stride: u32,
}

impl View for PortConfig {
    type V = PortConfigView;

    open spec fn view(&self) -> PortConfigView {
        PortConfigView {
            format: self.format,
            rate: self.rate,
            channels: self.channels,
            positions: self.positions@,
            flags: self.flags,
            stride: self.stride,
        }
    }
}

/// The byte that stands for silence in a sample format: unsigned samples are
/// centred on their middle value.
pub open spec fn silence_of(format: u32) -> u8 {
    if format == abi::AUDIO_FORMAT_U8 {
        0x80
    } else {
        0
    }
}

impl PortConfig {
    /// Another configuration with the same contents.
    pub fn copy(&self) -> (copy: PortConfig)
        ensures
            copy@ == self@,
    {
        PortConfig {
            format: self.format,
            rate: self.rate,
            channels: self.channels,
            positions: crate::backend::copied(&self.positions),
            flags: self.flags,
            stride: self.stride,
        }
    }

    /// The byte that stands for silence in this configuration.
    pub fn silence_byte(&self) -> (byte: u8)
        ensures
            byte == silence_of(self.format),
    {
        if self.format == abi::AUDIO_FORMAT_U8 {
            0x80
        } else {
            0
        }
    }
}

/// What one device wake-up reported, valid until the cycle's device I/O.
#[derive(Debug, Clone, Copy, PartialEq, Eq)]
pub struct DeviceEvent {
    /// The descriptor that the report is about.
    pub fd: i32,
    pub available_bytes: u32,
    pub queued_frames: Option<u64>,
    /// The device's error counter since its last reset.
    pub xruns: u32,
    pub eof: bool,
}

/// The inputs that the rate servo's noise model is configured with.
#[derive(Debug, Clone, Copy, PartialEq, Eq)]
pub struct ServoGeometry {
    pub stride: u32,
    pub blocksize: u32,
    pub period: u32,
    /// Device bytes per second.
    pub byte_rate: u32,
}

/// What the rate servo has to do before its next update.
#[derive(Debug, Clone, Copy, PartialEq, Eq)]
pub struct Servo {
    /// The loop filter restarts from zero.
    pub loop_cold: bool,
    /// The bandwidth adaptation restarts at its widest setting.
    pub bandwidth_cold: bool,
    /// The geometry committed last, if any was.
    pub geometry: Option<ServoGeometry>,
}

impl Servo {
    /// The servo with both of its parts marked to start over.
    pub open spec fn relocked(self) -> Servo {
        Servo { loop_cold: true, bandwidth_cold: true, geometry: self.geometry }
    }

    /// A servo that has never run.
    pub fn new() -> (servo: Servo)
        ensures
            servo == (Servo { loop_cold: true, bandwidth_cold: true, geometry: None }),
    {
        Servo { loop_cold: true, bandwidth_cold: true, geometry: None }
    }

    /// Marks both parts of the servo to start over.
    pub fn relock(&mut self)
        ensures
            *final(self) == old(self).relocked(),
    {
        self.loop_cold = true;
        self.bandwidth_cold = true;
    }
}

/// One port. `E` holds the fields of its direction.
pub struct Port<E> {
    pub config: Option<PortConfig>,
    /// Device bytes per graph cycle that the stream was set up for.
    pub setup_period: u32,
    /// The device's transfer quantum in bytes.
    pub setup_blocksize: u32,
    pub servo: Servo,
    /// Rate matching was active in the previous cycle.
    pub was_matching: bool,
    /// The moment, in microseconds, of an xrun that the host has not been told of.
    pub pending_xrun: Option<u64>,
    pub device_event: Option<DeviceEvent>,
    /// The device reported its end; latched until the device is reset.
    pub device_eof: bool,
    /// How much of the device's error counter has been reported already.
    pub event_xruns_seen: u32,
    /// The wake-up threshold installed on the device, 0 when none is.
    pub wake_threshold: u32,
    /// A rebuild is in flight: cycles are skipped until its completion arrives.
    pub rebuild_pending: bool,
    /// Changes with every change of the device or the configuration.
    pub generation: u64,
    pub ext: E,
}

/// The stride and rate of a configuration, the stride never below one byte.
pub open spec fn stride_rate_of(config: Option<PortConfig>) -> Option<(u32, u32)> {
    match config {
        Some(config) => Some((if config.stride == 0 { 1u32 } else { config.stride }, config.rate)),
        None => None,
    }
}

impl<E> Port<E> {
    /// A port without a format, a geometry or a rebuild under way.
    pub open spec fn fresh(ext: E) -> Port<E> {
        Port {
            config: None,
            setup_period: 0,
            setup_blocksize: 0,
            servo: Servo { loop_cold: true, bandwidth_cold: true, geometry: None },
            was_matching: false,
            pending_xrun: None,
            device_event: None,
            device_eof: false,
            event_xruns_seen: 0,
            wake_threshold: 0,
            rebuild_pending: false,
            generation: 0,
            ext,
        }
    }

    /// A port without a format, a geometry or a rebuild under way.
    pub fn new(ext: E) -> (port: Port<E>)
        ensures
            port == Self::fresh(ext),
    {
        Port {
            config: None,
            setup_period: 0,
            setup_blocksize: 0,
            servo: Servo::new(),
            was_matching: false,
            pending_xrun: None,
            device_event: None,
            device_eof: false,
            event_xruns_seen: 0,
            wake_threshold: 0,
            rebuild_pending: false,
            generation: 0,
            ext,
        }
    }

    /// The byte that stands for silence, zero while no format is negotiated.
    pub open spec fn silence(&self) -> u8 {
        match self.config {
            Some(config) => silence_of(config.format),
            None => 0,
        }
    }

    /// The byte that stands for silence, zero while no format is negotiated.
    pub fn silence_byte(&self) -> (byte: u8)
        ensures
            byte == self.silence(),
    {
        match &self.config {
            Some(config) => config.silence_byte(),
            None => 0,
        }
    }

    /// The negotiated stride and rate; `None` until a format is negotiated.
    pub fn stride_rate(&self) -> (r: Option<(u32, u32)>)
        ensures
            r == stride_rate_of(self.config),
    {
        match &self.config {
            Some(config) => Some((if config.stride == 0 { 1 } else { config.stride }, config.rate)),
            None => None,
        }
    }

    /// The port's stride, one byte while no format is negotiated.
    pub open spec fn stride(&self) -> u32 {
        match stride_rate_of(self.config) {
            Some((stride, _)) => stride,
            None => 1,
        }
    }

    /// The port's rate, 0 while no format is negotiated.
    pub open spec fn rate(&self) -> u32 {
        match stride_rate_of(self.config) {
            Some((_, rate)) => rate,
            None => 0,
        }
    }

    /// The event of this cycle, if it is about the descriptor `fd`.
    pub open spec fn current_event(&self, fd: Option<i32>) -> Option<DeviceEvent> {
        match self.device_event {
            Some(event) if fd == Some(event.fd) => Some(event),
            _ => None,
        }
    }

    /// The port with nothing left of the previous device's events.
    pub open spec fn without_device_event(self) -> Port<E> {
        Port {
            device_event: None,
            device_eof: false,
            event_xruns_seen: 0,
            wake_threshold: 0,
            ..self
        }
    }
}

/// What a cumulative error counter adds to what was reported before. A counter
/// below the reported value was reset in between and counts from zero.
pub open spec fn counter_delta(total: u32, reported: u32) -> u32 {
    if total >= reported {
        (total - reported) as u32
    } else {
        total
    }
}

/// The event of this cycle, if it is about the device's own descriptor `fd`.
pub fn current_event<E>(port: &Port<E>, fd: Option<i32>) -> (event: Option<DeviceEvent>)
    ensures
        event == port.current_event(fd),
{
    match port.device_event {
        Some(event) => {
            match fd {
                Some(fd) => if fd == event.fd {
                    Some(event)
                } else {
                    None
                },
                None => None,
            }
        },
        None => None,
    }
}

/// The fill in bytes that this cycle's event reports: of a playback queue, whole
/// frames times the stride; of a capture queue, the bytes themselves. `None`
/// asks for a measurement instead.
pub open spec fn event_fill_of<E>(port: &Port<E>, playback: bool, fd: Option<i32>) -> Option<u32> {
    match port.current_event(fd) {
        Some(event) => if playback {
            match event.queued_frames {
                Some(frames) => Some(sat32(frames * port.stride())),
                None => None,
            }
        } else {
            Some(event.available_bytes)
        },
        None => None,
    }
}

/// The fill in bytes that this cycle's event reports, if it reports one.
pub fn device_event_fill<E>(port: &Port<E>, playback: bool, fd: Option<i32>) -> (fill: Option<u32>)
    ensures
        fill == event_fill_of(port, playback, fd),
{
    let event = match current_event(port, fd) {
        Some(event) => event,
        None => return None,
    };
    if !playback {
        return Some(event.available_bytes);
    }
    let frames: u64 = match event.queued_frames {
        Some(frames) => frames,
        None => return None,
    };
    let stride: u32 = match port.stride_rate() {
        Some((stride, _)) => stride,
        None => 1,
    };
    assert(frames * stride >= 0) by (nonlinear_arith)
        requires
            frames >= 0,
            stride >= 0,
    ;
    match frames.checked_mul(stride as u64) {
        Some(bytes) => if bytes > u32::MAX as u64 {
            Some(u32::MAX)
        } else {
            Some(bytes as u32)
        },
        None => Some(u32::MAX),
    }
}

/// The errors that this cycle's event adds to those already taken.
pub fn take_device_event_xruns<E>(port: &mut Port<E>, fd: Option<i32>) -> (count: Option<u32>)
    ensures
        match old(port).current_event(fd) {
            Some(event) => {
                &&& count == Some(counter_delta(event.xruns, old(port).event_xruns_seen))
                &&& *final(port) == (Port { event_xruns_seen: event.xruns, ..*old(port) })
            },
            None => count is None && *final(port) == *old(port),
        },
{
    match current_event(port, fd) {
        Some(event) => {
            let previous: u32 = port.event_xruns_seen;
            port.event_xruns_seen = event.xruns;
            if event.xruns >= previous {
                Some(event.xruns - previous)
            } else {
                Some(event.xruns)
            }
        },
        None => None,
    }
}

/// The errors that a direct read of the device's counter, which clears it, adds
/// to those already taken from events.
pub fn take_fallback_xruns<E>(port: &mut Port<E>, total: u32) -> (count: u32)
    ensures
        count == counter_delta(total, old(port).event_xruns_seen),
        *final(port) == (Port { event_xruns_seen: 0, ..*old(port) }),
{
    let reported: u32 = port.event_xruns_seen;
    port.event_xruns_seen = 0;
    if total >= reported {
        total - reported
    } else {
        total
    }
}

/// Forgets the previous device's events: its error counter, its end mark and
/// the wake-up threshold that was installed on it.
pub fn reset_device_event<E>(port: &mut Port<E>)
    ensures
        *final(port) == old(port).without_device_event(),
{
    port.device_event = None;
    port.device_eof = false;
    port.event_xruns_seen = 0;
    port.wake_threshold = 0;
}

/// Taking the same event twice reports its errors once, and a direct read of the
/// counter afterwards reports only what the counter gained since.
pub proof fn xruns_are_reported_once(xruns: u32, seen: u32, total: u32)
    requires
        seen <= xruns <= total,
    ensures
        counter_delta(xruns, xruns) == 0,
        counter_delta(xruns, seen) + counter_delta(total, xruns) == total - seen,
{
}

/// Only unsigned bytes are centred on their middle; every other format is silent at zero.
pub proof fn silence_is_the_middle_of_a_format(format: u32)
    ensures
        silence_of(0x102) == 128,
        format != 0x102 ==> silence_of(format) == 0,
{
}

/// A port without a format counts single bytes and plays zeros; one with a format has its
/// stride, though never none at all, its rate and its silence.
pub proof fn port_counts_in_its_frames<E>(port: Port<E>)
    ensures
        port.config is None ==> port.stride() == 1 && port.rate() == 0 && port.silence() == 0
            && stride_rate_of(port.config) is None,
        port.config matches Some(config) ==> {
            &&& config.stride > 0 ==> port.stride() == config.stride
            &&& config.stride == 0 ==> port.stride() == 1
            &&& port.rate() == config.rate
            &&& stride_rate_of(port.config) == Some((port.stride(), config.rate))
            &&& port.silence() == if config.format == 0x102 {
                128u8
            } else {
                0
            }
        },
{
}

/// A report counts only for the descriptor that it is about: an event of another one, or of
/// a closed device, is as none.
pub proof fn report_is_about_its_descriptor<E>(port: Port<E>, fd: i32)
    ensures
        port.current_event(None) is None,
        port.device_event is None ==> port.current_event(Some(fd)) is None,
        port.device_event matches Some(event) ==> {
            &&& event.fd == fd ==> port.current_event(Some(fd)) == Some(event)
            &&& event.fd != fd ==> port.current_event(Some(fd)) is None
        },
{
}

/// The fill that a report gives: the queued frames of playback in bytes, the available bytes
/// of capture. Playback without a count of frames, and a report of another descriptor, have
/// to be measured.
pub proof fn report_gives_the_fill<E>(port: Port<E>, fd: i32)
    ensures
        event_fill_of(&port, true, None) is None,
        event_fill_of(&port, false, None) is None,
        port.device_event matches Some(event) ==> {
            &&& event.fd == fd ==> event_fill_of(&port, false, Some(fd)) == Some(
                event.available_bytes,
            )
            &&& event.fd == fd && event.queued_frames is None ==> event_fill_of(
                &port,
                true,
                Some(fd),
            ) is None
            &&& event.fd == fd && event.queued_frames is Some && event.queued_frames->0
                * port.stride() <= u32::MAX ==> event_fill_of(&port, true, Some(fd)) == Some(
                (event.queued_frames->0 * port.stride()) as u32,
            )
            &&& event.fd == fd && event.queued_frames is Some && event.queued_frames->0
                * port.stride() > u32::MAX ==> event_fill_of(&port, true, Some(fd)) == Some(
                u32::MAX,
            )
            &&& event.fd != fd ==> event_fill_of(&port, true, Some(fd)) is None
                && event_fill_of(&port, false, Some(fd)) is None
        },
        port.device_event is None ==> event_fill_of(&port, true, Some(fd)) is None
            && event_fill_of(&port, false, Some(fd)) is None,
{
    if let Some(event) = port.device_event {
        if let Some(frames) = event.queued_frames {
            assert(frames * port.stride() >= 0) by (nonlinear_arith)
                requires
                    frames >= 0,
                    port.stride() >= 0,
            ;
        }
    }
}

/// A counter that went on adds what it gained; one that was reset adds all that it shows.
pub proof fn counter_adds_what_it_gained(total: u32, reported: u32)
    ensures
        total >= reported ==> counter_delta(total, reported) + reported == total,
        total < reported ==> counter_delta(total, reported) == total,
{
}

/// A port that forgets its device's events keeps everything else.
pub proof fn forgotten_events_leave_the_rest<E>(port: Port<E>)
    ensures
        ({
            let after = port.without_device_event();
            &&& after.device_event is None
            &&& !after.device_eof
            &&& after.event_xruns_seen == 0
            &&& after.wake_threshold == 0
            &&& after == (Port {
                device_event: None,
                device_eof: false,
                event_xruns_seen: 0,
                wake_threshold: 0,
                ..port
            })
        }),
{
}

/// A restarted servo restarts in both of its parts, with the geometry that it has.
pub proof fn restarted_servo_keeps_its_geometry(servo: Servo)
    ensures
        servo.relocked().loop_cold,
        servo.relocked().bandwidth_cold,
        servo.relocked().geometry == servo.geometry,
{
}

/// A new port has no format, no period and nothing under way, and its servo is cold.
pub proof fn new_port_is_idle<E>(ext: E)
    ensures
        ({
            let port = Port::fresh(ext);
            &&& port.config is None
            &&& port.setup_period == 0 && port.setup_blocksize == 0
            &&& port.servo.loop_cold && port.servo.bandwidth_cold && port.servo.geometry is None
            &&& !port.was_matching && port.pending_xrun is None
            &&& port.device_event is None && !port.device_eof && port.event_xruns_seen == 0
            &&& port.wake_threshold == 0
            &&& !port.rebuild_pending && port.generation == 0
            &&& port.ext == ext
        }),
{
}

} // verus!
