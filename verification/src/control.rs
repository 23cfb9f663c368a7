//! Node commands: what Start, Pause and Suspend do to the data loop, and how the
//! control thread takes a device over, step by step.
use vstd::prelude::*;

use crate::abi;
use crate::direction::{
    on_role_flip, role_flipped, sink_start, sink_started, source_start, source_started, Direction,
    ResumeOutcome,
};
use crate::errno::Errno;
use crate::port::{reset_device_event, Port, PortConfig};
use crate::rebuild::{
    port_replaced, replace_port, NodeData, NodeShared, OpenError, PollOutcome, RebuildWork,
};
use crate::sink::geometry::SinkPortExt;
use crate::source::geometry::SourcePortExt;

verus! {

/// A command to a node.
#[derive(Debug, Clone, Copy, PartialEq, Eq, Structural)]
pub enum NodeCommand {
    Start,
    Pause,
    Suspend,
    /// A bracket around parameter changes, of which nothing follows.
    ParamBracket,
    Unknown,
}

/// The command that a type and an id stand for.
pub open spec fn command_of(type_: u32, id: u32) -> NodeCommand {
    if type_ != abi::COMMAND_NODE {
        NodeCommand::Unknown
    } else if id == abi::NODE_COMMAND_START {
        NodeCommand::Start
    } else if id == abi::NODE_COMMAND_PAUSE {
        NodeCommand::Pause
    } else if id == abi::NODE_COMMAND_SUSPEND {
        NodeCommand::Suspend
    } else if id == abi::NODE_COMMAND_PARAM_BEGIN || id == abi::NODE_COMMAND_PARAM_END {
        NodeCommand::ParamBracket
    } else {
        NodeCommand::Unknown
    }
}

/// The command that a type and an id stand for.
pub fn decode_command(type_: u32, id: u32) -> (command: NodeCommand)
    ensures
        command == command_of(type_, id),
{
    if type_ != abi::COMMAND_NODE {
        return NodeCommand::Unknown;
    }
    match id {
        abi::NODE_COMMAND_START => NodeCommand::Start,
        abi::NODE_COMMAND_PAUSE => NodeCommand::Pause,
        abi::NODE_COMMAND_SUSPEND => NodeCommand::Suspend,
        abi::NODE_COMMAND_PARAM_BEGIN | abi::NODE_COMMAND_PARAM_END => NodeCommand::ParamBracket,
        _ => NodeCommand::Unknown,
    }
}

/// What the host is told of a command: a bracket is of no effect, an unknown command is
/// not supported, and any other one succeeds where it was carried out to its end.
pub open spec fn command_answer(command: NodeCommand, carried_out: bool) -> Result<(), Errno> {
    match command {
        NodeCommand::ParamBracket => Ok(()),
        NodeCommand::Unknown => Err(Errno::NotSupported),
        _ => if carried_out {
            Ok(())
        } else {
            Err(Errno::Io)
        },
    }
}

/// What the host is told of a command.
pub fn command_result(command: NodeCommand, carried_out: bool) -> (r: Result<(), Errno>)
    ensures
        r == command_answer(command, carried_out),
{
    match command {
        NodeCommand::ParamBracket => Ok(()),
        NodeCommand::Unknown => Err(Errno::NotSupported),
        NodeCommand::Start | NodeCommand::Pause | NodeCommand::Suspend => if carried_out {
            Ok(())
        } else {
            Err(Errno::Io)
        },
    }
}

/// The name of a command, for messages.
pub fn spa_command_to_str(type_: u32, id: u32) -> (name: &'static str)
    ensures
        name@ == if type_ != abi::COMMAND_NODE {
            "???"@
        } else if id == abi::NODE_COMMAND_START {
            "SPA_NODE_COMMAND_Start"@
        } else if id == abi::NODE_COMMAND_SUSPEND {
            "SPA_NODE_COMMAND_Suspend"@
        } else if id == abi::NODE_COMMAND_PAUSE {
            "SPA_NODE_COMMAND_Pause"@
        } else if id == abi::NODE_COMMAND_PARAM_BEGIN {
            "SPA_NODE_COMMAND_ParamBegin"@
        } else if id == abi::NODE_COMMAND_PARAM_END {
            "SPA_NODE_COMMAND_ParamEnd"@
        } else {
            "SPA_NODE_COMMAND_???"@
        },
{
    if type_ != abi::COMMAND_NODE {
        return "???";
    }
    match id {
        abi::NODE_COMMAND_START => "SPA_NODE_COMMAND_Start",
        abi::NODE_COMMAND_SUSPEND => "SPA_NODE_COMMAND_Suspend",
        abi::NODE_COMMAND_PAUSE => "SPA_NODE_COMMAND_Pause",
        abi::NODE_COMMAND_PARAM_BEGIN => "SPA_NODE_COMMAND_ParamBegin",
        abi::NODE_COMMAND_PARAM_END => "SPA_NODE_COMMAND_ParamEnd",
        _ => "SPA_NODE_COMMAND_???",
    }
}

/// An exchange area that an entry point takes, with the size and the alignment that
/// its structure needs.
#[derive(Debug, Clone, Copy, PartialEq, Eq)]
pub struct IoAreaKind {
    pub id: u32,
    pub size: usize,
    pub align: usize,
}

/// Whether an address is a multiple of an alignment.
pub open spec fn is_aligned(address: usize, align: usize) -> bool {
    if align == 0 {
        address == 0
    } else {
        address % align == 0
    }
}

/// Whether `kind` is the first entry of the table for an id.
pub open spec fn first_kind(table: Seq<IoAreaKind>, id: u32, i: int) -> bool {
    &&& 0 <= i < table.len()
    &&& table[i].id == id
    &&& forall|j: int| 0 <= j < i ==> (#[trigger] table[j]).id != id
}

/// What is said of an area at `address` (0 for none) of `size` bytes.
pub open spec fn area_verdict(kind: IoAreaKind, address: usize, size: usize) -> Result<(), Errno> {
    if address == 0 {
        Ok(())
    } else if size < kind.size {
        Err(Errno::NoSpace)
    } else if !is_aligned(address, kind.align) {
        Err(Errno::Invalid)
    } else {
        Ok(())
    }
}

/// Whether an exchange area can be used: an unknown id, then a short area, then a
/// misaligned one is refused. No area at all clears it, whatever the size says.
pub fn io_area_ok(table: &Vec<IoAreaKind>, id: u32, address: usize, size: usize) -> (r: Result<
    (),
    Errno,
>)
    ensures
        (forall|i: int| 0 <= i < table@.len() ==> (#[trigger] table@[i]).id != id) ==> r == Err::<
            (),
            Errno,
        >(Errno::NoEntry),
        forall|i: int| #[trigger]
            first_kind(table@, id, i) ==> r == area_verdict(table@[i], address, size),
{
    let mut i: usize = 0;
    while i < table.len()
        invariant
            i <= table.len(),
            forall|j: int| 0 <= j < i ==> (#[trigger] table@[j]).id != id,
        decreases table.len() - i,
    {
        let kind = table[i];
        if kind.id == id {
            assert(first_kind(table@, id, i as int));
            if address == 0 {
                return Ok(());
            }
            if size < kind.size {
                return Err(Errno::NoSpace);
            }
            if !address.is_multiple_of(kind.align) {
                return Err(Errno::Invalid);
            }
            return Ok(());
        }
        i = i + 1;
    }
    Err(Errno::NoEntry)
}

/// Whether the node follows: a driver's clock and its own are both known, and they
/// are not the same.
pub open spec fn follows(driver: Option<u32>, ours: Option<u32>) -> bool {
    driver is Some && ours is Some && driver != ours
}

/// Whether the node follows another driver.
pub fn node_is_follower(driver: Option<u32>, ours: Option<u32>) -> (following: bool)
    ensures
        following == follows(driver, ours),
{
    match (driver, ours) {
        (Some(driver), Some(ours)) => driver != ours,
        _ => false,
    }
}

/// The data loop after an exchange area changed.
pub open spec fn io_changed<E, V>(data: NodeData<E, V>, following: bool) -> NodeData<E, V> {
    if data.started && data.following != following {
        NodeData { following, port: role_flipped(data.port), ..data }
    } else {
        data
    }
}

/// Takes up a changed exchange area on a running node. Returns whether the driver's
/// wake-up has to be armed anew: only on a change of role or of the areas' presence,
/// for every reset of the timer bunches cycles.
pub fn apply_io_change<E, V>(
    data: &mut NodeData<E, V>,
    was_armed: bool,
    armed: bool,
    following: bool,
) -> (rearm: bool)
    ensures
        *final(data) == io_changed(*old(data), following),
        rearm == (old(data).started && (old(data).following != following || was_armed != armed)),
{
    if !data.started {
        return false;
    }
    let flipped = data.following != following;
    if flipped {
        data.following = following;
        on_role_flip(&mut data.port);
    }
    flipped || was_armed != armed
}

/// Restores the worker's view of the node where a stop did not reach the data loop;
/// a stop that did stays in effect.
pub fn restore_started_if_stop_unobserved(started: &mut bool, was_started: bool, data_stopped: bool)
    ensures
        *final(started) == if data_stopped {
            *old(started)
        } else {
            was_started
        },
{
    if !data_stopped {
        *started = was_started;
    }
}

/// Whether the port is negotiated, so that the node can start.
pub fn can_start<E, V>(data: &NodeData<E, V>) -> (ready: bool)
    ensures
        ready == negotiated(*data),
{
    data.port.config.is_some() && data.n_buffers > 0
}

/// Marks the data loop as started.
pub fn start_data<E, V>(data: &mut NodeData<E, V>, following: bool)
    ensures
        *final(data) == (NodeData { started: true, following, ..*old(data) }),
{
    data.started = true;
    data.following = following;
}

/// Whether the port is negotiated, so that the node can start.
pub open spec fn negotiated<E, V>(data: NodeData<E, V>) -> bool {
    data.port.config is Some && data.n_buffers > 0
}

/// Starts a node whose port is negotiated, and shows the worker that it runs; any other
/// node is left as it is. Returns whether the node started.
pub fn start_if_negotiated<E, V>(
    data: &mut NodeData<E, V>,
    shared: &mut NodeShared<V>,
    following: bool,
) -> (started: bool)
    ensures
        started == (old(data).port.config is Some && old(data).n_buffers > 0),
        *final(data) == if started {
            NodeData { started: true, following, ..*old(data) }
        } else {
            *old(data)
        },
        *final(shared) == if started {
            NodeShared { started: true, ..*old(shared) }
        } else {
            *old(shared)
        },
{
    if !can_start(data) {
        return false;
    }
    start_data(data, following);
    shared.started = true;
    true
}

/// The data loop after Start, whose port is `port` where the node starts.
pub open spec fn data_started<E, V>(
    data: NodeData<E, V>,
    following: bool,
    port: Port<E>,
) -> NodeData<E, V> {
    if negotiated(data) {
        NodeData { started: true, following, port, ..data }
    } else {
        data
    }
}

/// What the worker sees after Start.
pub open spec fn shared_started<E, V>(data: NodeData<E, V>, shared: NodeShared<V>) -> NodeShared<V> {
    if negotiated(data) {
        NodeShared { started: true, ..shared }
    } else {
        shared
    }
}

/// Starting a node that is not negotiated changes nothing, neither of the data loop nor of
/// what the worker sees, and the host is told of it. A negotiated node starts, and the
/// worker sees that.
pub proof fn only_a_negotiated_node_starts<E, V>(
    data: NodeData<E, V>,
    shared: NodeShared<V>,
    following: bool,
    port: Port<E>,
)
    ensures
        !negotiated(data) ==> {
            &&& data_started(data, following, port) == data
            &&& shared_started(data, shared) == shared
        },
        negotiated(data) ==> {
            &&& data_started(data, following, port).started
            &&& shared_started(data, shared).started
        },
        command_answer(NodeCommand::Start, negotiated(data)) == if negotiated(data) {
            Ok::<(), Errno>(())
        } else {
            Err::<(), Errno>(Errno::Io)
        },
{
}

/// Starts a playback node. `outcome` is how the device took the request to continue its
/// queue, which is only made of a negotiated node.
pub fn start_playback<V>(
    data: &mut NodeData<SinkPortExt, V>,
    shared: &mut NodeShared<V>,
    following: bool,
    outcome: ResumeOutcome,
) -> (started: bool)
    ensures
        started == negotiated(*old(data)),
        *final(data) == data_started(
            *old(data),
            following,
            sink_started(old(data).port, outcome),
        ),
        *final(shared) == shared_started(*old(data), *old(shared)),
{
    if can_start(data) {
        sink_start(&mut data.port, outcome);
    }
    start_if_negotiated(data, shared, following)
}

/// Starts a capture node.
pub fn start_capture<V>(
    data: &mut NodeData<SourcePortExt, V>,
    shared: &mut NodeShared<V>,
    following: bool,
) -> (started: bool)
    ensures
        started == negotiated(*old(data)),
        *final(data) == data_started(*old(data), following, source_started(old(data).port)),
        *final(shared) == shared_started(*old(data), *old(shared)),
{
    if can_start(data) {
        source_start(&mut data.port);
    }
    start_if_negotiated(data, shared, following)
}

/// The port with its claim taken and its generation advanced: every order and every
/// completion that was under way is now stale.
pub open spec fn fenced<E>(port: Port<E>) -> Port<E> {
    Port { rebuild_pending: true, generation: port.generation.wrapping_add(1), ..port }
}

/// The data loop with the control thread in charge of its device.
pub open spec fn taken_over<E, V>(data: NodeData<E, V>, port: Port<E>) -> NodeData<E, V> {
    NodeData { rebuild_takeover: true, deferred_work: None, port, ..data }
}

fn fence<E, V>(data: &mut NodeData<E, V>, shared: &mut NodeShared<V>) -> (deferred: Option<
    RebuildWork<V>,
>)
    ensures
        deferred == old(data).deferred_work,
        *final(data) == taken_over(*old(data), fenced(old(data).port)),
        *final(shared) == (NodeShared {
            generation: final(data).port.generation,
            ..*old(shared)
        }),
{
    data.rebuild_takeover = true;
    let deferred = data.deferred_work.take();
    data.port.rebuild_pending = true;
    data.port.generation = data.port.generation.wrapping_add(1);
    shared.generation = data.port.generation;
    deferred
}

/// Takes the device over for an install. The deferred command is handed back, to be
/// dropped by the control thread.
pub fn begin_install<E, V>(data: &mut NodeData<E, V>, shared: &mut NodeShared<V>) -> (deferred:
    Option<RebuildWork<V>>)
    ensures
        deferred == old(data).deferred_work,
        *final(data) == taken_over(*old(data), fenced(old(data).port)),
        final(shared).generation == final(data).port.generation,
        *final(shared) == (NodeShared { generation: final(shared).generation, ..*old(shared) }),
{
    fence(data, shared)
}

/// Stops the data loop for Pause and takes the device over. A capture or playback
/// queue is dealt with before, while the port is still started.
pub fn begin_pause<E, V>(data: &mut NodeData<E, V>, shared: &mut NodeShared<V>) -> (deferred: Option<
    RebuildWork<V>,
>)
    ensures
        deferred == old(data).deferred_work,
        *final(data) == (NodeData {
            started: false,
            ..taken_over(*old(data), fenced(old(data).port))
        }),
        final(shared).generation == final(data).port.generation,
        *final(shared) == (NodeShared { generation: final(shared).generation, ..*old(shared) }),
{
    data.started = false;
    fence(data, shared)
}

/// Stops the data loop for Suspend and moves the device out of it, behind a closed
/// placeholder.
pub fn begin_suspend<E: Direction, V>(
    data: &mut NodeData<E, V>,
    shared: &mut NodeShared<V>,
    placeholder: V,
) -> (r: (V, Option<RebuildWork<V>>))
    ensures
        r.0 == old(data).device,
        r.1 == old(data).deferred_work,
        *final(data) == (NodeData {
            started: false,
            device: placeholder,
            ..taken_over(
                *old(data),
                fenced(E::suspended(old(data).port)).without_device_event(),
            )
        }),
        final(shared).generation == final(data).port.generation,
        *final(shared) == (NodeShared { generation: final(shared).generation, ..*old(shared) }),
{
    data.started = false;
    E::on_suspend(&mut data.port);
    let deferred = fence(data, shared);
    reset_device_event(&mut data.port);
    let mut device = placeholder;
    core::mem::swap(&mut data.device, &mut device);
    (device, deferred)
}

/// Releases the format: the device leaves behind a closed placeholder, and the
/// configuration and the buffers are gone.
pub fn begin_release<E, V>(
    data: &mut NodeData<E, V>,
    shared: &mut NodeShared<V>,
    placeholder: V,
) -> (r: (V, Option<RebuildWork<V>>))
    ensures
        r.0 == old(data).device,
        r.1 == old(data).deferred_work,
        *final(data) == (NodeData {
            device: placeholder,
            n_buffers: 0,
            ..taken_over(
                *old(data),
                fenced(Port { config: None, ..old(data).port.without_device_event() }),
            )
        }),
        final(shared).generation == final(data).port.generation,
        *final(shared) == (NodeShared { generation: final(shared).generation, ..*old(shared) }),
{
    reset_device_event(&mut data.port);
    data.port.config = None;
    data.n_buffers = 0;
    let deferred = fence(data, shared);
    let mut device = placeholder;
    core::mem::swap(&mut data.device, &mut device);
    (device, deferred)
}

/// Ends a takeover without another device.
pub fn release_rebuild_takeover<E, V>(data: &mut NodeData<E, V>)
    ensures
        *final(data) == (NodeData {
            rebuild_takeover: false,
            port: Port { rebuild_pending: false, ..old(data).port },
            ..*old(data)
        }),
{
    data.rebuild_takeover = false;
    data.port.rebuild_pending = false;
}

/// Puts a device in place of the port's and drops the port's claim. The device that it
/// replaces is handed back.
pub fn replace_port_devices<E, V>(data: &mut NodeData<E, V>, device: V) -> (replaced: V)
    ensures
        replaced == old(data).device,
        *final(data) == (NodeData {
            device,
            port: Port { rebuild_pending: false, ..old(data).port.without_device_event() },
            ..*old(data)
        }),
{
    data.port.rebuild_pending = false;
    reset_device_event(&mut data.port);
    let mut replaced = device;
    core::mem::swap(&mut data.device, &mut replaced);
    replaced
}

/// Gives a suspended device back to the data loop and ends the takeover. The
/// placeholder is handed back.
pub fn restore_extracted_devices<E, V>(data: &mut NodeData<E, V>, device: V) -> (placeholder: V)
    ensures
        placeholder == old(data).device,
        *final(data) == (NodeData {
            device,
            rebuild_takeover: false,
            port: Port { rebuild_pending: false, ..old(data).port.without_device_event() },
            ..*old(data)
        }),
{
    let placeholder = replace_port_devices(data, device);
    data.rebuild_takeover = false;
    placeholder
}

/// Moves a busy device out of the data loop, behind a closed placeholder, so that its
/// replacement can be opened.
pub fn retire_current<E, V>(data: &mut NodeData<E, V>, placeholder: V) -> (retired: V)
    ensures
        retired == old(data).device,
        *final(data) == (NodeData { device: placeholder, ..*old(data) }),
{
    let mut retired = placeholder;
    core::mem::swap(&mut data.device, &mut retired);
    retired
}

/// Ends an install: the new device is in place, with its configuration or, where it
/// could not be configured, with none. The device that it replaces is handed back.
pub fn commit_install<E: Direction, V>(
    data: &mut NodeData<E, V>,
    shared: &mut NodeShared<V>,
    device: V,
    config: Option<PortConfig>,
) -> (r: (V, PollOutcome))
    ensures
        r.0 == old(data).device,
        r.1 == (PollOutcome {
            skip: false,
            invalidate_wake: true,
            update_wake: old(data).started,
        }),
        *final(data) == (NodeData {
            device,
            rebuild_takeover: false,
            port: port_replaced(old(data).port, config),
            ..*old(data)
        }),
        *final(shared) == (NodeShared {
            generation: port_replaced(old(data).port, config).generation,
            ..*old(shared)
        }),
{
    let mut replaced = device;
    core::mem::swap(&mut data.device, &mut replaced);
    replace_port(&mut data.port, config);
    shared.generation = data.port.generation;
    data.rebuild_takeover = false;
    (
        replaced,
        PollOutcome { skip: false, invalidate_wake: true, update_wake: data.started },
    )
}

/// The configuration to install again after a tunable changed: that of a running
/// port.
pub fn running_config<E, V>(data: &NodeData<E, V>, running: bool) -> (config: Option<PortConfig>)
    ensures
        match config {
            Some(config) => running && data.port.config is Some && config@
                == data.port.config->0@,
            None => !running || data.port.config is None,
        },
{
    if !running {
        return None;
    }
    match &data.port.config {
        Some(config) => Some(config.copy()),
        None => None,
    }
}

/// What a store of the tunables came to.
#[derive(Debug, Clone, Copy, PartialEq, Eq)]
pub struct StoreVerdict {
    pub result: Result<(), Errno>,
    /// The device of a running port could not be installed again: the host, which did not
    /// ask for that, has to be told that its format is gone.
    pub format_lost: bool,
}

/// What a store of the tunables on the data loop, and the install of a running port's
/// device that follows it, come to: the request fails only where nothing was stored.
pub fn store_and_rebuild(stored: bool, install: Option<HandoffResult>) -> (verdict: StoreVerdict)
    ensures
        verdict.result == if stored {
            Ok::<(), Errno>(())
        } else {
            Err::<(), Errno>(Errno::Io)
        },
        verdict.format_lost == (stored && install is Some && install
            != Some(HandoffResult::Done)),
{
    if !stored {
        return StoreVerdict { result: Err(Errno::Io), format_lost: false };
    }
    let format_lost = match install {
        None | Some(HandoffResult::Done) => false,
        Some(_) => true,
    };
    StoreVerdict { result: Ok(()), format_lost }
}

/// Every takeover makes what was under way stale: an order or a completion of the
/// generation before it no longer matches the port, and the worker no longer wants it.
pub proof fn takeover_retires_what_was_under_way<E, V>(
    data: NodeData<E, V>,
    shared: NodeShared<V>,
)
    ensures
        fenced(data.port).generation != data.port.generation,
        !(NodeShared {
            generation: fenced(data.port).generation,
            ..shared
        }).wants(data.port.generation),
        taken_over(data, fenced(data.port)).rebuild_takeover,
{
}

/// What the control thread does with a device.
#[derive(Debug, Clone, Copy, PartialEq, Eq, Structural)]
pub enum HandoffKind {
    /// Opens a device and puts it in place.
    Install,
    /// Releases the format.
    Release,
    Pause,
    Suspend,
}

/// What a takeover makes due for the wake-up, as whether that of the previous device is
/// void, and whether the driver's has to be armed anew. `started` tells whether the node
/// was started when its device was taken over.
pub fn takeover_wake(kind: HandoffKind, started: bool) -> (r: (bool, bool))
    ensures
        r == match kind {
            HandoffKind::Install => (false, started),
            HandoffKind::Release => (true, started),
            HandoffKind::Pause | HandoffKind::Suspend => (false, true),
        },
{
    match kind {
        HandoffKind::Install => (false, started),
        HandoffKind::Release => (true, started),
        HandoffKind::Pause | HandoffKind::Suspend => (false, true),
    }
}

/// How a handoff ended.
#[derive(Debug, Clone, Copy, PartialEq, Eq, Structural)]
pub enum HandoffResult {
    Done,
    /// The device could not be opened or configured.
    Refused(OpenError),
    /// The data loop or the worker did not answer.
    Unavailable,
}

/// The next operation of a handoff.
#[derive(Debug, Clone, Copy, PartialEq, Eq, Structural)]
pub enum HandoffAction {
    /// Take the device over on the data loop.
    TakeOver,
    /// Restore the worker's view of a node that was not stopped after all.
    RestoreStarted,
    /// Void the waiting completion, wait for the worker, and void again.
    Quiesce,
    /// Open and configure the device.
    Open,
    /// Move the port's own device out of the way and close it.
    RetireCurrent,
    /// Put the opened device in place, or a closed one where `opened` is false.
    Commit { opened: bool },
    /// Stop the extracted device, or close it where it cannot be stopped.
    StopDevice,
    /// Give the extracted device back to the data loop.
    RestoreDevice,
    /// End the takeover.
    ReleaseTakeover,
    Finish(HandoffResult),
}

/// Where a handoff stands.
#[derive(Debug, Clone, Copy, PartialEq, Eq, Structural)]
pub enum HandoffStage {
    TakingOver,
    RestoringStarted,
    Quiescing,
    Opening { again: bool },
    Retiring,
    Committing(Option<OpenError>),
    Stopping,
    Restoring { again: bool, stopped: bool },
    Releasing(HandoffResult),
    Finished,
}

/// The result of an operation of a handoff.
#[derive(Debug, Clone, Copy, PartialEq, Eq, Structural)]
pub enum HandoffReply {
    /// Whether the operation was carried out.
    Ran(bool),
    /// Whether the device was opened and configured.
    Opened(Option<OpenError>),
}

/// A handoff in progress.
#[derive(Debug, Clone, Copy, PartialEq, Eq, Structural)]
pub struct Handoff {
    pub kind: HandoffKind,
    pub stage: HandoffStage,
    /// The data loop's device is taken over and nothing has been done to give it back.
    pub leased: bool,
}

impl Handoff {
    /// Whether a reply fits the operation in progress.
    pub open spec fn accepts(self, reply: HandoffReply) -> bool {
        match self.stage {
            HandoffStage::Opening { .. } => reply is Opened,
            HandoffStage::Finished => false,
            _ => reply is Ran,
        }
    }

    /// The device is taken over exactly between the takeover and what ends it.
    pub open spec fn wf(self) -> bool {
        self.leased <==> match self.stage {
            HandoffStage::Quiescing
            | HandoffStage::Opening { .. }
            | HandoffStage::Retiring
            | HandoffStage::Stopping => true,
            _ => false,
        }
    }

    /// How many operations may still follow.
    pub open spec fn rank(self) -> nat {
        match self.stage {
            HandoffStage::TakingOver => 9,
            HandoffStage::Quiescing => 8,
            HandoffStage::Opening { again } => if again {
                5
            } else {
                7
            },
            HandoffStage::Retiring => 6,
            HandoffStage::Stopping => 5,
            HandoffStage::Committing(_) => 4,
            HandoffStage::Restoring { again, .. } => if again {
                3
            } else {
                4
            },
            HandoffStage::Releasing(_) => 2,
            HandoffStage::RestoringStarted => 1,
            HandoffStage::Finished => 0,
        }
    }
}

/// A handoff at a stage, with its operation.
pub open spec fn handoff_at(kind: HandoffKind, stage: HandoffStage, action: HandoffAction) -> (
    Handoff,
    HandoffAction,
) {
    let leased = stage is Quiescing || stage is Opening || stage is Retiring || stage is Stopping;
    (Handoff { kind, stage, leased }, action)
}

/// A handoff that ended.
pub open spec fn handoff_done(kind: HandoffKind, result: HandoffResult) -> (
    Handoff,
    HandoffAction,
) {
    handoff_at(kind, HandoffStage::Finished, HandoffAction::Finish(result))
}

/// A handoff that ends its takeover, to end with `result`.
pub open spec fn handoff_releasing(kind: HandoffKind, result: HandoffResult) -> (
    Handoff,
    HandoffAction,
) {
    handoff_at(kind, HandoffStage::Releasing(result), HandoffAction::ReleaseTakeover)
}

/// The first operation of a handoff.
pub open spec fn handoff_begun(kind: HandoffKind) -> (Handoff, HandoffAction) {
    handoff_at(kind, HandoffStage::TakingOver, HandoffAction::TakeOver)
}

/// What a reply leads to.
pub open spec fn handoff_next(handoff: Handoff, reply: HandoffReply) -> (Handoff, HandoffAction) {
    let kind = handoff.kind;
    let ran = reply == HandoffReply::Ran(true);
    match handoff.stage {
        HandoffStage::TakingOver => if ran {
            handoff_at(kind, HandoffStage::Quiescing, HandoffAction::Quiesce)
        } else if kind == HandoffKind::Pause || kind == HandoffKind::Suspend {
            handoff_at(kind, HandoffStage::RestoringStarted, HandoffAction::RestoreStarted)
        } else {
            handoff_done(kind, HandoffResult::Unavailable)
        },
        HandoffStage::RestoringStarted => handoff_done(kind, HandoffResult::Unavailable),
        HandoffStage::Quiescing => if !ran && kind == HandoffKind::Suspend {
            handoff_at(
                kind,
                HandoffStage::Restoring { again: false, stopped: false },
                HandoffAction::RestoreDevice,
            )
        } else if !ran {
            handoff_releasing(kind, HandoffResult::Unavailable)
        } else {
            match kind {
                HandoffKind::Install => handoff_at(
                    kind,
                    HandoffStage::Opening { again: false },
                    HandoffAction::Open,
                ),
                HandoffKind::Suspend => handoff_at(
                    kind,
                    HandoffStage::Stopping,
                    HandoffAction::StopDevice,
                ),
                _ => handoff_releasing(kind, HandoffResult::Done),
            }
        },
        HandoffStage::Opening { again } => match reply {
            HandoffReply::Opened(Some(OpenError::Busy)) if !again => handoff_at(
                kind,
                HandoffStage::Retiring,
                HandoffAction::RetireCurrent,
            ),
            HandoffReply::Opened(error) => handoff_at(
                kind,
                HandoffStage::Committing(error),
                HandoffAction::Commit { opened: error is None },
            ),
            _ => handoff_releasing(kind, HandoffResult::Unavailable),
        },
        HandoffStage::Retiring => if ran {
            handoff_at(kind, HandoffStage::Opening { again: true }, HandoffAction::Open)
        } else {
            handoff_releasing(kind, HandoffResult::Unavailable)
        },
        HandoffStage::Committing(error) => if !ran {
            handoff_releasing(kind, HandoffResult::Unavailable)
        } else {
            match error {
                None => handoff_done(kind, HandoffResult::Done),
                Some(error) => handoff_done(kind, HandoffResult::Refused(error)),
            }
        },
        HandoffStage::Stopping => handoff_at(
            kind,
            HandoffStage::Restoring { again: false, stopped: true },
            HandoffAction::RestoreDevice,
        ),
        HandoffStage::Restoring { again, stopped } => if ran {
            handoff_done(
                kind,
                if stopped && !again {
                    HandoffResult::Done
                } else {
                    HandoffResult::Unavailable
                },
            )
        } else if again {
            handoff_done(kind, HandoffResult::Unavailable)
        } else {
            handoff_at(
                kind,
                HandoffStage::Restoring { again: true, stopped },
                HandoffAction::RestoreDevice,
            )
        },
        HandoffStage::Releasing(result) => handoff_done(
            kind,
            if ran {
                result
            } else {
                HandoffResult::Unavailable
            },
        ),
        HandoffStage::Finished => handoff_done(kind, HandoffResult::Unavailable),
    }
}

fn at(kind: HandoffKind, stage: HandoffStage, action: HandoffAction) -> (r: (Handoff, HandoffAction))
    ensures
        r == handoff_at(kind, stage, action),
{
    let leased = match stage {
        HandoffStage::Quiescing
        | HandoffStage::Opening { .. }
        | HandoffStage::Retiring
        | HandoffStage::Stopping => true,
        _ => false,
    };
    (Handoff { kind, stage, leased }, action)
}

fn finished(kind: HandoffKind, result: HandoffResult) -> (r: (Handoff, HandoffAction))
    ensures
        r == handoff_done(kind, result),
{
    at(kind, HandoffStage::Finished, HandoffAction::Finish(result))
}

fn releasing(kind: HandoffKind, result: HandoffResult) -> (r: (Handoff, HandoffAction))
    ensures
        r == handoff_releasing(kind, result),
{
    at(kind, HandoffStage::Releasing(result), HandoffAction::ReleaseTakeover)
}

/// Starts a handoff and names its first operation.
pub fn begin_handoff(kind: HandoffKind) -> (r: (Handoff, HandoffAction))
    ensures
        r == handoff_begun(kind),
        r.0.wf(),
{
    at(kind, HandoffStage::TakingOver, HandoffAction::TakeOver)
}

/// Takes the result of an operation and names the next one.
pub fn step_handoff(handoff: Handoff, reply: HandoffReply) -> (r: (Handoff, HandoffAction))
    requires
        handoff.wf(),
        handoff.accepts(reply),
    ensures
        r == handoff_next(handoff, reply),
        r.0.wf(),
{
    let kind = handoff.kind;
    let ran = match reply {
        HandoffReply::Ran(ran) => ran,
        HandoffReply::Opened(_) => false,
    };
    match handoff.stage {
        HandoffStage::TakingOver => if ran {
            at(kind, HandoffStage::Quiescing, HandoffAction::Quiesce)
        } else {
            match kind {
                HandoffKind::Pause | HandoffKind::Suspend => at(
                    kind,
                    HandoffStage::RestoringStarted,
                    HandoffAction::RestoreStarted,
                ),
                _ => finished(kind, HandoffResult::Unavailable),
            }
        },
        HandoffStage::RestoringStarted => finished(kind, HandoffResult::Unavailable),
        HandoffStage::Quiescing => match (kind, ran) {
            (HandoffKind::Install, true) => at(
                kind,
                HandoffStage::Opening { again: false },
                HandoffAction::Open,
            ),
            (HandoffKind::Suspend, true) => at(
                kind,
                HandoffStage::Stopping,
                HandoffAction::StopDevice,
            ),
            (HandoffKind::Suspend, false) => at(
                kind,
                HandoffStage::Restoring { again: false, stopped: false },
                HandoffAction::RestoreDevice,
            ),
            (_, true) => releasing(kind, HandoffResult::Done),
            (_, false) => releasing(kind, HandoffResult::Unavailable),
        },
        HandoffStage::Opening { again } => match reply {
            HandoffReply::Opened(error) => {
                if !again && error == Some(OpenError::Busy) {
                    at(kind, HandoffStage::Retiring, HandoffAction::RetireCurrent)
                } else {
                    at(
                        kind,
                        HandoffStage::Committing(error),
                        HandoffAction::Commit { opened: error.is_none() },
                    )
                }
            },
            _ => releasing(kind, HandoffResult::Unavailable),
        },
        HandoffStage::Retiring => if ran {
            at(kind, HandoffStage::Opening { again: true }, HandoffAction::Open)
        } else {
            releasing(kind, HandoffResult::Unavailable)
        },
        HandoffStage::Committing(error) => if !ran {
            releasing(kind, HandoffResult::Unavailable)
        } else {
            match error {
                None => finished(kind, HandoffResult::Done),
                Some(error) => finished(kind, HandoffResult::Refused(error)),
            }
        },
        HandoffStage::Stopping => at(
            kind,
            HandoffStage::Restoring { again: false, stopped: true },
            HandoffAction::RestoreDevice,
        ),
        HandoffStage::Restoring { again, stopped } => if ran {
            finished(
                kind,
                if stopped && !again {
                    HandoffResult::Done
                } else {
                    HandoffResult::Unavailable
                },
            )
        } else if again {
            finished(kind, HandoffResult::Unavailable)
        } else {
            at(
                kind,
                HandoffStage::Restoring { again: true, stopped },
                HandoffAction::RestoreDevice,
            )
        },
        HandoffStage::Releasing(result) => finished(
            kind,
            if ran {
                result
            } else {
                HandoffResult::Unavailable
            },
        ),
        HandoffStage::Finished => finished(kind, HandoffResult::Unavailable),
    }
}

/// Every handoff ends, and none ends with the device still taken over: each step
/// leaves fewer to come, and a takeover is always followed by an attempt to end it.
pub proof fn every_takeover_is_given_back(handoff: Handoff, reply: HandoffReply)
    requires
        handoff.wf(),
        handoff.accepts(reply),
    ensures
        ({
            let (next, action) = handoff_next(handoff, reply);
            &&& next.wf()
            &&& next.rank() < handoff.rank()
            &&& action is Finish <==> next.stage is Finished
            &&& action is Finish ==> !next.leased
            &&& handoff.leased && !next.leased ==> (action is Commit || action is RestoreDevice
                || action is ReleaseTakeover)
        }),
{
}

/// A handoff succeeds only through its last operation, and only where that was carried
/// out: an install by committing an opened device, a suspend by giving the stopped
/// device back at the first attempt, the others by ending the takeover.
pub proof fn success_takes_every_step(handoff: Handoff, reply: HandoffReply)
    requires
        handoff.wf(),
        handoff.accepts(reply),
        handoff_next(handoff, reply).1 == HandoffAction::Finish(HandoffResult::Done),
    ensures
        reply == HandoffReply::Ran(true),
        handoff.stage == HandoffStage::Committing(None::<OpenError>) || handoff.stage
            == HandoffStage::Releasing(HandoffResult::Done) || (handoff.stage
            == HandoffStage::Restoring { again: false, stopped: true }),
{
}

/// Each command has its own number, and no other number or type is taken for one.
pub proof fn commands_have_their_own_numbers(type_: u32, id: u32)
    ensures
        command_of(0x30002, 0) == NodeCommand::Suspend,
        command_of(0x30002, 1) == NodeCommand::Pause,
        command_of(0x30002, 2) == NodeCommand::Start,
        command_of(0x30002, 8) == NodeCommand::ParamBracket,
        command_of(0x30002, 9) == NodeCommand::ParamBracket,
        type_ != 0x30002 ==> command_of(type_, id) == NodeCommand::Unknown,
        2 < id < 8 || 9 < id ==> command_of(type_, id) == NodeCommand::Unknown,
{
}

/// The host hears of a command that nobody knows, and of one that was not carried out.
pub proof fn host_hears_of_a_failed_command(command: NodeCommand)
    ensures
        command == NodeCommand::Start || command == NodeCommand::Pause || command
            == NodeCommand::Suspend ==> command_answer(command, true) == Ok::<(), Errno>(())
            && command_answer(command, false) == Err::<(), Errno>(Errno::Io),
        forall|carried_out: bool| #[trigger]
            command_answer(NodeCommand::Unknown, carried_out) == Err::<(), Errno>(
                Errno::NotSupported,
            ),
        forall|carried_out: bool| #[trigger]
            command_answer(NodeCommand::ParamBracket, carried_out) == Ok::<(), Errno>(()),
{
}

/// An area is taken where it holds its structure at a multiple of the structure's
/// alignment, and clearing one always works. A short area is told apart from a misaligned
/// one.
pub proof fn area_holds_its_structure(kind: IoAreaKind, address: usize, size: usize, whole: nat)
    ensures
        area_verdict(kind, 0, size) == Ok::<(), Errno>(()),
        address != 0 && size < kind.size ==> area_verdict(kind, address, size) == Err::<(), Errno>(
            Errno::NoSpace,
        ),
        address != 0 && size >= kind.size && kind.align > 0 && address == whole * kind.align
            ==> area_verdict(kind, address, size) == Ok::<(), Errno>(()),
        address != 0 && size >= kind.size && kind.align > 0 && whole * kind.align < address < (whole
            + 1) * kind.align ==> area_verdict(kind, address, size) == Err::<(), Errno>(
            Errno::Invalid,
        ),
        address != 0 && size >= kind.size && kind.align == 0 ==> area_verdict(kind, address, size)
            == Err::<(), Errno>(Errno::Invalid),
{
    if kind.align > 0 {
        let align = kind.align as int;
        if address == whole * kind.align {
            vstd::arithmetic::div_mod::lemma_mod_multiples_basic(whole as int, align);
        } else if whole * kind.align < address < (whole + 1) * kind.align {
            let rest = address - whole * align;
            assert((whole + 1) * align == whole * align + align) by (nonlinear_arith);
            vstd::arithmetic::div_mod::lemma_mod_multiples_vanish(whole as int, rest, align);
            vstd::arithmetic::div_mod::lemma_small_mod(rest as nat, align as nat);
            assert(align * whole as int + rest == address) by (nonlinear_arith)
                requires
                    rest == address - whole * align,
            ;
        }
    }
}

/// An id that stands in the table has one kind there, the first of its entries.
pub proof fn known_area_has_one_kind(table: Seq<IoAreaKind>, id: u32, known: int)
    requires
        0 <= known < table.len(),
        table[known].id == id,
    ensures
        exists|i: int| 0 <= i <= known && #[trigger] first_kind(table, id, i),
        forall|i: int| #[trigger] first_kind(table, id, i) ==> i <= known && table[i].id == id,
        forall|i: int, j: int| #[trigger]
            first_kind(table, id, i) && #[trigger] first_kind(table, id, j) ==> i == j,
    decreases known,
{
    if forall|j: int| 0 <= j < known ==> (#[trigger] table[j]).id != id {
        assert(first_kind(table, id, known));
    } else {
        let earlier = choose|j: int| 0 <= j < known && (#[trigger] table[j]).id == id;
        known_area_has_one_kind(table, id, earlier);
    }
}

/// A node follows the driver whose clock is not its own. Without a driver's clock, or
/// without one of its own, it does not.
pub proof fn node_follows_another_clock(driver: u32, ours: u32)
    ensures
        follows(Some(driver), Some(ours)) == (driver != ours),
        !follows(None, Some(ours)),
        !follows(Some(driver), None),
        !follows(None, None),
{
}

/// A change of role restarts the servo and forgets the matching history, and changes
/// nothing else; without one, or on a stopped node, everything stays.
pub proof fn role_change_restarts_the_servo<E, V>(data: NodeData<E, V>, following: bool)
    ensures
        ({
            let after = io_changed(data, following);
            &&& data.started && data.following != following ==> {
                &&& after.following == following
                &&& after.port.servo.loop_cold
                &&& after.port.servo.bandwidth_cold
                &&& after.port.servo.geometry == data.port.servo.geometry
                &&& !after.port.was_matching
                &&& after.port == (Port {
                    servo: after.port.servo,
                    was_matching: false,
                    ..data.port
                })
                &&& after == (NodeData { following, port: after.port, ..data })
            }
            &&& !data.started || data.following == following ==> after == data
        }),
{
}

/// A node starts where its port has a format and buffers: the data loop and the worker
/// both see it started, with the role that it was given and the port that was prepared.
pub proof fn start_takes_a_format_and_buffers<E, V>(
    data: NodeData<E, V>,
    shared: NodeShared<V>,
    following: bool,
    port: Port<E>,
)
    ensures
        negotiated(data) == (data.port.config is Some && data.n_buffers > 0),
        data.port.config is Some && data.n_buffers > 0 ==> {
            &&& data_started(data, following, port) == (NodeData {
                started: true,
                following,
                port,
                ..data
            })
            &&& shared_started(data, shared) == (NodeShared { started: true, ..shared })
        },
        data.port.config is None || data.n_buffers == 0 ==> {
            &&& data_started(data, following, port) == data
            &&& shared_started(data, shared) == shared
        },
{
}

/// A takeover claims the port and advances its generation; the stuck command leaves the
/// data loop, and everything else stays.
pub proof fn takeover_claims_the_port<E, V>(data: NodeData<E, V>)
    ensures
        ({
            let after = taken_over(data, fenced(data.port));
            &&& after.rebuild_takeover
            &&& after.deferred_work is None
            &&& after.port == (Port {
                rebuild_pending: true,
                generation: data.port.generation.wrapping_add(1),
                ..data.port
            })
            &&& after == (NodeData {
                rebuild_takeover: true,
                deferred_work: None,
                port: after.port,
                ..data
            })
        }),
{
}

/// A handoff after its takeover and the given replies, with its next operation.
pub open spec fn handed_off(kind: HandoffKind, replies: Seq<HandoffReply>) -> (
    Handoff,
    HandoffAction,
)
    decreases replies.len(),
{
    if replies.len() == 0 {
        handoff_begun(kind)
    } else {
        handoff_next(handed_off(kind, replies.drop_last()).0, replies.last())
    }
}

proof fn one_more(kind: HandoffKind, replies: Seq<HandoffReply>, reply: HandoffReply)
    ensures
        handed_off(kind, replies.push(reply)) == handoff_next(handed_off(kind, replies).0, reply),
{
    assert(replies.push(reply).drop_last() =~= replies);
}

/// An install takes the device over, quiesces the worker, opens the device, and puts it in
/// place; it is done when that is.
pub proof fn install_opens_and_commits()
    ensures
        ({
            let ran = HandoffReply::Ran(true);
            let opened = HandoffReply::Opened(None);
            let kind = HandoffKind::Install;
            &&& handed_off(kind, seq![]).1 == HandoffAction::TakeOver
            &&& handed_off(kind, seq![ran]).1 == HandoffAction::Quiesce
            &&& handed_off(kind, seq![ran, ran]).1 == HandoffAction::Open
            &&& handed_off(kind, seq![ran, ran, opened]).1 == HandoffAction::Commit { opened: true }
            &&& handed_off(kind, seq![ran, ran, opened, ran]).1 == HandoffAction::Finish(
                HandoffResult::Done,
            )
            &&& handed_off(kind, seq![ran, ran, opened, HandoffReply::Ran(false)]).1
                == HandoffAction::ReleaseTakeover
        }),
{
    let ran = HandoffReply::Ran(true);
    let opened = HandoffReply::Opened(None);
    let kind = HandoffKind::Install;
    one_more(kind, seq![], ran);
    one_more(kind, seq![ran], ran);
    one_more(kind, seq![ran, ran], opened);
    one_more(kind, seq![ran, ran, opened], ran);
    one_more(kind, seq![ran, ran, opened], HandoffReply::Ran(false));
    assert(seq![].push(ran) =~= seq![ran]);
    assert(seq![ran].push(ran) =~= seq![ran, ran]);
    assert(seq![ran, ran].push(opened) =~= seq![ran, ran, opened]);
    assert(seq![ran, ran, opened].push(ran) =~= seq![ran, ran, opened, ran]);
    assert(seq![ran, ran, opened].push(HandoffReply::Ran(false)) =~= seq![
        ran,
        ran,
        opened,
        HandoffReply::Ran(false),
    ]);
}

/// An install that finds the device busy moves the port's own out of the way and opens
/// once more. Any other error, and any at the second attempt, leaves a closed device in
/// place, and the caller hears of the error.
pub proof fn install_retries_a_busy_device_once(error: OpenError)
    ensures
        ({
            let ran = HandoffReply::Ran(true);
            let busy = HandoffReply::Opened(Some(OpenError::Busy));
            let failed = HandoffReply::Opened(Some(error));
            let opened = HandoffReply::Opened(None);
            let kind = HandoffKind::Install;
            let (first, _) = handed_off(kind, seq![ran, ran]);
            let (retiring, retire) = handoff_next(first, busy);
            let (second, open) = handoff_next(retiring, ran);
            let (closing, closed) = handoff_next(second, failed);
            let (placing, placed) = handoff_next(second, opened);
            &&& retire == HandoffAction::RetireCurrent
            &&& open == HandoffAction::Open
            &&& closed == HandoffAction::Commit { opened: false }
            &&& handoff_next(closing, ran).1 == HandoffAction::Finish(HandoffResult::Refused(error))
            &&& placed == HandoffAction::Commit { opened: true }
            &&& handoff_next(placing, ran).1 == HandoffAction::Finish(HandoffResult::Done)
            &&& handoff_next(retiring, HandoffReply::Ran(false)).1 == HandoffAction::ReleaseTakeover
            &&& error != OpenError::Busy ==> {
                let (refusing, refused) = handoff_next(first, failed);
                &&& refused == HandoffAction::Commit { opened: false }
                &&& handoff_next(refusing, ran).1 == HandoffAction::Finish(
                    HandoffResult::Refused(error),
                )
            }
        }),
{
    let ran = HandoffReply::Ran(true);
    let kind = HandoffKind::Install;
    one_more(kind, seq![], ran);
    one_more(kind, seq![ran], ran);
    assert(seq![].push(ran) =~= seq![ran]);
    assert(seq![ran].push(ran) =~= seq![ran, ran]);
}

/// Pause and a release of the format quiesce the worker and end the takeover.
pub proof fn pause_and_release_end_their_takeover(kind: HandoffKind)
    requires
        kind == HandoffKind::Pause || kind == HandoffKind::Release,
    ensures
        ({
            let ran = HandoffReply::Ran(true);
            let lost = HandoffReply::Ran(false);
            let (taking, take) = handoff_begun(kind);
            let (quiescing, quiesce) = handoff_next(taking, ran);
            let (releasing, release) = handoff_next(quiescing, ran);
            let (giving_up, give_up) = handoff_next(quiescing, lost);
            &&& take == HandoffAction::TakeOver
            &&& quiesce == HandoffAction::Quiesce
            &&& release == HandoffAction::ReleaseTakeover
            &&& handoff_next(releasing, ran).1 == HandoffAction::Finish(HandoffResult::Done)
            &&& handoff_next(releasing, lost).1 == HandoffAction::Finish(HandoffResult::Unavailable)
            &&& give_up == HandoffAction::ReleaseTakeover
            &&& handoff_next(giving_up, ran).1 == HandoffAction::Finish(HandoffResult::Unavailable)
        }),
{
}

/// Suspend quiesces the worker, stops the device outside the data loop and gives it back,
/// with a second attempt where the first does not arrive. A worker that does not answer
/// has the device given back as it is. Only the stopped device, given back at the first
/// attempt, is a success.
pub proof fn suspend_stops_and_gives_the_device_back(stopped: bool)
    ensures
        ({
            let ran = HandoffReply::Ran(true);
            let lost = HandoffReply::Ran(false);
            let (taking, take) = handoff_begun(HandoffKind::Suspend);
            let (quiescing, quiesce) = handoff_next(taking, ran);
            let (stopping, stop) = handoff_next(quiescing, ran);
            let (giving, give) = handoff_next(stopping, HandoffReply::Ran(stopped));
            let (again, second) = handoff_next(giving, lost);
            let (unquiet, as_it_is) = handoff_next(quiescing, lost);
            &&& take == HandoffAction::TakeOver
            &&& quiesce == HandoffAction::Quiesce
            &&& stop == HandoffAction::StopDevice
            &&& give == HandoffAction::RestoreDevice
            &&& handoff_next(giving, ran).1 == HandoffAction::Finish(HandoffResult::Done)
            &&& second == HandoffAction::RestoreDevice
            &&& handoff_next(again, ran).1 == HandoffAction::Finish(HandoffResult::Unavailable)
            &&& handoff_next(again, lost).1 == HandoffAction::Finish(HandoffResult::Unavailable)
            &&& as_it_is == HandoffAction::RestoreDevice
            &&& handoff_next(unquiet, ran).1 == HandoffAction::Finish(HandoffResult::Unavailable)
            &&& handoff_next(unquiet, lost).1 == HandoffAction::RestoreDevice
        }),
{
}

/// A data loop that cannot be reached ends the handoff: the worker's view of a node that
/// was to be stopped is restored before.
pub proof fn unreachable_data_loop_ends_the_handoff(kind: HandoffKind, restored: bool)
    ensures
        ({
            let (taking, _) = handoff_begun(kind);
            let (next, action) = handoff_next(taking, HandoffReply::Ran(false));
            &&& kind == HandoffKind::Install || kind == HandoffKind::Release ==> action
                == HandoffAction::Finish(HandoffResult::Unavailable)
            &&& kind == HandoffKind::Pause || kind == HandoffKind::Suspend ==> {
                &&& action == HandoffAction::RestoreStarted
                &&& handoff_next(next, HandoffReply::Ran(restored)).1 == HandoffAction::Finish(
                    HandoffResult::Unavailable,
                )
            }
        }),
{
}

/// An install whose worker does not answer gives the device back and ends without one.
pub proof fn install_without_a_worker_gives_the_device_back()
    ensures
        ({
            let (taking, _) = handoff_begun(HandoffKind::Install);
            let (quiescing, _) = handoff_next(taking, HandoffReply::Ran(true));
            let (releasing, release) = handoff_next(quiescing, HandoffReply::Ran(false));
            &&& release == HandoffAction::ReleaseTakeover
            &&& handoff_next(releasing, HandoffReply::Ran(true)).1 == HandoffAction::Finish(
                HandoffResult::Unavailable,
            )
        }),
{
}

/// An open is answered with what became of it, any other operation with whether it was
/// carried out; a handoff that ended takes no reply.
pub proof fn handoff_takes_the_fitting_reply(handoff: Handoff, ran: bool, error: Option<OpenError>)
    ensures
        handoff.stage is Opening ==> handoff.accepts(HandoffReply::Opened(error))
            && !handoff.accepts(HandoffReply::Ran(ran)),
        handoff.stage is Finished ==> !handoff.accepts(HandoffReply::Opened(error))
            && !handoff.accepts(HandoffReply::Ran(ran)),
        !(handoff.stage is Opening) && !(handoff.stage is Finished) ==> handoff.accepts(
            HandoffReply::Ran(ran),
        ) && !handoff.accepts(HandoffReply::Opened(error)),
{
}

} // verus!
