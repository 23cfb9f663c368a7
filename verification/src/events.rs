//! What a node tells its listeners: the published node and port state, the queue of
//! notifications, and the epoch that orders format changes.
use vstd::prelude::*;

use crate::abi;
use crate::errno::Errno;
use crate::rebuild::MainEvent;
use crate::text::{fraction_text, latency_fraction};
use std::collections::VecDeque;

verus! {

/// What kind of device a node is.
#[derive(Debug, Clone, Copy, PartialEq, Eq, Structural)]
pub enum MediaClass {
    Sink,
    Source,
}

/// The kind of device behind a port of a direction: one that takes input plays it.
pub open spec fn media_class_of(direction: u32) -> MediaClass {
    if direction == abi::DIRECTION_INPUT {
        MediaClass::Sink
    } else {
        MediaClass::Source
    }
}

impl MediaClass {
    /// The name of the kind.
    pub open spec fn spelled(self) -> Seq<char> {
        match self {
            MediaClass::Sink => "Audio/Sink"@,
            MediaClass::Source => "Audio/Source"@,
        }
    }

    /// The name of the kind.
    pub fn name(&self) -> (name: &'static str)
        ensures
            name@ == self.spelled(),
    {
        match self {
            MediaClass::Sink => "Audio/Sink",
            MediaClass::Source => "Audio/Source",
        }
    }
}

/// The published state of a node.
#[derive(Debug, Clone, Copy, PartialEq, Eq)]
pub struct NodeInfo {
    pub max_input_ports: u32,
    pub max_output_ports: u32,
    pub flags: u64,
    /// What kind of device the node is, once that is published.
    pub media_class: Option<MediaClass>,
    /// The node can drive the graph.
    pub driver: bool,
    /// The largest period that the node asks for, as frames and a rate.
    pub max_latency: Option<(u32, u32)>,
    /// The use of each parameter.
    pub prop_info: u32,
    pub props: u32,
    pub process_latency: u32,
    /// Changed since the last notification.
    pub props_changed: bool,
    pub params_changed: bool,
}

/// The published state of a port.
#[derive(Debug, Clone, Copy, PartialEq, Eq)]
pub struct PortInfo {
    pub flags: u64,
    /// Frames per second of the port.
    pub rate: u32,
    /// The use of each parameter.
    pub enum_format: u32,
    pub format: u32,
    pub buffers: u32,
    pub latency: u32,
    /// Changed since the last notification.
    pub rate_changed: bool,
    pub params_changed: bool,
}

/// The use of a parameter with its serial bit flipped.
pub open spec fn bumped(flags: u32) -> u32 {
    flags ^ abi::PARAM_INFO_SERIAL
}

fn bump(flags: u32) -> (r: u32)
    ensures
        r == bumped(flags),
{
    flags ^ abi::PARAM_INFO_SERIAL
}

/// A change of a parameter always shows: it flips the serial bit, and the use itself
/// stays.
pub proof fn every_bump_shows(flags: u32)
    ensures
        bumped(flags) != flags,
        bumped(flags) & !abi::PARAM_INFO_SERIAL == flags & !abi::PARAM_INFO_SERIAL,
{
    assert((flags ^ 1u32) != flags && (flags ^ 1u32) & !1u32 == flags & !1u32) by (bit_vector);
}

impl NodeInfo {
    /// The state before anything is published.
    pub fn new() -> (info: NodeInfo)
        ensures
            info == (NodeInfo {
                max_input_ports: 0,
                max_output_ports: 0,
                flags: 0,
                media_class: None,
                driver: false,
                max_latency: None,
                prop_info: 0,
                props: 0,
                process_latency: 0,
                props_changed: false,
                params_changed: false,
            }),
    {
        NodeInfo {
            max_input_ports: 0,
            max_output_ports: 0,
            flags: 0,
            media_class: None,
            driver: false,
            max_latency: None,
            prop_info: 0,
            props: 0,
            process_latency: 0,
            props_changed: false,
            params_changed: false,
        }
    }

    /// The state with nothing marked as changed.
    pub open spec fn settled(self) -> NodeInfo {
        NodeInfo { props_changed: false, params_changed: false, ..self }
    }

    /// The state with everything marked as changed, for a new listener.
    pub open spec fn whole(self) -> NodeInfo {
        NodeInfo { props_changed: true, params_changed: true, ..self }
    }
}

/// A property of a node, as the host reads it.
#[derive(Debug, Clone, PartialEq, Eq)]
pub struct NodeProp {
    pub key: &'static str,
    pub value: String,
}

/// What a [`NodeProp`] holds.
pub struct NodePropView {
    pub key: Seq<char>,
    pub value: Seq<char>,
}

impl View for NodeProp {
    type V = NodePropView;

    open spec fn view(&self) -> NodePropView {
        NodePropView { key: self.key@, value: self.value@ }
    }
}

impl NodeInfo {
    /// The properties of the node, in the order in which they were published: the kind of
    /// device, that it can drive the graph, and the largest period that it asks for.
    pub open spec fn properties(self) -> Seq<NodePropView> {
        let class = match self.media_class {
            Some(class) => seq![NodePropView { key: "media.class"@, value: class.spelled() }],
            None => seq![],
        };
        let driver = if self.driver {
            seq![NodePropView { key: "node.driver"@, value: "true"@ }]
        } else {
            seq![]
        };
        let latency = match self.max_latency {
            Some((frames, rate)) => seq![
                NodePropView { key: "node.max-latency"@, value: fraction_text(frames, rate) },
            ],
            None => seq![],
        };
        class + driver + latency
    }

    /// The properties of the node.
    pub fn node_properties(&self) -> (props: Vec<NodeProp>)
        ensures
            props@.map_values(|prop: NodeProp| prop@) == self.properties(),
    {
        let mut props: Vec<NodeProp> = Vec::new();
        if let Some(class) = self.media_class {
            props.push(NodeProp { key: "media.class", value: class.name().to_owned() });
        }
        if self.driver {
            props.push(NodeProp { key: "node.driver", value: "true".to_owned() });
        }
        if let Some((frames, rate)) = self.max_latency {
            props.push(
                NodeProp { key: "node.max-latency", value: latency_fraction(frames, rate) },
            );
        }
        assert(props@.map_values(|prop: NodeProp| prop@) =~= self.properties());
        props
    }
}

impl PortInfo {
    /// The state before anything is published.
    pub fn new() -> (info: PortInfo)
        ensures
            info == (PortInfo {
                flags: 0,
                rate: 0,
                enum_format: 0,
                format: 0,
                buffers: 0,
                latency: 0,
                rate_changed: false,
                params_changed: false,
            }),
    {
        PortInfo {
            flags: 0,
            rate: 0,
            enum_format: 0,
            format: 0,
            buffers: 0,
            latency: 0,
            rate_changed: false,
            params_changed: false,
        }
    }

    /// The state with nothing marked as changed.
    pub open spec fn settled(self) -> PortInfo {
        PortInfo { rate_changed: false, params_changed: false, ..self }
    }

    /// The state with everything marked as changed, for a new listener.
    pub open spec fn whole(self) -> PortInfo {
        PortInfo { rate_changed: true, params_changed: true, ..self }
    }
}

/// A notification. `L` is a group of listeners that waits for its turn.
#[derive(Debug, PartialEq, Eq)]
pub enum NodeNotification<L> {
    Node(NodeInfo),
    Port(PortInfo),
    /// A synchronisation request is answered.
    Done(i32),
    /// The group joins the active listeners.
    ActivateListeners(L),
}

/// The published state, the notifications that wait, and the format epoch.
pub struct NodeEvents<L> {
    pub node: NodeInfo,
    pub port: PortInfo,
    pub queue: VecDeque<NodeNotification<L>>,
    /// Someone is handing notifications out.
    pub dispatching: bool,
    /// Counts the publications of the format.
    pub format_publication_epoch: u64,
}

/// What [`NodeEvents`] holds.
#[verifier::ext_equal]
pub struct NodeEventsView<L> {
    pub node: NodeInfo,
    pub port: PortInfo,
    pub queue: Seq<NodeNotification<L>>,
    pub dispatching: bool,
    pub epoch: u64,
}

impl<L> View for NodeEvents<L> {
    type V = NodeEventsView<L>;

    open spec fn view(&self) -> NodeEventsView<L> {
        NodeEventsView {
            node: self.node,
            port: self.port,
            queue: self.queue@,
            dispatching: self.dispatching,
            epoch: self.format_publication_epoch,
        }
    }
}

impl<L> NodeEventsView<L> {
    /// The present node state joins the queue, and nothing of it counts as changed.
    pub open spec fn node_queued(self) -> NodeEventsView<L> {
        NodeEventsView {
            queue: self.queue.push(NodeNotification::Node(self.node)),
            node: self.node.settled(),
            ..self
        }
    }

    /// The present port state joins the queue, and nothing of it counts as changed.
    pub open spec fn port_queued(self) -> NodeEventsView<L> {
        NodeEventsView {
            queue: self.queue.push(NodeNotification::Port(self.port)),
            port: self.port.settled(),
            ..self
        }
    }

    /// The format is published once more.
    pub open spec fn epoch_advanced(self) -> NodeEventsView<L> {
        NodeEventsView { epoch: self.epoch.wrapping_add(1), ..self }
    }

    /// The state after the format was published: with a rate, the format can be read
    /// and buffers can be asked for; without, neither.
    pub open spec fn format_published(self, rate: Option<u32>) -> NodeEventsView<L> {
        let port = self.port.settled();
        let port = match rate {
            Some(rate) => PortInfo {
                rate,
                rate_changed: true,
                format: abi::PARAM_INFO_READWRITE,
                buffers: abi::PARAM_INFO_READ,
                params_changed: true,
                ..port
            },
            None => PortInfo {
                format: abi::PARAM_INFO_WRITE,
                buffers: 0,
                params_changed: true,
                ..port
            },
        };
        NodeEventsView { port, ..self }.port_queued().epoch_advanced()
    }

    /// The state after the loss of the format was published. The changed serial of the
    /// offered formats makes the peer negotiate again.
    pub open spec fn format_lost(self) -> NodeEventsView<L> {
        let port = PortInfo {
            format: abi::PARAM_INFO_WRITE,
            buffers: 0,
            enum_format: bumped(self.port.enum_format),
            params_changed: true,
            ..self.port.settled()
        };
        NodeEventsView { port, ..self }.port_queued().epoch_advanced()
    }

    /// The state after a change of the process latency: of the properties too, where
    /// its offset changed.
    pub open spec fn process_latency_changed(self, offset_changed: bool) -> NodeEventsView<L> {
        let node = NodeInfo {
            props: if offset_changed {
                bumped(self.node.props)
            } else {
                self.node.props
            },
            process_latency: bumped(self.node.process_latency),
            params_changed: true,
            ..self.node.settled()
        };
        let queued = NodeEventsView { node, ..self }.node_queued();
        let port = PortInfo {
            latency: bumped(queued.port.latency),
            params_changed: true,
            ..queued.port.settled()
        };
        NodeEventsView { port, ..queued }.port_queued()
    }
}

impl<L> NodeEvents<L> {
    /// A node that has published nothing.
    pub fn new() -> (events: NodeEvents<L>)
        ensures
            events@.queue.len() == 0,
            !events@.dispatching,
            events@.epoch == 0,
            events.node == (NodeInfo {
                max_input_ports: 0,
                max_output_ports: 0,
                flags: 0,
                media_class: None,
                driver: false,
                max_latency: None,
                prop_info: 0,
                props: 0,
                process_latency: 0,
                props_changed: false,
                params_changed: false,
            }),
            events.port == (PortInfo {
                flags: 0,
                rate: 0,
                enum_format: 0,
                format: 0,
                buffers: 0,
                latency: 0,
                rate_changed: false,
                params_changed: false,
            }),
    {
        NodeEvents {
            node: NodeInfo::new(),
            port: PortInfo::new(),
            queue: VecDeque::new(),
            dispatching: false,
            format_publication_epoch: 0,
        }
    }

    /// The whole node and port state, for a new listener.
    pub fn initial_snapshots(&self) -> (r: (NodeInfo, PortInfo))
        ensures
            r == (self.node.whole(), self.port.whole()),
    {
        let mut node = self.node;
        let mut port = self.port;
        node.props_changed = true;
        node.params_changed = true;
        port.rate_changed = true;
        port.params_changed = true;
        (node, port)
    }

    /// Queues the present node state.
    pub fn queue_node_info(&mut self)
        ensures
            final(self)@ == old(self)@.node_queued(),
    {
        self.queue.push_back(NodeNotification::Node(self.node));
        self.node.props_changed = false;
        self.node.params_changed = false;
    }

    /// Queues the present port state.
    pub fn queue_port_info(&mut self)
        ensures
            final(self)@ == old(self)@.port_queued(),
    {
        self.queue.push_back(NodeNotification::Port(self.port));
        self.port.rate_changed = false;
        self.port.params_changed = false;
    }

    /// Queues the answer to a synchronisation request, behind everything that waits.
    pub fn queue_done(&mut self, seq: i32)
        ensures
            final(self)@ == (NodeEventsView {
                queue: old(self)@.queue.push(NodeNotification::Done(seq)),
                ..old(self)@
            }),
    {
        self.queue.push_back(NodeNotification::Done(seq));
    }

    /// Whether a new listener has to wait: something older is still being handed out.
    pub fn defers_listeners(&self) -> (defers: bool)
        ensures
            defers == (self@.dispatching || self@.queue.len() > 0),
    {
        self.dispatching || self.queue.len() > 0
    }

    /// Queues a group of new listeners behind everything older than they are.
    pub fn queue_listeners(&mut self, listeners: L)
        ensures
            final(self)@ == (NodeEventsView {
                queue: old(self)@.queue.push(NodeNotification::ActivateListeners(listeners)),
                ..old(self)@
            }),
    {
        self.queue.push_back(NodeNotification::ActivateListeners(listeners));
    }

    /// Claims the right to hand notifications out. Who does not get it leaves what was
    /// queued to the one who has it, so that nothing overtakes a transaction.
    pub fn begin_dispatch(&mut self) -> (claimed: bool)
        ensures
            claimed == !old(self)@.dispatching,
            final(self)@ == (NodeEventsView { dispatching: true, ..old(self)@ }),
    {
        let claimed = !self.dispatching;
        self.dispatching = true;
        claimed
    }

    /// The oldest notification that waits, for the one who has the claim.
    pub fn next_notification(&mut self) -> (notification: Option<NodeNotification<L>>)
        ensures
            old(self)@.queue.len() == 0 ==> notification is None && final(self)@ == old(self)@,
            old(self)@.queue.len() > 0 ==> notification == Some(old(self)@.queue[0])
                && final(self)@ == (NodeEventsView {
                queue: old(self)@.queue.drop_first(),
                ..old(self)@
            }),
    {
        let notification = self.queue.pop_front();
        proof {
            if old(self)@.queue.len() > 0 {
                assert(self.queue@ =~= old(self)@.queue.drop_first());
            }
        }
        notification
    }

    /// Gives the claim back.
    pub fn end_dispatch(&mut self)
        ensures
            final(self)@ == (NodeEventsView { dispatching: false, ..old(self)@ }),
    {
        self.dispatching = false;
    }

    /// Publishes the format, or its absence.
    pub fn publish_format_state(&mut self, rate: Option<u32>)
        ensures
            final(self)@ == old(self)@.format_published(rate),
    {
        self.port.rate_changed = false;
        match rate {
            Some(rate) => {
                self.port.rate = rate;
                self.port.rate_changed = true;
                self.port.format = abi::PARAM_INFO_READWRITE;
                self.port.buffers = abi::PARAM_INFO_READ;
            },
            None => {
                self.port.format = abi::PARAM_INFO_WRITE;
                self.port.buffers = 0;
            },
        }
        self.port.params_changed = true;
        self.queue_port_info();
        self.advance_format_publication_epoch();
    }

    /// Ends a request to set or release the format: whatever became of the request, what is
    /// published is what the data loop holds now, which a failed install has cleared. A
    /// data loop that does not answer publishes nothing.
    pub fn finish_format_request(
        &mut self,
        held: Option<Option<u32>>,
        told: Result<bool, Errno>,
    ) -> (r: Result<bool, Errno>)
        ensures
            match held {
                Some(rate) => r == told && final(self)@ == old(self)@.format_published(rate),
                None => r == Err::<bool, Errno>(Errno::Io) && final(self)@ == old(self)@,
            },
    {
        match held {
            Some(rate) => {
                self.publish_format_state(rate);
                told
            },
            None => Err(Errno::Io),
        }
    }

    /// Counts one more publication of the format.
    pub fn advance_format_publication_epoch(&mut self)
        ensures
            final(self)@ == old(self)@.epoch_advanced(),
    {
        self.format_publication_epoch = self.format_publication_epoch.wrapping_add(1);
    }

    /// Publishes the loss of the present format, and retires every loss that was
    /// reported of it before.
    pub fn record_current_format_lost(&mut self)
        ensures
            final(self)@ == old(self)@.format_lost(),
    {
        self.port.rate_changed = false;
        self.port.format = abi::PARAM_INFO_WRITE;
        self.port.buffers = 0;
        self.port.enum_format = bump(self.port.enum_format);
        self.port.params_changed = true;
        self.queue_port_info();
        self.advance_format_publication_epoch();
    }

    /// Takes an event that the data loop left. A loss is published only if the format
    /// was not published again since, and the node still lives. Returns whether
    /// notifications are to be handed out.
    pub fn deliver(&mut self, event: MainEvent, alive: bool) -> (flush: bool)
        ensures
            ({
                let MainEvent::FormatLost { expected_publication_epoch } = event;
                &&& flush == (alive && old(self)@.epoch == expected_publication_epoch)
                &&& final(self)@ == if flush {
                    old(self)@.format_lost()
                } else {
                    old(self)@
                }
            }),
    {
        let MainEvent::FormatLost { expected_publication_epoch } = event;
        if !alive || self.format_publication_epoch != expected_publication_epoch {
            return false;
        }
        self.record_current_format_lost();
        true
    }

    /// Publishes a change of the process latency.
    pub fn publish_process_latency(&mut self, offset_changed: bool)
        ensures
            final(self)@ == old(self)@.process_latency_changed(offset_changed),
    {
        self.node.props_changed = false;
        if offset_changed {
            self.node.props = bump(self.node.props);
        }
        self.node.process_latency = bump(self.node.process_latency);
        self.node.params_changed = true;
        self.queue_node_info();
        self.port.rate_changed = false;
        self.port.latency = bump(self.port.latency);
        self.port.params_changed = true;
        self.queue_port_info();
    }

    /// Publishes a change of the properties.
    pub fn publish_props(&mut self)
        ensures
            final(self)@ == (NodeEventsView {
                node: NodeInfo {
                    props: bumped(old(self)@.node.props),
                    params_changed: true,
                    ..old(self)@.node.settled()
                },
                ..old(self)@
            }).node_queued(),
    {
        self.node.props_changed = false;
        self.node.props = bump(self.node.props);
        self.node.params_changed = true;
        self.queue_node_info();
    }

    /// Publishes a change of the port's latency.
    pub fn publish_latency(&mut self)
        ensures
            final(self)@ == (NodeEventsView {
                port: PortInfo {
                    latency: bumped(old(self)@.port.latency),
                    params_changed: true,
                    ..old(self)@.port.settled()
                },
                ..old(self)@
            }).port_queued(),
    {
        self.port.rate_changed = false;
        self.port.latency = bump(self.port.latency);
        self.port.params_changed = true;
        self.queue_port_info();
    }

    /// Marks the offered formats as changed; the next notification shows it.
    pub fn bump_enum_format(&mut self)
        ensures
            final(self)@ == (NodeEventsView {
                port: PortInfo {
                    enum_format: bumped(old(self)@.port.enum_format),
                    params_changed: true,
                    ..old(self)@.port
                },
                ..old(self)@
            }),
    {
        self.port.enum_format = bump(self.port.enum_format);
        self.port.params_changed = true;
    }

    /// Publishes the largest period that the ring can hold, once: a node's properties
    /// only grow.
    pub fn publish_ring_quantum_cap(&mut self, cap_frames: Option<u32>, rate: u32) -> (published:
        bool)
        ensures
            published == (cap_frames is Some && old(self)@.node.max_latency is None),
            final(self)@ == if published {
                NodeEventsView {
                    node: NodeInfo {
                        max_latency: Some((cap_frames->0, rate)),
                        props_changed: true,
                        ..old(self)@.node.settled()
                    },
                    ..old(self)@
                }.node_queued()
            } else {
                old(self)@
            },
    {
        let frames: u32 = match cap_frames {
            Some(frames) => frames,
            None => return false,
        };
        if self.node.max_latency.is_some() {
            return false;
        }
        self.node.params_changed = false;
        self.node.max_latency = Some((frames, rate));
        self.node.props_changed = true;
        self.queue_node_info();
        true
    }

    /// Publishes what never changes: the direction's port count and kind of device, the
    /// flags, that the node can drive the graph, and the use of each parameter before a format is negotiated.
    pub fn publish_static_info(&mut self, direction: u32)
        ensures
            final(self)@.node == (NodeInfo {
                max_input_ports: if direction == abi::DIRECTION_INPUT {
                    1
                } else {
                    old(self)@.node.max_input_ports
                },
                max_output_ports: if direction == abi::DIRECTION_INPUT {
                    old(self)@.node.max_output_ports
                } else {
                    1
                },
                flags: abi::NODE_FLAG_RT,
                media_class: Some(media_class_of(direction)),
                driver: true,
                prop_info: abi::PARAM_INFO_READ,
                props: abi::PARAM_INFO_READWRITE,
                process_latency: abi::PARAM_INFO_READWRITE,
                props_changed: true,
                params_changed: true,
                ..old(self)@.node
            }),
            final(self)@.port == (PortInfo {
                flags: 0xc0,
                rate: 48000,
                enum_format: abi::PARAM_INFO_READ,
                format: abi::PARAM_INFO_WRITE,
                buffers: 0,
                latency: abi::PARAM_INFO_READWRITE,
                rate_changed: true,
                params_changed: true,
            }),
            final(self)@ == (NodeEventsView {
                node: final(self)@.node,
                port: final(self)@.port,
                ..old(self)@
            }),
    {
        if direction == abi::DIRECTION_INPUT {
            self.node.max_input_ports = 1;
            self.node.media_class = Some(MediaClass::Sink);
        } else {
            self.node.max_output_ports = 1;
            self.node.media_class = Some(MediaClass::Source);
        }
        self.node.driver = true;
        self.node.flags = abi::NODE_FLAG_RT;
        self.node.prop_info = abi::PARAM_INFO_READ;
        self.node.props = abi::PARAM_INFO_READWRITE;
        self.node.process_latency = abi::PARAM_INFO_READWRITE;
        self.node.props_changed = true;
        self.node.params_changed = true;
        assert(0x40u64 | 0x80u64 == 0xc0u64) by (bit_vector);
        self.port = PortInfo {
            flags: abi::PORT_FLAG_PHYSICAL | abi::PORT_FLAG_TERMINAL,
            rate: 48000,
            enum_format: abi::PARAM_INFO_READ,
            format: abi::PARAM_INFO_WRITE,
            buffers: 0,
            latency: abi::PARAM_INFO_READWRITE,
            rate_changed: true,
            params_changed: true,
        };
    }
}

/// A loss that was reported of an earlier publication changes nothing, and one that
/// was published retires every other report of the same publication.
pub proof fn stale_loss_is_inert<L>(events: NodeEventsView<L>, rate: Option<u32>)
    ensures
        events.format_published(rate).epoch != events.epoch,
        events.format_lost().epoch != events.epoch,
{
}

/// What a group of listeners is handed out of a sequence of notifications: everything
/// from its activation on, or all of it where it is `active` already.
pub open spec fn received<L>(
    queue: Seq<NodeNotification<L>>,
    group: L,
    active: bool,
) -> Seq<NodeNotification<L>>
    decreases queue.len(),
{
    if queue.len() == 0 {
        seq![]
    } else {
        let rest = queue.drop_first();
        match queue[0] {
            NodeNotification::ActivateListeners(joined) => received(
                rest,
                group,
                active || joined == group,
            ),
            notification => if active {
                seq![notification] + received(rest, group, active)
            } else {
                received(rest, group, active)
            },
        }
    }
}

/// A sequence of notifications without the activations.
pub open spec fn handed_out<L>(queue: Seq<NodeNotification<L>>) -> Seq<NodeNotification<L>>
    decreases queue.len(),
{
    if queue.len() == 0 {
        seq![]
    } else if queue[0] is ActivateListeners {
        handed_out(queue.drop_first())
    } else {
        seq![queue[0]] + handed_out(queue.drop_first())
    }
}

proof fn active_group_receives_everything<L>(queue: Seq<NodeNotification<L>>, group: L)
    ensures
        received(queue, group, true) == handed_out(queue),
    decreases queue.len(),
{
    if queue.len() > 0 {
        active_group_receives_everything(queue.drop_first(), group);
    }
}

/// A listener that joins while notifications wait gets none of those, and every one
/// that is queued after it, in the order they were queued.
pub proof fn late_listener_starts_at_its_barrier<L>(
    older: Seq<NodeNotification<L>>,
    newer: Seq<NodeNotification<L>>,
    group: L,
)
    requires
        forall|i: int|
            0 <= i < older.len() ==> #[trigger] older[i] != NodeNotification::ActivateListeners(
                group,
            ),
    ensures
        received(
            older + seq![NodeNotification::ActivateListeners(group)] + newer,
            group,
            false,
        ) == handed_out(newer),
    decreases older.len(),
{
    let barrier = seq![NodeNotification::ActivateListeners(group)];
    let whole = older + barrier + newer;
    if older.len() == 0 {
        assert(whole.drop_first() =~= newer);
        active_group_receives_everything(newer, group);
    } else {
        assert(whole.drop_first() =~= older.drop_first() + barrier + newer);
        assert forall|i: int| 0 <= i < older.drop_first().len() implies #[trigger] older.drop_first()[i]
            != NodeNotification::ActivateListeners(group) by {
            assert(older.drop_first()[i] == older[i + 1]);
        }
        late_listener_starts_at_its_barrier(older.drop_first(), newer, group);
        assert(whole[0] == older[0]);
    }
}

/// Notifications are handed out in the order they were queued: what is queued while
/// another one is being handed out comes after all that waited before.
pub proof fn notifications_stay_in_order<L>(
    waiting: Seq<NodeNotification<L>>,
    queued: NodeNotification<L>,
)
    requires
        waiting.len() > 0,
    ensures
        waiting.push(queued)[0] == waiting[0],
        waiting.push(queued).drop_first() == waiting.drop_first().push(queued),
{
    assert(waiting.push(queued).drop_first() =~= waiting.drop_first().push(queued));
}

/// A port that takes input belongs to a sink, any other one to a source, and each says so.
pub proof fn input_belongs_to_a_sink(direction: u32)
    ensures
        media_class_of(0) == MediaClass::Sink,
        direction != 0 ==> media_class_of(direction) == MediaClass::Source,
        MediaClass::Sink.spelled() == "Audio/Sink"@,
        MediaClass::Source.spelled() == "Audio/Source"@,
{
}

/// A node shows its kind, that it can drive, and its largest period, each only where that is
/// known, and in this order.
pub proof fn node_shows_what_is_known(info: NodeInfo)
    ensures
        ({
            let shown = info.properties();
            let class = if info.media_class is Some {
                1int
            } else {
                0
            };
            let driver = if info.driver {
                1int
            } else {
                0
            };
            let latency = if info.max_latency is Some {
                1int
            } else {
                0
            };
            &&& shown.len() == class + driver + latency
            &&& info.media_class is Some ==> shown[0].key == "media.class"@ && shown[0].value
                == info.media_class->0.spelled()
            &&& info.driver ==> shown[class].key == "node.driver"@ && shown[class].value
                == "true"@
            &&& info.max_latency matches Some((frames, rate)) ==> shown[class + driver].key
                == "node.max-latency"@ && shown[class + driver].value == crate::text::decimal(
                frames as nat,
            ) + "/"@ + crate::text::decimal(rate as nat)
        }),
{
}

/// A published format reaches the listeners behind everything that waits: with its rate, to
/// be read and written, and with buffers to be asked for. The publication has a number of
/// its own, and nothing counts as changed after it.
pub proof fn published_format_is_announced<L>(events: NodeEventsView<L>, rate: u32)
    ensures
        ({
            let after = events.format_published(Some(rate));
            let told = after.queue.last();
            &&& after.queue.len() == events.queue.len() + 1
            &&& after.queue.drop_last() == events.queue
            &&& told is Port
            &&& told->Port_0.rate == rate && told->Port_0.rate_changed
            &&& told->Port_0.format == 6 && told->Port_0.buffers == 2
            &&& told->Port_0.params_changed
            &&& told->Port_0.enum_format == events.port.enum_format
            &&& told->Port_0.latency == events.port.latency
            &&& told->Port_0.flags == events.port.flags
            &&& after.port == (PortInfo {
                rate_changed: false,
                params_changed: false,
                ..told->Port_0
            })
            &&& after.node == events.node
            &&& after.dispatching == events.dispatching
            &&& after.epoch == events.epoch.wrapping_add(1)
        }),
{
    assert(events.format_published(Some(rate)).queue.drop_last() =~= events.queue);
}

/// A released format can only be written again, and there are no buffers to ask for; the
/// rate stays what it was and is not announced.
pub proof fn released_format_is_announced<L>(events: NodeEventsView<L>)
    ensures
        ({
            let after = events.format_published(None);
            let told = after.queue.last();
            &&& after.queue.len() == events.queue.len() + 1
            &&& after.queue.drop_last() == events.queue
            &&& told is Port
            &&& told->Port_0.rate == events.port.rate && !told->Port_0.rate_changed
            &&& told->Port_0.format == 4 && told->Port_0.buffers == 0
            &&& told->Port_0.params_changed
            &&& told->Port_0.enum_format == events.port.enum_format
            &&& after.port == (PortInfo {
                rate_changed: false,
                params_changed: false,
                ..told->Port_0
            })
            &&& after.node == events.node
            &&& after.epoch == events.epoch.wrapping_add(1)
        }),
{
    assert(events.format_published(None).queue.drop_last() =~= events.queue);
}

/// A lost format is announced like a released one, and the offered formats show a change, so
/// that the peer negotiates again.
pub proof fn lost_format_is_announced<L>(events: NodeEventsView<L>)
    ensures
        ({
            let after = events.format_lost();
            let told = after.queue.last();
            &&& after.queue.len() == events.queue.len() + 1
            &&& after.queue.drop_last() == events.queue
            &&& told is Port
            &&& told->Port_0.format == 4 && told->Port_0.buffers == 0
            &&& told->Port_0.enum_format != events.port.enum_format
            &&& told->Port_0.enum_format & !1u32 == events.port.enum_format & !1u32
            &&& told->Port_0.params_changed && !told->Port_0.rate_changed
            &&& told->Port_0.rate == events.port.rate
            &&& after.port == (PortInfo {
                rate_changed: false,
                params_changed: false,
                ..told->Port_0
            })
            &&& after.node == events.node
            &&& after.epoch == events.epoch.wrapping_add(1)
        }),
{
    assert(events.format_lost().queue.drop_last() =~= events.queue);
    every_bump_shows(events.port.enum_format);
}

/// A change of the process latency is announced of the node and then of the port. The
/// properties show a change only where the offset did.
pub proof fn changed_latency_is_announced<L>(events: NodeEventsView<L>, offset_changed: bool)
    ensures
        ({
            let after = events.process_latency_changed(offset_changed);
            let queued = events.queue.len() as int;
            let node = after.queue[queued];
            let port = after.queue[queued + 1];
            &&& after.queue.len() == queued + 2
            &&& after.queue.take(queued) == events.queue
            &&& node is Node && port is Port
            &&& node->Node_0.process_latency != events.node.process_latency
            &&& node->Node_0.params_changed && !node->Node_0.props_changed
            &&& offset_changed ==> node->Node_0.props != events.node.props
            &&& !offset_changed ==> node->Node_0.props == events.node.props
            &&& port->Port_0.latency != events.port.latency
            &&& port->Port_0.params_changed && !port->Port_0.rate_changed
            &&& after.node == (NodeInfo {
                props_changed: false,
                params_changed: false,
                ..node->Node_0
            })
            &&& after.port == (PortInfo {
                rate_changed: false,
                params_changed: false,
                ..port->Port_0
            })
            &&& after.epoch == events.epoch
        }),
{
    let after = events.process_latency_changed(offset_changed);
    assert(after.queue.take(events.queue.len() as int) =~= events.queue);
    every_bump_shows(events.node.props);
    every_bump_shows(events.node.process_latency);
    every_bump_shows(events.port.latency);
}

/// What is queued is what was published, behind everything that waits; nothing of it counts
/// as changed any more.
pub proof fn queued_state_is_what_was_published<L>(events: NodeEventsView<L>)
    ensures
        events.node_queued().queue == events.queue.push(NodeNotification::Node(events.node)),
        events.node_queued().node == (NodeInfo {
            props_changed: false,
            params_changed: false,
            ..events.node
        }),
        events.node_queued().port == events.port,
        events.node_queued().epoch == events.epoch,
        events.port_queued().queue == events.queue.push(NodeNotification::Port(events.port)),
        events.port_queued().port == (PortInfo {
            rate_changed: false,
            params_changed: false,
            ..events.port
        }),
        events.port_queued().node == events.node,
        events.port_queued().epoch == events.epoch,
        events.epoch_advanced().epoch != events.epoch,
        events.epoch_advanced().queue == events.queue,
{
}

/// A new listener is told everything.
pub proof fn new_listener_is_told_everything(node: NodeInfo, port: PortInfo)
    ensures
        node.whole() == (NodeInfo { props_changed: true, params_changed: true, ..node }),
        port.whole() == (PortInfo { rate_changed: true, params_changed: true, ..port }),
{
}

} // verus!
