use oss_node::abi;
use oss_node::errno::Errno;
use oss_node::events::{MediaClass, NodeEvents, NodeNotification};
use oss_node::rebuild::{MainEvent, NodeShared};

// what a listener was told: the number of input ports, or a done sequence
// number negated
fn told(notification: &NodeNotification<u32>) -> Option<i32> {
    match notification {
        NodeNotification::Node(info) => Some(info.max_input_ports as i32),
        NodeNotification::Done(seq) => Some(-seq),
        _ => None,
    }
}

fn set_ports(events: &mut NodeEvents<u32>, n: u32) {
    events.node.max_input_ports = n;
    events.queue_node_info();
}

fn check_fifo_order() {
    let mut events: NodeEvents<u32> = NodeEvents::new();
    set_ports(&mut events, 1);
    set_ports(&mut events, 2);
    assert!(events.begin_dispatch());
    let mut seen = vec![];
    while let Some(notification) = events.next_notification() {
        seen.extend(told(&notification));
        if seen.len() == 1 {
            set_ports(&mut events, 3);
            assert!(!events.begin_dispatch(), "a reentrant flush only queues");
        }
    }
    events.end_dispatch();
    assert_eq!(seen, [1, 2, 3]);
}

#[test]
fn node_node_notifications_preserve_fifo_order_under_reentrant_flush() {
    check_fifo_order();
}

#[test]
fn tests_node_notifications_preserve_fifo_order_under_reentrant_flush() {
    check_fifo_order();
}

fn check_listener_barrier() {
    let mut events: NodeEvents<u32> = NodeEvents::new();
    assert!(!events.defers_listeners());
    let mut seen = vec![];
    let mut late: Vec<i32> = vec![];
    let mut late_active = false;

    set_ports(&mut events, 1);
    set_ports(&mut events, 2);
    for round in 0..2 {
        if round == 1 {
            set_ports(&mut events, 5);
        }
        assert!(events.begin_dispatch());
        while let Some(notification) = events.next_notification() {
            match notification {
                NodeNotification::ActivateListeners(group) => {
                    assert_eq!(group, 7);
                    late_active = true;
                }
                other => {
                    let value = told(&other).unwrap();
                    seen.push(value);
                    if late_active {
                        late.push(value);
                    }
                    if seen.len() == 1 {
                        events.node.max_input_ports = 3;
                        assert!(events.defers_listeners());
                        events.queue_listeners(7);
                        late.push(events.initial_snapshots().0.max_input_ports as i32);
                        set_ports(&mut events, 4);
                    }
                }
            }
        }
        events.end_dispatch();
    }
    assert_eq!(seen, [1, 2, 4, 5]);
    assert_eq!(late, [3, 4, 5], "initial state, post-barrier change, then later change");
}

#[test]
fn node_node_listener_added_during_dispatch_starts_at_its_barrier() {
    check_listener_barrier();
}

#[test]
fn tests_node_listener_added_during_dispatch_starts_at_its_barrier() {
    check_listener_barrier();
}

fn check_done_order() {
    let mut events: NodeEvents<u32> = NodeEvents::new();
    set_ports(&mut events, 1);
    set_ports(&mut events, 2);
    assert!(events.begin_dispatch());
    let mut order = vec![];
    while let Some(notification) = events.next_notification() {
        order.extend(told(&notification));
        if order.len() == 1 {
            events.queue_done(7);
        }
    }
    events.end_dispatch();
    assert_eq!(order, [1, 2, -7]);
}

#[test]
fn node_node_done_does_not_overtake_an_active_transaction() {
    check_done_order();
}

#[test]
fn tests_node_done_does_not_overtake_an_active_transaction() {
    check_done_order();
}

#[test]
fn dispatch_claim_can_be_taken_again_after_its_end() {
    let mut events: NodeEvents<u32> = NodeEvents::new();
    assert!(events.begin_dispatch());
    assert!(!events.begin_dispatch());
    events.end_dispatch();
    assert!(events.begin_dispatch());
}

fn published_format(events: &NodeEvents<u32>) -> (u32, u32) {
    let (_, port) = events.initial_snapshots();
    (port.format, port.buffers)
}

fn check_stale_loss() {
    let mut events: NodeEvents<u32> = NodeEvents::new();
    events.port.format = abi::PARAM_INFO_READWRITE;
    events.port.buffers = abi::PARAM_INFO_READ;
    events.advance_format_publication_epoch();
    let failed_epoch = events.format_publication_epoch;
    let shared: NodeShared<u32> = NodeShared::new();

    events.advance_format_publication_epoch();
    assert!(!events.deliver(
        MainEvent::FormatLost { expected_publication_epoch: failed_epoch },
        shared.is_alive()
    ));
    assert_eq!(published_format(&events), (abi::PARAM_INFO_READWRITE, abi::PARAM_INFO_READ));

    let current_epoch = events.format_publication_epoch;
    assert!(events.deliver(
        MainEvent::FormatLost { expected_publication_epoch: current_epoch },
        shared.is_alive()
    ));
    assert_eq!(published_format(&events), (abi::PARAM_INFO_WRITE, 0));
}

#[test]
fn node_format_loss_epoch_rejects_stale_delivery_but_survives_suspend() {
    check_stale_loss();
}

#[test]
fn tests_format_loss_epoch_rejects_stale_delivery_but_survives_suspend() {
    check_stale_loss();
}

fn check_synchronous_loss() {
    let mut events: NodeEvents<u32> = NodeEvents::new();
    events.port.format = abi::PARAM_INFO_READWRITE;
    events.port.buffers = abi::PARAM_INFO_READ;
    events.advance_format_publication_epoch();
    let old_epoch = events.format_publication_epoch;

    events.record_current_format_lost();
    let loss_epoch = events.format_publication_epoch;
    assert_eq!(loss_epoch, old_epoch.wrapping_add(1));

    assert!(!events.deliver(
        MainEvent::FormatLost { expected_publication_epoch: old_epoch },
        true
    ));
    assert_eq!(events.format_publication_epoch, loss_epoch);
}

#[test]
fn node_synchronous_format_loss_retires_a_same_epoch_deferred_loss() {
    check_synchronous_loss();
}

#[test]
fn tests_synchronous_format_loss_retires_a_same_epoch_deferred_loss() {
    check_synchronous_loss();
}

#[test]
fn cleared_node_tells_nothing() {
    let mut events: NodeEvents<u32> = NodeEvents::new();
    let mut shared: NodeShared<u32> = NodeShared::new();
    shared.close();
    assert!(!events.deliver(
        MainEvent::FormatLost { expected_publication_epoch: 0 },
        shared.is_alive()
    ));
    assert!(events.next_notification().is_none());
}

#[test]
fn format_publication_flips_the_use_of_its_parameters() {
    let mut events: NodeEvents<u32> = NodeEvents::new();
    events.publish_static_info(abi::DIRECTION_INPUT);
    assert_eq!((events.node.max_input_ports, events.node.max_output_ports), (1, 0));
    assert_eq!(published_format(&events), (abi::PARAM_INFO_WRITE, 0));
    assert_eq!(events.port.rate, 48000);

    events.publish_format_state(Some(44100));
    assert_eq!(events.port.rate, 44100);
    assert_eq!(published_format(&events), (abi::PARAM_INFO_READWRITE, abi::PARAM_INFO_READ));
    assert_eq!(events.format_publication_epoch, 1);
    match events.next_notification() {
        Some(NodeNotification::Port(port)) => {
            assert!(port.rate_changed && port.params_changed);
        }
        _ => panic!("the port state is queued"),
    }
    assert!(!events.port.rate_changed && !events.port.params_changed);

    events.publish_format_state(None);
    assert_eq!(published_format(&events), (abi::PARAM_INFO_WRITE, 0));
}

#[test]
fn a_lost_format_makes_the_peer_negotiate_again() {
    let mut events: NodeEvents<u32> = NodeEvents::new();
    events.publish_static_info(abi::DIRECTION_OUTPUT);
    assert_eq!((events.node.max_input_ports, events.node.max_output_ports), (0, 1));
    let before = events.port.enum_format;
    events.record_current_format_lost();
    assert_eq!(events.port.enum_format, before ^ abi::PARAM_INFO_SERIAL);
    events.bump_enum_format();
    assert_eq!(events.port.enum_format, before);
}

#[test]
fn process_latency_shows_in_three_parameters() {
    let mut events: NodeEvents<u32> = NodeEvents::new();
    events.publish_static_info(abi::DIRECTION_INPUT);
    let (props, process, latency) =
        (events.node.props, events.node.process_latency, events.port.latency);
    events.publish_process_latency(false);
    assert_eq!(events.node.props, props);
    assert_eq!(events.node.process_latency, process ^ 1);
    assert_eq!(events.port.latency, latency ^ 1);
    events.publish_process_latency(true);
    assert_eq!(events.node.props, props ^ 1);
    events.publish_props();
    assert_eq!(events.node.props, props);
    events.publish_latency();
    assert_eq!(events.port.latency, latency ^ 1);
}

#[test]
fn the_period_cap_is_published_once() {
    let mut events: NodeEvents<u32> = NodeEvents::new();
    assert!(!events.publish_ring_quantum_cap(None, 48000));
    assert!(events.publish_ring_quantum_cap(Some(409), 48000));
    assert_eq!(events.node.max_latency, Some((409, 48000)));
    assert!(!events.publish_ring_quantum_cap(Some(512), 44100));
    assert_eq!(events.node.max_latency, Some((409, 48000)));
}

#[test]
fn format_requests_publish_what_the_data_loop_holds() {
    let mut events: NodeEvents<u32> = NodeEvents::new();
    events.publish_static_info(abi::DIRECTION_INPUT);
    assert_eq!(events.finish_format_request(Some(Some(96000)), Ok(true)), Ok(true));
    assert_eq!(events.port.rate, 96000);
    assert_eq!(published_format(&events), (abi::PARAM_INFO_READWRITE, abi::PARAM_INFO_READ));
    // a failed install has cleared the format
    assert_eq!(
        events.finish_format_request(Some(None), Err(Errno::Busy)),
        Err(Errno::Busy)
    );
    assert_eq!(published_format(&events), (abi::PARAM_INFO_WRITE, 0));
    let epoch = events.format_publication_epoch;
    assert_eq!(events.finish_format_request(None, Ok(false)), Err(Errno::Io));
    assert_eq!(events.format_publication_epoch, epoch);
}

fn properties(events: &NodeEvents<u32>) -> Vec<(&'static str, String)> {
    events.node.node_properties().into_iter().map(|prop| (prop.key, prop.value)).collect()
}

#[test]
fn nodes_publish_their_kind_and_that_they_drive() {
    for (direction, class, name) in [
        (abi::DIRECTION_INPUT, MediaClass::Sink, "Audio/Sink"),
        (abi::DIRECTION_OUTPUT, MediaClass::Source, "Audio/Source"),
    ] {
        let mut events: NodeEvents<u32> = NodeEvents::new();
        assert!(properties(&events).is_empty());
        events.publish_static_info(direction);
        assert_eq!(events.node.media_class, Some(class));
        assert_eq!(class.name(), name);
        let mut expected =
            vec![("media.class", name.to_string()), ("node.driver", "true".to_string())];
        assert_eq!(properties(&events), expected);
        events.publish_ring_quantum_cap(Some(409), 48000);
        expected.push(("node.max-latency", "409/48000".to_string()));
        assert_eq!(properties(&events), expected);
    }
}
