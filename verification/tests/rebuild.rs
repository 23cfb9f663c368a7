use oss_node::control::{
    begin_handoff, begin_install, begin_pause, begin_release, begin_suspend, can_start,
    commit_install, release_rebuild_takeover, replace_port_devices, restore_extracted_devices,
    restore_started_if_stop_unobserved, retire_current, running_config, start_capture,
    start_data, start_if_negotiated, start_playback, step_handoff, store_and_rebuild,
    takeover_wake,
    HandoffAction, HandoffKind, HandoffReply, HandoffResult, StoreVerdict,
};
use oss_node::direction::ResumeOutcome;
use oss_node::errno::Errno;
use oss_node::init::new_node_data;
use oss_node::port::PortConfig;
use oss_node::rebuild::{
    aborted_swap, admit_task, begin_task, finish_task, poll_contended, poll_rebuild,
    queue_device_eof_rebuilds, queue_rebuild,
    rebuild_request_is_current, DeviceSwap, MainEvent, NodeData, NodeShared, OpenAttempt,
    OpenError, RebuildRequest, RebuildWork, RebuildWorkSlot, SwapOutcome, TaskStart, WaitStep,
    WorkSubmission, WorkerStep,
};
use oss_node::sink::geometry::SinkPortExt;
use oss_node::source::geometry::SourcePortExt;

type Data = NodeData<SinkPortExt, u32>;

const OWN: u32 = 1;
const NEW: u32 = 2;
const CLOSED: u32 = 9;

fn config() -> PortConfig {
    PortConfig { format: 0x103, rate: 48000, channels: 2, positions: vec![3, 4], flags: 0, stride: 4 }
}

fn data() -> Data {
    let mut data = new_node_data("/dev/dsp".to_string(), 0, OWN, SinkPortExt::default());
    data.port.config = Some(config());
    data.port.generation = 7;
    data
}

fn request(generation: u64) -> RebuildRequest<u32> {
    RebuildRequest {
        port_idx: 0,
        generation,
        config: PortConfig { positions: vec![], ..config() },
        path: "/nonexistent/dsp".to_string(),
        fragment_bytes: 0,
        retried: false,
        retire_first: None,
    }
}

// the worker's side of an order, with a device that answers as told; counts the opens
fn rebuild_task(
    shared: &mut NodeShared<u32>,
    request: RebuildRequest<u32>,
    result: Result<PortConfig, OpenError>,
    opens: &mut u32,
) -> Option<u32> {
    let request = match begin_task(request, shared.is_alive()) {
        TaskStart::Drop(_) => return None,
        TaskStart::Open { request, retire: _ } => request,
    };
    let current = rebuild_request_is_current(shared, request.generation);
    let request = match admit_task(request, current) {
        Ok(request) => request,
        Err(swap) => {
            shared.deposit(swap);
            return None;
        }
    };
    *opens += 1;
    let current = rebuild_request_is_current(shared, request.generation);
    let (swap, close) = finish_task(request, OpenAttempt { device: NEW, result }, current);
    shared.deposit(swap);
    close
}

fn check_work_slot() {
    let mut slot: RebuildWorkSlot<u32> = RebuildWorkSlot::new();
    assert!(matches!(slot.try_submit(RebuildWork::RetireDevice(1)), WorkSubmission::Submitted));
    match slot.try_submit(RebuildWork::RetireDevice(2)) {
        WorkSubmission::Submitted => panic!("a full slot must reject the second command"),
        WorkSubmission::Returned(second) => {
            assert!(matches!(second, RebuildWork::RetireDevice(2)));
        }
    }
    assert!(!slot.close(), "a waiting command is taken before the slot closes");

    let _first = slot.take().expect("drain the first command");
    slot.stop();
    assert!(slot.close());
    assert!(slot.closed);
    assert!(
        matches!(
            slot.try_submit(RebuildWork::RetireDevice(3)),
            WorkSubmission::Returned(RebuildWork::RetireDevice(3))
        ),
        "a stopped endpoint returns ownership"
    );
}

#[test]
fn rebuild_work_slot_returns_ownership_when_full_or_stopped() {
    check_work_slot();
}

#[test]
fn resetup_work_slot_returns_ownership_when_full_or_stopped() {
    check_work_slot();
}

fn check_mailbox() {
    let mut shared: NodeShared<u32> = NodeShared::new();
    assert!(!shared.swap_ready());
    assert!(shared.take_swap().is_none());

    shared.deposit(DeviceSwap { port_idx: 0, generation: 3, outcome: SwapOutcome::Aborted });
    let replaced = shared.deposit(DeviceSwap {
        port_idx: 0,
        generation: 4,
        outcome: SwapOutcome::Failed { placeholder: CLOSED },
    });
    assert_eq!(replaced.unwrap().generation, 3);
    assert!(shared.swap_ready());
    let swap = shared.take_swap().expect("a deposited swap");
    assert_eq!(swap.generation, 4, "the newer deposit wins");
    assert!(matches!(swap.outcome, SwapOutcome::Failed { .. }));
    assert!(!shared.swap_ready());
    assert!(shared.take_swap().is_none(), "take is one-shot");

    shared.deposit(DeviceSwap { port_idx: 0, generation: 5, outcome: SwapOutcome::Aborted });
    shared.discard_swap();
    assert!(!shared.swap_ready());
    assert!(shared.take_swap().is_none(), "discard voids the slot");
}

#[test]
fn rebuild_mailbox_delivers_replaces_and_discards() {
    check_mailbox();
}

#[test]
fn resetup_mailbox_delivers_replaces_and_discards() {
    check_mailbox();
}

fn check_task() {
    let mut shared: NodeShared<u32> = NodeShared::new();
    shared.generation = 7;
    let mut opens = 0;

    rebuild_task(&mut shared, request(7), Err(OpenError::Other(2)), &mut opens);
    let swap = shared.take_swap().expect("a deposit even when stopped");
    assert_eq!(swap.generation, 7);
    assert!(matches!(swap.outcome, SwapOutcome::Aborted));
    assert_eq!(opens, 0, "aborted without touching the device");

    shared.started = true;
    rebuild_task(&mut shared, request(7), Err(OpenError::Other(2)), &mut opens);
    let swap = shared.take_swap().expect("a deposit on failure");
    assert_eq!(swap.generation, 7);
    assert!(matches!(swap.outcome, SwapOutcome::Failed { .. }));
    assert_eq!(opens, 1);

    shared.generation = 8;
    rebuild_task(&mut shared, request(7), Err(OpenError::Other(2)), &mut opens);
    let swap = shared.take_swap().expect("a stale task still completes");
    assert_eq!(swap.generation, 7);
    assert!(matches!(swap.outcome, SwapOutcome::Aborted));
    assert_eq!(opens, 1, "aborted before opening");

    shared.close();
    rebuild_task(&mut shared, request(7), Err(OpenError::Other(2)), &mut opens);
    assert!(shared.take_swap().is_none());
    assert_eq!(opens, 1);
}

#[test]
fn unwanted_orders_are_aborted_without_an_open() {
    let swap = admit_task(request(7), false).err().unwrap();
    assert_eq!((swap.port_idx, swap.generation), (0, 7));
    assert!(matches!(swap.outcome, SwapOutcome::Aborted));
    let admitted = admit_task(request(7), true).ok().unwrap();
    assert_eq!(admitted.generation, 7);
    assert_eq!(admitted.path, "/nonexistent/dsp");
}

#[test]
fn a_contended_cycle_never_waits() {
    let mut node = data();
    let free = poll_contended(&node);
    assert!(!free.skip && !free.invalidate_wake && !free.update_wake);
    node.port.rebuild_pending = true;
    assert!(poll_contended(&node).skip);
    node.port.rebuild_pending = false;
    node.deferred_work = Some(RebuildWork::RetireDevice(3));
    assert!(poll_contended(&node).skip);
    node.deferred_work = None;
    node.rebuild_takeover = true;
    assert!(poll_contended(&node).skip);
}

#[test]
fn rebuild_task_deposits_and_respects_the_gates() {
    check_task();
}

#[test]
fn resetup_task_deposits_and_respects_the_gates() {
    check_task();
}

fn check_rechecks() {
    let mut shared: NodeShared<u32> = NodeShared::new();
    shared.started = true;
    shared.generation = 7;
    assert!(rebuild_request_is_current(&shared, 7));
    shared.generation = 8;
    shared.started = false;
    assert!(!rebuild_request_is_current(&shared, 7));

    // what was opened meanwhile is closed, never deposited
    let attempt = OpenAttempt { device: NEW, result: Ok(config()) };
    let (swap, close) = finish_task(request(7), attempt, false);
    assert!(matches!(swap.outcome, SwapOutcome::Aborted));
    assert_eq!(close, Some(NEW));
}

#[test]
fn rebuild_gate_rechecks_started_and_generation_after_blocking_work() {
    check_rechecks();
}

#[test]
fn resetup_gate_rechecks_started_and_generation_after_blocking_work() {
    check_rechecks();
}

#[test]
fn busy_device_is_retired_once() {
    let attempt = OpenAttempt { device: NEW, result: Err(OpenError::Busy) };
    let (swap, close) = finish_task(request(7), attempt, true);
    assert_eq!(close, None);
    let again = match swap.outcome {
        SwapOutcome::RetireAndRetry { request, placeholder } => {
            assert_eq!(placeholder, NEW);
            assert!(request.retried);
            request
        }
        _ => panic!("a busy device is retired"),
    };
    let attempt = OpenAttempt { device: NEW, result: Err(OpenError::Busy) };
    let (swap, _) = finish_task(again, attempt, true);
    assert!(matches!(swap.outcome, SwapOutcome::Failed { placeholder: NEW }));
}

#[test]
fn retired_device_is_closed_before_the_retry_opens() {
    let mut order = request(7);
    order.retire_first = Some(OWN);
    match begin_task(order, true) {
        TaskStart::Open { request, retire } => {
            assert_eq!(retire, Some(OWN));
            assert!(request.retire_first.is_none());
        }
        TaskStart::Drop(_) => panic!("a live node opens"),
    }
}

#[test]
fn worker_finishes_what_it_took_before_it_is_idle() {
    let mut slot: RebuildWorkSlot<u32> = RebuildWorkSlot::new();
    assert!(matches!(slot.next_step(), WorkerStep::Park));
    assert_eq!(slot.wait_idle(), WaitStep::Idle);
    slot.try_submit(RebuildWork::RetireDevice(4));
    assert_eq!(slot.wait_idle(), WaitStep::Wait);
    assert!(matches!(slot.next_step(), WorkerStep::Run(RebuildWork::RetireDevice(4))));
    assert_eq!(slot.wait_idle(), WaitStep::Wait, "a taken command is not finished");
    slot.finish();
    assert_eq!(slot.wait_idle(), WaitStep::Idle);

    slot.try_submit(RebuildWork::RetireDevice(5));
    slot.stop();
    assert_eq!(slot.wait_idle(), WaitStep::Stopped);
    assert!(matches!(slot.next_step(), WorkerStep::Discard(RebuildWork::RetireDevice(5))));
    slot.finish();
    assert!(matches!(slot.next_step(), WorkerStep::Yield));
    assert!(slot.close());
    assert!(matches!(slot.next_step(), WorkerStep::Exit));
}

#[test]
fn completed_rebuild_replaces_the_device() {
    let (mut data, mut shared, mut slot) =
        (data(), NodeShared::new(), RebuildWorkSlot::new());
    data.started = true;
    data.port.rebuild_pending = true;
    data.port.ext.xrun_timestamp = 5;
    shared.deposit(DeviceSwap {
        port_idx: 0,
        generation: 7,
        outcome: SwapOutcome::Installed { dsp: NEW, config: config() },
    });
    let outcome = poll_rebuild(&mut data, &mut shared, &mut slot, 3);
    assert!(!outcome.skip && outcome.invalidate_wake && outcome.update_wake);
    assert_eq!(data.device, NEW);
    assert_eq!(data.port.generation, 8);
    assert_eq!(shared.generation, 8);
    assert!(!data.port.rebuild_pending);
    assert_eq!(data.port.ext.xrun_timestamp, 0);
    assert!(matches!(slot.take(), Some(RebuildWork::RetireDevice(OWN))));
}

#[test]
fn failed_rebuild_loses_the_format() {
    let (mut data, mut shared, mut slot) =
        (data(), NodeShared::new(), RebuildWorkSlot::new());
    shared.deposit(DeviceSwap {
        port_idx: 0,
        generation: 7,
        outcome: SwapOutcome::Failed { placeholder: CLOSED },
    });
    let outcome = poll_rebuild(&mut data, &mut shared, &mut slot, 3);
    assert!(outcome.skip);
    assert_eq!(data.device, CLOSED);
    assert!(data.port.config.is_none());
    assert_eq!(
        data.pending_main_event,
        Some(MainEvent::FormatLost { expected_publication_epoch: 3 })
    );
}

#[test]
fn stale_completion_goes_to_the_worker() {
    let (mut data, mut shared, mut slot) =
        (data(), NodeShared::new(), RebuildWorkSlot::new());
    shared.deposit(DeviceSwap {
        port_idx: 0,
        generation: 6,
        outcome: SwapOutcome::Installed { dsp: NEW, config: config() },
    });
    let outcome = poll_rebuild(&mut data, &mut shared, &mut slot, 3);
    assert!(!outcome.skip);
    assert_eq!(data.device, OWN);
    assert_eq!(data.port.generation, 7);
    match slot.take() {
        Some(RebuildWork::RetireSwap(swap)) => assert_eq!(swap.generation, 6),
        _ => panic!("the stale completion is retired"),
    }
}

#[test]
fn retry_carries_the_busy_device_and_waits_for_a_free_slot() {
    let (mut data, mut shared, mut slot) =
        (data(), NodeShared::new(), RebuildWorkSlot::new());
    slot.try_submit(RebuildWork::RetireDevice(55));
    shared.deposit(DeviceSwap {
        port_idx: 0,
        generation: 7,
        outcome: SwapOutcome::RetireAndRetry { request: request(7), placeholder: CLOSED },
    });
    assert!(poll_rebuild(&mut data, &mut shared, &mut slot, 3).skip);
    assert_eq!(data.device, CLOSED);
    assert!(data.deferred_work.is_some());
    // the occupied slot makes the next cycle skip, too
    assert!(poll_rebuild(&mut data, &mut shared, &mut slot, 3).skip);
    slot.take();
    poll_rebuild(&mut data, &mut shared, &mut slot, 3);
    match slot.take() {
        Some(RebuildWork::Rebuild(request)) => assert_eq!(request.retire_first, Some(OWN)),
        _ => panic!("the retry is submitted"),
    }
}

#[test]
fn aborted_rebuild_drops_the_claim() {
    let (mut data, mut shared, mut slot) =
        (data(), NodeShared::new(), RebuildWorkSlot::new());
    data.port.rebuild_pending = true;
    assert!(poll_rebuild(&mut data, &mut shared, &mut slot, 0).skip);
    shared.deposit(aborted_swap(0, 7));
    assert!(poll_rebuild(&mut data, &mut shared, &mut slot, 0).skip);
    assert!(!data.port.rebuild_pending);
    assert!(!poll_rebuild(&mut data, &mut shared, &mut slot, 0).skip);
}

#[test]
fn rebuilds_are_not_ordered_twice_nor_without_a_format() {
    let (mut data, mut slot) = (data(), RebuildWorkSlot::new());
    data.port.device_eof = true;
    assert!(queue_device_eof_rebuilds(&mut data, &mut slot));
    assert!(!queue_device_eof_rebuilds(&mut data, &mut slot));
    slot.take();

    data.rebuild_takeover = true;
    assert!(!queue_rebuild(&mut data, &mut slot, 0));
    data.rebuild_takeover = false;
    data.port.config = None;
    assert!(!queue_rebuild(&mut data, &mut slot, 0));
    assert!(slot.take().is_none());
}

#[test]
fn failed_stop_handoff_restores_the_worker_gate_until_acknowledged() {
    let mut worker_started = false;
    restore_started_if_stop_unobserved(&mut worker_started, true, false);
    assert!(worker_started);

    worker_started = false;
    restore_started_if_stop_unobserved(&mut worker_started, true, true);
    assert!(!worker_started, "an acknowledged data-loop stop must remain published");
}

#[test]
fn extracted_devices_restore_ports_and_clear_pending_claims() {
    let mut data = data();
    data.port.rebuild_pending = true;
    data.port.device_eof = true;
    let placeholder = replace_port_devices(&mut data, NEW);
    assert!(!data.port.rebuild_pending);
    assert!(!data.port.device_eof);
    assert_eq!(data.device, NEW);
    assert_eq!(placeholder, OWN);
}

#[test]
fn takeovers_make_what_is_under_way_stale() {
    let mut shared: NodeShared<u32> = NodeShared::new();
    let mut node = data();
    node.deferred_work = Some(RebuildWork::RetireDevice(5));
    assert!(matches!(
        begin_install(&mut node, &mut shared),
        Some(RebuildWork::RetireDevice(5))
    ));
    assert!(node.rebuild_takeover && node.port.rebuild_pending);
    assert_eq!((node.port.generation, shared.generation), (8, 8));
    let mut slot = RebuildWorkSlot::new();
    shared.deposit(aborted_swap(0, 7));
    assert!(poll_rebuild(&mut node, &mut shared, &mut slot, 0).skip);
    assert!(shared.swap_ready(), "a takeover leaves completions alone");
    assert_eq!(retire_current(&mut node, CLOSED), OWN);
    let (old, outcome) = commit_install(&mut node, &mut shared, NEW, Some(config()));
    assert_eq!(old, CLOSED);
    assert!(outcome.invalidate_wake && !outcome.update_wake);
    assert!(!node.rebuild_takeover && !node.port.rebuild_pending);
    assert_eq!((node.port.generation, shared.generation), (9, 9));

    begin_pause(&mut node, &mut shared);
    assert!(!node.started && node.rebuild_takeover);
    release_rebuild_takeover(&mut node);
    assert!(!node.rebuild_takeover && !node.port.rebuild_pending);

    node.port.ext.pending_offset = 4;
    let (device, _) = begin_suspend(&mut node, &mut shared, CLOSED);
    assert_eq!((device, node.device), (NEW, CLOSED));
    assert_eq!(node.port.ext.pending_offset, 0);
    assert_eq!(restore_extracted_devices(&mut node, device), CLOSED);
    assert!(!node.rebuild_takeover);

    node.n_buffers = 4;
    let (device, _) = begin_release(&mut node, &mut shared, CLOSED);
    assert_eq!(device, NEW);
    assert!(node.port.config.is_none());
    assert_eq!(node.n_buffers, 0);
}

#[test]
fn only_a_negotiated_node_starts() {
    let mut node = data();
    assert!(!can_start(&node));
    node.n_buffers = 2;
    assert!(can_start(&node));
    start_data(&mut node, true);
    assert!(node.started && node.following);
    node.started = false;
    let mut shared = NodeShared::new();
    assert!(start_if_negotiated(&mut node, &mut shared, false));
    assert!(node.started && !node.following && shared.started);
    assert_eq!(running_config(&node, true), Some(config()));
    assert_eq!(running_config(&node, false), None);
    node.port.config = None;
    assert!(!can_start(&node));
    assert_eq!(running_config(&node, true), None);

    // an unnegotiated node is left as it is
    node.started = false;
    node.port.ext.xrun_timestamp = 3;
    let mut shared = NodeShared::new();
    assert!(!start_if_negotiated(&mut node, &mut shared, true));
    assert!(!start_playback(&mut node, &mut shared, true, ResumeOutcome::Resumed));
    assert!(!node.started && !node.following && !shared.started);
    assert!(!node.port.ext.resuming);
    assert_eq!(node.port.ext.xrun_timestamp, 3);
    node.port.config = Some(config());
    assert!(start_playback(&mut node, &mut shared, true, ResumeOutcome::Resumed));
    assert!(node.started && node.following && shared.started && node.port.ext.resuming);
    assert_eq!(node.port.ext.xrun_timestamp, 0);
}

#[test]
fn a_capture_node_starts_with_a_fresh_ring() {
    let mut node = new_node_data("/dev/dsp".to_string(), 0, OWN, SourcePortExt::default());
    let mut shared = NodeShared::new();
    node.port.ext.primed = true;
    assert!(!start_capture(&mut node, &mut shared, false));
    assert!(node.port.ext.primed && !shared.started);
    node.port.config = Some(config());
    node.n_buffers = 1;
    assert!(start_capture(&mut node, &mut shared, false));
    assert!(!node.port.ext.primed && node.started && shared.started);
}

#[test]
fn takeovers_tell_what_is_due_for_the_wake_up() {
    for started in [false, true] {
        assert_eq!(takeover_wake(HandoffKind::Install, started), (false, started));
        assert_eq!(takeover_wake(HandoffKind::Release, started), (true, started));
        assert_eq!(takeover_wake(HandoffKind::Pause, started), (false, true));
        assert_eq!(takeover_wake(HandoffKind::Suspend, started), (false, true));
    }
}

fn run(kind: HandoffKind, replies: &[HandoffReply]) -> (Vec<HandoffAction>, HandoffResult) {
    let (mut handoff, mut action) = begin_handoff(kind);
    let mut actions = vec![];
    for &reply in replies {
        actions.push(action);
        let next = step_handoff(handoff, reply);
        handoff = next.0;
        action = next.1;
    }
    match action {
        HandoffAction::Finish(result) => (actions, result),
        other => panic!("not finished: {other:?}"),
    }
}

const YES: HandoffReply = HandoffReply::Ran(true);
const NO: HandoffReply = HandoffReply::Ran(false);

#[test]
fn installs_retire_a_busy_device_and_commit() {
    let busy = HandoffReply::Opened(Some(OpenError::Busy));
    let opened = HandoffReply::Opened(None);
    let (actions, result) =
        run(HandoffKind::Install, &[YES, YES, busy, YES, opened, YES]);
    assert_eq!(
        actions,
        [
            HandoffAction::TakeOver,
            HandoffAction::Quiesce,
            HandoffAction::Open,
            HandoffAction::RetireCurrent,
            HandoffAction::Open,
            HandoffAction::Commit { opened: true }
        ]
    );
    assert_eq!(result, HandoffResult::Done);

    let rejected = HandoffReply::Opened(Some(OpenError::Invalid));
    let (actions, result) = run(HandoffKind::Install, &[YES, YES, rejected, YES]);
    assert_eq!(actions[3], HandoffAction::Commit { opened: false });
    assert_eq!(result, HandoffResult::Refused(OpenError::Invalid));

    let (_, result) = run(HandoffKind::Install, &[YES, YES, busy, YES, busy, YES]);
    assert_eq!(result, HandoffResult::Refused(OpenError::Busy));
    assert_eq!(run(HandoffKind::Install, &[NO]).1, HandoffResult::Unavailable);
    let (actions, result) = run(HandoffKind::Install, &[YES, NO, YES]);
    assert_eq!(actions[2], HandoffAction::ReleaseTakeover);
    assert_eq!(result, HandoffResult::Unavailable);
    let (actions, result) = run(HandoffKind::Install, &[YES, YES, opened, NO, NO]);
    assert_eq!(actions[4], HandoffAction::ReleaseTakeover);
    assert_eq!(result, HandoffResult::Unavailable);
}

#[test]
fn pauses_and_releases_end_their_takeover() {
    for kind in [HandoffKind::Pause, HandoffKind::Release] {
        let (actions, result) = run(kind, &[YES, YES, YES]);
        assert_eq!(
            actions,
            [HandoffAction::TakeOver, HandoffAction::Quiesce, HandoffAction::ReleaseTakeover]
        );
        assert_eq!(result, HandoffResult::Done);
        assert_eq!(run(kind, &[YES, YES, NO]).1, HandoffResult::Unavailable);
        assert_eq!(run(kind, &[YES, NO, YES]).1, HandoffResult::Unavailable);
    }
    let (actions, result) = run(HandoffKind::Pause, &[NO, YES]);
    assert_eq!(actions[1], HandoffAction::RestoreStarted);
    assert_eq!(result, HandoffResult::Unavailable);
    assert_eq!(run(HandoffKind::Release, &[NO]).1, HandoffResult::Unavailable);
}

#[test]
fn suspends_give_the_device_back_and_retry_once() {
    let (actions, result) = run(HandoffKind::Suspend, &[YES, YES, YES, YES]);
    assert_eq!(
        actions,
        [
            HandoffAction::TakeOver,
            HandoffAction::Quiesce,
            HandoffAction::StopDevice,
            HandoffAction::RestoreDevice
        ]
    );
    assert_eq!(result, HandoffResult::Done);
    // a device that only the second attempt gives back is still an error
    let (actions, result) = run(HandoffKind::Suspend, &[YES, YES, YES, NO, YES]);
    assert_eq!(actions[4], HandoffAction::RestoreDevice);
    assert_eq!(result, HandoffResult::Unavailable);
    let (actions, result) = run(HandoffKind::Suspend, &[YES, NO, NO, NO]);
    assert_eq!(actions[2], HandoffAction::RestoreDevice);
    assert_eq!(result, HandoffResult::Unavailable);
}

#[test]
fn stored_tunables_hold_though_the_device_is_lost() {
    let verdict = |result, format_lost| StoreVerdict { result, format_lost };
    assert_eq!(store_and_rebuild(true, None), verdict(Ok(()), false));
    assert_eq!(store_and_rebuild(true, Some(HandoffResult::Done)), verdict(Ok(()), false));
    for lost in [HandoffResult::Unavailable, HandoffResult::Refused(OpenError::Busy)] {
        assert_eq!(store_and_rebuild(true, Some(lost)), verdict(Ok(()), true));
    }
    assert_eq!(store_and_rebuild(false, None), verdict(Err(Errno::Io), false));
}
