//! Replacing a device in the background. The data loop orders a rebuild, a worker
//! opens and configures the replacement, and the data loop takes the result. `V` is
//! a device; nothing here opens or closes one, it only changes hands.
use vstd::prelude::*;

use crate::direction::Direction;
use crate::port::{reset_device_event, Port, PortConfig};

verus! {

/// An order to open and configure a replacement device.
pub struct RebuildRequest<V> {
    pub port_idx: usize,
    /// The port's generation when the order was given.
    pub generation: u64,
    pub config: PortConfig,
    pub path: String,
    pub fragment_bytes: u32,
    /// The busy device was retired for this order already.
    pub retried: bool,
    /// The device to close before the replacement is opened.
    pub retire_first: Option<V>,
}

/// What became of an order.
pub enum SwapOutcome<V> {
    /// The replacement is open and configured.
    Installed { dsp: V, config: PortConfig },
    /// The order was no longer wanted.
    Aborted,
    /// The device is busy, most likely with the very one to be replaced: retire that
    /// one and try again.
    RetireAndRetry { request: RebuildRequest<V>, placeholder: V },
    /// The replacement could not be opened or configured.
    Failed { placeholder: V },
}

/// The completion of an order.
pub struct DeviceSwap<V> {
    pub port_idx: usize,
    pub generation: u64,
    pub outcome: SwapOutcome<V>,
}

/// A command for the worker. Devices are closed by the worker, never by the data
/// loop.
pub enum RebuildWork<V> {
    Rebuild(RebuildRequest<V>),
    RetireDevice(V),
    RetireSwap(DeviceSwap<V>),
}

/// The fate of a submitted command.
pub enum WorkSubmission<V> {
    Submitted,
    /// The slot was occupied or closed; the command is handed back.
    Returned(RebuildWork<V>),
}

/// What the data loop, the worker and the control thread share.
pub struct NodeShared<V> {
    /// The node was not cleared yet.
    pub alive: bool,
    /// The node is started, as the control thread sees it.
    pub started: bool,
    /// The port's generation, as the worker sees it.
    pub generation: u64,
    /// The completion that waits for the data loop.
    pub slot: Option<DeviceSwap<V>>,
}

impl<V> NodeShared<V> {
    /// A live, stopped node without a completion.
    pub fn new() -> (shared: NodeShared<V>)
        ensures
            shared == (NodeShared::<V> { alive: true, started: false, generation: 0, slot: None }),
    {
        NodeShared { alive: true, started: false, generation: 0, slot: None }
    }

    /// Whether the node was not cleared yet.
    pub fn is_alive(&self) -> (alive: bool)
        ensures
            alive == self.alive,
    {
        self.alive
    }

    /// Marks the node as cleared: late completions and events are void.
    pub fn close(&mut self)
        ensures
            *final(self) == (NodeShared { alive: false, ..*old(self) }),
    {
        self.alive = false;
    }

    /// Puts `new` in place of the waiting completion and hands that one back.
    pub fn exchange(&mut self, new: Option<DeviceSwap<V>>) -> (previous: Option<DeviceSwap<V>>)
        ensures
            previous == old(self).slot,
            *final(self) == (NodeShared { slot: new, ..*old(self) }),
    {
        let mut previous = new;
        core::mem::swap(&mut self.slot, &mut previous);
        previous
    }

    /// Leaves a completion for the data loop. A completion that it replaces is handed
    /// back, to be closed by the caller.
    pub fn deposit(&mut self, swap: DeviceSwap<V>) -> (replaced: Option<DeviceSwap<V>>)
        ensures
            replaced == old(self).slot,
            *final(self) == old(self).after(MailboxEvent::Deposit(swap)),
    {
        self.exchange(Some(swap))
    }

    /// Whether a completion waits.
    pub fn swap_ready(&self) -> (ready: bool)
        ensures
            ready == self.slot is Some,
    {
        self.slot.is_some()
    }

    /// Takes the waiting completion.
    pub fn take_swap(&mut self) -> (swap: Option<DeviceSwap<V>>)
        ensures
            swap == old(self).slot,
            *final(self) == old(self).after(MailboxEvent::Take),
    {
        self.slot.take()
    }

    /// Voids the waiting completion; it is handed back, to be closed by the caller.
    pub fn discard_swap(&mut self) -> (voided: Option<DeviceSwap<V>>)
        ensures
            voided == old(self).slot,
            *final(self) == old(self).after(MailboxEvent::Discard),
    {
        self.exchange(None)
    }

    /// The node is live and started, and the port is still at `generation`.
    pub open spec fn wants(&self, generation: u64) -> bool {
        self.alive && self.started && self.generation == generation
    }
}

/// Something that happens to the place where completions wait.
pub enum MailboxEvent<V> {
    /// The worker leaves a completion.
    Deposit(DeviceSwap<V>),
    /// The data loop takes the waiting completion.
    Take,
    /// The control thread voids the waiting completion.
    Discard,
}

impl<V> NodeShared<V> {
    /// The node after an event of its mailbox.
    pub open spec fn after(self, event: MailboxEvent<V>) -> NodeShared<V> {
        match event {
            MailboxEvent::Deposit(swap) => NodeShared { slot: Some(swap), ..self },
            MailboxEvent::Take | MailboxEvent::Discard => NodeShared { slot: None, ..self },
        }
    }

    /// The node after some events of its mailbox.
    pub open spec fn after_all(self, events: Seq<MailboxEvent<V>>) -> NodeShared<V>
        decreases events.len(),
    {
        if events.len() == 0 {
            self
        } else {
            self.after_all(events.drop_last()).after(events.last())
        }
    }

    /// The completions that the data loop took over some events, in order.
    pub open spec fn taken_over(self, events: Seq<MailboxEvent<V>>) -> Seq<DeviceSwap<V>>
        decreases events.len(),
    {
        if events.len() == 0 {
            seq![]
        } else {
            let earlier = self.taken_over(events.drop_last());
            match (events.last(), self.after_all(events.drop_last()).slot) {
                (MailboxEvent::Take, Some(swap)) => earlier.push(swap),
                _ => earlier,
            }
        }
    }
}

/// The places of the deposits that the data loop took: those that a take follows at once.
pub open spec fn taken_deposits<V>(events: Seq<MailboxEvent<V>>) -> Seq<int>
    decreases events.len(),
{
    if events.len() == 0 {
        seq![]
    } else {
        let front = events.drop_last();
        if events.last() is Take && front.len() > 0 && front.last() is Deposit {
            taken_deposits(front).push(front.len() - 1)
        } else {
            taken_deposits(front)
        }
    }
}

/// Whatever the worker, the data loop and the control thread do to the mailbox, in any
/// order: a completion is taken once at most, in the order of the deposits, and only
/// the newest one that was not voided. Nothing else of the node changes.
pub proof fn completions_are_delivered_once<V>(
    shared: NodeShared<V>,
    events: Seq<MailboxEvent<V>>,
)
    requires
        shared.slot is None,
    ensures
        ({
            let at = taken_deposits(events);
            let taken = shared.taken_over(events);
            &&& taken.len() == at.len()
            &&& forall|j: int|
                0 <= j < at.len() ==> 0 <= #[trigger] at[j] < events.len() && events[at[j]]
                    == MailboxEvent::Deposit(taken[j])
            &&& forall|j: int, k: int|
                0 <= j < k < at.len() ==> #[trigger] at[j] < #[trigger] at[k]
        }),
        shared.after_all(events) == (NodeShared {
            slot: if events.len() > 0 && events.last() is Deposit {
                Some(events.last()->Deposit_0)
            } else {
                None
            },
            ..shared
        }),
        events.len() > 0 && events.last() is Deposit ==> forall|j: int|
            0 <= j < taken_deposits(events).len() ==> #[trigger] taken_deposits(events)[j]
                < events.len() - 1,
    decreases events.len(),
{
    if events.len() > 0 {
        let front = events.drop_last();
        completions_are_delivered_once(shared, front);
        let earlier = taken_deposits(front);
        let at = taken_deposits(events);
        let taken = shared.taken_over(events);
        assert forall|j: int| 0 <= j < at.len() implies 0 <= #[trigger] at[j] < events.len()
            && events[at[j]] == MailboxEvent::Deposit(taken[j]) by {
            if j < earlier.len() {
                assert(front[earlier[j]] == events[earlier[j]]);
            } else {
                assert(events[front.len() - 1] == front.last());
            }
        }
        assert forall|j: int, k: int| 0 <= j < k < at.len() implies #[trigger] at[j]
            < #[trigger] at[k] by {
            assert(at[j] == earlier[j]);
        }
    }
}

/// While the worker's completions never go back to an earlier generation, neither does
/// what the data loop takes.
pub proof fn taken_generations_never_regress<V>(
    shared: NodeShared<V>,
    events: Seq<MailboxEvent<V>>,
    j: int,
    k: int,
)
    requires
        shared.slot is None,
        forall|a: int, b: int|
            0 <= a < b < events.len() && #[trigger] events[a] is Deposit && #[trigger] events[b]
                is Deposit ==> events[a]->Deposit_0.generation <= events[b]->Deposit_0.generation,
        0 <= j < k < shared.taken_over(events).len(),
    ensures
        shared.taken_over(events)[j].generation <= shared.taken_over(events)[k].generation,
{
    completions_are_delivered_once(shared, events);
    let at = taken_deposits(events);
    assert(at[j] < at[k]);
    assert(events[at[j]] is Deposit && events[at[k]] is Deposit);
}

/// The single place where a command waits for the worker.
pub struct RebuildWorkSlot<V> {
    pub work: Option<RebuildWork<V>>,
    /// No command is accepted any more.
    pub closed: bool,
    /// The worker is to end.
    pub stopping: bool,
    /// The worker has taken a command and not finished it.
    pub active: bool,
}

/// Whether the control thread may go on.
#[derive(Debug, Clone, Copy, PartialEq, Eq, Structural)]
pub enum WaitStep {
    /// Every command is finished.
    Idle,
    /// The worker ends; waiting is pointless.
    Stopped,
    /// A command is waiting or running.
    Wait,
}

/// What the worker does next.
pub enum WorkerStep<V> {
    Run(RebuildWork<V>),
    /// The worker is to end: the command is dropped, its devices closed here.
    Discard(RebuildWork<V>),
    Exit,
    /// The slot is about to be closed: look again soon.
    Yield,
    Park,
}

impl<V> RebuildWorkSlot<V> {
    /// An open, empty slot.
    pub fn new() -> (slot: RebuildWorkSlot<V>)
        ensures
            slot == (RebuildWorkSlot::<V> {
                work: None,
                closed: false,
                stopping: false,
                active: false,
            }),
            slot.wf(),
    {
        RebuildWorkSlot { work: None, closed: false, stopping: false, active: false }
    }

    /// A closed slot is empty.
    pub open spec fn wf(&self) -> bool {
        self.closed ==> self.work is None
    }

    /// Whether the slot takes a command.
    pub open spec fn accepts(&self) -> bool {
        !self.closed && self.work is None
    }

    /// Submits a command. It is never lost: an occupied or closed slot hands it back.
    pub fn try_submit(&mut self, work: RebuildWork<V>) -> (submission: WorkSubmission<V>)
        requires
            old(self).wf(),
        ensures
            final(self).wf(),
            submission == if old(self).accepts() {
                WorkSubmission::<V>::Submitted
            } else {
                WorkSubmission::Returned(work)
            },
            *final(self) == old(self).after(SlotEvent::Submit(work)),
    {
        if self.closed || self.work.is_some() {
            return WorkSubmission::Returned(work);
        }
        self.work = Some(work);
        WorkSubmission::Submitted
    }

    /// Takes the waiting command.
    pub fn take(&mut self) -> (work: Option<RebuildWork<V>>)
        requires
            old(self).wf(),
        ensures
            final(self).wf(),
            work == old(self).work,
            *final(self) == (RebuildWorkSlot { work: None, ..*old(self) }),
    {
        self.work.take()
    }

    /// Closes the slot, unless a command still waits in it: the worker takes that one
    /// first. Returns whether the slot is closed.
    pub fn close(&mut self) -> (closed: bool)
        requires
            old(self).wf(),
        ensures
            final(self).wf(),
            closed == (old(self).work is None),
            *final(self) == old(self).after(SlotEvent::Close),
    {
        if self.work.is_some() {
            return false;
        }
        self.closed = true;
        true
    }

    /// Whether every command that was submitted is finished.
    pub fn wait_idle(&self) -> (step: WaitStep)
        ensures
            step == if self.idle() {
                WaitStep::Idle
            } else if self.stopping {
                WaitStep::Stopped
            } else {
                WaitStep::Wait
            },
    {
        if !self.active && !self.closed && self.work.is_none() {
            WaitStep::Idle
        } else if self.stopping {
            WaitStep::Stopped
        } else {
            WaitStep::Wait
        }
    }

    /// The worker's next step. A taken command counts as running at once, so that no
    /// waiter sees the slot empty before the command is finished.
    pub fn next_step(&mut self) -> (step: WorkerStep<V>)
        requires
            old(self).wf(),
        ensures
            final(self).wf(),
            *final(self) == old(self).after(SlotEvent::Step),
            step == match old(self).work {
                Some(work) => if old(self).stopping {
                    WorkerStep::Discard(work)
                } else {
                    WorkerStep::Run(work)
                },
                None => if old(self).closed {
                    WorkerStep::<V>::Exit
                } else if old(self).stopping {
                    WorkerStep::<V>::Yield
                } else {
                    WorkerStep::<V>::Park
                },
            },
    {
        match self.work.take() {
            Some(work) => {
                self.active = true;
                if self.stopping {
                    WorkerStep::Discard(work)
                } else {
                    WorkerStep::Run(work)
                }
            },
            None => if self.closed {
                WorkerStep::Exit
            } else if self.stopping {
                WorkerStep::Yield
            } else {
                WorkerStep::Park
            },
        }
    }

    /// The worker finished its command.
    pub fn finish(&mut self)
        ensures
            *final(self) == old(self).after(SlotEvent::Finish),
    {
        self.active = false;
    }

    /// Asks the worker to end.
    pub fn stop(&mut self)
        ensures
            *final(self) == old(self).after(SlotEvent::Stop),
    {
        self.stopping = true;
    }
}

/// Something that happens to the place where commands wait.
pub enum SlotEvent<V> {
    /// A command is submitted.
    Submit(RebuildWork<V>),
    /// The worker, which has finished its last command, looks for the next.
    Step,
    /// The worker finishes its command.
    Finish,
    Close,
    Stop,
}

impl<V> RebuildWorkSlot<V> {
    /// Whether the worker can do this now: it looks for a command when it has none, and
    /// finishes one when it has one.
    pub open spec fn allows(self, event: SlotEvent<V>) -> bool {
        match event {
            SlotEvent::Step => !self.active,
            SlotEvent::Finish => self.active,
            _ => true,
        }
    }

    /// The slot after an event.
    pub open spec fn after(self, event: SlotEvent<V>) -> RebuildWorkSlot<V> {
        match event {
            SlotEvent::Submit(work) => if self.accepts() {
                RebuildWorkSlot { work: Some(work), ..self }
            } else {
                self
            },
            SlotEvent::Step => if self.work is Some {
                RebuildWorkSlot { work: None, active: true, ..self }
            } else {
                self
            },
            SlotEvent::Finish => RebuildWorkSlot { active: false, ..self },
            SlotEvent::Close => RebuildWorkSlot { closed: self.closed || self.work is None, ..self },
            SlotEvent::Stop => RebuildWorkSlot { stopping: true, ..self },
        }
    }

    /// The slot after some events.
    pub open spec fn after_all(self, events: Seq<SlotEvent<V>>) -> RebuildWorkSlot<V>
        decreases events.len(),
    {
        if events.len() == 0 {
            self
        } else {
            self.after_all(events.drop_last()).after(events.last())
        }
    }

    /// Whether the worker could do all of this.
    pub open spec fn allows_all(self, events: Seq<SlotEvent<V>>) -> bool
        decreases events.len(),
    {
        events.len() == 0 || (self.allows_all(events.drop_last()) && self.after_all(
            events.drop_last(),
        ).allows(events.last()))
    }

    /// How many commands were accepted over some events.
    pub open spec fn accepted_over(self, events: Seq<SlotEvent<V>>) -> nat
        decreases events.len(),
    {
        if events.len() == 0 {
            0
        } else {
            let front = events.drop_last();
            self.accepted_over(front) + if events.last() is Submit && self.after_all(
                front,
            ).accepts() {
                1nat
            } else {
                0
            }
        }
    }

    /// How many commands the worker finished over some events.
    pub open spec fn finished_over(self, events: Seq<SlotEvent<V>>) -> nat
        decreases events.len(),
    {
        if events.len() == 0 {
            0
        } else {
            self.finished_over(events.drop_last()) + if events.last() is Finish {
                1nat
            } else {
                0
            }
        }
    }

    /// Every command is finished, and another one would be taken.
    pub open spec fn idle(self) -> bool {
        !self.active && self.accepts()
    }
}

/// No command is lost, whatever happens in whatever order: each one that was accepted
/// waits, runs, or is finished. So a control thread that finds the slot idle has seen
/// every command finished.
pub proof fn idle_means_finished<V>(slot: RebuildWorkSlot<V>, events: Seq<SlotEvent<V>>)
    requires
        slot.wf(),
        slot.idle(),
        slot.allows_all(events),
    ensures
        ({
            let now = slot.after_all(events);
            &&& now.wf()
            &&& slot.accepted_over(events) == slot.finished_over(events) + (if now.work is Some {
                1int
            } else {
                0
            }) + (if now.active {
                1int
            } else {
                0
            })
            &&& now.idle() ==> slot.accepted_over(events) == slot.finished_over(events)
        }),
    decreases events.len(),
{
    if events.len() > 0 {
        idle_means_finished(slot, events.drop_last());
    }
}

/// Whether an order is still wanted: the node is live and started, and the port was
/// not changed since.
pub fn rebuild_request_is_current<V>(shared: &NodeShared<V>, generation: u64) -> (current: bool)
    ensures
        current == shared.wants(generation),
{
    shared.alive && shared.started && shared.generation == generation
}

/// Why a device could not be opened or configured.
#[derive(Debug, Clone, Copy, PartialEq, Eq, Structural)]
pub enum OpenError {
    /// Another user holds the device.
    Busy,
    /// The device does not take the configuration.
    Invalid,
    /// The device does not support the configuration.
    NotSupported,
    /// The error number of any other failure.
    Other(i32),
}

/// The result of opening and configuring a device; on failure it is closed.
pub struct OpenAttempt<V> {
    pub device: V,
    pub result: Result<PortConfig, OpenError>,
}

/// The outcome of an order, and the device that is to be closed with it.
pub open spec fn task_outcome<V>(
    request: RebuildRequest<V>,
    attempt: OpenAttempt<V>,
    current: bool,
) -> (SwapOutcome<V>, Option<V>) {
    if !current {
        (SwapOutcome::Aborted, Some(attempt.device))
    } else {
        match attempt.result {
            Ok(config) => (SwapOutcome::Installed { dsp: attempt.device, config }, None),
            Err(error) => if error == OpenError::Busy && !request.retried {
                (
                    SwapOutcome::RetireAndRetry {
                        request: RebuildRequest { retried: true, ..request },
                        placeholder: attempt.device,
                    },
                    None,
                )
            } else {
                (SwapOutcome::Failed { placeholder: attempt.device }, None)
            },
        }
    }
}

/// The completion of an order whose device was opened, or not. `current` tells that
/// the order was still wanted after the attempt: a device that nobody wants any more
/// is handed back to be closed, and never deposited.
pub fn finish_task<V>(request: RebuildRequest<V>, attempt: OpenAttempt<V>, current: bool) -> (r: (
    DeviceSwap<V>,
    Option<V>,
))
    ensures
        r.0.port_idx == request.port_idx,
        r.0.generation == request.generation,
        (r.0.outcome, r.1) == task_outcome(request, attempt, current),
{
    let port_idx: usize = request.port_idx;
    let generation: u64 = request.generation;
    let (outcome, close) = if !current {
        (SwapOutcome::Aborted, Some(attempt.device))
    } else {
        match attempt.result {
            Ok(config) => (SwapOutcome::Installed { dsp: attempt.device, config }, None),
            Err(error) => if error == OpenError::Busy && !request.retried {
                let mut request = request;
                request.retried = true;
                (SwapOutcome::RetireAndRetry { request, placeholder: attempt.device }, None)
            } else {
                (SwapOutcome::Failed { placeholder: attempt.device }, None)
            },
        }
    };
    (DeviceSwap { port_idx, generation, outcome }, close)
}

/// The completion of an order that was not carried out: the port drops its claim, and
/// a later cycle may order again.
pub fn aborted_swap<V>(port_idx: usize, generation: u64) -> (swap: DeviceSwap<V>)
    ensures
        swap == (DeviceSwap::<V> { port_idx, generation, outcome: SwapOutcome::Aborted }),
{
    DeviceSwap { port_idx, generation, outcome: SwapOutcome::Aborted }
}

/// Lets an order through to the open only while it is still wanted. Any other one is
/// aborted without an attempt to open the device; its completion still goes out, so that
/// the port's claim is settled.
pub fn admit_task<V>(request: RebuildRequest<V>, current: bool) -> (r: Result<
    RebuildRequest<V>,
    DeviceSwap<V>,
>)
    ensures
        r == if current {
            Ok(request)
        } else {
            Err(
                DeviceSwap {
                    port_idx: request.port_idx,
                    generation: request.generation,
                    outcome: SwapOutcome::<V>::Aborted,
                },
            )
        },
{
    if current {
        Ok(request)
    } else {
        Err(aborted_swap(request.port_idx, request.generation))
    }
}

/// How the worker starts on an order.
pub enum TaskStart<V> {
    /// The node was cleared: nobody is left to take a completion.
    Drop(RebuildRequest<V>),
    /// Close `retire`; the device is opened if [`admit_task`] lets the order through.
    Open { request: RebuildRequest<V>, retire: Option<V> },
}

/// Starts on an order. The device to be retired has to be closed before the order's
/// own is opened, for an exclusive device admits only one.
pub fn begin_task<V>(request: RebuildRequest<V>, alive: bool) -> (start: TaskStart<V>)
    ensures
        start == if alive {
            TaskStart::Open {
                request: RebuildRequest { retire_first: None, ..request },
                retire: request.retire_first,
            }
        } else {
            TaskStart::Drop(request)
        },
{
    if !alive {
        return TaskStart::Drop(request);
    }
    let mut request = request;
    let retire = request.retire_first.take();
    TaskStart::Open { request, retire }
}

/// No outcome hands an open device to a node that was stopped, cleared or changed
/// meanwhile, and a busy device is retired for an order at most once.
pub proof fn stopped_node_gets_no_device<V>(
    request: RebuildRequest<V>,
    attempt: OpenAttempt<V>,
    current: bool,
)
    ensures
        !current ==> task_outcome(request, attempt, current).0 is Aborted,
        task_outcome(request, attempt, current).0 is Installed ==> current && attempt.result is Ok,
        task_outcome(request, attempt, current).0 matches SwapOutcome::RetireAndRetry {
            request: again,
            ..
        } ==> !request.retried && again.retried,
{
}

/// An event that the data loop leaves for the control thread.
#[derive(Debug, Clone, Copy, PartialEq, Eq, Structural)]
pub enum MainEvent {
    /// The port lost its format, as of this publication.
    FormatLost { expected_publication_epoch: u64 },
}

/// What the data loop owns.
pub struct NodeData<E, V> {
    pub port: Port<E>,
    pub device: V,
    pub path: String,
    pub fragment_bytes: u32,
    /// The number of buffers that the host registered.
    pub n_buffers: usize,
    pub started: bool,
    pub following: bool,
    /// The control thread is replacing the device: no completion is taken and no
    /// command submitted.
    pub rebuild_takeover: bool,
    /// A command that found the worker's slot occupied.
    pub deferred_work: Option<RebuildWork<V>>,
    pub pending_main_event: Option<MainEvent>,
}

/// Whether a command can be submitted after the deferred one: there is none, or the
/// slot takes it.
pub open spec fn flushes<E, V>(data: NodeData<E, V>, slot: RebuildWorkSlot<V>) -> bool {
    data.deferred_work is None || slot.accepts()
}

/// The data loop and the slot after the deferred command was tried again.
pub open spec fn flushed<E, V>(data: NodeData<E, V>, slot: RebuildWorkSlot<V>) -> (
    NodeData<E, V>,
    RebuildWorkSlot<V>,
) {
    if data.deferred_work is Some && slot.accepts() {
        (
            NodeData { deferred_work: None, ..data },
            RebuildWorkSlot { work: data.deferred_work, ..slot },
        )
    } else {
        (data, slot)
    }
}

/// Tries the deferred command again, before any completion is taken: it may own the
/// device that is being retired and has to stay the worker's next command. Returns
/// whether no command is deferred any more.
pub fn flush_deferred_work<E, V>(data: &mut NodeData<E, V>, slot: &mut RebuildWorkSlot<V>) -> (clear:
    bool)
    requires
        old(slot).wf(),
    ensures
        final(slot).wf(),
        clear == flushes(*old(data), *old(slot)),
        (*final(data), *final(slot)) == flushed(*old(data), *old(slot)),
        clear ==> final(data).deferred_work is None,
{
    let work = match data.deferred_work.take() {
        Some(work) => work,
        None => return true,
    };
    match slot.try_submit(work) {
        WorkSubmission::Submitted => true,
        WorkSubmission::Returned(work) => {
            data.deferred_work = Some(work);
            false
        },
    }
}

/// The data loop and the slot after a command was submitted or deferred.
pub open spec fn submitted<E, V>(
    data: NodeData<E, V>,
    slot: RebuildWorkSlot<V>,
    work: RebuildWork<V>,
) -> (NodeData<E, V>, RebuildWorkSlot<V>) {
    if slot.accepts() {
        (data, RebuildWorkSlot { work: Some(work), ..slot })
    } else {
        (NodeData { deferred_work: Some(work), ..data }, slot)
    }
}

/// Submits a command, or keeps it for the next cycle; it is never dropped.
pub fn submit_or_defer<E, V>(
    data: &mut NodeData<E, V>,
    slot: &mut RebuildWorkSlot<V>,
    work: RebuildWork<V>,
)
    requires
        old(slot).wf(),
        old(data).deferred_work is None,
    ensures
        final(slot).wf(),
        (*final(data), *final(slot)) == submitted(*old(data), *old(slot), work),
{
    match slot.try_submit(work) {
        WorkSubmission::Submitted => {},
        WorkSubmission::Returned(work) => {
            data.deferred_work = Some(work);
        },
    }
}

/// Whether a command is the order to rebuild a port as it stands.
pub open spec fn is_order_for<E, V>(
    work: RebuildWork<V>,
    data: NodeData<E, V>,
    port_idx: usize,
) -> bool {
    work matches RebuildWork::Rebuild(request) && {
        &&& request.port_idx == port_idx
        &&& request.generation == data.port.generation
        &&& data.port.config matches Some(config) && request.config@ == config@
        &&& request.path@ == data.path@
        &&& request.fragment_bytes == data.fragment_bytes
        &&& !request.retried
        &&& request.retire_first is None
    }
}

/// Whether a rebuild can be ordered: the control thread is not replacing the device,
/// no command is stuck, and a format is negotiated.
pub open spec fn orderable<E, V>(data: NodeData<E, V>, slot: RebuildWorkSlot<V>) -> bool {
    !data.rebuild_takeover && flushes(data, slot) && data.port.config is Some
}

/// The data loop and the slot after `work` was ordered.
pub open spec fn ordered<E, V>(
    data: NodeData<E, V>,
    slot: RebuildWorkSlot<V>,
    work: RebuildWork<V>,
) -> (NodeData<E, V>, RebuildWorkSlot<V>) {
    let (data, slot) = flushed(data, slot);
    let (data, slot) = submitted(data, slot, work);
    (NodeData { port: Port { rebuild_pending: true, ..data.port }, ..data }, slot)
}

/// Whether an attempt to order a rebuild leaves the data loop and the slot like this: the
/// order in flight and the port claimed; or, where none can be given, no more than a
/// command that was stuck handed on.
pub open spec fn rebuild_queued<E, V>(
    data: NodeData<E, V>,
    slot: RebuildWorkSlot<V>,
    port_idx: usize,
    data_after: NodeData<E, V>,
    slot_after: RebuildWorkSlot<V>,
) -> bool {
    if orderable(data, slot) {
        exists|work: RebuildWork<V>|
            is_order_for(work, data, port_idx) && (data_after, slot_after) == #[trigger] ordered(
                data,
                slot,
                work,
            )
    } else if data.rebuild_takeover {
        (data_after, slot_after) == (data, slot)
    } else {
        (data_after, slot_after) == flushed(data, slot)
    }
}

/// Orders a rebuild of the port's device and claims the port until the completion
/// arrives. Returns whether an order is now in flight.
pub fn queue_rebuild<E, V>(
    data: &mut NodeData<E, V>,
    slot: &mut RebuildWorkSlot<V>,
    port_idx: usize,
) -> (queued: bool)
    requires
        old(slot).wf(),
    ensures
        final(slot).wf(),
        queued == orderable(*old(data), *old(slot)),
        rebuild_queued(*old(data), *old(slot), port_idx, *final(data), *final(slot)),
{
    if data.rebuild_takeover {
        return false;
    }
    if !flush_deferred_work(data, slot) {
        return false;
    }
    let config = match &data.port.config {
        Some(config) => config.copy(),
        None => return false,
    };
    let work = RebuildWork::Rebuild(
        RebuildRequest {
            port_idx,
            generation: data.port.generation,
            config,
            path: data.path.clone(),
            fragment_bytes: data.fragment_bytes,
            retried: false,
            retire_first: None,
        },
    );
    let ghost order = work;
    assert(is_order_for(order, *old(data), port_idx));
    submit_or_defer(data, slot, work);
    data.port.rebuild_pending = true;
    assert((*data, *slot) == ordered(*old(data), *old(slot), order));
    true
}

/// A port that reported its end and has no rebuild in flight gets one ordered.
pub open spec fn needs_eof_rebuild<E>(port: Port<E>) -> bool {
    port.device_eof && !port.rebuild_pending
}

/// Orders the rebuild of a device that reported its end, unless one is in flight.
/// Returns whether it was ordered.
pub fn queue_device_eof_rebuilds<E, V>(
    data: &mut NodeData<E, V>,
    slot: &mut RebuildWorkSlot<V>,
) -> (queued: bool)
    requires
        old(slot).wf(),
    ensures
        final(slot).wf(),
        queued == (needs_eof_rebuild(old(data).port) && orderable(*old(data), *old(slot))),
        if needs_eof_rebuild(old(data).port) {
            rebuild_queued(*old(data), *old(slot), 0, *final(data), *final(slot))
        } else {
            (*final(data), *final(slot)) == (*old(data), *old(slot))
        },
{
    if data.port.device_eof && !data.port.rebuild_pending {
        queue_rebuild(data, slot, 0)
    } else {
        false
    }
}

/// What the data loop has to do besides: the wake-up of the previous device is void,
/// or the driver's wake-up has to be armed anew.
#[derive(Debug, Clone, Copy, PartialEq, Eq, Structural)]
pub struct PollOutcome {
    /// The cycle skips the port.
    pub skip: bool,
    pub invalidate_wake: bool,
    pub update_wake: bool,
}

/// The port after another device was put in place with `config`.
pub open spec fn port_replaced<E: Direction>(
    port: Port<E>,
    config: Option<PortConfig>,
) -> Port<E> {
    E::device_swapped(
        Port {
            config,
            generation: port.generation.wrapping_add(1),
            rebuild_pending: false,
            was_matching: false,
            ..port
        },
    )
}

/// Puts the port in order for another device with `config`.
pub(crate) fn replace_port<E: Direction>(port: &mut Port<E>, config: Option<PortConfig>)
    ensures
        *final(port) == port_replaced(*old(port), config),
{
    port.config = config;
    port.generation = port.generation.wrapping_add(1);
    port.rebuild_pending = false;
    port.was_matching = false;
    E::on_device_swapped(port);
}

/// A node's state, and what is to be done besides.
pub struct Polled<E, V> {
    pub data: NodeData<E, V>,
    pub shared: NodeShared<V>,
    pub slot: RebuildWorkSlot<V>,
    pub outcome: PollOutcome,
}

/// The state with a command submitted or deferred.
pub open spec fn polled<E, V>(
    data: NodeData<E, V>,
    shared: NodeShared<V>,
    slot: RebuildWorkSlot<V>,
    work: RebuildWork<V>,
    outcome: PollOutcome,
) -> Polled<E, V> {
    let (data, slot) = submitted(data, slot, work);
    Polled { data, shared, slot, outcome }
}

/// The state after a completion was taken: a completion of another generation goes to
/// the worker, whatever it holds.
pub open spec fn completed<E: Direction, V>(
    data: NodeData<E, V>,
    shared: NodeShared<V>,
    slot: RebuildWorkSlot<V>,
    swap: DeviceSwap<V>,
    epoch: u64,
) -> Polled<E, V> {
    let quiet = PollOutcome {
        skip: data.port.rebuild_pending,
        invalidate_wake: false,
        update_wake: false,
    };
    if swap.generation != data.port.generation {
        polled(data, shared, slot, RebuildWork::RetireSwap(swap), quiet)
    } else {
        match swap.outcome {
            SwapOutcome::Installed { dsp, config } => {
                let port = port_replaced(data.port, Some(config));
                polled(
                    NodeData { port, device: dsp, ..data },
                    NodeShared { generation: port.generation, ..shared },
                    slot,
                    RebuildWork::RetireDevice(data.device),
                    PollOutcome { skip: false, invalidate_wake: true, update_wake: data.started },
                )
            },
            SwapOutcome::Aborted => Polled {
                data: NodeData { port: Port { rebuild_pending: false, ..data.port }, ..data },
                shared,
                slot,
                outcome: PollOutcome { skip: true, ..quiet },
            },
            SwapOutcome::RetireAndRetry { request, placeholder } => polled(
                NodeData {
                    port: data.port.without_device_event(),
                    device: placeholder,
                    ..data
                },
                shared,
                slot,
                RebuildWork::Rebuild(
                    RebuildRequest { retire_first: Some(data.device), ..request },
                ),
                PollOutcome { skip: true, invalidate_wake: false, update_wake: data.started },
            ),
            SwapOutcome::Failed { placeholder } => {
                let port = port_replaced(data.port, None);
                polled(
                    NodeData {
                        port,
                        device: placeholder,
                        pending_main_event: Some(
                            MainEvent::FormatLost { expected_publication_epoch: epoch },
                        ),
                        ..data
                    },
                    NodeShared { generation: port.generation, ..shared },
                    slot,
                    RebuildWork::RetireDevice(data.device),
                    PollOutcome { skip: true, invalidate_wake: true, update_wake: data.started },
                )
            },
        }
    }
}

/// The state after the start of a cycle.
pub open spec fn cycle_polled<E: Direction, V>(
    data: NodeData<E, V>,
    shared: NodeShared<V>,
    slot: RebuildWorkSlot<V>,
    epoch: u64,
) -> Polled<E, V> {
    let skipped = PollOutcome { skip: true, invalidate_wake: false, update_wake: false };
    if data.rebuild_takeover {
        Polled { data, shared, slot, outcome: skipped }
    } else if !flushes(data, slot) {
        Polled { data, shared, slot, outcome: skipped }
    } else {
        let (data, slot) = flushed(data, slot);
        match shared.slot {
            None => Polled {
                data,
                shared,
                slot,
                outcome: PollOutcome { skip: data.port.rebuild_pending, ..skipped },
            },
            Some(swap) => completed(
                data,
                NodeShared { slot: None, ..shared },
                slot,
                swap,
                epoch,
            ),
        }
    }
}

fn take_completion<E: Direction, V>(
    data: &mut NodeData<E, V>,
    shared: &mut NodeShared<V>,
    slot: &mut RebuildWorkSlot<V>,
    swap: DeviceSwap<V>,
    epoch: u64,
) -> (outcome: PollOutcome)
    requires
        old(slot).wf(),
        old(data).deferred_work is None,
    ensures
        final(slot).wf(),
        (Polled { data: *final(data), shared: *final(shared), slot: *final(slot), outcome })
            == completed(*old(data), *old(shared), *old(slot), swap, epoch),
{
    if swap.generation != data.port.generation {
        let skip = data.port.rebuild_pending;
        submit_or_defer(data, slot, RebuildWork::RetireSwap(swap));
        return PollOutcome { skip, invalidate_wake: false, update_wake: false };
    }
    match swap.outcome {
        SwapOutcome::Installed { dsp, config } => {
            let mut old_device = dsp;
            core::mem::swap(&mut data.device, &mut old_device);
            replace_port(&mut data.port, Some(config));
            shared.generation = data.port.generation;
            submit_or_defer(data, slot, RebuildWork::RetireDevice(old_device));
            PollOutcome { skip: false, invalidate_wake: true, update_wake: data.started }
        },
        SwapOutcome::Aborted => {
            data.port.rebuild_pending = false;
            PollOutcome { skip: true, invalidate_wake: false, update_wake: false }
        },
        SwapOutcome::RetireAndRetry { request, placeholder } => {
            reset_device_event(&mut data.port);
            let mut old_device = placeholder;
            core::mem::swap(&mut data.device, &mut old_device);
            let mut request = request;
            request.retire_first = Some(old_device);
            submit_or_defer(data, slot, RebuildWork::Rebuild(request));
            PollOutcome { skip: true, invalidate_wake: false, update_wake: data.started }
        },
        SwapOutcome::Failed { placeholder } => {
            let mut old_device = placeholder;
            core::mem::swap(&mut data.device, &mut old_device);
            replace_port(&mut data.port, None);
            shared.generation = data.port.generation;
            submit_or_defer(data, slot, RebuildWork::RetireDevice(old_device));
            data.pending_main_event = Some(
                MainEvent::FormatLost { expected_publication_epoch: epoch },
            );
            PollOutcome { skip: true, invalidate_wake: true, update_wake: data.started }
        },
    }
}

/// Takes a completion at the start of a cycle, if one arrived. A completion of another
/// generation is not applied. `epoch` is the present format publication, to which a
/// lost format refers.
pub fn poll_rebuild<E: Direction, V>(
    data: &mut NodeData<E, V>,
    shared: &mut NodeShared<V>,
    slot: &mut RebuildWorkSlot<V>,
    epoch: u64,
) -> (outcome: PollOutcome)
    requires
        old(slot).wf(),
    ensures
        final(slot).wf(),
        (Polled { data: *final(data), shared: *final(shared), slot: *final(slot), outcome })
            == cycle_polled(*old(data), *old(shared), *old(slot), epoch),
{
    let skipped = PollOutcome { skip: true, invalidate_wake: false, update_wake: false };
    if data.rebuild_takeover {
        return skipped;
    }
    if !flush_deferred_work(data, slot) {
        return skipped;
    }
    match shared.take_swap() {
        Some(swap) => take_completion(data, shared, slot, swap, epoch),
        None => PollOutcome {
            skip: data.port.rebuild_pending,
            invalidate_wake: false,
            update_wake: false,
        },
    }
}

/// What a cycle does that finds the mailbox or the slot in use: it never waits.
pub open spec fn contended<E, V>(data: NodeData<E, V>) -> PollOutcome {
    PollOutcome {
        skip: data.rebuild_takeover || data.deferred_work is Some || data.port.rebuild_pending,
        invalidate_wake: false,
        update_wake: false,
    }
}

/// The start of a cycle that finds the mailbox or the slot in use. What waits there is
/// taken by the next cycle.
pub fn poll_contended<E, V>(data: &NodeData<E, V>) -> (outcome: PollOutcome)
    ensures
        outcome == contended(*data),
{
    PollOutcome {
        skip: data.rebuild_takeover || data.deferred_work.is_some() || data.port.rebuild_pending,
        invalidate_wake: false,
        update_wake: false,
    }
}

/// A cycle that finds the mailbox in use goes on as one that finds it empty.
pub proof fn contention_is_an_empty_mailbox<E: Direction, V>(
    data: NodeData<E, V>,
    shared: NodeShared<V>,
    slot: RebuildWorkSlot<V>,
    epoch: u64,
)
    requires
        shared.slot is None,
        data.deferred_work is None,
    ensures
        cycle_polled(data, shared, slot, epoch) == (Polled {
            data,
            shared,
            slot,
            outcome: contended(data),
        }),
{
}

/// A completion of another generation changes neither the port nor the device: it
/// goes to the worker as it is.
pub proof fn stale_completion_is_never_applied<E: Direction, V>(
    data: NodeData<E, V>,
    shared: NodeShared<V>,
    slot: RebuildWorkSlot<V>,
    swap: DeviceSwap<V>,
    epoch: u64,
)
    requires
        swap.generation != data.port.generation,
    ensures
        ({
            let after = completed(data, shared, slot, swap, epoch);
            &&& after.data.port == data.port
            &&& after.data.device == data.device
            &&& after.shared == shared
            &&& after.data.pending_main_event == data.pending_main_event
            &&& slot.accepts() ==> after.slot.work == Some(RebuildWork::RetireSwap(swap))
            &&& !slot.accepts() ==> after.data.deferred_work == Some(RebuildWork::RetireSwap(swap))
        }),
{
}

/// No device is lost when a completion is applied: the one that leaves the port goes
/// to the worker, alone or with the order that retires it.
pub proof fn replaced_device_goes_to_the_worker<E: Direction, V>(
    data: NodeData<E, V>,
    shared: NodeShared<V>,
    slot: RebuildWorkSlot<V>,
    swap: DeviceSwap<V>,
    epoch: u64,
)
    requires
        swap.generation == data.port.generation,
        !(swap.outcome is Aborted),
        slot.wf(),
    ensures
        ({
            let after = completed(data, shared, slot, swap, epoch);
            let handed = if slot.accepts() {
                after.slot.work
            } else {
                after.data.deferred_work
            };
            ||| handed == Some(RebuildWork::RetireDevice(data.device))
            ||| handed matches Some(RebuildWork::Rebuild(request)) && request.retire_first == Some(
                data.device,
            )
        }),
{
}

/// A port that took a completion is never left waiting for one: only a retried order
/// keeps the claim. An applied completion retires every older one.
pub proof fn completion_settles_the_claim<E: Direction, V>(
    data: NodeData<E, V>,
    shared: NodeShared<V>,
    slot: RebuildWorkSlot<V>,
    swap: DeviceSwap<V>,
    epoch: u64,
)
    requires
        swap.generation == data.port.generation,
        !(swap.outcome is RetireAndRetry),
    ensures
        ({
            let after = completed(data, shared, slot, swap, epoch);
            &&& !after.data.port.rebuild_pending
            &&& !(swap.outcome is Aborted) ==> {
                &&& after.data.port.generation == data.port.generation.wrapping_add(1)
                &&& after.data.port.generation != swap.generation
                &&& after.shared.generation == after.data.port.generation
            }
            &&& swap.outcome matches SwapOutcome::Installed { dsp, config } ==> after.data.device
                == dsp && after.data.port.config == Some(config)
            &&& swap.outcome is Failed ==> after.data.port.config is None
        }),
{
    match swap.outcome {
        SwapOutcome::Installed { config, .. } => {
            E::swap_keeps_identity(
                Port {
                    config: Some(config),
                    generation: data.port.generation.wrapping_add(1),
                    rebuild_pending: false,
                    was_matching: false,
                    ..data.port
                },
            );
        },
        _ => {
            E::swap_keeps_identity(
                Port {
                    config: None,
                    generation: data.port.generation.wrapping_add(1),
                    rebuild_pending: false,
                    was_matching: false,
                    ..data.port
                },
            );
        },
    }
}

/// An order is wanted by a node that lives, is started and is still at the order's
/// generation, and by no other.
pub proof fn order_is_wanted_until_something_changes<V>(shared: NodeShared<V>, generation: u64)
    ensures
        shared.wants(generation) ==> shared.alive,
        shared.wants(generation) ==> shared.started,
        shared.wants(generation) ==> shared.generation == generation,
        shared.alive && shared.started ==> shared.wants(shared.generation),
{
}

/// A slot takes one command at a time, and none once it is closed; it is idle only where
/// nothing waits and nothing runs. A command that it takes waits until the worker steps,
/// and then runs until it is finished.
pub proof fn command_goes_through_the_slot<V>(slot: RebuildWorkSlot<V>, work: RebuildWork<V>)
    ensures
        ({
            let after = slot.after(SlotEvent::Submit(work));
            let taken = after.after(SlotEvent::Step);
            &&& !slot.closed && slot.work is None ==> {
                &&& after == (RebuildWorkSlot { work: Some(work), ..slot })
                &&& !after.idle()
                &&& taken.active && taken.work is None
                &&& !taken.idle()
                &&& taken.after(SlotEvent::Finish).idle()
            }
            &&& slot.closed || slot.work is Some ==> after == slot
        }),
        slot.idle() <==> !slot.active && !slot.closed && slot.work is None,
        slot.work is None ==> slot.after(SlotEvent::Step) == slot,
        slot.work is None ==> slot.after(SlotEvent::Close).closed,
        slot.work is Some ==> slot.after(SlotEvent::Close) == slot,
        slot.after(SlotEvent::Stop).stopping,
        slot.after(SlotEvent::Stop).work == slot.work,
{
}

/// What an order comes to: a device that opened is handed over with the configuration it
/// took, a busy one is tried once more with the same order, any other failure leaves the
/// port without a device, and a device that nobody wants any more is closed.
pub proof fn order_comes_to_what_the_open_came_to<V>(
    request: RebuildRequest<V>,
    attempt: OpenAttempt<V>,
)
    ensures
        task_outcome(request, attempt, false) == (SwapOutcome::<V>::Aborted, Some(attempt.device)),
        attempt.result is Ok ==> task_outcome(request, attempt, true) == (
            SwapOutcome::Installed { dsp: attempt.device, config: attempt.result->Ok_0 },
            None::<V>,
        ),
        attempt.result == Err::<PortConfig, OpenError>(OpenError::Busy) && !request.retried ==> {
            let (outcome, close) = task_outcome(request, attempt, true);
            &&& close is None
            &&& outcome is RetireAndRetry
            &&& outcome->RetireAndRetry_placeholder == attempt.device
            &&& outcome->request.retried
            &&& outcome->request.port_idx == request.port_idx
            &&& outcome->request.generation == request.generation
            &&& outcome->request.config == request.config
            &&& outcome->request.path == request.path
            &&& outcome->request.fragment_bytes == request.fragment_bytes
            &&& outcome->request.retire_first == request.retire_first
        },
        attempt.result is Err && (attempt.result->Err_0 != OpenError::Busy || request.retried)
            ==> task_outcome(request, attempt, true) == (
            SwapOutcome::Failed { placeholder: attempt.device },
            None::<V>,
        ),
{
}

/// Whether a command asks for a device like the port's: at its generation, with its
/// configuration, path and fragment, and for the first time.
pub open spec fn asks_for_the_port<E, V>(
    work: Option<RebuildWork<V>>,
    data: NodeData<E, V>,
    port_idx: usize,
) -> bool {
    match work {
        Some(RebuildWork::Rebuild(request)) => {
            &&& request.port_idx == port_idx
            &&& request.generation == data.port.generation
            &&& data.port.config is Some
            &&& request.config@ == data.port.config->0@
            &&& request.path@ == data.path@
            &&& request.fragment_bytes == data.fragment_bytes
            &&& !request.retried
            &&& request.retire_first is None
        },
        _ => false,
    }
}

/// A rebuild is ordered of a port with a format unless the control thread has its device
/// or a command is stuck. The order goes to the slot, or waits behind the command that
/// was stuck before it; the port is claimed, and nothing else of it changes.
pub proof fn order_is_given_and_the_port_claimed<E, V>(
    data: NodeData<E, V>,
    slot: RebuildWorkSlot<V>,
    port_idx: usize,
    data_after: NodeData<E, V>,
    slot_after: RebuildWorkSlot<V>,
)
    requires
        slot.wf(),
        rebuild_queued(data, slot, port_idx, data_after, slot_after),
    ensures
        ({
            let free = !slot.closed && slot.work is None;
            let stuck = data.deferred_work is Some && !free;
            let ordered_now = !data.rebuild_takeover && !stuck && data.port.config is Some;
            &&& orderable(data, slot) == ordered_now
            &&& ordered_now ==> {
                &&& data_after.port == (Port { rebuild_pending: true, ..data.port })
                &&& data_after.device == data.device
                &&& data_after.pending_main_event == data.pending_main_event
                &&& data_after.started == data.started
                &&& data.deferred_work is None && free ==> {
                    &&& asks_for_the_port(slot_after.work, data, port_idx)
                    &&& data_after.deferred_work is None
                }
                &&& data.deferred_work is None && !free ==> {
                    &&& slot_after == slot
                    &&& asks_for_the_port(data_after.deferred_work, data, port_idx)
                }
                &&& data.deferred_work is Some ==> {
                    &&& slot_after.work == data.deferred_work
                    &&& asks_for_the_port(data_after.deferred_work, data, port_idx)
                }
            }
            &&& data.rebuild_takeover || stuck ==> data_after == data && slot_after == slot
            &&& !data.rebuild_takeover && !stuck && data.port.config is None ==> {
                &&& data_after == (NodeData { deferred_work: None, ..data })
                &&& slot_after.work == if data.deferred_work is Some {
                    data.deferred_work
                } else {
                    slot.work
                }
            }
        }),
{
}

/// A device that reported its end is rebuilt, unless a rebuild is under way.
pub proof fn ended_device_is_rebuilt<E>(port: Port<E>)
    ensures
        port.device_eof && !port.rebuild_pending ==> needs_eof_rebuild(port),
        !port.device_eof || port.rebuild_pending ==> !needs_eof_rebuild(port),
{
}

/// While the control thread has the device, or a command is stuck, a cycle takes no
/// completion: it is skipped and leaves everything as it is.
pub proof fn cycle_waits_for_the_takeover<E: Direction, V>(
    data: NodeData<E, V>,
    shared: NodeShared<V>,
    slot: RebuildWorkSlot<V>,
    epoch: u64,
)
    requires
        data.rebuild_takeover || (data.deferred_work is Some && (slot.closed || slot.work is Some)),
    ensures
        ({
            let after = cycle_polled(data, shared, slot, epoch);
            &&& after.data == data
            &&& after.shared == shared
            &&& after.slot == slot
            &&& after.outcome.skip
            &&& !after.outcome.invalidate_wake
            &&& !after.outcome.update_wake
        }),
{
}

/// A cycle that finds no completion hands a command that was stuck to the worker, and
/// runs unless the port is claimed.
pub proof fn cycle_without_a_completion<E: Direction, V>(
    data: NodeData<E, V>,
    shared: NodeShared<V>,
    slot: RebuildWorkSlot<V>,
    epoch: u64,
)
    requires
        !data.rebuild_takeover,
        data.deferred_work is None || (!slot.closed && slot.work is None),
        shared.slot is None,
    ensures
        ({
            let after = cycle_polled(data, shared, slot, epoch);
            &&& after.shared == shared
            &&& after.data == (NodeData { deferred_work: None, ..data })
            &&& after.slot.work == if data.deferred_work is Some {
                data.deferred_work
            } else {
                slot.work
            }
            &&& after.outcome.skip == data.port.rebuild_pending
            &&& !after.outcome.invalidate_wake
            &&& !after.outcome.update_wake
        }),
{
}

/// Whether a cycle can take the completion `swap`, with the worker's slot free for what
/// leaves the port.
pub open spec fn completion_arrives<E, V>(
    data: NodeData<E, V>,
    shared: NodeShared<V>,
    slot: RebuildWorkSlot<V>,
    swap: DeviceSwap<V>,
) -> bool {
    &&& !data.rebuild_takeover
    &&& data.deferred_work is None
    &&& shared.slot == Some(swap)
    &&& !slot.closed
    &&& slot.work is None
}

/// A replacement that opened is in place at once: the cycle runs on it, with the
/// configuration it took. Its predecessor goes to the worker, whatever is still under way
/// is stale, and the wake-up of the predecessor is void.
pub proof fn installed_device_takes_over_at_once<E: Direction, V>(
    data: NodeData<E, V>,
    shared: NodeShared<V>,
    slot: RebuildWorkSlot<V>,
    swap: DeviceSwap<V>,
    epoch: u64,
)
    requires
        completion_arrives(data, shared, slot, swap),
        swap.generation == data.port.generation,
        swap.outcome is Installed,
    ensures
        ({
            let after = cycle_polled(data, shared, slot, epoch);
            &&& after.data.device == swap.outcome->dsp
            &&& after.data.port.config == Some(swap.outcome->Installed_config)
            &&& !after.data.port.rebuild_pending
            &&& !after.data.port.was_matching
            &&& after.data.port.generation == data.port.generation.wrapping_add(1)
            &&& after.data.pending_main_event == data.pending_main_event
            &&& after.data.started == data.started
            &&& after.data.deferred_work is None
            &&& after.shared.slot is None
            &&& after.shared.generation == after.data.port.generation
            &&& after.shared.alive == shared.alive && after.shared.started == shared.started
            &&& after.slot.work == Some(RebuildWork::RetireDevice(data.device))
            &&& !after.outcome.skip
            &&& after.outcome.invalidate_wake
            &&& after.outcome.update_wake == data.started
        }),
{
    E::swap_keeps_identity(
        Port {
            config: Some(swap.outcome->Installed_config),
            generation: data.port.generation.wrapping_add(1),
            rebuild_pending: false,
            was_matching: false,
            ..data.port
        },
    );
}

/// An order that was given up only drops the port's claim: the device, the configuration
/// and the generation stay, and this cycle is skipped.
pub proof fn given_up_order_drops_the_claim<E: Direction, V>(
    data: NodeData<E, V>,
    shared: NodeShared<V>,
    slot: RebuildWorkSlot<V>,
    swap: DeviceSwap<V>,
    epoch: u64,
)
    requires
        completion_arrives(data, shared, slot, swap),
        swap.generation == data.port.generation,
        swap.outcome is Aborted,
    ensures
        ({
            let after = cycle_polled(data, shared, slot, epoch);
            &&& after.data == (NodeData {
                port: Port { rebuild_pending: false, ..data.port },
                ..data
            })
            &&& after.shared == (NodeShared { slot: None, ..shared })
            &&& after.slot == slot
            &&& after.outcome.skip
            &&& !after.outcome.invalidate_wake
            &&& !after.outcome.update_wake
        }),
{
}

/// A busy device is tried once more: the order goes back to the worker with the port's
/// own device, which is closed first. The port keeps its claim and its configuration, with
/// nothing left of that device's events.
pub proof fn busy_order_goes_back_with_the_device<E: Direction, V>(
    data: NodeData<E, V>,
    shared: NodeShared<V>,
    slot: RebuildWorkSlot<V>,
    swap: DeviceSwap<V>,
    epoch: u64,
)
    requires
        completion_arrives(data, shared, slot, swap),
        swap.generation == data.port.generation,
        swap.outcome is RetireAndRetry,
    ensures
        ({
            let after = cycle_polled(data, shared, slot, epoch);
            &&& after.data.device == swap.outcome->RetireAndRetry_placeholder
            &&& after.data.port.rebuild_pending == data.port.rebuild_pending
            &&& after.data.port.config == data.port.config
            &&& after.data.port.generation == data.port.generation
            &&& after.data.port.device_event is None
            &&& !after.data.port.device_eof
            &&& after.data.port.event_xruns_seen == 0
            &&& after.data.port.wake_threshold == 0
            &&& after.data.port.ext == data.port.ext
            &&& after.data.pending_main_event == data.pending_main_event
            &&& after.shared == (NodeShared { slot: None, ..shared })
            &&& after.slot.work == Some(
                RebuildWork::Rebuild(
                    RebuildRequest {
                        retire_first: Some(data.device),
                        ..swap.outcome->request
                    },
                ),
            )
            &&& after.outcome.skip
            &&& !after.outcome.invalidate_wake
            &&& after.outcome.update_wake == data.started
        }),
{
}

/// A replacement that could not be had leaves the port without a format, and the host is
/// to be told which publication of the format that ends.
pub proof fn failed_order_loses_the_format<E: Direction, V>(
    data: NodeData<E, V>,
    shared: NodeShared<V>,
    slot: RebuildWorkSlot<V>,
    swap: DeviceSwap<V>,
    epoch: u64,
)
    requires
        completion_arrives(data, shared, slot, swap),
        swap.generation == data.port.generation,
        swap.outcome is Failed,
    ensures
        ({
            let after = cycle_polled(data, shared, slot, epoch);
            &&& after.data.device == swap.outcome->Failed_placeholder
            &&& after.data.port.config is None
            &&& !after.data.port.rebuild_pending
            &&& after.data.port.generation == data.port.generation.wrapping_add(1)
            &&& after.data.pending_main_event == Some(
                MainEvent::FormatLost { expected_publication_epoch: epoch },
            )
            &&& after.shared.slot is None
            &&& after.shared.generation == after.data.port.generation
            &&& after.slot.work == Some(RebuildWork::RetireDevice(data.device))
            &&& after.outcome.skip
            &&& after.outcome.invalidate_wake
            &&& after.outcome.update_wake == data.started
        }),
{
    E::swap_keeps_identity(
        Port {
            config: None,
            generation: data.port.generation.wrapping_add(1),
            rebuild_pending: false,
            was_matching: false,
            ..data.port
        },
    );
}

/// A completion of another generation is taken out of the mailbox and goes to the worker;
/// the cycle goes on as if it had not come.
pub proof fn cycle_ignores_a_stale_completion<E: Direction, V>(
    data: NodeData<E, V>,
    shared: NodeShared<V>,
    slot: RebuildWorkSlot<V>,
    swap: DeviceSwap<V>,
    epoch: u64,
)
    requires
        completion_arrives(data, shared, slot, swap),
        swap.generation != data.port.generation,
    ensures
        ({
            let after = cycle_polled(data, shared, slot, epoch);
            &&& after.data == data
            &&& after.shared == (NodeShared { slot: None, ..shared })
            &&& after.slot.work == Some(RebuildWork::RetireSwap(swap))
            &&& after.outcome.skip == data.port.rebuild_pending
            &&& !after.outcome.invalidate_wake
            &&& !after.outcome.update_wake
        }),
{
}

/// What leaves the port is never dropped: behind a command that was stuck before, it waits
/// for the next cycle.
pub proof fn retired_device_waits_behind_a_stuck_command<E: Direction, V>(
    data: NodeData<E, V>,
    shared: NodeShared<V>,
    slot: RebuildWorkSlot<V>,
    swap: DeviceSwap<V>,
    epoch: u64,
)
    requires
        !data.rebuild_takeover,
        data.deferred_work is Some,
        !slot.closed,
        slot.work is None,
        shared.slot == Some(swap),
    ensures
        ({
            let after = cycle_polled(data, shared, slot, epoch);
            &&& after.slot.work == data.deferred_work
            &&& swap.generation == data.port.generation && swap.outcome is Installed ==> {
                &&& after.data.device == swap.outcome->dsp
                &&& after.data.deferred_work == Some(RebuildWork::RetireDevice(data.device))
            }
            &&& swap.generation == data.port.generation && swap.outcome is Failed ==> {
                &&& after.data.device == swap.outcome->Failed_placeholder
                &&& after.data.deferred_work == Some(RebuildWork::RetireDevice(data.device))
            }
            &&& swap.generation != data.port.generation ==> after.data.deferred_work == Some(
                RebuildWork::RetireSwap(swap),
            )
        }),
{
}

/// A cycle that cannot look into the mailbox is skipped where the port cannot be used:
/// while the control thread has the device, a command is stuck or the port is claimed.
pub proof fn contended_cycle_runs_on_a_free_port<E, V>(data: NodeData<E, V>)
    ensures
        data.rebuild_takeover ==> contended(data).skip,
        data.deferred_work is Some ==> contended(data).skip,
        data.port.rebuild_pending ==> contended(data).skip,
        !data.rebuild_takeover && data.deferred_work is None && !data.port.rebuild_pending
            ==> !contended(data).skip,
        !contended(data).invalidate_wake,
        !contended(data).update_wake,
{
}

/// Another device begins a new generation of the port: its configuration is in effect, and
/// neither a claim nor the matching history of its predecessor is left.
pub proof fn replaced_port_is_a_new_generation<E: Direction>(
    port: Port<E>,
    config: Option<PortConfig>,
)
    ensures
        port_replaced(port, config).config == config,
        port_replaced(port, config).generation == port.generation.wrapping_add(1),
        !port_replaced(port, config).rebuild_pending,
        !port_replaced(port, config).was_matching,
{
    E::swap_keeps_identity(
        Port {
            config,
            generation: port.generation.wrapping_add(1),
            rebuild_pending: false,
            was_matching: false,
            ..port
        },
    );
}

} // verus!
