//! What surrounds a cycle: who may run it, what it starts from, and what it leaves to
//! be told.
use vstd::prelude::*;

use crate::port::Port;
use crate::rebuild::{MainEvent, NodeData};

verus! {

/// The identity that no thread has.
pub const NO_THREAD: usize = usize::MAX;

/// Whether a cycle runs on the data loop's own thread. A call from any other thread
/// stops all further cycles, also while the owner is not known yet: the first caller
/// never becomes the owner.
pub fn check_loop_identity(owner: &mut usize, thread: usize) -> (same: bool)
    ensures
        same == (*old(owner) == thread),
        *final(owner) == if same {
            *old(owner)
        } else {
            NO_THREAD
        },
{
    if *owner == thread {
        return true;
    }
    *owner = NO_THREAD;
    false
}

/// Notes the data loop's thread, unless it is known or cycles were stopped.
pub fn note_owner(owner: &mut usize, thread: usize)
    ensures
        *final(owner) == if *old(owner) == 0 {
            thread
        } else {
            *old(owner)
        },
{
    if *owner == 0 {
        *owner = thread;
    }
}

/// The data loop without this wake-up's measurements.
pub open spec fn snapshots_discarded<E, V>(data: NodeData<E, V>) -> NodeData<E, V> {
    NodeData { port: Port { device_event: None, ..data.port }, ..data }
}

/// Whether a cycle runs: a cycle that was signalled before a pause can still arrive
/// after it, and is dropped, with its measurements.
pub fn begin_process<E, V>(data: &mut NodeData<E, V>, has_position: bool) -> (run: bool)
    ensures
        run == (old(data).started && has_position),
        *final(data) == if run {
            *old(data)
        } else {
            snapshots_discarded(*old(data))
        },
{
    if !data.started || !has_position {
        data.port.device_event = None;
        return false;
    }
    true
}

/// What is to be told once the cycle holds nothing any more.
#[derive(Debug, Clone, Copy, PartialEq, Eq, Structural)]
pub struct ProcessReport {
    /// The moment of an xrun, in microseconds.
    pub xrun: Option<u64>,
    pub event: Option<MainEvent>,
}

/// Ends a cycle: its measurements are not used again, and what it has to tell is taken
/// out, to be told once.
pub fn finish_process<E, V>(data: &mut NodeData<E, V>) -> (report: ProcessReport)
    ensures
        report.xrun == old(data).port.pending_xrun,
        report.event == old(data).pending_main_event,
        *final(data) == (NodeData {
            port: Port { device_event: None, pending_xrun: None, ..old(data).port },
            pending_main_event: None,
            ..*old(data)
        }),
{
    data.port.device_event = None;
    ProcessReport {
        xrun: data.port.pending_xrun.take(),
        event: data.pending_main_event.take(),
    }
}

/// A dropped cycle forgets its measurements and nothing else.
pub proof fn dropped_cycle_forgets_its_measurements<E, V>(data: NodeData<E, V>)
    ensures
        ({
            let after = snapshots_discarded(data);
            &&& after.port.device_event is None
            &&& after.port == (Port { device_event: None, ..data.port })
            &&& after == (NodeData { port: after.port, ..data })
        }),
{
}

} // verus!
