//! The rules of the inner loader's run-time shim: what a panic does, and
//! when the bootstrap heap may serve a request.

use vstd::prelude::*;

verus! {

/// What the shim does in one step of a panic.
#[derive(Clone, Copy, Debug, PartialEq, Eq, Structural)]
pub enum PanicAction {
    /// Put out the diagnostic marker.
    EmitMarker,
    /// Wait; the processor is halted and nothing else ever happens.
    Halt,
}

/// What a panic does in its `step`-th step, counted from zero: the marker
/// first, then the halt, for ever.
pub open spec fn panic_action_at(step: nat) -> PanicAction {
    if step == 0 {
        PanicAction::EmitMarker
    } else {
        PanicAction::Halt
    }
}

/// What a panic does in its `step`-th step, counted from zero.
pub fn panic_action(step: u64) -> (action: PanicAction)
    ensures
        action == panic_action_at(step as nat),
{
    if step == 0 {
        PanicAction::EmitMarker
    } else {
        PanicAction::Halt
    }
}

/// The marker that a panic puts out.
pub fn panic_marker() -> (marker: &'static str)
    ensures
        marker@ == "panic"@,
{
    "panic"
}

/// The memory behind a heap.
#[derive(Clone, Copy, Debug, PartialEq, Eq, Structural)]
pub struct Region {
    pub bottom: usize,
    pub size: usize,
}

/// Why the heap refused.
#[derive(Clone, Copy, Debug, PartialEq, Eq, Structural)]
pub enum HeapFault {
    /// A request came before the heap was given its memory.
    Uninitialized,
    /// The heap was given memory a second time.
    AlreadyInitialized,
}

/// The life of the bootstrap heap: made empty, then given its memory once,
/// and only then fit to serve.
#[derive(Clone, Copy, Debug, PartialEq, Eq, Structural)]
pub enum HeapLifecycle {
    Empty,
    Ready(Region),
}

impl HeapLifecycle {
    /// A heap without memory.
    pub fn empty() -> (heap: HeapLifecycle)
        ensures
            heap == HeapLifecycle::Empty,
    {
        HeapLifecycle::Empty
    }

    /// Gives the heap its memory. Only an empty heap takes it.
    pub fn init(&mut self, region: Region) -> (outcome: Result<(), HeapFault>)
        ensures
            *old(self) == HeapLifecycle::Empty ==> outcome == Ok::<(), HeapFault>(())
                && *final(self) == HeapLifecycle::Ready(region),
            *old(self) != HeapLifecycle::Empty ==> outcome == Err::<(), HeapFault>(
                HeapFault::AlreadyInitialized,
            ) && *final(self) == *old(self),
    {
        match *self {
            HeapLifecycle::Empty => {
                *self = HeapLifecycle::Ready(region);
                Ok(())
            },
            HeapLifecycle::Ready(_) => Err(HeapFault::AlreadyInitialized),
        }
    }

    /// Answers a request to the heap: the memory to serve it from, or the
    /// fault of asking an empty heap.
    pub fn backing(&self) -> (outcome: Result<Region, HeapFault>)
        ensures
            outcome == match *self {
                HeapLifecycle::Empty => Err::<Region, HeapFault>(HeapFault::Uninitialized),
                HeapLifecycle::Ready(region) => Ok::<Region, HeapFault>(region),
            },
    {
        match *self {
            HeapLifecycle::Empty => Err(HeapFault::Uninitialized),
            HeapLifecycle::Ready(region) => Ok(region),
        }
    }
}

} // verus!
