//! The global allocator. It keeps no books of its own: every request is
//! handed to the host, and what the host answers is handed back as it is.

use crate::abort::{oom, oom_abort, Abort, Step, OOM_MSG};
use crate::host::{HostCall, NULL};
use vstd::prelude::*;

verus! {

/// The size and alignment of a block of memory.
#[derive(Clone, Copy, Debug, PartialEq, Eq)]
pub struct Layout {
    /// The size in bytes.
    pub size: usize,
    /// The alignment in bytes.
    pub align: usize,
}

/// How a request for memory ends.
#[derive(Clone, Copy, Debug, PartialEq, Eq)]
pub enum Allocation<'a> {
    /// The host gave memory at `ptr`.
    Ready { ptr: usize },
    /// The host had none to give. No failure is returned to the caller: the
    /// out-of-memory handler has been entered, and `abort` is what it does.
    Exhausted { abort: Abort<'a> },
}

/// The allocator of a process that has nothing but its host: a stateless
/// value, the same for the whole life of the process.
#[derive(Clone, Copy, Debug, PartialEq, Eq)]
pub struct WasmAllocator;

impl WasmAllocator {
    /// How a request for `layout` ends, once the host has answered `reply`:
    /// in `reply` itself, unless the host reported failure.
    pub open spec fn outcome(layout: Layout, reply: usize) -> Allocation<'static> {
        if reply == NULL {
            Allocation::Exhausted { abort: oom_abort() }
        } else {
            Allocation::Ready { ptr: reply }
        }
    }

    /// A request for memory: the host is asked for `layout.size` bytes. The
    /// alignment is left to the host.
    pub fn allocate(&self, layout: Layout) -> (call: HostCall<'static>)
        ensures
            call == (HostCall::Allocate { size: layout.size }),
    {
        HostCall::Allocate { size: layout.size }
    }

    /// The host's answer to the call that `allocate` asked for. A pointer is
    /// handed on unchanged. Failure enters the out-of-memory handler, once.
    pub fn complete(&self, layout: Layout, reply: usize) -> (end: Allocation<'static>)
        ensures
            end == Self::outcome(layout, reply),
    {
        if reply == NULL {
            Allocation::Exhausted { abort: oom(layout) }
        } else {
            Allocation::Ready { ptr: reply }
        }
    }

    /// Where the host gives memory, the request ends with that memory, and the
    /// out-of-memory handler is not entered.
    pub proof fn lemma_host_gives(layout: Layout, reply: usize)
        requires
            reply != NULL,
        ensures
            Self::outcome(layout, reply) == (Allocation::Ready { ptr: reply }),
            !(Self::outcome(layout, reply) is Exhausted),
    {
    }

    /// Where the host has no memory to give, the request ends in the
    /// out-of-memory handler: `OOM_MSG` is emitted, nothing else, and the
    /// process is terminated.
    pub proof fn lemma_host_refuses(layout: Layout)
        ensures
            Self::outcome(layout, NULL) == (Allocation::Exhausted { abort: oom_abort() }),
            oom_abort().steps() == seq![
                Step::Emit(HostCall::PrintUtf8 { text: OOM_MSG }),
                Step::Terminate,
            ],
    {
        assert(oom_abort().steps() =~= seq![
            Step::Emit(HostCall::PrintUtf8 { text: OOM_MSG }),
            Step::Terminate,
        ]);
    }

    /// Memory is given back: the host is handed `ptr`. The layout it was
    /// allocated with is not looked at.
    pub fn dealloc(&self, ptr: usize, _layout: Layout) -> (call: HostCall<'static>)
        ensures
            call == (HostCall::Free { ptr }),
    {
        HostCall::Free { ptr }
    }
}

} // verus!
