//! Unrecoverable failures. Nothing here is retried or handed back to a caller
//! as an error: a failure is described as an `Abort`, which says what is
//! emitted across the host bridge before the process is terminated.

use crate::allocator::Layout;
use crate::host::HostCall;
use vstd::prelude::*;

verus! {

/// The text emitted when memory is exhausted.
pub const OOM_MSG: &'static str = "Runtime memory exhausted. Aborting";

/// Where a panic was raised.
#[derive(Clone, Copy, Debug, PartialEq, Eq)]
pub struct PanicLocation<'a> {
    /// The name of the source file.
    pub file: &'a str,
    /// The line in that file.
    pub line: u32,
    /// The column in that line.
    pub column: u32,
}

/// One thing that the embedding does on the way out.
#[derive(Clone, Copy, Debug, PartialEq, Eq)]
pub enum Step<'a> {
    /// A call is made across the host bridge.
    Emit(HostCall<'a>),
    /// The process is terminated at once, with no unwinding and no return to
    /// any caller.
    Terminate,
}

/// The end of the process: the diagnostics that are emitted, after which the
/// process is terminated.
#[derive(Clone, Copy, Debug, PartialEq, Eq)]
pub enum Abort<'a> {
    /// Nothing is emitted.
    Silent,
    /// One text is emitted.
    Message { text: &'a str },
    /// A file name is emitted, then a line, then a column.
    Location { file: &'a str, line: u64, column: u64 },
}

impl<'a> Abort<'a> {
    /// The calls that are made across the host bridge before termination, in
    /// order.
    pub open spec fn calls(self) -> Seq<HostCall<'a>> {
        match self {
            Abort::Silent => seq![],
            Abort::Message { text } => seq![HostCall::PrintUtf8 { text }],
            Abort::Location { file, line, column } => seq![
                HostCall::PrintUtf8 { text: file },
                HostCall::PrintNum { value: line },
                HostCall::PrintNum { value: column },
            ],
        }
    }

    /// Everything that happens on the way out, in order: each of `calls`,
    /// then the termination.
    pub open spec fn steps(self) -> Seq<Step<'a>> {
        Seq::new(
            self.calls().len() + 1,
            |i: int|
                if i < self.calls().len() {
                    Step::Emit(self.calls()[i])
                } else {
                    Step::Terminate
                },
        )
    }

    /// The step at position `index`, or `None` once `index` is past the
    /// termination.
    pub fn step(&self, index: usize) -> (step: Option<Step<'a>>)
        ensures
            index < self.steps().len() ==> step == Some(self.steps()[index as int]),
            index >= self.steps().len() ==> step is None,
    {
        match (self, index) {
            (Abort::Silent, 0) => Some(Step::Terminate),
            (Abort::Message { text }, 0) => Some(Step::Emit(HostCall::PrintUtf8 { text: *text })),
            (Abort::Message { .. }, 1) => Some(Step::Terminate),
            (Abort::Location { file, .. }, 0) => Some(
                Step::Emit(HostCall::PrintUtf8 { text: *file }),
            ),
            (Abort::Location { line, .. }, 1) => Some(
                Step::Emit(HostCall::PrintNum { value: *line }),
            ),
            (Abort::Location { column, .. }, 2) => Some(
                Step::Emit(HostCall::PrintNum { value: *column }),
            ),
            (Abort::Location { .. }, 3) => Some(Step::Terminate),
            _ => None,
        }
    }

    /// An abort emits at most three calls, each of them a print, and is
    /// terminated exactly once, as its last step.
    pub proof fn lemma_one_termination(self)
        ensures
            self.calls().len() <= 3,
            forall|i: int|
                0 <= i < self.calls().len() ==> (#[trigger] self.calls()[i] is PrintUtf8
                    || self.calls()[i] is PrintNum),
            self.steps().len() == self.calls().len() + 1,
            self.steps().last() == Step::<'a>::Terminate,
            forall|i: int|
                0 <= i < self.steps().len() - 1 ==> #[trigger] self.steps()[i] == Step::Emit(
                    self.calls()[i],
                ),
    {
    }
}

/// What the panic handler does with `location`: where the failure site is
/// known, its file name, line and column are emitted, in that order.
pub open spec fn panic_abort<'a>(location: Option<PanicLocation<'a>>) -> Abort<'a> {
    match location {
        Some(site) => Abort::Location {
            file: site.file,
            line: site.line as u64,
            column: site.column as u64,
        },
        None => Abort::Silent,
    }
}

/// What the out-of-memory handler does: `OOM_MSG` is emitted.
pub open spec fn oom_abort() -> Abort<'static> {
    Abort::Message { text: OOM_MSG }
}

/// The panic handler. With a location, exactly three calls are made before
/// the process is terminated: the file name, the line, the column. Without
/// one, none is made.
pub fn panic<'a>(location: Option<PanicLocation<'a>>) -> (abort: Abort<'a>)
    ensures
        abort == panic_abort(location),
        location matches Some(site) ==> abort.calls() == seq![
            HostCall::PrintUtf8 { text: site.file },
            HostCall::PrintNum { value: site.line as u64 },
            HostCall::PrintNum { value: site.column as u64 },
        ],
        location is None ==> abort.calls() == Seq::<HostCall<'a>>::empty(),
{
    match location {
        Some(site) => Abort::Location {
            file: site.file,
            line: site.line as u64,
            column: site.column as u64,
        },
        None => Abort::Silent,
    }
}

/// The out-of-memory handler. Whatever was asked for, one call is made before
/// the process is terminated: the fixed text `OOM_MSG`.
pub fn oom(_layout: Layout) -> (abort: Abort<'static>)
    ensures
        abort == oom_abort(),
        abort.calls() == seq![HostCall::PrintUtf8 { text: OOM_MSG }],
{
    Abort::Message { text: OOM_MSG }
}

} // verus!
