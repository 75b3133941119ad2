//! The host bridge: the four primitives through which a freestanding module
//! reaches its environment. The library never makes these calls. It decides
//! which of them are to be made, and in what order, and describes each as a
//! `HostCall` for the embedding to carry out.

use vstd::prelude::*;

verus! {

/// The address with which the host's `allocate` reports that it has no memory
/// to give.
pub const NULL: usize = 0;

/// One call across the host bridge, with its arguments. A pointer is written
/// as its address.
#[derive(Clone, Copy, Debug, PartialEq, Eq)]
pub enum HostCall<'a> {
    /// `allocate(size)`: memory of at least `size` bytes is asked for. The
    /// host answers with a pointer, or with `NULL`.
    Allocate { size: usize },
    /// `free(ptr)`: memory that `allocate` returned is given back.
    Free { ptr: usize },
    /// `print_utf8(pointer, length)`: the bytes of `text` are emitted.
    PrintUtf8 { text: &'a str },
    /// `print_num(value)`: a number is emitted.
    PrintNum { value: u64 },
}

} // verus!
