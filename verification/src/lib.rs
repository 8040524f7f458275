//! A process-level syscall tracer for the fixed x86-64 ABI: it drives a
//! ptrace session over a single child, tells syscall entries from exits by
//! strict phase alternation, routes each completed call through a
//! number-indexed registry of decoders, and reads pointed-to strings out of
//! the tracee's memory one word at a time, degrading to partial text on any
//! fault rather than aborting the trace.
//!
//! The crate is organized leaves first: `text` renders numerals and names,
//! `mem` models and reads remote memory, `os` is the one trusted seam to the
//! kernel, `syscalls` holds the record and the per-call formatters,
//! `registry` the dispatch, and `session` the stop classifier and the trace
//! loop's decision step. Process creation, the blocking loop shell, the
//! external syscall-name service and printing stay outside the library.
pub mod mem;
pub mod os;
pub mod registry;
pub mod session;
pub mod syscalls;
pub mod text;

use vstd::prelude::*;

verus! {

/// The launch surface asks for one positional argument, the path of the
/// target program; any further words are the target's own arguments and pass
/// through unchanged. `exec_args` is the whole argument count, program name
/// included, so anything short of two words is a usage error.
pub fn check_args_len(exec_args: usize) -> (ok: bool)
    ensures
        ok <==> exec_args >= 2,
{
    exec_args >= 2
}

} // verus!
