//! The syscall ABI registry: a total map from syscall number to a decoder.
//!
//! A lookup miss is not an error: every number outside the table routes to
//! the fallback, which reports the name and the raw first argument and
//! decodes nothing else. Dispatch is a pure lookup-and-invoke.
use vstd::prelude::*;
use vstd::string::StringExecFns;
use nix::unistd::Pid;
use crate::syscalls::{
    SyscallBody, spec_render, decoded_openat, decoded_close, decoded_brk, decoded_access,
    decoded_write, decoded_mmap, decoded_munmap, decoded_execve, decoded_read, decoded_prctl,
    openat_syscall, close_syscall, brk_syscall, access_syscall, write_syscall, mmap_syscall,
    munmap_syscall, execve_syscall, read_syscall, prctl_syscall,
};
use crate::text::hex_text;

verus! {

/// The registered syscall numbers of the fixed x86-64 ABI.
pub const SYS_READ: u64 = 0;

pub const SYS_WRITE: u64 = 1;

pub const SYS_CLOSE: u64 = 3;

pub const SYS_MMAP: u64 = 9;

pub const SYS_MUNMAP: u64 = 11;

pub const SYS_BRK: u64 = 12;

pub const SYS_ACCESS: u64 = 21;

pub const SYS_EXECVE: u64 = 59;

pub const SYS_PRCTL: u64 = 157;

pub const SYS_OPENAT: u64 = 257;

/// One decoder capability per supported call, and the explicit fallback for
/// the open-ended rest.
#[derive(Clone, Copy, PartialEq, Eq, Structural, Debug)]
pub enum Decoder {
    Openat,
    Close,
    Brk,
    Access,
    Write,
    Mmap,
    Munmap,
    Execve,
    Read,
    Prctl,
    Fallback,
}

/// The registry as a map: which decoder each syscall number routes to.
pub open spec fn spec_lookup(num: u64) -> Decoder {
    if num == SYS_OPENAT {
        Decoder::Openat
    } else if num == SYS_CLOSE {
        Decoder::Close
    } else if num == SYS_BRK {
        Decoder::Brk
    } else if num == SYS_ACCESS {
        Decoder::Access
    } else if num == SYS_WRITE {
        Decoder::Write
    } else if num == SYS_MMAP {
        Decoder::Mmap
    } else if num == SYS_MUNMAP {
        Decoder::Munmap
    } else if num == SYS_EXECVE {
        Decoder::Execve
    } else if num == SYS_READ {
        Decoder::Read
    } else if num == SYS_PRCTL {
        Decoder::Prctl
    } else {
        Decoder::Fallback
    }
}

/// Registry lookup.
pub fn lookup(num: u64) -> (d: Decoder)
    ensures
        d == spec_lookup(num),
{
    if num == SYS_OPENAT {
        Decoder::Openat
    } else if num == SYS_CLOSE {
        Decoder::Close
    } else if num == SYS_BRK {
        Decoder::Brk
    } else if num == SYS_ACCESS {
        Decoder::Access
    } else if num == SYS_WRITE {
        Decoder::Write
    } else if num == SYS_MMAP {
        Decoder::Mmap
    } else if num == SYS_MUNMAP {
        Decoder::Munmap
    } else if num == SYS_EXECVE {
        Decoder::Execve
    } else if num == SYS_READ {
        Decoder::Read
    } else if num == SYS_PRCTL {
        Decoder::Prctl
    } else {
        Decoder::Fallback
    }
}

/// Every syscall number outside the registry routes to the fallback decoder:
/// an unrecognized number never raises a decode error.
pub proof fn lemma_unregistered_defaults(num: u64)
    requires
        num != SYS_OPENAT,
        num != SYS_CLOSE,
        num != SYS_BRK,
        num != SYS_ACCESS,
        num != SYS_WRITE,
        num != SYS_MMAP,
        num != SYS_MUNMAP,
        num != SYS_EXECVE,
        num != SYS_READ,
        num != SYS_PRCTL,
    ensures
        spec_lookup(num) is Fallback,
{
}

/// The line for an unrecognized call: the name and the raw first argument in
/// hexadecimal, with no return value decoded.
pub open spec fn spec_render_unknown(name: Seq<char>, rdi: u64) -> Seq<char> {
    name + "("@ + hex_text(rdi as nat) + ")"@
}

/// Renders the unrecognized-call line.
pub fn render_unknown(name: &String, rdi: u64) -> (r: String)
    ensures
        r@ == spec_render_unknown(name@, rdi),
{
    let mut s = String::new();
    s.append(name.as_str());
    s.append("(");
    let hex = crate::text::hex_string(rdi);
    s.append(hex.as_str());
    s.append(")");
    assert(s@ =~= spec_render_unknown(name@, rdi));
    s
}

/// Routes one completed record to the decoder its number is registered
/// under, and renders the line. A miss falls back to the generic shape and
/// leaves the record untouched; dispatch never fails.
pub fn dispatch(child_pid: &Pid, syscall: &mut SyscallBody) -> (line: String)
    ensures
        match spec_lookup(old(syscall).num) {
            Decoder::Openat => decoded_openat(*old(syscall), *final(syscall)) && line@
                == spec_render(*final(syscall)),
            Decoder::Close => decoded_close(*old(syscall), *final(syscall)) && line@ == spec_render(
                *final(syscall),
            ),
            Decoder::Brk => decoded_brk(*old(syscall), *final(syscall)) && line@ == spec_render(
                *final(syscall),
            ),
            Decoder::Access => decoded_access(*old(syscall), *final(syscall)) && line@
                == spec_render(*final(syscall)),
            Decoder::Write => decoded_write(*old(syscall), *final(syscall)) && line@ == spec_render(
                *final(syscall),
            ),
            Decoder::Mmap => decoded_mmap(*old(syscall), *final(syscall)) && line@ == spec_render(
                *final(syscall),
            ),
            Decoder::Munmap => decoded_munmap(*old(syscall), *final(syscall)) && line@
                == spec_render(*final(syscall)),
            Decoder::Execve => decoded_execve(*old(syscall), *final(syscall)) && line@
                == spec_render(*final(syscall)),
            Decoder::Read => decoded_read(*old(syscall), *final(syscall)) && line@ == spec_render(
                *final(syscall),
            ),
            Decoder::Prctl => decoded_prctl(*old(syscall), *final(syscall)) && line@ == spec_render(
                *final(syscall),
            ),
            Decoder::Fallback => *final(syscall) == *old(syscall) && line@ == spec_render_unknown(
                old(syscall).name@,
                old(syscall).rdi,
            ),
        },
{
    match lookup(syscall.num) {
        Decoder::Openat => {
            openat_syscall(child_pid, syscall);
            syscall.render()
        },
        Decoder::Close => {
            close_syscall(child_pid, syscall);
            syscall.render()
        },
        Decoder::Brk => {
            brk_syscall(child_pid, syscall);
            syscall.render()
        },
        Decoder::Access => {
            access_syscall(child_pid, syscall);
            syscall.render()
        },
        Decoder::Write => {
            write_syscall(child_pid, syscall);
            syscall.render()
        },
        Decoder::Mmap => {
            mmap_syscall(child_pid, syscall);
            syscall.render()
        },
        Decoder::Munmap => {
            munmap_syscall(child_pid, syscall);
            syscall.render()
        },
        Decoder::Execve => {
            execve_syscall(child_pid, syscall);
            syscall.render()
        },
        Decoder::Read => {
            read_syscall(child_pid, syscall);
            syscall.render()
        },
        Decoder::Prctl => {
            prctl_syscall(child_pid, syscall);
            syscall.render()
        },
        Decoder::Fallback => render_unknown(&syscall.name, syscall.rdi),
    }
}

} // verus!
