//! The trusted seam to the operating system: the process handle and the
//! ptrace calls the tracer relies on. Each item here wraps exactly one call
//! of an outside crate; its contract is believed, not proved, so each states
//! no more than the call's own documentation gives. Results that depend on
//! the tracee (its memory, its registers, its next stop) carry no claims at
//! all: the callers state what holds of every outcome.
use vstd::prelude::*;
use crate::session::{RawRegs, WaitEvent};

verus! {

/// The process identifier of the `nix` crate, used as an opaque handle.
#[verifier::external_type_specification]
#[verifier::external_body]
pub struct ExPid(nix::unistd::Pid);

/// A failed remote read: the address was not readable, or the process is
/// gone. Carries the raw errno value for reporting.
#[derive(Clone, Copy, PartialEq, Eq, Structural, Debug)]
pub struct ReadFault {
    pub errno: i32,
}

/// Relies on nix::sys::ptrace::read (PTRACE_PEEKDATA): it returns the whole
/// word at `addr` of the stopped tracee's memory, or an error when the
/// address is not mapped or the process is gone — never partial data.
#[verifier::external_body]
pub(crate) fn peek_word(pid: &nix::unistd::Pid, addr: u64) -> (r: Result<u64, ReadFault>) {
    match nix::sys::ptrace::read(*pid, (addr as usize) as nix::sys::ptrace::AddressType) {
        Ok(w) => Ok(w as u64),
        Err(e) => Err(ReadFault { errno: e as i32 }),
    }
}

/// Relies on nix::sys::ptrace::setoptions with PTRACE_O_TRACESYSGOOD: once
/// it succeeds, the kernel tags syscall-stops distinctly from ordinary
/// signal stops, which the stop classification depends on.
#[verifier::external_body]
pub(crate) fn set_syscall_tagging(pid: &nix::unistd::Pid) -> (r: Result<(), i32>) {
    nix::sys::ptrace::setoptions(*pid, nix::sys::ptrace::Options::PTRACE_O_TRACESYSGOOD).map_err(
        |e| e as i32,
    )
}

/// Relies on nix::sys::ptrace::syscall (PTRACE_SYSCALL): resumes the stopped
/// tracee until its next syscall boundary, delivering the given signal to it
/// first if one is handed in.
#[verifier::external_body]
pub(crate) fn resume_until_syscall(pid: &nix::unistd::Pid, sig: Option<i32>) -> (r: Result<
    (),
    i32,
>) {
    let signal = match sig {
        Some(v) => nix::sys::signal::Signal::try_from(v).ok(),
        None => None,
    };
    nix::sys::ptrace::syscall(*pid, signal).map_err(|e| e as i32)
}

/// Relies on nix::sys::wait::waitpid: blocks until the tracee changes state,
/// and reports which kind of change it was; PtraceSyscall is the tagged
/// syscall-stop that PTRACE_O_TRACESYSGOOD arranges.
#[verifier::external_body]
pub(crate) fn wait_stop(pid: &nix::unistd::Pid) -> (ev: WaitEvent) {
    match nix::sys::wait::waitpid(*pid, None) {
        Ok(nix::sys::wait::WaitStatus::Exited(_, code)) => WaitEvent::Exited(code),
        Ok(nix::sys::wait::WaitStatus::Signaled(_, sig, _)) => WaitEvent::Killed(sig as i32),
        Ok(nix::sys::wait::WaitStatus::PtraceSyscall(_)) => WaitEvent::SyscallStop,
        Ok(nix::sys::wait::WaitStatus::Stopped(_, sig)) => WaitEvent::SignalStop(sig as i32),
        Ok(_) => WaitEvent::OtherStop,
        Err(e) => WaitEvent::Lost(e as i32),
    }
}

/// Relies on nix::sys::ptrace::getregs (PTRACE_GETREGS): the tracee's
/// registers at the current stop, taken per the fixed x86-64 syscall ABI
/// (orig_rax the call number; rdi, rsi, rdx the arguments; rax the return
/// word).
#[verifier::external_body]
pub(crate) fn read_registers(pid: &nix::unistd::Pid) -> (r: Result<RawRegs, i32>) {
    match nix::sys::ptrace::getregs(*pid) {
        Ok(regs) => Ok(
            RawRegs {
                num: regs.orig_rax,
                rdi: regs.rdi,
                rsi: regs.rsi,
                rdx: regs.rdx,
                rax: regs.rax,
            },
        ),
        Err(e) => Err(e as i32),
    }
}

} // verus!
