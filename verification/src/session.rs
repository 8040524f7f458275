//! The stop classifier: the state machine that drives a trace session.
//!
//! The kernel reports an identical syscall-stop both when a traced call is
//! about to execute and when it has just returned. The only sound way to tell
//! the two apart is one bit of state per tracee that flips on every
//! syscall-stop; inspecting the return-value register for a sentinel is
//! unsound, since a completed call can legitimately return the sentinel.
use vstd::prelude::*;
use vstd::string::StringExecFns;
use nix::unistd::Pid;
use crate::syscalls::{SyscallBody, merged_from};

verus! {

/// Where a tracee stands between stops. It starts at `AwaitingEntry` right
/// after the initial attach stop, flips on every syscall-stop, and reaches
/// `Terminated` exactly when the process reports termination.
#[derive(Clone, Copy, PartialEq, Eq, Structural, Debug)]
pub enum Phase {
    AwaitingEntry,
    AwaitingExit,
    Terminated,
}

/// The registers of the fixed x86-64 syscall ABI at one stop: the call
/// number, the three argument words, and the return-value word.
#[derive(Clone, Copy, PartialEq, Eq, Structural, Debug)]
pub struct RawRegs {
    pub num: u64,
    pub rdi: u64,
    pub rsi: u64,
    pub rdx: u64,
    pub rax: u64,
}

/// One observed state change of the tracee, as the wait call reports it.
#[derive(Clone, Copy, PartialEq, Eq, Structural, Debug)]
pub enum WaitEvent {
    /// The tracee exited normally, with this exit code.
    Exited(i32),
    /// The tracee was killed by this signal.
    Killed(i32),
    /// A tagged syscall-stop: the tracee stands at a syscall boundary.
    SyscallStop,
    /// An ordinary signal-delivery stop; the signal must be passed through.
    SignalStop(i32),
    /// Any other reported state change.
    OtherStop,
    /// The wait itself failed: the tracee is gone.
    Lost(i32),
}

/// What one stop means for the session.
#[derive(Clone, Copy, PartialEq, Eq, Structural, Debug)]
pub enum StopClass {
    /// A syscall is about to execute: record its registers, print nothing.
    Entry,
    /// A syscall just completed: merge and decode a full record.
    Exit,
    /// Normal termination: emit the one termination line and stop.
    NormalEnd,
    /// Abnormal termination: stop without a line of its own.
    AbnormalEnd,
    /// An unrelated signal: hand it back to the tracee on the next resume.
    Passthrough(i32),
    /// Nothing to do.
    Ignored,
}

/// How one stop is classified, given the phase the tracee stands in.
pub open spec fn classify(phase: Phase, ev: WaitEvent) -> StopClass {
    if phase is Terminated {
        StopClass::Ignored
    } else {
        match ev {
            WaitEvent::Exited(_) => StopClass::NormalEnd,
            WaitEvent::Killed(_) => StopClass::AbnormalEnd,
            WaitEvent::Lost(_) => StopClass::AbnormalEnd,
            WaitEvent::SyscallStop => if phase is AwaitingEntry {
                StopClass::Entry
            } else {
                StopClass::Exit
            },
            WaitEvent::SignalStop(s) => StopClass::Passthrough(s),
            WaitEvent::OtherStop => StopClass::Ignored,
        }
    }
}

/// The phase after one stop: a syscall-stop flips it, termination ends it,
/// everything else leaves it alone.
pub open spec fn next_phase(phase: Phase, ev: WaitEvent) -> Phase {
    match classify(phase, ev) {
        StopClass::Entry => Phase::AwaitingExit,
        StopClass::Exit => Phase::AwaitingEntry,
        StopClass::NormalEnd => Phase::Terminated,
        StopClass::AbnormalEnd => Phase::Terminated,
        StopClass::Passthrough(_) => phase,
        StopClass::Ignored => phase,
    }
}

/// The class of every stop of a session, one per event, in order.
pub open spec fn classes_at(p: Phase, evs: Seq<WaitEvent>) -> Seq<StopClass>
    decreases evs.len(),
{
    if evs.len() == 0 {
        Seq::empty()
    } else {
        seq![classify(p, evs[0])] + classes_at(next_phase(p, evs[0]), evs.drop_first())
    }
}

/// The classes of the syscall-stops alone, in order.
pub open spec fn sysstop_classes(p: Phase, evs: Seq<WaitEvent>) -> Seq<StopClass>
    decreases evs.len(),
{
    if evs.len() == 0 {
        Seq::empty()
    } else {
        let c = classify(p, evs[0]);
        let rest = sysstop_classes(next_phase(p, evs[0]), evs.drop_first());
        if c is Entry || c is Exit {
            seq![c] + rest
        } else {
            rest
        }
    }
}

/// Entry and exit stops strictly alternate. Taking the syscall-stops of a
/// session in order, each is an entry or an exit; starting at
/// `AwaitingEntry` the entries are exactly the even-numbered ones, starting
/// at `AwaitingExit` the exits are; a terminated session classifies none.
pub proof fn lemma_alternation(p: Phase, evs: Seq<WaitEvent>)
    ensures
        forall|k: int|
            0 <= k < sysstop_classes(p, evs).len() ==> ((#[trigger] sysstop_classes(p, evs)[k])
                is Entry || sysstop_classes(p, evs)[k] is Exit),
        p is Terminated ==> sysstop_classes(p, evs).len() == 0,
        p is AwaitingEntry ==> forall|k: int|
            0 <= k < sysstop_classes(p, evs).len() ==> ((#[trigger] sysstop_classes(p, evs)[k])
                is Entry <==> k % 2 == 0),
        p is AwaitingExit ==> forall|k: int|
            0 <= k < sysstop_classes(p, evs).len() ==> ((#[trigger] sysstop_classes(p, evs)[k])
                is Exit <==> k % 2 == 0),
    decreases evs.len(),
{
    if evs.len() > 0 {
        let c = classify(p, evs[0]);
        let p2 = next_phase(p, evs[0]);
        let rest = sysstop_classes(p2, evs.drop_first());
        lemma_alternation(p2, evs.drop_first());
        if c is Entry || c is Exit {
            assert(sysstop_classes(p, evs) == seq![c] + rest);
            assert forall|k: int| 1 <= k < sysstop_classes(p, evs).len() implies sysstop_classes(
                p,
                evs,
            )[k] == rest[k - 1] by {}
        } else {
            assert(sysstop_classes(p, evs) == rest);
        }
    }
}

/// No two consecutive syscall-stops of one tracee classify alike: never two
/// entries in a row, never two exits in a row.
pub proof fn lemma_no_consecutive_same(p: Phase, evs: Seq<WaitEvent>, k: int)
    requires
        0 <= k,
        k + 1 < sysstop_classes(p, evs).len(),
    ensures
        sysstop_classes(p, evs)[k] != sysstop_classes(p, evs)[k + 1],
{
    lemma_alternation(p, evs);
}

/// A session classifies exactly one stop per observed event.
pub proof fn lemma_classes_at_len(p: Phase, evs: Seq<WaitEvent>)
    ensures
        classes_at(p, evs).len() == evs.len(),
    decreases evs.len(),
{
    if evs.len() > 0 {
        lemma_classes_at_len(next_phase(p, evs[0]), evs.drop_first());
    }
}

/// A terminated session ignores every further stop.
pub proof fn lemma_terminated_ignores(evs: Seq<WaitEvent>, k: int)
    requires
        0 <= k < evs.len(),
    ensures
        classes_at(Phase::Terminated, evs)[k] is Ignored,
    decreases evs.len(),
{
    lemma_classes_at_len(Phase::Terminated, evs);
    if k > 0 {
        lemma_classes_at_len(Phase::Terminated, evs.drop_first());
        lemma_terminated_ignores(evs.drop_first(), k - 1);
        assert(classes_at(Phase::Terminated, evs)[k] == classes_at(
            Phase::Terminated,
            evs.drop_first(),
        )[k - 1]);
    }
}

/// Termination is final: after the one stop that reports the end of the
/// tracee, every later stop is ignored — no second termination and no
/// further syscall classification.
pub proof fn lemma_nothing_after_end(p: Phase, evs: Seq<WaitEvent>, i: int, j: int)
    requires
        0 <= i < j < evs.len(),
        classes_at(p, evs)[i] is NormalEnd || classes_at(p, evs)[i] is AbnormalEnd,
    ensures
        classes_at(p, evs)[j] is Ignored,
    decreases evs.len(),
{
    let p2 = next_phase(p, evs[0]);
    lemma_classes_at_len(p, evs);
    lemma_classes_at_len(p2, evs.drop_first());
    if i == 0 {
        assert(classes_at(p, evs)[0] == classify(p, evs[0]));
        assert(p2 is Terminated);
        lemma_terminated_ignores(evs.drop_first(), j - 1);
        assert(classes_at(p, evs)[j] == classes_at(p2, evs.drop_first())[j - 1]);
    } else {
        assert(classes_at(p, evs)[i] == classes_at(p2, evs.drop_first())[i - 1]);
        lemma_nothing_after_end(p2, evs.drop_first(), i - 1, j - 1);
        assert(classes_at(p, evs)[j] == classes_at(p2, evs.drop_first())[j - 1]);
    }
}

/// Classifies one stop, executably.
pub fn classify_stop(phase: Phase, ev: WaitEvent) -> (c: StopClass)
    ensures
        c == classify(phase, ev),
{
    match phase {
        Phase::Terminated => StopClass::Ignored,
        _ => match ev {
            WaitEvent::Exited(_) => StopClass::NormalEnd,
            WaitEvent::Killed(_) => StopClass::AbnormalEnd,
            WaitEvent::Lost(_) => StopClass::AbnormalEnd,
            WaitEvent::SyscallStop => match phase {
                Phase::AwaitingEntry => StopClass::Entry,
                _ => StopClass::Exit,
            },
            WaitEvent::SignalStop(s) => StopClass::Passthrough(s),
            WaitEvent::OtherStop => StopClass::Ignored,
        },
    }
}

/// The one line that a normally terminating tracee produces.
pub open spec fn end_text() -> Seq<char> {
    "===== finished successfully! ====="@
}

/// The placeholder a record degrades to when its registers cannot be read.
pub open spec fn unavailable_text() -> Seq<char> {
    "<registers unavailable>"@
}

/// What one iteration of the trace loop yields.
#[derive(Debug)]
pub enum StepOutcome {
    /// A line to emit as it stands: the termination line, or the placeholder
    /// for a record whose registers could not be read.
    Notice(String),
    /// A completed call, ready for its name and for dispatch to the registry.
    Completed(SyscallBody),
    /// Nothing to emit: an entry stop, a passed-through signal, or a stop of
    /// no interest.
    Quiet,
}

/// One traced process: its handle, the phase of the stop classifier, the
/// registers recorded at the last entry stop, and a signal to hand back on
/// the next resume. Owned by the trace loop for the session's lifetime.
pub struct TraceSession {
    pub pid: Pid,
    pub phase: Phase,
    pub entry: Option<RawRegs>,
    pub pending_signal: Option<i32>,
}

/// What applying one stop to a session means, exactly: the phase moves as
/// the classifier says, an entry stop records the registers, an exit stop
/// consumes them into a completed record (degrading to a placeholder notice
/// when either read failed), normal termination yields the one termination
/// line, abnormal termination yields nothing of its own, an unrelated signal
/// is kept to be passed through, and a terminated session ignores the stop.
pub open spec fn step_spec(
    pre: TraceSession,
    post: TraceSession,
    ev: WaitEvent,
    regs: Option<RawRegs>,
    out: StepOutcome,
) -> bool {
    &&& post.pid == pre.pid
    &&& post.phase == next_phase(pre.phase, ev)
    &&& match classify(pre.phase, ev) {
        StopClass::Entry => {
            &&& post.entry == regs
            &&& post.pending_signal is None
            &&& out is Quiet
        },
        StopClass::Exit => {
            &&& post.entry is None
            &&& post.pending_signal is None
            &&& match (pre.entry, regs) {
                (Some(e), Some(r)) => out matches StepOutcome::Completed(b) && merged_from(
                    e,
                    r.rax,
                    b,
                ),
                _ => out matches StepOutcome::Notice(s) && s@ == unavailable_text(),
            }
        },
        StopClass::NormalEnd => {
            &&& post.entry is None
            &&& post.pending_signal is None
            &&& out matches StepOutcome::Notice(s) && s@ == end_text()
        },
        StopClass::AbnormalEnd => {
            &&& post.entry is None
            &&& post.pending_signal is None
            &&& out is Quiet
        },
        StopClass::Passthrough(s) => {
            &&& post.entry == pre.entry
            &&& post.pending_signal == Some(s)
            &&& out is Quiet
        },
        StopClass::Ignored => {
            &&& post.entry == pre.entry
            &&& post.pending_signal is None
            &&& out is Quiet
        },
    }
}

/// What starting a session means, given the child's first reported stop: an
/// exit before the attach stop is the tracee's own doing (a failed image
/// replacement surfaces exactly so) and yields an already-terminated
/// session, with the termination line when the exit was normal — never a
/// protocol violation. Any true stop is the attach stop: the session starts
/// awaiting the first syscall entry, with nothing recorded and nothing
/// pending.
pub open spec fn begin_spec(
    pid: Pid,
    ev: WaitEvent,
    s: TraceSession,
    line: Option<String>,
) -> bool {
    &&& s.pid == pid
    &&& s.entry is None
    &&& s.pending_signal is None
    &&& match ev {
        WaitEvent::Exited(_) => s.phase is Terminated && (line matches Some(l) && l@ == end_text()),
        WaitEvent::Killed(_) => s.phase is Terminated && line is None,
        WaitEvent::Lost(_) => s.phase is Terminated && line is None,
        _ => s.phase is AwaitingEntry && line is None,
    }
}

/// A session was begun correctly for some first stop.
pub open spec fn begun(pid: Pid, s: TraceSession, line: Option<String>) -> bool {
    exists|ev: WaitEvent| begin_spec(pid, ev, s, line)
}

impl TraceSession {
    /// Decides what the controller's two startup outcomes make of a session:
    /// an exit before the attach stop is the tracee's own doing and yields an
    /// already-terminated session (with the termination line when the exit
    /// was normal, without one otherwise); any true stop is the attach stop,
    /// where a failure to set syscall tagging is a fatal startup fault —
    /// stop classification would be unsound without the tag — reported as
    /// exactly the raw errno of that failure, and success yields the session
    /// awaiting its first syscall entry.
    pub fn first_stop_session(pid: Pid, first: WaitEvent, tagged: Result<(), i32>) -> (r: Result<
        (TraceSession, Option<String>),
        i32,
    >)
        ensures
            match first {
                WaitEvent::Exited(_) => r matches Ok(p) && begin_spec(pid, first, p.0, p.1),
                WaitEvent::Killed(_) => r matches Ok(p) && begin_spec(pid, first, p.0, p.1),
                WaitEvent::Lost(_) => r matches Ok(p) && begin_spec(pid, first, p.0, p.1),
                _ => match tagged {
                    Ok(_) => r matches Ok(p) && begin_spec(pid, first, p.0, p.1),
                    Err(e) => r == Err::<(TraceSession, Option<String>), i32>(e),
                },
            },
    {
        match first {
            WaitEvent::Exited(_) => {
                let s = TraceSession {
                    pid,
                    phase: Phase::Terminated,
                    entry: None,
                    pending_signal: None,
                };
                let line = String::from_str("===== finished successfully! =====");
                Ok((s, Some(line)))
            },
            WaitEvent::Killed(_) | WaitEvent::Lost(_) => {
                let s = TraceSession {
                    pid,
                    phase: Phase::Terminated,
                    entry: None,
                    pending_signal: None,
                };
                Ok((s, None))
            },
            _ => {
                match tagged {
                    Ok(_) => {
                        let s = TraceSession {
                            pid,
                            phase: Phase::AwaitingEntry,
                            entry: None,
                            pending_signal: None,
                        };
                        Ok((s, None))
                    },
                    Err(e) => Err(e),
                }
            },
        }
    }

    /// Establishes the session over a freshly forked tracee: waits for the
    /// child's first stop (delivered once the traced child performs its
    /// image replacement), asks the kernel to tag syscall-stops once that
    /// stop is a true stop, and lets `first_stop_session` decide what the
    /// two outcomes mean. Which first event arrives is the kernel's to
    /// decide, so the contract holds of every outcome; the per-outcome
    /// meaning stands in `first_stop_session`'s contract.
    pub fn begin(pid: Pid) -> (r: Result<(TraceSession, Option<String>), i32>)
        ensures
            r matches Ok(p) ==> begun(pid, p.0, p.1),
    {
        let first = crate::os::wait_stop(&pid);
        let tagged = match first {
            WaitEvent::Exited(_) | WaitEvent::Killed(_) | WaitEvent::Lost(_) => Ok(()),
            _ => crate::os::set_syscall_tagging(&pid),
        };
        let r = TraceSession::first_stop_session(pid, first, tagged);
        proof {
            match &r {
                Ok(p) => {
                    assert(begun(pid, p.0, p.1)) by {
                        assert(begin_spec(pid, first, p.0, p.1));
                    }
                },
                Err(_) => {},
            }
        }
        r
    }

    /// Whether the session has observed the tracee's termination.
    pub fn done(&self) -> (r: bool)
        ensures
            r <==> self.phase is Terminated,
    {
        match self.phase {
            Phase::Terminated => true,
            _ => false,
        }
    }

    /// Applies one observed stop: the pure decision step of the trace loop.
    /// `regs` are the registers read at a syscall-stop, `None` when they
    /// could not be read — the affected record degrades to a placeholder
    /// notice and the session continues.
    pub fn apply_stop(&mut self, ev: WaitEvent, regs: Option<RawRegs>) -> (out: StepOutcome)
        ensures
            step_spec(*old(self), *final(self), ev, regs, out),
    {
        match classify_stop(self.phase, ev) {
            StopClass::Entry => {
                self.entry = regs;
                self.pending_signal = None;
                self.phase = Phase::AwaitingExit;
                StepOutcome::Quiet
            },
            StopClass::Exit => {
                let prev = self.entry;
                self.entry = None;
                self.pending_signal = None;
                self.phase = Phase::AwaitingEntry;
                match (prev, regs) {
                    (Some(e), Some(r)) => StepOutcome::Completed(SyscallBody::merge(e, r.rax)),
                    _ => StepOutcome::Notice(String::from_str("<registers unavailable>")),
                }
            },
            StopClass::NormalEnd => {
                self.entry = None;
                self.pending_signal = None;
                self.phase = Phase::Terminated;
                StepOutcome::Notice(String::from_str("===== finished successfully! ====="))
            },
            StopClass::AbnormalEnd => {
                self.entry = None;
                self.pending_signal = None;
                self.phase = Phase::Terminated;
                StepOutcome::Quiet
            },
            StopClass::Passthrough(s) => {
                self.pending_signal = Some(s);
                StepOutcome::Quiet
            },
            StopClass::Ignored => {
                self.pending_signal = None;
                StepOutcome::Quiet
            },
        }
    }

    /// One iteration of the trace loop: resumes the tracee to its next
    /// syscall boundary (delivering any pending signal), blocks for the next
    /// stop, reads the registers when the stop is a syscall-stop, and
    /// applies the stop. Which event arrives is the kernel's to decide, so
    /// the contract holds of every outcome.
    pub fn advance(&mut self) -> (out: StepOutcome)
        ensures
            exists|ev: WaitEvent, regs: Option<RawRegs>|
                step_spec(*old(self), *final(self), ev, regs, out),
    {
        let sig = self.pending_signal;
        let _ = crate::os::resume_until_syscall(&self.pid, sig);
        let ev = crate::os::wait_stop(&self.pid);
        let regs = match ev {
            WaitEvent::SyscallStop => match crate::os::read_registers(&self.pid) {
                Ok(r) => Some(r),
                Err(_) => None,
            },
            _ => None,
        };
        let out = self.apply_stop(ev, regs);
        out
    }
}

} // verus!
