//! The per-syscall argument formatters and the record they populate.
//!
//! One decoder per supported syscall number: each declares how many of the
//! three argument words are meaningful, renders plain scalars in decimal,
//! addresses and flag words in hexadecimal, maps known flag values to their
//! symbolic names (an unrecognized value renders as an explicit placeholder,
//! never as a failure), and pulls pointed-to strings out of the tracee
//! through the remote memory reader. A decoder never panics on malformed or
//! unreadable tracee memory: it degrades to partial or placeholder text.
use vstd::prelude::*;
use vstd::string::StringExecFns;
use nix::unistd::Pid;
use crate::mem::remote_text;
use crate::session::RawRegs;
use crate::text::{dec_seq, dec_string, hex_text, hex_string};

verus! {

/// One completed syscall: the raw registers of the fixed ABI, the externally
/// sourced name, the decode arity, and the decoded argument and return text.
/// Created fresh at the exit stop of each call, consumed by formatting, and
/// discarded; no record outlives one iteration of the trace loop.
#[derive(Debug)]
pub struct SyscallBody {
    pub rax: u64,
    pub rdi: u64,
    pub rsi: u64,
    pub rdx: u64,
    pub name: String,
    pub num: u64,
    pub args_count_flag: u64,
    pub first_arg: String,
    pub second_arg: String,
    pub third_arg: String,
    pub ret: String,
}

/// The one-line text of a decoded record, shaped by its arity:
/// `NAME(NULL) = ret` for zero meaningful arguments, else
/// `NAME(arg, ...) = ret`.
pub open spec fn spec_render(b: SyscallBody) -> Seq<char> {
    if b.args_count_flag == 0 {
        b.name@ + "(NULL) = "@ + b.ret@
    } else if b.args_count_flag == 1 {
        b.name@ + "("@ + b.first_arg@ + ") = "@ + b.ret@
    } else if b.args_count_flag == 2 {
        b.name@ + "("@ + b.first_arg@ + ", "@ + b.second_arg@ + ") = "@ + b.ret@
    } else {
        b.name@ + "("@ + b.first_arg@ + ", "@ + b.second_arg@ + ", "@ + b.third_arg@ + ") = "@
            + b.ret@
    }
}

/// A record freshly merged at an exit stop: the registers recorded at entry,
/// the return word read at exit, the arity zero, and every text field still
/// empty.
pub open spec fn merged_from(entry: RawRegs, ret_word: u64, b: SyscallBody) -> bool {
    &&& b.num == entry.num
    &&& b.rdi == entry.rdi
    &&& b.rsi == entry.rsi
    &&& b.rdx == entry.rdx
    &&& b.rax == ret_word
    &&& b.args_count_flag == 0
    &&& b.name@.len() == 0
    &&& b.first_arg@.len() == 0
    &&& b.second_arg@.len() == 0
    &&& b.third_arg@.len() == 0
    &&& b.ret@.len() == 0
}

/// Formatting is a function of the record alone: one fully-populated record
/// renders to identical text however often it is formatted.
pub proof fn lemma_render_repeatable(a: SyscallBody, b: SyscallBody)
    requires
        a == b,
    ensures
        spec_render(a) == spec_render(b),
{
}

impl SyscallBody {
    /// Renders the record. The arity only selects a print shape, so it is
    /// never above three.
    pub fn render(&self) -> (r: String)
        requires
            self.args_count_flag <= 3,
        ensures
            r@ == spec_render(*self),
    {
        let mut s = String::new();
        s.append(self.name.as_str());
        if self.args_count_flag == 0 {
            s.append("(NULL) = ");
        } else if self.args_count_flag == 1 {
            s.append("(");
            s.append(self.first_arg.as_str());
            s.append(") = ");
        } else if self.args_count_flag == 2 {
            s.append("(");
            s.append(self.first_arg.as_str());
            s.append(", ");
            s.append(self.second_arg.as_str());
            s.append(") = ");
        } else {
            s.append("(");
            s.append(self.first_arg.as_str());
            s.append(", ");
            s.append(self.second_arg.as_str());
            s.append(", ");
            s.append(self.third_arg.as_str());
            s.append(") = ");
        }
        s.append(self.ret.as_str());
        assert(s@ =~= spec_render(*self));
        s
    }

    /// A record created fresh at an exit stop: the registers recorded at the
    /// entry stop merged with the return-value word of the exit stop. The
    /// decoded fields start empty; the name is attached by the presentation
    /// layer before dispatch.
    pub fn merge(entry: RawRegs, ret_word: u64) -> (b: SyscallBody)
        ensures
            merged_from(entry, ret_word, b),
    {
        SyscallBody {
            rax: ret_word,
            rdi: entry.rdi,
            rsi: entry.rsi,
            rdx: entry.rdx,
            name: String::new(),
            num: entry.num,
            args_count_flag: 0,
            first_arg: String::new(),
            second_arg: String::new(),
            third_arg: String::new(),
            ret: String::new(),
        }
    }
}

/// The registers and the name of a record are a decoder's input, never its
/// output: every decoder leaves them as they stand.
pub open spec fn raw_unchanged(pre: SyscallBody, post: SyscallBody) -> bool {
    &&& post.rax == pre.rax
    &&& post.rdi == pre.rdi
    &&& post.rsi == pre.rsi
    &&& post.rdx == pre.rdx
    &&& post.num == pre.num
    &&& post.name == pre.name
}

/// The symbolic name of a file-open flags word, per the fixed lookup table;
/// a value outside the table renders as an explicit placeholder.
pub open spec fn open_flags_text(v: u64) -> Seq<char> {
    if v == 0 {
        "O_RDONLY"@
    } else if v == 1 {
        "O_WRONLY"@
    } else if v == 2 {
        "O_RDWR"@
    } else if v == 64 {
        "O_RDONLY|O_CREAT"@
    } else if v == 65 {
        "O_WRONLY|O_CREAT"@
    } else if v == 66 {
        "O_RDWR|O_CREAT"@
    } else if v == 1024 {
        "O_RDONLY|O_APPEND"@
    } else if v == 1025 {
        "O_WRONLY|O_APPEND"@
    } else if v == 1026 {
        "O_RDWR|O_APPEND"@
    } else if v == 524288 {
        "O_RDONLY|O_CLOEXEC"@
    } else if v == 524289 {
        "O_WRONLY|O_CLOEXEC"@
    } else if v == 524290 {
        "O_RDWR|O_CLOEXEC"@
    } else {
        "unknown option yet"@
    }
}

/// The text for a file-open flags word.
pub fn open_flags_string(v: u64) -> (r: String)
    ensures
        r@ == open_flags_text(v),
{
    if v == 0 {
        String::from_str("O_RDONLY")
    } else if v == 1 {
        String::from_str("O_WRONLY")
    } else if v == 2 {
        String::from_str("O_RDWR")
    } else if v == 64 {
        String::from_str("O_RDONLY|O_CREAT")
    } else if v == 65 {
        String::from_str("O_WRONLY|O_CREAT")
    } else if v == 66 {
        String::from_str("O_RDWR|O_CREAT")
    } else if v == 1024 {
        String::from_str("O_RDONLY|O_APPEND")
    } else if v == 1025 {
        String::from_str("O_WRONLY|O_APPEND")
    } else if v == 1026 {
        String::from_str("O_RDWR|O_APPEND")
    } else if v == 524288 {
        String::from_str("O_RDONLY|O_CLOEXEC")
    } else if v == 524289 {
        String::from_str("O_WRONLY|O_CLOEXEC")
    } else if v == 524290 {
        String::from_str("O_RDWR|O_CLOEXEC")
    } else {
        String::from_str("unknown option yet")
    }
}

/// The symbolic name of a memory-protection flags word; a value outside the
/// table renders as an explicit placeholder.
pub open spec fn prot_flags_text(v: u64) -> Seq<char> {
    if v == 1 {
        "PROT_READ"@
    } else if v == 2 {
        "PROT_WRITE"@
    } else if v == 3 {
        "PROT_READ|PROT_WRITE"@
    } else if v == 4 {
        "PROT_EXEC"@
    } else if v == 5 {
        "PROT_READ|PROT_EXEC"@
    } else if v == 8 {
        "PROT_SEM"@
    } else {
        "unknown"@
    }
}

/// The text for a memory-protection flags word.
pub fn prot_flags_string(v: u64) -> (r: String)
    ensures
        r@ == prot_flags_text(v),
{
    if v == 1 {
        String::from_str("PROT_READ")
    } else if v == 2 {
        String::from_str("PROT_WRITE")
    } else if v == 3 {
        String::from_str("PROT_READ|PROT_WRITE")
    } else if v == 4 {
        String::from_str("PROT_EXEC")
    } else if v == 5 {
        String::from_str("PROT_READ|PROT_EXEC")
    } else if v == 8 {
        String::from_str("PROT_SEM")
    } else {
        String::from_str("unknown")
    }
}

/// The symbolic name of a process-control operation code; a value outside
/// the table renders as an explicit placeholder.
pub open spec fn prctl_op_text(v: u64) -> Seq<char> {
    if v == 1 {
        "PR_SET_PDEATHSIG"@
    } else if v == 2 {
        "PR_GET_PDEATHSIG"@
    } else if v == 3 {
        "PR_GET_DUMPABLE"@
    } else if v == 4 {
        "PR_SET_DUMPABLE"@
    } else if v == 5 {
        "PR_GET_UNALIGN"@
    } else if v == 6 {
        "PR_SET_UNALIGN"@
    } else if v == 23 {
        "PR_CAPBSET_READ"@
    } else {
        "unknown"@
    }
}

/// The text for a process-control operation code.
pub fn prctl_op_string(v: u64) -> (r: String)
    ensures
        r@ == prctl_op_text(v),
{
    if v == 1 {
        String::from_str("PR_SET_PDEATHSIG")
    } else if v == 2 {
        String::from_str("PR_GET_PDEATHSIG")
    } else if v == 3 {
        String::from_str("PR_GET_DUMPABLE")
    } else if v == 4 {
        String::from_str("PR_SET_DUMPABLE")
    } else if v == 5 {
        String::from_str("PR_GET_UNALIGN")
    } else if v == 6 {
        String::from_str("PR_SET_UNALIGN")
    } else if v == 23 {
        String::from_str("PR_CAPBSET_READ")
    } else {
        String::from_str("unknown")
    }
}

/// The raw return word of a process-control call as text: the kernel's
/// invalid-argument value is spelled out, everything else is decimal.
pub open spec fn prctl_ret_text(v: u64) -> Seq<char> {
    if v == 0xffff_ffff_ffff_ffea {
        "-1 EINVAL (Invalid argument)"@
    } else {
        dec_seq(v as nat)
    }
}

/// A null address renders as the literal placeholder, any other one in
/// hexadecimal.
pub open spec fn addr_or_null_text(v: u64) -> Seq<char> {
    if v == 0 {
        "NULL"@
    } else {
        hex_text(v as nat)
    }
}

fn addr_or_null_string(v: u64) -> (r: String)
    ensures
        r@ == addr_or_null_text(v),
{
    if v == 0 {
        String::from_str("NULL")
    } else {
        hex_string(v)
    }
}

/// What the close decoder leaves behind: one argument, the descriptor in
/// decimal, and a decimal return value.
pub open spec fn decoded_close(pre: SyscallBody, post: SyscallBody) -> bool {
    &&& post.args_count_flag == 1
    &&& post.first_arg@ == dec_seq(pre.rdi as nat)
    &&& post.ret@ == dec_seq(pre.rax as nat)
    &&& post.second_arg == pre.second_arg
    &&& post.third_arg == pre.third_arg
    &&& raw_unchanged(pre, post)
}

/// Decoder for the descriptor-close call.
pub fn close_syscall(_child_pid: &Pid, syscall: &mut SyscallBody)
    ensures
        decoded_close(*old(syscall), *final(syscall)),
{
    syscall.args_count_flag = 1;
    syscall.first_arg = dec_string(syscall.rdi);
    syscall.ret = dec_string(syscall.rax);
}

/// What the memory-break decoder leaves behind: one argument, null rendered
/// as the placeholder, and a hexadecimal return value.
pub open spec fn decoded_brk(pre: SyscallBody, post: SyscallBody) -> bool {
    &&& post.args_count_flag == 1
    &&& post.first_arg@ == addr_or_null_text(pre.rdi)
    &&& post.ret@ == hex_text(pre.rax as nat)
    &&& post.second_arg == pre.second_arg
    &&& post.third_arg == pre.third_arg
    &&& raw_unchanged(pre, post)
}

/// Decoder for the memory-break-adjustment call.
pub fn brk_syscall(_child_pid: &Pid, syscall: &mut SyscallBody)
    ensures
        decoded_brk(*old(syscall), *final(syscall)),
{
    syscall.args_count_flag = 1;
    syscall.first_arg = addr_or_null_string(syscall.rdi);
    syscall.ret = hex_string(syscall.rax);
}

/// The directory handle of a path call: the kernel's current-directory word
/// renders as its symbol, any other handle as a plain decimal descriptor.
pub open spec fn dirfd_text(v: u64) -> Seq<char> {
    if v == 0xffff_ffff_ffff_ff9c {
        "AT_FDCWD"@
    } else {
        dec_seq(v as nat)
    }
}

/// The text for a directory-handle word.
pub fn dirfd_string(v: u64) -> (r: String)
    ensures
        r@ == dirfd_text(v),
{
    if v == 0xffff_ffff_ffff_ff9c {
        String::from_str("AT_FDCWD")
    } else {
        dec_string(v)
    }
}

/// What the openat decoder leaves behind: the directory handle (symbolic for
/// the current-directory word), the path text pulled out of the tracee's
/// memory, the symbolic open flags, and a hexadecimal return value.
pub open spec fn decoded_openat(pre: SyscallBody, post: SyscallBody) -> bool {
    &&& post.args_count_flag == 3
    &&& post.first_arg@ == dirfd_text(pre.rdi)
    &&& remote_text(post.second_arg@)
    &&& post.third_arg@ == open_flags_text(pre.rdx)
    &&& post.ret@ == hex_text(pre.rax as nat)
    &&& raw_unchanged(pre, post)
}

/// Decoder for the path-open call: dereferences the path pointer through the
/// remote memory reader; unreadable memory degrades to partial or empty path
/// text, never to a failure.
pub fn openat_syscall(child_pid: &Pid, syscall: &mut SyscallBody)
    ensures
        decoded_openat(*old(syscall), *final(syscall)),
{
    syscall.second_arg = crate::mem::read_string(child_pid, syscall.rsi);
    syscall.first_arg = dirfd_string(syscall.rdi);
    syscall.ret = hex_string(syscall.rax);
    syscall.args_count_flag = 3;
    syscall.third_arg = open_flags_string(syscall.rdx);
}

/// The symbolic name of an access-check mode word; a value outside the table
/// renders as an explicit placeholder.
pub open spec fn access_mode_text(v: u64) -> Seq<char> {
    if v == 4 {
        "R_OK"@
    } else {
        "unknown"@
    }
}

/// What the access decoder leaves behind: the path text from the tracee's
/// memory, the symbolic mode, and a decimal return value.
pub open spec fn decoded_access(pre: SyscallBody, post: SyscallBody) -> bool {
    &&& post.args_count_flag == 2
    &&& remote_text(post.first_arg@)
    &&& post.second_arg@ == access_mode_text(pre.rsi)
    &&& post.ret@ == dec_seq(pre.rax as nat)
    &&& post.third_arg == pre.third_arg
    &&& raw_unchanged(pre, post)
}

/// Decoder for the path-accessibility check.
pub fn access_syscall(child_pid: &Pid, syscall: &mut SyscallBody)
    ensures
        decoded_access(*old(syscall), *final(syscall)),
{
    syscall.first_arg = crate::mem::read_string(child_pid, syscall.rdi);
    if syscall.rsi == 4 {
        syscall.second_arg = String::from_str("R_OK");
    } else {
        syscall.second_arg = String::from_str("unknown");
    }
    syscall.ret = dec_string(syscall.rax);
    syscall.args_count_flag = 2;
}

/// What the write decoder leaves behind: the descriptor in decimal, the
/// written text from the tracee's memory, the count in decimal, and a
/// decimal return value.
pub open spec fn decoded_write(pre: SyscallBody, post: SyscallBody) -> bool {
    &&& post.args_count_flag == 3
    &&& post.first_arg@ == dec_seq(pre.rdi as nat)
    &&& remote_text(post.second_arg@)
    &&& post.third_arg@ == dec_seq(pre.rdx as nat)
    &&& post.ret@ == dec_seq(pre.rax as nat)
    &&& raw_unchanged(pre, post)
}

/// Decoder for the descriptor-write call: dereferences the buffer pointer
/// through the remote memory reader.
pub fn write_syscall(child_pid: &Pid, syscall: &mut SyscallBody)
    ensures
        decoded_write(*old(syscall), *final(syscall)),
{
    syscall.args_count_flag = 3;
    syscall.second_arg = crate::mem::read_string(child_pid, syscall.rsi);
    syscall.first_arg = dec_string(syscall.rdi);
    syscall.third_arg = dec_string(syscall.rdx);
    syscall.ret = dec_string(syscall.rax);
}

/// What the mmap decoder leaves behind: the address (null as placeholder),
/// the length in decimal, the symbolic protection flags, and a hexadecimal
/// return value.
pub open spec fn decoded_mmap(pre: SyscallBody, post: SyscallBody) -> bool {
    &&& post.args_count_flag == 3
    &&& post.first_arg@ == addr_or_null_text(pre.rdi)
    &&& post.second_arg@ == dec_seq(pre.rsi as nat)
    &&& post.third_arg@ == prot_flags_text(pre.rdx)
    &&& post.ret@ == hex_text(pre.rax as nat)
    &&& raw_unchanged(pre, post)
}

/// Decoder for the memory-map call.
pub fn mmap_syscall(_child_pid: &Pid, syscall: &mut SyscallBody)
    ensures
        decoded_mmap(*old(syscall), *final(syscall)),
{
    syscall.args_count_flag = 3;
    syscall.first_arg = addr_or_null_string(syscall.rdi);
    syscall.second_arg = dec_string(syscall.rsi);
    syscall.third_arg = prot_flags_string(syscall.rdx);
    syscall.ret = hex_string(syscall.rax);
}

/// What the munmap decoder leaves behind: the address in hexadecimal, the
/// length in decimal, and a decimal return value.
pub open spec fn decoded_munmap(pre: SyscallBody, post: SyscallBody) -> bool {
    &&& post.args_count_flag == 2
    &&& post.first_arg@ == hex_text(pre.rdi as nat)
    &&& post.second_arg@ == dec_seq(pre.rsi as nat)
    &&& post.ret@ == dec_seq(pre.rax as nat)
    &&& post.third_arg == pre.third_arg
    &&& raw_unchanged(pre, post)
}

/// Decoder for the memory-unmap call.
pub fn munmap_syscall(_child_pid: &Pid, syscall: &mut SyscallBody)
    ensures
        decoded_munmap(*old(syscall), *final(syscall)),
{
    syscall.args_count_flag = 2;
    syscall.first_arg = hex_string(syscall.rdi);
    syscall.second_arg = dec_string(syscall.rsi);
    syscall.ret = dec_string(syscall.rax);
}

/// What the read decoder leaves behind: the descriptor in decimal, the raw
/// buffer address in hexadecimal (the buffer contents are only filled by the
/// kernel and are not decoded), the count in decimal, and a decimal return
/// value.
pub open spec fn decoded_read(pre: SyscallBody, post: SyscallBody) -> bool {
    &&& post.args_count_flag == 3
    &&& post.first_arg@ == dec_seq(pre.rdi as nat)
    &&& post.second_arg@ == hex_text(pre.rsi as nat)
    &&& post.third_arg@ == dec_seq(pre.rdx as nat)
    &&& post.ret@ == dec_seq(pre.rax as nat)
    &&& raw_unchanged(pre, post)
}

/// Decoder for the descriptor-read call.
pub fn read_syscall(_child_pid: &Pid, syscall: &mut SyscallBody)
    ensures
        decoded_read(*old(syscall), *final(syscall)),
{
    syscall.args_count_flag = 3;
    syscall.first_arg = dec_string(syscall.rdi);
    syscall.second_arg = hex_string(syscall.rsi);
    syscall.third_arg = dec_string(syscall.rdx);
    syscall.ret = dec_string(syscall.rax);
}

/// What the prctl decoder leaves behind: the symbolic operation code and a
/// return value with the kernel's invalid-argument word spelled out.
pub open spec fn decoded_prctl(pre: SyscallBody, post: SyscallBody) -> bool {
    &&& post.args_count_flag == 1
    &&& post.first_arg@ == prctl_op_text(pre.rdi)
    &&& post.ret@ == prctl_ret_text(pre.rax)
    &&& post.second_arg == pre.second_arg
    &&& post.third_arg == pre.third_arg
    &&& raw_unchanged(pre, post)
}

/// Decoder for the process-control call.
pub fn prctl_syscall(_child_pid: &Pid, syscall: &mut SyscallBody)
    ensures
        decoded_prctl(*old(syscall), *final(syscall)),
{
    syscall.args_count_flag = 1;
    syscall.first_arg = prctl_op_string(syscall.rdi);
    if syscall.rax == 0xffff_ffff_ffff_ffea {
        syscall.ret = String::from_str("-1 EINVAL (Invalid argument)");
    } else {
        syscall.ret = dec_string(syscall.rax);
    }
}

/// What the execve decoder leaves behind: no meaningful arguments (the
/// zero-argument shape renders as the null placeholder by convention) and a
/// hexadecimal return value.
pub open spec fn decoded_execve(pre: SyscallBody, post: SyscallBody) -> bool {
    &&& post.args_count_flag == 0
    &&& post.ret@ == hex_text(pre.rax as nat)
    &&& post.first_arg == pre.first_arg
    &&& post.second_arg == pre.second_arg
    &&& post.third_arg == pre.third_arg
    &&& raw_unchanged(pre, post)
}

/// Decoder for the image-replacement call: its argument registers no longer
/// describe the running image once the call completes, so none are decoded.
pub fn execve_syscall(_child_pid: &Pid, syscall: &mut SyscallBody)
    ensures
        decoded_execve(*old(syscall), *final(syscall)),
{
    syscall.args_count_flag = 0;
    syscall.ret = hex_string(syscall.rax);
}

} // verus!
