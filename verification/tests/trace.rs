use nix::unistd::Pid;
use systrace::check_args_len;
use systrace::mem::{has_nul, le_bytes, pack_words, read_string, string_from_words};
use systrace::registry::dispatch;
use systrace::session::{Phase, RawRegs, StepOutcome, TraceSession, WaitEvent};
use systrace::syscalls::{
    dirfd_string, open_flags_string, prctl_op_string, prot_flags_string, SyscallBody,
};
use systrace::text::{ascii_upper, dec_string, hex_string};

fn record(num: u64, rdi: u64, rsi: u64, rdx: u64, rax: u64, name: &str) -> SyscallBody {
    SyscallBody {
        rax,
        rdi,
        rsi,
        rdx,
        name: name.to_string(),
        num,
        args_count_flag: 0,
        first_arg: String::new(),
        second_arg: String::new(),
        third_arg: String::new(),
        ret: String::new(),
    }
}

fn dead_pid() -> Pid {
    // no process of this tracer is traced, so every remote read faults
    Pid::from_raw(1)
}

fn fresh_session() -> TraceSession {
    TraceSession {
        pid: dead_pid(),
        phase: Phase::AwaitingEntry,
        entry: None,
        pending_signal: None,
    }
}

fn regs(num: u64, rdi: u64, rsi: u64, rdx: u64, rax: u64) -> RawRegs {
    RawRegs { num, rdi, rsi, rdx, rax }
}

#[test]
fn dec_renders_zero() {
    assert_eq!(dec_string(0), "0");
}

#[test]
fn dec_renders_digits() {
    assert_eq!(dec_string(4096), "4096");
    assert_eq!(dec_string(7), "7");
}

#[test]
fn dec_renders_largest_word() {
    assert_eq!(dec_string(u64::MAX), "18446744073709551615");
}

#[test]
fn hex_renders_zero() {
    assert_eq!(hex_string(0), "0x0");
}

#[test]
fn hex_renders_value() {
    assert_eq!(hex_string(0xdeadbeef), "0xdeadbeef");
    assert_eq!(hex_string(16), "0x10");
}

#[test]
fn hex_renders_largest_word() {
    assert_eq!(hex_string(u64::MAX), "0xffffffffffffffff");
}

#[test]
fn upper_cases_ascii_name() {
    assert_eq!(ascii_upper("openat"), "OPENAT");
}

#[test]
fn upper_keeps_non_letters() {
    assert_eq!(ascii_upper("rt_sigaction2"), "RT_SIGACTION2");
    assert_eq!(ascii_upper("BRK"), "BRK");
}

#[test]
fn word_bytes_are_little_endian() {
    assert_eq!(le_bytes(0x0807060504030201), vec![1, 2, 3, 4, 5, 6, 7, 8]);
}

#[test]
fn nul_detection_in_word() {
    assert!(has_nul(0x0061626300616263));
    assert!(!has_nul(0x6161616161616161));
}

#[test]
fn packed_text_reads_back() {
    let text = b"example.txt".to_vec();
    let words = pack_words(&text);
    assert_eq!(string_from_words(&words), "example.txt");
}

#[test]
fn packed_empty_text_reads_back_empty() {
    let words = pack_words(&Vec::new());
    assert_eq!(words.len(), 1);
    assert_eq!(string_from_words(&words), "");
}

#[test]
fn scan_stops_at_embedded_terminator() {
    let bytes = vec![b'a', 0, b'b'];
    let words = pack_words(&bytes);
    assert_eq!(string_from_words(&words), "a");
}

#[test]
fn scan_without_terminator_keeps_all_bytes() {
    let words = vec![0x4141414141414141];
    assert_eq!(string_from_words(&words), "AAAAAAAA");
}

#[test]
fn faulted_read_degrades_to_empty() {
    assert_eq!(read_string(&dead_pid(), 0), "");
    assert_eq!(read_string(&dead_pid(), 0x7fff_ffff_f000), "");
}

#[test]
fn render_zero_arity_uses_null_shape() {
    let mut rec = record(59, 0, 0, 0, 0, "EXECVE");
    rec.ret = "0x0".to_string();
    assert_eq!(rec.render(), "EXECVE(NULL) = 0x0");
}

#[test]
fn render_shapes_by_arity() {
    let mut rec = record(3, 0, 0, 0, 0, "NAME");
    rec.first_arg = "a".to_string();
    rec.second_arg = "b".to_string();
    rec.third_arg = "c".to_string();
    rec.ret = "r".to_string();
    rec.args_count_flag = 1;
    assert_eq!(rec.render(), "NAME(a) = r");
    rec.args_count_flag = 2;
    assert_eq!(rec.render(), "NAME(a, b) = r");
    rec.args_count_flag = 3;
    assert_eq!(rec.render(), "NAME(a, b, c) = r");
}

#[test]
fn render_twice_is_identical() {
    let mut rec = record(3, 3, 0, 0, 0, "CLOSE");
    rec.args_count_flag = 1;
    rec.first_arg = "3".to_string();
    rec.ret = "0".to_string();
    assert_eq!(rec.render(), rec.render());
}

#[test]
fn close_decodes_descriptor() {
    let mut rec = record(3, 3, 0, 0, 0, "CLOSE");
    let line = dispatch(&dead_pid(), &mut rec);
    assert_eq!(line, "CLOSE(3) = 0");
}

#[test]
fn brk_null_argument_renders_placeholder() {
    let mut rec = record(12, 0, 0, 0, 0x55a000000000, "BRK");
    let line = dispatch(&dead_pid(), &mut rec);
    assert_eq!(line, "BRK(NULL) = 0x55a000000000");
}

#[test]
fn brk_address_renders_hex() {
    let mut rec = record(12, 0x1000, 0, 0, 0x2000, "BRK");
    let line = dispatch(&dead_pid(), &mut rec);
    assert_eq!(line, "BRK(0x1000) = 0x2000");
}

#[test]
fn openat_read_only_flag_symbol() {
    assert_eq!(open_flags_string(0), "O_RDONLY");
    assert_eq!(open_flags_string(524290), "O_RDWR|O_CLOEXEC");
    assert_eq!(open_flags_string(7), "unknown option yet");
}

#[test]
fn openat_line_mentions_path_and_flag() {
    let path_words = pack_words(&b"example.txt".to_vec());
    let mut rec = record(257, 0, 0, 0, 3, "OPENAT");
    rec.args_count_flag = 3;
    rec.first_arg = "AT_FDCWD".to_string();
    rec.second_arg = string_from_words(&path_words);
    rec.third_arg = open_flags_string(0);
    rec.ret = hex_string(3);
    let line = rec.render();
    assert_eq!(line, "OPENAT(AT_FDCWD, example.txt, O_RDONLY) = 0x3");
    assert!(line.contains("example.txt"));
    assert!(line.contains("O_RDONLY"));
}

#[test]
fn openat_unreadable_path_degrades() {
    let mut rec = record(257, 0xffff_ffff_ffff_ff9c, 0x1000, 0, 3, "OPENAT");
    let line = dispatch(&dead_pid(), &mut rec);
    assert_eq!(line, "OPENAT(AT_FDCWD, , O_RDONLY) = 0x3");
}

#[test]
fn openat_directory_handle_by_value() {
    assert_eq!(dirfd_string(0xffff_ffff_ffff_ff9c), "AT_FDCWD");
    assert_eq!(dirfd_string(5), "5");
    let mut rec = record(257, 5, 0x1000, 2, 4, "OPENAT");
    let line = dispatch(&dead_pid(), &mut rec);
    assert_eq!(line, "OPENAT(5, , O_RDWR) = 0x4");
}

#[test]
fn access_known_and_unknown_mode() {
    let mut rec = record(21, 0, 4, 0, 0, "ACCESS");
    let line = dispatch(&dead_pid(), &mut rec);
    assert_eq!(line, "ACCESS(, R_OK) = 0");
    let mut rec2 = record(21, 0, 2, 0, 0, "ACCESS");
    let line2 = dispatch(&dead_pid(), &mut rec2);
    assert_eq!(line2, "ACCESS(, unknown) = 0");
}

#[test]
fn write_decodes_counts() {
    let mut rec = record(1, 1, 0, 5, 5, "WRITE");
    let line = dispatch(&dead_pid(), &mut rec);
    assert_eq!(line, "WRITE(1, , 5) = 5");
}

#[test]
fn mmap_decodes_protection_flags() {
    let mut rec = record(9, 0, 4096, 3, 0x7f0000000000, "MMAP");
    let line = dispatch(&dead_pid(), &mut rec);
    assert_eq!(line, "MMAP(NULL, 4096, PROT_READ|PROT_WRITE) = 0x7f0000000000");
    assert_eq!(prot_flags_string(9), "unknown");
}

#[test]
fn munmap_decodes_address_and_length() {
    let mut rec = record(11, 0x7f0000000000, 4096, 0, 0, "MUNMAP");
    let line = dispatch(&dead_pid(), &mut rec);
    assert_eq!(line, "MUNMAP(0x7f0000000000, 4096) = 0");
}

#[test]
fn read_decodes_buffer_address_raw() {
    let mut rec = record(0, 0, 0x7ffe1000, 16, 16, "READ");
    let line = dispatch(&dead_pid(), &mut rec);
    assert_eq!(line, "READ(0, 0x7ffe1000, 16) = 16");
}

#[test]
fn prctl_decodes_operation_code() {
    let mut rec = record(157, 23, 0, 0, 1, "PRCTL");
    let line = dispatch(&dead_pid(), &mut rec);
    assert_eq!(line, "PRCTL(PR_CAPBSET_READ) = 1");
    assert_eq!(prctl_op_string(99), "unknown");
}

#[test]
fn prctl_spells_out_invalid_argument() {
    let mut rec = record(157, 1, 0, 0, 0xffff_ffff_ffff_ffea, "PRCTL");
    let line = dispatch(&dead_pid(), &mut rec);
    assert_eq!(line, "PRCTL(PR_SET_PDEATHSIG) = -1 EINVAL (Invalid argument)");
}

#[test]
fn execve_renders_null_shape() {
    let mut rec = record(59, 0, 0, 0, 0, "EXECVE");
    let line = dispatch(&dead_pid(), &mut rec);
    assert_eq!(line, "EXECVE(NULL) = 0x0");
}

#[test]
fn unknown_number_falls_back_to_raw_shape() {
    let mut rec = record(424242, 0x2a, 7, 9, 11, "FOO");
    let line = dispatch(&dead_pid(), &mut rec);
    assert_eq!(line, "FOO(0x2a)");
    assert_eq!(rec.args_count_flag, 0);
    assert_eq!(rec.ret, "");
}

#[test]
fn another_unknown_number_also_falls_back() {
    let mut rec = record(10, 0x1000, 4096, 1, 0, "MPROTECT");
    let line = dispatch(&dead_pid(), &mut rec);
    assert_eq!(line, "MPROTECT(0x1000)");
}

#[test]
fn phases_alternate_on_syscall_stops() {
    let mut s = fresh_session();
    assert_eq!(s.phase, Phase::AwaitingEntry);
    let out = s.apply_stop(WaitEvent::SyscallStop, Some(regs(1, 1, 0, 5, 0)));
    assert!(matches!(out, StepOutcome::Quiet));
    assert_eq!(s.phase, Phase::AwaitingExit);
    let out2 = s.apply_stop(WaitEvent::SyscallStop, Some(regs(1, 1, 0, 5, 5)));
    assert!(matches!(out2, StepOutcome::Completed(_)));
    assert_eq!(s.phase, Phase::AwaitingEntry);
    let out3 = s.apply_stop(WaitEvent::SyscallStop, Some(regs(3, 3, 0, 0, 0)));
    assert!(matches!(out3, StepOutcome::Quiet));
    assert_eq!(s.phase, Phase::AwaitingExit);
}

#[test]
fn exit_stop_merges_entry_and_return() {
    let mut s = fresh_session();
    s.apply_stop(WaitEvent::SyscallStop, Some(regs(257, 1, 2, 3, 0)));
    let out = s.apply_stop(WaitEvent::SyscallStop, Some(regs(257, 1, 2, 3, 42)));
    match out {
        StepOutcome::Completed(rec) => {
            assert_eq!(rec.num, 257);
            assert_eq!(rec.rdi, 1);
            assert_eq!(rec.rsi, 2);
            assert_eq!(rec.rdx, 3);
            assert_eq!(rec.rax, 42);
            assert_eq!(rec.name, "");
        }
        _ => panic!("expected a completed record"),
    }
}

#[test]
fn exit_without_entry_degrades_to_notice() {
    let mut s = fresh_session();
    s.apply_stop(WaitEvent::SyscallStop, None);
    let out = s.apply_stop(WaitEvent::SyscallStop, Some(regs(1, 1, 0, 0, 0)));
    match out {
        StepOutcome::Notice(line) => assert_eq!(line, "<registers unavailable>"),
        _ => panic!("expected the placeholder notice"),
    }
}

#[test]
fn one_termination_line_and_nothing_after() {
    let mut s = fresh_session();
    let events = vec![
        WaitEvent::SyscallStop,
        WaitEvent::SyscallStop,
        WaitEvent::Exited(0),
        WaitEvent::SyscallStop,
        WaitEvent::Exited(0),
        WaitEvent::SignalStop(11),
    ];
    let mut end_lines = 0;
    let mut after_end = 0;
    for ev in events {
        let out = s.apply_stop(ev, Some(regs(1, 1, 0, 0, 0)));
        match out {
            StepOutcome::Notice(line) => {
                if line == "===== finished successfully! =====" {
                    end_lines += 1;
                } else if end_lines > 0 {
                    after_end += 1;
                }
            }
            StepOutcome::Completed(_) => {
                if end_lines > 0 {
                    after_end += 1;
                }
            }
            StepOutcome::Quiet => {}
        }
    }
    assert_eq!(end_lines, 1);
    assert_eq!(after_end, 0);
    assert!(s.done());
}

#[test]
fn abnormal_end_is_quiet() {
    let mut s = fresh_session();
    let out = s.apply_stop(WaitEvent::Killed(9), None);
    assert!(matches!(out, StepOutcome::Quiet));
    assert!(s.done());
    assert_eq!(s.phase, Phase::Terminated);
}

#[test]
fn signal_is_kept_for_passthrough() {
    let mut s = fresh_session();
    let out = s.apply_stop(WaitEvent::SignalStop(10), None);
    assert!(matches!(out, StepOutcome::Quiet));
    assert_eq!(s.pending_signal, Some(10));
    assert_eq!(s.phase, Phase::AwaitingEntry);
}

#[test]
fn advance_on_vanished_child_terminates() {
    // pid 1 is no child of the test runner: the wait itself fails, which the
    // session treats as the tracee being gone — an abnormal, quiet end
    let mut s = fresh_session();
    let out = s.advance();
    assert!(matches!(out, StepOutcome::Quiet));
    assert!(s.done());
}

#[test]
fn argument_count_gate() {
    assert!(!check_args_len(0));
    assert!(!check_args_len(1));
    assert!(check_args_len(2));
    assert!(check_args_len(3));
    assert!(check_args_len(7));
}
