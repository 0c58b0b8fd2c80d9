//! The kernel-backed tracing backend: one attached Unix process, driven
//! through the ptrace facility.
//!
//! Every kernel call stands behind a small trusted wrapper.  The outcomes
//! depend on the state of the machine, so this backend is not
//! `deterministic()`: its contracts state only what holds of every outcome.
//! Its memory model is the bookkeeping of the words this handle itself
//! patched, which is all a tracer knows of a live address space.

use vstd::prelude::*;

use crate::error::{RawAttachError, RawContError, RawDetachError, RawGetInfoError,
    RawRWMemoryError};
use crate::process::{patch_word, patched, Process};
use crate::process_info::{addr_add8, regs_zero, win_addr, ProcessInfo, Regs, STACKLEN, TEXTLEN};

verus! {

/// Relies on nix::sys::ptrace::attach: issues PTRACE_ATTACH for `pid` and
/// returns Ok exactly when the kernel accepted the request.
#[verifier::external_body]
fn ptrace_attach(pid: i32) -> Result<(), ()> {
    match nix::sys::ptrace::attach(nix::unistd::Pid::from_raw(pid)) {
        Ok(()) => Ok(()),
        Err(_) => Err(()),
    }
}

/// Relies on nix::sys::ptrace::read: PTRACE_PEEKDATA of the 8-byte word at
/// `addr` in the target's address space; what it holds depends on the
/// target, so nothing is promised of the value.
#[verifier::external_body]
fn ptrace_read(pid: i32, addr: u64) -> Result<u64, ()> {
    let a = addr as nix::sys::ptrace::AddressType;
    match nix::sys::ptrace::read(nix::unistd::Pid::from_raw(pid), a) {
        Ok(w) => Ok(w as u64),
        Err(_) => Err(()),
    }
}

/// Relies on nix::sys::ptrace::write: PTRACE_POKEDATA of `word` to `addr`
/// in the target's address space; Ok exactly when the kernel accepted it.
#[verifier::external_body]
fn ptrace_write(pid: i32, addr: u64, word: u64) -> Result<(), ()> {
    let a = addr as nix::sys::ptrace::AddressType;
    match nix::sys::ptrace::write(nix::unistd::Pid::from_raw(pid), a, word as i64) {
        Ok(()) => Ok(()),
        Err(_) => Err(()),
    }
}

/// Relies on nix::sys::ptrace::cont: PTRACE_CONT with no signal delivered;
/// Ok exactly when the kernel accepted the resume request.
#[verifier::external_body]
fn ptrace_cont(pid: i32) -> Result<(), ()> {
    match nix::sys::ptrace::cont(
        nix::unistd::Pid::from_raw(pid),
        None::<nix::sys::signal::Signal>,
    ) {
        Ok(()) => Ok(()),
        Err(_) => Err(()),
    }
}

/// Relies on nix::sys::wait::waitpid: blocks until the tracee's next stop
/// or termination.  The outcome is not inspected.
#[verifier::external_body]
fn wait_for_stop(pid: i32) {
    let _ = nix::sys::wait::waitpid(nix::unistd::Pid::from_raw(pid), None);
}

/// Relies on nix::sys::ptrace::detach: PTRACE_DETACH with no signal; Ok
/// exactly when the kernel accepted it and the process runs on untraced.
#[verifier::external_body]
fn ptrace_detach(pid: i32) -> Result<(), ()> {
    match nix::sys::ptrace::detach(
        nix::unistd::Pid::from_raw(pid),
        None::<nix::sys::signal::Signal>,
    ) {
        Ok(()) => Ok(()),
        Err(_) => Err(()),
    }
}

/// Relies on nix::sys::ptrace::getregs: PTRACE_GETREGS; copies the
/// general-purpose registers out of the kernel's user_regs_struct, field
/// for field.  Their values depend on the target, so nothing is promised.
#[verifier::external_body]
fn ptrace_getregs(pid: i32) -> Result<Regs, ()> {
    match nix::sys::ptrace::getregs(nix::unistd::Pid::from_raw(pid)) {
        Ok(r) => Ok(Regs {
            rax: r.rax, rbx: r.rbx, rcx: r.rcx, rdx: r.rdx, rsi: r.rsi, rdi: r.rdi,
            rbp: r.rbp, rsp: r.rsp, r8: r.r8, r9: r.r9, r10: r.r10, r11: r.r11,
            r12: r.r12, r13: r.r13, r14: r.r14, r15: r.r15, rip: r.rip, eflags: r.eflags,
        }),
        Err(_) => Err(()),
    }
}

/// One traced Unix process.  `patched_words` tracks the words this handle
/// wrote into the target, the only part of the live address space it can
/// vouch for.
pub struct UnixProcess {
    pid: i32,
    attached: bool,
    owns: bool,
    patched_words: Ghost<Map<u64, u64>>,
}

impl Process for UnixProcess {
    open spec fn deterministic() -> bool {
        false
    }

    closed spec fn pid(&self) -> i32 {
        self.pid
    }

    closed spec fn attached(&self) -> bool {
        self.attached
    }

    closed spec fn owns_child(&self) -> bool {
        self.owns
    }

    closed spec fn mem(&self) -> Map<u64, u64> {
        self.patched_words@
    }

    closed spec fn regs(&self) -> Regs {
        regs_zero()
    }

    closed spec fn write_protected(&self) -> Set<u64> {
        Set::empty()
    }

    closed spec fn regs_available(&self) -> bool {
        true
    }

    fn is_attached(&self) -> (r: bool) {
        self.attached
    }

    fn new_and_attach(child_pid: i32) -> (r: Result<Self, RawAttachError>) {
        match ptrace_attach(child_pid) {
            Ok(()) => Ok(
                UnixProcess {
                    pid: child_pid,
                    attached: true,
                    owns: true,
                    patched_words: Ghost(Map::empty()),
                },
            ),
            Err(()) => Err(RawAttachError::fail_raw_attach(child_pid)),
        }
    }

    fn attach(pid: i32) -> (r: Result<Self, RawAttachError>) {
        match ptrace_attach(pid) {
            Ok(()) => Ok(
                UnixProcess {
                    pid,
                    attached: true,
                    owns: false,
                    patched_words: Ghost(Map::empty()),
                },
            ),
            Err(()) => Err(RawAttachError::fail_raw_attach(pid)),
        }
    }

    fn rewrite_memory(&mut self, addr: u64, value: u64) -> (r: Result<u64, RawRWMemoryError>) {
        let original_text = match ptrace_read(self.pid, addr) {
            Ok(t) => t,
            Err(()) => {
                return Err(RawRWMemoryError::read_error(addr));
            },
        };
        let new_word = patched(original_text, value);
        match ptrace_write(self.pid, addr, new_word) {
            Ok(()) => {},
            Err(()) => {
                proof {
                    assert(new_word == patch_word(original_text, value));
                }
                return Err(RawRWMemoryError::write_error(addr, new_word));
            },
        }
        self.patched_words = Ghost(self.patched_words@.insert(addr, new_word));
        Ok(original_text)
    }

    fn cont(&self) -> (r: Result<(), RawContError>) {
        match ptrace_cont(self.pid) {
            Ok(()) => {},
            Err(()) => {
                return Err(RawContError::fail_raw_cont(self.pid));
            },
        }
        wait_for_stop(self.pid);
        Ok(())
    }

    fn get_info(&self) -> (r: Result<ProcessInfo, RawGetInfoError>) {
        let regs = match ptrace_getregs(self.pid) {
            Ok(r) => r,
            Err(()) => {
                return Err(RawGetInfoError::fail_get_regs());
            },
        };
        let mut stack: Vec<(u64, u64)> = Vec::new();
        let mut cur: u64 = regs.rsp;
        let mut k: usize = 0;
        while k < STACKLEN
            invariant
                k <= STACKLEN,
                cur == win_addr(regs.rsp, k as int),
                stack@.len() == k,
                forall|i: int| 0 <= i < k ==> (#[trigger] stack@[i]).0 == win_addr(regs.rsp, i),
            decreases STACKLEN - k,
        {
            let word: u64 = match ptrace_read(self.pid, cur) {
                Ok(w) => w,
                Err(()) => {
                    return Err(RawGetInfoError::fail_read_stack(cur));
                },
            };
            stack.push((cur, word));
            proof {
                assert(win_addr(regs.rsp, k as int + 1) == addr_add8(win_addr(regs.rsp, k as int)));
            }
            cur = cur.wrapping_add(8);
            k = k + 1;
        }
        let mut text: Vec<(u64, u64)> = Vec::new();
        cur = regs.rip;
        k = 0;
        while k < TEXTLEN
            invariant
                k <= TEXTLEN,
                cur == win_addr(regs.rip, k as int),
                text@.len() == k,
                forall|i: int| 0 <= i < k ==> (#[trigger] text@[i]).0 == win_addr(regs.rip, i),
                stack@.len() == STACKLEN,
                forall|i: int|
                    0 <= i < STACKLEN ==> (#[trigger] stack@[i]).0 == win_addr(regs.rsp, i),
            decreases TEXTLEN - k,
        {
            let word: u64 = match ptrace_read(self.pid, cur) {
                Ok(w) => w,
                Err(()) => {
                    return Err(RawGetInfoError::fail_read_text(cur));
                },
            };
            text.push((cur, word));
            proof {
                assert(win_addr(regs.rip, k as int + 1) == addr_add8(win_addr(regs.rip, k as int)));
            }
            cur = cur.wrapping_add(8);
            k = k + 1;
        }
        Ok(ProcessInfo::new(regs, stack, text))
    }

    fn detach(&mut self) -> (r: Result<(), RawDetachError>) {
        match ptrace_detach(self.pid) {
            Ok(()) => {
                self.attached = false;
                Ok(())
            },
            Err(()) => Err(RawDetachError::fail_detach(self.pid)),
        }
    }
}

} // verus!
