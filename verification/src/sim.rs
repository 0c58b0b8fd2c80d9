//! A simulated tracing backend: a test double for the kernel facility whose
//! every outcome is a function of its model, so that failure paths can be
//! exercised deterministically.
//!
//! The simulated target holds a map of readable memory words and a register
//! set.  Attach requests for non-positive pids are rejected, as the kernel
//! rejects them; a word read succeeds exactly on the mapped addresses; a
//! word write is rejected on the addresses marked write-protected; the
//! register fetch can be made to fail.

use std::collections::HashMap;
use std::collections::HashSet;
use vstd::prelude::*;

use crate::error::{RawAttachError, RawContError, RawDetachError, RawGetInfoError,
    RawRWMemoryError};
use crate::process::{first_window_failure, patched, Process};
use crate::process_info::{addr_add8, regs_zero, win_addr, window_readable, ProcessInfo, Regs,
    STACKLEN, TEXTLEN};

verus! {

broadcast use vstd::std_specs::hash::group_hash_axioms;

/// A simulated tracee.  Its memory map and registers are set up by the
/// caller and read back deterministically, standing in for a live process.
pub struct SimProcess {
    pid: i32,
    attached: bool,
    owns: bool,
    memory: HashMap<u64, u64>,
    regs: Regs,
    write_protect: HashSet<u64>,
    regs_ok: bool,
}

impl SimProcess {
    /// Make the word at `addr` readable (and writable) with contents
    /// `word`, as if the target's address space mapped it.
    pub fn map_word(&mut self, addr: u64, word: u64)
        ensures
            final(self).mem() == old(self).mem().insert(addr, word),
            final(self).pid() == old(self).pid(),
            final(self).attached() == old(self).attached(),
            final(self).owns_child() == old(self).owns_child(),
            final(self).regs() == old(self).regs(),
            final(self).write_protected() == old(self).write_protected(),
            final(self).regs_available() == old(self).regs_available(),
    {
        self.memory.insert(addr, word);
    }

    /// Make the word at `addr` readable but not writable: a write there is
    /// rejected, as the kernel rejects a write into a protected page.
    pub fn protect_word(&mut self, addr: u64)
        ensures
            final(self).write_protected() == old(self).write_protected().insert(addr),
            final(self).mem() == old(self).mem(),
            final(self).pid() == old(self).pid(),
            final(self).attached() == old(self).attached(),
            final(self).owns_child() == old(self).owns_child(),
            final(self).regs() == old(self).regs(),
            final(self).regs_available() == old(self).regs_available(),
    {
        self.write_protect.insert(addr);
    }

    /// Make the register fetch fail, as the kernel rejects it for a
    /// process it no longer traces.
    pub fn deny_regs(&mut self)
        ensures
            !final(self).regs_available(),
            final(self).mem() == old(self).mem(),
            final(self).pid() == old(self).pid(),
            final(self).attached() == old(self).attached(),
            final(self).owns_child() == old(self).owns_child(),
            final(self).regs() == old(self).regs(),
            final(self).write_protected() == old(self).write_protected(),
    {
        self.regs_ok = false;
    }

    /// Set the simulated register set.
    pub fn set_regs(&mut self, regs: Regs)
        ensures
            final(self).regs() == regs,
            final(self).pid() == old(self).pid(),
            final(self).attached() == old(self).attached(),
            final(self).owns_child() == old(self).owns_child(),
            final(self).mem() == old(self).mem(),
            final(self).write_protected() == old(self).write_protected(),
            final(self).regs_available() == old(self).regs_available(),
    {
        self.regs = regs;
    }

    /// Read raw target memory directly, bypassing the tracing interface:
    /// the word at `addr`, or nothing where the address is unmapped.
    pub fn peek(&self, addr: u64) -> (r: Option<u64>)
        ensures
            r == if self.mem().contains_key(addr) {
                Some(self.mem()[addr])
            } else {
                None::<u64>
            },
    {
        match self.memory.get(&addr) {
            Some(w) => Some(*w),
            None => None,
        }
    }
}

impl Process for SimProcess {
    open spec fn deterministic() -> bool {
        true
    }

    closed spec fn pid(&self) -> i32 {
        self.pid
    }

    closed spec fn attached(&self) -> bool {
        self.attached
    }

    closed spec fn owns_child(&self) -> bool {
        self.owns
    }

    closed spec fn mem(&self) -> Map<u64, u64> {
        self.memory@
    }

    closed spec fn regs(&self) -> Regs {
        self.regs
    }

    closed spec fn write_protected(&self) -> Set<u64> {
        self.write_protect@
    }

    closed spec fn regs_available(&self) -> bool {
        self.regs_ok
    }

    fn is_attached(&self) -> (r: bool) {
        self.attached
    }

    fn new_and_attach(child_pid: i32) -> (r: Result<Self, RawAttachError>) {
        if child_pid > 0 {
            Ok(SimProcess {
                pid: child_pid,
                attached: true,
                owns: true,
                memory: HashMap::new(),
                regs: Regs::zeroed(),
                write_protect: HashSet::new(),
                regs_ok: true,
            })
        } else {
            Err(RawAttachError::fail_raw_attach(child_pid))
        }
    }

    fn attach(pid: i32) -> (r: Result<Self, RawAttachError>) {
        if pid > 0 {
            Ok(SimProcess {
                pid,
                attached: true,
                owns: false,
                memory: HashMap::new(),
                regs: Regs::zeroed(),
                write_protect: HashSet::new(),
                regs_ok: true,
            })
        } else {
            Err(RawAttachError::fail_raw_attach(pid))
        }
    }

    fn rewrite_memory(&mut self, addr: u64, value: u64) -> (r: Result<u64, RawRWMemoryError>) {
        let read: Option<u64> = match self.memory.get(&addr) {
            Some(w) => Some(*w),
            None => None,
        };
        match read {
            Some(orig) => {
                let new_word = patched(orig, value);
                if self.write_protect.contains(&addr) {
                    return Err(RawRWMemoryError::write_error(addr, new_word));
                }
                self.memory.insert(addr, new_word);
                Ok(orig)
            },
            None => Err(RawRWMemoryError::read_error(addr)),
        }
    }

    fn cont(&self) -> (r: Result<(), RawContError>) {
        Ok(())
    }

    fn get_info(&self) -> (r: Result<ProcessInfo, RawGetInfoError>) {
        if !self.regs_ok {
            return Err(RawGetInfoError::fail_get_regs());
        }
        let regs = self.regs;
        let mut stack: Vec<(u64, u64)> = Vec::new();
        let mut cur: u64 = regs.rsp;
        let mut k: usize = 0;
        while k < STACKLEN
            invariant
                regs == self.regs(),
                self.regs_available(),
                k <= STACKLEN,
                cur == win_addr(regs.rsp, k as int),
                stack@.len() == k,
                forall|i: int|
                    0 <= i < k ==> stack@[i] == (
                        win_addr(regs.rsp, i),
                        self.mem()[win_addr(regs.rsp, i)],
                    ),
                forall|i: int|
                    0 <= i < k ==> self.mem().contains_key(#[trigger] win_addr(regs.rsp, i)),
            decreases STACKLEN - k,
        {
            let word: u64 = match self.memory.get(&cur) {
                Some(w) => *w,
                None => {
                    proof {
                        let kk = k as int;
                        assert(!self.mem().contains_key(win_addr(self.regs().rsp, kk)));
                        assert(!window_readable(self.mem(), self.regs().rsp, STACKLEN as int));
                        assert(first_window_failure(
                            self.mem(),
                            self.regs().rsp,
                            STACKLEN as int,
                            cur,
                        )) by {
                            assert(cur == win_addr(self.regs().rsp, kk));
                        };
                    }
                    return Err(RawGetInfoError::fail_read_stack(cur));
                },
            };
            stack.push((cur, word));
            proof {
                assert(win_addr(regs.rsp, k as int + 1) == addr_add8(win_addr(regs.rsp, k as int)));
            }
            cur = cur.wrapping_add(8);
            k = k + 1;
        }
        let mut text: Vec<(u64, u64)> = Vec::new();
        cur = regs.rip;
        k = 0;
        while k < TEXTLEN
            invariant
                regs == self.regs(),
                self.regs_available(),
                k <= TEXTLEN,
                cur == win_addr(regs.rip, k as int),
                text@.len() == k,
                forall|i: int|
                    0 <= i < k ==> text@[i] == (
                        win_addr(regs.rip, i),
                        self.mem()[win_addr(regs.rip, i)],
                    ),
                forall|i: int|
                    0 <= i < k ==> self.mem().contains_key(#[trigger] win_addr(regs.rip, i)),
                stack@.len() == STACKLEN,
                forall|i: int|
                    0 <= i < STACKLEN ==> stack@[i] == (
                        win_addr(regs.rsp, i),
                        self.mem()[win_addr(regs.rsp, i)],
                    ),
                forall|i: int|
                    0 <= i < STACKLEN ==> self.mem().contains_key(
                        #[trigger] win_addr(regs.rsp, i),
                    ),
            decreases TEXTLEN - k,
        {
            let word: u64 = match self.memory.get(&cur) {
                Some(w) => *w,
                None => {
                    proof {
                        let kk = k as int;
                        assert(!self.mem().contains_key(win_addr(self.regs().rip, kk)));
                        assert(!window_readable(self.mem(), self.regs().rip, TEXTLEN as int));
                        assert(first_window_failure(
                            self.mem(),
                            self.regs().rip,
                            TEXTLEN as int,
                            cur,
                        )) by {
                            assert(cur == win_addr(self.regs().rip, kk));
                        };
                    }
                    return Err(RawGetInfoError::fail_read_text(cur));
                },
            };
            text.push((cur, word));
            proof {
                assert(win_addr(regs.rip, k as int + 1) == addr_add8(win_addr(regs.rip, k as int)));
            }
            cur = cur.wrapping_add(8);
            k = k + 1;
        }
        Ok(ProcessInfo::new(regs, stack, text))
    }

    fn detach(&mut self) -> (r: Result<(), RawDetachError>) {
        self.attached = false;
        Ok(())
    }
}

} // verus!
