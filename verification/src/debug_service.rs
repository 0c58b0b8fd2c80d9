//! Debug session: one target handle plus the breakpoint table, exposing the
//! operator-facing verbs (insert breakpoint, continue, info, detach) and
//! wrapping every raw failure in its operation-level kind.
//!
//! The breakpoint table maps each planted address to the original 8-byte
//! word that stood there before the trap byte was written in.  An address
//! appears at most once; re-planting an armed address silently overwrites
//! the stored original word (a documented defect, see
//! `lemma_reinsert_discards_original`).

use std::collections::HashMap;
use vstd::prelude::*;

use crate::error::{AttachError, ContError, DetachError, GetInfoError, InsertBreakError,
    RawAttachError, RawContError, RawDetachError, RawRWMemoryError};
use crate::process::{capture_err, capture_ok, patch_word, Process};
use crate::process_info::{regs_zero, window_readable, ProcessInfo, Regs, STACKLEN, TEXTLEN};

verus! {

broadcast use vstd::std_specs::hash::group_hash_axioms;

/// The single-byte software-breakpoint instruction of the target
/// architecture, written into the low byte of the patched word.
pub const TRAP_OPCODE: u64 = 0xcc;

/// Target memory after planting a breakpoint at `addr`: the word there is
/// the original one with its low byte replaced by the trap opcode.
pub open spec fn insert_step_mem(mem: Map<u64, u64>, addr: u64) -> Map<u64, u64> {
    mem.insert(addr, patch_word(mem[addr], TRAP_OPCODE))
}

/// The breakpoint table after planting at `addr`: the word that target
/// memory held at `addr` is recorded there, overwriting any prior entry.
pub open spec fn insert_step_table(
    mem: Map<u64, u64>,
    tab: Map<u64, u64>,
    addr: u64,
) -> Map<u64, u64> {
    tab.insert(addr, mem[addr])
}

/// A debug session over one tracing backend `P`.
///
/// Detach ends the session: each verb demands a still-attached session, so
/// that use after `detach` is a usage error a verified caller cannot commit.
pub struct DebugService<P: Process> {
    process: P,
    breakpoint_to_value: HashMap<u64, u64>,
}

impl<P: Process> DebugService<P> {
    /// The target handle of this session.
    pub closed spec fn proc(&self) -> P {
        self.process
    }

    /// The breakpoint table: planted address to pre-patch word.
    pub closed spec fn table(&self) -> Map<u64, u64> {
        self.breakpoint_to_value@
    }

    /// Whether the session still controls its tracee.
    pub open spec fn attached(&self) -> bool {
        self.proc().attached()
    }

    /// The traced process identifier.
    pub open spec fn pid(&self) -> i32 {
        self.proc().pid()
    }

    /// Whether the session's handle owns a spawned child.
    pub open spec fn owns_child(&self) -> bool {
        self.proc().owns_child()
    }

    /// The backend's model of readable target memory.
    pub open spec fn mem(&self) -> Map<u64, u64> {
        self.proc().mem()
    }

    /// The backend's model of the target's registers.
    pub open spec fn regs(&self) -> Regs {
        self.proc().regs()
    }

    /// The backend's model of the write-protected addresses.
    pub open spec fn write_protected(&self) -> Set<u64> {
        self.proc().write_protected()
    }

    /// Whether a register fetch succeeds on the target.
    pub open spec fn regs_available(&self) -> bool {
        self.proc().regs_available()
    }

    /// Attach to `child_pid`, a process the caller just spawned for this
    /// session; the session owns that child.  The breakpoint table starts
    /// empty.  A rejected attach reports the child's actual pid.
    pub fn new_and_attach(child_pid: i32) -> (r: Result<Self, AttachError>)
        ensures
            r matches Ok(s) ==> s.attached() && s.pid() == child_pid && s.owns_child()
                && s.table() == Map::<u64, u64>::empty(),
            r matches Err(e) ==> e == AttachError::AttachError(
                RawAttachError::RawAttachError(child_pid),
            ),
            P::deterministic() ==> {
                &&& (r is Ok <==> child_pid > 0)
                &&& (r matches Ok(s) ==> s.mem() == Map::<u64, u64>::empty() && s.regs()
                    == regs_zero())
            },
    {
        match P::new_and_attach(child_pid) {
            Ok(child) => Ok(DebugService { process: child, breakpoint_to_value: HashMap::new() }),
            Err(e) => Err(AttachError::AttachError(e)),
        }
    }

    /// Build a session around an already-attached target handle, with an
    /// empty breakpoint table.  This is how a pre-configured simulated
    /// target enters a session.
    pub fn from_target(process: P) -> (r: Self)
        requires
            process.attached(),
        ensures
            r.proc() == process,
            r.table() == Map::<u64, u64>::empty(),
            r.attached(),
    {
        DebugService { process, breakpoint_to_value: HashMap::new() }
    }

    /// Attach to the already-running process `pid`.  The breakpoint table
    /// starts empty.  A rejected attach reports that pid.
    pub fn attach(pid: i32) -> (r: Result<Self, AttachError>)
        ensures
            r matches Ok(s) ==> s.attached() && s.pid() == pid && !s.owns_child() && s.table()
                == Map::<u64, u64>::empty(),
            r matches Err(e) ==> e == AttachError::AttachError(RawAttachError::RawAttachError(pid)),
            P::deterministic() ==> {
                &&& (r is Ok <==> pid > 0)
                &&& (r matches Ok(s) ==> s.mem() == Map::<u64, u64>::empty() && s.regs()
                    == regs_zero())
            },
    {
        match P::attach(pid) {
            Ok(target_process) => Ok(
                DebugService { process: target_process, breakpoint_to_value: HashMap::new() },
            ),
            Err(e) => Err(AttachError::AttachError(e)),
        }
    }

    /// Plant a breakpoint: patch the low byte at `addr` to the trap opcode
    /// and record the original word in the table.  On any failure neither
    /// target memory nor the table changes, so the two stay consistent.
    pub fn insert_break(&mut self, addr: u64) -> (r: Result<(), InsertBreakError>)
        requires
            old(self).attached(),
        ensures
            final(self).attached(),
            final(self).pid() == old(self).pid(),
            final(self).owns_child() == old(self).owns_child(),
            final(self).regs() == old(self).regs(),
            r is Ok ==> {
                &&& final(self).table().contains_key(addr)
                &&& final(self).table() == old(self).table().insert(
                    addr,
                    final(self).table()[addr],
                )
                &&& final(self).mem() == old(self).mem().insert(
                    addr,
                    patch_word(final(self).table()[addr], TRAP_OPCODE),
                )
            },
            r is Err ==> final(self).table() == old(self).table() && final(self).mem() == old(
                self,
            ).mem(),
            r matches Err(InsertBreakError::RWError(e)) ==> match e {
                RawRWMemoryError::ReadMemoryError(a) => a == addr,
                RawRWMemoryError::WriteMemoryError(a, v) => a == addr,
            },
            P::deterministic() ==> {
                &&& (r is Ok ==> final(self).table() == insert_step_table(
                    old(self).mem(),
                    old(self).table(),
                    addr,
                ) && final(self).mem() == insert_step_mem(old(self).mem(), addr))
                &&& (r is Ok <==> old(self).mem().contains_key(addr) && !old(
                    self,
                ).write_protected().contains(addr))
                &&& (r matches Err(e) ==> e == InsertBreakError::RWError(
                    if !old(self).mem().contains_key(addr) {
                        RawRWMemoryError::ReadMemoryError(addr)
                    } else {
                        RawRWMemoryError::WriteMemoryError(
                            addr,
                            patch_word(old(self).mem()[addr], TRAP_OPCODE),
                        )
                    },
                ))
            },
    {
        let value = match self.process.rewrite_memory(addr, TRAP_OPCODE) {
            Ok(w) => w,
            Err(e) => {
                return Err(InsertBreakError::RWError(e));
            },
        };
        self.breakpoint_to_value.insert(addr, value);
        Ok(())
    }

    /// Resume the tracee and block until its next stop or termination.
    /// Breakpoint entries are neither consulted nor restored.
    pub fn cont(&self) -> (r: Result<(), ContError>)
        requires
            self.attached(),
        ensures
            r matches Err(e) ==> e == ContError::ContError(
                RawContError::RawContError(self.pid()),
            ),
            P::deterministic() ==> r is Ok,
    {
        match self.process.cont() {
            Ok(()) => Ok(()),
            Err(e) => Err(ContError::ContError(e)),
        }
    }

    /// Capture a snapshot of the target: registers plus the stack and
    /// instruction-memory windows.  A snapshot comes back only if every
    /// read in both windows succeeded; the first failing read aborts the
    /// capture and its address is reported.
    pub fn get_info(&self) -> (r: Result<ProcessInfo, GetInfoError>)
        requires
            self.attached(),
        ensures
            r matches Ok(info) ==> info.wf(),
            P::deterministic() ==> match r {
                Ok(info) => capture_ok(self.mem(), self.regs(), info),
                Err(GetInfoError::GetInfoError(e)) => capture_err(self.mem(), self.regs(), self.regs_available(), e),
            },
            P::deterministic() ==> (r is Ok <==> self.regs_available() && window_readable(
                self.mem(),
                self.regs().rsp,
                STACKLEN as int,
            ) && window_readable(self.mem(), self.regs().rip, TEXTLEN as int)),
    {
        match self.process.get_info() {
            Ok(info) => Ok(info),
            Err(e) => Err(GetInfoError::GetInfoError(e)),
        }
    }

    /// End the session: stop tracing and leave the process running
    /// independently.  Patched breakpoint bytes are not restored, and the
    /// table keeps its (now stale) entries.
    pub fn detach(&mut self) -> (r: Result<(), DetachError>)
        requires
            old(self).attached(),
        ensures
            final(self).pid() == old(self).pid(),
            final(self).owns_child() == old(self).owns_child(),
            final(self).table() == old(self).table(),
            final(self).mem() == old(self).mem(),
            final(self).regs() == old(self).regs(),
            r is Ok ==> !final(self).attached(),
            r matches Err(e) ==> final(self).attached() && e == DetachError::DetachError(
                RawDetachError::RawDetachError(old(self).pid()),
            ),
            P::deterministic() ==> r is Ok,
    {
        match self.process.detach() {
            Ok(()) => Ok(()),
            Err(e) => Err(DetachError::DetachError(e)),
        }
    }

    /// Whether the session still controls its tracee; false once `detach`
    /// succeeded.  A caller outside the verifier must test this before any
    /// further verb: use after detach is a usage error.
    pub fn is_attached(&self) -> (r: bool)
        ensures
            r == self.attached(),
    {
        self.process.is_attached()
    }

    /// The original word recorded for a planted breakpoint, or nothing
    /// where no breakpoint was ever planted at `addr`.
    pub fn breakpoint_original(&self, addr: u64) -> (r: Option<u64>)
        ensures
            r == if self.table().contains_key(addr) {
                Some(self.table()[addr])
            } else {
                None::<u64>
            },
    {
        match self.breakpoint_to_value.get(&addr) {
            Some(w) => Some(*w),
            None => None,
        }
    }

    /// The target handle, for direct inspection of the backend's state.
    pub fn target(&self) -> (r: &P)
        ensures
            *r == self.proc(),
            r.attached() == self.attached(),
            r.pid() == self.pid(),
            r.mem() == self.mem(),
            r.regs() == self.regs(),
    {
        &self.process
    }
}

/// Law: planting a breakpoint at a readable address `a` puts the trap
/// opcode in the low byte of the word at `a`, keeps that word's upper 7
/// bytes bit for bit, and leaves the word at every other address untouched.
/// Interleaved insertions at other addresses therefore never disturb `a`.
pub proof fn lemma_insert_break_plants_trap(mem: Map<u64, u64>, a: u64)
    requires
        mem.contains_key(a),
    ensures
        insert_step_mem(mem, a).contains_key(a),
        insert_step_mem(mem, a)[a] & 0xff == TRAP_OPCODE,
        insert_step_mem(mem, a)[a] >> 8 == mem[a] >> 8,
        forall|b: u64|
            b != a && mem.contains_key(b) ==> insert_step_mem(mem, a).contains_key(b)
                && insert_step_mem(mem, a)[b] == mem[b],
{
    crate::process::lemma_patch_word_bits(mem[a], TRAP_OPCODE);
}

/// Law (documents current behavior, a known defect, not the desired
/// design): planting twice at the same address without an intervening
/// restore discards the originally recorded word.  After the second
/// insertion the table holds the once-patched word, which differs from the
/// pre-insertion word whenever that word's low byte was not already the
/// trap opcode — so the original byte sequence can no longer be recovered
/// from the table.
pub proof fn lemma_reinsert_discards_original(mem: Map<u64, u64>, tab: Map<u64, u64>, a: u64)
    requires
        mem.contains_key(a),
        mem[a] & 0xff != TRAP_OPCODE,
    ensures
        ({
            let mem1 = insert_step_mem(mem, a);
            let tab1 = insert_step_table(mem, tab, a);
            let tab2 = insert_step_table(mem1, tab1, a);
            &&& tab1[a] == mem[a]
            &&& tab2[a] == patch_word(mem[a], TRAP_OPCODE)
            &&& tab2[a] != mem[a]
        }),
{
    crate::process::lemma_patch_word_changes(mem[a], TRAP_OPCODE);
}

} // verus!
