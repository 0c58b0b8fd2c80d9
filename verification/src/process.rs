//! The tracee abstraction: one attached process, controlled through a
//! narrow, fallible kernel tracing interface.
//!
//! `Process` is polymorphic over the tracing backend, so that a simulated
//! backend can stand in for the kernel facility deterministically.  Each
//! backend carries a model: its pid, whether it is still attached, a map of
//! the readable words of target memory, and a register set.  A backend whose
//! model is exact (`deterministic()`) promises the outcome of every
//! operation from the model alone; a kernel-backed one promises only what
//! holds of every outcome.

use vstd::prelude::*;

use crate::error::{RawAttachError, RawContError, RawDetachError, RawGetInfoError,
    RawRWMemoryError};
use crate::process_info::{ProcessInfo, Regs, regs_zero, win_addr, window_of, window_readable,
    STACKLEN, TEXTLEN};

verus! {

/// The word at `addr` after a patch: the original word `w` with its low
/// byte replaced by `b` (for `b` below 256, all 7 higher bytes are kept
/// bit for bit).
pub open spec fn patch_word(w: u64, b: u64) -> u64 {
    (w & 0xffff_ffff_ffff_ff00) | b
}

/// A patched word carries `b` in its low byte and the original word's
/// upper 7 bytes, unchanged, above it.
pub proof fn lemma_patch_word_bits(w: u64, b: u64)
    requires
        b < 256,
    ensures
        patch_word(w, b) & 0xff == b,
        patch_word(w, b) >> 8 == w >> 8,
{
    assert(((w & 0xffff_ffff_ffff_ff00) | b) & 0xff == b) by (bit_vector)
        requires
            b < 256,
    ;
    assert(((w & 0xffff_ffff_ffff_ff00) | b) >> 8 == w >> 8) by (bit_vector)
        requires
            b < 256,
    ;
}

/// Patching a word whose low byte already differs from `b` changes it.
pub proof fn lemma_patch_word_changes(w: u64, b: u64)
    requires
        b < 256,
        w & 0xff != b,
    ensures
        patch_word(w, b) != w,
{
    assert((w & 0xffff_ffff_ffff_ff00) | b != w) by (bit_vector)
        requires
            b < 256,
            w & 0xff != b,
    ;
}

/// Computes `patch_word`: replaces the low byte of `w` by `b`, keeping the
/// 7 higher bytes.
pub fn patched(w: u64, b: u64) -> (r: u64)
    ensures
        r == patch_word(w, b),
{
    (w & 0xffff_ffff_ffff_ff00) | b
}

/// `a` is the address of the first failing read of the window of `n` words
/// starting at `base`: every window address before it is readable, `a` is
/// not.
pub open spec fn first_window_failure(mem: Map<u64, u64>, base: u64, n: int, a: u64) -> bool {
    exists|k: int|
        0 <= k < n && a == win_addr(base, k) && !mem.contains_key(#[trigger] win_addr(base, k))
            && (forall|j: int| 0 <= j < k ==> mem.contains_key(#[trigger] win_addr(base, j)))
}

/// Law: a window has at most one first failing read, so the address that a
/// failed capture reports is determined by the target's readable memory
/// and the window base alone.
pub proof fn lemma_first_window_failure_unique(
    mem: Map<u64, u64>,
    base: u64,
    n: int,
    a1: u64,
    a2: u64,
)
    requires
        first_window_failure(mem, base, n, a1),
        first_window_failure(mem, base, n, a2),
    ensures
        a1 == a2,
{
    let k1 = choose|k: int|
        0 <= k < n && a1 == win_addr(base, k) && !mem.contains_key(#[trigger] win_addr(base, k))
            && (forall|j: int| 0 <= j < k ==> mem.contains_key(#[trigger] win_addr(base, j)));
    let k2 = choose|k: int|
        0 <= k < n && a2 == win_addr(base, k) && !mem.contains_key(#[trigger] win_addr(base, k))
            && (forall|j: int| 0 <= j < k ==> mem.contains_key(#[trigger] win_addr(base, j)));
    if k1 < k2 {
        assert(mem.contains_key(win_addr(base, k1)));
    }
    if k2 < k1 {
        assert(mem.contains_key(win_addr(base, k2)));
    }
}

/// What a successful capture returns on a target whose readable memory is
/// `mem` and whose registers are `regs`: the reported registers are the
/// target's, and each window pairs its addresses with the words `mem`
/// holds there.
pub open spec fn capture_ok(mem: Map<u64, u64>, regs: Regs, info: ProcessInfo) -> bool {
    &&& info.regs == regs
    &&& window_of(mem, regs.rsp, STACKLEN as int, info.stack@)
    &&& window_of(mem, regs.rip, TEXTLEN as int, info.text@)
}

/// What a failed capture reports on such a target: a register failure
/// exactly when the register fetch is refused (`regs_ok` false), before
/// any window is read; a stack failure carries the address of the first
/// unreadable stack-window word; a text failure carries the address of the
/// first unreadable text-window word, the whole stack window having been
/// readable.
pub open spec fn capture_err(mem: Map<u64, u64>, regs: Regs, regs_ok: bool, e: RawGetInfoError) -> bool {
    match e {
        RawGetInfoError::GetRegsError => !regs_ok,
        RawGetInfoError::ReadStackMemoryError(a) => regs_ok && first_window_failure(
            mem,
            regs.rsp,
            STACKLEN as int,
            a,
        ),
        RawGetInfoError::ReadTextMemoryError(a) => regs_ok && window_readable(
            mem,
            regs.rsp,
            STACKLEN as int,
        ) && first_window_failure(mem, regs.rip, TEXTLEN as int, a),
    }
}

/// One attached tracee, polymorphic over the tracing backend.
///
/// Every operation but the two constructors demands an attached handle, so
/// use after `detach` is a usage error that verified callers cannot commit.
pub trait Process: Sized {
    /// Whether this backend's model is exact: the outcome of every
    /// operation is a function of the model.  True of a simulated backend;
    /// false of one backed by a real kernel, whose outcomes depend on the
    /// state of the machine.
    spec fn deterministic() -> bool;

    /// The identifier of the traced process.
    spec fn pid(&self) -> i32;

    /// Whether the handle still controls the tracee (turns false on a
    /// successful detach).
    spec fn attached(&self) -> bool;

    /// Whether this handle owns a child process spawned for it (absent
    /// when it attached to a pre-existing pid).
    spec fn owns_child(&self) -> bool;

    /// Model of the readable words of target memory, by address.
    spec fn mem(&self) -> Map<u64, u64>;

    /// Model of the target's register set.
    spec fn regs(&self) -> Regs;

    /// Model of the addresses whose word can be read but not written: the
    /// kernel rejects the write.  Empty for a kernel-backed handle, which
    /// cannot know this of a live address space.
    spec fn write_protected(&self) -> Set<u64>;

    /// Whether a register fetch succeeds on this target.
    spec fn regs_available(&self) -> bool;

    /// Whether the handle still controls its tracee, for callers outside
    /// the verifier, which must test this before any further operation.
    fn is_attached(&self) -> (r: bool)
        ensures
            r == self.attached(),
    ;

    /// Attach to `child_pid`, a process the caller just spawned; the
    /// resulting handle owns that child.
    fn new_and_attach(child_pid: i32) -> (r: Result<Self, RawAttachError>)
        ensures
            r matches Ok(p) ==> p.attached() && p.pid() == child_pid && p.owns_child(),
            r matches Err(e) ==> e == RawAttachError::RawAttachError(child_pid),
            Self::deterministic() ==> {
                &&& (r is Ok <==> child_pid > 0)
                &&& (r matches Ok(p) ==> p.mem() == Map::<u64, u64>::empty() && p.regs()
                    == regs_zero() && p.write_protected() == Set::<u64>::empty()
                    && p.regs_available())
            },
    ;

    /// Attach to the already-running process `pid`, without spawning.
    fn attach(pid: i32) -> (r: Result<Self, RawAttachError>)
        ensures
            r matches Ok(p) ==> p.attached() && p.pid() == pid && !p.owns_child(),
            r matches Err(e) ==> e == RawAttachError::RawAttachError(pid),
            Self::deterministic() ==> {
                &&& (r is Ok <==> pid > 0)
                &&& (r matches Ok(p) ==> p.mem() == Map::<u64, u64>::empty() && p.regs()
                    == regs_zero() && p.write_protected() == Set::<u64>::empty()
                    && p.regs_available())
            },
    ;

    /// Read the word at `addr`, replace its low byte by `value`, write the
    /// result back, and return the original word unmodified.  On a rejected
    /// read or write, target memory is left as it was.
    fn rewrite_memory(&mut self, addr: u64, value: u64) -> (r: Result<u64, RawRWMemoryError>)
        requires
            old(self).attached(),
            value < 256,
        ensures
            final(self).attached(),
            final(self).pid() == old(self).pid(),
            final(self).owns_child() == old(self).owns_child(),
            final(self).regs() == old(self).regs(),
            final(self).write_protected() == old(self).write_protected(),
            final(self).regs_available() == old(self).regs_available(),
            r matches Ok(orig) ==> final(self).mem() == old(self).mem().insert(
                addr,
                patch_word(orig, value),
            ),
            r is Err ==> final(self).mem() == old(self).mem(),
            r matches Err(RawRWMemoryError::ReadMemoryError(a)) ==> a == addr,
            r matches Err(RawRWMemoryError::WriteMemoryError(a, v)) ==> a == addr
                && (exists|w: u64| v == patch_word(w, value)),
            Self::deterministic() ==> {
                &&& (r is Ok <==> old(self).mem().contains_key(addr) && !old(
                    self,
                ).write_protected().contains(addr))
                &&& (r matches Ok(orig) ==> orig == old(self).mem()[addr])
                &&& (r matches Err(e) ==> e == (if !old(self).mem().contains_key(addr) {
                    RawRWMemoryError::ReadMemoryError(addr)
                } else {
                    RawRWMemoryError::WriteMemoryError(
                        addr,
                        patch_word(old(self).mem()[addr], value),
                    )
                }))
            },
    ;

    /// Resume the tracee and block until its next stop or termination.
    fn cont(&self) -> (r: Result<(), RawContError>)
        requires
            self.attached(),
        ensures
            r matches Err(e) ==> e == RawContError::RawContError(self.pid()),
            Self::deterministic() ==> r is Ok,
    ;

    /// Capture the register set and the two memory windows.  A snapshot
    /// comes back only if every read in both windows succeeded; the first
    /// failing read aborts the capture and its address is reported.
    fn get_info(&self) -> (r: Result<ProcessInfo, RawGetInfoError>)
        requires
            self.attached(),
        ensures
            r matches Ok(info) ==> info.wf(),
            Self::deterministic() ==> match r {
                Ok(info) => capture_ok(self.mem(), self.regs(), info),
                Err(e) => capture_err(self.mem(), self.regs(), self.regs_available(), e),
            },
            Self::deterministic() ==> (r is Ok <==> self.regs_available() && window_readable(
                self.mem(),
                self.regs().rsp,
                STACKLEN as int,
            ) && window_readable(self.mem(), self.regs().rip, TEXTLEN as int)),
    ;

    /// Stop tracing, leaving the process running independently.  Planted
    /// breakpoint bytes are not restored.  On success the handle no longer
    /// controls the tracee and no further operation on it is allowed.
    fn detach(&mut self) -> (r: Result<(), RawDetachError>)
        requires
            old(self).attached(),
        ensures
            final(self).pid() == old(self).pid(),
            final(self).owns_child() == old(self).owns_child(),
            final(self).mem() == old(self).mem(),
            final(self).regs() == old(self).regs(),
            final(self).write_protected() == old(self).write_protected(),
            final(self).regs_available() == old(self).regs_available(),
            r is Ok ==> !final(self).attached(),
            r matches Err(e) ==> final(self).attached() && e == RawDetachError::RawDetachError(
                old(self).pid(),
            ),
            Self::deterministic() ==> r is Ok,
    ;
}

} // verus!
