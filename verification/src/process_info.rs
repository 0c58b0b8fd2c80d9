//! Immutable capture of a target's state: the general-purpose register set
//! plus fixed-size windows of stack memory and instruction memory, each an
//! ordered sequence of (address, 8-byte word) pairs.

use vstd::prelude::*;

verus! {

/// Number of 8-byte words captured from the top of the stack.
pub const STACKLEN: usize = 5;

/// Number of 8-byte words captured from the instruction pointer forward.
pub const TEXTLEN: usize = 5;

/// General-purpose register set of the target at capture time.  Registers
/// are plain 64-bit values; the kernel facility that fills them is external.
#[derive(Debug, Clone, Copy, PartialEq, Eq, Structural)]
pub struct Regs {
    pub rax: u64,
    pub rbx: u64,
    pub rcx: u64,
    pub rdx: u64,
    pub rsi: u64,
    pub rdi: u64,
    pub rbp: u64,
    pub rsp: u64,
    pub r8: u64,
    pub r9: u64,
    pub r10: u64,
    pub r11: u64,
    pub r12: u64,
    pub r13: u64,
    pub r14: u64,
    pub r15: u64,
    pub rip: u64,
    pub eflags: u64,
}

/// The all-zero register set, the state of a freshly simulated target.
pub open spec fn regs_zero() -> Regs {
    Regs {
        rax: 0,
        rbx: 0,
        rcx: 0,
        rdx: 0,
        rsi: 0,
        rdi: 0,
        rbp: 0,
        rsp: 0,
        r8: 0,
        r9: 0,
        r10: 0,
        r11: 0,
        r12: 0,
        r13: 0,
        r14: 0,
        r15: 0,
        rip: 0,
        eflags: 0,
    }
}

impl Regs {
    pub fn zeroed() -> (r: Regs)
        ensures
            r == regs_zero(),
    {
        Regs {
            rax: 0,
            rbx: 0,
            rcx: 0,
            rdx: 0,
            rsi: 0,
            rdi: 0,
            rbp: 0,
            rsp: 0,
            r8: 0,
            r9: 0,
            r10: 0,
            r11: 0,
            r12: 0,
            r13: 0,
            r14: 0,
            r15: 0,
            rip: 0,
            eflags: 0,
        }
    }
}

/// The address 8 bytes above `a` in a pointer-width address space; the
/// walk wraps at the top of the space, as pointer arithmetic does.
pub open spec fn addr_add8(a: u64) -> u64 {
    if a + 8 > u64::MAX {
        (a + 8 - 0x1_0000_0000_0000_0000) as u64
    } else {
        (a + 8) as u64
    }
}

/// The address of the `k`-th word of a capture window that starts at
/// `base`: the window advances by exactly 8 bytes per entry.
pub open spec fn win_addr(base: u64, k: int) -> u64
    decreases k,
{
    if k <= 0 {
        base
    } else {
        addr_add8(win_addr(base, k - 1))
    }
}

/// Every address of the window of `n` words starting at `base` is readable
/// in `mem` (the model of the target's readable memory).
pub open spec fn window_readable(mem: Map<u64, u64>, base: u64, n: int) -> bool {
    forall|k: int| 0 <= k < n ==> mem.contains_key(#[trigger] win_addr(base, k))
}

/// The pairs `w` form the window of `n` words starting at `base`, read
/// from `mem`: entry `k` pairs the `k`-th window address with the word
/// that `mem` holds there.
pub open spec fn window_of(mem: Map<u64, u64>, base: u64, n: int, w: Seq<(u64, u64)>) -> bool {
    &&& w.len() == n
    &&& forall|k: int|
        0 <= k < n ==> #[trigger] w[k] == (win_addr(base, k), mem[win_addr(base, k)])
}

/// An immutable snapshot of the target: registers plus the stack window and
/// the instruction-memory window, each a sequence of (address, word) pairs.
pub struct ProcessInfo {
    pub regs: Regs,
    pub stack: Vec<(u64, u64)>,
    pub text: Vec<(u64, u64)>,
}

impl ProcessInfo {
    /// Both windows have their configured fixed length, start exactly at
    /// the captured stack pointer and instruction pointer, and advance by
    /// 8 bytes per entry.
    pub open spec fn wf(&self) -> bool {
        &&& self.stack@.len() == STACKLEN
        &&& self.text@.len() == TEXTLEN
        &&& forall|k: int|
            0 <= k < STACKLEN ==> (#[trigger] self.stack@[k]).0 == win_addr(self.regs.rsp, k)
        &&& forall|k: int|
            0 <= k < TEXTLEN ==> (#[trigger] self.text@[k]).0 == win_addr(self.regs.rip, k)
    }

    pub fn new(regs: Regs, stack: Vec<(u64, u64)>, text: Vec<(u64, u64)>) -> (r: Self)
        ensures
            r.regs == regs,
            r.stack == stack,
            r.text == text,
    {
        ProcessInfo { regs, stack, text }
    }
}

} // verus!
