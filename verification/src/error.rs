//! Two-layered error taxonomy for the debugger core.
//!
//! Each public operation has an operation-level failure kind (which public
//! verb failed) wrapping a raw cause (what the kernel tracing facility
//! rejected, together with the pid, address or value involved).  `AllError`
//! aggregates the five operation-level kinds for callers that want one error
//! type across a whole session.

use vstd::prelude::*;

verus! {

/// Raw cause: the kernel rejected an attach request for this pid.
#[derive(Debug, Clone, Copy, PartialEq, Eq, Structural)]
pub enum RawAttachError {
    RawAttachError(i32),
}

impl RawAttachError {
    pub fn fail_raw_attach(pid: i32) -> (r: Self)
        ensures
            r == RawAttachError::RawAttachError(pid),
    {
        RawAttachError::RawAttachError(pid)
    }
}

/// Operation-level failure of `attach` / `new_and_attach`.
#[derive(Debug, Clone, Copy, PartialEq, Eq, Structural)]
pub enum AttachError {
    AttachError(RawAttachError),
}

impl From<RawAttachError> for AttachError {
    fn from(e: RawAttachError) -> (r: Self)
        ensures
            r == AttachError::AttachError(e),
    {
        AttachError::AttachError(e)
    }
}

impl vstd::std_specs::convert::FromSpecImpl<RawAttachError> for AttachError {
    open spec fn obeys_from_spec() -> bool {
        true
    }

    open spec fn from_spec(e: RawAttachError) -> Self {
        AttachError::AttachError(e)
    }
}

/// Raw cause: the kernel rejected a word read or a word write in the
/// target's address space.  A rejected write carries the value that the
/// write attempted to place at the address.
#[derive(Debug, Clone, Copy, PartialEq, Eq, Structural)]
pub enum RawRWMemoryError {
    WriteMemoryError(u64, u64),
    ReadMemoryError(u64),
}

impl RawRWMemoryError {
    pub fn write_error(addr: u64, value: u64) -> (r: Self)
        ensures
            r == RawRWMemoryError::WriteMemoryError(addr, value),
    {
        RawRWMemoryError::WriteMemoryError(addr, value)
    }

    pub fn read_error(addr: u64) -> (r: Self)
        ensures
            r == RawRWMemoryError::ReadMemoryError(addr),
    {
        RawRWMemoryError::ReadMemoryError(addr)
    }
}

/// Operation-level failure of `insert_break`.
#[derive(Debug, Clone, Copy, PartialEq, Eq, Structural)]
pub enum InsertBreakError {
    RWError(RawRWMemoryError),
}

impl From<RawRWMemoryError> for InsertBreakError {
    fn from(e: RawRWMemoryError) -> (r: Self)
        ensures
            r == InsertBreakError::RWError(e),
    {
        InsertBreakError::RWError(e)
    }
}

impl vstd::std_specs::convert::FromSpecImpl<RawRWMemoryError> for InsertBreakError {
    open spec fn obeys_from_spec() -> bool {
        true
    }

    open spec fn from_spec(e: RawRWMemoryError) -> Self {
        InsertBreakError::RWError(e)
    }
}

/// Raw cause: the kernel rejected a resume request for this pid.
#[derive(Debug, Clone, Copy, PartialEq, Eq, Structural)]
pub enum RawContError {
    RawContError(i32),
}

impl RawContError {
    pub fn fail_raw_cont(pid: i32) -> (r: Self)
        ensures
            r == RawContError::RawContError(pid),
    {
        RawContError::RawContError(pid)
    }
}

/// Operation-level failure of `cont`.
#[derive(Debug, Clone, Copy, PartialEq, Eq, Structural)]
pub enum ContError {
    ContError(RawContError),
}

impl From<RawContError> for ContError {
    fn from(e: RawContError) -> (r: Self)
        ensures
            r == ContError::ContError(e),
    {
        ContError::ContError(e)
    }
}

impl vstd::std_specs::convert::FromSpecImpl<RawContError> for ContError {
    open spec fn obeys_from_spec() -> bool {
        true
    }

    open spec fn from_spec(e: RawContError) -> Self {
        ContError::ContError(e)
    }
}

/// Raw cause of a failed state capture: the kernel rejected the register
/// fetch, or rejected one word read in the stack window or in the
/// instruction-memory window (carrying the failing address).
#[derive(Debug, Clone, Copy, PartialEq, Eq, Structural)]
pub enum RawGetInfoError {
    GetRegsError,
    ReadStackMemoryError(u64),
    ReadTextMemoryError(u64),
}

impl RawGetInfoError {
    pub fn fail_get_regs() -> (r: Self)
        ensures
            r == RawGetInfoError::GetRegsError,
    {
        RawGetInfoError::GetRegsError
    }

    pub fn fail_read_stack(addr: u64) -> (r: Self)
        ensures
            r == RawGetInfoError::ReadStackMemoryError(addr),
    {
        RawGetInfoError::ReadStackMemoryError(addr)
    }

    pub fn fail_read_text(addr: u64) -> (r: Self)
        ensures
            r == RawGetInfoError::ReadTextMemoryError(addr),
    {
        RawGetInfoError::ReadTextMemoryError(addr)
    }
}

/// Operation-level failure of `get_info`.
#[derive(Debug, Clone, Copy, PartialEq, Eq, Structural)]
pub enum GetInfoError {
    GetInfoError(RawGetInfoError),
}

impl From<RawGetInfoError> for GetInfoError {
    fn from(e: RawGetInfoError) -> (r: Self)
        ensures
            r == GetInfoError::GetInfoError(e),
    {
        GetInfoError::GetInfoError(e)
    }
}

impl vstd::std_specs::convert::FromSpecImpl<RawGetInfoError> for GetInfoError {
    open spec fn obeys_from_spec() -> bool {
        true
    }

    open spec fn from_spec(e: RawGetInfoError) -> Self {
        GetInfoError::GetInfoError(e)
    }
}

/// Raw cause: the kernel rejected a detach request for this pid.
#[derive(Debug, Clone, Copy, PartialEq, Eq, Structural)]
pub enum RawDetachError {
    RawDetachError(i32),
}

impl RawDetachError {
    pub fn fail_detach(pid: i32) -> (r: Self)
        ensures
            r == RawDetachError::RawDetachError(pid),
    {
        RawDetachError::RawDetachError(pid)
    }
}

/// Operation-level failure of `detach`.
#[derive(Debug, Clone, Copy, PartialEq, Eq, Structural)]
pub enum DetachError {
    DetachError(RawDetachError),
}

impl From<RawDetachError> for DetachError {
    fn from(e: RawDetachError) -> (r: Self)
        ensures
            r == DetachError::DetachError(e),
    {
        DetachError::DetachError(e)
    }
}

impl vstd::std_specs::convert::FromSpecImpl<RawDetachError> for DetachError {
    open spec fn obeys_from_spec() -> bool {
        true
    }

    open spec fn from_spec(e: RawDetachError) -> Self {
        DetachError::DetachError(e)
    }
}

/// Union of the five operation-level failures, one variant per public verb
/// of a debug session.
#[derive(Debug, Clone, Copy, PartialEq, Eq, Structural)]
pub enum AllError {
    Attacher(AttachError),
    InsertBreaker(InsertBreakError),
    Conter(ContError),
    GetInfoer(GetInfoError),
    Detacher(DetachError),
}

impl From<AttachError> for AllError {
    fn from(e: AttachError) -> (r: Self)
        ensures
            r == AllError::Attacher(e),
    {
        AllError::Attacher(e)
    }
}

impl vstd::std_specs::convert::FromSpecImpl<AttachError> for AllError {
    open spec fn obeys_from_spec() -> bool {
        true
    }

    open spec fn from_spec(e: AttachError) -> Self {
        AllError::Attacher(e)
    }
}

impl From<InsertBreakError> for AllError {
    fn from(e: InsertBreakError) -> (r: Self)
        ensures
            r == AllError::InsertBreaker(e),
    {
        AllError::InsertBreaker(e)
    }
}

impl vstd::std_specs::convert::FromSpecImpl<InsertBreakError> for AllError {
    open spec fn obeys_from_spec() -> bool {
        true
    }

    open spec fn from_spec(e: InsertBreakError) -> Self {
        AllError::InsertBreaker(e)
    }
}

impl From<ContError> for AllError {
    fn from(e: ContError) -> (r: Self)
        ensures
            r == AllError::Conter(e),
    {
        AllError::Conter(e)
    }
}

impl vstd::std_specs::convert::FromSpecImpl<ContError> for AllError {
    open spec fn obeys_from_spec() -> bool {
        true
    }

    open spec fn from_spec(e: ContError) -> Self {
        AllError::Conter(e)
    }
}

impl From<GetInfoError> for AllError {
    fn from(e: GetInfoError) -> (r: Self)
        ensures
            r == AllError::GetInfoer(e),
    {
        AllError::GetInfoer(e)
    }
}

impl vstd::std_specs::convert::FromSpecImpl<GetInfoError> for AllError {
    open spec fn obeys_from_spec() -> bool {
        true
    }

    open spec fn from_spec(e: GetInfoError) -> Self {
        AllError::GetInfoer(e)
    }
}

impl From<DetachError> for AllError {
    fn from(e: DetachError) -> (r: Self)
        ensures
            r == AllError::Detacher(e),
    {
        AllError::Detacher(e)
    }
}

impl vstd::std_specs::convert::FromSpecImpl<DetachError> for AllError {
    open spec fn obeys_from_spec() -> bool {
        true
    }

    open spec fn from_spec(e: DetachError) -> Self {
        AllError::Detacher(e)
    }
}

} // verus!
