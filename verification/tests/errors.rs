use zoo_debugger::error::{AllError, AttachError, ContError, DetachError, GetInfoError,
    InsertBreakError, RawAttachError, RawContError, RawDetachError, RawGetInfoError,
    RawRWMemoryError};
use zoo_debugger::process::patched;

#[test]
fn raw_error_constructors_carry_their_payloads() {
    assert_eq!(
        RawAttachError::fail_raw_attach(42),
        RawAttachError::RawAttachError(42)
    );
    assert_eq!(
        RawRWMemoryError::read_error(0x1000),
        RawRWMemoryError::ReadMemoryError(0x1000)
    );
    assert_eq!(
        RawRWMemoryError::write_error(0x1000, 0xcc),
        RawRWMemoryError::WriteMemoryError(0x1000, 0xcc)
    );
    assert_eq!(RawContError::fail_raw_cont(42), RawContError::RawContError(42));
    assert_eq!(RawGetInfoError::fail_get_regs(), RawGetInfoError::GetRegsError);
    assert_eq!(
        RawGetInfoError::fail_read_stack(0x2000),
        RawGetInfoError::ReadStackMemoryError(0x2000)
    );
    assert_eq!(
        RawGetInfoError::fail_read_text(0x3000),
        RawGetInfoError::ReadTextMemoryError(0x3000)
    );
    assert_eq!(RawDetachError::fail_detach(42), RawDetachError::RawDetachError(42));
}

#[test]
fn operation_errors_wrap_their_raw_causes() {
    let a = AttachError::from(RawAttachError::fail_raw_attach(1));
    assert_eq!(a, AttachError::AttachError(RawAttachError::RawAttachError(1)));

    let i = InsertBreakError::from(RawRWMemoryError::read_error(2));
    assert_eq!(i, InsertBreakError::RWError(RawRWMemoryError::ReadMemoryError(2)));

    let c = ContError::from(RawContError::fail_raw_cont(3));
    assert_eq!(c, ContError::ContError(RawContError::RawContError(3)));

    let g = GetInfoError::from(RawGetInfoError::fail_get_regs());
    assert_eq!(g, GetInfoError::GetInfoError(RawGetInfoError::GetRegsError));

    let d = DetachError::from(RawDetachError::fail_detach(4));
    assert_eq!(d, DetachError::DetachError(RawDetachError::RawDetachError(4)));
}

#[test]
fn all_error_aggregates_each_operation_failure() {
    let a = AttachError::AttachError(RawAttachError::RawAttachError(1));
    assert_eq!(AllError::from(a), AllError::Attacher(a));

    let i = InsertBreakError::RWError(RawRWMemoryError::ReadMemoryError(2));
    assert_eq!(AllError::from(i), AllError::InsertBreaker(i));

    let c = ContError::ContError(RawContError::RawContError(3));
    assert_eq!(AllError::from(c), AllError::Conter(c));

    let g = GetInfoError::GetInfoError(RawGetInfoError::GetRegsError);
    assert_eq!(AllError::from(g), AllError::GetInfoer(g));

    let d = DetachError::DetachError(RawDetachError::RawDetachError(4));
    assert_eq!(AllError::from(d), AllError::Detacher(d));
}

#[test]
fn patched_replaces_only_the_low_byte() {
    assert_eq!(patched(0xffff_ffff_ffff_ffff, 0xcc), 0xffff_ffff_ffff_ffcc);
    assert_eq!(patched(0, 0xcc), 0xcc);
    assert_eq!(patched(0x0102_0304_0506_0708, 0x00), 0x0102_0304_0506_0700);
    assert_eq!(patched(0x0102_0304_0506_07cc, 0xcc), 0x0102_0304_0506_07cc);
}
