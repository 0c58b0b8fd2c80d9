use zoo_debugger::debug_service::DebugService;
use zoo_debugger::error::{AttachError, GetInfoError, RawAttachError, RawGetInfoError,
    RawRWMemoryError, InsertBreakError};
use zoo_debugger::process::Process;
use zoo_debugger::process_info::{Regs, STACKLEN, TEXTLEN};
use zoo_debugger::sim::SimProcess;

fn simulated_session(pid: i32) -> DebugService<SimProcess> {
    let sim = SimProcess::attach(pid).expect("positive pid must attach");
    DebugService::from_target(sim)
}

#[test]
fn insert_break_plants_trap_and_preserves_upper_bytes() {
    let mut sim = SimProcess::attach(7).unwrap();
    sim.map_word(0x1000, 0x1122_3344_5566_7788);
    sim.map_word(0x2000, 0xaabb_ccdd_eeff_0011);
    let mut session = DebugService::from_target(sim);

    session.insert_break(0x1000).unwrap();
    assert_eq!(session.target().peek(0x1000), Some(0x1122_3344_5566_77cc));

    // an insertion elsewhere leaves the word at 0x1000 untouched
    session.insert_break(0x2000).unwrap();
    assert_eq!(session.target().peek(0x1000), Some(0x1122_3344_5566_77cc));
    assert_eq!(session.target().peek(0x2000), Some(0xaabb_ccdd_eeff_00cc));
    assert_eq!(session.breakpoint_original(0x1000), Some(0x1122_3344_5566_7788));
    assert_eq!(session.breakpoint_original(0x2000), Some(0xaabb_ccdd_eeff_0011));
}

#[test]
fn reinsert_discards_original_word() {
    // Documents a known defect of the current design: re-planting at an
    // armed address overwrites the recorded original word with the
    // once-patched word, so the pre-insertion bytes can no longer be
    // restored from the table.
    let mut sim = SimProcess::attach(7).unwrap();
    sim.map_word(0x1000, 0x1122_3344_5566_7788);
    let mut session = DebugService::from_target(sim);

    session.insert_break(0x1000).unwrap();
    assert_eq!(session.breakpoint_original(0x1000), Some(0x1122_3344_5566_7788));

    session.insert_break(0x1000).unwrap();
    assert_eq!(session.breakpoint_original(0x1000), Some(0x1122_3344_5566_77cc));
    assert_ne!(session.breakpoint_original(0x1000), Some(0x1122_3344_5566_7788));
}

#[test]
fn insert_break_on_unreadable_address_reports_read_failure() {
    let mut session = simulated_session(7);
    let r = session.insert_break(0x5000);
    assert_eq!(
        r,
        Err(InsertBreakError::RWError(RawRWMemoryError::ReadMemoryError(0x5000)))
    );
    assert_eq!(session.breakpoint_original(0x5000), None);
}

#[test]
fn insert_break_on_write_protected_address_reports_write_failure() {
    let mut sim = SimProcess::attach(7).unwrap();
    sim.map_word(0x1000, 0x1122_3344_5566_7788);
    sim.protect_word(0x1000);
    let mut session = DebugService::from_target(sim);

    let r = session.insert_break(0x1000);
    // the rejected write carries the word the write attempted to place
    assert_eq!(
        r,
        Err(InsertBreakError::RWError(RawRWMemoryError::WriteMemoryError(
            0x1000,
            0x1122_3344_5566_77cc,
        )))
    );
    // neither target memory nor the table changed
    assert_eq!(session.target().peek(0x1000), Some(0x1122_3344_5566_7788));
    assert_eq!(session.breakpoint_original(0x1000), None);
}

#[test]
fn capture_fails_when_register_fetch_is_rejected() {
    let mut sim = SimProcess::attach(9).unwrap();
    sim.deny_regs();
    let session = DebugService::from_target(sim);

    let r = session.get_info();
    assert_eq!(
        r.err(),
        Some(GetInfoError::GetInfoError(RawGetInfoError::GetRegsError))
    );
}

#[test]
fn snapshot_windows_start_at_reported_pointers_with_stride_8() {
    let mut sim = SimProcess::attach(9).unwrap();
    let mut regs = Regs::zeroed();
    regs.rsp = 0x7000;
    regs.rip = 0x40_0000;
    sim.set_regs(regs);
    for k in 0..STACKLEN as u64 {
        sim.map_word(0x7000 + 8 * k, 100 + k);
    }
    for k in 0..TEXTLEN as u64 {
        sim.map_word(0x40_0000 + 8 * k, 200 + k);
    }
    let session = DebugService::from_target(sim);

    let info = session.get_info().unwrap();
    assert_eq!(info.regs.rsp, 0x7000);
    assert_eq!(info.regs.rip, 0x40_0000);
    assert_eq!(info.stack.len(), STACKLEN);
    assert_eq!(info.text.len(), TEXTLEN);
    for k in 0..STACKLEN as u64 {
        assert_eq!(info.stack[k as usize], (0x7000 + 8 * k, 100 + k));
    }
    for k in 0..TEXTLEN as u64 {
        assert_eq!(info.text[k as usize], (0x40_0000 + 8 * k, 200 + k));
    }
}

#[test]
fn capture_fails_on_kth_stack_read_with_that_address() {
    let mut sim = SimProcess::attach(9).unwrap();
    let mut regs = Regs::zeroed();
    regs.rsp = 0x7000;
    regs.rip = 0x40_0000;
    sim.set_regs(regs);
    // the third stack word (k = 2) is unmapped; no partial snapshot comes back
    sim.map_word(0x7000, 1);
    sim.map_word(0x7008, 2);
    sim.map_word(0x7018, 4);
    sim.map_word(0x7020, 5);
    let session = DebugService::from_target(sim);

    let r = session.get_info();
    assert_eq!(
        r.err(),
        Some(GetInfoError::GetInfoError(RawGetInfoError::ReadStackMemoryError(0x7010)))
    );
}

#[test]
fn capture_fails_on_kth_text_read_with_that_address() {
    let mut sim = SimProcess::attach(9).unwrap();
    let mut regs = Regs::zeroed();
    regs.rsp = 0x7000;
    regs.rip = 0x40_0000;
    sim.set_regs(regs);
    for k in 0..STACKLEN as u64 {
        sim.map_word(0x7000 + 8 * k, 100 + k);
    }
    // the text window fails on its second word (k = 1)
    sim.map_word(0x40_0000, 7);
    let session = DebugService::from_target(sim);

    let r = session.get_info();
    assert_eq!(
        r.err(),
        Some(GetInfoError::GetInfoError(RawGetInfoError::ReadTextMemoryError(0x40_0008)))
    );
}

#[test]
fn capture_windows_wrap_at_the_top_of_the_address_space() {
    let mut sim = SimProcess::attach(9).unwrap();
    let mut regs = Regs::zeroed();
    regs.rsp = u64::MAX - 15;
    regs.rip = 0x40_0000;
    sim.set_regs(regs);
    let stack_addrs = [u64::MAX - 15, u64::MAX - 7, 0, 8, 16];
    for (k, a) in stack_addrs.iter().enumerate() {
        sim.map_word(*a, 300 + k as u64);
    }
    for k in 0..TEXTLEN as u64 {
        sim.map_word(0x40_0000 + 8 * k, 400 + k);
    }
    let session = DebugService::from_target(sim);

    let info = session.get_info().unwrap();
    for (k, a) in stack_addrs.iter().enumerate() {
        assert_eq!(info.stack[k], (*a, 300 + k as u64));
    }
}

#[test]
fn rejected_attach_wraps_the_pid() {
    let r = DebugService::<SimProcess>::attach(-3);
    assert_eq!(
        r.err().unwrap(),
        AttachError::AttachError(RawAttachError::RawAttachError(-3))
    );
    let r = DebugService::<SimProcess>::attach(0);
    assert_eq!(
        r.err().unwrap(),
        AttachError::AttachError(RawAttachError::RawAttachError(0))
    );
}

#[test]
fn rejected_spawn_attach_wraps_the_child_pid() {
    let r = DebugService::<SimProcess>::new_and_attach(0);
    assert_eq!(
        r.err().unwrap(),
        AttachError::AttachError(RawAttachError::RawAttachError(0))
    );
    let ok = DebugService::<SimProcess>::new_and_attach(55);
    assert!(ok.is_ok());
}

#[test]
fn end_to_end_session() {
    // attach to pid 4242 (simulated success), plant a breakpoint, resume,
    // capture a snapshot, detach; the stale table entry survives detach.
    let mut sim = SimProcess::attach(4242).unwrap();
    let mut regs = Regs::zeroed();
    regs.rsp = 0x7fff_0000;
    regs.rip = 0x40_1000;
    sim.set_regs(regs);
    for k in 0..STACKLEN as u64 {
        sim.map_word(0x7fff_0000 + 8 * k, 0x500 + k);
    }
    for k in 0..TEXTLEN as u64 {
        sim.map_word(0x40_1000 + 8 * k, 0x90_90_90_90_90_90_90_90 + k);
    }
    let mut session = DebugService::from_target(sim);

    session.insert_break(0x40_1000).unwrap();
    assert_eq!(
        session.breakpoint_original(0x40_1000),
        Some(0x9090_9090_9090_9090)
    );

    session.cont().unwrap();

    let info = session.get_info().unwrap();
    assert_eq!(info.stack.len(), 5);
    assert_eq!(info.text.len(), 5);
    // the planted trap byte shows up in the first text-window word
    assert_eq!(info.text[0], (0x40_1000, 0x9090_9090_9090_90cc));

    assert!(session.is_attached());
    session.detach().unwrap();
    assert!(!session.is_attached());
    assert_eq!(
        session.breakpoint_original(0x40_1000),
        Some(0x9090_9090_9090_9090)
    );
}

#[test]
fn peek_on_unmapped_address_is_none() {
    let session = simulated_session(7);
    assert_eq!(session.target().peek(0xdead_beef), None);
}
