use zoo_debugger::debug_service::DebugService;
use zoo_debugger::error::{AttachError, RawAttachError};
use zoo_debugger::process::Process;
use zoo_debugger::unix::UnixProcess;

#[test]
fn kernel_rejects_attach_to_nonexistent_pid() {
    // pids this large do not exist on Linux, so PTRACE_ATTACH is rejected
    // and the failure wraps the pid that was asked for.
    let r = DebugService::<UnixProcess>::attach(i32::MAX);
    assert_eq!(
        r.err().unwrap(),
        AttachError::AttachError(RawAttachError::RawAttachError(i32::MAX))
    );
}

#[test]
fn kernel_rejects_spawn_attach_to_nonexistent_child() {
    let r = UnixProcess::new_and_attach(i32::MAX - 1);
    assert_eq!(
        r.err().unwrap(),
        RawAttachError::RawAttachError(i32::MAX - 1)
    );
}
