use seccomp::action::Action;
use seccomp::raw::{
    SCMP_ACT_ALLOW, SCMP_ACT_KILL_PROCESS, SCMP_ACT_KILL_THREAD, SCMP_ACT_LOG, SCMP_ACT_NOTIFY,
    SCMP_ACT_TRAP,
};

#[test]
fn action_codes_match_libseccomp() {
    assert_eq!(u32::from(Action::KillProcess), 0x8000_0000);
    assert_eq!(u32::from(Action::KillThread), 0x0000_0000);
    assert_eq!(u32::from(Action::Trap), 0x0003_0000);
    assert_eq!(u32::from(Action::Log), 0x7ffc_0000);
    assert_eq!(u32::from(Action::Allow), 0x7fff_0000);
    assert_eq!(u32::from(Action::Notify), 0x7fc0_0000);
    assert_eq!(Action::KillProcess.code(), SCMP_ACT_KILL_PROCESS);
    assert_eq!(Action::KillThread.code(), SCMP_ACT_KILL_THREAD);
    assert_eq!(Action::Trap.code(), SCMP_ACT_TRAP);
    assert_eq!(Action::Log.code(), SCMP_ACT_LOG);
    assert_eq!(Action::Allow.code(), SCMP_ACT_ALLOW);
    assert_eq!(Action::Notify.code(), SCMP_ACT_NOTIFY);
}

#[test]
fn errno_action_carries_errno_in_low_bits() {
    let code = u32::from(Action::Errno(1));
    assert_eq!(code, 0x0005_0001);
    assert_eq!(code >> 16, 5);
    assert_eq!(code & 0xffff, 1);
    assert_eq!(u32::from(Action::Errno(0)), 0x0005_0000);
    assert_eq!(u32::from(Action::Errno(0xffff)), 0x0005_ffff);
    assert_eq!(u32::from(Action::Errno(38)), 0x0005_0026);
}

#[test]
fn errno_action_keeps_only_sixteen_bits() {
    assert_eq!(u32::from(Action::Errno(-1)), 0x0005_ffff);
    assert_eq!(u32::from(Action::Errno(0x1_0001)), 0x0005_0001);
    assert_eq!(u32::from(Action::Errno(i32::MIN)), 0x0005_0000);
}

#[test]
fn distinct_actions_have_distinct_codes() {
    let actions = [
        Action::KillProcess,
        Action::KillThread,
        Action::Trap,
        Action::Log,
        Action::Allow,
        Action::Notify,
        Action::Errno(0),
        Action::Errno(1),
        Action::Errno(0xffff),
    ];
    for (i, a) in actions.iter().enumerate() {
        for (j, b) in actions.iter().enumerate() {
            assert_eq!(i == j, u32::from(*a) == u32::from(*b));
        }
    }
}

#[test]
fn action_display_names() {
    assert_eq!(Action::KillProcess.to_string(), "Kill Process");
    assert_eq!(Action::KillThread.to_string(), "Kill Thread");
    assert_eq!(Action::Trap.to_string(), "Trap");
    assert_eq!(Action::Log.to_string(), "Log");
    assert_eq!(Action::Allow.to_string(), "Allow");
    assert_eq!(Action::Notify.to_string(), "Notify");
}

#[test]
fn action_display_errno_in_decimal() {
    assert_eq!(Action::Errno(1).to_string(), "1");
    assert_eq!(Action::Errno(0).to_string(), "0");
    assert_eq!(Action::Errno(-13).to_string(), "-13");
    assert_eq!(Action::Errno(i32::MIN).to_string(), "-2147483648");
    assert_eq!(Action::Errno(i32::MAX).to_string(), "2147483647");
}
