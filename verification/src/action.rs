//! The action the kernel takes on a syscall.

use vstd::prelude::*;
use vstd::string::StringExecFns;

use crate::raw::{
    SCMP_ACT_ALLOW, SCMP_ACT_ERRNO, SCMP_ACT_KILL_PROCESS, SCMP_ACT_KILL_THREAD, SCMP_ACT_LOG,
    SCMP_ACT_NOTIFY, SCMP_ACT_TRAP,
};
use crate::text::{decimal, decimal_string};

verus! {

/// An action.
#[derive(Clone, Copy, Debug, PartialEq, Eq, Structural)]
pub enum Action {
    /// Kill the entire process.
    KillProcess,
    /// Kill the offending thread.
    KillThread,
    /// Trap the process.
    Trap,
    /// Log to the audit framework.
    Log,
    /// Allow the call.
    Allow,
    /// Notify the user space monitor.
    Notify,
    /// Answer the call with an errno code.
    Errno(i32),
}

/// The code libseccomp takes for an action: an errno action carries the low
/// sixteen bits of the errno's two's-complement value below its high half.
pub open spec fn action_code(action: Action) -> u32 {
    match action {
        Action::KillProcess => SCMP_ACT_KILL_PROCESS,
        Action::KillThread => SCMP_ACT_KILL_THREAD,
        Action::Trap => SCMP_ACT_TRAP,
        Action::Log => SCMP_ACT_LOG,
        Action::Allow => SCMP_ACT_ALLOW,
        Action::Notify => SCMP_ACT_NOTIFY,
        Action::Errno(e) => (SCMP_ACT_ERRNO + (e as u32) % 0x1_0000) as u32,
    }
}

/// How an action is displayed: its name, or the errno it answers with.
pub open spec fn action_label(action: Action) -> Seq<char> {
    match action {
        Action::KillProcess => "Kill Process"@,
        Action::KillThread => "Kill Thread"@,
        Action::Trap => "Trap"@,
        Action::Log => "Log"@,
        Action::Allow => "Allow"@,
        Action::Notify => "Notify"@,
        Action::Errno(errno) => decimal(errno as int),
    }
}

impl Action {
    /// The action as it is displayed: its name, or the decimal errno it
    /// answers with.
    pub fn to_string(&self) -> (s: String)
        ensures
            s@ == action_label(*self),
    {
        match self {
            Action::KillProcess => String::from_str("Kill Process"),
            Action::KillThread => String::from_str("Kill Thread"),
            Action::Trap => String::from_str("Trap"),
            Action::Log => String::from_str("Log"),
            Action::Allow => String::from_str("Allow"),
            Action::Notify => String::from_str("Notify"),
            Action::Errno(errno) => decimal_string(*errno),
        }
    }

    /// The code libseccomp takes for this action.
    pub fn code(self) -> (code: u32)
        ensures
            code == action_code(self),
    {
        match self {
            Action::KillProcess => SCMP_ACT_KILL_PROCESS,
            Action::KillThread => SCMP_ACT_KILL_THREAD,
            Action::Trap => SCMP_ACT_TRAP,
            Action::Log => SCMP_ACT_LOG,
            Action::Allow => SCMP_ACT_ALLOW,
            Action::Errno(e) => {
                let low: u32 = (e as u32) & 0x0000_ffff;
                assert(0x0005_0000u32 | low == 0x0005_0000u32 + (e as u32) % 0x1_0000
                    && low == (e as u32) & 0x0000_ffff) by (bit_vector)
                    requires low == (e as u32) & 0x0000_ffff;
                0x0005_0000 | low
            },
            Action::Notify => SCMP_ACT_NOTIFY,
        }
    }
}

impl From<Action> for u32 {
    fn from(action: Action) -> (code: u32) {
        action.code()
    }
}

impl vstd::std_specs::convert::FromSpecImpl<Action> for u32 {
    open spec fn obeys_from_spec() -> bool {
        true
    }

    open spec fn from_spec(action: Action) -> u32 {
        action_code(action)
    }
}

/// Whether an action can be told by libseccomp: an errno it answers with must
/// fit the sixteen bits its code carries.
pub open spec fn carries_its_errno(action: Action) -> bool {
    match action {
        Action::Errno(e) => 0 <= e <= 0xffff,
        _ => true,
    }
}

/// An errno action's code is the errno action's high half with the errno in
/// its low sixteen bits.
pub proof fn lemma_errno_code(e: i32)
    requires
        0 <= e <= 0xffff,
    ensures
        action_code(Action::Errno(e)) == SCMP_ACT_ERRNO + e,
        action_code(Action::Errno(e)) >> 16u32 == 5,
        action_code(Action::Errno(e)) & 0xffff == e,
{
    let code = action_code(Action::Errno(e));
    assert(code == 0x0005_0000 + e);
    assert(code >> 16u32 == 5 && code & 0xffff == e) by (bit_vector)
        requires
            code == 0x0005_0000u32 + e,
            0 <= e <= 0xffff,
    ;
}

/// Different actions have different codes, so the kernel never takes one for
/// another, as long as each errno fits its code.
pub proof fn lemma_codes_tell_actions_apart(a: Action, b: Action)
    requires
        carries_its_errno(a),
        carries_its_errno(b),
    ensures
        action_code(a) == action_code(b) ==> a == b,
{
}

/// Each action's code is the one the kernel defines for it.
pub proof fn lemma_action_codes()
    ensures
        action_code(Action::KillProcess) == 0x8000_0000,
        action_code(Action::KillThread) == 0x0000_0000,
        action_code(Action::Trap) == 0x0003_0000,
        action_code(Action::Log) == 0x7ffc_0000,
        action_code(Action::Allow) == 0x7fff_0000,
        action_code(Action::Notify) == 0x7fc0_0000,
{
}

/// Whatever the errno, its action's code has the errno action's high half
/// and the low sixteen bits of the errno's two's-complement value.
pub proof fn lemma_errno_code_bits(e: i32)
    ensures
        action_code(Action::Errno(e)) >> 16u32 == 5,
        action_code(Action::Errno(e)) & 0xffff == (e as u32) & 0xffff,
{
    let x = e as u32;
    let code = action_code(Action::Errno(e));
    assert(code == (0x0005_0000 + x % 0x1_0000) as u32);
    assert(code >> 16u32 == 5 && code & 0xffff == x & 0xffff) by (bit_vector)
        requires
            code == (0x0005_0000u32 + x % 0x1_0000) as u32,
    ;
}

/// An action is shown by its name, or, for an errno, by the errno's decimal
/// digits after a `-` when it is negative.
pub proof fn lemma_action_labels(e: i32)
    ensures
        action_label(Action::KillProcess) == "Kill Process"@,
        action_label(Action::KillThread) == "Kill Thread"@,
        action_label(Action::Trap) == "Trap"@,
        action_label(Action::Log) == "Log"@,
        action_label(Action::Allow) == "Allow"@,
        action_label(Action::Notify) == "Notify"@,
        e >= 0 ==> crate::text::digits_value(action_label(Action::Errno(e))) == e,
        e < 0 ==> action_label(Action::Errno(e))[0] == '-'
            && -crate::text::digits_value(action_label(Action::Errno(e)).drop_first()) == e,
{
    crate::text::lemma_decimal(e as int);
}

} // verus!
