//! The values that libseccomp and the kernel exchange with this crate.

use vstd::prelude::*;

verus! {

/// Kill the process.
pub const SCMP_ACT_KILL_PROCESS: u32 = 0x8000_0000;

/// Kill the thread.
pub const SCMP_ACT_KILL_THREAD: u32 = 0x0000_0000;

/// Raise a trap signal.
pub const SCMP_ACT_TRAP: u32 = 0x0003_0000;

/// Request a decision from the notify monitor.
pub const SCMP_ACT_NOTIFY: u32 = 0x7fc0_0000;

/// Log the request to the audit log.
pub const SCMP_ACT_LOG: u32 = 0x7ffc_0000;

/// Allow the call.
pub const SCMP_ACT_ALLOW: u32 = 0x7fff_0000;

/// The high half of an action code that answers with an errno.
pub const SCMP_ACT_ERRNO: u32 = 0x0005_0000;


/// A filter attribute, as libseccomp names it. `ACT_DEFAULT` is not among them
/// because the default action is given when the context is created.
#[allow(non_camel_case_types)]
#[derive(Clone, Copy, Debug, PartialEq, Eq, Structural)]
pub enum scmp_filter_attr {
    SCMP_FLTATR_ACT_BADARCH,
    SCMP_FLTATR_CTL_NNP,
    SCMP_FLTATR_CTL_TSYNC,
    SCMP_FLTATR_API_TSKIP,
    SCMP_FLTATR_CTL_LOG,
    SCMP_FLTATR_CTL_SSB,
    SCMP_FLTATR_CTL_OPTIMIZE,
    SCMP_FLTATR_API_SYSRAWRC,
}

/// The number by which libseccomp knows an attribute.
pub open spec fn attr_number(attr: scmp_filter_attr) -> u32 {
    match attr {
        scmp_filter_attr::SCMP_FLTATR_ACT_BADARCH => 2,
        scmp_filter_attr::SCMP_FLTATR_CTL_NNP => 3,
        scmp_filter_attr::SCMP_FLTATR_CTL_TSYNC => 4,
        scmp_filter_attr::SCMP_FLTATR_API_TSKIP => 5,
        scmp_filter_attr::SCMP_FLTATR_CTL_LOG => 6,
        scmp_filter_attr::SCMP_FLTATR_CTL_SSB => 7,
        scmp_filter_attr::SCMP_FLTATR_CTL_OPTIMIZE => 8,
        scmp_filter_attr::SCMP_FLTATR_API_SYSRAWRC => 9,
    }
}

impl scmp_filter_attr {
    /// The number by which libseccomp knows this attribute.
    pub fn number(self) -> (n: u32)
        ensures
            n == attr_number(self),
    {
        match self {
            scmp_filter_attr::SCMP_FLTATR_ACT_BADARCH => 2,
            scmp_filter_attr::SCMP_FLTATR_CTL_NNP => 3,
            scmp_filter_attr::SCMP_FLTATR_CTL_TSYNC => 4,
            scmp_filter_attr::SCMP_FLTATR_API_TSKIP => 5,
            scmp_filter_attr::SCMP_FLTATR_CTL_LOG => 6,
            scmp_filter_attr::SCMP_FLTATR_CTL_SSB => 7,
            scmp_filter_attr::SCMP_FLTATR_CTL_OPTIMIZE => 8,
            scmp_filter_attr::SCMP_FLTATR_API_SYSRAWRC => 9,
        }
    }
}

/// Syscall data, as the kernel reports it.
#[allow(non_camel_case_types)]
pub struct seccomp_data {
    pub nr: i32,
    pub arch: u32,
    pub instruction_pointer: u64,
    pub args: [u64; 6],
}

/// A notification from the kernel.
#[allow(non_camel_case_types)]
pub struct seccomp_notif {
    pub id: u64,
    pub pid: u32,
    pub flags: u32,
    pub data: seccomp_data,
}

/// A response to a notification.
#[allow(non_camel_case_types)]
pub struct seccomp_notif_resp {
    pub id: u64,
    pub val: i64,
    pub error: i32,
    pub flags: u32,
}

} // verus!
