//! Filter attributes.

use vstd::prelude::*;
use vstd::string::StringExecFns;

use crate::action::{action_code, Action};
use crate::raw::{attr_number, scmp_filter_attr};

verus! {

/// How to organize the filter rules.
#[derive(Clone, Copy, Debug, PartialEq, Eq, Structural)]
pub enum OptimizeStrategy {
    /// Uses priority and rule complexity for ordering.
    PriorityAndComplexity,
    /// Uses a simple binary search tree for ordering.
    BinaryTree,
}

/// Attributes.
#[derive(Clone, Copy, Debug, PartialEq, Eq, Structural)]
pub enum Attribute {
    /// The action for when an invalid architecture is detected.
    BadArchAction(Action),
    /// Deny new privileges on load.
    NoNewPrivileges(bool),
    /// Sync all threads in the process to make sure the filter applies.
    ThreadSync(bool),
    /// Allow negative syscalls.
    NegativeSyscalls(bool),
    /// Log syscalls to audit.
    Log(bool),
    /// Disable SSB mitigation.
    DisableSSB(bool),
    /// How the rules are ordered.
    Optimize(OptimizeStrategy),
    /// Return system return codes.
    ReturnSystemReturnCodes(bool),
}

/// The libseccomp attribute that an attribute sets.
pub open spec fn attribute_name(attr: Attribute) -> scmp_filter_attr {
    match attr {
        Attribute::BadArchAction(_) => scmp_filter_attr::SCMP_FLTATR_ACT_BADARCH,
        Attribute::NoNewPrivileges(_) => scmp_filter_attr::SCMP_FLTATR_CTL_NNP,
        Attribute::ThreadSync(_) => scmp_filter_attr::SCMP_FLTATR_CTL_TSYNC,
        Attribute::NegativeSyscalls(_) => scmp_filter_attr::SCMP_FLTATR_API_TSKIP,
        Attribute::Log(_) => scmp_filter_attr::SCMP_FLTATR_CTL_LOG,
        Attribute::DisableSSB(_) => scmp_filter_attr::SCMP_FLTATR_CTL_SSB,
        Attribute::Optimize(_) => scmp_filter_attr::SCMP_FLTATR_CTL_OPTIMIZE,
        Attribute::ReturnSystemReturnCodes(_) => scmp_filter_attr::SCMP_FLTATR_API_SYSRAWRC,
    }
}

/// The number a flag is set to: 1 when it is on, 0 when it is off.
pub open spec fn flag_value(set: bool) -> u32 {
    if set {
        1
    } else {
        0
    }
}

/// The value libseccomp is given for an attribute.
pub open spec fn attribute_value(attr: Attribute) -> u32 {
    match attr {
        Attribute::BadArchAction(action) => action_code(action),
        Attribute::NoNewPrivileges(set) => flag_value(set),
        Attribute::ThreadSync(set) => flag_value(set),
        Attribute::NegativeSyscalls(set) => flag_value(set),
        Attribute::Log(set) => flag_value(set),
        Attribute::DisableSSB(set) => flag_value(set),
        Attribute::ReturnSystemReturnCodes(set) => flag_value(set),
        Attribute::Optimize(OptimizeStrategy::PriorityAndComplexity) => 1,
        Attribute::Optimize(OptimizeStrategy::BinaryTree) => 2,
    }
}

/// The human-readable name of an attribute.
pub open spec fn attribute_label(attr: Attribute) -> Seq<char> {
    match attr {
        Attribute::BadArchAction(_) => "Bad Arch Action"@,
        Attribute::NoNewPrivileges(_) => "No New Privileges"@,
        Attribute::ThreadSync(_) => "Thread Sync"@,
        Attribute::NegativeSyscalls(_) => "Negative Syscalls"@,
        Attribute::Log(_) => "Log"@,
        Attribute::DisableSSB(_) => "Disable SSB"@,
        Attribute::Optimize(_) => "Optimize"@,
        Attribute::ReturnSystemReturnCodes(_) => "Return System Return Codes"@,
    }
}

impl Attribute {
    /// Get the raw name of the attribute.
    pub fn name(&self) -> (name: scmp_filter_attr)
        ensures
            name == attribute_name(*self),
    {
        match self {
            Attribute::BadArchAction(_) => scmp_filter_attr::SCMP_FLTATR_ACT_BADARCH,
            Attribute::NoNewPrivileges(_) => scmp_filter_attr::SCMP_FLTATR_CTL_NNP,
            Attribute::ThreadSync(_) => scmp_filter_attr::SCMP_FLTATR_CTL_TSYNC,
            Attribute::NegativeSyscalls(_) => scmp_filter_attr::SCMP_FLTATR_API_TSKIP,
            Attribute::Log(_) => scmp_filter_attr::SCMP_FLTATR_CTL_LOG,
            Attribute::DisableSSB(_) => scmp_filter_attr::SCMP_FLTATR_CTL_SSB,
            Attribute::Optimize(_) => scmp_filter_attr::SCMP_FLTATR_CTL_OPTIMIZE,
            Attribute::ReturnSystemReturnCodes(_) => scmp_filter_attr::SCMP_FLTATR_API_SYSRAWRC,
        }
    }

    /// Get the current value of the attribute.
    pub fn value(&self) -> (value: u32)
        ensures
            value == attribute_value(*self),
    {
        match self {
            Attribute::BadArchAction(action) => (*action).into(),
            Attribute::NoNewPrivileges(set)
            | Attribute::ThreadSync(set)
            | Attribute::NegativeSyscalls(set)
            | Attribute::Log(set)
            | Attribute::DisableSSB(set)
            | Attribute::ReturnSystemReturnCodes(set) => if *set {
                1
            } else {
                0
            },
            Attribute::Optimize(strategy) => match strategy {
                OptimizeStrategy::PriorityAndComplexity => 1,
                OptimizeStrategy::BinaryTree => 2,
            },
        }
    }

    /// Get a string value for the attribute.
    pub fn str(&self) -> (s: &'static str)
        ensures
            s@ == attribute_label(*self),
    {
        match self {
            Attribute::BadArchAction(_) => "Bad Arch Action",
            Attribute::NoNewPrivileges(_) => "No New Privileges",
            Attribute::ThreadSync(_) => "Thread Sync",
            Attribute::NegativeSyscalls(_) => "Negative Syscalls",
            Attribute::Log(_) => "Log",
            Attribute::DisableSSB(_) => "Disable SSB",
            Attribute::Optimize(_) => "Optimize",
            Attribute::ReturnSystemReturnCodes(_) => "Return System Return Codes",
        }
    }

    /// The attribute as it is displayed: its human-readable name.
    pub fn to_string(&self) -> (s: String)
        ensures
            s@ == attribute_label(*self),
    {
        String::from_str(self.str())
    }
}

/// Whether two attributes are of the same kind, whatever they are set to.
pub open spec fn same_kind(a: Attribute, b: Attribute) -> bool {
    match (a, b) {
        (Attribute::BadArchAction(_), Attribute::BadArchAction(_)) => true,
        (Attribute::NoNewPrivileges(_), Attribute::NoNewPrivileges(_)) => true,
        (Attribute::ThreadSync(_), Attribute::ThreadSync(_)) => true,
        (Attribute::NegativeSyscalls(_), Attribute::NegativeSyscalls(_)) => true,
        (Attribute::Log(_), Attribute::Log(_)) => true,
        (Attribute::DisableSSB(_), Attribute::DisableSSB(_)) => true,
        (Attribute::Optimize(_), Attribute::Optimize(_)) => true,
        (Attribute::ReturnSystemReturnCodes(_), Attribute::ReturnSystemReturnCodes(_)) => true,
        _ => false,
    }
}

/// Each kind of attribute sets a libseccomp attribute of its own, numbered 2
/// to 9 (1, the default action, is never set through an attribute), and an
/// attribute's value tells apart the settings of its kind.
pub proof fn lemma_attribute_encoding(a: Attribute, b: Attribute)
    requires
        a matches Attribute::BadArchAction(x) ==> crate::action::carries_its_errno(x),
        b matches Attribute::BadArchAction(y) ==> crate::action::carries_its_errno(y),
    ensures
        2 <= attr_number(attribute_name(a)) <= 9,
        attr_number(attribute_name(a)) == attr_number(attribute_name(b)) <==> same_kind(a, b),
        same_kind(a, b) && attribute_value(a) == attribute_value(b) ==> a == b,
{
    if same_kind(a, b) && attribute_value(a) == attribute_value(b) {
        if let (Attribute::BadArchAction(x), Attribute::BadArchAction(y)) = (a, b) {
            crate::action::lemma_codes_tell_actions_apart(x, y);
        }
    }
}

/// Each flag attribute hands libseccomp 1 when it is set and 0 when it is
/// not, so an unset flag is never read as on.
pub proof fn lemma_flag_values(set: bool)
    ensures
        attribute_value(Attribute::NoNewPrivileges(set)) == if set { 1u32 } else { 0u32 },
        attribute_value(Attribute::ThreadSync(set)) == if set { 1u32 } else { 0u32 },
        attribute_value(Attribute::NegativeSyscalls(set)) == if set { 1u32 } else { 0u32 },
        attribute_value(Attribute::Log(set)) == if set { 1u32 } else { 0u32 },
        attribute_value(Attribute::DisableSSB(set)) == if set { 1u32 } else { 0u32 },
        attribute_value(Attribute::ReturnSystemReturnCodes(set)) == if set { 1u32 } else { 0u32 },
{
}

/// The bad-architecture attribute hands libseccomp exactly the code of its
/// action, and the optimize attribute 1 for priority and complexity, 2 for a
/// binary tree.
pub proof fn lemma_action_and_strategy_values(action: Action)
    ensures
        attribute_value(Attribute::BadArchAction(action)) == action_code(action),
        attribute_value(Attribute::Optimize(OptimizeStrategy::PriorityAndComplexity)) == 1,
        attribute_value(Attribute::Optimize(OptimizeStrategy::BinaryTree)) == 2,
{
}

/// Each attribute sets the libseccomp attribute of its kind, by the number
/// libseccomp gives it.
pub proof fn lemma_attribute_numbers(action: Action, set: bool, strategy: OptimizeStrategy)
    ensures
        attr_number(attribute_name(Attribute::BadArchAction(action))) == 2,
        attr_number(attribute_name(Attribute::NoNewPrivileges(set))) == 3,
        attr_number(attribute_name(Attribute::ThreadSync(set))) == 4,
        attr_number(attribute_name(Attribute::NegativeSyscalls(set))) == 5,
        attr_number(attribute_name(Attribute::Log(set))) == 6,
        attr_number(attribute_name(Attribute::DisableSSB(set))) == 7,
        attr_number(attribute_name(Attribute::Optimize(strategy))) == 8,
        attr_number(attribute_name(Attribute::ReturnSystemReturnCodes(set))) == 9,
{
}

/// Each attribute is shown by the name of its kind, whatever it is set to.
pub proof fn lemma_attribute_labels(action: Action, set: bool, strategy: OptimizeStrategy)
    ensures
        attribute_label(Attribute::BadArchAction(action)) == "Bad Arch Action"@,
        attribute_label(Attribute::NoNewPrivileges(set)) == "No New Privileges"@,
        attribute_label(Attribute::ThreadSync(set)) == "Thread Sync"@,
        attribute_label(Attribute::NegativeSyscalls(set)) == "Negative Syscalls"@,
        attribute_label(Attribute::Log(set)) == "Log"@,
        attribute_label(Attribute::DisableSSB(set)) == "Disable SSB"@,
        attribute_label(Attribute::Optimize(strategy)) == "Optimize"@,
        attribute_label(Attribute::ReturnSystemReturnCodes(set)) == "Return System Return Codes"@,
{
}

} // verus!
