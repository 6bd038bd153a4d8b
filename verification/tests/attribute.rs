use seccomp::action::Action;
use seccomp::attribute::{Attribute, OptimizeStrategy};
use seccomp::raw::scmp_filter_attr;

#[test]
fn attribute_names() {
    assert!(Attribute::BadArchAction(Action::Allow).name() == scmp_filter_attr::SCMP_FLTATR_ACT_BADARCH);
    assert!(Attribute::NoNewPrivileges(true).name() == scmp_filter_attr::SCMP_FLTATR_CTL_NNP);
    assert!(Attribute::ThreadSync(true).name() == scmp_filter_attr::SCMP_FLTATR_CTL_TSYNC);
    assert!(Attribute::NegativeSyscalls(false).name() == scmp_filter_attr::SCMP_FLTATR_API_TSKIP);
    assert!(Attribute::Log(true).name() == scmp_filter_attr::SCMP_FLTATR_CTL_LOG);
    assert!(Attribute::DisableSSB(true).name() == scmp_filter_attr::SCMP_FLTATR_CTL_SSB);
    assert!(
        Attribute::Optimize(OptimizeStrategy::BinaryTree).name()
            == scmp_filter_attr::SCMP_FLTATR_CTL_OPTIMIZE
    );
    assert!(
        Attribute::ReturnSystemReturnCodes(true).name()
            == scmp_filter_attr::SCMP_FLTATR_API_SYSRAWRC
    );
}

#[test]
fn attribute_numbers_match_libseccomp() {
    assert_eq!(scmp_filter_attr::SCMP_FLTATR_ACT_BADARCH.number(), 2);
    assert_eq!(scmp_filter_attr::SCMP_FLTATR_CTL_NNP.number(), 3);
    assert_eq!(scmp_filter_attr::SCMP_FLTATR_CTL_TSYNC.number(), 4);
    assert_eq!(scmp_filter_attr::SCMP_FLTATR_API_TSKIP.number(), 5);
    assert_eq!(scmp_filter_attr::SCMP_FLTATR_CTL_LOG.number(), 6);
    assert_eq!(scmp_filter_attr::SCMP_FLTATR_CTL_SSB.number(), 7);
    assert_eq!(scmp_filter_attr::SCMP_FLTATR_CTL_OPTIMIZE.number(), 8);
    assert_eq!(scmp_filter_attr::SCMP_FLTATR_API_SYSRAWRC.number(), 9);
}

#[test]
fn attribute_values() {
    assert_eq!(Attribute::BadArchAction(Action::KillProcess).value(), 0x8000_0000);
    assert_eq!(Attribute::BadArchAction(Action::Errno(5)).value(), 0x0005_0005);
    assert_eq!(Attribute::NoNewPrivileges(true).value(), 1);
    assert_eq!(Attribute::NoNewPrivileges(false).value(), 0);
    assert_eq!(Attribute::ThreadSync(true).value(), 1);
    assert_eq!(Attribute::NegativeSyscalls(false).value(), 0);
    assert_eq!(Attribute::Log(true).value(), 1);
    assert_eq!(Attribute::DisableSSB(false).value(), 0);
    assert_eq!(Attribute::ReturnSystemReturnCodes(true).value(), 1);
    assert_eq!(Attribute::Optimize(OptimizeStrategy::PriorityAndComplexity).value(), 1);
    assert_eq!(Attribute::Optimize(OptimizeStrategy::BinaryTree).value(), 2);
}

#[test]
fn attribute_strings() {
    assert_eq!(Attribute::BadArchAction(Action::Allow).str(), "Bad Arch Action");
    assert_eq!(Attribute::NoNewPrivileges(true).str(), "No New Privileges");
    assert_eq!(Attribute::ThreadSync(true).str(), "Thread Sync");
    assert_eq!(Attribute::NegativeSyscalls(true).str(), "Negative Syscalls");
    assert_eq!(Attribute::Log(false).str(), "Log");
    assert_eq!(Attribute::DisableSSB(true).str(), "Disable SSB");
    assert_eq!(Attribute::Optimize(OptimizeStrategy::BinaryTree).str(), "Optimize");
    assert_eq!(
        Attribute::ReturnSystemReturnCodes(false).str(),
        "Return System Return Codes"
    );
}

#[test]
fn attribute_display_is_its_name() {
    assert_eq!(Attribute::NoNewPrivileges(false).to_string(), "No New Privileges");
    assert_eq!(Attribute::DisableSSB(true).to_string(), "Disable SSB");
    assert_eq!(
        Attribute::BadArchAction(Action::Errno(1)).to_string(),
        "Bad Arch Action"
    );
}

#[test]
fn each_kind_sets_its_own_attribute() {
    let attrs = [
        Attribute::BadArchAction(Action::Trap),
        Attribute::NoNewPrivileges(true),
        Attribute::ThreadSync(true),
        Attribute::NegativeSyscalls(true),
        Attribute::Log(true),
        Attribute::DisableSSB(true),
        Attribute::Optimize(OptimizeStrategy::BinaryTree),
        Attribute::ReturnSystemReturnCodes(true),
    ];
    for (i, a) in attrs.iter().enumerate() {
        let n = a.name().number();
        assert!((2..=9).contains(&n));
        for (j, b) in attrs.iter().enumerate() {
            assert_eq!(i == j, n == b.name().number());
        }
    }
}
