use seccomp::syscall::{Error, Syscall};
use seccomp::text::decimal_string;

#[test]
fn number_round_trip() {
    let s = Syscall::from_number(59);
    assert_eq!(s.get_number(), 59);
    assert_eq!(i32::from(s), 59);
    assert_eq!(Syscall::from_number(-1).get_number(), -1);
}

#[test]
fn syscall_display_is_its_number() {
    assert_eq!(Syscall::from_number(0).to_string(), "0");
    assert_eq!(Syscall::from_number(59).to_string(), "59");
    assert_eq!(Syscall::from_number(-7).to_string(), "-7");
}

#[test]
fn name_query_is_nul_terminated_name() {
    assert_eq!(Syscall::name_query("execve").unwrap(), b"execve\0".to_vec());
    assert_eq!(Syscall::name_query("").unwrap(), b"\0".to_vec());
    assert_eq!(Syscall::name_query("naïve").unwrap(), "naïve\0".as_bytes().to_vec());
}

#[test]
fn name_query_refuses_nul() {
    match Syscall::name_query("re\0ad") {
        Err(Error::Name(name)) => assert_eq!(name, "re\0ad"),
        other => panic!("unexpected {:?}", other),
    }
}

#[test]
fn from_name_takes_the_answer() {
    assert_eq!(Syscall::from_name("execve", 59).unwrap().get_number(), 59);
    assert_eq!(Syscall::from_name("weird", -101).unwrap().get_number(), -101);
}

#[test]
fn from_name_unresolved_is_name_error() {
    match Syscall::from_name("no_such_call", -1) {
        Err(Error::Name(name)) => assert_eq!(name, "no_such_call"),
        other => panic!("unexpected {:?}", other),
    }
}

#[test]
fn from_name_with_nul_is_error_whatever_the_answer() {
    match Syscall::from_name("re\0ad", 0) {
        Err(Error::Name(name)) => assert_eq!(name, "re\0ad"),
        other => panic!("unexpected {:?}", other),
    }
}

#[test]
fn with_arch_takes_the_answer() {
    assert_eq!(Syscall::with_arch("read", 0).unwrap().get_number(), 0);
    assert!(matches!(Syscall::with_arch("read", -1), Err(Error::Name(_))));
    assert!(matches!(Syscall::with_arch("a\0", 1), Err(Error::Name(_))));
}

#[test]
fn name_number_round_trip_example() {
    let name = Syscall::get_name_arch(59, 7, |_, _| Some(b"execve".to_vec())).unwrap();
    let bytes = Syscall::name_query(&name).unwrap();
    assert_eq!(bytes, b"execve\0".to_vec());
    assert_eq!(Syscall::from_name(&name, 59).unwrap().get_number(), 59);
}

#[test]
fn get_name_arch_decodes_name() {
    let r = Syscall::get_name_arch(59, 7, |arch, num| {
        assert_eq!((arch, num), (7, 59));
        Some(b"execve".to_vec())
    });
    assert_eq!(r.unwrap(), "execve");
    let r = Syscall::get_name_arch(1, 7, |_, _| Some("naïve".as_bytes().to_vec()));
    assert_eq!(r.unwrap(), "naïve");
}

#[test]
fn get_name_arch_without_name_is_code_error() {
    assert!(matches!(Syscall::get_name_arch(999, 7, |_, _| None), Err(Error::Code(999))));
}

#[test]
fn get_name_arch_invalid_utf8_is_code_error() {
    let r = Syscall::get_name_arch(3, 7, |_, _| Some(vec![0x66, 0xff, 0x6f]));
    assert!(matches!(r, Err(Error::Code(3))));
}

#[test]
fn get_name_uses_native_arch() {
    let r = Syscall::get_name(0, || 0xc000_003e, |arch, num| {
        assert_eq!(arch, 0xc000_003e);
        assert_eq!(num, 0);
        Some(b"read".to_vec())
    });
    assert_eq!(r.unwrap(), "read");
}

#[test]
fn resolution_error_messages() {
    assert_eq!(
        Error::Name("foo".to_string()).to_string(),
        "Failed to resolve syscall name: foo"
    );
    assert_eq!(Error::Code(-3).to_string(), "Failed to resolve syscall name: -3");
}

#[test]
fn decimal_rendering() {
    assert_eq!(decimal_string(0), "0");
    assert_eq!(decimal_string(9), "9");
    assert_eq!(decimal_string(10), "10");
    assert_eq!(decimal_string(1234567), "1234567");
    assert_eq!(decimal_string(-10), "-10");
    for n in [-1000, -99, -1, 1, 42, 100, 65535, i32::MAX, i32::MIN] {
        assert_eq!(decimal_string(n), format!("{n}"));
    }
}
