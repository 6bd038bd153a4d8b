//! Syscalls, named by their number or by their name.
//!
//! Resolving a name to a number, or a number to a name, is done by libseccomp.
//! A name lookup is asked for by `Syscall::name_query` and its answer is
//! taken by `Syscall::from_name` or `Syscall::with_arch`; a number lookup is
//! taken as an argument, handed exactly what libseccomp is to be asked, and
//! its answer decided on.

use vstd::prelude::*;
use vstd::string::{StringExecFns, StringSliceAdditionalSpecFns};
use vstd::utf8::{
    decode_utf8, decode_utf8_encode_utf8, encode_utf8_decode_utf8, encode_utf8_valid_utf8,
    valid_utf8,
};

use crate::text::{decimal, decimal_string};

verus! {

/// An error trying to resolve a syscall, either from name to number, or from
/// number to name.
#[derive(Debug)]
pub enum Error {
    /// The name could not be resolved.
    Name(String),
    /// The number could not be resolved.
    Code(i32),
}

/// The text shown for a resolution error.
pub open spec fn error_message(e: Error) -> Seq<char> {
    match e {
        Error::Name(name) => "Failed to resolve syscall name: "@ + name@,
        Error::Code(code) => "Failed to resolve syscall name: "@ + decimal(code as int),
    }
}

impl Error {
    /// The error as it is displayed.
    pub fn to_string(&self) -> (s: String)
        ensures
            s@ == error_message(*self),
    {
        let mut s = String::from_str("Failed to resolve syscall name: ");
        match self {
            Error::Name(name) => s.append(name.as_str()),
            Error::Code(code) => s.append(decimal_string(*code).as_str()),
        }
        s
    }
}

/// Whether a byte string holds a NUL byte, so that it cannot be handed to C.
pub open spec fn holds_nul(bytes: Seq<u8>) -> bool {
    exists|i: int| 0 <= i < bytes.len() && bytes[i] == 0
}

/// The C string libseccomp is handed for a syscall name: its UTF-8 bytes
/// followed by the terminating NUL.
pub open spec fn c_name(name: &str) -> Seq<u8> {
    name.spec_bytes().push(0)
}

/// A Syscall, which can be constructed from either the number, or from the name.
#[derive(Debug, Copy, Clone, PartialEq, Eq, Structural)]
pub struct Syscall {
    /// The architecture specific code.
    code: i32,
}

impl View for Syscall {
    type V = i32;

    /// The syscall's number.
    closed spec fn view(&self) -> i32 {
        self.code
    }
}

/// `String::from_utf8`: the string the bytes encode, or the error std gives
/// when they are not valid UTF-8. Claimed of it: it succeeds exactly on valid
/// UTF-8 and then holds the characters that the bytes decode to.
#[verifier::external_body]
fn string_from_utf8(bytes: Vec<u8>) -> (r: Result<String, std::string::FromUtf8Error>)
    ensures
        r is Ok <==> valid_utf8(bytes@),
        r matches Ok(s) ==> s@ == decode_utf8(bytes@),
{
    String::from_utf8(bytes)
}

/// `std::string::FromUtf8Error`, the error of `String::from_utf8`.
#[verifier::external_type_specification]
#[verifier::external_body]
pub struct ExFromUtf8Error(std::string::FromUtf8Error);

/// Whether `r` is what a name lookup gives when libseccomp answered `code`
/// for `name`: an error naming it for -1, the syscall numbered `code` otherwise.
pub open spec fn name_answer(name: &str, code: i32, r: Result<Syscall, Error>) -> bool {
    if code == -1 {
        r matches Err(Error::Name(n)) && n@ == name@
    } else {
        r matches Ok(s) && s@ == code
    }
}

/// Whether `r` is what a number lookup gives when libseccomp answered `answer`
/// for `num`: an error carrying the number when no name came back or it is not
/// UTF-8, the decoded name otherwise.
pub open spec fn number_answer(num: i32, answer: Option<Vec<u8>>, r: Result<String, Error>) -> bool {
    match answer {
        Some(bytes) if valid_utf8(bytes@) => r matches Ok(s) && s@ == decode_utf8(bytes@),
        _ => r matches Err(Error::Code(code)) && code == num,
    }
}

impl Syscall {
    /// Construct a Syscall from the number. No validation is performed.
    pub fn from_number(code: i32) -> (syscall: Self)
        ensures
            syscall@ == code,
    {
        Self { code }
    }

    /// Get the numerical value of the syscall.
    #[verifier::allow_in_spec]
    pub fn get_number(&self) -> i32
        returns
            self@,
    {
        self.code
    }

    /// The first step of resolving a name: the C string libseccomp is to be
    /// asked about (the name's UTF-8 bytes and a terminating NUL), or, when
    /// the name holds a NUL byte and cannot be handed to C, the error that
    /// ends the lookup without asking libseccomp.
    ///
    /// ## Errors
    /// `Error::Name`: if the name holds a NUL byte.
    pub fn name_query(name: &str) -> (r: Result<Vec<u8>, Error>)
        ensures
            match r {
                Ok(bytes) => !holds_nul(name.spec_bytes()) && bytes@ == c_name(name),
                Err(e) => holds_nul(name.spec_bytes()) && (e matches Error::Name(n) && n@ == name@),
            },
    {
        let bytes = name.as_bytes();
        let mut out: Vec<u8> = Vec::new();
        let mut i: usize = 0;
        while i < bytes.len()
            invariant
                bytes@ == name.spec_bytes(),
                i <= bytes.len(),
                out@ == bytes@.subrange(0, i as int),
                forall|j: int| 0 <= j < i ==> bytes@[j] != 0,
            decreases bytes.len() - i,
        {
            if bytes[i] == 0 {
                return Err(Error::Name(name.to_owned()));
            }
            out.push(bytes[i]);
            i = i + 1;
            assert(out@ =~= bytes@.subrange(0, i as int));
        }
        assert(out@ =~= bytes@);
        out.push(0);
        Ok(out)
    }

    /// Construct a Syscall from a name, given `code`, libseccomp's answer
    /// (`seccomp_syscall_resolve_name`) on the C string of
    /// `Syscall::name_query(name)`. A name that holds a NUL byte is not
    /// looked up, and is an error whatever `code` is.
    ///
    /// ## Errors
    /// `Error::Name`: if the name holds a NUL byte, or libseccomp answered -1.
    pub fn from_name(name: &str, code: i32) -> (r: Result<Self, Error>)
        ensures
            holds_nul(name.spec_bytes()) ==> (r matches Err(Error::Name(n)) && n@ == name@),
            !holds_nul(name.spec_bytes()) ==> name_answer(name, code, r),
    {
        match Self::name_query(name) {
            Err(e) => Err(e),
            Ok(_) => if code == -1 {
                Err(Error::Name(name.to_owned()))
            } else {
                Ok(Self { code })
            },
        }
    }

    /// Resolve a name to a syscall number for a specific architecture, given
    /// `code`, libseccomp's answer (`seccomp_syscall_resolve_name_arch`, on
    /// that architecture) on the C string of `Syscall::name_query(name)`. A
    /// name that holds a NUL byte is not looked up, and is an error whatever
    /// `code` is.
    ///
    /// ## Errors
    /// `Error::Name`: if the name holds a NUL byte, or libseccomp answered -1.
    pub fn with_arch(name: &str, code: i32) -> (r: Result<Self, Error>)
        ensures
            holds_nul(name.spec_bytes()) ==> (r matches Err(Error::Name(n)) && n@ == name@),
            !holds_nul(name.spec_bytes()) ==> name_answer(name, code, r),
    {
        Self::from_name(name, code)
    }

    /// Get the name for a syscall on the native architecture, given `native`,
    /// which asks libseccomp for the native architecture, and `resolve`, as
    /// for `get_name_arch`.
    ///
    /// ## Errors
    /// `Error::Code`: as for `get_name_arch`.
    pub fn get_name(
        num: i32,
        native: impl FnOnce() -> u32,
        resolve: impl FnOnce(u32, i32) -> Option<Vec<u8>>,
    ) -> (r: Result<String, Error>)
        requires
            call_requires(native, ()),
            forall|a: u32, n: i32| call_requires(resolve, (a, n)),
        ensures
            exists|arch: u32, answer: Option<Vec<u8>>|
                #![trigger call_ensures(native, (), arch), call_ensures(resolve, (arch, num), answer)]
                call_ensures(native, (), arch) && call_ensures(resolve, (arch, num), answer)
                    && number_answer(num, answer, r),
    {
        let arch = native();
        Self::get_name_arch(num, arch, resolve)
    }

    /// Get the name for a syscall on the provided architecture, given
    /// `resolve`, which asks libseccomp (`seccomp_syscall_resolve_num_arch`)
    /// for the name of the number it is handed on the architecture it is
    /// handed, and gives the bytes of the C string that came back (without
    /// its NUL), or `None` when none did.
    ///
    /// ## Errors
    /// `Error::Code`: if libseccomp gives no name, or the name is not UTF-8.
    pub fn get_name_arch(
        num: i32,
        arch: u32,
        resolve: impl FnOnce(u32, i32) -> Option<Vec<u8>>,
    ) -> (r: Result<String, Error>)
        requires
            forall|a: u32, n: i32| call_requires(resolve, (a, n)),
        ensures
            exists|answer: Option<Vec<u8>>|
                #![trigger call_ensures(resolve, (arch, num), answer)]
                call_ensures(resolve, (arch, num), answer) && number_answer(num, answer, r),
    {
        let answer = resolve(arch, num);
        match answer {
            None => Err(Error::Code(num)),
            Some(bytes) => match string_from_utf8(bytes) {
                Ok(name) => Ok(name),
                Err(_) => Err(Error::Code(num)),
            },
        }
    }

    /// The syscall as it is displayed: its number in decimal.
    pub fn to_string(&self) -> (s: String)
        ensures
            s@ == decimal(self@ as int),
    {
        decimal_string(self.code)
    }
}

/// Whatever number a syscall is made from, `get_number` and the conversion to
/// an integer give that number back.
pub proof fn lemma_number_round_trip(syscall: Syscall, code: i32)
    requires
        syscall@ == code,
    ensures
        syscall.get_number() == code,
        <i32 as vstd::std_specs::convert::FromSpec<Syscall>>::from_spec(syscall) == code,
{
}

/// Whether two outcomes of a number lookup are the same: the same name, or
/// the same error.
pub open spec fn same_name_outcome(a: Result<String, Error>, b: Result<String, Error>) -> bool {
    match (a, b) {
        (Ok(x), Ok(y)) => x@ == y@,
        (Err(Error::Code(x)), Err(Error::Code(y))) => x == y,
        (Err(Error::Name(x)), Err(Error::Name(y))) => x@ == y@,
        _ => false,
    }
}

/// Looking a number up by `get_name` is looking it up by `get_name_arch` on
/// the native architecture: whenever libseccomp answers both alike, the two
/// give the same outcome.
pub proof fn lemma_native_lookup(
    num: i32,
    answer: Option<Vec<u8>>,
    native: Result<String, Error>,
    on_arch: Result<String, Error>,
)
    requires
        number_answer(num, answer, native),
        number_answer(num, answer, on_arch),
    ensures
        same_name_outcome(native, on_arch),
{
}

/// A name found for a number resolves back to that number: when libseccomp
/// names `num` by the C string `bytes` (which, as a C string's contents,
/// holds no NUL), and its name table maps that name back to `num`, the name
/// lookup gives the syscall numbered `num`. A number of -1 is the one that
/// cannot come back, since -1 is libseccomp's answer for an unknown name.
pub proof fn lemma_number_name_round_trip(
    num: i32,
    bytes: Vec<u8>,
    named: Result<String, Error>,
    name: &str,
    resolved: Result<Syscall, Error>,
)
    requires
        number_answer(num, Some(bytes), named),
        named matches Ok(s) && s@ == name@,
        !holds_nul(bytes@),
        num != -1,
        holds_nul(name.spec_bytes()) ==> (resolved matches Err(Error::Name(n)) && n@ == name@),
        !holds_nul(name.spec_bytes()) ==> name_answer(name, num, resolved),
    ensures
        name.spec_bytes() == bytes@,
        resolved matches Ok(syscall) && syscall@ == num,
{
    decode_utf8_encode_utf8(bytes@);
}

/// A number found for a name names it back: when a name resolves to a
/// syscall, and libseccomp's number table gives back the bytes of that name
/// for the syscall's number, the number lookup gives the name.
pub proof fn lemma_name_number_round_trip(
    name: &str,
    code: i32,
    resolved: Result<Syscall, Error>,
    bytes: Vec<u8>,
    named: Result<String, Error>,
)
    requires
        holds_nul(name.spec_bytes()) ==> (resolved matches Err(Error::Name(n)) && n@ == name@),
        !holds_nul(name.spec_bytes()) ==> name_answer(name, code, resolved),
        resolved is Ok,
        bytes@ == name.spec_bytes(),
        number_answer(code, Some(bytes), named),
    ensures
        resolved matches Ok(syscall) && syscall@ == code,
        named matches Ok(s) && s@ == name@,
{
    encode_utf8_valid_utf8(name@);
    encode_utf8_decode_utf8(name@);
}

impl From<Syscall> for i32 {
    fn from(syscall: Syscall) -> (code: i32) {
        syscall.code
    }
}

impl vstd::std_specs::convert::FromSpecImpl<Syscall> for i32 {
    open spec fn obeys_from_spec() -> bool {
        true
    }

    open spec fn from_spec(syscall: Syscall) -> i32 {
        syscall@
    }
}

/// The C string handed for a name is the name's UTF-8 bytes, all of them,
/// followed by a single NUL; when the name holds no NUL, that last byte is
/// its only NUL, and the bytes before it decode to the name.
pub proof fn lemma_c_name(name: &str)
    ensures
        c_name(name).len() == name.spec_bytes().len() + 1,
        c_name(name).last() == 0,
        c_name(name).drop_last() == name.spec_bytes(),
        decode_utf8(c_name(name).drop_last()) == name@,
        !holds_nul(name.spec_bytes()) ==> forall|i: int|
            0 <= i < c_name(name).len() - 1 ==> c_name(name)[i] != 0,
        holds_nul(name.spec_bytes()) <==> name.spec_bytes().contains(0u8),
{
    assert(c_name(name).drop_last() =~= name.spec_bytes());
    encode_utf8_decode_utf8(name@);
}

/// A name lookup succeeds with libseccomp's answer exactly when that answer
/// is not -1; for -1 it is an error that carries the name.
pub proof fn lemma_name_answer(name: &str, code: i32, r: Result<Syscall, Error>)
    requires
        name_answer(name, code, r),
    ensures
        code != -1 ==> (r matches Ok(s) && s@ == code),
        code == -1 ==> (r matches Err(Error::Name(n)) && n@ == name@),
        r is Ok <==> code != -1,
{
}

/// A number lookup gives a name exactly when libseccomp answered with valid
/// UTF-8, and the name is the one those bytes encode; otherwise it is an
/// error that carries the number.
pub proof fn lemma_number_answer(num: i32, answer: Option<Vec<u8>>, r: Result<String, Error>)
    requires
        number_answer(num, answer, r),
    ensures
        r is Ok <==> (answer matches Some(b) && valid_utf8(b@)),
        r matches Ok(s) ==> (answer matches Some(b) && vstd::utf8::encode_utf8(s@) == b@),
        r is Err ==> (r matches Err(Error::Code(c)) && c == num),
{
    if let Some(b) = answer {
        if valid_utf8(b@) {
            decode_utf8_encode_utf8(b@);
        }
    }
}

/// A resolution error's text starts with `Failed to resolve syscall name: `
/// and goes on with the name, or the number in decimal.
pub proof fn lemma_error_message(e: Error)
    ensures
        error_message(e).subrange(0, 32) == "Failed to resolve syscall name: "@,
        e matches Error::Name(n) ==> error_message(e).subrange(32, error_message(e).len() as int) == n@,
        e matches Error::Code(c) ==> error_message(e).subrange(32, error_message(e).len() as int)
            == decimal(c as int),
{
    reveal_strlit("Failed to resolve syscall name: ");
    let m = error_message(e);
    assert(m.subrange(0, 32) =~= "Failed to resolve syscall name: "@);
    match e {
        Error::Name(n) => assert(m.subrange(32, m.len() as int) =~= n@),
        Error::Code(c) => assert(m.subrange(32, m.len() as int) =~= decimal(c as int)),
    }
}

} // verus!
