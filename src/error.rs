//! Errors reported by the SRT bindings.
use vstd::prelude::*;

verus! {

#[verifier::external_type_specification]
#[verifier::external_body]
pub struct ExErrno(nix::errno::Errno);

/// Relies on nix's `Errno::from_raw`, which maps a raw `errno` value to its
/// `Errno` variant (`UnknownErrno` for a value it does not know).
pub assume_specification[ nix::errno::Errno::from_raw ](err: i32) -> nix::errno::Errno;

/// Error code that marks an error raised by the bindings themselves rather
/// than by the native library.
pub const RUST_ERR_CODE: i32 = -2;

/// An error of the SRT library or of the bindings around it.
///
/// A code of `-1` or more comes from the native library; a code below `-1`
/// marks an error of the bindings.
pub struct SrtError {
    srt_err_code: i32,
    sys_err_code: i32,
    message: Option<String>,
    unix_error: Option<nix::errno::Errno>,
}

impl SrtError {
    pub closed spec fn spec_code(&self) -> i32 {
        self.srt_err_code
    }

    pub closed spec fn spec_sys_code(&self) -> i32 {
        self.sys_err_code
    }

    pub closed spec fn spec_message(&self) -> Option<Seq<char>> {
        match self.message {
            Some(m) => Some(m@),
            None => None,
        }
    }

    pub closed spec fn spec_sys_error(&self) -> Option<nix::errno::Errno> {
        self.unix_error
    }

    pub closed spec fn has_sys_error(&self) -> bool {
        self.unix_error is Some
    }

    /// An error reported by the native library, with the system error code
    /// that came with it.
    pub fn new(code: i32, sys_error_code: i32) -> (r: Self)
        ensures
            r.spec_code() == code,
            r.spec_sys_code() == sys_error_code,
            r.spec_message() is None,
            r.has_sys_error(),
    {
        SrtError {
            srt_err_code: code,
            sys_err_code: sys_error_code,
            message: None,
            unix_error: Some(nix::errno::Errno::from_raw(sys_error_code)),
        }
    }

    /// An error raised by the bindings, with its description.
    pub fn rust_err(code: i32, message: &str) -> (r: Self)
        ensures
            r.spec_code() == code,
            r.spec_sys_code() == code,
            r.spec_message() == Some(message@),
            !r.has_sys_error(),
    {
        SrtError {
            srt_err_code: code,
            sys_err_code: code,
            message: Some(String::from_str(message)),
            unix_error: None,
        }
    }

    /// The same error with its description replaced.
    pub fn with_message(self, message: String) -> (r: Self)
        ensures
            r.spec_code() == self.spec_code(),
            r.spec_sys_code() == self.spec_sys_code(),
            r.spec_message() == Some(message@),
            r.has_sys_error() == self.has_sys_error(),
            r.spec_sys_error() == self.spec_sys_error(),
    {
        SrtError { message: Some(message), ..self }
    }

    pub fn code(&self) -> (r: i32)
        ensures
            r == self.spec_code(),
    {
        self.srt_err_code
    }

    pub fn message(&self) -> (r: Option<&str>)
        ensures
            self.spec_message() is None ==> r is None,
            self.spec_message() is Some ==> r is Some && r->0@ == self.spec_message()->0,
    {
        match &self.message {
            Some(m) => Some(m.as_str()),
            None => None,
        }
    }

    pub fn sys_error(&self) -> (r: Option<nix::errno::Errno>)
        ensures
            r == self.spec_sys_error(),
            r is Some <==> self.has_sys_error(),
    {
        self.unix_error
    }
}


/// The error that the native library's last-error state describes: its error
/// code, the system error code, and the description it gave, if any.
///
/// A code of 0 means no library error: only the system code is kept. An
/// empty description is left out.
pub fn srt_get_lasterror(srt_error_no: i32, sys_error_no: i32, description: Option<String>) -> (r: SrtError)
    ensures
        r.spec_code() == srt_error_no,
        r.spec_sys_code() == sys_error_no,
        r.has_sys_error(),
        r.spec_message() == (match description {
            Some(d) if srt_error_no != 0 && d@.len() > 0 => Some(d@),
            _ => None::<Seq<char>>,
        }),
{
    if srt_error_no == 0 {
        return SrtError::new(0, sys_error_no);
    }
    let error = SrtError::new(srt_error_no, sys_error_no);
    match description {
        Some(d) => {
            if !d.as_str().is_empty() {
                error.with_message(d)
            } else {
                error
            }
        },
        None => error,
    }
}

} // verus!
