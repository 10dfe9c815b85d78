//! Error values of the transport, and the rule that tells a failed native
//! call from a successful one.

use vstd::prelude::*;

verus! {

/// Error code that the wait call reports when its time-out elapsed.
pub const SRT_ETIMEOUT: i32 = 6003;

/// The classes into which transport errors fall.
#[derive(Copy, Clone, Debug, PartialEq, Eq, Structural, Hash)]
pub enum ErrorKind {
    /// The operation would block; try again later.
    WouldBlock,
    /// The operation timed out.
    TimedOut,
    /// The peer rejected the connection.
    ConnectionRefused,
    /// The connection was lost.
    BrokenPipe,
    /// The socket is not connected.
    NotConnected,
    /// The resource is busy.
    AlreadyExists,
    /// Any other failure.
    Other,
}

/// The class of a transport error code: its thousands give the major group,
/// the rest the minor code within the group. Negative codes have no class of
/// their own.
pub open spec fn error_kind_of(errcode: int) -> ErrorKind {
    let major = errcode / 1000;
    let minor = errcode % 1000;
    if errcode < 0 {
        ErrorKind::Other
    } else if major == 1 {
        if minor == 1 {
            ErrorKind::TimedOut
        } else if minor == 2 {
            ErrorKind::ConnectionRefused
        } else {
            ErrorKind::Other
        }
    } else if major == 2 {
        if minor == 1 {
            ErrorKind::BrokenPipe
        } else if minor == 2 {
            ErrorKind::NotConnected
        } else {
            ErrorKind::Other
        }
    } else if major == 5 {
        if minor == 11 {
            ErrorKind::AlreadyExists
        } else {
            ErrorKind::Other
        }
    } else if major == 6 {
        if minor == 3 {
            ErrorKind::TimedOut
        } else {
            ErrorKind::WouldBlock
        }
    } else {
        ErrorKind::Other
    }
}

/// A transport error: the native error code and the text that describes it.
#[derive(Clone, Debug)]
pub struct Error {
    errcode: i32,
    errstr: String,
}

impl Error {
    /// The native error code.
    pub closed spec fn code(&self) -> i32 {
        self.errcode
    }

    /// The describing text.
    pub closed spec fn text(&self) -> Seq<char> {
        self.errstr@
    }

    /// Builds an error from its code and its text.
    pub fn new(errcode: i32, errstr: String) -> (e: Error)
        ensures
            e.code() == errcode,
            e.text() == errstr@,
    {
        Error { errcode, errstr }
    }

    /// The native error code.
    pub fn errcode(&self) -> (c: i32)
        ensures
            c == self.code(),
    {
        self.errcode
    }

    /// The class of this error.
    pub fn kind(&self) -> (k: ErrorKind)
        ensures
            k == error_kind_of(self.code() as int),
    {
        crate::ffi::srt_errorkind(self.errcode)
    }

    /// The describing text.
    pub fn message(&self) -> (s: &str)
        ensures
            s@ == self.text(),
    {
        self.errstr.as_str()
    }
}

/// Values by which a native call reports failure as minus one.
pub trait IsMinusOne: Sized {
    /// Whether the value is the failure mark.
    spec fn minus_one(&self) -> bool;

    /// Whether the value is the failure mark.
    fn is_minus_one(&self) -> (b: bool)
        ensures
            b == self.minus_one(),
    ;
}

impl IsMinusOne for i32 {
    open spec fn minus_one(&self) -> bool {
        *self == -1
    }

    fn is_minus_one(&self) -> (b: bool) {
        *self == -1
    }
}

/// Turns the value that a native call returned into a result: the value
/// itself, or, where it is the failure mark, the error `last` that the
/// transport recorded for the call.
pub fn cvt<T: IsMinusOne>(t: T, last: Error) -> (r: Result<T, Error>)
    ensures
        t.minus_one() ==> r == (Err::<T, Error>(last)),
        !t.minus_one() ==> r == (Ok::<T, Error>(t)),
{
    if t.is_minus_one() {
        Err(last)
    } else {
        Ok(t)
    }
}

} // verus!
