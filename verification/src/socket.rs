//! A socket of the transport, known by its native handle, and the values
//! that the native calls on it take and return.

use vstd::prelude::*;
use crate::error::cvt;
use crate::error::Error;
use crate::ffi::SRTSOCKET;
use crate::ffi::SRT_SOCKOPT;
use crate::ffi::SRT_SOCKSTATUS;
use crate::ffi::SRT_TRANSTYPE;

verus! {

/// Recommended payload size for live transmission of MPEG transport streams.
pub const SRT_LIVE_DEF_PLSIZE: usize = 1316;

/// Error code of an operation that the transport does not offer.
pub const NOT_IMPLEMENTED_CODE: i32 = -1;

/// A socket of the transport. The value holds the native handle and nothing
/// else: opening and closing the socket is the caller's part.
#[derive(Copy, Clone, Debug, PartialEq, Eq, Structural, Hash)]
pub struct Socket(pub SRTSOCKET);

impl View for Socket {
    type V = SRTSOCKET;

    open spec fn view(&self) -> SRTSOCKET {
        self.0
    }
}

/// A socket option and the value to set it to.
#[derive(Copy, Clone, Debug, PartialEq, Eq, Structural)]
pub struct SockOption {
    /// The option.
    pub name: SRT_SOCKOPT,
    /// The value, as the native call takes it.
    pub value: i32,
    /// Whether the option is set by the native call for flags.
    pub flag: bool,
}

/// The number by which the native interface takes a truth value.
pub open spec fn bool_value(b: bool) -> i32 {
    if b {
        1
    } else {
        0
    }
}

fn bool_to_int(b: bool) -> (v: i32)
    ensures
        v == bool_value(b),
{
    if b {
        1
    } else {
        0
    }
}

impl Socket {
    /// Takes what the native call that opens a socket returned: the new
    /// socket, or the error `last` where the call failed.
    pub fn new(ret: SRTSOCKET, last: Error) -> (r: Result<Socket, Error>)
        ensures
            ret == -1 ==> r == (Err::<Socket, Error>(last)),
            ret != -1 ==> r == (Ok::<Socket, Error>(Socket(ret))),
    {
        match cvt(ret, last) {
            Ok(raw) => Ok(Socket(raw)),
            Err(e) => Err(e),
        }
    }

    /// The native handle.
    pub fn as_raw(&self) -> (raw: SRTSOCKET)
        ensures
            raw == self@,
    {
        self.0
    }

    /// Takes what a native call on the socket returned that hands nothing
    /// back, such as connect, bind, listen or the setting of an option:
    /// success, or the error `last` where the call failed.
    pub fn completed(&self, ret: i32, last: Error) -> (r: Result<(), Error>)
        ensures
            ret == -1 ==> r == (Err::<(), Error>(last)),
            ret != -1 ==> r == (Ok::<(), Error>(())),
    {
        match cvt(ret, last) {
            Ok(_) => Ok(()),
            Err(e) => Err(e),
        }
    }

    /// Takes what the native accept returned: the socket of the peer, or the
    /// error `last` where the call failed.
    pub fn accept(&self, ret: SRTSOCKET, last: Error) -> (r: Result<Socket, Error>)
        ensures
            ret == -1 ==> r == (Err::<Socket, Error>(last)),
            ret != -1 ==> r == (Ok::<Socket, Error>(Socket(ret))),
    {
        Socket::new(ret, last)
    }

    /// Takes what the native receive returned: the number of bytes read, or
    /// the error `last` where the call failed.
    pub fn recv(&self, ret: i32, last: Error) -> (r: Result<usize, Error>)
        ensures
            ret == -1 ==> r == (Err::<usize, Error>(last)),
            ret != -1 ==> r == (Ok::<usize, Error>(ret as usize)),
    {
        match cvt(ret, last) {
            Ok(n) => Ok(
                #[verifier::truncate]
                (n as usize),
            ),
            Err(e) => Err(e),
        }
    }

    /// Takes what the native send returned: the number of bytes written, or
    /// the error `last` where the call failed.
    pub fn send(&self, ret: i32, last: Error) -> (r: Result<usize, Error>)
        ensures
            ret == -1 ==> r == (Err::<usize, Error>(last)),
            ret != -1 ==> r == (Ok::<usize, Error>(ret as usize)),
    {
        match cvt(ret, last) {
            Ok(n) => Ok(
                #[verifier::truncate]
                (n as usize),
            ),
            Err(e) => Err(e),
        }
    }

    /// Reading into several buffers at once is not offered.
    pub fn recv_vectored(&self) -> (r: Result<usize, Error>)
        ensures
            r matches Err(e) && e.code() == NOT_IMPLEMENTED_CODE && e.text() == "not implemented"@,
    {
        Err(Error::new(NOT_IMPLEMENTED_CODE, String::from_str("not implemented")))
    }

    /// Writing from several buffers at once is not offered.
    pub fn send_vectored(&self) -> (r: Result<usize, Error>)
        ensures
            r matches Err(e) && e.code() == NOT_IMPLEMENTED_CODE && e.text() == "not implemented"@,
    {
        Err(Error::new(NOT_IMPLEMENTED_CODE, String::from_str("not implemented")))
    }

    /// The backlog as the native listen takes it: the low 32 bits.
    pub fn listen(&self, backlog: usize) -> (native: i32)
        ensures
            native == backlog as i32,
    {
        #[verifier::truncate]
        (backlog as i32)
    }

    /// The option that makes receiving block or not: the transport takes
    /// whether receiving blocks.
    pub fn set_recv_nonblocking(&self, nonblocking: bool) -> (opt: SockOption)
        ensures
            opt == (SockOption {
                name: SRT_SOCKOPT::SRTO_RCVSYN,
                value: bool_value(!nonblocking),
                flag: false,
            }),
    {
        SockOption { name: SRT_SOCKOPT::SRTO_RCVSYN, value: bool_to_int(!nonblocking), flag: false }
    }

    /// The option that makes sending block or not: the transport takes
    /// whether sending blocks.
    pub fn set_send_nonblocking(&self, nonblocking: bool) -> (opt: SockOption)
        ensures
            opt == (SockOption {
                name: SRT_SOCKOPT::SRTO_SNDSYN,
                value: bool_value(!nonblocking),
                flag: false,
            }),
    {
        SockOption { name: SRT_SOCKOPT::SRTO_SNDSYN, value: bool_to_int(!nonblocking), flag: false }
    }

    /// The option that makes the socket a sender or not; it is set by the
    /// native call for flags.
    pub fn set_sender(&self, sender: bool) -> (opt: SockOption)
        ensures
            opt == (SockOption {
                name: SRT_SOCKOPT::SRTO_SENDER,
                value: bool_value(sender),
                flag: true,
            }),
    {
        SockOption { name: SRT_SOCKOPT::SRTO_SENDER, value: bool_to_int(sender), flag: true }
    }

    /// The option that turns timestamp-based packet delivery on or off.
    pub fn set_tsbpd_mode(&self, tsbpd_mode: bool) -> (opt: SockOption)
        ensures
            opt == (SockOption {
                name: SRT_SOCKOPT::SRTO_TSBPDMODE,
                value: bool_value(tsbpd_mode),
                flag: false,
            }),
    {
        SockOption {
            name: SRT_SOCKOPT::SRTO_TSBPDMODE,
            value: bool_to_int(tsbpd_mode),
            flag: false,
        }
    }

    /// The option that sets the payload size: the low 32 bits of the size.
    pub fn set_payload_size(&self, payload_size: usize) -> (opt: SockOption)
        ensures
            opt == (SockOption {
                name: SRT_SOCKOPT::SRTO_PAYLOADSIZE,
                value: payload_size as i32,
                flag: false,
            }),
    {
        SockOption {
            name: SRT_SOCKOPT::SRTO_PAYLOADSIZE,
            value: #[verifier::truncate]
            (payload_size as i32),
            flag: false,
        }
    }

    /// The option that sets the transmission type.
    pub fn set_trans_type(&self, trans_type: SRT_TRANSTYPE) -> (opt: SockOption)
        ensures
            opt == (SockOption {
                name: SRT_SOCKOPT::SRTO_TRANSTYPE,
                value: trans_type.code(),
                flag: false,
            }),
    {
        SockOption { name: SRT_SOCKOPT::SRTO_TRANSTYPE, value: trans_type.as_int(), flag: false }
    }

    /// Whether a socket in this state is broken.
    pub fn is_broken(&self, status: SRT_SOCKSTATUS) -> (b: bool)
        ensures
            b == (status == SRT_SOCKSTATUS::SRTS_BROKEN),
    {
        status == SRT_SOCKSTATUS::SRTS_BROKEN
    }

    /// Whether a socket in this state is closing.
    pub fn is_closing(&self, status: SRT_SOCKSTATUS) -> (b: bool)
        ensures
            b == (status == SRT_SOCKSTATUS::SRTS_CLOSING),
    {
        status == SRT_SOCKSTATUS::SRTS_CLOSING
    }

    /// Whether a socket in this state is closed.
    pub fn is_closed(&self, status: SRT_SOCKSTATUS) -> (b: bool)
        ensures
            b == (status == SRT_SOCKSTATUS::SRTS_CLOSED),
    {
        status == SRT_SOCKSTATUS::SRTS_CLOSED
    }

    /// The error that the transport holds for the caller, if it holds one:
    /// `errno` is the system error number that it recorded with `last`, and
    /// zero stands for none.
    pub fn take_error(&self, errno: i32, last: Error) -> (e: Option<Error>)
        ensures
            e == if errno == 0 {
                None
            } else {
                Some(last)
            },
    {
        if errno == 0 {
            None
        } else {
            Some(last)
        }
    }
}

} // verus!
