//! Numbers that the native interface gives a meaning: error code groups,
//! socket states, option names and readiness bits.

use vstd::prelude::*;
use crate::error::ErrorKind;
use crate::error::error_kind_of;

verus! {

/// Native socket handle.
pub type SRTSOCKET = i32;

/// The handle that stands for no socket.
pub const SRT_INVALID_SOCK: SRTSOCKET = -1;

/// What a native call returns when it failed.
pub const SRT_ERROR: i32 = -1;

pub const MJ_UNKNOWN: i32 = -1;
pub const MJ_SUCCESS: i32 = 0;
pub const MJ_SETUP: i32 = 1;
pub const MJ_CONNECTION: i32 = 2;
pub const MJ_SYSTEMRES: i32 = 3;
pub const MJ_FILESYSTEM: i32 = 4;
pub const MJ_NOTSUP: i32 = 5;
pub const MJ_AGAIN: i32 = 6;
pub const MJ_PEERERROR: i32 = 7;

pub const MN_NONE: i32 = 0;
pub const MN_TIMEOUT: i32 = 1;
pub const MN_REJECTED: i32 = 2;
pub const MN_NORES: i32 = 3;
pub const MN_SECURITY: i32 = 4;
pub const MN_CONNLOST: i32 = 1;
pub const MN_NOCONN: i32 = 2;
pub const MN_THREAD: i32 = 1;
pub const MN_MEMORY: i32 = 2;
pub const MN_SEEKGFAIL: i32 = 1;
pub const MN_READFAIL: i32 = 2;
pub const MN_SEEKPFAIL: i32 = 3;
pub const MN_WRITEFAIL: i32 = 4;
pub const MN_ISBOUND: i32 = 1;
pub const MN_ISCONNECTED: i32 = 2;
pub const MN_INVAL: i32 = 3;
pub const MN_SIDINVAL: i32 = 4;
pub const MN_ISUNBOUND: i32 = 5;
pub const MN_NOLISTEN: i32 = 6;
pub const MN_ISRENDEZVOUS: i32 = 7;
pub const MN_ISRENDUNBOUND: i32 = 8;
pub const MN_INVALMSGAPI: i32 = 9;
pub const MN_INVALBUFFERAPI: i32 = 10;
pub const MN_BUSY: i32 = 11;
pub const MN_XSIZE: i32 = 12;
pub const MN_EIDINVAL: i32 = 13;
pub const MN_WRAVAIL: i32 = 1;
pub const MN_RDAVAIL: i32 = 2;
pub const MN_XMTIMEOUT: i32 = 3;
pub const MN_CONGESTION: i32 = 4;

/// Classifies a native error code.
pub fn srt_errorkind(errcode: i32) -> (kind: ErrorKind)
    ensures
        kind == error_kind_of(errcode as int),
{
    if errcode < 0 {
        return ErrorKind::Other;
    }
    let major: i32 = errcode / 1000;
    let minor: i32 = errcode % 1000;
    if major == MJ_SETUP {
        if minor == MN_TIMEOUT {
            ErrorKind::TimedOut
        } else if minor == MN_REJECTED {
            ErrorKind::ConnectionRefused
        } else {
            ErrorKind::Other
        }
    } else if major == MJ_CONNECTION {
        if minor == MN_CONNLOST {
            ErrorKind::BrokenPipe
        } else if minor == MN_NOCONN {
            ErrorKind::NotConnected
        } else {
            ErrorKind::Other
        }
    } else if major == MJ_NOTSUP {
        if minor == MN_BUSY {
            ErrorKind::AlreadyExists
        } else {
            ErrorKind::Other
        }
    } else if major == MJ_AGAIN {
        if minor == MN_XMTIMEOUT {
            ErrorKind::TimedOut
        } else {
            ErrorKind::WouldBlock
        }
    } else {
        ErrorKind::Other
    }
}

/// Names of the socket options.
#[allow(non_camel_case_types)]
#[derive(Copy, Clone, Debug, PartialEq, Eq, Structural, PartialOrd, Ord, Hash)]
pub enum SRT_SOCKOPT {
    /// The maximum transfer unit.
    SRTO_MSS,
    /// Whether sending blocks.
    SRTO_SNDSYN,
    /// Whether receiving blocks.
    SRTO_RCVSYN,
    /// Initial sequence number.
    SRTO_ISN,
    /// Flight flag size.
    SRTO_FC,
    /// Maximum buffer in the sending queue.
    SRTO_SNDBUF,
    /// Receiving buffer size.
    SRTO_RCVBUF,
    /// Wait for unsent data when closing.
    SRTO_LINGER,
    /// UDP sending buffer size.
    SRTO_UDP_SNDBUF,
    /// UDP receiving buffer size.
    SRTO_UDP_RCVBUF,
    /// Rendezvous connection mode.
    SRTO_RENDEZVOUS,
    /// Send time-out.
    SRTO_SNDTIMEO,
    /// Receive time-out.
    SRTO_RCVTIMEO,
    /// Reuse an existing port or create a new one.
    SRTO_REUSEADDR,
    /// Maximum bandwidth the connection can use.
    SRTO_MAXBW,
    /// Current socket state, read only.
    SRTO_STATE,
    /// Events currently available on the socket.
    SRTO_EVENT,
    /// Size of data in the sending buffer.
    SRTO_SNDDATA,
    /// Size of data available for receiving.
    SRTO_RCVDATA,
    /// Sender mode.
    SRTO_SENDER,
    /// Timestamp-based packet delivery.
    SRTO_TSBPDMODE,
    /// Both receiver and peer latency.
    SRTO_LATENCY,
    /// Estimated input stream rate.
    SRTO_INPUTBW,
    /// Bandwidth ceiling over the input rate.
    SRTO_OHEADBW,
    /// Passphrase for encryption.
    SRTO_PASSPHRASE,
    /// Encryption key length in bytes.
    SRTO_PBKEYLEN,
    /// Key material exchange status.
    SRTO_KMSTATE,
    /// IP time to live.
    SRTO_IPTTL,
    /// IP type of service.
    SRTO_IPTOS,
    /// Receiver drops packets that are too late.
    SRTO_TLPKTDROP,
    /// Extra delay before the sender drops.
    SRTO_SNDDROPDELAY,
    /// Receiver sends periodic loss reports.
    SRTO_NAKREPORT,
    /// Local version.
    SRTO_VERSION,
    /// Peer version.
    SRTO_PEERVERSION,
    /// Connect time-out in milliseconds.
    SRTO_CONNTIMEO,
    /// Kept for the number it holds.
    _DEPRECATED_SRTO_SNDPBKEYLEN,
    /// State of the encryption at the peer side.
    SRTO_SNDKMSTATE,
    /// State of the encryption at the agent side.
    SRTO_RCVKMSTATE,
    /// Maximum packet reorder tolerance.
    SRTO_LOSSMAXTTL,
    /// Receiver delay.
    SRTO_RCVLATENCY,
    /// Minimum receiver delay asked of the peer.
    SRTO_PEERLATENCY,
    /// Minimum version asked of the peer.
    SRTO_MINVERSION,
    /// Text passed to the listener's accepted socket.
    SRTO_STREAMID,
    /// Congestion control selection.
    SRTO_SMOOTHER,
    /// Message interface in file mode.
    SRTO_MESSAGEAPI,
    /// Maximum payload of one packet.
    SRTO_PAYLOADSIZE,
    /// Transmission type.
    SRTO_TRANSTYPE,
    /// Packets after which the key is changed.
    SRTO_KMREFRESHRATE,
    /// Packets before a key change at which the new key is announced.
    SRTO_KMPREANNOUNCE,
    /// Reject connections whose encryption settings differ.
    SRTO_STRICTENC,
}

impl SRT_SOCKOPT {
    /// The number that the native interface uses for the value.
    pub open spec fn code(self) -> i32 {
        match self {
            SRT_SOCKOPT::SRTO_MSS => 0,
            SRT_SOCKOPT::SRTO_SNDSYN => 1,
            SRT_SOCKOPT::SRTO_RCVSYN => 2,
            SRT_SOCKOPT::SRTO_ISN => 3,
            SRT_SOCKOPT::SRTO_FC => 4,
            SRT_SOCKOPT::SRTO_SNDBUF => 5,
            SRT_SOCKOPT::SRTO_RCVBUF => 6,
            SRT_SOCKOPT::SRTO_LINGER => 7,
            SRT_SOCKOPT::SRTO_UDP_SNDBUF => 8,
            SRT_SOCKOPT::SRTO_UDP_RCVBUF => 9,
            SRT_SOCKOPT::SRTO_RENDEZVOUS => 12,
            SRT_SOCKOPT::SRTO_SNDTIMEO => 13,
            SRT_SOCKOPT::SRTO_RCVTIMEO => 14,
            SRT_SOCKOPT::SRTO_REUSEADDR => 15,
            SRT_SOCKOPT::SRTO_MAXBW => 16,
            SRT_SOCKOPT::SRTO_STATE => 17,
            SRT_SOCKOPT::SRTO_EVENT => 18,
            SRT_SOCKOPT::SRTO_SNDDATA => 19,
            SRT_SOCKOPT::SRTO_RCVDATA => 20,
            SRT_SOCKOPT::SRTO_SENDER => 21,
            SRT_SOCKOPT::SRTO_TSBPDMODE => 22,
            SRT_SOCKOPT::SRTO_LATENCY => 23,
            SRT_SOCKOPT::SRTO_INPUTBW => 24,
            SRT_SOCKOPT::SRTO_OHEADBW => 25,
            SRT_SOCKOPT::SRTO_PASSPHRASE => 26,
            SRT_SOCKOPT::SRTO_PBKEYLEN => 27,
            SRT_SOCKOPT::SRTO_KMSTATE => 28,
            SRT_SOCKOPT::SRTO_IPTTL => 29,
            SRT_SOCKOPT::SRTO_IPTOS => 30,
            SRT_SOCKOPT::SRTO_TLPKTDROP => 31,
            SRT_SOCKOPT::SRTO_SNDDROPDELAY => 32,
            SRT_SOCKOPT::SRTO_NAKREPORT => 33,
            SRT_SOCKOPT::SRTO_VERSION => 34,
            SRT_SOCKOPT::SRTO_PEERVERSION => 35,
            SRT_SOCKOPT::SRTO_CONNTIMEO => 36,
            SRT_SOCKOPT::_DEPRECATED_SRTO_SNDPBKEYLEN => 38,
            SRT_SOCKOPT::SRTO_SNDKMSTATE => 40,
            SRT_SOCKOPT::SRTO_RCVKMSTATE => 41,
            SRT_SOCKOPT::SRTO_LOSSMAXTTL => 42,
            SRT_SOCKOPT::SRTO_RCVLATENCY => 43,
            SRT_SOCKOPT::SRTO_PEERLATENCY => 44,
            SRT_SOCKOPT::SRTO_MINVERSION => 45,
            SRT_SOCKOPT::SRTO_STREAMID => 46,
            SRT_SOCKOPT::SRTO_SMOOTHER => 47,
            SRT_SOCKOPT::SRTO_MESSAGEAPI => 48,
            SRT_SOCKOPT::SRTO_PAYLOADSIZE => 49,
            SRT_SOCKOPT::SRTO_TRANSTYPE => 50,
            SRT_SOCKOPT::SRTO_KMREFRESHRATE => 51,
            SRT_SOCKOPT::SRTO_KMPREANNOUNCE => 52,
            SRT_SOCKOPT::SRTO_STRICTENC => 53,
        }
    }

    /// The number that the native interface uses for the value.
    pub fn as_int(self) -> (code: i32)
        ensures
            code == self.code(),
    {
        match self {
            SRT_SOCKOPT::SRTO_MSS => 0,
            SRT_SOCKOPT::SRTO_SNDSYN => 1,
            SRT_SOCKOPT::SRTO_RCVSYN => 2,
            SRT_SOCKOPT::SRTO_ISN => 3,
            SRT_SOCKOPT::SRTO_FC => 4,
            SRT_SOCKOPT::SRTO_SNDBUF => 5,
            SRT_SOCKOPT::SRTO_RCVBUF => 6,
            SRT_SOCKOPT::SRTO_LINGER => 7,
            SRT_SOCKOPT::SRTO_UDP_SNDBUF => 8,
            SRT_SOCKOPT::SRTO_UDP_RCVBUF => 9,
            SRT_SOCKOPT::SRTO_RENDEZVOUS => 12,
            SRT_SOCKOPT::SRTO_SNDTIMEO => 13,
            SRT_SOCKOPT::SRTO_RCVTIMEO => 14,
            SRT_SOCKOPT::SRTO_REUSEADDR => 15,
            SRT_SOCKOPT::SRTO_MAXBW => 16,
            SRT_SOCKOPT::SRTO_STATE => 17,
            SRT_SOCKOPT::SRTO_EVENT => 18,
            SRT_SOCKOPT::SRTO_SNDDATA => 19,
            SRT_SOCKOPT::SRTO_RCVDATA => 20,
            SRT_SOCKOPT::SRTO_SENDER => 21,
            SRT_SOCKOPT::SRTO_TSBPDMODE => 22,
            SRT_SOCKOPT::SRTO_LATENCY => 23,
            SRT_SOCKOPT::SRTO_INPUTBW => 24,
            SRT_SOCKOPT::SRTO_OHEADBW => 25,
            SRT_SOCKOPT::SRTO_PASSPHRASE => 26,
            SRT_SOCKOPT::SRTO_PBKEYLEN => 27,
            SRT_SOCKOPT::SRTO_KMSTATE => 28,
            SRT_SOCKOPT::SRTO_IPTTL => 29,
            SRT_SOCKOPT::SRTO_IPTOS => 30,
            SRT_SOCKOPT::SRTO_TLPKTDROP => 31,
            SRT_SOCKOPT::SRTO_SNDDROPDELAY => 32,
            SRT_SOCKOPT::SRTO_NAKREPORT => 33,
            SRT_SOCKOPT::SRTO_VERSION => 34,
            SRT_SOCKOPT::SRTO_PEERVERSION => 35,
            SRT_SOCKOPT::SRTO_CONNTIMEO => 36,
            SRT_SOCKOPT::_DEPRECATED_SRTO_SNDPBKEYLEN => 38,
            SRT_SOCKOPT::SRTO_SNDKMSTATE => 40,
            SRT_SOCKOPT::SRTO_RCVKMSTATE => 41,
            SRT_SOCKOPT::SRTO_LOSSMAXTTL => 42,
            SRT_SOCKOPT::SRTO_RCVLATENCY => 43,
            SRT_SOCKOPT::SRTO_PEERLATENCY => 44,
            SRT_SOCKOPT::SRTO_MINVERSION => 45,
            SRT_SOCKOPT::SRTO_STREAMID => 46,
            SRT_SOCKOPT::SRTO_SMOOTHER => 47,
            SRT_SOCKOPT::SRTO_MESSAGEAPI => 48,
            SRT_SOCKOPT::SRTO_PAYLOADSIZE => 49,
            SRT_SOCKOPT::SRTO_TRANSTYPE => 50,
            SRT_SOCKOPT::SRTO_KMREFRESHRATE => 51,
            SRT_SOCKOPT::SRTO_KMPREANNOUNCE => 52,
            SRT_SOCKOPT::SRTO_STRICTENC => 53,
        }
    }
}

/// Transmission types, each a set of options that suits one use.
#[allow(non_camel_case_types)]
#[derive(Copy, Clone, Debug, PartialEq, Eq, Structural, PartialOrd, Ord, Hash)]
pub enum SRT_TRANSTYPE {
    /// Live streaming.
    SRTT_LIVE,
    /// File transfer.
    SRTT_FILE,
    /// No valid type.
    SRTT_INVALID,
}

impl SRT_TRANSTYPE {
    /// The number that the native interface uses for the value.
    pub open spec fn code(self) -> i32 {
        match self {
            SRT_TRANSTYPE::SRTT_LIVE => 0,
            SRT_TRANSTYPE::SRTT_FILE => 1,
            SRT_TRANSTYPE::SRTT_INVALID => 2,
        }
    }

    /// The number that the native interface uses for the value.
    pub fn as_int(self) -> (code: i32)
        ensures
            code == self.code(),
    {
        match self {
            SRT_TRANSTYPE::SRTT_LIVE => 0,
            SRT_TRANSTYPE::SRTT_FILE => 1,
            SRT_TRANSTYPE::SRTT_INVALID => 2,
        }
    }

    /// The value that the native interface means by `code`, if it means any.
    pub fn from_int(code: i32) -> (value: Option<SRT_TRANSTYPE>)
        ensures
            match value {
                Some(v) => v.code() == code,
                None => forall|v: SRT_TRANSTYPE| #[trigger] v.code() != code,
            },
    {
        if code == 0 {
            Some(SRT_TRANSTYPE::SRTT_LIVE)
        } else if code == 1 {
            Some(SRT_TRANSTYPE::SRTT_FILE)
        } else if code == 2 {
            Some(SRT_TRANSTYPE::SRTT_INVALID)
        } else {
            None
        }
    }
}

/// States of a socket as the transport reports them.
#[allow(non_camel_case_types)]
#[derive(Copy, Clone, Debug, PartialEq, Eq, Structural, PartialOrd, Ord, Hash)]
pub enum SRT_SOCKSTATUS {
    /// Created.
    SRTS_INIT,
    /// Bound.
    SRTS_OPENED,
    /// Listening.
    SRTS_LISTENING,
    /// Connecting.
    SRTS_CONNECTING,
    /// Connected.
    SRTS_CONNECTED,
    /// The connection broke.
    SRTS_BROKEN,
    /// Closing.
    SRTS_CLOSING,
    /// Closed.
    SRTS_CLOSED,
    /// No such socket.
    SRTS_NONEXIST,
}

impl SRT_SOCKSTATUS {
    /// The number that the native interface uses for the value.
    pub open spec fn code(self) -> i32 {
        match self {
            SRT_SOCKSTATUS::SRTS_INIT => 1,
            SRT_SOCKSTATUS::SRTS_OPENED => 2,
            SRT_SOCKSTATUS::SRTS_LISTENING => 3,
            SRT_SOCKSTATUS::SRTS_CONNECTING => 4,
            SRT_SOCKSTATUS::SRTS_CONNECTED => 5,
            SRT_SOCKSTATUS::SRTS_BROKEN => 6,
            SRT_SOCKSTATUS::SRTS_CLOSING => 7,
            SRT_SOCKSTATUS::SRTS_CLOSED => 8,
            SRT_SOCKSTATUS::SRTS_NONEXIST => 9,
        }
    }

    /// The number that the native interface uses for the value.
    pub fn as_int(self) -> (code: i32)
        ensures
            code == self.code(),
    {
        match self {
            SRT_SOCKSTATUS::SRTS_INIT => 1,
            SRT_SOCKSTATUS::SRTS_OPENED => 2,
            SRT_SOCKSTATUS::SRTS_LISTENING => 3,
            SRT_SOCKSTATUS::SRTS_CONNECTING => 4,
            SRT_SOCKSTATUS::SRTS_CONNECTED => 5,
            SRT_SOCKSTATUS::SRTS_BROKEN => 6,
            SRT_SOCKSTATUS::SRTS_CLOSING => 7,
            SRT_SOCKSTATUS::SRTS_CLOSED => 8,
            SRT_SOCKSTATUS::SRTS_NONEXIST => 9,
        }
    }

    /// The value that the native interface means by `code`, if it means any.
    pub fn from_int(code: i32) -> (value: Option<SRT_SOCKSTATUS>)
        ensures
            match value {
                Some(v) => v.code() == code,
                None => forall|v: SRT_SOCKSTATUS| #[trigger] v.code() != code,
            },
    {
        if code == 1 {
            Some(SRT_SOCKSTATUS::SRTS_INIT)
        } else if code == 2 {
            Some(SRT_SOCKSTATUS::SRTS_OPENED)
        } else if code == 3 {
            Some(SRT_SOCKSTATUS::SRTS_LISTENING)
        } else if code == 4 {
            Some(SRT_SOCKSTATUS::SRTS_CONNECTING)
        } else if code == 5 {
            Some(SRT_SOCKSTATUS::SRTS_CONNECTED)
        } else if code == 6 {
            Some(SRT_SOCKSTATUS::SRTS_BROKEN)
        } else if code == 7 {
            Some(SRT_SOCKSTATUS::SRTS_CLOSING)
        } else if code == 8 {
            Some(SRT_SOCKSTATUS::SRTS_CLOSED)
        } else if code == 9 {
            Some(SRT_SOCKSTATUS::SRTS_NONEXIST)
        } else {
            None
        }
    }
}

/// Readiness bits of the wait call.
#[allow(non_camel_case_types)]
#[derive(Copy, Clone, Debug, PartialEq, Eq, Structural, PartialOrd, Ord, Hash)]
pub enum SRT_EPOLL_OPT {
    /// No readiness.
    SRT_EPOLL_OPT_NONE,
    /// Readable.
    SRT_EPOLL_IN,
    /// Writable.
    SRT_EPOLL_OUT,
    /// Closed or broken.
    SRT_EPOLL_ERR,
}

impl SRT_EPOLL_OPT {
    /// The number that the native interface uses for the value.
    pub open spec fn code(self) -> i32 {
        match self {
            SRT_EPOLL_OPT::SRT_EPOLL_OPT_NONE => 0,
            SRT_EPOLL_OPT::SRT_EPOLL_IN => 1,
            SRT_EPOLL_OPT::SRT_EPOLL_OUT => 4,
            SRT_EPOLL_OPT::SRT_EPOLL_ERR => 8,
        }
    }

    /// The number that the native interface uses for the value.
    pub fn as_int(self) -> (code: i32)
        ensures
            code == self.code(),
    {
        match self {
            SRT_EPOLL_OPT::SRT_EPOLL_OPT_NONE => 0,
            SRT_EPOLL_OPT::SRT_EPOLL_IN => 1,
            SRT_EPOLL_OPT::SRT_EPOLL_OUT => 4,
            SRT_EPOLL_OPT::SRT_EPOLL_ERR => 8,
        }
    }
}

} // verus!
