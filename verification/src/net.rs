//! Streams and listeners: which native calls make one, in which order, with
//! which options, and which of their failures count.

use vstd::prelude::*;
use crate::error::error_kind_of;
use crate::error::Error;
use crate::error::ErrorKind;
use crate::event::Events;
use crate::event::Token;
use crate::ffi::SRTSOCKET;
use crate::ffi::SRT_TRANSTYPE;
use crate::poll::Wait;
use crate::socket::SockOption;
use crate::socket::Socket;

verus! {

/// Number of peers that may wait at a listener.
pub const LISTEN_BACKLOG: usize = 128;

/// One native call on a socket.
#[derive(Copy, Clone, Debug, PartialEq, Eq, Structural)]
pub enum SocketOp {
    /// Set an option.
    SetOption(SockOption),
    /// Connect to the peer.
    Connect,
    /// Bind to the local address.
    Bind,
    /// Listen, with this backlog.
    Listen(usize),
}

/// Something that has a socket.
pub trait AsSocket {
    /// The socket.
    spec fn socket(&self) -> Socket;

    /// Returns the socket.
    fn as_socket(&self) -> (sock: &Socket)
        ensures
            *sock == self.socket(),
    ;
}

/// Something whose socket has a local address.
pub trait Bind: AsSocket {

}

/// Something whose socket has a peer.
pub trait Connect: Bind {

}

/// The settings with which streams and listeners are made.
#[derive(Copy, Clone, Debug, PartialEq, Eq, Structural)]
pub struct Builder {
    pub nonblocking: bool,
    pub trans_type: Option<SRT_TRANSTYPE>,
    pub payload_size: Option<usize>,
}

/// The option that makes receiving block or not.
pub open spec fn recv_mode(nonblocking: bool) -> SockOption {
    SockOption {
        name: crate::ffi::SRT_SOCKOPT::SRTO_RCVSYN,
        value: crate::socket::bool_value(!nonblocking),
        flag: false,
    }
}

/// The option that makes sending block or not.
pub open spec fn send_mode(nonblocking: bool) -> SockOption {
    SockOption {
        name: crate::ffi::SRT_SOCKOPT::SRTO_SNDSYN,
        value: crate::socket::bool_value(!nonblocking),
        flag: false,
    }
}

impl Builder {
    /// The options that are set on a fresh socket before anything else: the
    /// transmission type, then the payload size, each where one is chosen.
    pub open spec fn preset(&self) -> Seq<SocketOp> {
        let t = match self.trans_type {
            Some(t) => seq![
                SocketOp::SetOption(
                    SockOption {
                        name: crate::ffi::SRT_SOCKOPT::SRTO_TRANSTYPE,
                        value: t.code(),
                        flag: false,
                    },
                ),
            ],
            None => Seq::<SocketOp>::empty(),
        };
        let p = match self.payload_size {
            Some(n) => seq![
                SocketOp::SetOption(
                    SockOption {
                        name: crate::ffi::SRT_SOCKOPT::SRTO_PAYLOADSIZE,
                        value: n as i32,
                        flag: false,
                    },
                ),
            ],
            None => Seq::<SocketOp>::empty(),
        };
        t + p
    }

    /// The calls that connect a fresh socket, in order: the chosen options;
    /// in non-blocking mode the switch that makes sending not block; the
    /// connect.
    pub open spec fn connect_ops(&self) -> Seq<SocketOp> {
        self.preset() + if self.nonblocking {
            seq![SocketOp::SetOption(send_mode(true)), SocketOp::Connect]
        } else {
            seq![SocketOp::Connect]
        }
    }

    /// The calls that make a listener of a fresh socket, in order: the
    /// chosen options; bind; listen; in non-blocking mode the switch that
    /// makes receiving, and so accepting, not block.
    pub open spec fn bind_ops(&self) -> Seq<SocketOp> {
        let ops = seq![SocketOp::Bind, SocketOp::Listen(LISTEN_BACKLOG)];
        let mode = if self.nonblocking {
            seq![SocketOp::SetOption(recv_mode(true))]
        } else {
            Seq::<SocketOp>::empty()
        };
        self.preset() + ops + mode
    }

    /// The calls made on an accepted socket: in non-blocking mode the switch
    /// that makes receiving not block, else none.
    pub open spec fn accept_ops(&self) -> Seq<SocketOp> {
        if self.nonblocking {
            seq![SocketOp::SetOption(recv_mode(true))]
        } else {
            Seq::<SocketOp>::empty()
        }
    }

    /// What the outcome of one call means: a call that did not fail is done;
    /// a connect that would block is done too in non-blocking mode, where
    /// readiness tells the end of the handshake; any other failure is the
    /// error `last`.
    pub open spec fn settled(&self, op: SocketOp, ret: i32, last: Error) -> Result<(), Error> {
        if ret != -1 {
            Ok(())
        } else if op == SocketOp::Connect && self.nonblocking && error_kind_of(last.code() as int)
            == ErrorKind::WouldBlock {
            Ok(())
        } else {
            Err(last)
        }
    }

    /// Settings for blocking sockets with no option chosen.
    pub fn new() -> (builder: Builder)
        ensures
            builder == (Builder { nonblocking: false, trans_type: None, payload_size: None }),
    {
        Builder { nonblocking: false, trans_type: None, payload_size: None }
    }

    /// Chooses non-blocking or blocking mode.
    pub fn nonblocking(self, nonblocking: bool) -> (builder: Builder)
        ensures
            builder == (Builder { nonblocking, ..self }),
    {
        Builder { nonblocking, ..self }
    }

    /// Chooses the transmission type.
    pub fn trans_type(self, trans_type: SRT_TRANSTYPE) -> (builder: Builder)
        ensures
            builder == (Builder { trans_type: Some(trans_type), ..self }),
    {
        Builder { trans_type: Some(trans_type), ..self }
    }

    /// Chooses the payload size.
    pub fn payload_size(self, payload_size: usize) -> (builder: Builder)
        ensures
            builder == (Builder { payload_size: Some(payload_size), ..self }),
    {
        Builder { payload_size: Some(payload_size), ..self }
    }

    fn preset_ops(&self, sock: &Socket) -> (ops: Vec<SocketOp>)
        ensures
            ops@ == self.preset(),
    {
        let mut ops: Vec<SocketOp> = Vec::new();
        match self.trans_type {
            Some(t) => {
                ops.push(SocketOp::SetOption(sock.set_trans_type(t)));
            },
            None => {},
        }
        match self.payload_size {
            Some(n) => {
                ops.push(SocketOp::SetOption(sock.set_payload_size(n)));
            },
            None => {},
        }
        assert(ops@ =~= self.preset());
        ops
    }

    /// Lists the calls that connect the fresh socket `sock`, in order.
    pub fn connect_plan(&self, sock: &Socket) -> (ops: Vec<SocketOp>)
        ensures
            ops@ == self.connect_ops(),
    {
        let mut ops = self.preset_ops(sock);
        if self.nonblocking {
            ops.push(SocketOp::SetOption(sock.set_send_nonblocking(true)));
        }
        ops.push(SocketOp::Connect);
        assert(ops@ =~= self.connect_ops());
        ops
    }

    /// Lists the calls that make a listener of the fresh socket `sock`, in
    /// order.
    pub fn bind_plan(&self, sock: &Socket) -> (ops: Vec<SocketOp>)
        ensures
            ops@ == self.bind_ops(),
    {
        let mut ops = self.preset_ops(sock);
        ops.push(SocketOp::Bind);
        ops.push(SocketOp::Listen(LISTEN_BACKLOG));
        if self.nonblocking {
            ops.push(SocketOp::SetOption(sock.set_recv_nonblocking(true)));
        }
        assert(ops@ =~= self.bind_ops());
        ops
    }

    /// Lists the calls made on the accepted socket `sock`.
    pub fn accept_plan(&self, sock: &Socket) -> (ops: Vec<SocketOp>)
        ensures
            ops@ == self.accept_ops(),
    {
        let mut ops: Vec<SocketOp> = Vec::new();
        if self.nonblocking {
            ops.push(SocketOp::SetOption(sock.set_recv_nonblocking(true)));
        }
        assert(ops@ =~= self.accept_ops());
        ops
    }

    /// Takes what the native call for `op` returned and says whether the
    /// plan goes on.
    pub fn settle(&self, op: SocketOp, ret: i32, last: Error) -> (r: Result<(), Error>)
        ensures
            r == self.settled(op, ret, last),
    {
        if ret != -1 {
            Ok(())
        } else {
            let tolerated = match op {
                SocketOp::Connect => self.nonblocking && last.kind() == ErrorKind::WouldBlock,
                _ => false,
            };
            if tolerated {
                Ok(())
            } else {
                Err(last)
            }
        }
    }

    /// The stream over a socket whose connect plan was carried out.
    pub fn connect(&self, sock: Socket) -> (stream: Stream)
        ensures
            stream == (Stream { sock, nonblocking: self.nonblocking }),
    {
        Stream { sock, nonblocking: self.nonblocking }
    }

    /// The listener over a socket whose bind plan was carried out.
    pub fn bind(&self, sock: Socket) -> (listener: Listener)
        ensures
            listener == (Listener { sock, nonblocking: self.nonblocking }),
    {
        Listener { sock, nonblocking: self.nonblocking }
    }

    /// The stream over an accepted socket whose accept plan was carried out.
    pub fn accept(&self, sock: Socket) -> (stream: Stream)
        ensures
            stream == (Stream { sock, nonblocking: self.nonblocking }),
    {
        Stream { sock, nonblocking: self.nonblocking }
    }
}

/// A stream between a local and a remote socket.
#[derive(Debug, PartialEq, Eq, Structural)]
pub struct Stream {
    pub sock: Socket,
    pub nonblocking: bool,
}

/// The receiving half of a stream.
#[derive(Debug, PartialEq, Eq, Structural)]
pub struct InputStream {
    pub sock: Socket,
}

/// The sending half of a stream.
#[derive(Debug, PartialEq, Eq, Structural)]
pub struct OutputStream {
    pub sock: Socket,
}

/// A socket that listens for connections.
#[derive(Debug, PartialEq, Eq, Structural)]
pub struct Listener {
    pub sock: Socket,
    pub nonblocking: bool,
}

impl Stream {
    /// The calls made before the stream is used for receiving: in
    /// non-blocking mode the switch that makes receiving not block.
    pub fn input_plan(&self) -> (ops: Vec<SocketOp>)
        ensures
            ops@ == if self.nonblocking {
                seq![SocketOp::SetOption(recv_mode(true))]
            } else {
                Seq::<SocketOp>::empty()
            },
    {
        let mut ops: Vec<SocketOp> = Vec::new();
        if self.nonblocking {
            ops.push(SocketOp::SetOption(self.sock.set_recv_nonblocking(true)));
        }
        assert(self.nonblocking ==> ops@ =~= seq![SocketOp::SetOption(recv_mode(true))]);
        ops
    }

    /// The calls made before the stream is used for sending: in
    /// non-blocking mode the switch that makes sending not block.
    pub fn output_plan(&self) -> (ops: Vec<SocketOp>)
        ensures
            ops@ == if self.nonblocking {
                seq![SocketOp::SetOption(send_mode(true))]
            } else {
                Seq::<SocketOp>::empty()
            },
    {
        let mut ops: Vec<SocketOp> = Vec::new();
        if self.nonblocking {
            ops.push(SocketOp::SetOption(self.sock.set_send_nonblocking(true)));
        }
        assert(self.nonblocking ==> ops@ =~= seq![SocketOp::SetOption(send_mode(true))]);
        ops
    }

    /// The receiving half, once the input plan was carried out.
    pub fn input_stream(self) -> (input: InputStream)
        ensures
            input.sock == self.sock,
    {
        InputStream { sock: self.sock }
    }

    /// The sending half, once the output plan was carried out.
    pub fn output_stream(self) -> (output: OutputStream)
        ensures
            output.sock == self.sock,
    {
        OutputStream { sock: self.sock }
    }
}

impl Listener {
    /// The calls made on a socket that this listener accepted: in
    /// non-blocking mode the switch that makes receiving not block.
    pub fn accept_plan(&self, sock: &Socket) -> (ops: Vec<SocketOp>)
        ensures
            ops@ == if self.nonblocking {
                seq![SocketOp::SetOption(recv_mode(true))]
            } else {
                Seq::<SocketOp>::empty()
            },
    {
        let mut ops: Vec<SocketOp> = Vec::new();
        if self.nonblocking {
            ops.push(SocketOp::SetOption(sock.set_recv_nonblocking(true)));
        }
        assert(self.nonblocking ==> ops@ =~= seq![SocketOp::SetOption(recv_mode(true))]);
        ops
    }

    /// The stream over an accepted socket whose accept plan was carried
    /// out; it blocks or not as the listener does.
    pub fn accept(&self, sock: Socket) -> (stream: Stream)
        ensures
            stream == (Stream { sock, nonblocking: self.nonblocking }),
    {
        Stream { sock, nonblocking: self.nonblocking }
    }
}

impl AsSocket for Stream {
    open spec fn socket(&self) -> Socket {
        self.sock
    }

    fn as_socket(&self) -> (sock: &Socket) {
        &self.sock
    }
}

impl Bind for Stream {

}

impl Connect for Stream {

}

impl AsSocket for InputStream {
    open spec fn socket(&self) -> Socket {
        self.sock
    }

    fn as_socket(&self) -> (sock: &Socket) {
        &self.sock
    }
}

impl Bind for InputStream {

}

impl Connect for InputStream {

}

impl AsSocket for OutputStream {
    open spec fn socket(&self) -> Socket {
        self.sock
    }

    fn as_socket(&self) -> (sock: &Socket) {
        &self.sock
    }
}

impl Bind for OutputStream {

}

impl Connect for OutputStream {

}

impl AsSocket for Listener {
    open spec fn socket(&self) -> Socket {
        self.sock
    }

    fn as_socket(&self) -> (sock: &Socket) {
        &self.sock
    }
}

impl Bind for Listener {

}

/// A multiplexer for anything that has a socket.
pub struct Poll {
    poll: crate::poll::Poll,
}

impl View for Poll {
    type V = Map<SRTSOCKET, Token>;

    closed spec fn view(&self) -> Map<SRTSOCKET, Token> {
        self.poll@
    }
}

impl Poll {
    /// The registry below.
    pub closed spec fn inner(&self) -> crate::poll::Poll {
        self.poll
    }

    /// Takes what the native call that creates a multiplexer returned.
    pub fn new(ret: i32, last: Error) -> (r: Result<Poll, Error>)
        ensures
            ret == -1 ==> r == (Err::<Poll, Error>(last)),
            ret != -1 ==> (r matches Ok(poll) && poll.inner().id() == ret && poll@ == (Map::<
                SRTSOCKET,
                Token,
            >::empty())),
    {
        match crate::poll::Poll::new(ret, last) {
            Ok(poll) => Ok(Poll { poll }),
            Err(e) => Err(e),
        }
    }

    /// The native handle of the multiplexer.
    pub fn epid(&self) -> (epid: i32)
        ensures
            epid == self.inner().id(),
    {
        self.poll.epid()
    }

    /// The number of registered sockets.
    pub fn len(&self) -> (n: usize)
        ensures
            n == self@.len(),
    {
        self.poll.len()
    }

    /// Records the registration of the socket of `socket`.
    pub fn register<S: AsSocket>(
        &mut self,
        socket: &S,
        token: Token,
        ret: i32,
        last: Error,
    ) -> (r: Result<(), Error>)
        ensures
            final(self).inner().id() == old(self).inner().id(),
            ret == -1 ==> r == (Err::<(), Error>(last)) && final(self)@ == old(self)@,
            ret != -1 ==> r == (Ok::<(), Error>(())) && final(self)@ == old(self)@.insert(
                socket.socket()@,
                token,
            ),
    {
        self.poll.register(socket.as_socket(), token, ret, last)
    }

    /// Records the changed registration of the socket of `socket`.
    pub fn reregister<S: AsSocket>(
        &mut self,
        socket: &S,
        token: Token,
        ret: i32,
        last: Error,
    ) -> (r: Result<(), Error>)
        ensures
            final(self).inner().id() == old(self).inner().id(),
            ret == -1 ==> r == (Err::<(), Error>(last)) && final(self)@ == old(self)@,
            ret != -1 ==> r == (Ok::<(), Error>(())) && final(self)@ == old(self)@.insert(
                socket.socket()@,
                token,
            ),
    {
        self.poll.reregister(socket.as_socket(), token, ret, last)
    }

    /// Forgets the registration of the socket of `socket`.
    pub fn deregister<S: AsSocket>(&mut self, socket: &S, ret: i32, last: Error) -> (r: Result<
        (),
        Error,
    >)
        ensures
            final(self).inner().id() == old(self).inner().id(),
            final(self)@ == old(self)@.remove(socket.socket()@),
            ret == -1 ==> r == (Err::<(), Error>(last)),
            ret != -1 ==> r == (Ok::<(), Error>(())),
    {
        self.poll.deregister(socket.as_socket(), ret, last)
    }

    /// Takes what one native wait call returned and appends its events.
    pub fn poll(&self, events: &mut Events, wait: Wait) -> (r: Result<usize, Error>)
        ensures
            wait.failed() ==> r == (Err::<usize, Error>(wait.error)) && final(events)@ == old(
                events,
            )@,
            !wait.failed() ==> r == (Ok::<usize, Error>(
                self.inner().events_for(wait).len() as usize,
            )) && final(events)@ == old(events)@ + self.inner().events_for(wait),
    {
        self.poll.poll(events, wait)
    }
}

} // verus!
