//! The connection facade: opening and accepting streams on a session.

use vstd::prelude::*;
use crate::bridge::{completion_of, create_signal_emitter, Completion, HostHandle, SignalEmitter};
use crate::error::{prerequisite_refusal, FacadeError, FacadeErrorView};
use crate::handle::SharedHandle;
use crate::streams::IrohStream;

verus! {

/// Signal under which a non-blocking `open_uni` answers.
pub const OPEN_UNI_SIGNAL: &'static str = "open_uni_async_results";

/// Signal under which a non-blocking `open_bi` answers.
pub const OPEN_BI_SIGNAL: &'static str = "open_bi_async_results";

/// Signal under which a non-blocking `accept_uni` answers.
pub const ACCEPT_UNI_SIGNAL: &'static str = "accept_uni_async_results";

/// Signal under which a non-blocking `accept_bi` answers.
pub const ACCEPT_BI_SIGNAL: &'static str = "accept_bi_async_results";

/// The four stream operations of a connection.
#[derive(Debug, Clone, Copy, PartialEq, Eq, Structural)]
pub enum StreamOp {
    OpenUni,
    OpenBi,
    AcceptUni,
    AcceptBi,
}

/// Transport work that a stream operation asks for: run `op` on `connection`.
#[derive(Debug, PartialEq, Eq)]
pub struct StreamRequest<'a, C> {
    pub connection: &'a C,
    pub op: StreamOp,
}

/// An established session with a peer, or the place where one will be put.
#[derive(Debug)]
pub struct IrohConnection<C> {
    connection: SharedHandle<C>,
}

impl<C> View for IrohConnection<C> {
    type V = Option<C>;

    closed spec fn view(&self) -> Option<C> {
        self.connection@
    }
}

impl<C> IrohConnection<C> {
    /// A facade without a session.
    pub fn new() -> (facade: Self)
        ensures
            facade@ is None,
    {
        IrohConnection { connection: SharedHandle::new() }
    }

    /// A facade around a session that the transport has just established.
    pub fn established(session: C) -> (facade: Self)
        ensures
            facade@ == Some(session),
    {
        let mut connection = SharedHandle::new();
        connection.write(session);
        IrohConnection { connection }
    }

    /// The session, or `NotInitialized` where there is none.
    pub fn get_connection(&self) -> (session: Result<&C, FacadeError>)
        ensures
            match session {
                Ok(c) => self@ == Some(*c),
                Err(e) => Some(e@) == prerequisite_refusal(self@ is Some),
            },
    {
        match self.connection.read() {
            Some(session) => Ok(session),
            None => Err(FacadeError::NotInitialized),
        }
    }

    /// First step of every stream operation: without a session the
    /// operation ends here with `NotInitialized` and no transport work is
    /// named; with one, the work is `op` on that session.
    pub fn stream_logic(&self, op: StreamOp) -> (request: Result<StreamRequest<'_, C>, FacadeError>)
        ensures
            match request {
                Ok(work) => self@ == Some(*work.connection) && work.op == op,
                Err(e) => Some(e@) == prerequisite_refusal(self@ is Some),
            },
    {
        match self.get_connection() {
            Ok(connection) => Ok(StreamRequest { connection, op }),
            Err(error) => Err(error),
        }
    }

    /// First step of opening a unidirectional stream.
    pub fn open_uni_logic(&self) -> (request: Result<StreamRequest<'_, C>, FacadeError>)
        ensures
            match request {
                Ok(work) => self@ == Some(*work.connection) && work.op == StreamOp::OpenUni,
                Err(e) => Some(e@) == prerequisite_refusal(self@ is Some),
            },
    {
        self.stream_logic(StreamOp::OpenUni)
    }

    /// First step of opening a bidirectional stream.
    pub fn open_bi_logic(&self) -> (request: Result<StreamRequest<'_, C>, FacadeError>)
        ensures
            match request {
                Ok(work) => self@ == Some(*work.connection) && work.op == StreamOp::OpenBi,
                Err(e) => Some(e@) == prerequisite_refusal(self@ is Some),
            },
    {
        self.stream_logic(StreamOp::OpenBi)
    }

    /// First step of accepting a unidirectional stream.
    pub fn accept_uni_logic(&self) -> (request: Result<StreamRequest<'_, C>, FacadeError>)
        ensures
            match request {
                Ok(work) => self@ == Some(*work.connection) && work.op == StreamOp::AcceptUni,
                Err(e) => Some(e@) == prerequisite_refusal(self@ is Some),
            },
    {
        self.stream_logic(StreamOp::AcceptUni)
    }

    /// First step of accepting a bidirectional stream.
    pub fn accept_bi_logic(&self) -> (request: Result<StreamRequest<'_, C>, FacadeError>)
        ensures
            match request {
                Ok(work) => self@ == Some(*work.connection) && work.op == StreamOp::AcceptBi,
                Err(e) => Some(e@) == prerequisite_refusal(self@ is Some),
            },
    {
        self.stream_logic(StreamOp::AcceptBi)
    }

    /// Last step of `open_uni`: the stream object holds the sending half
    /// alone; a transport failure becomes `StreamOpenFailed`.
    pub fn open_uni_blocking<S, R>(outcome: Result<S, String>) -> (stream: Result<
        IrohStream<S, R>,
        FacadeError,
    >)
        ensures
            match outcome {
                Ok(send) => stream matches Ok(s) && s.send_half() == Some(send)
                    && s.recv_half() is None,
                Err(detail) => stream matches Err(e) && e@ == FacadeErrorView::StreamOpenFailed(
                    detail@,
                ),
            },
    {
        match outcome {
            Ok(send) => Ok(IrohStream::from_halves(Some(send), None)),
            Err(detail) => Err(FacadeError::StreamOpenFailed(detail)),
        }
    }

    /// Last step of `open_bi`: both halves enter the stream object together;
    /// a transport failure becomes `StreamOpenFailed`.
    pub fn open_bi_blocking<S, R>(outcome: Result<(S, R), String>) -> (stream: Result<
        IrohStream<S, R>,
        FacadeError,
    >)
        ensures
            match outcome {
                Ok(halves) => stream matches Ok(s) && s.send_half() == Some(halves.0)
                    && s.recv_half() == Some(halves.1),
                Err(detail) => stream matches Err(e) && e@ == FacadeErrorView::StreamOpenFailed(
                    detail@,
                ),
            },
    {
        match outcome {
            Ok((send, recv)) => Ok(IrohStream::from_halves(Some(send), Some(recv))),
            Err(detail) => Err(FacadeError::StreamOpenFailed(detail)),
        }
    }

    /// Last step of `accept_uni`: the stream object holds the receiving half
    /// alone; a transport failure becomes `StreamAcceptFailed`.
    pub fn accept_uni_blocking<S, R>(outcome: Result<R, String>) -> (stream: Result<
        IrohStream<S, R>,
        FacadeError,
    >)
        ensures
            match outcome {
                Ok(recv) => stream matches Ok(s) && s.send_half() is None && s.recv_half()
                    == Some(recv),
                Err(detail) => stream matches Err(e) && e@ == FacadeErrorView::StreamAcceptFailed(
                    detail@,
                ),
            },
    {
        match outcome {
            Ok(recv) => Ok(IrohStream::from_halves(None, Some(recv))),
            Err(detail) => Err(FacadeError::StreamAcceptFailed(detail)),
        }
    }

    /// Last step of `accept_bi`: both halves enter the stream object
    /// together; a transport failure becomes `StreamAcceptFailed`.
    pub fn accept_bi_blocking<S, R>(outcome: Result<(S, R), String>) -> (stream: Result<
        IrohStream<S, R>,
        FacadeError,
    >)
        ensures
            match outcome {
                Ok(halves) => stream matches Ok(s) && s.send_half() == Some(halves.0)
                    && s.recv_half() == Some(halves.1),
                Err(detail) => stream matches Err(e) && e@ == FacadeErrorView::StreamAcceptFailed(
                    detail@,
                ),
            },
    {
        match outcome {
            Ok((send, recv)) => Ok(IrohStream::from_halves(Some(send), Some(recv))),
            Err(detail) => Err(FacadeError::StreamAcceptFailed(detail)),
        }
    }

    /// The emitter of a non-blocking stream operation started by `host`.
    pub open spec fn stream_emitter(host: HostHandle, op: StreamOp) -> SignalEmitter {
        SignalEmitter {
            target: host,
            signal_name: match op {
                StreamOp::OpenUni => OPEN_UNI_SIGNAL,
                StreamOp::OpenBi => OPEN_BI_SIGNAL,
                StreamOp::AcceptUni => ACCEPT_UNI_SIGNAL,
                StreamOp::AcceptBi => ACCEPT_BI_SIGNAL,
            },
        }
    }

    /// Non-blocking `open_uni`, once it has run: what the blocking variant
    /// would have returned goes to `host` under [`OPEN_UNI_SIGNAL`], if
    /// `host` still exists.
    pub fn open_uni_async<S, R>(
        host: HostHandle,
        host_alive: bool,
        result: Result<IrohStream<S, R>, FacadeError>,
    ) -> (done: Completion<Option<IrohStream<S, R>>>)
        ensures
            done == completion_of(Self::stream_emitter(host, StreamOp::OpenUni), host_alive, result),
    {
        create_signal_emitter(host, OPEN_UNI_SIGNAL).deliver_result(host_alive, result)
    }

    /// Non-blocking `open_bi`, once it has run: what the blocking variant
    /// would have returned goes to `host` under [`OPEN_BI_SIGNAL`], if
    /// `host` still exists.
    pub fn open_bi_async<S, R>(
        host: HostHandle,
        host_alive: bool,
        result: Result<IrohStream<S, R>, FacadeError>,
    ) -> (done: Completion<Option<IrohStream<S, R>>>)
        ensures
            done == completion_of(Self::stream_emitter(host, StreamOp::OpenBi), host_alive, result),
    {
        create_signal_emitter(host, OPEN_BI_SIGNAL).deliver_result(host_alive, result)
    }

    /// Non-blocking `accept_uni`, once it has run: what the blocking variant
    /// would have returned goes to `host` under [`ACCEPT_UNI_SIGNAL`], if
    /// `host` still exists.
    pub fn accept_uni_async<S, R>(
        host: HostHandle,
        host_alive: bool,
        result: Result<IrohStream<S, R>, FacadeError>,
    ) -> (done: Completion<Option<IrohStream<S, R>>>)
        ensures
            done == completion_of(
                Self::stream_emitter(host, StreamOp::AcceptUni),
                host_alive,
                result,
            ),
    {
        create_signal_emitter(host, ACCEPT_UNI_SIGNAL).deliver_result(host_alive, result)
    }

    /// Non-blocking `accept_bi`, once it has run: what the blocking variant
    /// would have returned goes to `host` under [`ACCEPT_BI_SIGNAL`], if
    /// `host` still exists.
    pub fn accept_bi_async<S, R>(
        host: HostHandle,
        host_alive: bool,
        result: Result<IrohStream<S, R>, FacadeError>,
    ) -> (done: Completion<Option<IrohStream<S, R>>>)
        ensures
            done == completion_of(
                Self::stream_emitter(host, StreamOp::AcceptBi),
                host_alive,
                result,
            ),
    {
        create_signal_emitter(host, ACCEPT_BI_SIGNAL).deliver_result(host_alive, result)
    }
}

} // verus!
