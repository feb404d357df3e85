//! Holders for the halves of a stream.
//!
//! One type serves both kinds of stream: a bidirectional stream fills both
//! halves at once, a unidirectional one fills exactly one and leaves the
//! other absent.

use vstd::prelude::*;
use crate::handle::SharedHandle;

verus! {

/// The sending half of a stream, on its own.
#[derive(Debug)]
pub struct IrohSendStream<S> {
    send_stream: SharedHandle<S>,
}

/// The receiving half of a stream, on its own.
#[derive(Debug)]
pub struct IrohRecvStream<R> {
    recv_stream: SharedHandle<R>,
}

/// A stream as it is handed to the host: a sending half, a receiving half, or both.
#[derive(Debug)]
pub struct IrohStream<S, R> {
    send_stream: SharedHandle<S>,
    recv_stream: SharedHandle<R>,
}

impl<S> View for IrohSendStream<S> {
    type V = Option<S>;

    closed spec fn view(&self) -> Option<S> {
        self.send_stream@
    }
}

impl<R> View for IrohRecvStream<R> {
    type V = Option<R>;

    closed spec fn view(&self) -> Option<R> {
        self.recv_stream@
    }
}

impl<S> IrohSendStream<S> {
    /// A holder without a stream.
    pub fn new() -> (holder: Self)
        ensures
            holder@ is None,
    {
        IrohSendStream { send_stream: SharedHandle::new() }
    }

    /// The sending half, if there is one.
    pub fn send_stream(&self) -> (half: Option<&S>)
        ensures
            half is Some == self@ is Some,
            half matches Some(s) ==> self@ == Some(*s),
    {
        self.send_stream.read()
    }

    /// Gives up the holder and hands out the half.
    pub fn into_inner(self) -> (half: Option<S>)
        ensures
            half == self@,
    {
        self.send_stream.into_inner()
    }
}

impl<R> IrohRecvStream<R> {
    /// A holder without a stream.
    pub fn new() -> (holder: Self)
        ensures
            holder@ is None,
    {
        IrohRecvStream { recv_stream: SharedHandle::new() }
    }

    /// The receiving half, if there is one.
    pub fn recv_stream(&self) -> (half: Option<&R>)
        ensures
            half is Some == self@ is Some,
            half matches Some(r) ==> self@ == Some(*r),
    {
        self.recv_stream.read()
    }

    /// Gives up the holder and hands out the half.
    pub fn into_inner(self) -> (half: Option<R>)
        ensures
            half == self@,
    {
        self.recv_stream.into_inner()
    }
}

impl<S, R> IrohStream<S, R> {
    /// The sending half that the stream holds.
    pub closed spec fn send_half(&self) -> Option<S> {
        self.send_stream@
    }

    /// The receiving half that the stream holds.
    pub closed spec fn recv_half(&self) -> Option<R> {
        self.recv_stream@
    }

    /// A stream object with neither half.
    pub fn new() -> (stream: Self)
        ensures
            stream.send_half() is None,
            stream.recv_half() is None,
    {
        IrohStream { send_stream: SharedHandle::new(), recv_stream: SharedHandle::new() }
    }

    /// A stream object with exactly the halves given.
    pub fn from_halves(send: Option<S>, recv: Option<R>) -> (stream: Self)
        ensures
            stream.send_half() == send,
            stream.recv_half() == recv,
    {
        let mut send_stream = SharedHandle::new();
        let mut recv_stream = SharedHandle::new();
        if let Some(half) = send {
            send_stream.write(half);
        }
        if let Some(half) = recv {
            recv_stream.write(half);
        }
        IrohStream { send_stream, recv_stream }
    }

    /// The sending half, if there is one.
    pub fn send_stream(&self) -> (half: Option<&S>)
        ensures
            half is Some == self.send_half() is Some,
            half matches Some(s) ==> self.send_half() == Some(*s),
    {
        self.send_stream.read()
    }

    /// The receiving half, if there is one.
    pub fn recv_stream(&self) -> (half: Option<&R>)
        ensures
            half is Some == self.recv_half() is Some,
            half matches Some(r) ==> self.recv_half() == Some(*r),
    {
        self.recv_stream.read()
    }

    /// Whether both halves are there.
    pub fn is_bidirectional(&self) -> (both: bool)
        ensures
            both == (self.send_half() is Some && self.recv_half() is Some),
    {
        self.send_stream.is_present() && self.recv_stream.is_present()
    }

    /// Takes the stream apart into its two holders; each keeps what the stream held.
    pub fn split(self) -> (parts: (IrohSendStream<S>, IrohRecvStream<R>))
        ensures
            parts.0@ == self.send_half(),
            parts.1@ == self.recv_half(),
    {
        (
            IrohSendStream { send_stream: self.send_stream },
            IrohRecvStream { recv_stream: self.recv_stream },
        )
    }
}

} // verus!
