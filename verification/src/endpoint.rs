//! The endpoint facade: binding a local identity, dialling peers, accepting peers.

use vstd::prelude::*;
use vstd::utf8::encode_utf8;
use crate::bridge::{
    completion_of,
    create_signal_emitter,
    delivery_of,
    Completion,
    Delivery,
    HostHandle,
    SignalEmitter,
};
use crate::connection::IrohConnection;
use crate::error::{prerequisite_refusal, FacadeError, FacadeErrorView};
use crate::handle::SharedHandle;
use crate::peer::{hex_lower, public_key_bytes, PeerId};

verus! {

/// What `address` answers for an endpoint that is not bound.
pub const ADDRESS_SENTINEL: &'static str = "N/A";

/// Signal under which a non-blocking `bind` answers.
pub const BIND_SIGNAL: &'static str = "bind_async_result";

/// Signal under which a non-blocking `connect` answers.
pub const CONNECT_SIGNAL: &'static str = "connect_async_result";

/// Signal under which a non-blocking `accept` answers.
pub const ACCEPT_SIGNAL: &'static str = "accept_async_result";

/// Detail of the `AcceptFailed` that a closed endpoint gives.
pub const ENDPOINT_CLOSED: &'static str = "the endpoint was closed before a connection arrived";

/// A bound local identity: who we are, which protocols we accept, and the
/// transport's own object for it.
#[derive(Debug, PartialEq, Eq)]
pub struct Binding<E> {
    pub id: PeerId,
    pub alpns: Vec<Vec<u8>>,
    pub transport: E,
}

/// Transport work that `bind` asks for: allocate an identity that accepts `alpns`.
#[derive(Debug, PartialEq, Eq)]
pub struct BindRequest {
    pub alpns: Vec<Vec<u8>>,
    /// The facade is bound already; the new binding will supersede the old one.
    pub overwrites: bool,
}

/// Transport work that `connect` asks for: dial `peer` from `endpoint` for the protocol `alpn`.
#[derive(Debug, PartialEq, Eq)]
pub struct ConnectRequest<'a, E> {
    pub endpoint: &'a E,
    pub peer: PeerId,
    pub alpn: Vec<u8>,
}

/// What the transport reports after waiting for an inbound connection.
#[derive(Debug, PartialEq, Eq)]
pub enum AcceptOutcome<C> {
    /// The endpoint was closed while waiting.
    Closed,
    /// A peer arrived, and the handshake with it failed.
    HandshakeFailed(String),
    /// A peer arrived, and the session stands.
    Established(C),
}

/// A local endpoint, bound or not yet.
#[derive(Debug)]
pub struct IrohEndpoint<E> {
    endpoint: SharedHandle<Binding<E>>,
}

impl<E> View for IrohEndpoint<E> {
    type V = Option<Binding<E>>;

    closed spec fn view(&self) -> Option<Binding<E>> {
        self.endpoint@
    }
}

/// The binding of an endpoint after a `bind` whose transport work ended in
/// `outcome`: a new binding supersedes, a failure leaves things as they were.
pub open spec fn bind_state<E>(before: Option<Binding<E>>, outcome: Result<Binding<E>, String>)
    -> Option<Binding<E>> {
    match outcome {
        Ok(binding) => Some(binding),
        Err(_) => before,
    }
}

/// What a blocking `bind` returns: the superseded binding, as it was, on
/// success; `BindError` with the transport's text on failure.
pub open spec fn bind_returns<E>(before: Option<Binding<E>>, outcome: Result<Binding<E>, String>)
    -> Result<Option<Binding<E>>, FacadeErrorView> {
    match outcome {
        Ok(_) => Ok(before),
        Err(detail) => Err(FacadeErrorView::BindError(detail@)),
    }
}

/// The binding of an endpoint that started unbound and has since seen the
/// bind outcomes of `history`, oldest first.
pub open spec fn state_after<E>(history: Seq<Result<Binding<E>, String>>) -> Option<Binding<E>>
    decreases history.len(),
{
    if history.len() == 0 {
        None
    } else {
        bind_state(state_after(history.drop_last()), history.last())
    }
}

/// Why `connect` ends before any transport work, if it does: an unbound
/// endpoint first, then an identifier that is no public key.
pub open spec fn connect_refusal(bound: bool, parsed: Option<Seq<u8>>, address: Seq<char>)
    -> Option<FacadeErrorView> {
    if !bound {
        Some(FacadeErrorView::NotInitialized)
    } else if parsed is None {
        Some(FacadeErrorView::InvalidPeerIdentifier(address))
    } else {
        None
    }
}

/// What `address` answers in a given state.
pub open spec fn address_text<E>(state: Option<Binding<E>>) -> Seq<char> {
    match state {
        Some(binding) => hex_lower(binding.id@),
        None => ADDRESS_SENTINEL@,
    }
}

/// The emitter of a non-blocking `bind` started by `host`.
pub open spec fn bind_emitter(host: HostHandle) -> SignalEmitter {
    SignalEmitter { target: host, signal_name: BIND_SIGNAL }
}

/// The emitter of a non-blocking `connect` started by `host`.
pub open spec fn connect_emitter(host: HostHandle) -> SignalEmitter {
    SignalEmitter { target: host, signal_name: CONNECT_SIGNAL }
}

/// The emitter of a non-blocking `accept` started by `host`.
pub open spec fn accept_emitter(host: HostHandle) -> SignalEmitter {
    SignalEmitter { target: host, signal_name: ACCEPT_SIGNAL }
}

/// An endpoint answers the sentinel until a bind succeeds, and from then on
/// never again: after any history of bind outcomes, the address is the
/// sentinel exactly where none of them was a success.
pub proof fn lemma_address_sentinel_until_bound<E>(history: Seq<Result<Binding<E>, String>>)
    ensures
        state_after(history) is None <==> forall|i: int|
            0 <= i < history.len() ==> (#[trigger] history[i]) is Err,
        address_text(state_after(history)) == ADDRESS_SENTINEL@ <==> state_after(history) is None,
    decreases history.len(),
{
    reveal_strlit("N/A");
    if history.len() > 0 {
        let earlier = history.drop_last();
        lemma_address_sentinel_until_bound(earlier);
        if history.last() is Err && state_after(earlier) is Some {
            let i = choose|i: int| 0 <= i < earlier.len() && !((#[trigger] earlier[i]) is Err);
            assert(history[i] == earlier[i]);
        }
        if state_after(history) is None {
            assert forall|i: int| 0 <= i < history.len() implies (#[trigger] history[i])
                is Err by {
                if i < earlier.len() {
                    assert(history[i] == earlier[i]);
                }
            }
        }
    }
    if let Some(binding) = state_after(history) {
        binding.id.lemma_lengths();
    }
}

/// After a bind that succeeded, the address is the text of the new
/// identity, whatever the endpoint was before.
pub proof fn lemma_address_after_bind<E>(before: Option<Binding<E>>, binding: Binding<E>)
    ensures
        address_text(bind_state(before, Ok(binding))) == hex_lower(binding.id@),
        address_text(bind_state(before, Ok(binding))) != ADDRESS_SENTINEL@,
{
    reveal_strlit("N/A");
    binding.id.lemma_lengths();
}

/// A bound endpoint refuses every text that is no public key with
/// `InvalidPeerIdentifier`, which carries the text. An endpoint that is
/// not bound refuses with `NotInitialized` before it looks at the text.
pub proof fn lemma_malformed_identifier_refused(bound: bool, address: Seq<char>)
    requires
        bound,
        public_key_bytes(address) is None,
    ensures
        connect_refusal(bound, public_key_bytes(address), address) == Some(
            FacadeErrorView::InvalidPeerIdentifier(address),
        ),
{
}

/// An endpoint that is not bound refuses `connect` with `NotInitialized`,
/// whatever the identifier; a refused `connect` names no transport work.
pub proof fn lemma_unbound_connect_refused(parsed: Option<Seq<u8>>, address: Seq<char>)
    ensures
        connect_refusal(false, parsed, address) == Some(FacadeErrorView::NotInitialized),
{
}

/// Binding an endpoint that is bound succeeds: the new binding takes the
/// place of the old one, and the old one is handed back unchanged.
pub proof fn lemma_rebind_supersedes<E>(prior: Binding<E>, next: Binding<E>)
    ensures
        bind_state(Some(prior), Ok(next)) == Some(next),
        bind_returns(Some(prior), Ok(next)) == Ok::<Option<Binding<E>>, FacadeErrorView>(
            Some(prior),
        ),
{
}

/// A non-blocking `bind` tells the host `true` exactly where the blocking
/// variant succeeds, and changes the endpoint exactly as the blocking
/// variant does.
pub proof fn lemma_bind_variants_agree<E>(
    before: Option<Binding<E>>,
    outcome: Result<Binding<E>, String>,
    host: HostHandle,
)
    ensures
        delivery_of(bind_emitter(host), true, outcome is Ok) == (Delivery::Posted {
            target: host,
            signal: BIND_SIGNAL,
            value: bind_returns(before, outcome) is Ok,
        }),
{
}

impl<E> IrohEndpoint<E> {
    /// An endpoint that is not bound.
    pub fn new() -> (facade: Self)
        ensures
            facade@ is None,
    {
        IrohEndpoint { endpoint: SharedHandle::new() }
    }

    /// Whether the endpoint is bound.
    pub fn is_bound(&self) -> (bound: bool)
        ensures
            bound == (self@ is Some),
    {
        self.endpoint.is_present()
    }

    /// First step of `bind`: the protocol names become the byte strings the
    /// transport advertises, in the order given. Binding again is allowed;
    /// the request says so.
    pub fn bind_logic(&self, alpns: &Vec<String>) -> (request: BindRequest)
        ensures
            request.overwrites == (self@ is Some),
            request.alpns@.len() == alpns@.len(),
            forall|i: int|
                0 <= i < alpns@.len() ==> (#[trigger] request.alpns@[i])@ == encode_utf8(
                    alpns@[i]@,
                ),
    {
        let mut bytes: Vec<Vec<u8>> = Vec::new();
        let mut i: usize = 0;
        while i < alpns.len()
            invariant
                i <= alpns@.len(),
                bytes@.len() == i,
                forall|j: int|
                    0 <= j < i ==> (#[trigger] bytes@[j])@ == encode_utf8(alpns@[j]@),
            decreases alpns@.len() - i,
        {
            bytes.push(alpns[i].as_str().as_bytes_vec());
            i += 1;
        }
        BindRequest { alpns: bytes, overwrites: self.endpoint.is_present() }
    }

    /// Last step of a blocking `bind`. A binding that the transport produced
    /// takes the place of whatever was there, and the superseded binding is
    /// handed back as it was. A transport failure becomes `BindError` and
    /// leaves the endpoint as it was.
    pub fn bind_blocking(&mut self, outcome: Result<Binding<E>, String>) -> (superseded: Result<
        Option<Binding<E>>,
        FacadeError,
    >)
        ensures
            final(self)@ == bind_state(old(self)@, outcome),
            match superseded {
                Ok(prior) => bind_returns(old(self)@, outcome) == Ok::<
                    Option<Binding<E>>,
                    FacadeErrorView,
                >(prior),
                Err(e) => bind_returns(old(self)@, outcome) == Err::<
                    Option<Binding<E>>,
                    FacadeErrorView,
                >(e@),
            },
    {
        match outcome {
            Ok(binding) => Ok(self.endpoint.write(binding)),
            Err(detail) => Err(FacadeError::BindError(detail)),
        }
    }

    /// Last step of a non-blocking `bind`. The endpoint changes exactly as
    /// in the blocking variant, whether or not `host` still exists; the flag
    /// for the host is `true` where the blocking variant would have
    /// succeeded.
    pub fn bind_async(
        &mut self,
        host: HostHandle,
        host_alive: bool,
        outcome: Result<Binding<E>, String>,
    ) -> (done: Completion<bool>)
        ensures
            final(self)@ == bind_state(old(self)@, outcome),
            done.delivery == delivery_of(bind_emitter(host), host_alive, outcome is Ok),
            match outcome {
                Ok(_) => done.failure is None,
                Err(detail) => done.failure matches Some(e) && e@ == FacadeErrorView::BindError(
                    detail@,
                ),
            },
    {
        let result = self.bind_blocking(outcome);
        create_signal_emitter(host, BIND_SIGNAL).deliver_flag(host_alive, result)
    }

    /// The binding, or `NotInitialized` where the endpoint is not bound.
    pub fn get_endpoint(&self) -> (binding: Result<&Binding<E>, FacadeError>)
        ensures
            match binding {
                Ok(b) => self@ == Some(*b),
                Err(e) => Some(e@) == prerequisite_refusal(self@ is Some),
            },
    {
        match self.endpoint.read() {
            Some(binding) => Ok(binding),
            None => Err(FacadeError::NotInitialized),
        }
    }

    /// First step of `connect`, given what reading `endpoint_address` as a
    /// peer identifier produced.
    ///
    /// An unbound endpoint refuses with `NotInitialized`; a bound one
    /// refuses an identifier that did not parse with `InvalidPeerIdentifier`
    /// carrying the text. Otherwise the request names the endpoint's
    /// transport object, the peer, and the protocol as bytes.
    pub fn connect_checked(&self, parsed: Option<PeerId>, endpoint_address: &str, alpn: &str) -> (request:
        Result<ConnectRequest<'_, E>, FacadeError>)
        ensures
            match request {
                Ok(dial) => {
                    &&& self@ matches Some(binding)
                    &&& parsed matches Some(peer)
                    &&& *dial.endpoint == binding.transport
                    &&& dial.peer@ == peer@
                    &&& dial.alpn@ == encode_utf8(alpn@)
                },
                Err(e) => Some(e@) == connect_refusal(
                    self@ is Some,
                    match parsed {
                        Some(peer) => Some(peer@),
                        None => None,
                    },
                    endpoint_address@,
                ),
            },
    {
        let binding = match self.endpoint.read() {
            Some(binding) => binding,
            None => {
                return Err(FacadeError::NotInitialized);
            },
        };
        let peer = match parsed {
            Some(peer) => peer,
            None => {
                return Err(FacadeError::InvalidPeerIdentifier(String::from_str(endpoint_address)));
            },
        };
        Ok(ConnectRequest { endpoint: &binding.transport, peer, alpn: alpn.as_bytes_vec() })
    }

    /// First step of `connect`: reads `endpoint_address` as a peer
    /// identifier and decides as [`Self::connect_checked`] does. An unbound
    /// endpoint refuses before the identifier is looked at.
    pub fn connect_logic(&self, endpoint_address: &str, alpn: &str) -> (request: Result<
        ConnectRequest<'_, E>,
        FacadeError,
    >)
        ensures
            match request {
                Ok(dial) => {
                    &&& self@ matches Some(binding)
                    &&& *dial.endpoint == binding.transport
                    &&& public_key_bytes(endpoint_address@) == Some(dial.peer@)
                    &&& dial.alpn@ == encode_utf8(alpn@)
                },
                Err(e) => Some(e@) == connect_refusal(
                    self@ is Some,
                    public_key_bytes(endpoint_address@),
                    endpoint_address@,
                ),
            },
    {
        let parsed = if self.endpoint.is_present() {
            PeerId::parse(endpoint_address)
        } else {
            None
        };
        self.connect_checked(parsed, endpoint_address, alpn)
    }

    /// Last step of a blocking `connect`: a session becomes a connection
    /// facade that holds it; a transport failure becomes `ConnectError`.
    pub fn connect_blocking<C>(outcome: Result<C, String>) -> (connection: Result<
        IrohConnection<C>,
        FacadeError,
    >)
        ensures
            match outcome {
                Ok(session) => connection matches Ok(c) && c@ == Some(session),
                Err(detail) => connection matches Err(e) && e@ == FacadeErrorView::ConnectError(
                    detail@,
                ),
            },
    {
        match outcome {
            Ok(session) => Ok(IrohConnection::established(session)),
            Err(detail) => Err(FacadeError::ConnectError(detail)),
        }
    }

    /// Non-blocking `connect`, once it has run: what the blocking variant
    /// would have returned goes to `host` under [`CONNECT_SIGNAL`], if
    /// `host` still exists.
    pub fn connect_async<C>(
        host: HostHandle,
        host_alive: bool,
        result: Result<IrohConnection<C>, FacadeError>,
    ) -> (done: Completion<Option<IrohConnection<C>>>)
        ensures
            done == completion_of(connect_emitter(host), host_alive, result),
    {
        create_signal_emitter(host, CONNECT_SIGNAL).deliver_result(host_alive, result)
    }

    /// First step of `accept`: the transport object to wait on, or
    /// `NotInitialized` where the endpoint is not bound.
    pub fn accept_logic(&self) -> (listener: Result<&E, FacadeError>)
        ensures
            match listener {
                Ok(transport) => self@ matches Some(binding) && *transport == binding.transport,
                Err(e) => Some(e@) == prerequisite_refusal(self@ is Some),
            },
    {
        match self.endpoint.read() {
            Some(binding) => Ok(&binding.transport),
            None => Err(FacadeError::NotInitialized),
        }
    }

    /// Last step of a blocking `accept`: a session becomes a connection
    /// facade that holds it; a closed endpoint and a failed handshake both
    /// become `AcceptFailed`, the first with [`ENDPOINT_CLOSED`] as detail.
    pub fn accept_blocking<C>(outcome: AcceptOutcome<C>) -> (connection: Result<
        IrohConnection<C>,
        FacadeError,
    >)
        ensures
            match outcome {
                AcceptOutcome::Established(session) => connection matches Ok(c) && c@ == Some(
                    session,
                ),
                AcceptOutcome::HandshakeFailed(detail) => connection matches Err(e) && e@
                    == FacadeErrorView::AcceptFailed(detail@),
                AcceptOutcome::Closed => connection matches Err(e) && e@
                    == FacadeErrorView::AcceptFailed(ENDPOINT_CLOSED@),
            },
    {
        match outcome {
            AcceptOutcome::Established(session) => Ok(IrohConnection::established(session)),
            AcceptOutcome::HandshakeFailed(detail) => Err(FacadeError::AcceptFailed(detail)),
            AcceptOutcome::Closed => Err(
                FacadeError::AcceptFailed(String::from_str(ENDPOINT_CLOSED)),
            ),
        }
    }

    /// Non-blocking `accept`, once it has run: what the blocking variant
    /// would have returned goes to `host` under [`ACCEPT_SIGNAL`], if `host`
    /// still exists.
    pub fn accept_async<C>(
        host: HostHandle,
        host_alive: bool,
        result: Result<IrohConnection<C>, FacadeError>,
    ) -> (done: Completion<Option<IrohConnection<C>>>)
        ensures
            done == completion_of(accept_emitter(host), host_alive, result),
    {
        create_signal_emitter(host, ACCEPT_SIGNAL).deliver_result(host_alive, result)
    }

    /// The local identifier as text, or [`ADDRESS_SENTINEL`] where the
    /// endpoint is not bound. This is a query: it never fails.
    pub fn address(&self) -> (text: String)
        ensures
            text@ == address_text(self@),
    {
        match self.endpoint.read() {
            Some(binding) => binding.id.to_text(),
            None => String::from_str(ADDRESS_SENTINEL),
        }
    }
}

} // verus!
