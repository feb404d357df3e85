use gdiroh::bridge::{Delivery, HostHandle};
use gdiroh::endpoint::{
    AcceptOutcome, BindRequest, Binding, IrohEndpoint, ACCEPT_SIGNAL, ADDRESS_SENTINEL,
    BIND_SIGNAL, CONNECT_SIGNAL, ENDPOINT_CLOSED,
};
use gdiroh::error::FacadeError;
use gdiroh::peer::PeerId;

fn binding(seed: u8, transport: u32) -> Binding<u32> {
    Binding {
        id: PeerId::from_bytes([seed; 32]),
        alpns: vec![b"demo/1".to_vec()],
        transport,
    }
}

fn bound(seed: u8, transport: u32) -> IrohEndpoint<u32> {
    let mut endpoint = IrohEndpoint::new();
    assert_eq!(endpoint.bind_blocking(Ok(binding(seed, transport))), Ok(None));
    endpoint
}

fn peer_text() -> String {
    iroh::SecretKey::from_bytes(&[9u8; 32]).public().to_string()
}

fn peer_bytes() -> [u8; 32] {
    *iroh::SecretKey::from_bytes(&[9u8; 32]).public().as_bytes()
}

const HOST: HostHandle = HostHandle { instance_id: 4711 };

#[test]
fn a_new_endpoint_is_unbound_and_answers_the_sentinel() {
    let endpoint: IrohEndpoint<u32> = IrohEndpoint::new();
    assert!(!endpoint.is_bound());
    assert_eq!(endpoint.address(), "N/A");
    assert_eq!(ADDRESS_SENTINEL, "N/A");
    assert_eq!(endpoint.get_endpoint(), Err(FacadeError::NotInitialized));
}

#[test]
fn bind_logic_turns_protocol_names_into_bytes_in_order() {
    let endpoint: IrohEndpoint<u32> = IrohEndpoint::new();
    let request = endpoint.bind_logic(&vec!["demo/1".to_string(), "é2".to_string(), String::new()]);
    assert_eq!(
        request,
        BindRequest {
            alpns: vec![b"demo/1".to_vec(), vec![0xc3, 0xa9, b'2'], vec![]],
            overwrites: false,
        }
    );
}

#[test]
fn bind_logic_with_no_protocols_asks_for_none() {
    let endpoint: IrohEndpoint<u32> = IrohEndpoint::new();
    let request = endpoint.bind_logic(&vec![]);
    assert_eq!(request, BindRequest { alpns: vec![], overwrites: false });
}

#[test]
fn bind_logic_on_a_bound_endpoint_announces_the_overwrite() {
    let endpoint = bound(1, 10);
    let request = endpoint.bind_logic(&vec!["demo/1".to_string()]);
    assert!(request.overwrites);
    assert_eq!(request.alpns, vec![b"demo/1".to_vec()]);
}

#[test]
fn after_a_successful_bind_the_address_is_the_identity_in_hex() {
    let endpoint = bound(0xab, 10);
    assert!(endpoint.is_bound());
    assert_eq!(endpoint.address(), "ab".repeat(32));
    assert_ne!(endpoint.address(), ADDRESS_SENTINEL);
    assert_eq!(endpoint.get_endpoint(), Ok(&binding(0xab, 10)));
}

#[test]
fn a_failed_bind_reports_bind_error_and_changes_nothing() {
    let mut endpoint: IrohEndpoint<u32> = IrohEndpoint::new();
    let result = endpoint.bind_blocking(Err("no free socket".to_string()));
    assert_eq!(result, Err(FacadeError::BindError("no free socket".to_string())));
    assert!(!endpoint.is_bound());
    assert_eq!(endpoint.address(), "N/A");

    let mut endpoint = bound(3, 30);
    let result = endpoint.bind_blocking(Err("no free socket".to_string()));
    assert_eq!(result, Err(FacadeError::BindError("no free socket".to_string())));
    assert_eq!(endpoint.get_endpoint(), Ok(&binding(3, 30)));
    assert_eq!(endpoint.address(), "03".repeat(32));
}

#[test]
fn rebinding_supersedes_and_hands_the_old_binding_back_unchanged() {
    let mut endpoint = bound(1, 10);
    let superseded = endpoint.bind_blocking(Ok(binding(2, 20)));
    assert_eq!(superseded, Ok(Some(binding(1, 10))));
    assert_eq!(endpoint.get_endpoint(), Ok(&binding(2, 20)));
    assert_eq!(endpoint.address(), "02".repeat(32));
    let prior = superseded.unwrap().unwrap();
    assert_eq!(prior.id.to_text(), "01".repeat(32));
    assert_eq!(prior.transport, 10);
}

#[test]
fn bind_async_tells_a_living_host_true_or_false() {
    let mut endpoint: IrohEndpoint<u32> = IrohEndpoint::new();
    let done = endpoint.bind_async(HOST, true, Ok(binding(5, 50)));
    assert_eq!(
        done.delivery,
        Delivery::Posted { target: HOST, signal: "bind_async_result", value: true }
    );
    assert_eq!(done.failure, None);
    assert_eq!(endpoint.address(), "05".repeat(32));
    assert_eq!(BIND_SIGNAL, "bind_async_result");

    let done = endpoint.bind_async(HOST, true, Err("address in use".to_string()));
    assert_eq!(
        done.delivery,
        Delivery::Posted { target: HOST, signal: "bind_async_result", value: false }
    );
    assert_eq!(done.failure, Some(FacadeError::BindError("address in use".to_string())));
    assert_eq!(endpoint.address(), "05".repeat(32));
}

#[test]
fn bind_async_for_a_dead_host_still_binds_and_delivers_nothing() {
    let mut endpoint: IrohEndpoint<u32> = IrohEndpoint::new();
    let done = endpoint.bind_async(HOST, false, Ok(binding(6, 60)));
    assert_eq!(done.delivery, Delivery::Dropped { target: HOST, signal: "bind_async_result" });
    assert_eq!(done.failure, None);
    assert_eq!(done.delivery.warning(), Some(FacadeError::HandleExpired));
    assert!(endpoint.is_bound());
    assert_eq!(endpoint.address(), "06".repeat(32));

    let done = endpoint.bind_async(HOST, false, Err("address in use".to_string()));
    assert_eq!(done.delivery, Delivery::Dropped { target: HOST, signal: "bind_async_result" });
    assert_eq!(done.failure, Some(FacadeError::BindError("address in use".to_string())));
    assert_eq!(endpoint.address(), "06".repeat(32));
}

#[test]
fn bind_variants_agree_on_state_and_outcome() {
    let mut blocking: IrohEndpoint<u32> = IrohEndpoint::new();
    let mut background: IrohEndpoint<u32> = IrohEndpoint::new();
    let ok = blocking.bind_blocking(Ok(binding(7, 70))).is_ok();
    let done = background.bind_async(HOST, true, Ok(binding(7, 70)));
    assert_eq!(done.delivery, Delivery::Posted { target: HOST, signal: BIND_SIGNAL, value: ok });
    assert_eq!(blocking.get_endpoint(), background.get_endpoint());

    let failed = blocking.bind_blocking(Err("x".to_string()));
    let done = background.bind_async(HOST, true, Err("x".to_string()));
    assert_eq!(
        done.delivery,
        Delivery::Posted { target: HOST, signal: BIND_SIGNAL, value: failed.is_ok() }
    );
    assert_eq!(done.failure, failed.err());
    assert_eq!(blocking.get_endpoint(), background.get_endpoint());
}

#[test]
fn connect_on_an_unbound_endpoint_is_not_initialized() {
    let endpoint: IrohEndpoint<u32> = IrohEndpoint::new();
    assert_eq!(
        endpoint.connect_logic(&peer_text(), "demo/1"),
        Err(FacadeError::NotInitialized)
    );
    assert_eq!(
        endpoint.connect_checked(Some(PeerId::from_bytes(peer_bytes())), &peer_text(), "demo/1"),
        Err(FacadeError::NotInitialized)
    );
}

#[test]
fn connect_on_an_unbound_endpoint_does_not_look_at_the_identifier() {
    let endpoint: IrohEndpoint<u32> = IrohEndpoint::new();
    assert_eq!(endpoint.connect_logic("zz", "demo/1"), Err(FacadeError::NotInitialized));
    assert_eq!(endpoint.connect_checked(None, "zz", "demo/1"), Err(FacadeError::NotInitialized));
}

#[test]
fn connect_with_a_malformed_identifier_is_invalid_peer_identifier() {
    let endpoint = bound(1, 10);
    for text in ["", "zz", "N/A", "not a key at all", "0123"] {
        assert_eq!(
            endpoint.connect_logic(text, "demo/1"),
            Err(FacadeError::InvalidPeerIdentifier(text.to_string()))
        );
    }
    assert_eq!(
        endpoint.connect_checked(None, "whatever", "demo/1"),
        Err(FacadeError::InvalidPeerIdentifier("whatever".to_string()))
    );
}

#[test]
fn connect_with_a_hex_text_that_is_no_curve_point_is_refused() {
    let endpoint = bound(1, 10);
    let mut refused: usize = 0;
    for last in 0u8..=255 {
        let mut bytes = [0x11u8; 32];
        bytes[31] = last;
        let text = PeerId::from_bytes(bytes).to_text();
        let outcome = endpoint.connect_logic(&text, "demo/1");
        let is_key = iroh::PublicKey::from_bytes(&bytes).is_ok();
        match outcome {
            Ok(dial) => {
                assert!(is_key);
                assert_eq!(dial.peer.as_bytes(), bytes);
            }
            Err(error) => {
                assert!(!is_key);
                assert_eq!(error, FacadeError::InvalidPeerIdentifier(text));
                refused += 1;
            }
        }
    }
    assert!(refused > 0);
    assert!(refused < 256);
}

#[test]
fn connect_names_endpoint_peer_and_protocol() {
    let endpoint = bound(1, 10);
    let dial = endpoint.connect_logic(&peer_text(), "demo/1").unwrap();
    assert_eq!(*dial.endpoint, 10);
    assert_eq!(dial.peer, PeerId::from_bytes(peer_bytes()));
    assert_eq!(dial.alpn, b"demo/1".to_vec());

    let dial = endpoint
        .connect_checked(Some(PeerId::from_bytes([4u8; 32])), "ignored", "é")
        .unwrap();
    assert_eq!(*dial.endpoint, 10);
    assert_eq!(dial.peer.as_bytes(), [4u8; 32]);
    assert_eq!(dial.alpn, vec![0xc3, 0xa9]);
}

#[test]
fn connect_blocking_wraps_the_session_or_the_failure() {
    let connection = IrohEndpoint::<u32>::connect_blocking(Ok(77u64)).unwrap();
    assert_eq!(connection.get_connection(), Ok(&77u64));

    let failed = IrohEndpoint::<u32>::connect_blocking::<u64>(Err("handshake timed out".to_string()));
    assert_eq!(failed.unwrap_err(), FacadeError::ConnectError("handshake timed out".to_string()));
}

#[test]
fn connect_async_delivers_what_connect_blocking_returns() {
    let result = IrohEndpoint::<u32>::connect_blocking(Ok(77u64));
    let done = IrohEndpoint::<u32>::connect_async(HOST, true, result);
    assert_eq!(done.failure, None);
    match done.delivery {
        Delivery::Posted { target, signal, value } => {
            assert_eq!(target, HOST);
            assert_eq!(signal, "connect_async_result");
            assert_eq!(value.unwrap().get_connection(), Ok(&77u64));
        }
        Delivery::Dropped { .. } => panic!("a living host must be answered"),
    }
    assert_eq!(CONNECT_SIGNAL, "connect_async_result");

    let result = IrohEndpoint::<u32>::connect_blocking::<u64>(Err("refused".to_string()));
    let done = IrohEndpoint::<u32>::connect_async(HOST, true, result);
    assert_eq!(done.failure, Some(FacadeError::ConnectError("refused".to_string())));
    match done.delivery {
        Delivery::Posted { target, signal, value } => {
            assert_eq!(target, HOST);
            assert_eq!(signal, "connect_async_result");
            assert!(value.is_none());
        }
        Delivery::Dropped { .. } => panic!("a living host must be answered"),
    }
}

#[test]
fn connect_async_delivers_early_refusals_too() {
    let endpoint: IrohEndpoint<u32> = IrohEndpoint::new();
    let refused = match endpoint.connect_logic("zz", "demo/1") {
        Ok(_) => panic!("an unbound endpoint cannot dial"),
        Err(error) => Err::<gdiroh::connection::IrohConnection<u64>, FacadeError>(error),
    };
    let done = IrohEndpoint::<u32>::connect_async(HOST, true, refused);
    assert_eq!(done.failure, Some(FacadeError::NotInitialized));
    assert!(matches!(done.delivery, Delivery::Posted { value: None, .. }));
}

#[test]
fn connect_async_for_a_dead_host_delivers_nothing() {
    let result = IrohEndpoint::<u32>::connect_blocking(Ok(77u64));
    let done = IrohEndpoint::<u32>::connect_async(HOST, false, result);
    assert_eq!(done.failure, None);
    assert!(matches!(
        done.delivery,
        Delivery::Dropped { target: HOST, signal: "connect_async_result" }
    ));

    let result = IrohEndpoint::<u32>::connect_blocking::<u64>(Err("refused".to_string()));
    let done = IrohEndpoint::<u32>::connect_async(HOST, false, result);
    assert_eq!(done.failure, Some(FacadeError::ConnectError("refused".to_string())));
    assert!(!done.delivery.is_posted());
}

#[test]
fn accept_needs_a_bound_endpoint() {
    let endpoint: IrohEndpoint<u32> = IrohEndpoint::new();
    assert_eq!(endpoint.accept_logic(), Err(FacadeError::NotInitialized));
    let endpoint = bound(1, 10);
    assert_eq!(endpoint.accept_logic(), Ok(&10));
}

#[test]
fn accept_blocking_maps_each_transport_outcome() {
    let connection =
        IrohEndpoint::<u32>::accept_blocking(AcceptOutcome::Established(5u64)).unwrap();
    assert_eq!(connection.get_connection(), Ok(&5u64));

    let failed = IrohEndpoint::<u32>::accept_blocking::<u64>(AcceptOutcome::HandshakeFailed(
        "bad certificate".to_string(),
    ));
    assert_eq!(failed.unwrap_err(), FacadeError::AcceptFailed("bad certificate".to_string()));

    let closed = IrohEndpoint::<u32>::accept_blocking::<u64>(AcceptOutcome::Closed);
    assert_eq!(closed.unwrap_err(), FacadeError::AcceptFailed(ENDPOINT_CLOSED.to_string()));
    assert_eq!(ENDPOINT_CLOSED, "the endpoint was closed before a connection arrived");
}

#[test]
fn accept_async_delivers_what_accept_blocking_returns() {
    let result = IrohEndpoint::<u32>::accept_blocking(AcceptOutcome::Established(5u64));
    let done = IrohEndpoint::<u32>::accept_async(HOST, true, result);
    assert_eq!(done.failure, None);
    match done.delivery {
        Delivery::Posted { target, signal, value } => {
            assert_eq!(target, HOST);
            assert_eq!(signal, "accept_async_result");
            assert_eq!(value.unwrap().get_connection(), Ok(&5u64));
        }
        Delivery::Dropped { .. } => panic!("a living host must be answered"),
    }
    assert_eq!(ACCEPT_SIGNAL, "accept_async_result");

    let result = IrohEndpoint::<u32>::accept_blocking::<u64>(AcceptOutcome::Closed);
    let done = IrohEndpoint::<u32>::accept_async(HOST, false, result);
    assert_eq!(done.failure, Some(FacadeError::AcceptFailed(ENDPOINT_CLOSED.to_string())));
    assert!(matches!(
        done.delivery,
        Delivery::Dropped { target: HOST, signal: "accept_async_result" }
    ));
}
