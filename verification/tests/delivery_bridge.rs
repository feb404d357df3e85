use gdiroh::bridge::{create_signal_emitter, Completion, Delivery, HostHandle, SignalEmitter};
use gdiroh::error::FacadeError;

const HOST: HostHandle = HostHandle { instance_id: 99 };

#[test]
fn the_emitter_remembers_host_and_signal() {
    let emitter = create_signal_emitter(HOST, "some_signal");
    assert_eq!(emitter, SignalEmitter { target: HOST, signal_name: "some_signal" });
}

#[test]
fn a_living_host_is_posted_the_value() {
    let emitter = create_signal_emitter(HOST, "some_signal");
    assert_eq!(
        emitter.emit(true, 5u8),
        Delivery::Posted { target: HOST, signal: "some_signal", value: 5u8 }
    );
}

#[test]
fn a_dead_host_is_sent_nothing_and_the_loss_is_noted() {
    let emitter = create_signal_emitter(HOST, "some_signal");
    let delivery = emitter.emit(false, 5u8);
    assert_eq!(delivery, Delivery::Dropped { target: HOST, signal: "some_signal" });
    assert!(!delivery.is_posted());
    assert_eq!(delivery.warning(), Some(FacadeError::HandleExpired));
}

#[test]
fn a_posted_value_carries_no_warning() {
    let emitter = create_signal_emitter(HOST, "some_signal");
    let delivery = emitter.emit(true, 5u8);
    assert!(delivery.is_posted());
    assert_eq!(delivery.warning(), None);
}

#[test]
fn deliver_result_sends_the_object_or_the_absent_value() {
    let emitter = create_signal_emitter(HOST, "s");
    assert_eq!(
        emitter.deliver_result(true, Ok(1u8)),
        Completion {
            delivery: Delivery::Posted { target: HOST, signal: "s", value: Some(1u8) },
            failure: None,
        }
    );
    assert_eq!(
        emitter.deliver_result::<u8>(true, Err(FacadeError::NotInitialized)),
        Completion {
            delivery: Delivery::Posted { target: HOST, signal: "s", value: None },
            failure: Some(FacadeError::NotInitialized),
        }
    );
    assert_eq!(
        emitter.deliver_result(false, Ok(1u8)),
        Completion { delivery: Delivery::Dropped { target: HOST, signal: "s" }, failure: None }
    );
    assert_eq!(
        emitter.deliver_result::<u8>(false, Err(FacadeError::ConnectError("x".to_string()))),
        Completion {
            delivery: Delivery::Dropped { target: HOST, signal: "s" },
            failure: Some(FacadeError::ConnectError("x".to_string())),
        }
    );
}

#[test]
fn deliver_flag_sends_true_for_success_and_false_for_failure() {
    let emitter = create_signal_emitter(HOST, "s");
    assert_eq!(
        emitter.deliver_flag(true, Ok("anything")),
        Completion {
            delivery: Delivery::Posted { target: HOST, signal: "s", value: true },
            failure: None,
        }
    );
    assert_eq!(
        emitter.deliver_flag::<u8>(true, Err(FacadeError::BindError("b".to_string()))),
        Completion {
            delivery: Delivery::Posted { target: HOST, signal: "s", value: false },
            failure: Some(FacadeError::BindError("b".to_string())),
        }
    );
    assert_eq!(
        emitter.deliver_flag(false, Ok("anything")),
        Completion { delivery: Delivery::Dropped { target: HOST, signal: "s" }, failure: None }
    );
}

#[test]
fn every_error_has_its_text_for_the_log() {
    assert_eq!(FacadeError::NotInitialized.message(), "not yet initialized");
    assert_eq!(
        FacadeError::InvalidPeerIdentifier("zz".to_string()).message(),
        "\"zz\" is not parsable as a public key"
    );
    assert_eq!(FacadeError::InvalidTopic(31).message(), "a topic must be 32 bytes long");
    assert_eq!(FacadeError::BindError("a".to_string()).message(), "binding failed: a");
    assert_eq!(FacadeError::ConnectError("b".to_string()).message(), "connecting failed: b");
    assert_eq!(FacadeError::AcceptFailed("c".to_string()).message(), "accepting failed: c");
    assert_eq!(
        FacadeError::StreamOpenFailed("d".to_string()).message(),
        "opening a stream failed: d"
    );
    assert_eq!(
        FacadeError::StreamAcceptFailed("e".to_string()).message(),
        "accepting a stream failed: e"
    );
    assert_eq!(FacadeError::SubscribeFailed("f".to_string()).message(), "subscribing failed: f");
    assert_eq!(
        FacadeError::HandleExpired.message(),
        "the host object was freed before its result could be delivered"
    );
    assert_eq!(FacadeError::BindError(String::new()).message(), "binding failed: ");
}
