//! Tests for the message builder: framing, validation and reply extraction.

use gstd::ActorId;
use parity_scale_codec::Encode;
use vara_contract_utils::builders::message::DispatchFault;
use vara_contract_utils::builders::message::MessageBuilder;
use vara_contract_utils::builders::message::reply_value;
use vara_contract_utils::funcs::new_message;

fn actor(byte: u8) -> ActorId {
    ActorId::new([byte; 32])
}

#[test]
fn empty_payload_is_unit_encoding() {
    let builder = new_message().send_to(actor(1));

    assert_eq!(builder.get_request(), ().encode());
}

#[test]
fn builder_frames_u64_and_string_arguments() {
    let builder = new_message()
        .send_to(actor(2))
        .add_arg(68u64.encode())
        .add_arg("Hello".encode())
        .with_value(0);

    let mut expected = 68u64.encode();
    expected.extend("Hello".encode());

    assert_eq!(builder.get_request(), expected);
}

#[test]
fn arguments_keep_call_order() {
    let first = 1u32.encode();
    let second = "two".encode();

    let forward = new_message()
        .send_to(actor(3))
        .add_arg(first.clone())
        .add_arg(second.clone())
        .get_request();
    let backward = new_message()
        .send_to(actor(3))
        .add_arg(second.clone())
        .add_arg(first.clone())
        .get_request();

    let mut expected = first;
    expected.extend(second);

    assert_eq!(forward, expected);
    assert_ne!(forward, backward);
}

#[test]
fn routing_prefixes_service_and_method_encodings() {
    let builder = MessageBuilder::new()
        .send_to(actor(4))
        .service_name("Service")
        .method_name("Method")
        .add_arg(5u32.encode());

    let mut expected = "Service".encode();
    expected.extend("Method".encode());
    expected.extend(5u32.encode());

    assert_eq!(builder.get_request(), expected);
}

#[test]
fn routing_with_no_arguments_appends_unit_encoding() {
    let builder = MessageBuilder::new()
        .send_to(actor(5))
        .service_name("Svc")
        .method_name("Mth");

    let mut expected = "Svc".encode();
    expected.extend("Mth".encode());
    expected.extend(().encode());

    assert_eq!(builder.get_request(), expected);
}

#[test]
fn identical_configuration_gives_identical_payload() {
    let build = || {
        new_message()
            .send_to(actor(6))
            .service_name("Svc")
            .method_name("Mth")
            .add_arg(9u64.encode())
            .add_arg("again".encode())
            .with_value(3)
    };

    assert_eq!(build().get_request(), build().get_request());
}

#[test]
fn missing_destination_is_a_fatal_fault() {
    let bare = MessageBuilder::new();
    assert_eq!(bare.check_data(), Err(DispatchFault::MissingDestination));

    let configured = MessageBuilder::new()
        .service_name("Svc")
        .method_name("Mth")
        .add_arg(1u8.encode())
        .with_value(10)
        .blocks_to_send_delayed_message(4);
    assert_eq!(
        configured.check_data(),
        Err(DispatchFault::MissingDestination)
    );
}

#[test]
fn partial_routing_is_a_fatal_fault() {
    let service_only = MessageBuilder::new().send_to(actor(7)).service_name("Svc");
    assert_eq!(
        service_only.check_data(),
        Err(DispatchFault::PartialRouting)
    );

    let method_only = MessageBuilder::new().send_to(actor(7)).method_name("Mth");
    assert_eq!(method_only.check_data(), Err(DispatchFault::PartialRouting));
}

#[test]
fn complete_configuration_passes_validation() {
    let unrouted = MessageBuilder::new().send_to(actor(8));
    assert_eq!(unrouted.check_data(), Ok(()));

    let routed = MessageBuilder::new()
        .send_to(actor(8))
        .service_name("Svc")
        .method_name("Mth");
    assert_eq!(routed.check_data(), Ok(()));
}

#[test]
fn ordinary_routing_names_fit_the_encoder() {
    assert!(MessageBuilder::new().names_fit());
    assert!(
        MessageBuilder::new()
            .service_name("Service")
            .method_name("Method")
            .names_fit()
    );
}

#[test]
fn request_parts_hand_destination_payload_and_value_exactly() {
    let builder = new_message()
        .send_to(actor(9))
        .add_arg(1u8.encode())
        .with_value(55);

    let (to, request, value) = builder.request_parts();

    assert_eq!(to, actor(9));
    assert_eq!(request, 1u8.encode());
    assert_eq!(value, 55);
}

#[test]
fn reply_yields_only_the_response_value() {
    let reply = (String::from("Svc"), String::from("Mth"), 42u32);

    assert_eq!(reply_value(reply), 42u32);
}
