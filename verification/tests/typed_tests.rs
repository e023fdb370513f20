//! The codec against a real protobuf serializer: prost implements its
//! message trait for `String` as a one-field wrapper message, which has
//! the same wire shape as a greeting request or reply.

use prost::Message;
use thruster_grpc::codec::{decode_frame, encode_frame};
use thruster_grpc::context::ProtoContext;

#[test]
fn typed_round_trip_through_the_frame() {
    let message = String::from("World");
    let payload = message.encode_to_vec();
    assert_eq!(payload, vec![0x0A, 5, b'W', b'o', b'r', b'l', b'd']);

    let framed = encode_frame(payload.as_slice()).unwrap();
    let unframed = decode_frame(framed.as_slice()).unwrap();
    let decoded = String::decode(unframed.as_slice()).unwrap();
    assert_eq!(decoded, message);
}

#[test]
fn unparsable_payload_fails_typed_decode() {
    // A well-formed frame whose payload is a truncated field: the tag
    // octet announces a length-delimited field 1 and nothing follows.
    let framed = vec![0u8, 0, 0, 0, 1, 0x0A];
    let unframed = decode_frame(framed.as_slice()).unwrap();
    assert_eq!(unframed, vec![0x0A]);
    assert!(String::decode(unframed.as_slice()).is_err());

    // A payload whose declared field length runs past its end.
    let framed = vec![0u8, 0, 0, 0, 3, 0x0A, 9, b'x'];
    let unframed = decode_frame(framed.as_slice()).unwrap();
    assert!(String::decode(unframed.as_slice()).is_err());
}

#[test]
fn greeting_scenario_with_real_serialization() {
    // The client frames the serialized request.
    let request = String::from("World");
    let request_frame = encode_frame(request.encode_to_vec().as_slice()).unwrap();

    // The server receives, decodes, and answers.
    let mut ctx: ProtoContext<()> = ProtoContext::new(request_frame, ());
    let received = ctx.receive().unwrap();
    let name = String::decode(received.as_slice()).unwrap();
    let reply = format!("Hello, {}", name);
    ctx.send(reply.encode_to_vec().as_slice()).unwrap();

    // The client reads one frame back and decodes the reply.
    let mut response = ctx.get_response();
    let body = response.body.take_content().unwrap();
    let reply_payload = decode_frame(body.as_slice()).unwrap();
    let decoded = String::decode(reply_payload.as_slice()).unwrap();
    assert_eq!(decoded, "Hello, World");
    let trailers = response.body.take_trailers().unwrap();
    assert_eq!(trailers.get("grpc-status").unwrap().as_str(), "0");
}
