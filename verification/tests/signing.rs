use control_interface::inv::validate_invocation;
use control_interface::types::ControlMessage;
use control_interface::{deserialize, Client};

fn signed_invocation() -> control_interface::types::Invocation {
    let client = Client::new(None, 1000);
    let (_subject, bytes) = client.call_actor("MTARGET", "HandleRequest", &[9, 8, 7, 6]);
    match deserialize(&bytes).expect("the request bytes decode") {
        ControlMessage::Invocation(inv) => inv,
        _ => panic!("the request bytes hold an invocation"),
    }
}

#[test]
fn a_built_invocation_verifies_against_its_issuer() {
    let inv = signed_invocation();
    assert!(validate_invocation(&inv));
}

#[test]
fn flipping_a_payload_byte_breaks_verification() {
    let mut inv = signed_invocation();
    inv.msg[2] ^= 0x01;
    assert!(!validate_invocation(&inv));
}

#[test]
fn flipping_an_operation_byte_breaks_verification() {
    let mut inv = signed_invocation();
    inv.operation = "handleRequest".to_string();
    assert!(!validate_invocation(&inv));
}

#[test]
fn flipping_a_signature_byte_breaks_verification() {
    let mut inv = signed_invocation();
    inv.signature[0] ^= 0x01;
    assert!(!validate_invocation(&inv));
}

#[test]
fn retargeting_an_invocation_breaks_verification() {
    let mut inv = signed_invocation();
    inv.target = control_interface::types::WasccEntity::Actor("MOTHER".to_string());
    assert!(!validate_invocation(&inv));
}

#[test]
fn a_foreign_issuer_key_rejects_the_signature() {
    let mut inv = signed_invocation();
    let other = Client::new(None, 1000);
    inv.issuer = other.public_key();
    assert!(!validate_invocation(&inv));
}

#[test]
fn invocations_originate_from_the_system_actor() {
    let inv = signed_invocation();
    match inv.origin {
        control_interface::types::WasccEntity::Actor(ref k) => assert_eq!(k, "system"),
        _ => panic!("client calls originate from the system actor"),
    }
    match inv.target {
        control_interface::types::WasccEntity::Actor(ref k) => assert_eq!(k, "MTARGET"),
        _ => panic!("the target is the addressed actor"),
    }
    assert_eq!(inv.msg, vec![9, 8, 7, 6]);
    assert_eq!(inv.operation, "HandleRequest");
}

#[test]
fn correlation_ids_are_fresh_per_call() {
    let first = signed_invocation();
    let second = signed_invocation();
    assert_ne!(first.id, second.id);
}
