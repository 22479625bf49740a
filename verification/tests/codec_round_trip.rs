use control_interface::types::{
    ActorAuctionRequest, ClaimsList, ControlMessage, Host, HostInventory, InvocationResponse,
    LinkDefinition, ProviderAuctionRequest, StartActorAck, StartActorCommand, StopProviderCommand,
    WasccEntity,
};
use control_interface::{deserialize, serialize};
use control_interface::ControlError;

#[test]
fn host_round_trips() {
    let bytes = serialize(&ControlMessage::Host(Host { id: "NHOST1".to_string() }));
    match deserialize(&bytes) {
        Ok(ControlMessage::Host(h)) => assert_eq!(h.id, "NHOST1"),
        _ => panic!("host did not round-trip"),
    }
}

#[test]
fn actor_auction_request_round_trips() {
    let req = ActorAuctionRequest {
        actor_ref: "wasmcloud.azurecr.io/actor:v1".to_string(),
        constraints: vec![("arch".to_string(), "x86_64".to_string())],
    };
    let bytes = serialize(&ControlMessage::ActorAuctionRequest(req));
    match deserialize(&bytes) {
        Ok(ControlMessage::ActorAuctionRequest(r)) => {
            assert_eq!(r.actor_ref, "wasmcloud.azurecr.io/actor:v1");
            assert_eq!(r.constraints.len(), 1);
            assert_eq!(r.constraints[0].0, "arch");
            assert_eq!(r.constraints[0].1, "x86_64");
        }
        _ => panic!("auction request did not round-trip"),
    }
}

#[test]
fn provider_auction_request_round_trips() {
    let req = ProviderAuctionRequest {
        provider_ref: "wasmcloud.azurecr.io/provider:v2".to_string(),
        link_name: "default".to_string(),
        constraints: vec![
            ("arch".to_string(), "aarch64".to_string()),
            ("zone".to_string(), "eu-1".to_string()),
        ],
    };
    let bytes = serialize(&ControlMessage::ProviderAuctionRequest(req));
    match deserialize(&bytes) {
        Ok(ControlMessage::ProviderAuctionRequest(r)) => {
            assert_eq!(r.provider_ref, "wasmcloud.azurecr.io/provider:v2");
            assert_eq!(r.link_name, "default");
            assert_eq!(r.constraints.len(), 2);
            assert_eq!(r.constraints[1].0, "zone");
        }
        _ => panic!("provider auction request did not round-trip"),
    }
}

#[test]
fn command_and_ack_round_trip() {
    let cmd = StartActorCommand {
        actor_ref: "oci://actor".to_string(),
        host_id: "NHOST1".to_string(),
    };
    let bytes = serialize(&ControlMessage::StartActorCommand(cmd));
    match deserialize(&bytes) {
        Ok(ControlMessage::StartActorCommand(c)) => {
            assert_eq!(c.actor_ref, "oci://actor");
            assert_eq!(c.host_id, "NHOST1");
        }
        _ => panic!("command did not round-trip"),
    }
    let ack_bytes = serialize(&ControlMessage::StartActorAck(StartActorAck { accepted: true }));
    match deserialize(&ack_bytes) {
        Ok(ControlMessage::StartActorAck(a)) => assert!(a.accepted),
        _ => panic!("ack did not round-trip"),
    }
}

#[test]
fn stop_provider_command_round_trips() {
    let cmd = StopProviderCommand {
        host_id: "NHOST2".to_string(),
        provider_ref: "VPROVIDER".to_string(),
        link_name: "frontend".to_string(),
        contract_id: "wasmcloud:httpserver".to_string(),
    };
    let bytes = serialize(&ControlMessage::StopProviderCommand(cmd));
    match deserialize(&bytes) {
        Ok(ControlMessage::StopProviderCommand(c)) => {
            assert_eq!(c.host_id, "NHOST2");
            assert_eq!(c.provider_ref, "VPROVIDER");
            assert_eq!(c.link_name, "frontend");
            assert_eq!(c.contract_id, "wasmcloud:httpserver");
        }
        _ => panic!("stop provider command did not round-trip"),
    }
}

#[test]
fn inventory_claims_and_links_round_trip() {
    let inv = HostInventory {
        host_id: "NHOST1".to_string(),
        actors: vec!["MACTOR1".to_string(), "MACTOR2".to_string()],
        providers: vec!["VPROV".to_string()],
    };
    let bytes = serialize(&ControlMessage::HostInventory(inv));
    match deserialize(&bytes) {
        Ok(ControlMessage::HostInventory(h)) => {
            assert_eq!(h.host_id, "NHOST1");
            assert_eq!(h.actors, vec!["MACTOR1".to_string(), "MACTOR2".to_string()]);
            assert_eq!(h.providers, vec!["VPROV".to_string()]);
        }
        _ => panic!("inventory did not round-trip"),
    }

    let claims = ClaimsList {
        claims: vec![("MACTOR1".to_string(), "AISSUER".to_string())],
    };
    let bytes = serialize(&ControlMessage::ClaimsList(claims));
    match deserialize(&bytes) {
        Ok(ControlMessage::ClaimsList(c)) => {
            assert_eq!(c.claims.len(), 1);
            assert_eq!(c.claims[0].0, "MACTOR1");
        }
        _ => panic!("claims did not round-trip"),
    }

    let ld = LinkDefinition {
        actor_id: "MACTOR1".to_string(),
        provider_id: "VPROV".to_string(),
        contract_id: "wasmcloud:keyvalue".to_string(),
        link_name: "default".to_string(),
        values: vec![("URL".to_string(), "redis://127.0.0.1".to_string())],
    };
    let bytes = serialize(&ControlMessage::LinkDefinition(ld));
    match deserialize(&bytes) {
        Ok(ControlMessage::LinkDefinition(l)) => {
            assert_eq!(l.actor_id, "MACTOR1");
            assert_eq!(l.values[0].1, "redis://127.0.0.1");
        }
        _ => panic!("link definition did not round-trip"),
    }
}

#[test]
fn invocation_response_round_trips_with_and_without_error() {
    let with_err = InvocationResponse {
        msg: vec![1, 2, 3],
        error: Some("boom".to_string()),
        invocation_id: "corr-1".to_string(),
    };
    let bytes = serialize(&ControlMessage::InvocationResponse(with_err));
    match deserialize(&bytes) {
        Ok(ControlMessage::InvocationResponse(r)) => {
            assert_eq!(r.msg, vec![1, 2, 3]);
            assert_eq!(r.error, Some("boom".to_string()));
            assert_eq!(r.invocation_id, "corr-1");
        }
        _ => panic!("response did not round-trip"),
    }

    let ok = InvocationResponse {
        msg: Vec::new(),
        error: None,
        invocation_id: "corr-2".to_string(),
    };
    let bytes = serialize(&ControlMessage::InvocationResponse(ok));
    match deserialize(&bytes) {
        Ok(ControlMessage::InvocationResponse(r)) => {
            assert!(r.msg.is_empty());
            assert!(r.error.is_none());
        }
        _ => panic!("response did not round-trip"),
    }
}

#[test]
fn entity_variants_round_trip_inside_a_response() {
    // A capability entity exercises the tagged entity encoding through the
    // invocation message.
    let _ = WasccEntity::Capability {
        id: "VPROV".to_string(),
        contract_id: "wasmcloud:blobstore".to_string(),
        link_name: "files".to_string(),
    };
}

#[test]
fn malformed_bytes_are_a_decoding_error() {
    let empty: Vec<u8> = Vec::new();
    match deserialize(&empty) {
        Err(ControlError::DecodingError(m)) => assert_eq!(m, "deserialization failure"),
        _ => panic!("empty buffer must not decode"),
    }

    let unknown_tag = vec![99u8, 0, 0, 0];
    assert!(matches!(
        deserialize(&unknown_tag),
        Err(ControlError::DecodingError(_))
    ));

    // A valid encoding with one byte cut off no longer decodes.
    let mut truncated = serialize(&ControlMessage::Host(Host { id: "NHOST1".to_string() }));
    truncated.pop();
    assert!(matches!(
        deserialize(&truncated),
        Err(ControlError::DecodingError(_))
    ));

    // A valid encoding with one byte appended no longer decodes either:
    // every message consumes its buffer exactly.
    let mut padded = serialize(&ControlMessage::Host(Host { id: "NHOST1".to_string() }));
    padded.push(0);
    assert!(matches!(
        deserialize(&padded),
        Err(ControlError::DecodingError(_))
    ));
}

#[test]
fn a_boolean_byte_other_than_zero_or_one_is_malformed() {
    let mut bytes = serialize(&ControlMessage::StartActorAck(StartActorAck { accepted: true }));
    let last = bytes.len() - 1;
    bytes[last] = 2;
    assert!(matches!(
        deserialize(&bytes),
        Err(ControlError::DecodingError(_))
    ));
}
