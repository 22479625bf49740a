use control_interface::rpc::{PublishOutcome, SingleReply};
use control_interface::types::{
    ActorAuctionAck, ControlMessage, Host, HostInventory, ProviderAuctionAck, StartActorAck,
};
use control_interface::{serialize, Client, ControlError};

#[test]
fn start_actor_with_a_reply_within_the_timeout_succeeds() {
    let client = Client::new(Some("default".to_string()), 1000);
    let (subject, _bytes) = client.start_actor("NHOST1", "wasmcloud.azurecr.io/actor:v1");
    assert_eq!(subject, "default.wasmcloud.cmd.NHOST1.la");

    let reply = serialize(&ControlMessage::StartActorAck(StartActorAck { accepted: true }));
    match client.start_actor_reply(SingleReply::Replied(reply)) {
        Ok(ack) => assert!(ack.accepted),
        Err(_) => panic!("a well-formed ack yields success"),
    }
}

#[test]
fn start_actor_without_a_reply_times_out_with_a_command_message() {
    let client = Client::new(Some("default".to_string()), 1000);
    match client.start_actor_reply(SingleReply::NoReply) {
        Err(ControlError::Timeout(m)) => {
            assert_eq!(m, "Did not receive start actor acknowledgement")
        }
        _ => panic!("no reply within the deadline is a timeout"),
    }
}

#[test]
fn a_failed_publish_is_a_transport_error() {
    let client = Client::new(None, 1000);
    match client.stop_actor_reply(SingleReply::PublishFailed("no connection".to_string())) {
        Err(ControlError::TransportError(m)) => assert_eq!(m, "no connection"),
        _ => panic!("a failed publish is a transport error"),
    }
}

#[test]
fn a_reply_of_the_wrong_kind_is_a_decoding_error() {
    let client = Client::new(None, 1000);
    let wrong = serialize(&ControlMessage::Host(Host { id: "NHOST1".to_string() }));
    assert!(matches!(
        client.get_claims_reply(SingleReply::Replied(wrong)),
        Err(ControlError::DecodingError(_))
    ));
}

#[test]
fn host_inventory_reply_round_trips() {
    let client = Client::new(None, 1000);
    let reply = serialize(&ControlMessage::HostInventory(HostInventory {
        host_id: "NHOST1".to_string(),
        actors: vec!["MACTOR".to_string()],
        providers: Vec::new(),
    }));
    match client.get_host_inventory_reply(SingleReply::Replied(reply)) {
        Ok(hi) => {
            assert_eq!(hi.host_id, "NHOST1");
            assert_eq!(hi.actors, vec!["MACTOR".to_string()]);
            assert!(hi.providers.is_empty());
        }
        Err(_) => panic!("a well-formed inventory yields success"),
    }
}

#[test]
fn an_auction_with_no_responders_yields_an_empty_collection() {
    let client = Client::new(None, 1000);
    let replies: Vec<Vec<u8>> = Vec::new();
    assert!(client.perform_actor_auction_replies(&replies).is_empty());
    assert!(client.perform_provider_auction_replies(&replies).is_empty());
    assert!(client.get_hosts_replies(&replies).is_empty());
}

#[test]
fn one_malformed_reply_among_well_formed_ones_is_dropped() {
    let client = Client::new(None, 1000);
    let good = |host: &str| {
        serialize(&ControlMessage::ActorAuctionAck(ActorAuctionAck {
            host_id: host.to_string(),
            accepted: true,
        }))
    };
    let replies = vec![
        good("NHOST1"),
        vec![0xFF, 0xFF, 0xFF],
        good("NHOST2"),
        good("NHOST3"),
    ];
    let acks = client.perform_actor_auction_replies(&replies);
    assert_eq!(acks.len(), 3);
    assert_eq!(acks[0].host_id, "NHOST1");
    assert_eq!(acks[1].host_id, "NHOST2");
    assert_eq!(acks[2].host_id, "NHOST3");
}

#[test]
fn an_actor_auction_returns_one_ack_per_matching_host_in_any_order() {
    // Three hosts hold an auction with constraints {arch: x86_64}; only two
    // match and reply. Exactly two acks come back, with distinct host ids,
    // whichever host replies first.
    let client = Client::new(Some("default".to_string()), 1000);
    let (subject, _request) = client.perform_actor_auction(
        "wasmcloud.azurecr.io/actor:v1",
        vec![("arch".to_string(), "x86_64".to_string())],
    );
    assert_eq!(subject, "default.wasmcloud.auction.actor");

    let ack = |host: &str| {
        serialize(&ControlMessage::ActorAuctionAck(ActorAuctionAck {
            host_id: host.to_string(),
            accepted: true,
        }))
    };
    let first_order = vec![ack("NHOSTA"), ack("NHOSTB")];
    let second_order = vec![ack("NHOSTB"), ack("NHOSTA")];

    let acks = client.perform_actor_auction_replies(&first_order);
    assert_eq!(acks.len(), 2);
    assert_ne!(acks[0].host_id, acks[1].host_id);

    let acks = client.perform_actor_auction_replies(&second_order);
    assert_eq!(acks.len(), 2);
    assert_ne!(acks[0].host_id, acks[1].host_id);
}

#[test]
fn provider_auction_collection_keeps_arrival_order() {
    let client = Client::new(None, 1000);
    let ack = |host: &str, accepted: bool| {
        serialize(&ControlMessage::ProviderAuctionAck(ProviderAuctionAck {
            host_id: host.to_string(),
            accepted,
        }))
    };
    let replies = vec![ack("NHOST2", false), ack("NHOST1", true)];
    let acks = client.perform_provider_auction_replies(&replies);
    assert_eq!(acks.len(), 2);
    assert_eq!(acks[0].host_id, "NHOST2");
    assert!(!acks[0].accepted);
    assert_eq!(acks[1].host_id, "NHOST1");
    assert!(acks[1].accepted);
}

#[test]
fn hosts_collection_decodes_ping_replies() {
    let client = Client::new(None, 1000);
    let replies = vec![
        serialize(&ControlMessage::Host(Host { id: "NHOST1".to_string() })),
        serialize(&ControlMessage::Host(Host { id: "NHOST2".to_string() })),
    ];
    let hosts = client.get_hosts_replies(&replies);
    assert_eq!(hosts.len(), 2);
    assert_eq!(hosts[0].id, "NHOST1");
    assert_eq!(hosts[1].id, "NHOST2");
}

#[test]
fn start_provider_defaults_the_link_name() {
    let client = Client::new(None, 1000);
    let (_s, bytes) = client.start_provider("NHOST1", "VPROV", None);
    match control_interface::deserialize(&bytes) {
        Ok(ControlMessage::StartProviderCommand(c)) => assert_eq!(c.link_name, "default"),
        _ => panic!("the command decodes"),
    }
    let (_s, bytes) = client.start_provider("NHOST1", "VPROV", Some("backend".to_string()));
    match control_interface::deserialize(&bytes) {
        Ok(ControlMessage::StartProviderCommand(c)) => assert_eq!(c.link_name, "backend"),
        _ => panic!("the command decodes"),
    }
}

#[test]
fn advertise_link_is_publish_only() {
    let client = Client::new(None, 1000);
    let (subject, bytes) = client.advertise_link(
        "MACTOR",
        "VPROV",
        "wasmcloud:keyvalue",
        "default",
        vec![("URL".to_string(), "redis://127.0.0.1".to_string())],
    );
    assert_eq!(subject, "wasmcloud.rpc.links");
    match control_interface::deserialize(&bytes) {
        Ok(ControlMessage::LinkDefinition(l)) => assert_eq!(l.provider_id, "VPROV"),
        _ => panic!("the link definition decodes"),
    }
    assert!(client.advertise_link_result(PublishOutcome::Accepted).is_ok());
    match client.advertise_link_result(PublishOutcome::Refused("down".to_string())) {
        Err(ControlError::TransportError(m)) => assert_eq!(m, "down"),
        _ => panic!("a refused publish is a transport error"),
    }
}

#[test]
fn call_actor_reply_decodes_the_response() {
    let client = Client::new(None, 1000);
    let reply = serialize(&ControlMessage::InvocationResponse(
        control_interface::types::InvocationResponse {
            msg: vec![42],
            error: None,
            invocation_id: "corr-7".to_string(),
        },
    ));
    match client.call_actor_reply(SingleReply::Replied(reply)) {
        Ok(resp) => {
            assert_eq!(resp.msg, vec![42]);
            assert!(resp.error.is_none());
            assert_eq!(resp.invocation_id, "corr-7");
        }
        Err(_) => panic!("a well-formed response yields success"),
    }
    match client.call_actor_reply(SingleReply::NoReply) {
        Err(ControlError::Timeout(m)) => assert_eq!(m, "Actor RPC call did not succeed"),
        _ => panic!("no reply within the deadline is a timeout"),
    }
}
