//! The control client: the public operation surface, composing the subject
//! builder, the envelope codec, the invocation signer and the conversation
//! deciders.
//!
//! The client is stateless beyond its configuration and signing identity:
//! every operation is an independent transaction against the bus. Each
//! operation here is split in two: a request builder returning the subject
//! and the encoded request bytes to put on the bus, and a decision function
//! taking what the bus gave back. The publishing, awaiting and the deadline
//! itself belong to the caller that owns the transport.
use vstd::prelude::*;

use crate::broker;
use crate::codec::{deserialize, serialize, spec_dec_msg, spec_enc_msg};
use crate::inv::sig_input;
use crate::keys::{sig_of, Identity};
use crate::rpc::{
    collect_actor_acks, collect_hosts, collect_provider_acks, SingleReply, PublishOutcome,
};
use crate::types::{
    ActorAuctionAck, ActorAuctionRequest, ClaimsList, ControlMessage, EntityV, Host, HostInventory,
    InvocationResponse, Invocation, LinkDefinition, MsgView, ProviderAuctionAck,
    ProviderAuctionRequest, StartActorAck, StartActorCommand, StartProviderAck,
    StartProviderCommand, StopActorAck, StopActorCommand, StopProviderAck, StopProviderCommand,
    UpdateActorAck, UpdateActorCommand, WasccEntity, opt_view, pairs_view, strings_view,
};
use crate::ControlError;

verus! {

/// A lattice control client: an optional namespace prefix isolating this
/// lattice's subjects, the deadline applied to single-reply conversations,
/// and the signing identity for outgoing invocations.
pub struct Client {
    nsprefix: Option<String>,
    timeout_ms: u64,
    key: Identity,
}

impl Client {
    /// The configured namespace prefix.
    pub closed spec fn spec_ns(&self) -> Option<Seq<char>> {
        broker::ns_view(&self.nsprefix)
    }

    /// The deadline, in milliseconds, of single-reply conversations.
    pub closed spec fn spec_timeout_ms(&self) -> u64 {
        self.timeout_ms
    }

    /// The seed of the client's signing identity.
    pub closed spec fn spec_seed(&self) -> Seq<char> {
        self.key.spec_seed()
    }

    /// The public key of the client's signing identity.
    pub closed spec fn spec_public_key(&self) -> Seq<char> {
        self.key.spec_public_key()
    }

    /// Build a client with the given namespace prefix and single-reply
    /// deadline, and a freshly generated signing identity.
    pub fn new(nsprefix: Option<String>, timeout_ms: u64) -> (r: Client)
        ensures
            r.spec_ns() == (match nsprefix {
                Option::None => Option::<Seq<char>>::None,
                Option::Some(p) => Option::Some(p@),
            }),
            r.spec_timeout_ms() == timeout_ms,
            r.spec_public_key() == crate::keys::seed_public_key(r.spec_seed()),
    {
        Client { nsprefix, timeout_ms, key: Identity::generate() }
    }

    /// The deadline a caller must apply to this client's single-reply
    /// conversations.
    pub fn timeout_ms(&self) -> (r: u64)
        ensures
            r == self.spec_timeout_ms(),
    {
        self.timeout_ms
    }

    /// The public key under which this client signs invocations.
    pub fn public_key(&self) -> (r: String)
        ensures
            r@ == self.spec_public_key(),
    {
        self.key.public_key()
    }

    /// The subject of the host-discovery ping; the request carries no
    /// payload, and the replies are gathered for the caller's window.
    pub fn get_hosts(&self) -> (r: String)
        ensures
            r@ == broker::queries::hosts_view(self.spec_ns()),
    {
        broker::queries::hosts(&self.nsprefix)
    }

    /// Decide a host-discovery collection: exactly the replies that decode
    /// as hosts, in arrival order; malformed replies are dropped, and an
    /// empty batch yields an empty collection.
    pub fn get_hosts_replies(&self, replies: &Vec<Vec<u8>>) -> (r: Vec<Host>)
        ensures
            crate::rpc::host_views(r@) == crate::rpc::decoded_matching(
                crate::rpc::bytes_views(replies@),
                crate::rpc::is_host_reply(),
            ),
            replies@.len() == 0 ==> r@.len() == 0,
    {
        collect_hosts(replies)
    }

    /// The subject and encoded request of an actor placement auction.
    pub fn perform_actor_auction(&self, actor_ref: &str, constraints: Vec<(String, String)>) -> (r:
        (String, Vec<u8>))
        ensures
            r.0@ == broker::actor_auction_view(self.spec_ns()),
            r.1@ == spec_enc_msg(
                MsgView::ActorAuctionRequest {
                    actor_ref: actor_ref@,
                    constraints: pairs_view(constraints@),
                },
            ),
    {
        let subject = broker::actor_auction_subject(&self.nsprefix);
        let bytes = serialize(
            &ControlMessage::ActorAuctionRequest(
                ActorAuctionRequest { actor_ref: actor_ref.to_owned(), constraints },
            ),
        );
        (subject, bytes)
    }

    /// Decide an actor auction collection: exactly the replies that decode
    /// as actor auction acks, in arrival order; malformed replies are
    /// dropped. Duplicate acks from one host are kept: tolerating or
    /// filtering them is the caller's policy.
    pub fn perform_actor_auction_replies(&self, replies: &Vec<Vec<u8>>) -> (r: Vec<ActorAuctionAck>)
        ensures
            crate::rpc::actor_ack_views(r@) == crate::rpc::decoded_matching(
                crate::rpc::bytes_views(replies@),
                crate::rpc::is_actor_auction_ack(),
            ),
            replies@.len() == 0 ==> r@.len() == 0,
    {
        collect_actor_acks(replies)
    }

    /// The subject and encoded request of a provider placement auction.
    pub fn perform_provider_auction(
        &self,
        provider_ref: &str,
        link_name: &str,
        constraints: Vec<(String, String)>,
    ) -> (r: (String, Vec<u8>))
        ensures
            r.0@ == broker::provider_auction_view(self.spec_ns()),
            r.1@ == spec_enc_msg(
                MsgView::ProviderAuctionRequest {
                    provider_ref: provider_ref@,
                    link_name: link_name@,
                    constraints: pairs_view(constraints@),
                },
            ),
    {
        let subject = broker::provider_auction_subject(&self.nsprefix);
        let bytes = serialize(
            &ControlMessage::ProviderAuctionRequest(
                ProviderAuctionRequest {
                    provider_ref: provider_ref.to_owned(),
                    link_name: link_name.to_owned(),
                    constraints,
                },
            ),
        );
        (subject, bytes)
    }

    /// Decide a provider auction collection, as for actor auctions.
    pub fn perform_provider_auction_replies(&self, replies: &Vec<Vec<u8>>) -> (r: Vec<
        ProviderAuctionAck,
    >)
        ensures
            crate::rpc::provider_ack_views(r@) == crate::rpc::decoded_matching(
                crate::rpc::bytes_views(replies@),
                crate::rpc::is_provider_auction_ack(),
            ),
            replies@.len() == 0 ==> r@.len() == 0,
    {
        collect_provider_acks(replies)
    }

    /// The subject of the inventory query of one host; the request carries
    /// no payload.
    pub fn get_host_inventory(&self, host_id: &str) -> (r: String)
        ensures
            r@ == broker::queries::host_inventory_view(self.spec_ns(), host_id@),
    {
        broker::queries::host_inventory(&self.nsprefix, host_id)
    }

    /// The subject and encoded command to start an actor on one host.
    pub fn start_actor(&self, host_id: &str, actor_ref: &str) -> (r: (String, Vec<u8>))
        ensures
            r.0@ == broker::commands::start_actor_view(self.spec_ns(), host_id@),
            r.1@ == spec_enc_msg(
                MsgView::StartActorCommand { actor_ref: actor_ref@, host_id: host_id@ },
            ),
    {
        let subject = broker::commands::start_actor(&self.nsprefix, host_id);
        let bytes = serialize(
            &ControlMessage::StartActorCommand(
                StartActorCommand {
                    actor_ref: actor_ref.to_owned(),
                    host_id: host_id.to_owned(),
                },
            ),
        );
        (subject, bytes)
    }

    /// The subject and encoded command to stop an actor on one host.
    pub fn stop_actor(&self, host_id: &str, actor_ref: &str) -> (r: (String, Vec<u8>))
        ensures
            r.0@ == broker::commands::stop_actor_view(self.spec_ns(), host_id@),
            r.1@ == spec_enc_msg(
                MsgView::StopActorCommand { host_id: host_id@, actor_ref: actor_ref@ },
            ),
    {
        let subject = broker::commands::stop_actor(&self.nsprefix, host_id);
        let bytes = serialize(
            &ControlMessage::StopActorCommand(
                StopActorCommand {
                    host_id: host_id.to_owned(),
                    actor_ref: actor_ref.to_owned(),
                },
            ),
        );
        (subject, bytes)
    }

    /// The subject and encoded command to replace a running actor with a
    /// new artifact on one host.
    pub fn update_actor(&self, host_id: &str, existing_actor_id: &str, new_actor_ref: &str) -> (r:
        (String, Vec<u8>))
        ensures
            r.0@ == broker::commands::update_actor_view(self.spec_ns(), host_id@),
            r.1@ == spec_enc_msg(
                MsgView::UpdateActorCommand {
                    host_id: host_id@,
                    actor_id: existing_actor_id@,
                    new_actor_ref: new_actor_ref@,
                },
            ),
    {
        let subject = broker::commands::update_actor(&self.nsprefix, host_id);
        let bytes = serialize(
            &ControlMessage::UpdateActorCommand(
                UpdateActorCommand {
                    host_id: host_id.to_owned(),
                    actor_id: existing_actor_id.to_owned(),
                    new_actor_ref: new_actor_ref.to_owned(),
                },
            ),
        );
        (subject, bytes)
    }

    /// The subject and encoded command to start a provider on one host.
    /// Without an explicit link name the default one is used.
    pub fn start_provider(&self, host_id: &str, provider_ref: &str, link_name: Option<String>) -> (
        r: (String, Vec<u8>))
        ensures
            r.0@ == broker::commands::start_provider_view(self.spec_ns(), host_id@),
            r.1@ == spec_enc_msg(
                MsgView::StartProviderCommand {
                    host_id: host_id@,
                    provider_ref: provider_ref@,
                    link_name: (match link_name {
                        Option::Some(l) => l@,
                        Option::None => "default"@,
                    }),
                },
            ),
    {
        let subject = broker::commands::start_provider(&self.nsprefix, host_id);
        let link = match link_name {
            Option::Some(l) => l,
            Option::None => "default".to_owned(),
        };
        let bytes = serialize(
            &ControlMessage::StartProviderCommand(
                StartProviderCommand {
                    host_id: host_id.to_owned(),
                    provider_ref: provider_ref.to_owned(),
                    link_name: link,
                },
            ),
        );
        (subject, bytes)
    }

    /// The subject and encoded command to stop a provider on one host.
    pub fn stop_provider(
        &self,
        host_id: &str,
        provider_ref: &str,
        link_name: &str,
        contract_id: &str,
    ) -> (r: (String, Vec<u8>))
        ensures
            r.0@ == broker::commands::stop_provider_view(self.spec_ns(), host_id@),
            r.1@ == spec_enc_msg(
                MsgView::StopProviderCommand {
                    host_id: host_id@,
                    provider_ref: provider_ref@,
                    link_name: link_name@,
                    contract_id: contract_id@,
                },
            ),
    {
        let subject = broker::commands::stop_provider(&self.nsprefix, host_id);
        let bytes = serialize(
            &ControlMessage::StopProviderCommand(
                StopProviderCommand {
                    host_id: host_id.to_owned(),
                    provider_ref: provider_ref.to_owned(),
                    link_name: link_name.to_owned(),
                    contract_id: contract_id.to_owned(),
                },
            ),
        );
        (subject, bytes)
    }

    /// The subject of the lattice-wide claims query; the request carries no
    /// payload.
    pub fn get_claims(&self) -> (r: String)
        ensures
            r@ == broker::queries::claims_view(self.spec_ns()),
    {
        broker::queries::claims(&self.nsprefix)
    }

    /// The subject and encoded invocation of a remote call on an actor. The
    /// call originates from the well-known system actor, carries a fresh
    /// correlation id, and is signed by this client's identity over origin,
    /// target, operation and payload.
    pub fn call_actor(&self, target_id: &str, operation: &str, data: &[u8]) -> (r: (String, Vec<
        u8,
    >))
        ensures
            r.0@ == broker::rpc::call_actor_view(self.spec_ns(), target_id@),
            exists|id: Seq<char>|
                r.1@ == spec_enc_msg(
                    MsgView::Invocation {
                        id,
                        origin: EntityV::Actor("system"@),
                        target: EntityV::Actor(target_id@),
                        operation: operation@,
                        msg: data@,
                        signature: sig_of(
                            self.spec_seed(),
                            sig_input(
                                EntityV::Actor("system"@),
                                EntityV::Actor(target_id@),
                                operation@,
                                data@,
                            ),
                        ),
                        issuer: self.spec_public_key(),
                    },
                ),
    {
        let subject = broker::rpc::call_actor(&self.nsprefix, target_id);
        let inv = Invocation::new(
            &self.key,
            WasccEntity::Actor("system".to_owned()),
            WasccEntity::Actor(target_id.to_owned()),
            operation,
            vstd::slice::slice_to_vec(data),
        );
        let ghost witness = inv.id@;
        let bytes = serialize(&ControlMessage::Invocation(inv));
        proof {
            assert(bytes@ == spec_enc_msg(
                MsgView::Invocation {
                    id: witness,
                    origin: EntityV::Actor("system"@),
                    target: EntityV::Actor(target_id@),
                    operation: operation@,
                    msg: data@,
                    signature: sig_of(
                        self.spec_seed(),
                        sig_input(
                            EntityV::Actor("system"@),
                            EntityV::Actor(target_id@),
                            operation@,
                            data@,
                        ),
                    ),
                    issuer: self.spec_public_key(),
                },
            ));
        }
        (subject, bytes)
    }

    /// The subject and encoded broadcast of a link definition. The
    /// operation is publish-only: there is no acknowledgement, and
    /// delivery is best effort.
    pub fn advertise_link(
        &self,
        actor_id: &str,
        provider_id: &str,
        contract_id: &str,
        link_name: &str,
        values: Vec<(String, String)>,
    ) -> (r: (String, Vec<u8>))
        ensures
            r.0@ == broker::rpc::advertise_links_view(self.spec_ns()),
            r.1@ == spec_enc_msg(
                MsgView::LinkDefinition {
                    actor_id: actor_id@,
                    provider_id: provider_id@,
                    contract_id: contract_id@,
                    link_name: link_name@,
                    values: pairs_view(values@),
                },
            ),
    {
        let subject = broker::rpc::advertise_links(&self.nsprefix);
        let bytes = serialize(
            &ControlMessage::LinkDefinition(
                LinkDefinition {
                    actor_id: actor_id.to_owned(),
                    provider_id: provider_id.to_owned(),
                    contract_id: contract_id.to_owned(),
                    link_name: link_name.to_owned(),
                    values,
                },
            ),
        );
        (subject, bytes)
    }

    /// Decide a publish-only operation: success as soon as the transport
    /// accepted the publish, a transport error otherwise. No host-side
    /// confirmation exists for these operations.
    pub fn advertise_link_result(&self, outcome: PublishOutcome) -> (r: Result<(), ControlError>)
        ensures
            match outcome {
                PublishOutcome::Accepted => r is Ok,
                PublishOutcome::Refused(m) => r matches Result::Err(
                    ControlError::TransportError(em),
                ) && em@ == m@,
            },
    {
        match outcome {
            PublishOutcome::Accepted => Result::Ok(()),
            PublishOutcome::Refused(m) => Result::Err(ControlError::TransportError(m)),
        }
    }

    /// Decide the outcome of the get host inventory conversation: a failed
    /// publish is a transport error, no reply within the deadline is a
    /// timeout naming the command, and a reply yields the ack exactly when
    /// it decodes as one.
    pub fn get_host_inventory_reply(&self, outcome: SingleReply) -> (r: Result<HostInventory, ControlError>)
        ensures
            match outcome {
                SingleReply::PublishFailed(m) => r matches Result::Err(
                    ControlError::TransportError(em),
                ) && em@ == m@,
                SingleReply::NoReply => r matches Result::Err(ControlError::Timeout(em)) && em@
                    == "Did not receive host inventory from target host"@,
                SingleReply::Replied(bytes) => match spec_dec_msg(bytes@) {
                    Option::Some(MsgView::HostInventory { host_id, actors, providers }) => r matches Result::Ok(a)
                        && a.host_id@ == host_id && strings_view(a.actors@) == actors && strings_view(a.providers@) == providers,
                    _ => r matches Result::Err(ControlError::DecodingError(_)),
                },
            },
    {
        match outcome {
            SingleReply::PublishFailed(m) => Result::Err(ControlError::TransportError(m)),
            SingleReply::NoReply => Result::Err(
                ControlError::Timeout("Did not receive host inventory from target host".to_owned()),
            ),
            SingleReply::Replied(bytes) => match deserialize(&bytes) {
                Result::Ok(m) => match m {
                    ControlMessage::HostInventory(a) => Result::Ok(a),
                    _ => Result::Err(
                        ControlError::DecodingError("deserialization failure".to_owned()),
                    ),
                },
                Result::Err(e) => Result::Err(e),
            },
        }
    }

    /// Decide the outcome of the start actor conversation: a failed
    /// publish is a transport error, no reply within the deadline is a
    /// timeout naming the command, and a reply yields the ack exactly when
    /// it decodes as one.
    pub fn start_actor_reply(&self, outcome: SingleReply) -> (r: Result<StartActorAck, ControlError>)
        ensures
            match outcome {
                SingleReply::PublishFailed(m) => r matches Result::Err(
                    ControlError::TransportError(em),
                ) && em@ == m@,
                SingleReply::NoReply => r matches Result::Err(ControlError::Timeout(em)) && em@
                    == "Did not receive start actor acknowledgement"@,
                SingleReply::Replied(bytes) => match spec_dec_msg(bytes@) {
                    Option::Some(MsgView::StartActorAck { accepted }) => r matches Result::Ok(a)
                        && a.accepted == accepted,
                    _ => r matches Result::Err(ControlError::DecodingError(_)),
                },
            },
    {
        match outcome {
            SingleReply::PublishFailed(m) => Result::Err(ControlError::TransportError(m)),
            SingleReply::NoReply => Result::Err(
                ControlError::Timeout("Did not receive start actor acknowledgement".to_owned()),
            ),
            SingleReply::Replied(bytes) => match deserialize(&bytes) {
                Result::Ok(m) => match m {
                    ControlMessage::StartActorAck(a) => Result::Ok(a),
                    _ => Result::Err(
                        ControlError::DecodingError("deserialization failure".to_owned()),
                    ),
                },
                Result::Err(e) => Result::Err(e),
            },
        }
    }

    /// Decide the outcome of the stop actor conversation: a failed
    /// publish is a transport error, no reply within the deadline is a
    /// timeout naming the command, and a reply yields the ack exactly when
    /// it decodes as one.
    pub fn stop_actor_reply(&self, outcome: SingleReply) -> (r: Result<StopActorAck, ControlError>)
        ensures
            match outcome {
                SingleReply::PublishFailed(m) => r matches Result::Err(
                    ControlError::TransportError(em),
                ) && em@ == m@,
                SingleReply::NoReply => r matches Result::Err(ControlError::Timeout(em)) && em@
                    == "Did not receive stop actor acknowledgement"@,
                SingleReply::Replied(bytes) => match spec_dec_msg(bytes@) {
                    Option::Some(MsgView::StopActorAck { accepted }) => r matches Result::Ok(a)
                        && a.accepted == accepted,
                    _ => r matches Result::Err(ControlError::DecodingError(_)),
                },
            },
    {
        match outcome {
            SingleReply::PublishFailed(m) => Result::Err(ControlError::TransportError(m)),
            SingleReply::NoReply => Result::Err(
                ControlError::Timeout("Did not receive stop actor acknowledgement".to_owned()),
            ),
            SingleReply::Replied(bytes) => match deserialize(&bytes) {
                Result::Ok(m) => match m {
                    ControlMessage::StopActorAck(a) => Result::Ok(a),
                    _ => Result::Err(
                        ControlError::DecodingError("deserialization failure".to_owned()),
                    ),
                },
                Result::Err(e) => Result::Err(e),
            },
        }
    }

    /// Decide the outcome of the update actor conversation: a failed
    /// publish is a transport error, no reply within the deadline is a
    /// timeout naming the command, and a reply yields the ack exactly when
    /// it decodes as one.
    pub fn update_actor_reply(&self, outcome: SingleReply) -> (r: Result<UpdateActorAck, ControlError>)
        ensures
            match outcome {
                SingleReply::PublishFailed(m) => r matches Result::Err(
                    ControlError::TransportError(em),
                ) && em@ == m@,
                SingleReply::NoReply => r matches Result::Err(ControlError::Timeout(em)) && em@
                    == "Did not receive update actor acknowledgement"@,
                SingleReply::Replied(bytes) => match spec_dec_msg(bytes@) {
                    Option::Some(MsgView::UpdateActorAck { accepted }) => r matches Result::Ok(a)
                        && a.accepted == accepted,
                    _ => r matches Result::Err(ControlError::DecodingError(_)),
                },
            },
    {
        match outcome {
            SingleReply::PublishFailed(m) => Result::Err(ControlError::TransportError(m)),
            SingleReply::NoReply => Result::Err(
                ControlError::Timeout("Did not receive update actor acknowledgement".to_owned()),
            ),
            SingleReply::Replied(bytes) => match deserialize(&bytes) {
                Result::Ok(m) => match m {
                    ControlMessage::UpdateActorAck(a) => Result::Ok(a),
                    _ => Result::Err(
                        ControlError::DecodingError("deserialization failure".to_owned()),
                    ),
                },
                Result::Err(e) => Result::Err(e),
            },
        }
    }

    /// Decide the outcome of the start provider conversation: a failed
    /// publish is a transport error, no reply within the deadline is a
    /// timeout naming the command, and a reply yields the ack exactly when
    /// it decodes as one.
    pub fn start_provider_reply(&self, outcome: SingleReply) -> (r: Result<StartProviderAck, ControlError>)
        ensures
            match outcome {
                SingleReply::PublishFailed(m) => r matches Result::Err(
                    ControlError::TransportError(em),
                ) && em@ == m@,
                SingleReply::NoReply => r matches Result::Err(ControlError::Timeout(em)) && em@
                    == "Did not receive start provider acknowledgement"@,
                SingleReply::Replied(bytes) => match spec_dec_msg(bytes@) {
                    Option::Some(MsgView::StartProviderAck { accepted }) => r matches Result::Ok(a)
                        && a.accepted == accepted,
                    _ => r matches Result::Err(ControlError::DecodingError(_)),
                },
            },
    {
        match outcome {
            SingleReply::PublishFailed(m) => Result::Err(ControlError::TransportError(m)),
            SingleReply::NoReply => Result::Err(
                ControlError::Timeout("Did not receive start provider acknowledgement".to_owned()),
            ),
            SingleReply::Replied(bytes) => match deserialize(&bytes) {
                Result::Ok(m) => match m {
                    ControlMessage::StartProviderAck(a) => Result::Ok(a),
                    _ => Result::Err(
                        ControlError::DecodingError("deserialization failure".to_owned()),
                    ),
                },
                Result::Err(e) => Result::Err(e),
            },
        }
    }

    /// Decide the outcome of the stop provider conversation: a failed
    /// publish is a transport error, no reply within the deadline is a
    /// timeout naming the command, and a reply yields the ack exactly when
    /// it decodes as one.
    pub fn stop_provider_reply(&self, outcome: SingleReply) -> (r: Result<StopProviderAck, ControlError>)
        ensures
            match outcome {
                SingleReply::PublishFailed(m) => r matches Result::Err(
                    ControlError::TransportError(em),
                ) && em@ == m@,
                SingleReply::NoReply => r matches Result::Err(ControlError::Timeout(em)) && em@
                    == "Did not receive stop provider acknowledgement"@,
                SingleReply::Replied(bytes) => match spec_dec_msg(bytes@) {
                    Option::Some(MsgView::StopProviderAck { accepted }) => r matches Result::Ok(a)
                        && a.accepted == accepted,
                    _ => r matches Result::Err(ControlError::DecodingError(_)),
                },
            },
    {
        match outcome {
            SingleReply::PublishFailed(m) => Result::Err(ControlError::TransportError(m)),
            SingleReply::NoReply => Result::Err(
                ControlError::Timeout("Did not receive stop provider acknowledgement".to_owned()),
            ),
            SingleReply::Replied(bytes) => match deserialize(&bytes) {
                Result::Ok(m) => match m {
                    ControlMessage::StopProviderAck(a) => Result::Ok(a),
                    _ => Result::Err(
                        ControlError::DecodingError("deserialization failure".to_owned()),
                    ),
                },
                Result::Err(e) => Result::Err(e),
            },
        }
    }

    /// Decide the outcome of the get claims conversation: a failed
    /// publish is a transport error, no reply within the deadline is a
    /// timeout naming the command, and a reply yields the ack exactly when
    /// it decodes as one.
    pub fn get_claims_reply(&self, outcome: SingleReply) -> (r: Result<ClaimsList, ControlError>)
        ensures
            match outcome {
                SingleReply::PublishFailed(m) => r matches Result::Err(
                    ControlError::TransportError(em),
                ) && em@ == m@,
                SingleReply::NoReply => r matches Result::Err(ControlError::Timeout(em)) && em@
                    == "Did not receive claims from lattice"@,
                SingleReply::Replied(bytes) => match spec_dec_msg(bytes@) {
                    Option::Some(MsgView::ClaimsList { claims }) => r matches Result::Ok(a)
                        && pairs_view(a.claims@) == claims,
                    _ => r matches Result::Err(ControlError::DecodingError(_)),
                },
            },
    {
        match outcome {
            SingleReply::PublishFailed(m) => Result::Err(ControlError::TransportError(m)),
            SingleReply::NoReply => Result::Err(
                ControlError::Timeout("Did not receive claims from lattice".to_owned()),
            ),
            SingleReply::Replied(bytes) => match deserialize(&bytes) {
                Result::Ok(m) => match m {
                    ControlMessage::ClaimsList(a) => Result::Ok(a),
                    _ => Result::Err(
                        ControlError::DecodingError("deserialization failure".to_owned()),
                    ),
                },
                Result::Err(e) => Result::Err(e),
            },
        }
    }

    /// Decide the outcome of the call actor conversation: a failed
    /// publish is a transport error, no reply within the deadline is a
    /// timeout naming the command, and a reply yields the ack exactly when
    /// it decodes as one.
    pub fn call_actor_reply(&self, outcome: SingleReply) -> (r: Result<InvocationResponse, ControlError>)
        ensures
            match outcome {
                SingleReply::PublishFailed(m) => r matches Result::Err(
                    ControlError::TransportError(em),
                ) && em@ == m@,
                SingleReply::NoReply => r matches Result::Err(ControlError::Timeout(em)) && em@
                    == "Actor RPC call did not succeed"@,
                SingleReply::Replied(bytes) => match spec_dec_msg(bytes@) {
                    Option::Some(MsgView::InvocationResponse { msg, error, invocation_id }) => r matches Result::Ok(a)
                        && a.msg@ == msg && opt_view(a.error) == error && a.invocation_id@ == invocation_id,
                    _ => r matches Result::Err(ControlError::DecodingError(_)),
                },
            },
    {
        match outcome {
            SingleReply::PublishFailed(m) => Result::Err(ControlError::TransportError(m)),
            SingleReply::NoReply => Result::Err(
                ControlError::Timeout("Actor RPC call did not succeed".to_owned()),
            ),
            SingleReply::Replied(bytes) => match deserialize(&bytes) {
                Result::Ok(m) => match m {
                    ControlMessage::InvocationResponse(a) => Result::Ok(a),
                    _ => Result::Err(
                        ControlError::DecodingError("deserialization failure".to_owned()),
                    ),
                },
                Result::Err(e) => Result::Err(e),
            },
        }
    }
}

} // verus!
