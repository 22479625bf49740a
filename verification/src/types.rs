//! The typed messages exchanged over the lattice control subjects, together
//! with their mathematical views.
//!
//! Every message travels as the envelope codec's byte encoding of one
//! `ControlMessage` variant. The view of a message (`MsgView`) replaces each
//! `String` by its character sequence and each `Vec` by its sequence, so that
//! contracts can speak of message contents without reference to allocation.
use vstd::prelude::*;
use vstd::utf8::encode_utf8;

verus! {

/// The addressing unit of an invocation: either an actor, identified by its
/// public key, or a capability provider, identified by public key, contract
/// id and link name.
#[derive(Clone)]
pub enum WasccEntity {
    Actor(String),
    Capability { id: String, contract_id: String, link_name: String },
}

/// Ghost view of `WasccEntity`.
pub enum EntityV {
    Actor(Seq<char>),
    Capability { id: Seq<char>, contract_id: Seq<char>, link_name: Seq<char> },
}

impl View for WasccEntity {
    type V = EntityV;

    open spec fn view(&self) -> EntityV {
        match self {
            WasccEntity::Actor(k) => EntityV::Actor(k@),
            WasccEntity::Capability { id, contract_id, link_name } => EntityV::Capability {
                id: id@,
                contract_id: contract_id@,
                link_name: link_name@,
            },
        }
    }
}

/// A reply to the host-discovery ping.
#[derive(Clone)]
pub struct Host {
    pub id: String,
}

/// Broadcast request opening an actor placement auction.
#[derive(Clone)]
pub struct ActorAuctionRequest {
    pub actor_ref: String,
    pub constraints: Vec<(String, String)>,
}

/// A host's answer to an actor auction: its identity and whether it can
/// satisfy the constraints.
#[derive(Clone)]
pub struct ActorAuctionAck {
    pub host_id: String,
    pub accepted: bool,
}

/// Broadcast request opening a provider placement auction.
#[derive(Clone)]
pub struct ProviderAuctionRequest {
    pub provider_ref: String,
    pub link_name: String,
    pub constraints: Vec<(String, String)>,
}

/// A host's answer to a provider auction.
#[derive(Clone)]
pub struct ProviderAuctionAck {
    pub host_id: String,
    pub accepted: bool,
}

/// Command instructing one host to start an actor.
#[derive(Clone)]
pub struct StartActorCommand {
    pub actor_ref: String,
    pub host_id: String,
}

/// Acknowledgement of a start-actor command.
#[derive(Clone)]
pub struct StartActorAck {
    pub accepted: bool,
}

/// Command instructing one host to stop an actor.
#[derive(Clone)]
pub struct StopActorCommand {
    pub host_id: String,
    pub actor_ref: String,
}

/// Acknowledgement of a stop-actor command.
#[derive(Clone)]
pub struct StopActorAck {
    pub accepted: bool,
}

/// Command instructing one host to replace a running actor with a new
/// artifact.
#[derive(Clone)]
pub struct UpdateActorCommand {
    pub host_id: String,
    pub actor_id: String,
    pub new_actor_ref: String,
}

/// Acknowledgement of an update-actor command.
#[derive(Clone)]
pub struct UpdateActorAck {
    pub accepted: bool,
}

/// Command instructing one host to start a capability provider.
#[derive(Clone)]
pub struct StartProviderCommand {
    pub host_id: String,
    pub provider_ref: String,
    pub link_name: String,
}

/// Acknowledgement of a start-provider command.
#[derive(Clone)]
pub struct StartProviderAck {
    pub accepted: bool,
}

/// Command instructing one host to stop a capability provider.
#[derive(Clone)]
pub struct StopProviderCommand {
    pub host_id: String,
    pub provider_ref: String,
    pub link_name: String,
    pub contract_id: String,
}

/// Acknowledgement of a stop-provider command.
#[derive(Clone)]
pub struct StopProviderAck {
    pub accepted: bool,
}

/// Read-only snapshot of what a single host is running.
#[derive(Clone)]
pub struct HostInventory {
    pub host_id: String,
    pub actors: Vec<String>,
    pub providers: Vec<String>,
}

/// Read-only snapshot of the claims known to the lattice, as pairs of
/// subject and issuer.
#[derive(Clone)]
pub struct ClaimsList {
    pub claims: Vec<(String, String)>,
}

/// A durable association between an actor and a capability provider,
/// broadcast once with best-effort delivery.
#[derive(Clone)]
pub struct LinkDefinition {
    pub actor_id: String,
    pub provider_id: String,
    pub contract_id: String,
    pub link_name: String,
    pub values: Vec<(String, String)>,
}

/// A signed remote call addressed to an actor or provider entity.
#[derive(Clone)]
pub struct Invocation {
    pub id: String,
    pub origin: WasccEntity,
    pub target: WasccEntity,
    pub operation: String,
    pub msg: Vec<u8>,
    pub signature: Vec<u8>,
    pub issuer: String,
}

/// The reply correlated with one `Invocation`.
#[derive(Clone)]
pub struct InvocationResponse {
    pub msg: Vec<u8>,
    pub error: Option<String>,
    pub invocation_id: String,
}

/// The closed set of messages the envelope codec understands.
#[derive(Clone)]
pub enum ControlMessage {
    Host(Host),
    ActorAuctionRequest(ActorAuctionRequest),
    ActorAuctionAck(ActorAuctionAck),
    ProviderAuctionRequest(ProviderAuctionRequest),
    ProviderAuctionAck(ProviderAuctionAck),
    StartActorCommand(StartActorCommand),
    StartActorAck(StartActorAck),
    StopActorCommand(StopActorCommand),
    StopActorAck(StopActorAck),
    UpdateActorCommand(UpdateActorCommand),
    UpdateActorAck(UpdateActorAck),
    StartProviderCommand(StartProviderCommand),
    StartProviderAck(StartProviderAck),
    StopProviderCommand(StopProviderCommand),
    StopProviderAck(StopProviderAck),
    HostInventory(HostInventory),
    ClaimsList(ClaimsList),
    LinkDefinition(LinkDefinition),
    Invocation(Invocation),
    InvocationResponse(InvocationResponse),
}

/// Ghost view of `ControlMessage`: the same shape over `Seq` values.
pub enum MsgView {
    Host { id: Seq<char> },
    ActorAuctionRequest { actor_ref: Seq<char>, constraints: Seq<(Seq<char>, Seq<char>)> },
    ActorAuctionAck { host_id: Seq<char>, accepted: bool },
    ProviderAuctionRequest {
        provider_ref: Seq<char>,
        link_name: Seq<char>,
        constraints: Seq<(Seq<char>, Seq<char>)>,
    },
    ProviderAuctionAck { host_id: Seq<char>, accepted: bool },
    StartActorCommand { actor_ref: Seq<char>, host_id: Seq<char> },
    StartActorAck { accepted: bool },
    StopActorCommand { host_id: Seq<char>, actor_ref: Seq<char> },
    StopActorAck { accepted: bool },
    UpdateActorCommand { host_id: Seq<char>, actor_id: Seq<char>, new_actor_ref: Seq<char> },
    UpdateActorAck { accepted: bool },
    StartProviderCommand { host_id: Seq<char>, provider_ref: Seq<char>, link_name: Seq<char> },
    StartProviderAck { accepted: bool },
    StopProviderCommand {
        host_id: Seq<char>,
        provider_ref: Seq<char>,
        link_name: Seq<char>,
        contract_id: Seq<char>,
    },
    StopProviderAck { accepted: bool },
    HostInventory { host_id: Seq<char>, actors: Seq<Seq<char>>, providers: Seq<Seq<char>> },
    ClaimsList { claims: Seq<(Seq<char>, Seq<char>)> },
    LinkDefinition {
        actor_id: Seq<char>,
        provider_id: Seq<char>,
        contract_id: Seq<char>,
        link_name: Seq<char>,
        values: Seq<(Seq<char>, Seq<char>)>,
    },
    Invocation {
        id: Seq<char>,
        origin: EntityV,
        target: EntityV,
        operation: Seq<char>,
        msg: Seq<u8>,
        signature: Seq<u8>,
        issuer: Seq<char>,
    },
    InvocationResponse { msg: Seq<u8>, error: Option<Seq<char>>, invocation_id: Seq<char> },
}

/// The view of a list of string pairs.
pub open spec fn pairs_view(v: Seq<(String, String)>) -> Seq<(Seq<char>, Seq<char>)> {
    v.map_values(|p: (String, String)| (p.0@, p.1@))
}

/// The view of a list of strings.
pub open spec fn strings_view(v: Seq<String>) -> Seq<Seq<char>> {
    v.map_values(|s: String| s@)
}

/// The view of an optional string.
pub open spec fn opt_view(v: Option<String>) -> Option<Seq<char>> {
    match v {
        Option::None => Option::None,
        Option::Some(s) => Option::Some(s@),
    }
}

impl View for ControlMessage {
    type V = MsgView;

    open spec fn view(&self) -> MsgView {
        match self {
            ControlMessage::Host(m) => MsgView::Host { id: m.id@ },
            ControlMessage::ActorAuctionRequest(m) => MsgView::ActorAuctionRequest {
                actor_ref: m.actor_ref@,
                constraints: pairs_view(m.constraints@),
            },
            ControlMessage::ActorAuctionAck(m) => MsgView::ActorAuctionAck {
                host_id: m.host_id@,
                accepted: m.accepted,
            },
            ControlMessage::ProviderAuctionRequest(m) => MsgView::ProviderAuctionRequest {
                provider_ref: m.provider_ref@,
                link_name: m.link_name@,
                constraints: pairs_view(m.constraints@),
            },
            ControlMessage::ProviderAuctionAck(m) => MsgView::ProviderAuctionAck {
                host_id: m.host_id@,
                accepted: m.accepted,
            },
            ControlMessage::StartActorCommand(m) => MsgView::StartActorCommand {
                actor_ref: m.actor_ref@,
                host_id: m.host_id@,
            },
            ControlMessage::StartActorAck(m) => MsgView::StartActorAck { accepted: m.accepted },
            ControlMessage::StopActorCommand(m) => MsgView::StopActorCommand {
                host_id: m.host_id@,
                actor_ref: m.actor_ref@,
            },
            ControlMessage::StopActorAck(m) => MsgView::StopActorAck { accepted: m.accepted },
            ControlMessage::UpdateActorCommand(m) => MsgView::UpdateActorCommand {
                host_id: m.host_id@,
                actor_id: m.actor_id@,
                new_actor_ref: m.new_actor_ref@,
            },
            ControlMessage::UpdateActorAck(m) => MsgView::UpdateActorAck { accepted: m.accepted },
            ControlMessage::StartProviderCommand(m) => MsgView::StartProviderCommand {
                host_id: m.host_id@,
                provider_ref: m.provider_ref@,
                link_name: m.link_name@,
            },
            ControlMessage::StartProviderAck(m) => MsgView::StartProviderAck {
                accepted: m.accepted,
            },
            ControlMessage::StopProviderCommand(m) => MsgView::StopProviderCommand {
                host_id: m.host_id@,
                provider_ref: m.provider_ref@,
                link_name: m.link_name@,
                contract_id: m.contract_id@,
            },
            ControlMessage::StopProviderAck(m) => MsgView::StopProviderAck {
                accepted: m.accepted,
            },
            ControlMessage::HostInventory(m) => MsgView::HostInventory {
                host_id: m.host_id@,
                actors: strings_view(m.actors@),
                providers: strings_view(m.providers@),
            },
            ControlMessage::ClaimsList(m) => MsgView::ClaimsList { claims: pairs_view(m.claims@) },
            ControlMessage::LinkDefinition(m) => MsgView::LinkDefinition {
                actor_id: m.actor_id@,
                provider_id: m.provider_id@,
                contract_id: m.contract_id@,
                link_name: m.link_name@,
                values: pairs_view(m.values@),
            },
            ControlMessage::Invocation(m) => MsgView::Invocation {
                id: m.id@,
                origin: m.origin@,
                target: m.target@,
                operation: m.operation@,
                msg: m.msg@,
                signature: m.signature@,
                issuer: m.issuer@,
            },
            ControlMessage::InvocationResponse(m) => MsgView::InvocationResponse {
                msg: m.msg@,
                error: opt_view(m.error),
                invocation_id: m.invocation_id@,
            },
        }
    }
}

/// A character sequence is representable when its UTF-8 encoding fits under
/// the codec's length prefix.
pub open spec fn wf_str(s: Seq<char>) -> bool {
    encode_utf8(s).len() < 0x1_0000_0000_0000_0000
}

/// A byte sequence is representable when its length fits under the codec's
/// length prefix.
pub open spec fn wf_bytes(b: Seq<u8>) -> bool {
    b.len() < 0x1_0000_0000_0000_0000
}

/// A list of string pairs is representable when its length and every member
/// are.
pub open spec fn wf_pairs(ps: Seq<(Seq<char>, Seq<char>)>) -> bool {
    &&& ps.len() < 0x1_0000_0000_0000_0000
    &&& forall|i: int| 0 <= i < ps.len() ==> wf_str(#[trigger] ps[i].0) && wf_str(ps[i].1)
}

/// A list of strings is representable when its length and every member are.
pub open spec fn wf_strings(ss: Seq<Seq<char>>) -> bool {
    &&& ss.len() < 0x1_0000_0000_0000_0000
    &&& forall|i: int| 0 <= i < ss.len() ==> wf_str(#[trigger] ss[i])
}

/// An entity is representable when each of its identifier strings is.
pub open spec fn wf_entity(e: EntityV) -> bool {
    match e {
        EntityV::Actor(k) => wf_str(k),
        EntityV::Capability { id, contract_id, link_name } => wf_str(id) && wf_str(contract_id)
            && wf_str(link_name),
    }
}

/// A message is representable when every string, byte string and list in it
/// fits under the codec's length prefixes. Every message assembled from
/// in-memory values satisfies this.
pub open spec fn wf_msg(m: MsgView) -> bool {
    match m {
        MsgView::Host { id } => wf_str(id),
        MsgView::ActorAuctionRequest { actor_ref, constraints } => wf_str(actor_ref) && wf_pairs(
            constraints,
        ),
        MsgView::ActorAuctionAck { host_id, accepted } => wf_str(host_id),
        MsgView::ProviderAuctionRequest { provider_ref, link_name, constraints } => wf_str(
            provider_ref,
        ) && wf_str(link_name) && wf_pairs(constraints),
        MsgView::ProviderAuctionAck { host_id, accepted } => wf_str(host_id),
        MsgView::StartActorCommand { actor_ref, host_id } => wf_str(actor_ref) && wf_str(host_id),
        MsgView::StartActorAck { accepted } => true,
        MsgView::StopActorCommand { host_id, actor_ref } => wf_str(host_id) && wf_str(actor_ref),
        MsgView::StopActorAck { accepted } => true,
        MsgView::UpdateActorCommand { host_id, actor_id, new_actor_ref } => wf_str(host_id)
            && wf_str(actor_id) && wf_str(new_actor_ref),
        MsgView::UpdateActorAck { accepted } => true,
        MsgView::StartProviderCommand { host_id, provider_ref, link_name } => wf_str(host_id)
            && wf_str(provider_ref) && wf_str(link_name),
        MsgView::StartProviderAck { accepted } => true,
        MsgView::StopProviderCommand { host_id, provider_ref, link_name, contract_id } => wf_str(
            host_id,
        ) && wf_str(provider_ref) && wf_str(link_name) && wf_str(contract_id),
        MsgView::StopProviderAck { accepted } => true,
        MsgView::HostInventory { host_id, actors, providers } => wf_str(host_id) && wf_strings(
            actors,
        ) && wf_strings(providers),
        MsgView::ClaimsList { claims } => wf_pairs(claims),
        MsgView::LinkDefinition { actor_id, provider_id, contract_id, link_name, values } => wf_str(
            actor_id,
        ) && wf_str(provider_id) && wf_str(contract_id) && wf_str(link_name) && wf_pairs(values),
        MsgView::Invocation { id, origin, target, operation, msg, signature, issuer } => wf_str(id)
            && wf_entity(origin) && wf_entity(target) && wf_str(operation) && wf_bytes(msg)
            && wf_bytes(signature) && wf_str(issuer),
        MsgView::InvocationResponse { msg, error, invocation_id } => wf_bytes(msg) && (match error {
            Option::None => true,
            Option::Some(e) => wf_str(e),
        }) && wf_str(invocation_id),
    }
}

} // verus!
