//! The envelope codec: a deterministic, length-prefixed byte encoding of
//! `ControlMessage`, with encode and decode proved inverse.
//!
//! Every participant on the bus must agree on exactly this encoding; the
//! round-trip law (`lemma_codec_round_trip`) is the compatibility contract.
//! Integers travel as little-endian fixed-width fields, strings as
//! length-prefixed UTF-8, lists as a count followed by their members.
use vstd::prelude::*;
use vstd::bytes::*;
use vstd::slice::*;
use vstd::utf8::*;

use crate::types::{
    ActorAuctionAck, ActorAuctionRequest, ClaimsList, ControlMessage, EntityV, Host, HostInventory,
    Invocation, InvocationResponse, LinkDefinition, MsgView, ProviderAuctionAck,
    ProviderAuctionRequest, StartActorAck, StartActorCommand, StartProviderAck,
    StartProviderCommand, StopActorAck, StopActorCommand, StopProviderAck, StopProviderCommand,
    UpdateActorAck, UpdateActorCommand, WasccEntity, opt_view, pairs_view, strings_view, wf_bytes,
    wf_entity, wf_msg, wf_pairs, wf_str, wf_strings,
};
use crate::ControlError;

verus! {

/// Encoding of a `u64`: eight little-endian bytes.
pub open spec fn enc_u64v(x: u64) -> Seq<u8> {
    spec_u64_to_le_bytes(x)
}

/// Decode a `u64` from the front of `d`, returning it with the remainder.
pub open spec fn dec_u64v(d: Seq<u8>) -> Option<(u64, Seq<u8>)> {
    if d.len() >= 8 {
        Option::Some((spec_u64_from_le_bytes(d.take(8)), d.skip(8)))
    } else {
        Option::None
    }
}

/// Encoding of a `bool`: one byte, zero or one.
pub open spec fn enc_boolv(b: bool) -> Seq<u8> {
    seq![if b { 1u8 } else { 0u8 }]
}

/// Decode a `bool`; any leading byte other than zero or one is malformed.
pub open spec fn dec_boolv(d: Seq<u8>) -> Option<(bool, Seq<u8>)> {
    if d.len() >= 1 && (d[0] == 0u8 || d[0] == 1u8) {
        Option::Some((d[0] == 1u8, d.skip(1)))
    } else {
        Option::None
    }
}

/// Encoding of a byte string: its length, then its bytes.
pub open spec fn enc_bytesv(b: Seq<u8>) -> Seq<u8> {
    enc_u64v(b.len() as u64) + b
}

/// Decode a length-prefixed byte string.
pub open spec fn dec_bytesv(d: Seq<u8>) -> Option<(Seq<u8>, Seq<u8>)> {
    match dec_u64v(d) {
        Option::Some((n, d1)) => if d1.len() >= n {
            Option::Some((d1.take(n as int), d1.skip(n as int)))
        } else {
            Option::None
        },
        Option::None => Option::None,
    }
}

/// Encoding of a string: its UTF-8 bytes, length-prefixed.
pub open spec fn enc_strv(s: Seq<char>) -> Seq<u8> {
    enc_bytesv(encode_utf8(s))
}

/// Decode a string; bytes that are not valid UTF-8 are malformed.
pub open spec fn dec_strv(d: Seq<u8>) -> Option<(Seq<char>, Seq<u8>)> {
    match dec_bytesv(d) {
        Option::Some((b, d1)) => if valid_utf8(b) {
            Option::Some((decode_utf8(b), d1))
        } else {
            Option::None
        },
        Option::None => Option::None,
    }
}

/// Body of a list of string pairs: the members in order, no count.
pub open spec fn pairs_body(ps: Seq<(Seq<char>, Seq<char>)>) -> Seq<u8>
    decreases ps.len(),
{
    if ps.len() == 0 {
        Seq::empty()
    } else {
        enc_strv(ps[0].0) + enc_strv(ps[0].1) + pairs_body(ps.drop_first())
    }
}

/// Encoding of a list of string pairs: its count, then its members.
pub open spec fn enc_pairsv(ps: Seq<(Seq<char>, Seq<char>)>) -> Seq<u8> {
    enc_u64v(ps.len() as u64) + pairs_body(ps)
}

/// Decode exactly `n` string pairs from the front of `d`.
pub open spec fn dec_pairs_body(n: nat, d: Seq<u8>) -> Option<
    (Seq<(Seq<char>, Seq<char>)>, Seq<u8>),
>
    decreases n,
{
    if n == 0 {
        Option::Some((Seq::empty(), d))
    } else {
        match dec_strv(d) {
            Option::Some((a, d1)) => match dec_strv(d1) {
                Option::Some((b, d2)) => match dec_pairs_body((n - 1) as nat, d2) {
                    Option::Some((rest, d3)) => Option::Some((seq![(a, b)] + rest, d3)),
                    Option::None => Option::None,
                },
                Option::None => Option::None,
            },
            Option::None => Option::None,
        }
    }
}

/// Decode a counted list of string pairs.
pub open spec fn dec_pairsv(d: Seq<u8>) -> Option<(Seq<(Seq<char>, Seq<char>)>, Seq<u8>)> {
    match dec_u64v(d) {
        Option::Some((n, d1)) => dec_pairs_body(n as nat, d1),
        Option::None => Option::None,
    }
}

/// Body of a list of strings: the members in order, no count.
pub open spec fn strings_body(ss: Seq<Seq<char>>) -> Seq<u8>
    decreases ss.len(),
{
    if ss.len() == 0 {
        Seq::empty()
    } else {
        enc_strv(ss[0]) + strings_body(ss.drop_first())
    }
}

/// Encoding of a list of strings: its count, then its members.
pub open spec fn enc_stringsv(ss: Seq<Seq<char>>) -> Seq<u8> {
    enc_u64v(ss.len() as u64) + strings_body(ss)
}

/// Decode exactly `n` strings from the front of `d`.
pub open spec fn dec_strings_body(n: nat, d: Seq<u8>) -> Option<(Seq<Seq<char>>, Seq<u8>)>
    decreases n,
{
    if n == 0 {
        Option::Some((Seq::empty(), d))
    } else {
        match dec_strv(d) {
            Option::Some((a, d1)) => match dec_strings_body((n - 1) as nat, d1) {
                Option::Some((rest, d2)) => Option::Some((seq![a] + rest, d2)),
                Option::None => Option::None,
            },
            Option::None => Option::None,
        }
    }
}

/// Decode a counted list of strings.
pub open spec fn dec_stringsv(d: Seq<u8>) -> Option<(Seq<Seq<char>>, Seq<u8>)> {
    match dec_u64v(d) {
        Option::Some((n, d1)) => dec_strings_body(n as nat, d1),
        Option::None => Option::None,
    }
}

/// Encoding of an entity: a one-byte tag, then its identifier strings.
pub open spec fn enc_entityv(e: EntityV) -> Seq<u8> {
    match e {
        EntityV::Actor(k) => seq![0u8] + enc_strv(k),
        EntityV::Capability { id, contract_id, link_name } => seq![1u8] + enc_strv(id) + enc_strv(
            contract_id,
        ) + enc_strv(link_name),
    }
}

/// Decode an entity.
pub open spec fn dec_entityv(d: Seq<u8>) -> Option<(EntityV, Seq<u8>)> {
    if d.len() < 1 {
        Option::None
    } else if d[0] == 0u8 {
        match dec_strv(d.skip(1)) {
            Option::Some((k, d1)) => Option::Some((EntityV::Actor(k), d1)),
            Option::None => Option::None,
        }
    } else if d[0] == 1u8 {
        match dec_strv(d.skip(1)) {
            Option::Some((id, d1)) => match dec_strv(d1) {
                Option::Some((contract_id, d2)) => match dec_strv(d2) {
                    Option::Some((link_name, d3)) => Option::Some(
                        (EntityV::Capability { id, contract_id, link_name }, d3),
                    ),
                    Option::None => Option::None,
                },
                Option::None => Option::None,
            },
            Option::None => Option::None,
        }
    } else {
        Option::None
    }
}

/// Encoding of an optional string: a presence flag, then the string if any.
pub open spec fn enc_optv(o: Option<Seq<char>>) -> Seq<u8> {
    match o {
        Option::None => seq![0u8],
        Option::Some(s) => seq![1u8] + enc_strv(s),
    }
}

/// Decode an optional string.
pub open spec fn dec_optv(d: Seq<u8>) -> Option<(Option<Seq<char>>, Seq<u8>)> {
    if d.len() < 1 {
        Option::None
    } else if d[0] == 0u8 {
        Option::Some((Option::None, d.skip(1)))
    } else if d[0] == 1u8 {
        match dec_strv(d.skip(1)) {
            Option::Some((s, d1)) => Option::Some((Option::Some(s), d1)),
            Option::None => Option::None,
        }
    } else {
        Option::None
    }
}

/// Decoding a `u64` undoes encoding it, whatever follows.
pub proof fn lemma_u64_rt(x: u64, rest: Seq<u8>)
    ensures
        dec_u64v(enc_u64v(x) + rest) == Option::Some((x, rest)),
{
    lemma_auto_spec_u64_to_from_le_bytes();
    assert((enc_u64v(x) + rest).take(8) =~= enc_u64v(x));
    assert((enc_u64v(x) + rest).skip(8) =~= rest);
}

/// Decoding a `bool` undoes encoding it, whatever follows.
pub proof fn lemma_bool_rt(b: bool, rest: Seq<u8>)
    ensures
        dec_boolv(enc_boolv(b) + rest) == Option::Some((b, rest)),
{
    assert((enc_boolv(b) + rest).skip(1) =~= rest);
}

/// Decoding a byte string undoes encoding it, whatever follows.
pub proof fn lemma_bytes_rt(b: Seq<u8>, rest: Seq<u8>)
    requires
        wf_bytes(b),
    ensures
        dec_bytesv(enc_bytesv(b) + rest) == Option::Some((b, rest)),
{
    lemma_u64_rt(b.len() as u64, b + rest);
    assert(enc_bytesv(b) + rest =~= enc_u64v(b.len() as u64) + (b + rest));
    assert((b + rest).take(b.len() as int) =~= b);
    assert((b + rest).skip(b.len() as int) =~= rest);
}

/// Decoding a string undoes encoding it, whatever follows.
pub proof fn lemma_str_rt(s: Seq<char>, rest: Seq<u8>)
    requires
        wf_str(s),
    ensures
        dec_strv(enc_strv(s) + rest) == Option::Some((s, rest)),
{
    broadcast use encode_utf8_valid_utf8;
    broadcast use encode_utf8_decode_utf8;

    lemma_bytes_rt(encode_utf8(s), rest);
}

/// Decoding `n` string pairs undoes encoding them, whatever follows.
pub proof fn lemma_pairs_body_rt(ps: Seq<(Seq<char>, Seq<char>)>, rest: Seq<u8>)
    requires
        forall|i: int| 0 <= i < ps.len() ==> wf_str(#[trigger] ps[i].0) && wf_str(ps[i].1),
    ensures
        dec_pairs_body(ps.len(), pairs_body(ps) + rest) == Option::Some((ps, rest)),
    decreases ps.len(),
{
    if ps.len() == 0 {
        assert(pairs_body(ps) + rest =~= rest);
    } else {
        let a = ps[0].0;
        let b = ps[0].1;
        let tl = ps.drop_first();
        assert(pairs_body(ps) + rest =~= enc_strv(a) + (enc_strv(b) + (pairs_body(tl) + rest)));
        lemma_str_rt(a, enc_strv(b) + (pairs_body(tl) + rest));
        lemma_str_rt(b, pairs_body(tl) + rest);
        lemma_pairs_body_rt(tl, rest);
        assert(seq![(a, b)] + tl =~= ps);
    }
}

/// Decoding a counted pair list undoes encoding it, whatever follows.
pub proof fn lemma_pairs_rt(ps: Seq<(Seq<char>, Seq<char>)>, rest: Seq<u8>)
    requires
        wf_pairs(ps),
    ensures
        dec_pairsv(enc_pairsv(ps) + rest) == Option::Some((ps, rest)),
{
    lemma_u64_rt(ps.len() as u64, pairs_body(ps) + rest);
    assert(enc_pairsv(ps) + rest =~= enc_u64v(ps.len() as u64) + (pairs_body(ps) + rest));
    lemma_pairs_body_rt(ps, rest);
}

/// Decoding `n` strings undoes encoding them, whatever follows.
pub proof fn lemma_strings_body_rt(ss: Seq<Seq<char>>, rest: Seq<u8>)
    requires
        forall|i: int| 0 <= i < ss.len() ==> wf_str(#[trigger] ss[i]),
    ensures
        dec_strings_body(ss.len(), strings_body(ss) + rest) == Option::Some((ss, rest)),
    decreases ss.len(),
{
    if ss.len() == 0 {
        assert(strings_body(ss) + rest =~= rest);
    } else {
        let a = ss[0];
        let tl = ss.drop_first();
        assert(strings_body(ss) + rest =~= enc_strv(a) + (strings_body(tl) + rest));
        lemma_str_rt(a, strings_body(tl) + rest);
        lemma_strings_body_rt(tl, rest);
        assert(seq![a] + tl =~= ss);
    }
}

/// Decoding a counted string list undoes encoding it, whatever follows.
pub proof fn lemma_strings_rt(ss: Seq<Seq<char>>, rest: Seq<u8>)
    requires
        wf_strings(ss),
    ensures
        dec_stringsv(enc_stringsv(ss) + rest) == Option::Some((ss, rest)),
{
    lemma_u64_rt(ss.len() as u64, strings_body(ss) + rest);
    assert(enc_stringsv(ss) + rest =~= enc_u64v(ss.len() as u64) + (strings_body(ss) + rest));
    lemma_strings_body_rt(ss, rest);
}

/// Decoding an entity undoes encoding it, whatever follows.
pub proof fn lemma_entity_rt(e: EntityV, rest: Seq<u8>)
    requires
        wf_entity(e),
    ensures
        dec_entityv(enc_entityv(e) + rest) == Option::Some((e, rest)),
{
    match e {
        EntityV::Actor(k) => {
            assert((enc_entityv(e) + rest).skip(1) =~= enc_strv(k) + rest);
            lemma_str_rt(k, rest);
        },
        EntityV::Capability { id, contract_id, link_name } => {
            assert((enc_entityv(e) + rest).skip(1) =~= enc_strv(id) + (enc_strv(contract_id) + (
            enc_strv(link_name) + rest)));
            lemma_str_rt(id, enc_strv(contract_id) + (enc_strv(link_name) + rest));
            lemma_str_rt(contract_id, enc_strv(link_name) + rest);
            lemma_str_rt(link_name, rest);
        },
    }
}

/// Decoding an optional string undoes encoding it, whatever follows.
pub proof fn lemma_opt_rt(o: Option<Seq<char>>, rest: Seq<u8>)
    requires
        match o {
            Option::None => true,
            Option::Some(s) => wf_str(s),
        },
    ensures
        dec_optv(enc_optv(o) + rest) == Option::Some((o, rest)),
{
    match o {
        Option::None => {
            assert((enc_optv(o) + rest).skip(1) =~= rest);
        },
        Option::Some(s) => {
            assert((enc_optv(o) + rest).skip(1) =~= enc_strv(s) + rest);
            lemma_str_rt(s, rest);
        },
    }
}

} // verus!

verus! {

/// The byte encoding of a message: a one-byte variant tag, then the fields
/// in declaration order.
pub open spec fn spec_enc_msg(m: MsgView) -> Seq<u8> {
    match m {
        MsgView::Host { id } => seq![1u8] + enc_strv(id),
        MsgView::ActorAuctionRequest { actor_ref, constraints } => seq![2u8] + enc_strv(actor_ref)
            + enc_pairsv(constraints),
        MsgView::ActorAuctionAck { host_id, accepted } => seq![3u8] + enc_strv(host_id)
            + enc_boolv(accepted),
        MsgView::ProviderAuctionRequest { provider_ref, link_name, constraints } => seq![4u8]
            + enc_strv(provider_ref) + enc_strv(link_name) + enc_pairsv(constraints),
        MsgView::ProviderAuctionAck { host_id, accepted } => seq![5u8] + enc_strv(host_id)
            + enc_boolv(accepted),
        MsgView::StartActorCommand { actor_ref, host_id } => seq![6u8] + enc_strv(actor_ref)
            + enc_strv(host_id),
        MsgView::StartActorAck { accepted } => seq![7u8] + enc_boolv(accepted),
        MsgView::StopActorCommand { host_id, actor_ref } => seq![8u8] + enc_strv(host_id)
            + enc_strv(actor_ref),
        MsgView::StopActorAck { accepted } => seq![9u8] + enc_boolv(accepted),
        MsgView::UpdateActorCommand { host_id, actor_id, new_actor_ref } => seq![10u8] + enc_strv(
            host_id,
        ) + enc_strv(actor_id) + enc_strv(new_actor_ref),
        MsgView::UpdateActorAck { accepted } => seq![11u8] + enc_boolv(accepted),
        MsgView::StartProviderCommand { host_id, provider_ref, link_name } => seq![12u8]
            + enc_strv(host_id) + enc_strv(provider_ref) + enc_strv(link_name),
        MsgView::StartProviderAck { accepted } => seq![13u8] + enc_boolv(accepted),
        MsgView::StopProviderCommand { host_id, provider_ref, link_name, contract_id } => seq![
            14u8,
        ] + enc_strv(host_id) + enc_strv(provider_ref) + enc_strv(link_name) + enc_strv(
            contract_id,
        ),
        MsgView::StopProviderAck { accepted } => seq![15u8] + enc_boolv(accepted),
        MsgView::HostInventory { host_id, actors, providers } => seq![16u8] + enc_strv(host_id)
            + enc_stringsv(actors) + enc_stringsv(providers),
        MsgView::ClaimsList { claims } => seq![17u8] + enc_pairsv(claims),
        MsgView::LinkDefinition { actor_id, provider_id, contract_id, link_name, values } => seq![
            18u8,
        ] + enc_strv(actor_id) + enc_strv(provider_id) + enc_strv(contract_id) + enc_strv(
            link_name,
        ) + enc_pairsv(values),
        MsgView::Invocation { id, origin, target, operation, msg, signature, issuer } => seq![
            19u8,
        ] + enc_strv(id) + enc_entityv(origin) + enc_entityv(target) + enc_strv(operation)
            + enc_bytesv(msg) + enc_bytesv(signature) + enc_strv(issuer),
        MsgView::InvocationResponse { msg, error, invocation_id } => seq![20u8] + enc_bytesv(msg)
            + enc_optv(error) + enc_strv(invocation_id),
    }
}

pub open spec fn dec_m_host(d: Seq<u8>) -> Option<MsgView> {
    match dec_strv(d) {
        Option::Some((id, d1)) => if d1.len() == 0 {
            Option::Some(MsgView::Host { id })
        } else {
            Option::None
        },
        Option::None => Option::None,
    }
}

pub open spec fn dec_m_actor_auction_request(d: Seq<u8>) -> Option<MsgView> {
    match dec_strv(d) {
        Option::Some((actor_ref, d1)) => match dec_pairsv(d1) {
            Option::Some((constraints, d2)) => if d2.len() == 0 {
                Option::Some(MsgView::ActorAuctionRequest { actor_ref, constraints })
            } else {
                Option::None
            },
            Option::None => Option::None,
        },
        Option::None => Option::None,
    }
}

pub open spec fn dec_m_actor_auction_ack(d: Seq<u8>) -> Option<MsgView> {
    match dec_strv(d) {
        Option::Some((host_id, d1)) => match dec_boolv(d1) {
            Option::Some((accepted, d2)) => if d2.len() == 0 {
                Option::Some(MsgView::ActorAuctionAck { host_id, accepted })
            } else {
                Option::None
            },
            Option::None => Option::None,
        },
        Option::None => Option::None,
    }
}

pub open spec fn dec_m_provider_auction_request(d: Seq<u8>) -> Option<MsgView> {
    match dec_strv(d) {
        Option::Some((provider_ref, d1)) => match dec_strv(d1) {
            Option::Some((link_name, d2)) => match dec_pairsv(d2) {
                Option::Some((constraints, d3)) => if d3.len() == 0 {
                    Option::Some(
                        MsgView::ProviderAuctionRequest { provider_ref, link_name, constraints },
                    )
                } else {
                    Option::None
                },
                Option::None => Option::None,
            },
            Option::None => Option::None,
        },
        Option::None => Option::None,
    }
}

pub open spec fn dec_m_provider_auction_ack(d: Seq<u8>) -> Option<MsgView> {
    match dec_strv(d) {
        Option::Some((host_id, d1)) => match dec_boolv(d1) {
            Option::Some((accepted, d2)) => if d2.len() == 0 {
                Option::Some(MsgView::ProviderAuctionAck { host_id, accepted })
            } else {
                Option::None
            },
            Option::None => Option::None,
        },
        Option::None => Option::None,
    }
}

pub open spec fn dec_m_start_actor_command(d: Seq<u8>) -> Option<MsgView> {
    match dec_strv(d) {
        Option::Some((actor_ref, d1)) => match dec_strv(d1) {
            Option::Some((host_id, d2)) => if d2.len() == 0 {
                Option::Some(MsgView::StartActorCommand { actor_ref, host_id })
            } else {
                Option::None
            },
            Option::None => Option::None,
        },
        Option::None => Option::None,
    }
}

pub open spec fn dec_m_stop_actor_command(d: Seq<u8>) -> Option<MsgView> {
    match dec_strv(d) {
        Option::Some((host_id, d1)) => match dec_strv(d1) {
            Option::Some((actor_ref, d2)) => if d2.len() == 0 {
                Option::Some(MsgView::StopActorCommand { host_id, actor_ref })
            } else {
                Option::None
            },
            Option::None => Option::None,
        },
        Option::None => Option::None,
    }
}

pub open spec fn dec_m_update_actor_command(d: Seq<u8>) -> Option<MsgView> {
    match dec_strv(d) {
        Option::Some((host_id, d1)) => match dec_strv(d1) {
            Option::Some((actor_id, d2)) => match dec_strv(d2) {
                Option::Some((new_actor_ref, d3)) => if d3.len() == 0 {
                    Option::Some(MsgView::UpdateActorCommand { host_id, actor_id, new_actor_ref })
                } else {
                    Option::None
                },
                Option::None => Option::None,
            },
            Option::None => Option::None,
        },
        Option::None => Option::None,
    }
}

pub open spec fn dec_m_start_provider_command(d: Seq<u8>) -> Option<MsgView> {
    match dec_strv(d) {
        Option::Some((host_id, d1)) => match dec_strv(d1) {
            Option::Some((provider_ref, d2)) => match dec_strv(d2) {
                Option::Some((link_name, d3)) => if d3.len() == 0 {
                    Option::Some(
                        MsgView::StartProviderCommand { host_id, provider_ref, link_name },
                    )
                } else {
                    Option::None
                },
                Option::None => Option::None,
            },
            Option::None => Option::None,
        },
        Option::None => Option::None,
    }
}

pub open spec fn dec_m_stop_provider_command(d: Seq<u8>) -> Option<MsgView> {
    match dec_strv(d) {
        Option::Some((host_id, d1)) => match dec_strv(d1) {
            Option::Some((provider_ref, d2)) => match dec_strv(d2) {
                Option::Some((link_name, d3)) => match dec_strv(d3) {
                    Option::Some((contract_id, d4)) => if d4.len() == 0 {
                        Option::Some(
                            MsgView::StopProviderCommand {
                                host_id,
                                provider_ref,
                                link_name,
                                contract_id,
                            },
                        )
                    } else {
                        Option::None
                    },
                    Option::None => Option::None,
                },
                Option::None => Option::None,
            },
            Option::None => Option::None,
        },
        Option::None => Option::None,
    }
}

pub open spec fn dec_m_host_inventory(d: Seq<u8>) -> Option<MsgView> {
    match dec_strv(d) {
        Option::Some((host_id, d1)) => match dec_stringsv(d1) {
            Option::Some((actors, d2)) => match dec_stringsv(d2) {
                Option::Some((providers, d3)) => if d3.len() == 0 {
                    Option::Some(MsgView::HostInventory { host_id, actors, providers })
                } else {
                    Option::None
                },
                Option::None => Option::None,
            },
            Option::None => Option::None,
        },
        Option::None => Option::None,
    }
}

pub open spec fn dec_m_claims_list(d: Seq<u8>) -> Option<MsgView> {
    match dec_pairsv(d) {
        Option::Some((claims, d1)) => if d1.len() == 0 {
            Option::Some(MsgView::ClaimsList { claims })
        } else {
            Option::None
        },
        Option::None => Option::None,
    }
}

pub open spec fn dec_m_link_definition(d: Seq<u8>) -> Option<MsgView> {
    match dec_strv(d) {
        Option::Some((actor_id, d1)) => match dec_strv(d1) {
            Option::Some((provider_id, d2)) => match dec_strv(d2) {
                Option::Some((contract_id, d3)) => match dec_strv(d3) {
                    Option::Some((link_name, d4)) => match dec_pairsv(d4) {
                        Option::Some((values, d5)) => if d5.len() == 0 {
                            Option::Some(
                                MsgView::LinkDefinition {
                                    actor_id,
                                    provider_id,
                                    contract_id,
                                    link_name,
                                    values,
                                },
                            )
                        } else {
                            Option::None
                        },
                        Option::None => Option::None,
                    },
                    Option::None => Option::None,
                },
                Option::None => Option::None,
            },
            Option::None => Option::None,
        },
        Option::None => Option::None,
    }
}

pub open spec fn dec_m_invocation(d: Seq<u8>) -> Option<MsgView> {
    match dec_strv(d) {
        Option::Some((id, d1)) => match dec_entityv(d1) {
            Option::Some((origin, d2)) => match dec_entityv(d2) {
                Option::Some((target, d3)) => match dec_strv(d3) {
                    Option::Some((operation, d4)) => match dec_bytesv(d4) {
                        Option::Some((msg, d5)) => match dec_bytesv(d5) {
                            Option::Some((signature, d6)) => match dec_strv(d6) {
                                Option::Some((issuer, d7)) => if d7.len() == 0 {
                                    Option::Some(
                                        MsgView::Invocation {
                                            id,
                                            origin,
                                            target,
                                            operation,
                                            msg,
                                            signature,
                                            issuer,
                                        },
                                    )
                                } else {
                                    Option::None
                                },
                                Option::None => Option::None,
                            },
                            Option::None => Option::None,
                        },
                        Option::None => Option::None,
                    },
                    Option::None => Option::None,
                },
                Option::None => Option::None,
            },
            Option::None => Option::None,
        },
        Option::None => Option::None,
    }
}

pub open spec fn dec_m_invocation_response(d: Seq<u8>) -> Option<MsgView> {
    match dec_bytesv(d) {
        Option::Some((msg, d1)) => match dec_optv(d1) {
            Option::Some((error, d2)) => match dec_strv(d2) {
                Option::Some((invocation_id, d3)) => if d3.len() == 0 {
                    Option::Some(MsgView::InvocationResponse { msg, error, invocation_id })
                } else {
                    Option::None
                },
                Option::None => Option::None,
            },
            Option::None => Option::None,
        },
        Option::None => Option::None,
    }
}

pub open spec fn dec_m_bool_only(d: Seq<u8>, t: u8) -> Option<MsgView> {
    match dec_boolv(d) {
        Option::Some((accepted, d1)) => if d1.len() == 0 {
            if t == 7u8 {
                Option::Some(MsgView::StartActorAck { accepted })
            } else if t == 9u8 {
                Option::Some(MsgView::StopActorAck { accepted })
            } else if t == 11u8 {
                Option::Some(MsgView::UpdateActorAck { accepted })
            } else if t == 13u8 {
                Option::Some(MsgView::StartProviderAck { accepted })
            } else {
                Option::Some(MsgView::StopProviderAck { accepted })
            }
        } else {
            Option::None
        },
        Option::None => Option::None,
    }
}

/// Decode one message from exactly the whole of `d`: the variant tag picks
/// the field layout, and no bytes may remain.
pub open spec fn spec_dec_msg(d: Seq<u8>) -> Option<MsgView> {
    if d.len() < 1 {
        Option::None
    } else {
        let t = d[0];
        let d0 = d.skip(1);
        if t == 1u8 {
            dec_m_host(d0)
        } else if t == 2u8 {
            dec_m_actor_auction_request(d0)
        } else if t == 3u8 {
            dec_m_actor_auction_ack(d0)
        } else if t == 4u8 {
            dec_m_provider_auction_request(d0)
        } else if t == 5u8 {
            dec_m_provider_auction_ack(d0)
        } else if t == 6u8 {
            dec_m_start_actor_command(d0)
        } else if t == 8u8 {
            dec_m_stop_actor_command(d0)
        } else if t == 10u8 {
            dec_m_update_actor_command(d0)
        } else if t == 12u8 {
            dec_m_start_provider_command(d0)
        } else if t == 14u8 {
            dec_m_stop_provider_command(d0)
        } else if t == 16u8 {
            dec_m_host_inventory(d0)
        } else if t == 17u8 {
            dec_m_claims_list(d0)
        } else if t == 18u8 {
            dec_m_link_definition(d0)
        } else if t == 19u8 {
            dec_m_invocation(d0)
        } else if t == 20u8 {
            dec_m_invocation_response(d0)
        } else if t == 7u8 || t == 9u8 || t == 11u8 || t == 13u8 || t == 15u8 {
            dec_m_bool_only(d0, t)
        } else {
            Option::None
        }
    }
}

} // verus!
verus! {

proof fn rt_host(id: Seq<char>)
    requires
        wf_str(id),
    ensures
        spec_dec_msg(spec_enc_msg(MsgView::Host { id })) == Option::Some(MsgView::Host { id }),
{
    let e = spec_enc_msg(MsgView::Host { id });
    let z = Seq::<u8>::empty();
    assert(e.skip(1) =~= enc_strv(id) + z);
    lemma_str_rt(id, z);
}

proof fn rt_actor_auction_request(actor_ref: Seq<char>, constraints: Seq<(Seq<char>, Seq<char>)>)
    requires
        wf_str(actor_ref),
        wf_pairs(constraints),
    ensures
        spec_dec_msg(spec_enc_msg(MsgView::ActorAuctionRequest { actor_ref, constraints }))
            == Option::Some(MsgView::ActorAuctionRequest { actor_ref, constraints }),
{
    let e = spec_enc_msg(MsgView::ActorAuctionRequest { actor_ref, constraints });
    let z = Seq::<u8>::empty();
    assert(e.skip(1) =~= enc_strv(actor_ref) + (enc_pairsv(constraints) + z));
    lemma_str_rt(actor_ref, enc_pairsv(constraints) + z);
    lemma_pairs_rt(constraints, z);
    assert(enc_pairsv(constraints) + z =~= enc_pairsv(constraints));
}

proof fn rt_actor_auction_ack(host_id: Seq<char>, accepted: bool)
    requires
        wf_str(host_id),
    ensures
        spec_dec_msg(spec_enc_msg(MsgView::ActorAuctionAck { host_id, accepted }))
            == Option::Some(MsgView::ActorAuctionAck { host_id, accepted }),
{
    let e = spec_enc_msg(MsgView::ActorAuctionAck { host_id, accepted });
    let z = Seq::<u8>::empty();
    assert(e.skip(1) =~= enc_strv(host_id) + (enc_boolv(accepted) + z));
    lemma_str_rt(host_id, enc_boolv(accepted) + z);
    lemma_bool_rt(accepted, z);
    assert(enc_boolv(accepted) + z =~= enc_boolv(accepted));
}

proof fn rt_provider_auction_request(
    provider_ref: Seq<char>,
    link_name: Seq<char>,
    constraints: Seq<(Seq<char>, Seq<char>)>,
)
    requires
        wf_str(provider_ref),
        wf_str(link_name),
        wf_pairs(constraints),
    ensures
        spec_dec_msg(
            spec_enc_msg(MsgView::ProviderAuctionRequest { provider_ref, link_name, constraints }),
        ) == Option::Some(MsgView::ProviderAuctionRequest { provider_ref, link_name, constraints }),
{
    let e = spec_enc_msg(MsgView::ProviderAuctionRequest { provider_ref, link_name, constraints });
    let z = Seq::<u8>::empty();
    assert(e.skip(1) =~= enc_strv(provider_ref) + (enc_strv(link_name) + (enc_pairsv(constraints)
        + z)));
    lemma_str_rt(provider_ref, enc_strv(link_name) + (enc_pairsv(constraints) + z));
    lemma_str_rt(link_name, enc_pairsv(constraints) + z);
    lemma_pairs_rt(constraints, z);
    assert(enc_pairsv(constraints) + z =~= enc_pairsv(constraints));
}

proof fn rt_provider_auction_ack(host_id: Seq<char>, accepted: bool)
    requires
        wf_str(host_id),
    ensures
        spec_dec_msg(spec_enc_msg(MsgView::ProviderAuctionAck { host_id, accepted }))
            == Option::Some(MsgView::ProviderAuctionAck { host_id, accepted }),
{
    let e = spec_enc_msg(MsgView::ProviderAuctionAck { host_id, accepted });
    let z = Seq::<u8>::empty();
    assert(e.skip(1) =~= enc_strv(host_id) + (enc_boolv(accepted) + z));
    lemma_str_rt(host_id, enc_boolv(accepted) + z);
    lemma_bool_rt(accepted, z);
    assert(enc_boolv(accepted) + z =~= enc_boolv(accepted));
}

proof fn rt_two_strings(a: Seq<char>, b: Seq<char>)
    requires
        wf_str(a),
        wf_str(b),
    ensures
        dec_strv(enc_strv(a) + enc_strv(b)) == Option::Some((a, enc_strv(b))),
        dec_strv(enc_strv(b)) == Option::Some((b, Seq::<u8>::empty())),
{
    let z = Seq::<u8>::empty();
    lemma_str_rt(a, enc_strv(b) + z);
    assert(enc_strv(b) + z =~= enc_strv(b));
    lemma_str_rt(b, z);
}

proof fn rt_start_actor_command(actor_ref: Seq<char>, host_id: Seq<char>)
    requires
        wf_str(actor_ref),
        wf_str(host_id),
    ensures
        spec_dec_msg(spec_enc_msg(MsgView::StartActorCommand { actor_ref, host_id }))
            == Option::Some(MsgView::StartActorCommand { actor_ref, host_id }),
{
    let e = spec_enc_msg(MsgView::StartActorCommand { actor_ref, host_id });
    assert(e.skip(1) =~= enc_strv(actor_ref) + enc_strv(host_id));
    rt_two_strings(actor_ref, host_id);
}

proof fn rt_stop_actor_command(host_id: Seq<char>, actor_ref: Seq<char>)
    requires
        wf_str(host_id),
        wf_str(actor_ref),
    ensures
        spec_dec_msg(spec_enc_msg(MsgView::StopActorCommand { host_id, actor_ref }))
            == Option::Some(MsgView::StopActorCommand { host_id, actor_ref }),
{
    let e = spec_enc_msg(MsgView::StopActorCommand { host_id, actor_ref });
    assert(e.skip(1) =~= enc_strv(host_id) + enc_strv(actor_ref));
    rt_two_strings(host_id, actor_ref);
}

proof fn rt_update_actor_command(host_id: Seq<char>, actor_id: Seq<char>, new_actor_ref: Seq<char>)
    requires
        wf_str(host_id),
        wf_str(actor_id),
        wf_str(new_actor_ref),
    ensures
        spec_dec_msg(spec_enc_msg(MsgView::UpdateActorCommand { host_id, actor_id, new_actor_ref }))
            == Option::Some(MsgView::UpdateActorCommand { host_id, actor_id, new_actor_ref }),
{
    let e = spec_enc_msg(MsgView::UpdateActorCommand { host_id, actor_id, new_actor_ref });
    let z = Seq::<u8>::empty();
    assert(e.skip(1) =~= enc_strv(host_id) + (enc_strv(actor_id) + (enc_strv(new_actor_ref) + z)));
    lemma_str_rt(host_id, enc_strv(actor_id) + (enc_strv(new_actor_ref) + z));
    lemma_str_rt(actor_id, enc_strv(new_actor_ref) + z);
    lemma_str_rt(new_actor_ref, z);
    assert(enc_strv(new_actor_ref) + z =~= enc_strv(new_actor_ref));
}

proof fn rt_start_provider_command(
    host_id: Seq<char>,
    provider_ref: Seq<char>,
    link_name: Seq<char>,
)
    requires
        wf_str(host_id),
        wf_str(provider_ref),
        wf_str(link_name),
    ensures
        spec_dec_msg(
            spec_enc_msg(MsgView::StartProviderCommand { host_id, provider_ref, link_name }),
        ) == Option::Some(MsgView::StartProviderCommand { host_id, provider_ref, link_name }),
{
    let e = spec_enc_msg(MsgView::StartProviderCommand { host_id, provider_ref, link_name });
    let z = Seq::<u8>::empty();
    assert(e.skip(1) =~= enc_strv(host_id) + (enc_strv(provider_ref) + (enc_strv(link_name) + z)));
    lemma_str_rt(host_id, enc_strv(provider_ref) + (enc_strv(link_name) + z));
    lemma_str_rt(provider_ref, enc_strv(link_name) + z);
    lemma_str_rt(link_name, z);
    assert(enc_strv(link_name) + z =~= enc_strv(link_name));
}

proof fn rt_stop_provider_command(
    host_id: Seq<char>,
    provider_ref: Seq<char>,
    link_name: Seq<char>,
    contract_id: Seq<char>,
)
    requires
        wf_str(host_id),
        wf_str(provider_ref),
        wf_str(link_name),
        wf_str(contract_id),
    ensures
        spec_dec_msg(
            spec_enc_msg(
                MsgView::StopProviderCommand { host_id, provider_ref, link_name, contract_id },
            ),
        ) == Option::Some(
            MsgView::StopProviderCommand { host_id, provider_ref, link_name, contract_id },
        ),
{
    let e = spec_enc_msg(
        MsgView::StopProviderCommand { host_id, provider_ref, link_name, contract_id },
    );
    let z = Seq::<u8>::empty();
    assert(e.skip(1) =~= enc_strv(host_id) + (enc_strv(provider_ref) + (enc_strv(link_name) + (
    enc_strv(contract_id) + z))));
    lemma_str_rt(
        host_id,
        enc_strv(provider_ref) + (enc_strv(link_name) + (enc_strv(contract_id) + z)),
    );
    lemma_str_rt(provider_ref, enc_strv(link_name) + (enc_strv(contract_id) + z));
    lemma_str_rt(link_name, enc_strv(contract_id) + z);
    lemma_str_rt(contract_id, z);
    assert(enc_strv(contract_id) + z =~= enc_strv(contract_id));
}

proof fn rt_bool_only(t: u8, m: MsgView, accepted: bool)
    requires
        t == 7u8 || t == 9u8 || t == 11u8 || t == 13u8 || t == 15u8,
        spec_enc_msg(m) == seq![t] + enc_boolv(accepted),
        m == (if t == 7u8 {
            MsgView::StartActorAck { accepted }
        } else if t == 9u8 {
            MsgView::StopActorAck { accepted }
        } else if t == 11u8 {
            MsgView::UpdateActorAck { accepted }
        } else if t == 13u8 {
            MsgView::StartProviderAck { accepted }
        } else {
            MsgView::StopProviderAck { accepted }
        }),
    ensures
        spec_dec_msg(spec_enc_msg(m)) == Option::Some(m),
{
    let e = spec_enc_msg(m);
    let z = Seq::<u8>::empty();
    assert(e.skip(1) =~= enc_boolv(accepted) + z);
    lemma_bool_rt(accepted, z);
}

proof fn rt_host_inventory(host_id: Seq<char>, actors: Seq<Seq<char>>, providers: Seq<Seq<char>>)
    requires
        wf_str(host_id),
        wf_strings(actors),
        wf_strings(providers),
    ensures
        spec_dec_msg(spec_enc_msg(MsgView::HostInventory { host_id, actors, providers }))
            == Option::Some(MsgView::HostInventory { host_id, actors, providers }),
{
    let e = spec_enc_msg(MsgView::HostInventory { host_id, actors, providers });
    let z = Seq::<u8>::empty();
    assert(e.skip(1) =~= enc_strv(host_id) + (enc_stringsv(actors) + (enc_stringsv(providers)
        + z)));
    lemma_str_rt(host_id, enc_stringsv(actors) + (enc_stringsv(providers) + z));
    lemma_strings_rt(actors, enc_stringsv(providers) + z);
    lemma_strings_rt(providers, z);
    assert(enc_stringsv(providers) + z =~= enc_stringsv(providers));
}

proof fn rt_claims_list(claims: Seq<(Seq<char>, Seq<char>)>)
    requires
        wf_pairs(claims),
    ensures
        spec_dec_msg(spec_enc_msg(MsgView::ClaimsList { claims })) == Option::Some(
            MsgView::ClaimsList { claims },
        ),
{
    let e = spec_enc_msg(MsgView::ClaimsList { claims });
    let z = Seq::<u8>::empty();
    assert(e.skip(1) =~= enc_pairsv(claims) + z);
    lemma_pairs_rt(claims, z);
}

proof fn rt_link_definition(
    actor_id: Seq<char>,
    provider_id: Seq<char>,
    contract_id: Seq<char>,
    link_name: Seq<char>,
    values: Seq<(Seq<char>, Seq<char>)>,
)
    requires
        wf_str(actor_id),
        wf_str(provider_id),
        wf_str(contract_id),
        wf_str(link_name),
        wf_pairs(values),
    ensures
        spec_dec_msg(
            spec_enc_msg(
                MsgView::LinkDefinition { actor_id, provider_id, contract_id, link_name, values },
            ),
        ) == Option::Some(
            MsgView::LinkDefinition { actor_id, provider_id, contract_id, link_name, values },
        ),
{
    let e = spec_enc_msg(
        MsgView::LinkDefinition { actor_id, provider_id, contract_id, link_name, values },
    );
    let z = Seq::<u8>::empty();
    assert(e.skip(1) =~= enc_strv(actor_id) + (enc_strv(provider_id) + (enc_strv(contract_id) + (
    enc_strv(link_name) + (enc_pairsv(values) + z)))));
    lemma_str_rt(
        actor_id,
        enc_strv(provider_id) + (enc_strv(contract_id) + (enc_strv(link_name) + (enc_pairsv(values)
            + z))),
    );
    lemma_str_rt(
        provider_id,
        enc_strv(contract_id) + (enc_strv(link_name) + (enc_pairsv(values) + z)),
    );
    lemma_str_rt(contract_id, enc_strv(link_name) + (enc_pairsv(values) + z));
    lemma_str_rt(link_name, enc_pairsv(values) + z);
    lemma_pairs_rt(values, z);
    assert(enc_pairsv(values) + z =~= enc_pairsv(values));
}

#[verifier::rlimit(100)]
#[verifier::spinoff_prover]
proof fn rt_invocation_fields(
    id: Seq<char>,
    origin: EntityV,
    target: EntityV,
    operation: Seq<char>,
    msg: Seq<u8>,
    signature: Seq<u8>,
    issuer: Seq<char>,
)
    requires
        wf_str(id),
        wf_entity(origin),
        wf_entity(target),
        wf_str(operation),
        wf_bytes(msg),
        wf_bytes(signature),
        wf_str(issuer),
    ensures
        dec_m_invocation(
            enc_strv(id) + (enc_entityv(origin) + (enc_entityv(target) + (enc_strv(operation) + (
            enc_bytesv(msg) + (enc_bytesv(signature) + (enc_strv(issuer)
                + Seq::<u8>::empty())))))),
        ) == Option::Some(
            MsgView::Invocation { id, origin, target, operation, msg, signature, issuer },
        ),
{
    let z = Seq::<u8>::empty();
    let r6 = enc_strv(issuer) + z;
    let r5 = enc_bytesv(signature) + r6;
    let r4 = enc_bytesv(msg) + r5;
    let r3 = enc_strv(operation) + r4;
    let r2 = enc_entityv(target) + r3;
    let r1 = enc_entityv(origin) + r2;
    let d0 = enc_strv(id) + r1;
    lemma_str_rt(id, r1);
    assert(dec_strv(d0) == Option::Some((id, r1)));
    lemma_entity_rt(origin, r2);
    assert(dec_entityv(r1) == Option::Some((origin, r2)));
    lemma_entity_rt(target, r3);
    assert(dec_entityv(r2) == Option::Some((target, r3)));
    lemma_str_rt(operation, r4);
    assert(dec_strv(r3) == Option::Some((operation, r4)));
    lemma_bytes_rt(msg, r5);
    assert(dec_bytesv(r4) == Option::Some((msg, r5)));
    lemma_bytes_rt(signature, r6);
    assert(dec_bytesv(r5) == Option::Some((signature, r6)));
    lemma_str_rt(issuer, z);
    assert(dec_strv(r6) == Option::Some((issuer, z)));
}

#[verifier::rlimit(100)]
#[verifier::spinoff_prover]
proof fn rt_invocation(
    id: Seq<char>,
    origin: EntityV,
    target: EntityV,
    operation: Seq<char>,
    msg: Seq<u8>,
    signature: Seq<u8>,
    issuer: Seq<char>,
)
    requires
        wf_str(id),
        wf_entity(origin),
        wf_entity(target),
        wf_str(operation),
        wf_bytes(msg),
        wf_bytes(signature),
        wf_str(issuer),
    ensures
        spec_dec_msg(
            spec_enc_msg(
                MsgView::Invocation { id, origin, target, operation, msg, signature, issuer },
            ),
        ) == Option::Some(
            MsgView::Invocation { id, origin, target, operation, msg, signature, issuer },
        ),
{
    let e = spec_enc_msg(
        MsgView::Invocation { id, origin, target, operation, msg, signature, issuer },
    );
    let d0 = enc_strv(id) + (enc_entityv(origin) + (enc_entityv(target) + (enc_strv(operation) + (
    enc_bytesv(msg) + (enc_bytesv(signature) + (enc_strv(issuer) + Seq::<u8>::empty()))))));
    assert(e.skip(1) =~= d0);
    rt_invocation_fields(id, origin, target, operation, msg, signature, issuer);
    assert(spec_dec_msg(e) == dec_m_invocation(e.skip(1)));
}

proof fn rt_invocation_response(msg: Seq<u8>, error: Option<Seq<char>>, invocation_id: Seq<char>)
    requires
        wf_bytes(msg),
        match error {
            Option::None => true,
            Option::Some(s) => wf_str(s),
        },
        wf_str(invocation_id),
    ensures
        spec_dec_msg(spec_enc_msg(MsgView::InvocationResponse { msg, error, invocation_id }))
            == Option::Some(MsgView::InvocationResponse { msg, error, invocation_id }),
{
    let e = spec_enc_msg(MsgView::InvocationResponse { msg, error, invocation_id });
    let z = Seq::<u8>::empty();
    assert(e.skip(1) =~= enc_bytesv(msg) + (enc_optv(error) + (enc_strv(invocation_id) + z)));
    lemma_bytes_rt(msg, enc_optv(error) + (enc_strv(invocation_id) + z));
    lemma_opt_rt(error, enc_strv(invocation_id) + z);
    lemma_str_rt(invocation_id, z);
    assert(enc_strv(invocation_id) + z =~= enc_strv(invocation_id));
}

/// Round-trip law of the envelope codec: decoding an encoded message gives
/// the message back, for every representable message.
pub proof fn lemma_codec_round_trip(m: MsgView)
    requires
        wf_msg(m),
    ensures
        spec_dec_msg(spec_enc_msg(m)) == Option::Some(m),
{
    match m {
        MsgView::Host { id } => rt_host(id),
        MsgView::ActorAuctionRequest { actor_ref, constraints } => rt_actor_auction_request(
            actor_ref,
            constraints,
        ),
        MsgView::ActorAuctionAck { host_id, accepted } => rt_actor_auction_ack(host_id, accepted),
        MsgView::ProviderAuctionRequest { provider_ref, link_name, constraints } => {
            rt_provider_auction_request(provider_ref, link_name, constraints);
        },
        MsgView::ProviderAuctionAck { host_id, accepted } => rt_provider_auction_ack(
            host_id,
            accepted,
        ),
        MsgView::StartActorCommand { actor_ref, host_id } => rt_start_actor_command(
            actor_ref,
            host_id,
        ),
        MsgView::StartActorAck { accepted } => rt_bool_only(7u8, m, accepted),
        MsgView::StopActorCommand { host_id, actor_ref } => rt_stop_actor_command(
            host_id,
            actor_ref,
        ),
        MsgView::StopActorAck { accepted } => rt_bool_only(9u8, m, accepted),
        MsgView::UpdateActorCommand { host_id, actor_id, new_actor_ref } => {
            rt_update_actor_command(host_id, actor_id, new_actor_ref);
        },
        MsgView::UpdateActorAck { accepted } => rt_bool_only(11u8, m, accepted),
        MsgView::StartProviderCommand { host_id, provider_ref, link_name } => {
            rt_start_provider_command(host_id, provider_ref, link_name);
        },
        MsgView::StartProviderAck { accepted } => rt_bool_only(13u8, m, accepted),
        MsgView::StopProviderCommand { host_id, provider_ref, link_name, contract_id } => {
            rt_stop_provider_command(host_id, provider_ref, link_name, contract_id);
        },
        MsgView::StopProviderAck { accepted } => rt_bool_only(15u8, m, accepted),
        MsgView::HostInventory { host_id, actors, providers } => rt_host_inventory(
            host_id,
            actors,
            providers,
        ),
        MsgView::ClaimsList { claims } => rt_claims_list(claims),
        MsgView::LinkDefinition { actor_id, provider_id, contract_id, link_name, values } => {
            rt_link_definition(actor_id, provider_id, contract_id, link_name, values);
        },
        MsgView::Invocation { id, origin, target, operation, msg, signature, issuer } => {
            rt_invocation(id, origin, target, operation, msg, signature, issuer);
        },
        MsgView::InvocationResponse { msg, error, invocation_id } => {
            rt_invocation_response(msg, error, invocation_id);
        },
    }
}

} // verus!

verus! {

/// Appending one pair extends the encoded body by that pair's encoding.
proof fn lemma_pairs_body_snoc(ps: Seq<(Seq<char>, Seq<char>)>, x: (Seq<char>, Seq<char>))
    ensures
        pairs_body(ps.push(x)) == pairs_body(ps) + (enc_strv(x.0) + enc_strv(x.1)),
    decreases ps.len(),
{
    if ps.len() == 0 {
        let single = ps.push(x);
        assert(single[0] == x);
        assert(single.drop_first() =~= Seq::<(Seq<char>, Seq<char>)>::empty());
        assert(pairs_body(Seq::<(Seq<char>, Seq<char>)>::empty()) == Seq::<u8>::empty());
        assert(pairs_body(single) == enc_strv(x.0) + enc_strv(x.1) + pairs_body(
            single.drop_first(),
        ));
        assert(pairs_body(single) =~= pairs_body(ps) + (enc_strv(x.0) + enc_strv(x.1)));
    } else {
        assert(ps.push(x).drop_first() =~= ps.drop_first().push(x));
        assert(ps.push(x)[0] == ps[0]);
        lemma_pairs_body_snoc(ps.drop_first(), x);
        assert(pairs_body(ps.push(x)) =~= pairs_body(ps) + (enc_strv(x.0) + enc_strv(x.1)));
    }
}

/// Appending one string extends the encoded body by that string's encoding.
proof fn lemma_strings_body_snoc(ss: Seq<Seq<char>>, x: Seq<char>)
    ensures
        strings_body(ss.push(x)) == strings_body(ss) + enc_strv(x),
    decreases ss.len(),
{
    if ss.len() == 0 {
        let single = ss.push(x);
        assert(single[0] == x);
        assert(single.drop_first() =~= Seq::<Seq<char>>::empty());
        assert(strings_body(Seq::<Seq<char>>::empty()) == Seq::<u8>::empty());
        assert(strings_body(single) == enc_strv(x) + strings_body(single.drop_first()));
        assert(strings_body(single) =~= strings_body(ss) + enc_strv(x));
    } else {
        assert(ss.push(x).drop_first() =~= ss.drop_first().push(x));
        assert(ss.push(x)[0] == ss[0]);
        lemma_strings_body_snoc(ss.drop_first(), x);
        assert(strings_body(ss.push(x)) =~= strings_body(ss) + enc_strv(x));
    }
}

/// Relies on String::from_utf8: it succeeds exactly on valid UTF-8 input,
/// and the resulting string holds the decoding of those bytes.
#[verifier::external_body]
fn string_from_utf8(v: Vec<u8>) -> (r: Option<String>)
    ensures
        match r {
            Option::Some(s) => valid_utf8(v@) && s@ == decode_utf8(v@),
            Option::None => !valid_utf8(v@),
        },
{
    String::from_utf8(v).ok()
}

fn put_u64(out: &mut Vec<u8>, x: u64)
    ensures
        final(out)@ == old(out)@ + enc_u64v(x),
{
    let mut b = u64_to_le_bytes(x);
    out.append(&mut b);
}

fn put_bool(out: &mut Vec<u8>, b: bool)
    ensures
        final(out)@ == old(out)@ + enc_boolv(b),
{
    if b {
        out.push(1u8);
    } else {
        out.push(0u8);
    }
    proof {
        assert(out@ =~= old(out)@ + enc_boolv(b));
    }
}

pub(crate) fn put_bytes(out: &mut Vec<u8>, b: &Vec<u8>)
    ensures
        final(out)@ == old(out)@ + enc_bytesv(b@),
        wf_bytes(b@),
{
    put_u64(out, b.len() as u64);
    out.extend_from_slice(b.as_slice());
    proof {
        assert(out@ =~= old(out)@ + enc_bytesv(b@));
    }
}

pub(crate) fn put_str(out: &mut Vec<u8>, s: &str)
    ensures
        final(out)@ == old(out)@ + enc_strv(s@),
        wf_str(s@),
{
    let bv = s.as_bytes_vec();
    put_bytes(out, &bv);
}

fn put_pairs(out: &mut Vec<u8>, ps: &Vec<(String, String)>)
    ensures
        final(out)@ == old(out)@ + enc_pairsv(pairs_view(ps@)),
        wf_pairs(pairs_view(ps@)),
{
    let ghost pv = pairs_view(ps@);
    proof {
        assert(pv.len() == ps@.len());
    }
    put_u64(out, ps.len() as u64);
    let ghost base = out@;
    let mut i: usize = 0;
    while i < ps.len()
        invariant
            i <= ps.len(),
            pv == pairs_view(ps@),
            pv.len() == ps@.len(),
            out@ == base + pairs_body(pv.take(i as int)),
            forall|k: int| 0 <= k < i ==> wf_str(#[trigger] pv[k].0) && wf_str(pv[k].1),
        decreases ps.len() - i,
    {
        let p = &ps[i];
        proof {
            assert(pv[i as int] == (p.0@, p.1@));
            lemma_pairs_body_snoc(pv.take(i as int), pv[i as int]);
            assert(pv.take(i as int).push(pv[i as int]) =~= pv.take(i as int + 1));
        }
        put_str(out, p.0.as_str());
        put_str(out, p.1.as_str());
        proof {
            assert(wf_str(pv[i as int].0) && wf_str(pv[i as int].1));
            assert(out@ =~= base + pairs_body(pv.take(i as int + 1)));
            assert forall|k: int| 0 <= k < i as int + 1 implies wf_str(#[trigger] pv[k].0)
                && wf_str(pv[k].1) by {
                assert(0 <= k < i as int ==> wf_str(#[trigger] pv[k].0) && wf_str(pv[k].1));
            }
        }
        i = i + 1;
    }
    proof {
        assert(pv.take(ps@.len() as int) =~= pv);
        assert(out@ =~= old(out)@ + enc_pairsv(pv));
    }
}

fn put_strings(out: &mut Vec<u8>, ss: &Vec<String>)
    ensures
        final(out)@ == old(out)@ + enc_stringsv(strings_view(ss@)),
        wf_strings(strings_view(ss@)),
{
    let ghost sv = strings_view(ss@);
    proof {
        assert(sv.len() == ss@.len());
    }
    put_u64(out, ss.len() as u64);
    let ghost base = out@;
    let mut i: usize = 0;
    while i < ss.len()
        invariant
            i <= ss.len(),
            sv == strings_view(ss@),
            sv.len() == ss@.len(),
            out@ == base + strings_body(sv.take(i as int)),
            forall|k: int| 0 <= k < i ==> wf_str(#[trigger] sv[k]),
        decreases ss.len() - i,
    {
        proof {
            assert(sv[i as int] == ss@[i as int]@);
            lemma_strings_body_snoc(sv.take(i as int), sv[i as int]);
            assert(sv.take(i as int).push(sv[i as int]) =~= sv.take(i as int + 1));
        }
        put_str(out, ss[i].as_str());
        proof {
            assert(out@ =~= base + strings_body(sv.take(i as int + 1)));
        }
        i = i + 1;
    }
    proof {
        assert(sv.take(ss@.len() as int) =~= sv);
        assert(out@ =~= old(out)@ + enc_stringsv(sv));
    }
}

pub(crate) fn put_entity(out: &mut Vec<u8>, e: &WasccEntity)
    ensures
        final(out)@ == old(out)@ + enc_entityv(e@),
        wf_entity(e@),
{
    match e {
        WasccEntity::Actor(k) => {
            out.push(0u8);
            proof {
                assert(out@ =~= old(out)@ + seq![0u8]);
            }
            put_str(out, k.as_str());
        },
        WasccEntity::Capability { id, contract_id, link_name } => {
            out.push(1u8);
            proof {
                assert(out@ =~= old(out)@ + seq![1u8]);
            }
            put_str(out, id.as_str());
            put_str(out, contract_id.as_str());
            put_str(out, link_name.as_str());
        },
    }
    proof {
        assert(out@ =~= old(out)@ + enc_entityv(e@));
    }
}

fn put_opt(out: &mut Vec<u8>, o: &Option<String>)
    ensures
        final(out)@ == old(out)@ + enc_optv(
            match o {
                Option::None => Option::None,
                Option::Some(s) => Option::Some(s@),
            },
        ),
        match o {
            Option::None => true,
            Option::Some(s) => wf_str(s@),
        },
{
    let ghost ov: Option<Seq<char>> = match o {
        Option::None => Option::None,
        Option::Some(s) => Option::Some(s@),
    };
    match o {
        Option::None => {
            out.push(0u8);
        },
        Option::Some(s) => {
            out.push(1u8);
            proof {
                assert(out@ =~= old(out)@ + seq![1u8]);
            }
            put_str(out, s.as_str());
        },
    }
    proof {
        assert(out@ =~= old(out)@ + enc_optv(ov));
    }
}

} // verus!

verus! {

fn get_u64(buf: &Vec<u8>, pos: usize) -> (r: Option<(u64, usize)>)
    requires
        pos <= buf@.len(),
    ensures
        match r {
            Option::Some(v) => pos <= v.1 <= buf@.len() && dec_u64v(buf@.skip(pos as int))
                == Option::Some((v.0, buf@.skip(v.1 as int))),
            Option::None => dec_u64v(buf@.skip(pos as int)) is None,
        },
{
    if buf.len() - pos >= 8 {
        let s = slice_subrange(buf.as_slice(), pos, pos + 8);
        let x = u64_from_le_bytes(s);
        proof {
            assert(buf@.skip(pos as int).take(8) =~= buf@.subrange(pos as int, pos as int + 8));
            assert(buf@.skip(pos as int).skip(8) =~= buf@.skip(pos as int + 8));
        }
        Option::Some((x, pos + 8))
    } else {
        Option::None
    }
}

fn get_bool(buf: &Vec<u8>, pos: usize) -> (r: Option<(bool, usize)>)
    requires
        pos <= buf@.len(),
    ensures
        match r {
            Option::Some(v) => pos <= v.1 <= buf@.len() && dec_boolv(buf@.skip(pos as int))
                == Option::Some((v.0, buf@.skip(v.1 as int))),
            Option::None => dec_boolv(buf@.skip(pos as int)) is None,
        },
{
    if pos < buf.len() {
        let b = buf[pos];
        proof {
            assert(buf@.skip(pos as int)[0] == buf@[pos as int]);
            assert(buf@.skip(pos as int).skip(1) =~= buf@.skip(pos as int + 1));
        }
        if b == 0u8 {
            Option::Some((false, pos + 1))
        } else if b == 1u8 {
            Option::Some((true, pos + 1))
        } else {
            Option::None
        }
    } else {
        Option::None
    }
}

fn get_bytes(buf: &Vec<u8>, pos: usize) -> (r: Option<(Vec<u8>, usize)>)
    requires
        pos <= buf@.len(),
    ensures
        match r {
            Option::Some(v) => pos <= v.1 <= buf@.len() && dec_bytesv(buf@.skip(pos as int))
                == Option::Some((v.0@, buf@.skip(v.1 as int))),
            Option::None => dec_bytesv(buf@.skip(pos as int)) is None,
        },
{
    match get_u64(buf, pos) {
        Option::None => Option::None,
        Option::Some((n, p1)) => {
            if n <= (buf.len() - p1) as u64 {
                let nn = n as usize;
                let s = slice_subrange(buf.as_slice(), p1, p1 + nn);
                let v = slice_to_vec(s);
                proof {
                    assert(buf@.skip(p1 as int).take(n as int) =~= buf@.subrange(
                        p1 as int,
                        p1 as int + nn as int,
                    ));
                    assert(buf@.skip(p1 as int).skip(n as int) =~= buf@.skip(p1 as int + nn as int));
                }
                Option::Some((v, p1 + nn))
            } else {
                proof {
                    assert(buf@.skip(p1 as int).len() < n);
                }
                Option::None
            }
        },
    }
}

fn get_str(buf: &Vec<u8>, pos: usize) -> (r: Option<(String, usize)>)
    requires
        pos <= buf@.len(),
    ensures
        match r {
            Option::Some(v) => pos <= v.1 <= buf@.len() && dec_strv(buf@.skip(pos as int))
                == Option::Some((v.0@, buf@.skip(v.1 as int))),
            Option::None => dec_strv(buf@.skip(pos as int)) is None,
        },
{
    match get_bytes(buf, pos) {
        Option::None => Option::None,
        Option::Some((v, p)) => match string_from_utf8(v) {
            Option::Some(s) => Option::Some((s, p)),
            Option::None => Option::None,
        },
    }
}

fn get_pairs(buf: &Vec<u8>, pos: usize) -> (r: Option<(Vec<(String, String)>, usize)>)
    requires
        pos <= buf@.len(),
    ensures
        match r {
            Option::Some(v) => pos <= v.1 <= buf@.len() && dec_pairsv(buf@.skip(pos as int))
                == Option::Some((pairs_view(v.0@), buf@.skip(v.1 as int))),
            Option::None => dec_pairsv(buf@.skip(pos as int)) is None,
        },
{
    match get_u64(buf, pos) {
        Option::None => Option::None,
        Option::Some((n, p1)) => {
            let mut acc: Vec<(String, String)> = Vec::new();
            let mut p = p1;
            let mut i: u64 = 0;
            proof {
                assert(pairs_view(acc@) =~= Seq::<(Seq<char>, Seq<char>)>::empty());
            }
            while i < n
                invariant
                    i <= n,
                    p1 <= p <= buf@.len(),
                    pairs_view(acc@).len() == i,
                    dec_pairs_body(n as nat, buf@.skip(p1 as int)) == (match dec_pairs_body(
                        (n - i) as nat,
                        buf@.skip(p as int),
                    ) {
                        Option::Some(t) => Option::Some((pairs_view(acc@) + t.0, t.1)),
                        Option::None => Option::None,
                    }),
                    dec_u64v(buf@.skip(pos as int)) == Option::Some((n, buf@.skip(p1 as int))),
                    pos <= buf@.len(),
                decreases n - i,
            {
                let a = match get_str(buf, p) {
                    Option::Some(x) => x,
                    Option::None => {
                        return Option::None;
                    },
                };
                let b = match get_str(buf, a.1) {
                    Option::Some(x) => x,
                    Option::None => {
                        return Option::None;
                    },
                };
                proof {
                    let stepped = dec_pairs_body((n - i - 1) as nat, buf@.skip(b.1 as int));
                    let tail = match stepped {
                        Option::Some(t) => t.0,
                        Option::None => Seq::empty(),
                    };
                    assert(pairs_view(acc@.push((a.0, b.0))) =~= pairs_view(acc@).push(
                        (a.0@, b.0@),
                    ));
                    assert(pairs_view(acc@).push((a.0@, b.0@)) + tail =~= pairs_view(acc@) + (seq![
                        (a.0@, b.0@),
                    ] + tail));
                }
                let bp = b.1;
                acc.push((a.0, b.0));
                p = bp;
                i = i + 1;
            }
            proof {
                assert(pairs_view(acc@) + Seq::<(Seq<char>, Seq<char>)>::empty() =~= pairs_view(
                    acc@,
                ));
            }
            Option::Some((acc, p))
        },
    }
}

fn get_strings(buf: &Vec<u8>, pos: usize) -> (r: Option<(Vec<String>, usize)>)
    requires
        pos <= buf@.len(),
    ensures
        match r {
            Option::Some(v) => pos <= v.1 <= buf@.len() && dec_stringsv(buf@.skip(pos as int))
                == Option::Some((strings_view(v.0@), buf@.skip(v.1 as int))),
            Option::None => dec_stringsv(buf@.skip(pos as int)) is None,
        },
{
    match get_u64(buf, pos) {
        Option::None => Option::None,
        Option::Some((n, p1)) => {
            let mut acc: Vec<String> = Vec::new();
            let mut p = p1;
            let mut i: u64 = 0;
            proof {
                assert(strings_view(acc@) =~= Seq::<Seq<char>>::empty());
            }
            while i < n
                invariant
                    i <= n,
                    p1 <= p <= buf@.len(),
                    strings_view(acc@).len() == i,
                    dec_strings_body(n as nat, buf@.skip(p1 as int)) == (match dec_strings_body(
                        (n - i) as nat,
                        buf@.skip(p as int),
                    ) {
                        Option::Some(t) => Option::Some((strings_view(acc@) + t.0, t.1)),
                        Option::None => Option::None,
                    }),
                    dec_u64v(buf@.skip(pos as int)) == Option::Some((n, buf@.skip(p1 as int))),
                    pos <= buf@.len(),
                decreases n - i,
            {
                let a = match get_str(buf, p) {
                    Option::Some(x) => x,
                    Option::None => {
                        return Option::None;
                    },
                };
                proof {
                    let stepped = dec_strings_body((n - i - 1) as nat, buf@.skip(a.1 as int));
                    let tail = match stepped {
                        Option::Some(t) => t.0,
                        Option::None => Seq::empty(),
                    };
                    assert(strings_view(acc@.push(a.0)) =~= strings_view(acc@).push(a.0@));
                    assert(strings_view(acc@).push(a.0@) + tail =~= strings_view(acc@) + (seq![a.0@]
                        + tail));
                }
                let ap = a.1;
                acc.push(a.0);
                p = ap;
                i = i + 1;
            }
            proof {
                assert(strings_view(acc@) + Seq::<Seq<char>>::empty() =~= strings_view(acc@));
            }
            Option::Some((acc, p))
        },
    }
}

fn get_entity(buf: &Vec<u8>, pos: usize) -> (r: Option<(WasccEntity, usize)>)
    requires
        pos <= buf@.len(),
    ensures
        match r {
            Option::Some(v) => pos <= v.1 <= buf@.len() && dec_entityv(buf@.skip(pos as int))
                == Option::Some((v.0@, buf@.skip(v.1 as int))),
            Option::None => dec_entityv(buf@.skip(pos as int)) is None,
        },
{
    if pos < buf.len() {
        let t = buf[pos];
        proof {
            assert(buf@.skip(pos as int)[0] == buf@[pos as int]);
            assert(buf@.skip(pos as int).skip(1) =~= buf@.skip(pos as int + 1));
        }
        if t == 0u8 {
            match get_str(buf, pos + 1) {
                Option::Some((k, p)) => Option::Some((WasccEntity::Actor(k), p)),
                Option::None => Option::None,
            }
        } else if t == 1u8 {
            let (id, p1) = match get_str(buf, pos + 1) {
                Option::Some(x) => x,
                Option::None => {
                    return Option::None;
                },
            };
            let (contract_id, p2) = match get_str(buf, p1) {
                Option::Some(x) => x,
                Option::None => {
                    return Option::None;
                },
            };
            let (link_name, p3) = match get_str(buf, p2) {
                Option::Some(x) => x,
                Option::None => {
                    return Option::None;
                },
            };
            Option::Some((WasccEntity::Capability { id, contract_id, link_name }, p3))
        } else {
            Option::None
        }
    } else {
        Option::None
    }
}

fn get_opt(buf: &Vec<u8>, pos: usize) -> (r: Option<(Option<String>, usize)>)
    requires
        pos <= buf@.len(),
    ensures
        match r {
            Option::Some(v) => pos <= v.1 <= buf@.len() && dec_optv(buf@.skip(pos as int))
                == Option::Some((opt_view(v.0), buf@.skip(v.1 as int))),
            Option::None => dec_optv(buf@.skip(pos as int)) is None,
        },
{
    if pos < buf.len() {
        let t = buf[pos];
        proof {
            assert(buf@.skip(pos as int)[0] == buf@[pos as int]);
            assert(buf@.skip(pos as int).skip(1) =~= buf@.skip(pos as int + 1));
        }
        if t == 0u8 {
            Option::Some((Option::None, pos + 1))
        } else if t == 1u8 {
            match get_str(buf, pos + 1) {
                Option::Some((s, p)) => Option::Some((Option::Some(s), p)),
                Option::None => Option::None,
            }
        } else {
            Option::None
        }
    } else {
        Option::None
    }
}

} // verus!

verus! {

fn decode_err() -> (r: ControlError)
    ensures
        r matches ControlError::DecodingError(m) && m@ == "deserialization failure"@,
{
    ControlError::DecodingError("deserialization failure".to_owned())
}

/// Encode one message for the wire. The result is exactly the mathematical
/// encoding of the message's view, and every message held in memory is
/// representable.
pub fn serialize(item: &ControlMessage) -> (r: Vec<u8>)
    ensures
        r@ == spec_enc_msg(item@),
        wf_msg(item@),
{
    let mut out: Vec<u8> = Vec::new();
    match item {
        ControlMessage::Host(m) => {
            out.push(1u8);
            proof {
                assert(out@ =~= seq![1u8]);
            }
            put_str(&mut out, m.id.as_str());
        },
        ControlMessage::ActorAuctionRequest(m) => {
            out.push(2u8);
            proof {
                assert(out@ =~= seq![2u8]);
            }
            put_str(&mut out, m.actor_ref.as_str());
            put_pairs(&mut out, &m.constraints);
        },
        ControlMessage::ActorAuctionAck(m) => {
            out.push(3u8);
            proof {
                assert(out@ =~= seq![3u8]);
            }
            put_str(&mut out, m.host_id.as_str());
            put_bool(&mut out, m.accepted);
        },
        ControlMessage::ProviderAuctionRequest(m) => {
            out.push(4u8);
            proof {
                assert(out@ =~= seq![4u8]);
            }
            put_str(&mut out, m.provider_ref.as_str());
            put_str(&mut out, m.link_name.as_str());
            put_pairs(&mut out, &m.constraints);
        },
        ControlMessage::ProviderAuctionAck(m) => {
            out.push(5u8);
            proof {
                assert(out@ =~= seq![5u8]);
            }
            put_str(&mut out, m.host_id.as_str());
            put_bool(&mut out, m.accepted);
        },
        ControlMessage::StartActorCommand(m) => {
            out.push(6u8);
            proof {
                assert(out@ =~= seq![6u8]);
            }
            put_str(&mut out, m.actor_ref.as_str());
            put_str(&mut out, m.host_id.as_str());
        },
        ControlMessage::StartActorAck(m) => {
            out.push(7u8);
            proof {
                assert(out@ =~= seq![7u8]);
            }
            put_bool(&mut out, m.accepted);
        },
        ControlMessage::StopActorCommand(m) => {
            out.push(8u8);
            proof {
                assert(out@ =~= seq![8u8]);
            }
            put_str(&mut out, m.host_id.as_str());
            put_str(&mut out, m.actor_ref.as_str());
        },
        ControlMessage::StopActorAck(m) => {
            out.push(9u8);
            proof {
                assert(out@ =~= seq![9u8]);
            }
            put_bool(&mut out, m.accepted);
        },
        ControlMessage::UpdateActorCommand(m) => {
            out.push(10u8);
            proof {
                assert(out@ =~= seq![10u8]);
            }
            put_str(&mut out, m.host_id.as_str());
            put_str(&mut out, m.actor_id.as_str());
            put_str(&mut out, m.new_actor_ref.as_str());
        },
        ControlMessage::UpdateActorAck(m) => {
            out.push(11u8);
            proof {
                assert(out@ =~= seq![11u8]);
            }
            put_bool(&mut out, m.accepted);
        },
        ControlMessage::StartProviderCommand(m) => {
            out.push(12u8);
            proof {
                assert(out@ =~= seq![12u8]);
            }
            put_str(&mut out, m.host_id.as_str());
            put_str(&mut out, m.provider_ref.as_str());
            put_str(&mut out, m.link_name.as_str());
        },
        ControlMessage::StartProviderAck(m) => {
            out.push(13u8);
            proof {
                assert(out@ =~= seq![13u8]);
            }
            put_bool(&mut out, m.accepted);
        },
        ControlMessage::StopProviderCommand(m) => {
            out.push(14u8);
            proof {
                assert(out@ =~= seq![14u8]);
            }
            put_str(&mut out, m.host_id.as_str());
            put_str(&mut out, m.provider_ref.as_str());
            put_str(&mut out, m.link_name.as_str());
            put_str(&mut out, m.contract_id.as_str());
        },
        ControlMessage::StopProviderAck(m) => {
            out.push(15u8);
            proof {
                assert(out@ =~= seq![15u8]);
            }
            put_bool(&mut out, m.accepted);
        },
        ControlMessage::HostInventory(m) => {
            out.push(16u8);
            proof {
                assert(out@ =~= seq![16u8]);
            }
            put_str(&mut out, m.host_id.as_str());
            put_strings(&mut out, &m.actors);
            put_strings(&mut out, &m.providers);
        },
        ControlMessage::ClaimsList(m) => {
            out.push(17u8);
            proof {
                assert(out@ =~= seq![17u8]);
            }
            put_pairs(&mut out, &m.claims);
        },
        ControlMessage::LinkDefinition(m) => {
            out.push(18u8);
            proof {
                assert(out@ =~= seq![18u8]);
            }
            put_str(&mut out, m.actor_id.as_str());
            put_str(&mut out, m.provider_id.as_str());
            put_str(&mut out, m.contract_id.as_str());
            put_str(&mut out, m.link_name.as_str());
            put_pairs(&mut out, &m.values);
        },
        ControlMessage::Invocation(m) => {
            out.push(19u8);
            proof {
                assert(out@ =~= seq![19u8]);
            }
            put_str(&mut out, m.id.as_str());
            put_entity(&mut out, &m.origin);
            put_entity(&mut out, &m.target);
            put_str(&mut out, m.operation.as_str());
            put_bytes(&mut out, &m.msg);
            put_bytes(&mut out, &m.signature);
            put_str(&mut out, m.issuer.as_str());
        },
        ControlMessage::InvocationResponse(m) => {
            out.push(20u8);
            proof {
                assert(out@ =~= seq![20u8]);
            }
            put_bytes(&mut out, &m.msg);
            put_opt(&mut out, &m.error);
            put_str(&mut out, m.invocation_id.as_str());
        },
    }
    proof {
        assert(out@ =~= spec_enc_msg(item@));
    }
    out
}

fn de_host(buf: &Vec<u8>) -> (r: Result<ControlMessage, ControlError>)
    requires
        buf@.len() >= 1,
    ensures
        match r {
            Result::Ok(m) => dec_m_host(buf@.skip(1)) == Option::Some(m@),
            Result::Err(e) => dec_m_host(buf@.skip(1)) is None && (e matches
                ControlError::DecodingError(em) && em@ == "deserialization failure"@),
        },
{
    let (id, p1) = match get_str(buf, 1) {
        Option::Some(x) => x,
        Option::None => {
            return Result::Err(decode_err());
        },
    };
    if p1 == buf.len() {
        Result::Ok(ControlMessage::Host(Host { id }))
    } else {
        Result::Err(decode_err())
    }
}

fn de_actor_auction_request(buf: &Vec<u8>) -> (r: Result<ControlMessage, ControlError>)
    requires
        buf@.len() >= 1,
    ensures
        match r {
            Result::Ok(m) => dec_m_actor_auction_request(buf@.skip(1)) == Option::Some(m@),
            Result::Err(e) => dec_m_actor_auction_request(buf@.skip(1)) is None && (e matches
                ControlError::DecodingError(em) && em@ == "deserialization failure"@),
        },
{
    let (actor_ref, p1) = match get_str(buf, 1) {
        Option::Some(x) => x,
        Option::None => {
            return Result::Err(decode_err());
        },
    };
    let (constraints, p2) = match get_pairs(buf, p1) {
        Option::Some(x) => x,
        Option::None => {
            return Result::Err(decode_err());
        },
    };
    if p2 == buf.len() {
        Result::Ok(ControlMessage::ActorAuctionRequest(ActorAuctionRequest { actor_ref, constraints }))
    } else {
        Result::Err(decode_err())
    }
}

fn de_actor_auction_ack(buf: &Vec<u8>) -> (r: Result<ControlMessage, ControlError>)
    requires
        buf@.len() >= 1,
    ensures
        match r {
            Result::Ok(m) => dec_m_actor_auction_ack(buf@.skip(1)) == Option::Some(m@),
            Result::Err(e) => dec_m_actor_auction_ack(buf@.skip(1)) is None && (e matches
                ControlError::DecodingError(em) && em@ == "deserialization failure"@),
        },
{
    let (host_id, p1) = match get_str(buf, 1) {
        Option::Some(x) => x,
        Option::None => {
            return Result::Err(decode_err());
        },
    };
    let (accepted, p2) = match get_bool(buf, p1) {
        Option::Some(x) => x,
        Option::None => {
            return Result::Err(decode_err());
        },
    };
    if p2 == buf.len() {
        Result::Ok(ControlMessage::ActorAuctionAck(ActorAuctionAck { host_id, accepted }))
    } else {
        Result::Err(decode_err())
    }
}

fn de_provider_auction_request(buf: &Vec<u8>) -> (r: Result<ControlMessage, ControlError>)
    requires
        buf@.len() >= 1,
    ensures
        match r {
            Result::Ok(m) => dec_m_provider_auction_request(buf@.skip(1)) == Option::Some(m@),
            Result::Err(e) => dec_m_provider_auction_request(buf@.skip(1)) is None && (e matches
                ControlError::DecodingError(em) && em@ == "deserialization failure"@),
        },
{
    let (provider_ref, p1) = match get_str(buf, 1) {
        Option::Some(x) => x,
        Option::None => {
            return Result::Err(decode_err());
        },
    };
    let (link_name, p2) = match get_str(buf, p1) {
        Option::Some(x) => x,
        Option::None => {
            return Result::Err(decode_err());
        },
    };
    let (constraints, p3) = match get_pairs(buf, p2) {
        Option::Some(x) => x,
        Option::None => {
            return Result::Err(decode_err());
        },
    };
    if p3 == buf.len() {
        Result::Ok(ControlMessage::ProviderAuctionRequest(ProviderAuctionRequest { provider_ref, link_name, constraints }))
    } else {
        Result::Err(decode_err())
    }
}

fn de_provider_auction_ack(buf: &Vec<u8>) -> (r: Result<ControlMessage, ControlError>)
    requires
        buf@.len() >= 1,
    ensures
        match r {
            Result::Ok(m) => dec_m_provider_auction_ack(buf@.skip(1)) == Option::Some(m@),
            Result::Err(e) => dec_m_provider_auction_ack(buf@.skip(1)) is None && (e matches
                ControlError::DecodingError(em) && em@ == "deserialization failure"@),
        },
{
    let (host_id, p1) = match get_str(buf, 1) {
        Option::Some(x) => x,
        Option::None => {
            return Result::Err(decode_err());
        },
    };
    let (accepted, p2) = match get_bool(buf, p1) {
        Option::Some(x) => x,
        Option::None => {
            return Result::Err(decode_err());
        },
    };
    if p2 == buf.len() {
        Result::Ok(ControlMessage::ProviderAuctionAck(ProviderAuctionAck { host_id, accepted }))
    } else {
        Result::Err(decode_err())
    }
}

fn de_start_actor_command(buf: &Vec<u8>) -> (r: Result<ControlMessage, ControlError>)
    requires
        buf@.len() >= 1,
    ensures
        match r {
            Result::Ok(m) => dec_m_start_actor_command(buf@.skip(1)) == Option::Some(m@),
            Result::Err(e) => dec_m_start_actor_command(buf@.skip(1)) is None && (e matches
                ControlError::DecodingError(em) && em@ == "deserialization failure"@),
        },
{
    let (actor_ref, p1) = match get_str(buf, 1) {
        Option::Some(x) => x,
        Option::None => {
            return Result::Err(decode_err());
        },
    };
    let (host_id, p2) = match get_str(buf, p1) {
        Option::Some(x) => x,
        Option::None => {
            return Result::Err(decode_err());
        },
    };
    if p2 == buf.len() {
        Result::Ok(ControlMessage::StartActorCommand(StartActorCommand { actor_ref, host_id }))
    } else {
        Result::Err(decode_err())
    }
}

fn de_start_actor_ack(buf: &Vec<u8>) -> (r: Result<ControlMessage, ControlError>)
    requires
        buf@.len() >= 1,
    ensures
        match r {
            Result::Ok(m) => dec_m_bool_only(buf@.skip(1), 7u8) == Option::Some(m@),
            Result::Err(e) => dec_m_bool_only(buf@.skip(1), 7u8) is None && (e matches
                ControlError::DecodingError(em) && em@ == "deserialization failure"@),
        },
{
    let (accepted, p1) = match get_bool(buf, 1) {
        Option::Some(x) => x,
        Option::None => {
            return Result::Err(decode_err());
        },
    };
    if p1 == buf.len() {
        Result::Ok(ControlMessage::StartActorAck(StartActorAck { accepted }))
    } else {
        Result::Err(decode_err())
    }
}

fn de_stop_actor_command(buf: &Vec<u8>) -> (r: Result<ControlMessage, ControlError>)
    requires
        buf@.len() >= 1,
    ensures
        match r {
            Result::Ok(m) => dec_m_stop_actor_command(buf@.skip(1)) == Option::Some(m@),
            Result::Err(e) => dec_m_stop_actor_command(buf@.skip(1)) is None && (e matches
                ControlError::DecodingError(em) && em@ == "deserialization failure"@),
        },
{
    let (host_id, p1) = match get_str(buf, 1) {
        Option::Some(x) => x,
        Option::None => {
            return Result::Err(decode_err());
        },
    };
    let (actor_ref, p2) = match get_str(buf, p1) {
        Option::Some(x) => x,
        Option::None => {
            return Result::Err(decode_err());
        },
    };
    if p2 == buf.len() {
        Result::Ok(ControlMessage::StopActorCommand(StopActorCommand { host_id, actor_ref }))
    } else {
        Result::Err(decode_err())
    }
}

fn de_stop_actor_ack(buf: &Vec<u8>) -> (r: Result<ControlMessage, ControlError>)
    requires
        buf@.len() >= 1,
    ensures
        match r {
            Result::Ok(m) => dec_m_bool_only(buf@.skip(1), 9u8) == Option::Some(m@),
            Result::Err(e) => dec_m_bool_only(buf@.skip(1), 9u8) is None && (e matches
                ControlError::DecodingError(em) && em@ == "deserialization failure"@),
        },
{
    let (accepted, p1) = match get_bool(buf, 1) {
        Option::Some(x) => x,
        Option::None => {
            return Result::Err(decode_err());
        },
    };
    if p1 == buf.len() {
        Result::Ok(ControlMessage::StopActorAck(StopActorAck { accepted }))
    } else {
        Result::Err(decode_err())
    }
}

fn de_update_actor_command(buf: &Vec<u8>) -> (r: Result<ControlMessage, ControlError>)
    requires
        buf@.len() >= 1,
    ensures
        match r {
            Result::Ok(m) => dec_m_update_actor_command(buf@.skip(1)) == Option::Some(m@),
            Result::Err(e) => dec_m_update_actor_command(buf@.skip(1)) is None && (e matches
                ControlError::DecodingError(em) && em@ == "deserialization failure"@),
        },
{
    let (host_id, p1) = match get_str(buf, 1) {
        Option::Some(x) => x,
        Option::None => {
            return Result::Err(decode_err());
        },
    };
    let (actor_id, p2) = match get_str(buf, p1) {
        Option::Some(x) => x,
        Option::None => {
            return Result::Err(decode_err());
        },
    };
    let (new_actor_ref, p3) = match get_str(buf, p2) {
        Option::Some(x) => x,
        Option::None => {
            return Result::Err(decode_err());
        },
    };
    if p3 == buf.len() {
        Result::Ok(ControlMessage::UpdateActorCommand(UpdateActorCommand { host_id, actor_id, new_actor_ref }))
    } else {
        Result::Err(decode_err())
    }
}

fn de_update_actor_ack(buf: &Vec<u8>) -> (r: Result<ControlMessage, ControlError>)
    requires
        buf@.len() >= 1,
    ensures
        match r {
            Result::Ok(m) => dec_m_bool_only(buf@.skip(1), 11u8) == Option::Some(m@),
            Result::Err(e) => dec_m_bool_only(buf@.skip(1), 11u8) is None && (e matches
                ControlError::DecodingError(em) && em@ == "deserialization failure"@),
        },
{
    let (accepted, p1) = match get_bool(buf, 1) {
        Option::Some(x) => x,
        Option::None => {
            return Result::Err(decode_err());
        },
    };
    if p1 == buf.len() {
        Result::Ok(ControlMessage::UpdateActorAck(UpdateActorAck { accepted }))
    } else {
        Result::Err(decode_err())
    }
}

fn de_start_provider_command(buf: &Vec<u8>) -> (r: Result<ControlMessage, ControlError>)
    requires
        buf@.len() >= 1,
    ensures
        match r {
            Result::Ok(m) => dec_m_start_provider_command(buf@.skip(1)) == Option::Some(m@),
            Result::Err(e) => dec_m_start_provider_command(buf@.skip(1)) is None && (e matches
                ControlError::DecodingError(em) && em@ == "deserialization failure"@),
        },
{
    let (host_id, p1) = match get_str(buf, 1) {
        Option::Some(x) => x,
        Option::None => {
            return Result::Err(decode_err());
        },
    };
    let (provider_ref, p2) = match get_str(buf, p1) {
        Option::Some(x) => x,
        Option::None => {
            return Result::Err(decode_err());
        },
    };
    let (link_name, p3) = match get_str(buf, p2) {
        Option::Some(x) => x,
        Option::None => {
            return Result::Err(decode_err());
        },
    };
    if p3 == buf.len() {
        Result::Ok(ControlMessage::StartProviderCommand(StartProviderCommand { host_id, provider_ref, link_name }))
    } else {
        Result::Err(decode_err())
    }
}

fn de_start_provider_ack(buf: &Vec<u8>) -> (r: Result<ControlMessage, ControlError>)
    requires
        buf@.len() >= 1,
    ensures
        match r {
            Result::Ok(m) => dec_m_bool_only(buf@.skip(1), 13u8) == Option::Some(m@),
            Result::Err(e) => dec_m_bool_only(buf@.skip(1), 13u8) is None && (e matches
                ControlError::DecodingError(em) && em@ == "deserialization failure"@),
        },
{
    let (accepted, p1) = match get_bool(buf, 1) {
        Option::Some(x) => x,
        Option::None => {
            return Result::Err(decode_err());
        },
    };
    if p1 == buf.len() {
        Result::Ok(ControlMessage::StartProviderAck(StartProviderAck { accepted }))
    } else {
        Result::Err(decode_err())
    }
}

fn de_stop_provider_command(buf: &Vec<u8>) -> (r: Result<ControlMessage, ControlError>)
    requires
        buf@.len() >= 1,
    ensures
        match r {
            Result::Ok(m) => dec_m_stop_provider_command(buf@.skip(1)) == Option::Some(m@),
            Result::Err(e) => dec_m_stop_provider_command(buf@.skip(1)) is None && (e matches
                ControlError::DecodingError(em) && em@ == "deserialization failure"@),
        },
{
    let (host_id, p1) = match get_str(buf, 1) {
        Option::Some(x) => x,
        Option::None => {
            return Result::Err(decode_err());
        },
    };
    let (provider_ref, p2) = match get_str(buf, p1) {
        Option::Some(x) => x,
        Option::None => {
            return Result::Err(decode_err());
        },
    };
    let (link_name, p3) = match get_str(buf, p2) {
        Option::Some(x) => x,
        Option::None => {
            return Result::Err(decode_err());
        },
    };
    let (contract_id, p4) = match get_str(buf, p3) {
        Option::Some(x) => x,
        Option::None => {
            return Result::Err(decode_err());
        },
    };
    if p4 == buf.len() {
        Result::Ok(ControlMessage::StopProviderCommand(StopProviderCommand { host_id, provider_ref, link_name, contract_id }))
    } else {
        Result::Err(decode_err())
    }
}

fn de_stop_provider_ack(buf: &Vec<u8>) -> (r: Result<ControlMessage, ControlError>)
    requires
        buf@.len() >= 1,
    ensures
        match r {
            Result::Ok(m) => dec_m_bool_only(buf@.skip(1), 15u8) == Option::Some(m@),
            Result::Err(e) => dec_m_bool_only(buf@.skip(1), 15u8) is None && (e matches
                ControlError::DecodingError(em) && em@ == "deserialization failure"@),
        },
{
    let (accepted, p1) = match get_bool(buf, 1) {
        Option::Some(x) => x,
        Option::None => {
            return Result::Err(decode_err());
        },
    };
    if p1 == buf.len() {
        Result::Ok(ControlMessage::StopProviderAck(StopProviderAck { accepted }))
    } else {
        Result::Err(decode_err())
    }
}

fn de_host_inventory(buf: &Vec<u8>) -> (r: Result<ControlMessage, ControlError>)
    requires
        buf@.len() >= 1,
    ensures
        match r {
            Result::Ok(m) => dec_m_host_inventory(buf@.skip(1)) == Option::Some(m@),
            Result::Err(e) => dec_m_host_inventory(buf@.skip(1)) is None && (e matches
                ControlError::DecodingError(em) && em@ == "deserialization failure"@),
        },
{
    let (host_id, p1) = match get_str(buf, 1) {
        Option::Some(x) => x,
        Option::None => {
            return Result::Err(decode_err());
        },
    };
    let (actors, p2) = match get_strings(buf, p1) {
        Option::Some(x) => x,
        Option::None => {
            return Result::Err(decode_err());
        },
    };
    let (providers, p3) = match get_strings(buf, p2) {
        Option::Some(x) => x,
        Option::None => {
            return Result::Err(decode_err());
        },
    };
    if p3 == buf.len() {
        Result::Ok(ControlMessage::HostInventory(HostInventory { host_id, actors, providers }))
    } else {
        Result::Err(decode_err())
    }
}

fn de_claims_list(buf: &Vec<u8>) -> (r: Result<ControlMessage, ControlError>)
    requires
        buf@.len() >= 1,
    ensures
        match r {
            Result::Ok(m) => dec_m_claims_list(buf@.skip(1)) == Option::Some(m@),
            Result::Err(e) => dec_m_claims_list(buf@.skip(1)) is None && (e matches
                ControlError::DecodingError(em) && em@ == "deserialization failure"@),
        },
{
    let (claims, p1) = match get_pairs(buf, 1) {
        Option::Some(x) => x,
        Option::None => {
            return Result::Err(decode_err());
        },
    };
    if p1 == buf.len() {
        Result::Ok(ControlMessage::ClaimsList(ClaimsList { claims }))
    } else {
        Result::Err(decode_err())
    }
}

fn de_link_definition(buf: &Vec<u8>) -> (r: Result<ControlMessage, ControlError>)
    requires
        buf@.len() >= 1,
    ensures
        match r {
            Result::Ok(m) => dec_m_link_definition(buf@.skip(1)) == Option::Some(m@),
            Result::Err(e) => dec_m_link_definition(buf@.skip(1)) is None && (e matches
                ControlError::DecodingError(em) && em@ == "deserialization failure"@),
        },
{
    let (actor_id, p1) = match get_str(buf, 1) {
        Option::Some(x) => x,
        Option::None => {
            return Result::Err(decode_err());
        },
    };
    let (provider_id, p2) = match get_str(buf, p1) {
        Option::Some(x) => x,
        Option::None => {
            return Result::Err(decode_err());
        },
    };
    let (contract_id, p3) = match get_str(buf, p2) {
        Option::Some(x) => x,
        Option::None => {
            return Result::Err(decode_err());
        },
    };
    let (link_name, p4) = match get_str(buf, p3) {
        Option::Some(x) => x,
        Option::None => {
            return Result::Err(decode_err());
        },
    };
    let (values, p5) = match get_pairs(buf, p4) {
        Option::Some(x) => x,
        Option::None => {
            return Result::Err(decode_err());
        },
    };
    if p5 == buf.len() {
        Result::Ok(ControlMessage::LinkDefinition(LinkDefinition { actor_id, provider_id, contract_id, link_name, values }))
    } else {
        Result::Err(decode_err())
    }
}

fn de_invocation(buf: &Vec<u8>) -> (r: Result<ControlMessage, ControlError>)
    requires
        buf@.len() >= 1,
    ensures
        match r {
            Result::Ok(m) => dec_m_invocation(buf@.skip(1)) == Option::Some(m@),
            Result::Err(e) => dec_m_invocation(buf@.skip(1)) is None && (e matches
                ControlError::DecodingError(em) && em@ == "deserialization failure"@),
        },
{
    let (id, p1) = match get_str(buf, 1) {
        Option::Some(x) => x,
        Option::None => {
            return Result::Err(decode_err());
        },
    };
    let (origin, p2) = match get_entity(buf, p1) {
        Option::Some(x) => x,
        Option::None => {
            return Result::Err(decode_err());
        },
    };
    let (target, p3) = match get_entity(buf, p2) {
        Option::Some(x) => x,
        Option::None => {
            return Result::Err(decode_err());
        },
    };
    let (operation, p4) = match get_str(buf, p3) {
        Option::Some(x) => x,
        Option::None => {
            return Result::Err(decode_err());
        },
    };
    let (msg, p5) = match get_bytes(buf, p4) {
        Option::Some(x) => x,
        Option::None => {
            return Result::Err(decode_err());
        },
    };
    let (signature, p6) = match get_bytes(buf, p5) {
        Option::Some(x) => x,
        Option::None => {
            return Result::Err(decode_err());
        },
    };
    let (issuer, p7) = match get_str(buf, p6) {
        Option::Some(x) => x,
        Option::None => {
            return Result::Err(decode_err());
        },
    };
    if p7 == buf.len() {
        Result::Ok(ControlMessage::Invocation(Invocation { id, origin, target, operation, msg, signature, issuer }))
    } else {
        Result::Err(decode_err())
    }
}

fn de_invocation_response(buf: &Vec<u8>) -> (r: Result<ControlMessage, ControlError>)
    requires
        buf@.len() >= 1,
    ensures
        match r {
            Result::Ok(m) => dec_m_invocation_response(buf@.skip(1)) == Option::Some(m@),
            Result::Err(e) => dec_m_invocation_response(buf@.skip(1)) is None && (e matches
                ControlError::DecodingError(em) && em@ == "deserialization failure"@),
        },
{
    let (msg, p1) = match get_bytes(buf, 1) {
        Option::Some(x) => x,
        Option::None => {
            return Result::Err(decode_err());
        },
    };
    let (error, p2) = match get_opt(buf, p1) {
        Option::Some(x) => x,
        Option::None => {
            return Result::Err(decode_err());
        },
    };
    let (invocation_id, p3) = match get_str(buf, p2) {
        Option::Some(x) => x,
        Option::None => {
            return Result::Err(decode_err());
        },
    };
    if p3 == buf.len() {
        Result::Ok(ControlMessage::InvocationResponse(InvocationResponse { msg, error, invocation_id }))
    } else {
        Result::Err(decode_err())
    }
}

/// Decode one message from the wire. Succeeds exactly when the bytes are a
/// message's encoding, and then returns that message; anything else is
/// reported as a generic deserialization failure.
pub fn deserialize(buf: &Vec<u8>) -> (r: Result<ControlMessage, ControlError>)
    ensures
        match r {
            Result::Ok(m) => spec_dec_msg(buf@) == Option::Some(m@),
            Result::Err(e) => spec_dec_msg(buf@) is None && (e matches ControlError::DecodingError(
                em,
            ) && em@ == "deserialization failure"@),
        },
{
    if buf.len() == 0 {
        return Result::Err(decode_err());
    }
    let t = buf[0];
    match t {
        1u8 => de_host(buf),
        2u8 => de_actor_auction_request(buf),
        3u8 => de_actor_auction_ack(buf),
        4u8 => de_provider_auction_request(buf),
        5u8 => de_provider_auction_ack(buf),
        6u8 => de_start_actor_command(buf),
        7u8 => de_start_actor_ack(buf),
        8u8 => de_stop_actor_command(buf),
        9u8 => de_stop_actor_ack(buf),
        10u8 => de_update_actor_command(buf),
        11u8 => de_update_actor_ack(buf),
        12u8 => de_start_provider_command(buf),
        13u8 => de_start_provider_ack(buf),
        14u8 => de_stop_provider_command(buf),
        15u8 => de_stop_provider_ack(buf),
        16u8 => de_host_inventory(buf),
        17u8 => de_claims_list(buf),
        18u8 => de_link_definition(buf),
        19u8 => de_invocation(buf),
        20u8 => de_invocation_response(buf),
        _ => Result::Err(decode_err()),
    }
}

} // verus!
