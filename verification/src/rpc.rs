//! The decision logic of the two bus conversations: the single-reply
//! request and the scatter-gather collection.
//!
//! The transport itself is outside this library; callers hand in what came
//! back from the bus (one reply, no reply, or the raw replies gathered
//! within a window), and these functions decide what the conversation
//! yielded. A reply that fails to decode during a collection is dropped,
//! never fatal for the whole collection.
use vstd::prelude::*;

use crate::codec::{deserialize, spec_dec_msg};
use crate::types::{ActorAuctionAck, ControlMessage, Host, MsgView, ProviderAuctionAck};

verus! {

/// What came back from a single-reply request: one reply's bytes, no reply
/// within the deadline, or a failure of the publish itself.
pub enum SingleReply {
    Replied(Vec<u8>),
    NoReply,
    PublishFailed(String),
}

/// What came back from a publish-only operation.
pub enum PublishOutcome {
    Accepted,
    Refused(String),
}

/// The views of a batch of raw replies.
pub open spec fn bytes_views(rs: Seq<Vec<u8>>) -> Seq<Seq<u8>> {
    rs.map_values(|v: Vec<u8>| v@)
}

/// The replies of a batch that decode to a message satisfying `p`, decoded
/// and in arrival order. Malformed replies and messages of another kind
/// contribute nothing.
pub open spec fn decoded_matching(rs: Seq<Seq<u8>>, p: spec_fn(MsgView) -> bool) -> Seq<MsgView>
    decreases rs.len(),
{
    if rs.len() == 0 {
        Seq::empty()
    } else {
        let rest = decoded_matching(rs.drop_first(), p);
        match spec_dec_msg(rs[0]) {
            Option::Some(m) => if p(m) {
                seq![m] + rest
            } else {
                rest
            },
            Option::None => rest,
        }
    }
}

/// One more reply at the end extends the collection by that reply's
/// contribution.
proof fn lemma_decoded_matching_snoc(rs: Seq<Seq<u8>>, d: Seq<u8>, p: spec_fn(MsgView) -> bool)
    ensures
        decoded_matching(rs.push(d), p) == decoded_matching(rs, p) + (match spec_dec_msg(d) {
            Option::Some(m) => if p(m) {
                seq![m]
            } else {
                Seq::empty()
            },
            Option::None => Seq::empty(),
        }),
    decreases rs.len(),
{
    let tail = match spec_dec_msg(d) {
        Option::Some(m) => if p(m) {
            seq![m]
        } else {
            Seq::<MsgView>::empty()
        },
        Option::None => Seq::<MsgView>::empty(),
    };
    if rs.len() == 0 {
        let single = rs.push(d);
        assert(single[0] == d);
        assert(single.drop_first() =~= Seq::<Seq<u8>>::empty());
        assert(decoded_matching(Seq::<Seq<u8>>::empty(), p) == Seq::<MsgView>::empty());
        assert(decoded_matching(single, p) =~= decoded_matching(rs, p) + tail);
    } else {
        assert(rs.push(d).drop_first() =~= rs.drop_first().push(d));
        assert(rs.push(d)[0] == rs[0]);
        lemma_decoded_matching_snoc(rs.drop_first(), d, p);
        assert(decoded_matching(rs.push(d), p) =~= decoded_matching(rs, p) + tail);
    }
}

/// One malformed reply anywhere in a batch contributes nothing: the
/// collection equals the collection of the batch without it. With
/// `lemma_all_replies_collected` this gives: a batch of well-formed acks
/// with one malformed reply interleaved yields exactly the well-formed
/// acks.
pub proof fn lemma_malformed_reply_dropped(rs: Seq<Seq<u8>>, i: int, p: spec_fn(MsgView) -> bool)
    requires
        0 <= i < rs.len(),
        spec_dec_msg(rs[i]) is None,
    ensures
        decoded_matching(rs, p) == decoded_matching(rs.remove(i), p),
    decreases rs.len(),
{
    if i == 0 {
        assert(rs.remove(0) =~= rs.drop_first());
    } else {
        assert(rs.remove(i).drop_first() =~= rs.drop_first().remove(i - 1));
        assert(rs.remove(i)[0] == rs[0]);
        lemma_malformed_reply_dropped(rs.drop_first(), i - 1, p);
        assert(decoded_matching(rs, p) =~= decoded_matching(rs.remove(i), p));
    }
}

/// A batch in which every reply decodes to a message satisfying `p` is
/// collected whole: one result per reply, in order.
pub proof fn lemma_all_replies_collected(rs: Seq<Seq<u8>>, p: spec_fn(MsgView) -> bool)
    requires
        forall|j: int| 0 <= j < rs.len() ==> match #[trigger] spec_dec_msg(rs[j]) {
            Option::Some(m) => p(m),
            Option::None => false,
        },
    ensures
        decoded_matching(rs, p).len() == rs.len(),
        forall|j: int| 0 <= j < rs.len() ==> #[trigger] decoded_matching(rs, p)[j]
            == spec_dec_msg(rs[j]).unwrap(),
    decreases rs.len(),
{
    if rs.len() > 0 {
        assert(spec_dec_msg(rs[0]) is Some);
        lemma_all_replies_collected(rs.drop_first(), p);
        assert forall|j: int| 0 <= j < rs.len() implies #[trigger] decoded_matching(rs, p)[j]
            == spec_dec_msg(rs[j]).unwrap() by {
            if j > 0 {
                assert(decoded_matching(rs.drop_first(), p)[j - 1] == spec_dec_msg(
                    rs.drop_first()[j - 1],
                ).unwrap());
                assert(rs.drop_first()[j - 1] == rs[j]);
            }
        }
    }
}

/// The predicate selecting host-discovery replies.
pub open spec fn is_host_reply() -> spec_fn(MsgView) -> bool {
    |m: MsgView| m matches MsgView::Host { .. }
}

/// The predicate selecting actor auction acks.
pub open spec fn is_actor_auction_ack() -> spec_fn(MsgView) -> bool {
    |m: MsgView| m matches MsgView::ActorAuctionAck { .. }
}

/// The predicate selecting provider auction acks.
pub open spec fn is_provider_auction_ack() -> spec_fn(MsgView) -> bool {
    |m: MsgView| m matches MsgView::ProviderAuctionAck { .. }
}

/// The views of a list of host-discovery replies.
pub open spec fn host_views(hs: Seq<Host>) -> Seq<MsgView> {
    hs.map_values(|h: Host| MsgView::Host { id: h.id@ })
}

/// The views of a list of actor auction acks.
pub open spec fn actor_ack_views(as_: Seq<ActorAuctionAck>) -> Seq<MsgView> {
    as_.map_values(
        |a: ActorAuctionAck| MsgView::ActorAuctionAck { host_id: a.host_id@, accepted: a.accepted },
    )
}

/// The views of a list of provider auction acks.
pub open spec fn provider_ack_views(as_: Seq<ProviderAuctionAck>) -> Seq<MsgView> {
    as_.map_values(
        |a: ProviderAuctionAck| MsgView::ProviderAuctionAck {
            host_id: a.host_id@,
            accepted: a.accepted,
        },
    )
}

/// Collect the host-discovery replies of a batch: exactly those replies
/// that decode as hosts, in arrival order; malformed replies are dropped.
/// An empty batch yields an empty collection.
pub fn collect_hosts(replies: &Vec<Vec<u8>>) -> (r: Vec<Host>)
    ensures
        host_views(r@) == decoded_matching(bytes_views(replies@), is_host_reply()),
            replies@.len() == 0 ==> r@.len() == 0,
{
    let mut acc: Vec<Host> = Vec::new();
    let mut i: usize = 0;
    proof {
        assert(host_views(acc@) =~= Seq::<MsgView>::empty());
        assert(bytes_views(replies@.take(0)) =~= Seq::<Seq<u8>>::empty());
    }
    while i < replies.len()
        invariant
            i <= replies.len(),
            host_views(acc@) == decoded_matching(bytes_views(replies@.take(i as int)), is_host_reply()),
        decreases replies.len() - i,
    {
        proof {
            assert(bytes_views(replies@.take(i as int)).push(replies@[i as int]@) =~= bytes_views(
                replies@.take(i as int + 1),
            ));
            lemma_decoded_matching_snoc(
                bytes_views(replies@.take(i as int)),
                replies@[i as int]@,
                is_host_reply(),
            );
        }
        match deserialize(&replies[i]) {
            Result::Ok(m) => match m {
                ControlMessage::Host(h) => {
                    proof {
                        assert(host_views(acc@.push(h)) =~= host_views(acc@) + seq![MsgView::Host { id: h.id@ }]);
                    }
                    acc.push(h);
                },
                _ => {
                    proof {
                        assert(host_views(acc@) + Seq::<MsgView>::empty() =~= host_views(acc@));
                    }
                },
            },
            Result::Err(_) => {
                proof {
                    assert(host_views(acc@) + Seq::<MsgView>::empty() =~= host_views(acc@));
                }
            },
        }
        i = i + 1;
    }
    proof {
        assert(replies@.take(replies@.len() as int) =~= replies@);
    }
    acc
}

/// Collect the acks of an actor auction: exactly those replies that decode
/// as actor auction acks, in arrival order; malformed replies are dropped.
/// Duplicate acks from one host are kept, as the protocol does not
/// deduplicate.
pub fn collect_actor_acks(replies: &Vec<Vec<u8>>) -> (r: Vec<ActorAuctionAck>)
    ensures
        actor_ack_views(r@) == decoded_matching(bytes_views(replies@), is_actor_auction_ack()),
            replies@.len() == 0 ==> r@.len() == 0,
{
    let mut acc: Vec<ActorAuctionAck> = Vec::new();
    let mut i: usize = 0;
    proof {
        assert(actor_ack_views(acc@) =~= Seq::<MsgView>::empty());
        assert(bytes_views(replies@.take(0)) =~= Seq::<Seq<u8>>::empty());
    }
    while i < replies.len()
        invariant
            i <= replies.len(),
            actor_ack_views(acc@) == decoded_matching(
                bytes_views(replies@.take(i as int)),
                is_actor_auction_ack(),
            ),
        decreases replies.len() - i,
    {
        proof {
            assert(bytes_views(replies@.take(i as int)).push(replies@[i as int]@) =~= bytes_views(
                replies@.take(i as int + 1),
            ));
            lemma_decoded_matching_snoc(
                bytes_views(replies@.take(i as int)),
                replies@[i as int]@,
                is_actor_auction_ack(),
            );
        }
        match deserialize(&replies[i]) {
            Result::Ok(m) => match m {
                ControlMessage::ActorAuctionAck(a) => {
                    proof {
                        assert(actor_ack_views(acc@.push(a)) =~= actor_ack_views(acc@) + seq![
                            MsgView::ActorAuctionAck { host_id: a.host_id@, accepted: a.accepted },
                        ]);
                    }
                    acc.push(a);
                },
                _ => {
                    proof {
                        assert(actor_ack_views(acc@) + Seq::<MsgView>::empty() =~= actor_ack_views(
                            acc@,
                        ));
                    }
                },
            },
            Result::Err(_) => {
                proof {
                    assert(actor_ack_views(acc@) + Seq::<MsgView>::empty() =~= actor_ack_views(
                        acc@,
                    ));
                }
            },
        }
        i = i + 1;
    }
    proof {
        assert(replies@.take(replies@.len() as int) =~= replies@);
    }
    acc
}

/// Collect the acks of a provider auction: exactly those replies that
/// decode as provider auction acks, in arrival order; malformed replies
/// are dropped.
pub fn collect_provider_acks(replies: &Vec<Vec<u8>>) -> (r: Vec<ProviderAuctionAck>)
    ensures
        provider_ack_views(r@) == decoded_matching(
            bytes_views(replies@),
            is_provider_auction_ack(),
        ),
        replies@.len() == 0 ==> r@.len() == 0,
{
    let mut acc: Vec<ProviderAuctionAck> = Vec::new();
    let mut i: usize = 0;
    proof {
        assert(provider_ack_views(acc@) =~= Seq::<MsgView>::empty());
        assert(bytes_views(replies@.take(0)) =~= Seq::<Seq<u8>>::empty());
    }
    while i < replies.len()
        invariant
            i <= replies.len(),
            provider_ack_views(acc@) == decoded_matching(
                bytes_views(replies@.take(i as int)),
                is_provider_auction_ack(),
            ),
        decreases replies.len() - i,
    {
        proof {
            assert(bytes_views(replies@.take(i as int)).push(replies@[i as int]@) =~= bytes_views(
                replies@.take(i as int + 1),
            ));
            lemma_decoded_matching_snoc(
                bytes_views(replies@.take(i as int)),
                replies@[i as int]@,
                is_provider_auction_ack(),
            );
        }
        match deserialize(&replies[i]) {
            Result::Ok(m) => match m {
                ControlMessage::ProviderAuctionAck(a) => {
                    proof {
                        assert(provider_ack_views(acc@.push(a)) =~= provider_ack_views(acc@) + seq![
                            MsgView::ProviderAuctionAck {
                                host_id: a.host_id@,
                                accepted: a.accepted,
                            },
                        ]);
                    }
                    acc.push(a);
                },
                _ => {
                    proof {
                        assert(provider_ack_views(acc@) + Seq::<MsgView>::empty()
                            =~= provider_ack_views(acc@));
                    }
                },
            },
            Result::Err(_) => {
                proof {
                    assert(provider_ack_views(acc@) + Seq::<MsgView>::empty()
                        =~= provider_ack_views(acc@));
                }
            },
        }
        i = i + 1;
    }
    proof {
        assert(replies@.take(replies@.len() as int) =~= replies@);
    }
    acc
}

} // verus!
