//! The subject builder: a pure, deterministic mapping from operation kind,
//! optional namespace prefix and target identifiers to bus subject strings.
//!
//! When a namespace prefix is configured, every subject begins with it, so
//! independent lattices can share one bus without collision.
use vstd::prelude::*;
use vstd::string::StringExecFns;

pub mod commands;
pub mod queries;
pub mod rpc;

verus! {

/// The view of an optional namespace prefix.
pub open spec fn ns_view(ns: &Option<String>) -> Option<Seq<char>> {
    match ns {
        Option::None => Option::None,
        Option::Some(p) => Option::Some(p@),
    }
}

/// The leading segment of every subject: the namespace prefix, if one is
/// configured, then the fixed lattice segment.
pub open spec fn prefix_view(ns: Option<Seq<char>>) -> Seq<char> {
    match ns {
        Option::None => "wasmcloud"@,
        Option::Some(p) => p + "."@ + "wasmcloud"@,
    }
}

/// Build the leading segment of a subject.
pub fn prefix(nsprefix: &Option<String>) -> (r: String)
    ensures
        r@ == prefix_view(ns_view(nsprefix)),
{
    match nsprefix {
        Option::None => "wasmcloud".to_owned(),
        Option::Some(p) => {
            let mut s = p.clone();
            s.append(".");
            s.append("wasmcloud");
            s
        },
    }
}

/// Subject of the actor placement auction broadcast.
pub open spec fn actor_auction_view(ns: Option<Seq<char>>) -> Seq<char> {
    prefix_view(ns) + ".auction.actor"@
}

pub fn actor_auction_subject(nsprefix: &Option<String>) -> (r: String)
    ensures
        r@ == actor_auction_view(ns_view(nsprefix)),
{
    let mut s = prefix(nsprefix);
    s.append(".auction.actor");
    s
}

/// Subject of the provider placement auction broadcast.
pub open spec fn provider_auction_view(ns: Option<Seq<char>>) -> Seq<char> {
    prefix_view(ns) + ".auction.provider"@
}

pub fn provider_auction_subject(nsprefix: &Option<String>) -> (r: String)
    ensures
        r@ == provider_auction_view(ns_view(nsprefix)),
{
    let mut s = prefix(nsprefix);
    s.append(".auction.provider");
    s
}

/// A configured namespace prefix is a strict prefix of every subject: each
/// subject is the namespaced leading segment followed by some tail, and the
/// namespace occupies exactly its own length at the front.
pub proof fn lemma_namespace_is_strict_prefix(ns: Seq<char>, tail: Seq<char>)
    ensures
        (prefix_view(Option::Some(ns)) + tail).len() > ns.len(),
        (prefix_view(Option::Some(ns)) + tail).subrange(0, ns.len() as int) == ns,
{
    reveal_strlit(".");
    reveal_strlit("wasmcloud");
    assert((prefix_view(Option::Some(ns)) + tail).subrange(0, ns.len() as int) =~= ns);
}

} // verus!
