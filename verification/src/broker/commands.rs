//! Subjects of the lifecycle commands, each scoped to exactly one host.
use vstd::prelude::*;
use vstd::string::StringExecFns;

use crate::broker::{ns_view, prefix, prefix_view};

verus! {

/// Subject on which one host accepts start-actor commands.
pub open spec fn start_actor_view(ns: Option<Seq<char>>, host: Seq<char>) -> Seq<char> {
    prefix_view(ns) + ".cmd."@ + host + ".la"@
}

pub fn start_actor(nsprefix: &Option<String>, host: &str) -> (r: String)
    ensures
        r@ == start_actor_view(ns_view(nsprefix), host@),
{
    let mut s = prefix(nsprefix);
    s.append(".cmd.");
    s.append(host);
    s.append(".la");
    s
}

/// Subject on which one host accepts stop-actor commands.
pub open spec fn stop_actor_view(ns: Option<Seq<char>>, host: Seq<char>) -> Seq<char> {
    prefix_view(ns) + ".cmd."@ + host + ".sa"@
}

pub fn stop_actor(nsprefix: &Option<String>, host: &str) -> (r: String)
    ensures
        r@ == stop_actor_view(ns_view(nsprefix), host@),
{
    let mut s = prefix(nsprefix);
    s.append(".cmd.");
    s.append(host);
    s.append(".sa");
    s
}

/// Subject on which one host accepts start-provider commands.
pub open spec fn start_provider_view(ns: Option<Seq<char>>, host: Seq<char>) -> Seq<char> {
    prefix_view(ns) + ".cmd."@ + host + ".lp"@
}

pub fn start_provider(nsprefix: &Option<String>, host: &str) -> (r: String)
    ensures
        r@ == start_provider_view(ns_view(nsprefix), host@),
{
    let mut s = prefix(nsprefix);
    s.append(".cmd.");
    s.append(host);
    s.append(".lp");
    s
}

/// Subject on which one host accepts stop-provider commands.
pub open spec fn stop_provider_view(ns: Option<Seq<char>>, host: Seq<char>) -> Seq<char> {
    prefix_view(ns) + ".cmd."@ + host + ".sp"@
}

pub fn stop_provider(nsprefix: &Option<String>, host: &str) -> (r: String)
    ensures
        r@ == stop_provider_view(ns_view(nsprefix), host@),
{
    let mut s = prefix(nsprefix);
    s.append(".cmd.");
    s.append(host);
    s.append(".sp");
    s
}

/// Subject on which one host accepts update-actor commands.
pub open spec fn update_actor_view(ns: Option<Seq<char>>, host: Seq<char>) -> Seq<char> {
    prefix_view(ns) + ".cmd."@ + host + ".upd"@
}

pub fn update_actor(nsprefix: &Option<String>, host: &str) -> (r: String)
    ensures
        r@ == update_actor_view(ns_view(nsprefix), host@),
{
    let mut s = prefix(nsprefix);
    s.append(".cmd.");
    s.append(host);
    s.append(".upd");
    s
}

} // verus!
