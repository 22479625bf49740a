//! Subjects of the remote-procedure-call surface: actor calls and link
//! advertisements.
use vstd::prelude::*;
use vstd::string::StringExecFns;

use crate::broker::{ns_view, prefix, prefix_view};

verus! {

/// Subject on which a target actor receives signed invocations.
pub open spec fn call_actor_view(ns: Option<Seq<char>>, target: Seq<char>) -> Seq<char> {
    prefix_view(ns) + ".rpc."@ + target
}

pub fn call_actor(nsprefix: &Option<String>, target: &str) -> (r: String)
    ensures
        r@ == call_actor_view(ns_view(nsprefix), target@),
{
    let mut s = prefix(nsprefix);
    s.append(".rpc.");
    s.append(target);
    s
}

/// Subject on which link definitions are broadcast, best effort.
pub open spec fn advertise_links_view(ns: Option<Seq<char>>) -> Seq<char> {
    prefix_view(ns) + ".rpc.links"@
}

pub fn advertise_links(nsprefix: &Option<String>) -> (r: String)
    ensures
        r@ == advertise_links_view(ns_view(nsprefix)),
{
    let mut s = prefix(nsprefix);
    s.append(".rpc.links");
    s
}

} // verus!
