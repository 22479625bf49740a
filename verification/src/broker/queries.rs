//! Subjects of the read-only queries: host discovery, host inventory and
//! claims.
use vstd::prelude::*;
use vstd::string::StringExecFns;

use crate::broker::{ns_view, prefix, prefix_view};

verus! {

/// Subject of the host-discovery ping, answered by every live host.
pub open spec fn hosts_view(ns: Option<Seq<char>>) -> Seq<char> {
    prefix_view(ns) + ".ping.hosts"@
}

pub fn hosts(nsprefix: &Option<String>) -> (r: String)
    ensures
        r@ == hosts_view(ns_view(nsprefix)),
{
    let mut s = prefix(nsprefix);
    s.append(".ping.hosts");
    s
}

/// Subject of the inventory query, scoped to one host.
pub open spec fn host_inventory_view(ns: Option<Seq<char>>, host: Seq<char>) -> Seq<char> {
    prefix_view(ns) + ".get."@ + host + ".inv"@
}

pub fn host_inventory(nsprefix: &Option<String>, host: &str) -> (r: String)
    ensures
        r@ == host_inventory_view(ns_view(nsprefix), host@),
{
    let mut s = prefix(nsprefix);
    s.append(".get.");
    s.append(host);
    s.append(".inv");
    s
}

/// Subject of the lattice-wide claims query.
pub open spec fn claims_view(ns: Option<Seq<char>>) -> Seq<char> {
    prefix_view(ns) + ".get.claims"@
}

pub fn claims(nsprefix: &Option<String>) -> (r: String)
    ensures
        r@ == claims_view(ns_view(nsprefix)),
{
    let mut s = prefix(nsprefix);
    s.append(".get.claims");
    s
}

} // verus!
