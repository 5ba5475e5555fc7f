//! The MCP server's HTTP transport: which origins and hosts may reach it.

use vstd::prelude::*;

verus! {

/// A transport origin allowed to reach the HTTP server: the URL as text,
/// and its host where it has one.
#[derive(Clone, Debug, PartialEq, Eq)]
pub struct Origin {
    pub url: String,
    pub host: Option<String>,
}

/// Whether every origin has a host.
pub open spec fn all_have_hosts(origins: Seq<Origin>) -> bool {
    forall|i: int| 0 <= i < origins.len() ==> (#[trigger] origins[i]).host is Some
}

/// The allowed hosts: the host of each allowed origin, in order.
pub fn allowed_hosts(origins: &Vec<Origin>) -> (hosts: Vec<String>)
    requires
        all_have_hosts(origins@),
    ensures
        hosts.len() == origins.len(),
        forall|i: int| 0 <= i < origins.len() ==> origins@[i].host == Some(#[trigger] hosts@[i]),
{
    let mut hosts: Vec<String> = Vec::new();
    let mut i: usize = 0;
    while i < origins.len()
        invariant
            i <= origins.len(),
            all_have_hosts(origins@),
            hosts.len() == i,
            forall|k: int| 0 <= k < i ==> origins@[k].host == Some(#[trigger] hosts@[k]),
        decreases origins.len() - i,
    {
        match &origins[i].host {
            Some(h) => hosts.push(h.clone()),
            None => {
                assert(origins@[i as int].host is Some);
            },
        }
        i = i + 1;
    }
    hosts
}

/// The allowed hosts, or `None` where an origin has no host.
pub fn checked_allowed_hosts(origins: &Vec<Origin>) -> (hosts: Option<Vec<String>>)
    ensures
        hosts is None <==> !all_have_hosts(origins@),
        hosts matches Some(hs) ==> hs.len() == origins.len() && forall|i: int|
            0 <= i < origins.len() ==> origins@[i].host == Some(#[trigger] hs@[i]),
{
    let mut i: usize = 0;
    while i < origins.len()
        invariant
            i <= origins.len(),
            forall|k: int| 0 <= k < i ==> (#[trigger] origins@[k]).host is Some,
        decreases origins.len() - i,
    {
        if origins[i].host.is_none() {
            return None;
        }
        i = i + 1;
    }
    Some(allowed_hosts(origins))
}

} // verus!
