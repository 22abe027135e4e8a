//! Resolver adapter: the addresses of a host, where a failed lookup counts
//! as a lookup with no records.

use vstd::prelude::*;

verus! {

/// The addresses a lookup yields: all of them, in the order given, or none
/// where the lookup failed (`None`).
pub open spec fn resolved_of(lookup: Option<Seq<String>>) -> Seq<String> {
    match lookup {
        Some(addresses) => addresses,
        None => Seq::empty(),
    }
}

/// The sequence view of a lookup's addresses, where it succeeded.
pub open spec fn lookup_view(lookup: Option<Vec<String>>) -> Option<Seq<String>> {
    match lookup {
        Some(v) => Some(v@),
        None => None,
    }
}

/// The addresses of a host as the resolution capability gave them, with no
/// sorting, deduplication or filtering. `lookup` is `None` where resolution
/// failed (no such name, timeout, unreachable resolver); that yields no
/// address, as an answer with zero records does.
pub fn resolved_addresses(lookup: Option<Vec<String>>) -> (r: Vec<String>)
    ensures
        r@ == resolved_of(lookup_view(lookup)),
{
    match lookup {
        Some(addresses) => addresses,
        None => Vec::new(),
    }
}

} // verus!
