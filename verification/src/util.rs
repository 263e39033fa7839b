//! Small configuration helpers shared by both endpoints.
use vstd::prelude::*;

verus! {

/// Pick the peer or bind address: an explicitly configured address wins,
/// an empty one falls back to the default (the network broadcast address
/// for the originating side, the any-address for the receiving side).
pub fn get_ip(default: String, ip: &str) -> (r: String)
    ensures
        ip@.len() == 0 ==> r@ == default@,
        ip@.len() != 0 ==> r@ == ip@,
{
    if ip.is_empty() {
        default
    } else {
        ip.to_owned()
    }
}

} // verus!
