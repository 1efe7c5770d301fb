use vstd::prelude::*;

use crate::ids::{contains_id, id_set};

verus! {

/// Whether `actor` may call or withdraw a meeting, mark another member dead,
/// or stop the game: the session's initiator and every owner may.
pub open spec fn authorized(actor: u64, initiator: Option<u64>, owners: Set<u64>) -> bool {
    initiator == Some(actor) || owners.contains(actor)
}

/// Decides whether `actor` is in control, given the initiator of the current
/// session (if any) and the owners.
pub fn is_authorized(actor: u64, initiator: Option<u64>, owners: &Vec<u64>) -> (r: bool)
    ensures
        r == authorized(actor, initiator, id_set(owners@)),
{
    let by_session = match initiator {
        Some(i) => i == actor,
        None => false,
    };
    by_session || contains_id(owners, actor)
}

} // verus!
