//! Choosing which wallet policies still need registering on the
//! hardware device.
//!
//! The online wallet's descriptors yield candidate policies; the device
//! reports which account identifiers it already holds.  Only candidates
//! whose identifier the device does not know are registered again.

use vstd::prelude::*;
use crate::txbuild::{contains_string, holds_string};

verus! {

/// One policy derivable from the wallet's descriptors, with the account
/// identifier the device files it under.
#[derive(Clone, Debug)]
pub struct PolicyCandidate {
    pub policy: String,
    pub account_id: String,
}

/// The policies among `cands` whose account identifier is not in
/// `registered`, in order.
pub open spec fn unregistered_policies(
    cands: Seq<PolicyCandidate>,
    registered: Seq<String>,
) -> Seq<String>
    decreases cands.len(),
{
    if cands.len() == 0 {
        Seq::empty()
    } else {
        let t = unregistered_policies(cands.drop_last(), registered);
        if !holds_string(registered, cands.last().account_id@) {
            t.push(cands.last().policy)
        } else {
            t
        }
    }
}

/// Keeps the candidate policies the device does not hold yet.
pub fn select_unregistered_policies(
    candidates: &Vec<PolicyCandidate>,
    registered: &Vec<String>,
) -> (r: Vec<String>)
    ensures
        r@ == unregistered_policies(candidates@, registered@),
{
    let n = candidates.len();
    let mut r: Vec<String> = Vec::new();
    let mut i: usize = 0;
    while i < n
        invariant
            n == candidates@.len(),
            i <= n,
            r@ == unregistered_policies(candidates@.take(i as int), registered@),
        decreases n - i,
    {
        proof {
            assert(candidates@.take(i as int + 1).drop_last() =~= candidates@.take(i as int));
            assert(candidates@.take(i as int + 1).last() == candidates@[i as int]);
        }
        if !contains_string(registered, &candidates[i].account_id) {
            r.push(candidates[i].policy.clone());
        }
        i = i + 1;
    }
    proof {
        assert(candidates@.take(n as int) =~= candidates@);
    }
    r
}

} // verus!
