//! Refilling the pool of unused account-level public keys.
//!
//! The chain observer watches a window of derived keys; once too few of
//! them are unused, new ones must be derived.  The plan is a half-open
//! index range chosen so that it never collides with an index the backend
//! already knows, and is empty when the pool is already full (so that no
//! hardware round trip is wasted).

use vstd::prelude::*;
use vstd::math::max;
use crate::bootstrap::{StoredKeyProvider, StoredOnlineWallet};

verus! {

/// Whether a freshly created wallet gets its first window of account
/// keys fed automatically: only when neither backend is absent and the
/// operator did not opt out.
pub fn should_auto_feed(
    no_auto_feed_xpubs: bool,
    key: &StoredKeyProvider,
    online: &StoredOnlineWallet,
) -> (r: bool)
    ensures
        r == (!no_auto_feed_xpubs && !(*key is NoKeyProvider) && !(*online is NoOnlineWallet)),
{
    let has_key = match key {
        StoredKeyProvider::NoKeyProvider => false,
        _ => true,
    };
    let has_online = match online {
        StoredOnlineWallet::NoOnlineWallet => false,
        _ => true,
    };
    !no_auto_feed_xpubs && has_key && has_online
}

/// One account key the backend reports: its derivation index and whether
/// it has ever been used.  Indices are unique per wallet and `used`
/// never reverts.
#[derive(Clone, Copy, PartialEq, Eq, Structural, Debug)]
pub struct AccountKeyStatus {
    pub index: u32,
    pub used: bool,
}

/// The greatest index among the reported keys, if any.
pub open spec fn last_seen_index(s: Seq<AccountKeyStatus>) -> Option<int>
    decreases s.len(),
{
    if s.len() == 0 {
        Option::None
    } else {
        match last_seen_index(s.drop_last()) {
            Option::None => Option::Some(s.last().index as int),
            Option::Some(m) => Option::Some(max(m, s.last().index as int)),
        }
    }
}

/// How many reported keys are still unused.
pub open spec fn unused_count(s: Seq<AccountKeyStatus>) -> int
    decreases s.len(),
{
    if s.len() == 0 {
        0
    } else {
        unused_count(s.drop_last()) + if s.last().used {
            0int
        } else {
            1int
        }
    }
}

/// The first index past everything the backend knows.
pub open spec fn spec_start_index(s: Seq<AccountKeyStatus>) -> int {
    match last_seen_index(s) {
        Option::None => 0,
        Option::Some(m) => m + 1,
    }
}

/// How many new keys are needed to hold `target` of them unused.
pub open spec fn spec_deficit(s: Seq<AccountKeyStatus>, target: usize) -> int {
    max(0, target - unused_count(s))
}

/// Plans the derivation range `[start, end)` that refills the unused-key
/// pool to `target_unused_count`.  The start lies past every known
/// index, the range length is exactly the deficit, and an empty range
/// means nothing needs deriving.
pub fn plan_derivation(statuses: &Vec<AccountKeyStatus>, target_unused_count: usize) -> (r: (
    u32,
    u32,
))
    requires
        spec_start_index(statuses@) + spec_deficit(statuses@, target_unused_count) <= u32::MAX,
    ensures
        r.0 as int == spec_start_index(statuses@),
        r.1 as int == spec_start_index(statuses@) + spec_deficit(statuses@, target_unused_count),
        forall|k: int| 0 <= k < statuses@.len() ==> (#[trigger] statuses@[k]).index < r.0,
{
    let n = statuses.len();
    let mut i: usize = 0;
    let mut found: bool = false;
    let mut greatest: u32 = 0;
    let mut unused: usize = 0;
    while i < n
        invariant
            n == statuses@.len(),
            i <= n,
            unused <= i,
            unused == unused_count(statuses@.take(i as int)),
            if found {
                last_seen_index(statuses@.take(i as int)) == Option::Some(greatest as int)
            } else {
                last_seen_index(statuses@.take(i as int)) == Option::<int>::None
            },
            forall|k: int| 0 <= k < i ==> (#[trigger] statuses@[k]).index <= greatest,
            !found ==> i == 0,
        decreases n - i,
    {
        proof {
            assert(statuses@.take(i as int + 1).drop_last() =~= statuses@.take(i as int));
            assert(statuses@.take(i as int + 1).last() == statuses@[i as int]);
        }
        if !statuses[i].used {
            unused = unused + 1;
        }
        if !found {
            found = true;
            greatest = statuses[i].index;
        } else if statuses[i].index > greatest {
            greatest = statuses[i].index;
        }
        i = i + 1;
    }
    proof {
        assert(statuses@.take(n as int) =~= statuses@);
    }
    let start: u32 = if found {
        greatest + 1
    } else {
        0
    };
    let deficit: usize = if target_unused_count > unused {
        target_unused_count - unused
    } else {
        0
    };
    let end: u32 = start + (deficit as u32);
    (start, end)
}

/// The reported keys that the listing flags keep: used ones under
/// `used`, unused ones under `unused`.
pub open spec fn listed_keys(s: Seq<AccountKeyStatus>, used: bool, unused: bool) -> Seq<
    AccountKeyStatus,
>
    decreases s.len(),
{
    if s.len() == 0 {
        Seq::empty()
    } else {
        let t = listed_keys(s.drop_last(), used, unused);
        if (s.last().used && used) || (!s.last().used && unused) {
            t.push(s.last())
        } else {
            t
        }
    }
}

/// Keeps the reported keys selected by the two listing flags, in order.
pub fn filter_account_keys(keys: &Vec<AccountKeyStatus>, used: bool, unused: bool) -> (r: Vec<
    AccountKeyStatus,
>)
    ensures
        r@ == listed_keys(keys@, used, unused),
{
    let n = keys.len();
    let mut r: Vec<AccountKeyStatus> = Vec::new();
    let mut i: usize = 0;
    while i < n
        invariant
            n == keys@.len(),
            i <= n,
            r@ == listed_keys(keys@.take(i as int), used, unused),
        decreases n - i,
    {
        proof {
            assert(keys@.take(i as int + 1).drop_last() =~= keys@.take(i as int));
            assert(keys@.take(i as int + 1).last() == keys@[i as int]);
        }
        if (keys[i].used && used) || (!keys[i].used && unused) {
            r.push(keys[i]);
        }
        i = i + 1;
    }
    proof {
        assert(keys@.take(n as int) =~= keys@);
    }
    r
}

} // verus!
