//! The reverse index from key fingerprints to owner labels.
//!
//! Wallets, heirs and heir-wallets may share signing keys; for display,
//! each fingerprint maps to the labels of every entity that owns it, in
//! discovery order.  An entity whose fingerprint cannot be resolved is
//! skipped, never an error: the index is best-effort and display-only.

use vstd::prelude::*;
use crate::errors::Error;
use crate::txbuild::string_views;

verus! {

/// The kind of a named entity, as it appears in its label.
#[derive(Clone, Copy, PartialEq, Eq, Structural, Debug)]
pub enum EntityKind {
    Wallet,
    Heir,
    HeirWallet,
}

/// One stored entity, with its fingerprint if it could be resolved.
#[derive(Clone, Debug)]
pub struct NamedEntity {
    pub kind: EntityKind,
    pub name: String,
    pub fingerprint: Option<u32>,
}

/// One row of the index: a fingerprint and the labels of its owners.
#[derive(Clone, Debug)]
pub struct FingerprintEntry {
    pub fingerprint: u32,
    pub labels: Vec<String>,
}

/// The label prefix of an entity kind.
pub open spec fn kind_label(k: EntityKind) -> Seq<char> {
    match k {
        EntityKind::Wallet => "wallet"@,
        EntityKind::Heir => "heir"@,
        EntityKind::HeirWallet => "heir-wallet"@,
    }
}

/// The display label of an entity: its kind, a colon, its name.
pub open spec fn label_of(e: NamedEntity) -> Seq<char> {
    kind_label(e.kind) + ":"@ + e.name@
}

/// The labels of the entities that own fingerprint `fp`, in order.
pub open spec fn labels_for(s: Seq<NamedEntity>, fp: u32) -> Seq<Seq<char>>
    decreases s.len(),
{
    if s.len() == 0 {
        Seq::empty()
    } else {
        let t = labels_for(s.drop_last(), fp);
        if s.last().fingerprint == Option::Some(fp) {
            t.push(label_of(s.last()))
        } else {
            t
        }
    }
}

/// Whether some entity resolves to fingerprint `fp`.
pub open spec fn known_fingerprint(s: Seq<NamedEntity>, fp: u32) -> bool {
    exists|i: int| 0 <= i < s.len() && (#[trigger] s[i]).fingerprint == Option::Some(fp)
}

/// Builds an entity's display label.
pub fn entity_label(e: &NamedEntity) -> (r: String)
    ensures
        r@ == label_of(*e),
{
    let prefix = match e.kind {
        EntityKind::Wallet => "wallet",
        EntityKind::Heir => "heir",
        EntityKind::HeirWallet => "heir-wallet",
    };
    let r = String::from_str(prefix).concat(":").concat(e.name.as_str());
    proof {
        assert(r@ =~= label_of(*e));
    }
    r
}

/// Builds the fingerprint index over the given entities: one row per
/// distinct resolvable fingerprint, holding the labels of exactly its
/// owners in discovery order.
pub fn get_fingerprints(entities: &Vec<NamedEntity>) -> (r: Vec<FingerprintEntry>)
    ensures
        forall|p: int, q: int|
            0 <= p < q < r@.len() ==> (#[trigger] r@[p]).fingerprint != (
            #[trigger] r@[q]).fingerprint,
        forall|k: int|
            0 <= k < r@.len() ==> string_views((#[trigger] r@[k]).labels@) == labels_for(
                entities@,
                r@[k].fingerprint,
            ),
        forall|k: int|
            0 <= k < r@.len() ==> known_fingerprint(entities@, (#[trigger] r@[k]).fingerprint),
        forall|fp: u32|
            known_fingerprint(entities@, fp) ==> exists|k: int|
                0 <= k < r@.len() && (#[trigger] r@[k]).fingerprint == fp,
{
    let n = entities.len();
    let mut fps: Vec<u32> = Vec::new();
    let mut i: usize = 0;
    while i < n
        invariant
            n == entities@.len(),
            i <= n,
            forall|p: int, q: int| 0 <= p < q < fps@.len() ==> fps@[p] != fps@[q],
            forall|k: int|
                0 <= k < fps@.len() ==> known_fingerprint(entities@, #[trigger] fps@[k]),
            forall|fp: u32|
                known_fingerprint(entities@.take(i as int), fp) ==> exists|k: int|
                    0 <= k < fps@.len() && fps@[k] == fp,
        decreases n - i,
    {
        let ghost pre = entities@.take(i as int);
        let ghost post = entities@.take(i as int + 1);
        let ghost fps0 = fps@;
        proof {
            assert(post.drop_last() =~= pre);
            assert(post.last() == entities@[i as int]);
        }
        match entities[i].fingerprint {
            Option::Some(fp) => {
                let mut j: usize = 0;
                let mut present: bool = false;
                while j < fps.len()
                    invariant
                        j <= fps@.len(),
                        present ==> exists|k: int| 0 <= k < fps@.len() && fps@[k] == fp,
                        !present ==> forall|k: int| 0 <= k < j ==> fps@[k] != fp,
                    decreases fps@.len() - j,
                {
                    if fps[j] == fp {
                        present = true;
                    }
                    j = j + 1;
                }
                if !present {
                    fps.push(fp);
                    proof {
                        assert(entities@[i as int].fingerprint == Option::Some(fp));
                        assert(known_fingerprint(entities@, fp));
                        assert(fps@[fps@.len() - 1] == fp);
                    }
                }
                proof {
                    assert(exists|kk: int| 0 <= kk < fps@.len() && fps@[kk] == fp);
                    assert forall|f2: u32| known_fingerprint(post, f2) implies exists|k: int|
                        0 <= k < fps@.len() && fps@[k] == f2 by {
                        let w = choose|w: int|
                            0 <= w < post.len() && (#[trigger] post[w]).fingerprint
                                == Option::Some(f2);
                        if w < i {
                            assert(pre[w] == post[w]);
                            assert(known_fingerprint(pre, f2));
                            let k0 = choose|k0: int| 0 <= k0 < fps0.len() && fps0[k0] == f2;
                            assert(fps@[k0] == f2);
                        } else {
                            assert(post[w] == entities@[i as int]);
                            assert(f2 == fp);
                        }
                    }
                }
            },
            Option::None => {
                proof {
                    assert forall|f2: u32| known_fingerprint(post, f2) implies exists|k: int|
                        0 <= k < fps@.len() && fps@[k] == f2 by {
                        let w = choose|w: int|
                            0 <= w < post.len() && (#[trigger] post[w]).fingerprint
                                == Option::Some(f2);
                        assert(w < i);
                        assert(pre[w] == post[w]);
                        assert(known_fingerprint(pre, f2));
                    }
                }
            },
        }
        i = i + 1;
    }
    proof {
        assert(entities@.take(n as int) =~= entities@);
    }

    let mut r: Vec<FingerprintEntry> = Vec::new();
    let m = fps.len();
    let mut k: usize = 0;
    while k < m
        invariant
            n == entities@.len(),
            m == fps@.len(),
            k <= m,
            r@.len() == k,
            forall|p: int, q: int| 0 <= p < q < fps@.len() ==> fps@[p] != fps@[q],
            forall|p: int| 0 <= p < fps@.len() ==> known_fingerprint(entities@, #[trigger] fps@[p]),
            forall|fp: u32|
                known_fingerprint(entities@, fp) ==> exists|p: int|
                    0 <= p < fps@.len() && fps@[p] == fp,
            forall|p: int| 0 <= p < k ==> (#[trigger] r@[p]).fingerprint == fps@[p],
            forall|p: int|
                0 <= p < k ==> string_views((#[trigger] r@[p]).labels@) == labels_for(
                    entities@,
                    fps@[p],
                ),
        decreases m - k,
    {
        let fp = fps[k];
        let mut labels: Vec<String> = Vec::new();
        let mut i: usize = 0;
        while i < n
            invariant
                n == entities@.len(),
                i <= n,
                string_views(labels@) == labels_for(entities@.take(i as int), fp),
            decreases n - i,
        {
            let ghost pre = entities@.take(i as int);
            let ghost post = entities@.take(i as int + 1);
            proof {
                assert(post.drop_last() =~= pre);
                assert(post.last() == entities@[i as int]);
            }
            let matches_fp = match entities[i].fingerprint {
                Option::Some(f) => f == fp,
                Option::None => false,
            };
            if matches_fp {
                let lbl = entity_label(&entities[i]);
                labels.push(lbl);
                proof {
                    assert(string_views(labels@) =~= labels_for(post, fp));
                }
            } else {
                proof {
                    assert(string_views(labels@) =~= labels_for(post, fp));
                }
            }
            i = i + 1;
        }
        proof {
            assert(entities@.take(n as int) =~= entities@);
        }
        r.push(FingerprintEntry { fingerprint: fp, labels });
        k = k + 1;
    }
    proof {
        assert forall|fp: u32| known_fingerprint(entities@, fp) implies exists|p: int|
            0 <= p < r@.len() && (#[trigger] r@[p]).fingerprint == fp by {
            let p = choose|p: int| 0 <= p < fps@.len() && fps@[p] == fp;
            assert(r@[p].fingerprint == fp);
        }
    }
    r
}

/// The fingerprint a newly created heir-wallet watches: an explicit
/// user-supplied fingerprint wins over one derived from the key backend,
/// since an explicit flag is a deliberate override; with neither, the
/// creation is rejected.
pub fn resolve_create_fingerprint(explicit: Option<u32>, derived: Option<u32>) -> (r: Result<
    u32,
    Error,
>)
    ensures
        explicit is Some ==> r == Ok::<u32, Error>(explicit->0),
        explicit is None && derived is Some ==> r == Ok::<u32, Error>(derived->0),
        explicit is None && derived is None ==> r == Err::<u32, Error>(Error::MissingFingerprint),
{
    match explicit {
        Option::Some(fp) => Ok(fp),
        Option::None => match derived {
            Option::Some(fp) => Ok(fp),
            Option::None => Err(Error::MissingFingerprint),
        },
    }
}

} // verus!
