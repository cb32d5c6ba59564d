//! Merging backend-reported claimable-fund records.
//!
//! The heritage backend reports one record per underlying unspent output;
//! several records may share a logical claim identifier.  Aggregation
//! folds the eligible records of each claim into one row: values add up,
//! the claim matures with its last component, and the next heir's clock
//! starts with the earliest defined one.  The fold is commutative, so the
//! outcome depends only on which records were reported, not their order.

use vstd::prelude::*;
use vstd::math::{max, min};

verus! {

/// One backend-reported claimable output.
#[derive(Clone, Debug)]
pub struct InheritanceRecord {
    /// The logical claim this output belongs to.
    pub claim_id: String,
    /// The output's value in satoshi.
    pub value: u64,
    /// The timestamp after which the heir can spend this output.
    pub maturity: u64,
    /// The maturity of the next heir in line, if any.
    pub next_heir_maturity: Option<u64>,
}

/// One aggregated claim row.
#[derive(Clone, Debug)]
pub struct AggregatedInheritance {
    pub claim_id: String,
    /// The sum of the constituent records' values, in satoshi.
    pub total_value: u64,
    /// The greatest constituent maturity: the claim is not fully
    /// spendable before its last component matures.
    pub maturity: u64,
    /// The least defined constituent next-heir maturity, if any.
    pub next_heir_maturity: Option<u64>,
}

/// Whether a record takes part in the aggregation: immature records are
/// dropped unless explicitly included.
pub open spec fn eligible(r: InheritanceRecord, include_immatures: bool, now: u64) -> bool {
    include_immatures || r.maturity <= now
}

/// The least defined next-heir maturity of the two, if either is
/// defined.
pub open spec fn merge_next_heir(a: Option<int>, b: Option<u64>) -> Option<int> {
    match (a, b) {
        (Option::None, Option::None) => Option::None,
        (Option::None, Option::Some(v)) => Option::Some(v as int),
        (Option::Some(v), Option::None) => Option::Some(v),
        (Option::Some(x), Option::Some(y)) => Option::Some(min(x, y as int)),
    }
}

/// One record folded into a claim summary.
pub open spec fn add_record(
    g: (int, int, int, Option<int>),
    r: InheritanceRecord,
) -> (int, int, int, Option<int>) {
    (
        g.0 + 1,
        g.1 + r.value,
        if g.0 == 0 {
            r.maturity as int
        } else {
            max(g.2, r.maturity as int)
        },
        merge_next_heir(g.3, r.next_heir_maturity),
    )
}

/// The summary of the records of claim `id` among the eligible records
/// of `s`: (count, total value, greatest maturity, least defined
/// next-heir maturity).
pub open spec fn claim_summary(
    s: Seq<InheritanceRecord>,
    id: Seq<char>,
    include_immatures: bool,
    now: u64,
) -> (int, int, int, Option<int>)
    decreases s.len(),
{
    if s.len() == 0 {
        (0, 0, 0, Option::None)
    } else {
        let g = claim_summary(s.drop_last(), id, include_immatures, now);
        if eligible(s.last(), include_immatures, now) && s.last().claim_id@ == id {
            add_record(g, s.last())
        } else {
            g
        }
    }
}

/// The identifiers that aggregation must produce a row for.
pub open spec fn eligible_ids(
    s: Seq<InheritanceRecord>,
    include_immatures: bool,
    now: u64,
) -> Set<Seq<char>> {
    Set::new(
        |id: Seq<char>|
            exists|i: int|
                0 <= i < s.len() && eligible(#[trigger] s[i], include_immatures, now)
                    && s[i].claim_id@ == id,
    )
}

/// The sum of all record values, eligible or not.
pub open spec fn sum_values(s: Seq<InheritanceRecord>) -> int
    decreases s.len(),
{
    if s.len() == 0 {
        0
    } else {
        sum_values(s.drop_last()) + s.last().value
    }
}

/// Folding two records into a summary commutes.
proof fn lemma_add_record_comm(g: (int, int, int, Option<int>), a: InheritanceRecord, b: InheritanceRecord)
    requires
        g.0 >= 0,
    ensures
        add_record(add_record(g, a), b) == add_record(add_record(g, b), a),
{
}

/// A claim summary's count is never negative, and a zero count means the
/// summary is untouched.
pub proof fn lemma_claim_summary_count(
    s: Seq<InheritanceRecord>,
    id: Seq<char>,
    include_immatures: bool,
    now: u64,
)
    ensures
        claim_summary(s, id, include_immatures, now).0 >= 0,
        claim_summary(s, id, include_immatures, now).0 == 0 ==> claim_summary(
            s,
            id,
            include_immatures,
            now,
        ) == (0int, 0int, 0int, Option::<int>::None),
        claim_summary(s, id, include_immatures, now).0 > 0 <==> eligible_ids(
            s,
            include_immatures,
            now,
        ).contains(id),
    decreases s.len(),
{
    if s.len() > 0 {
        lemma_claim_summary_count(s.drop_last(), id, include_immatures, now);
        let t = s.drop_last();
        assert(forall|i: int| 0 <= i < s.len() - 1 ==> t[i] == s[i]);
        if claim_summary(s, id, include_immatures, now).0 > 0 {
            if eligible(s.last(), include_immatures, now) && s.last().claim_id@ == id {
                assert(eligible(s[s.len() - 1], include_immatures, now) && s[s.len() - 1].claim_id@
                    == id);
            } else {
                let i = choose|i: int|
                    0 <= i < t.len() && eligible(#[trigger] t[i], include_immatures, now)
                        && t[i].claim_id@ == id;
                assert(eligible(s[i], include_immatures, now) && s[i].claim_id@ == id);
            }
        }
        if eligible_ids(s, include_immatures, now).contains(id) {
            let i = choose|i: int|
                0 <= i < s.len() && eligible(#[trigger] s[i], include_immatures, now)
                    && s[i].claim_id@ == id;
            if i < s.len() - 1 {
                assert(eligible(t[i], include_immatures, now) && t[i].claim_id@ == id);
                assert(eligible_ids(t, include_immatures, now).contains(id));
            }
        }
    }
}

/// Removing one record takes exactly its contribution out of the fold.
proof fn lemma_claim_summary_remove(
    s: Seq<InheritanceRecord>,
    id: Seq<char>,
    include_immatures: bool,
    now: u64,
    i: int,
)
    requires
        0 <= i < s.len(),
    ensures
        claim_summary(s, id, include_immatures, now) == if eligible(s[i], include_immatures, now)
            && s[i].claim_id@ == id {
            add_record(claim_summary(s.remove(i), id, include_immatures, now), s[i])
        } else {
            claim_summary(s.remove(i), id, include_immatures, now)
        },
    decreases s.len(),
{
    if i == s.len() - 1 {
        assert(s.remove(i) =~= s.drop_last());
    } else {
        let t = s.drop_last();
        assert(s.remove(i).drop_last() =~= t.remove(i));
        assert(s.remove(i).last() == s.last());
        assert(t[i] == s[i]);
        lemma_claim_summary_remove(t, id, include_immatures, now, i);
        if eligible(s[i], include_immatures, now) && s[i].claim_id@ == id && eligible(
            s.last(),
            include_immatures,
            now,
        ) && s.last().claim_id@ == id {
            lemma_claim_summary_count(t.remove(i), id, include_immatures, now);
            lemma_add_record_comm(
                claim_summary(t.remove(i), id, include_immatures, now),
                s[i],
                s.last(),
            );
        }
    }
}

/// Aggregation is order-independent: two orderings of the same records
/// give every claim the same summary, and the same set of claims.  This
/// is the sense in which the merge is commutative and associative.
pub proof fn lemma_claim_summary_permutation(
    s1: Seq<InheritanceRecord>,
    s2: Seq<InheritanceRecord>,
    id: Seq<char>,
    include_immatures: bool,
    now: u64,
)
    requires
        s1.to_multiset() == s2.to_multiset(),
    ensures
        claim_summary(s1, id, include_immatures, now) == claim_summary(
            s2,
            id,
            include_immatures,
            now,
        ),
        eligible_ids(s1, include_immatures, now) == eligible_ids(s2, include_immatures, now),
    decreases s1.len(),
{
    s1.to_multiset_ensures();
    s2.to_multiset_ensures();
    if s1.len() == 0 {
        assert(s2.len() == 0);
        assert(eligible_ids(s1, include_immatures, now) =~= eligible_ids(
            s2,
            include_immatures,
            now,
        ));
    } else {
        let last = s1.last();
        assert(s1.contains(last));
        assert(s2.to_multiset().count(last) > 0);
        assert(s2.contains(last));
        let j = choose|j: int| 0 <= j < s2.len() && s2[j] == last;
        assert(s1.remove(s1.len() - 1) =~= s1.drop_last());
        assert(s1.drop_last().to_multiset() == s1.to_multiset().remove(last));
        assert(s2.remove(j).to_multiset() == s2.to_multiset().remove(last));
        lemma_claim_summary_permutation(
            s1.drop_last(),
            s2.remove(j),
            id,
            include_immatures,
            now,
        );
        lemma_claim_summary_remove(s2, id, include_immatures, now, j);
        lemma_claim_summary_count(s1, id, include_immatures, now);
        lemma_claim_summary_count(s2, id, include_immatures, now);
        assert forall|x: Seq<char>|
            eligible_ids(s1, include_immatures, now).contains(x) == eligible_ids(
                s2,
                include_immatures,
                now,
            ).contains(x) by {
            lemma_claim_summary_permutation(
                s1.drop_last(),
                s2.remove(j),
                x,
                include_immatures,
                now,
            );
            lemma_claim_summary_remove(s2, x, include_immatures, now, j);
            lemma_claim_summary_count(s1, x, include_immatures, now);
            lemma_claim_summary_count(s2, x, include_immatures, now);
        }
        assert(eligible_ids(s1, include_immatures, now) =~= eligible_ids(
            s2,
            include_immatures,
            now,
        ));
    }
}

/// The records of claim `id` that take part in the aggregation, in
/// their reported order.
pub open spec fn claim_records(
    s: Seq<InheritanceRecord>,
    id: Seq<char>,
    include_immatures: bool,
    now: u64,
) -> Seq<InheritanceRecord>
    decreases s.len(),
{
    if s.len() == 0 {
        Seq::empty()
    } else {
        let t = claim_records(s.drop_last(), id, include_immatures, now);
        if eligible(s.last(), include_immatures, now) && s.last().claim_id@ == id {
            t.push(s.last())
        } else {
            t
        }
    }
}

/// Conservation: a claim's aggregated total is exactly the sum of its
/// constituent records' values, no more and no less.
pub proof fn lemma_total_value_conservation(
    s: Seq<InheritanceRecord>,
    id: Seq<char>,
    include_immatures: bool,
    now: u64,
)
    ensures
        claim_summary(s, id, include_immatures, now).1 == sum_values(
            claim_records(s, id, include_immatures, now),
        ),
    decreases s.len(),
{
    if s.len() > 0 {
        lemma_total_value_conservation(s.drop_last(), id, include_immatures, now);
        let t = claim_records(s.drop_last(), id, include_immatures, now);
        if eligible(s.last(), include_immatures, now) && s.last().claim_id@ == id {
            assert(t.push(s.last()).drop_last() =~= t);
        }
    }
}

/// A claim's total never exceeds the sum of all values.
pub proof fn lemma_claim_total_le_sum(
    s: Seq<InheritanceRecord>,
    id: Seq<char>,
    include_immatures: bool,
    now: u64,
)
    ensures
        0 <= claim_summary(s, id, include_immatures, now).1 <= sum_values(s),
    decreases s.len(),
{
    if s.len() > 0 {
        lemma_claim_total_le_sum(s.drop_last(), id, include_immatures, now);
    }
}

/// The sum over a prefix never exceeds the sum over the whole.
pub proof fn lemma_sum_values_prefix(s: Seq<InheritanceRecord>, i: int)
    requires
        0 <= i <= s.len(),
    ensures
        0 <= sum_values(s.take(i)) <= sum_values(s),
    decreases s.len(),
{
    if i == s.len() {
        assert(s.take(i) =~= s);
        if s.len() > 0 {
            lemma_sum_values_prefix(s.drop_last(), i - 1);
        }
    } else {
        assert(s.drop_last().take(i) =~= s.take(i));
        lemma_sum_values_prefix(s.drop_last(), i);
    }
}

/// The eligible records of `s`, in their reported order.
pub open spec fn eligible_records(
    s: Seq<InheritanceRecord>,
    include_immatures: bool,
    now: u64,
) -> Seq<InheritanceRecord>
    decreases s.len(),
{
    if s.len() == 0 {
        Seq::empty()
    } else {
        let t = eligible_records(s.drop_last(), include_immatures, now);
        if eligible(s.last(), include_immatures, now) {
            t.push(s.last())
        } else {
            t
        }
    }
}

/// A next-heir maturity as a mathematical value.
pub open spec fn opt_nhm(o: Option<u64>) -> Option<int> {
    match o {
        Option::Some(v) => Option::Some(v as int),
        Option::None => Option::None,
    }
}

/// Whether a row reports exactly the given claim summary.
pub open spec fn row_matches(row: AggregatedInheritance, g: (int, int, int, Option<int>)) -> bool {
    &&& row.total_value == g.1
    &&& row.maturity == g.2
    &&& opt_nhm(row.next_heir_maturity) == g.3
}

/// Whether no two rows report the same claim.
pub open spec fn rows_distinct(out: Seq<AggregatedInheritance>) -> bool {
    forall|p: int, q: int|
        0 <= p < q < out.len() ==> (#[trigger] out[p].claim_id@) != (#[trigger] out[q].claim_id@)
}

/// Whether a row mirrors one raw record unchanged.
pub open spec fn row_is_record(row: AggregatedInheritance, r: InheritanceRecord) -> bool {
    &&& row.claim_id@ == r.claim_id@
    &&& row.total_value == r.value
    &&& row.maturity == r.maturity
    &&& row.next_heir_maturity == r.next_heir_maturity
}

/// What `aggregate` promises of its output: in details mode, one row
/// mirroring each eligible record in order; otherwise one row per claim,
/// distinct, carrying exactly that claim's summary, with every eligible
/// claim covered.
pub open spec fn aggregate_post(
    out: Seq<AggregatedInheritance>,
    records: Seq<InheritanceRecord>,
    include_immatures: bool,
    details: bool,
    now: u64,
) -> bool {
    &&& details ==> ({
        let e = eligible_records(records, include_immatures, now);
        &&& out.len() == e.len()
        &&& forall|i: int| 0 <= i < out.len() ==> row_is_record(#[trigger] out[i], e[i])
    })
    &&& !details ==> ({
        &&& rows_distinct(out)
        &&& forall|i: int|
            0 <= i < out.len() ==> claim_summary(
                records,
                (#[trigger] out[i]).claim_id@,
                include_immatures,
                now,
            ).0 > 0 && row_matches(
                out[i],
                claim_summary(records, out[i].claim_id@, include_immatures, now),
            )
        &&& forall|id: Seq<char>|
            #[trigger] eligible_ids(records, include_immatures, now).contains(id) ==> exists|i: int|
                0 <= i < out.len() && out[i].claim_id@ == id
    })
}

/// Merges the eligible records into one row per claim, or, in details
/// mode, mirrors each eligible record as its own row (claim identifiers
/// are then duplicated).  A record is eligible when it has matured by
/// `now`, or unconditionally under `include_immatures`.  Each claim's row
/// carries the summary of exactly its records: the values' sum, the
/// greatest maturity, and the least defined next-heir maturity.
pub fn aggregate(
    records: &Vec<InheritanceRecord>,
    include_immatures: bool,
    details: bool,
    now: u64,
) -> (out: Vec<AggregatedInheritance>)
    requires
        sum_values(records@) <= u64::MAX,
    ensures
        aggregate_post(out@, records@, include_immatures, details, now),
{
    let n = records.len();
    let mut out: Vec<AggregatedInheritance> = Vec::new();
    if details {
        let mut i: usize = 0;
        while i < n
            invariant
                n == records@.len(),
                i <= n,
                ({
                    let e = eligible_records(records@.take(i as int), include_immatures, now);
                    &&& out@.len() == e.len()
                    &&& forall|k: int| 0 <= k < out@.len() ==> row_is_record(#[trigger] out@[k], e[k])
                }),
            decreases n - i,
        {
            proof {
                assert(records@.take(i as int + 1).drop_last() =~= records@.take(i as int));
                assert(records@.take(i as int + 1).last() == records@[i as int]);
            }
            if include_immatures || records[i].maturity <= now {
                out.push(
                    AggregatedInheritance {
                        claim_id: records[i].claim_id.clone(),
                        total_value: records[i].value,
                        maturity: records[i].maturity,
                        next_heir_maturity: records[i].next_heir_maturity,
                    },
                );
            }
            i = i + 1;
        }
        proof {
            assert(records@.take(n as int) =~= records@);
        }
        return out;
    }

    let mut i: usize = 0;
    while i < n
        invariant
            n == records@.len(),
            i <= n,
            sum_values(records@) <= u64::MAX,
            rows_distinct(out@),
            forall|k: int|
                0 <= k < out@.len() ==> claim_summary(
                    records@.take(i as int),
                    (#[trigger] out@[k]).claim_id@,
                    include_immatures,
                    now,
                ).0 > 0 && row_matches(
                    out@[k],
                    claim_summary(
                        records@.take(i as int),
                        out@[k].claim_id@,
                        include_immatures,
                        now,
                    ),
                ),
            forall|id: Seq<char>|
                #[trigger] eligible_ids(records@.take(i as int), include_immatures, now).contains(
                    id,
                ) ==> exists|k: int| 0 <= k < out@.len() && out@[k].claim_id@ == id,
        decreases n - i,
    {
        let ghost pre = records@.take(i as int);
        let ghost post = records@.take(i as int + 1);
        let ghost rec = records@[i as int];
        proof {
            assert(post.drop_last() =~= pre);
            assert(post.last() == rec);
        }
        if include_immatures || records[i].maturity <= now {
            let len = out.len();
            let mut j: usize = 0;
            let mut idx: usize = len;
            while j < len
                invariant
                    len == out@.len(),
                    j <= len,
                    i < records@.len(),
                    rec == records@[i as int],
                    idx == len ==> forall|k: int|
                        0 <= k < j ==> (#[trigger] out@[k].claim_id@) != rec.claim_id@,
                    idx < len ==> out@[idx as int].claim_id@ == rec.claim_id@,
                    idx <= len,
                decreases len - j,
            {
                if idx == len && out[j].claim_id == records[i].claim_id {
                    idx = j;
                }
                j = j + 1;
            }
            let ghost g_pre = claim_summary(pre, rec.claim_id@, include_immatures, now);
            let ghost g_post = claim_summary(post, rec.claim_id@, include_immatures, now);
            proof {
                assert(eligible(rec, include_immatures, now));
                assert(g_post == add_record(g_pre, rec));
                lemma_claim_total_le_sum(post, rec.claim_id@, include_immatures, now);
                lemma_sum_values_prefix(records@, i as int + 1);
                assert(g_post.1 <= u64::MAX);
            }
            if idx < len {
                let ghost old_out = out@;
                proof {
                    lemma_claim_summary_count(pre, rec.claim_id@, include_immatures, now);
                    assert(g_pre.0 > 0);
                }
                let new_total = out[idx].total_value + records[i].value;
                let new_maturity = if records[i].maturity > out[idx].maturity {
                    records[i].maturity
                } else {
                    out[idx].maturity
                };
                let new_next = match (out[idx].next_heir_maturity, records[i].next_heir_maturity) {
                    (Option::None, Option::None) => Option::None,
                    (Option::None, Option::Some(v)) => Option::Some(v),
                    (Option::Some(v), Option::None) => Option::Some(v),
                    (Option::Some(x), Option::Some(y)) => Option::Some(
                        if x < y {
                            x
                        } else {
                            y
                        },
                    ),
                };
                let new_row = AggregatedInheritance {
                    claim_id: out[idx].claim_id.clone(),
                    total_value: new_total,
                    maturity: new_maturity,
                    next_heir_maturity: new_next,
                };
                out.set(idx, new_row);
                proof {
                    assert(out@[idx as int].claim_id@ == rec.claim_id@);
                    assert(row_matches(out@[idx as int], g_post));
                    assert forall|k: int| 0 <= k < out@.len() implies claim_summary(
                        post,
                        (#[trigger] out@[k]).claim_id@,
                        include_immatures,
                        now,
                    ).0 > 0 && row_matches(
                        out@[k],
                        claim_summary(post, out@[k].claim_id@, include_immatures, now),
                    ) by {
                        if k != idx {
                            assert(out@[k] == old_out[k]);
                            if k < idx {
                                assert(old_out[k].claim_id@ != old_out[idx as int].claim_id@);
                            } else {
                                assert(old_out[idx as int].claim_id@ != old_out[k].claim_id@);
                            }
                            assert(claim_summary(post, out@[k].claim_id@, include_immatures, now)
                                == claim_summary(pre, out@[k].claim_id@, include_immatures, now));
                        }
                    }
                    assert forall|id: Seq<char>|
                        #[trigger] eligible_ids(post, include_immatures, now).contains(id) implies
                        exists|k: int| 0 <= k < out@.len() && out@[k].claim_id@ == id by {
                        let w = choose|w: int|
                            0 <= w < post.len() && eligible(
                                #[trigger] post[w],
                                include_immatures,
                                now,
                            ) && post[w].claim_id@ == id;
                        if w < i {
                            assert(pre[w] == post[w]);
                            assert(eligible_ids(pre, include_immatures, now).contains(id));
                            let k = choose|k: int|
                                0 <= k < old_out.len() && old_out[k].claim_id@ == id;
                            assert(out@[k].claim_id@ == id);
                        } else {
                            assert(out@[idx as int].claim_id@ == id);
                        }
                    }
                }
            } else {
                let ghost old_out = out@;
                proof {
                    if eligible_ids(pre, include_immatures, now).contains(rec.claim_id@) {
                        let k = choose|k: int|
                            0 <= k < old_out.len() && old_out[k].claim_id@ == rec.claim_id@;
                        assert(false);
                    }
                    lemma_claim_summary_count(pre, rec.claim_id@, include_immatures, now);
                    assert(g_pre == (0int, 0int, 0int, Option::<int>::None));
                }
                out.push(
                    AggregatedInheritance {
                        claim_id: records[i].claim_id.clone(),
                        total_value: records[i].value,
                        maturity: records[i].maturity,
                        next_heir_maturity: records[i].next_heir_maturity,
                    },
                );
                proof {
                    assert(out@.len() == old_out.len() + 1);
                    assert(row_matches(out@[out@.len() - 1], g_post));
                    assert forall|k: int| 0 <= k < out@.len() implies claim_summary(
                        post,
                        (#[trigger] out@[k]).claim_id@,
                        include_immatures,
                        now,
                    ).0 > 0 && row_matches(
                        out@[k],
                        claim_summary(post, out@[k].claim_id@, include_immatures, now),
                    ) by {
                        if k < old_out.len() {
                            assert(out@[k] == old_out[k]);
                            assert(out@[k].claim_id@ != rec.claim_id@);
                            assert(claim_summary(post, out@[k].claim_id@, include_immatures, now)
                                == claim_summary(pre, out@[k].claim_id@, include_immatures, now));
                        }
                    }
                    assert forall|id: Seq<char>|
                        #[trigger] eligible_ids(post, include_immatures, now).contains(id) implies
                        exists|k: int| 0 <= k < out@.len() && out@[k].claim_id@ == id by {
                        let w = choose|w: int|
                            0 <= w < post.len() && eligible(
                                #[trigger] post[w],
                                include_immatures,
                                now,
                            ) && post[w].claim_id@ == id;
                        if w < i {
                            assert(pre[w] == post[w]);
                            assert(eligible_ids(pre, include_immatures, now).contains(id));
                            let k = choose|k: int|
                                0 <= k < old_out.len() && old_out[k].claim_id@ == id;
                            assert(out@[k].claim_id@ == id);
                        } else {
                            assert(out@[out@.len() - 1].claim_id@ == id);
                        }
                    }
                }
            }
        } else {
            proof {
                assert(!eligible(rec, include_immatures, now));
                assert forall|id: Seq<char>|
                    #[trigger] eligible_ids(post, include_immatures, now).contains(id) implies
                    eligible_ids(pre, include_immatures, now).contains(id) by {
                    let w = choose|w: int|
                        0 <= w < post.len() && eligible(#[trigger] post[w], include_immatures, now)
                            && post[w].claim_id@ == id;
                    assert(pre[w] == post[w]);
                }
            }
        }
        i = i + 1;
    }
    proof {
        assert(records@.take(n as int) =~= records@);
    }
    out
}

/// Relies on `chrono::Utc::now` (through `DateTime::timestamp`) for the
/// current unix timestamp.  The clock is outside this core, so nothing
/// is promised of the reading.
#[verifier::external_body]
fn unix_time_now() -> (r: i64) {
    chrono::Utc::now().timestamp()
}

/// Lists inheritances as the operation presents them: records still
/// immature at the present moment are dropped unless `immatures` keeps
/// them, and the rest aggregate per claim (or stay one row per record in
/// details mode).  The clock is read once; the aggregation holds for
/// whatever it reported.
pub fn list_inheritances(
    records: &Vec<InheritanceRecord>,
    immatures: bool,
    details: bool,
) -> (out: Vec<AggregatedInheritance>)
    requires
        sum_values(records@) <= u64::MAX,
    ensures
        exists|now: u64| aggregate_post(out@, records@, immatures, details, now),
{
    let now_signed = unix_time_now();
    let now: u64 = if now_signed < 0 {
        0
    } else {
        now_signed as u64
    };
    let out = aggregate(records, immatures, details, now);
    proof {
        assert(aggregate_post(out@, records@, immatures, details, now));
    }
    out
}

} // verus!
