use heritage_cli::aggregate::{aggregate, list_inheritances, AggregatedInheritance, InheritanceRecord};

fn record(
    claim_id: &str,
    value: u64,
    maturity: u64,
    next_heir_maturity: Option<u64>,
) -> InheritanceRecord {
    InheritanceRecord { claim_id: claim_id.to_owned(), value, maturity, next_heir_maturity }
}

fn row<'a>(out: &'a [AggregatedInheritance], claim_id: &str) -> &'a AggregatedInheritance {
    out.iter().find(|r| r.claim_id == claim_id).expect("claim row missing")
}

#[test]
fn two_records_of_one_claim_merge() {
    let records = vec![
        record("H1", 10_000, 100, None),
        record("H1", 25_000, 200, Some(300)),
    ];
    let out = aggregate(&records, false, false, 1_000);
    assert_eq!(out.len(), 1);
    let r = row(&out, "H1");
    assert_eq!(r.total_value, 35_000);
    assert_eq!(r.maturity, 200);
    assert_eq!(r.next_heir_maturity, Some(300));
}

#[test]
fn merge_is_order_independent() {
    let a = vec![
        record("H1", 10_000, 100, None),
        record("H2", 7, 50, Some(60)),
        record("H1", 25_000, 200, Some(300)),
    ];
    let b = vec![a[2].clone(), a[0].clone(), a[1].clone()];
    let out_a = aggregate(&a, false, false, 1_000);
    let out_b = aggregate(&b, false, false, 1_000);
    assert_eq!(out_a.len(), out_b.len());
    for r in &out_a {
        let s = row(&out_b, &r.claim_id);
        assert_eq!(r.total_value, s.total_value);
        assert_eq!(r.maturity, s.maturity);
        assert_eq!(r.next_heir_maturity, s.next_heir_maturity);
    }
}

#[test]
fn total_is_conserved_per_claim() {
    let records = vec![
        record("H1", 1, 10, None),
        record("H2", 2, 10, None),
        record("H1", 3, 10, None),
        record("H1", 4, 10, None),
    ];
    let out = aggregate(&records, false, false, 1_000);
    assert_eq!(out.len(), 2);
    assert_eq!(row(&out, "H1").total_value, 1 + 3 + 4);
    assert_eq!(row(&out, "H2").total_value, 2);
}

#[test]
fn immature_records_are_dropped() {
    let records = vec![
        record("H1", 10_000, 100, None),
        record("H1", 25_000, 2_000, Some(300)),
    ];
    let out = aggregate(&records, false, false, 1_000);
    assert_eq!(out.len(), 1);
    let r = row(&out, "H1");
    assert_eq!(r.total_value, 10_000);
    assert_eq!(r.maturity, 100);
    assert_eq!(r.next_heir_maturity, None);
}

#[test]
fn immature_records_can_be_kept() {
    let records = vec![
        record("H1", 10_000, 100, None),
        record("H1", 25_000, 2_000, Some(300)),
    ];
    let out = aggregate(&records, true, false, 1_000);
    assert_eq!(row(&out, "H1").total_value, 35_000);
}

#[test]
fn next_heir_maturity_takes_the_minimum() {
    let records = vec![
        record("H1", 1, 10, Some(500)),
        record("H1", 1, 10, Some(300)),
        record("H1", 1, 10, None),
    ];
    let out = aggregate(&records, false, false, 1_000);
    assert_eq!(row(&out, "H1").next_heir_maturity, Some(300));
}

#[test]
fn details_mode_keeps_one_row_per_record() {
    let records = vec![
        record("H1", 10_000, 100, None),
        record("H1", 25_000, 200, Some(300)),
    ];
    let out = aggregate(&records, false, true, 1_000);
    assert_eq!(out.len(), 2);
    assert_eq!(out[0].claim_id, "H1");
    assert_eq!(out[1].claim_id, "H1");
    assert_eq!(out[0].total_value, 10_000);
    assert_eq!(out[1].total_value, 25_000);
}

#[test]
fn empty_input_gives_empty_output() {
    let out = aggregate(&vec![], false, false, 1_000);
    assert!(out.is_empty());
}

#[test]
fn totals_reach_the_full_range() {
    let records = vec![
        record("H1", u64::MAX - 5, 10, None),
        record("H1", 5, 10, None),
    ];
    let out = aggregate(&records, false, false, 1_000);
    assert_eq!(row(&out, "H1").total_value, u64::MAX);
}

#[test]
fn listing_aggregates_matured_records() {
    // Records that matured long ago are eligible whatever the clock says.
    let records = vec![
        record("H1", 10_000, 0, None),
        record("H1", 25_000, 0, Some(300)),
    ];
    let out = list_inheritances(&records, false, false);
    assert_eq!(out.len(), 1);
    assert_eq!(out[0].total_value, 35_000);
}
