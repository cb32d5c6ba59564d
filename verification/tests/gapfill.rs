use heritage_cli::bootstrap::{StoredKeyProvider, StoredOnlineWallet};
use heritage_cli::gapfill::{filter_account_keys, plan_derivation, should_auto_feed, AccountKeyStatus};

fn key(index: u32, used: bool) -> AccountKeyStatus {
    AccountKeyStatus { index, used }
}

#[test]
fn plan_refills_past_the_last_seen_index() {
    let statuses = vec![key(0, true), key(1, true), key(2, false)];
    assert_eq!(plan_derivation(&statuses, 20), (3, 22));
}

#[test]
fn plan_starts_at_zero_for_an_empty_report() {
    assert_eq!(plan_derivation(&vec![], 20), (0, 20));
}

#[test]
fn plan_is_empty_when_the_pool_is_full() {
    let statuses = vec![key(0, true), key(1, false), key(2, false)];
    let (start, end) = plan_derivation(&statuses, 2);
    assert_eq!((start, end), (3, 3));
    assert!(start == end, "an empty range must skip derivation entirely");
}

#[test]
fn plan_never_collides_with_known_indices() {
    let statuses = vec![key(7, false), key(3, true), key(5, true)];
    let (start, _) = plan_derivation(&statuses, 4);
    assert_eq!(start, 8);
    assert!(statuses.iter().all(|s| s.index < start));
}

#[test]
fn plan_counts_unused_keys_whatever_their_position() {
    let statuses = vec![key(0, false), key(1, true), key(2, false), key(9, true)];
    assert_eq!(plan_derivation(&statuses, 5), (10, 13));
}

#[test]
fn listing_keeps_only_the_selected_statuses() {
    let keys = vec![key(0, true), key(1, false), key(2, true)];
    assert_eq!(filter_account_keys(&keys, true, true), keys);
    assert_eq!(filter_account_keys(&keys, true, false), vec![key(0, true), key(2, true)]);
    assert_eq!(filter_account_keys(&keys, false, true), vec![key(1, false)]);
    assert_eq!(filter_account_keys(&keys, false, false), vec![]);
}

#[test]
fn auto_feed_needs_both_backends_and_no_opt_out() {
    let local = StoredKeyProvider::Local { password_gated: false };
    assert!(should_auto_feed(false, &local, &StoredOnlineWallet::Service));
    assert!(!should_auto_feed(true, &local, &StoredOnlineWallet::Service));
    assert!(!should_auto_feed(false, &StoredKeyProvider::NoKeyProvider, &StoredOnlineWallet::Service));
    assert!(!should_auto_feed(false, &local, &StoredOnlineWallet::NoOnlineWallet));
}
