use heritage_cli::amounts::{display_denomination, AmountDenomination};
use heritage_cli::errors::Error;
use heritage_cli::policies::{select_unregistered_policies, PolicyCandidate};

#[test]
fn denomination_thresholds_are_exact() {
    assert_eq!(display_denomination(10_000_000), AmountDenomination::Bitcoin);
    assert_eq!(display_denomination(9_999_999), AmountDenomination::MilliBitcoin);
    assert_eq!(display_denomination(10_000), AmountDenomination::MilliBitcoin);
    assert_eq!(display_denomination(9_999), AmountDenomination::Satoshi);
    assert_eq!(display_denomination(0), AmountDenomination::Satoshi);
}

#[test]
fn only_unregistered_policies_are_selected() {
    let candidates = vec![
        PolicyCandidate { policy: "wpkh(a)".to_owned(), account_id: "acct-a".to_owned() },
        PolicyCandidate { policy: "wpkh(b)".to_owned(), account_id: "acct-b".to_owned() },
        PolicyCandidate { policy: "wpkh(c)".to_owned(), account_id: "acct-c".to_owned() },
    ];
    let registered = vec!["acct-b".to_owned()];
    assert_eq!(
        select_unregistered_policies(&candidates, &registered),
        vec!["wpkh(a)".to_owned(), "wpkh(c)".to_owned()]
    );
}

#[test]
fn nothing_registered_selects_everything() {
    let candidates = vec![
        PolicyCandidate { policy: "wpkh(a)".to_owned(), account_id: "acct-a".to_owned() },
    ];
    assert_eq!(select_unregistered_policies(&candidates, &vec![]), vec!["wpkh(a)".to_owned()]);
}

#[test]
fn error_messages_are_stable() {
    assert_eq!(
        Error::AmbiguousDrainTarget.message(),
        "Exactly one recipient is allowed when using amount 'all'"
    );
    assert_eq!(Error::PasswordMismatch.message(), "Passwords did not match");
}
