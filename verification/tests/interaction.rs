use heritage_cli::bootstrap::{StoredKeyProvider, StoredOnlineWallet};
use heritage_cli::interaction::{
    format_user_code, join_mnemonic_words, login_verification_url, parse_confirmation,
    plan_heir_wallet_remove_confirmations, plan_wallet_remove_confirmations, removal_approved,
    ConfirmationKind,
};

#[test]
fn only_a_literal_yes_confirms() {
    assert!(parse_confirmation("yes"));
    assert!(parse_confirmation("yes\n"));
    assert!(parse_confirmation("yes\r\n"));
    assert!(!parse_confirmation("YES"));
    assert!(!parse_confirmation("no"));
    assert!(!parse_confirmation(""));
    assert!(!parse_confirmation("yes "));
}

#[test]
fn wallet_removal_asks_everything_for_a_local_seed() {
    let plan = plan_wallet_remove_confirmations(
        &StoredKeyProvider::Local { password_gated: true },
        &StoredOnlineWallet::Service,
    );
    assert_eq!(
        plan,
        vec![
            ConfirmationKind::SeedBackedUp,
            ConfirmationKind::DescriptorsBackedUp,
            ConfirmationKind::BothNecessary,
            ConfirmationKind::FinalConfirmation,
        ]
    );
}

#[test]
fn wallet_removal_skips_the_seed_question_for_a_device() {
    let plan = plan_wallet_remove_confirmations(&StoredKeyProvider::Ledger, &StoredOnlineWallet::NoOnlineWallet);
    assert_eq!(
        plan,
        vec![ConfirmationKind::BothNecessary, ConfirmationKind::FinalConfirmation]
    );
}

#[test]
fn heir_wallet_removal_respects_the_skip_flag() {
    assert!(plan_heir_wallet_remove_confirmations(&StoredKeyProvider::Ledger, true).is_empty());
    assert_eq!(
        plan_heir_wallet_remove_confirmations(&StoredKeyProvider::NoKeyProvider, false),
        vec![ConfirmationKind::FinalConfirmation]
    );
    assert_eq!(
        plan_heir_wallet_remove_confirmations(
            &StoredKeyProvider::Local { password_gated: false },
            false
        ),
        vec![ConfirmationKind::SeedBackedUp, ConfirmationKind::FinalConfirmation]
    );
}

#[test]
fn one_declined_confirmation_cancels() {
    assert!(removal_approved(&vec![true, true, true]));
    assert!(!removal_approved(&vec![true, false, true]));
    assert!(removal_approved(&vec![]));
}

#[test]
fn login_url_carries_the_user_code() {
    assert_eq!(
        login_verification_url("https://auth.example/activate", "ABCD1234"),
        "https://auth.example/activate?user_code=ABCD1234"
    );
}

#[test]
fn user_codes_read_in_two_halves() {
    assert_eq!(format_user_code("ABCD1234"), "ABCD-1234");
    assert_eq!(format_user_code("WXYZ"), "WXYZ-");
}

#[test]
fn mnemonic_words_join_with_single_spaces() {
    let words = vec!["abandon".to_owned(), "ability".to_owned(), "able".to_owned()];
    assert_eq!(join_mnemonic_words(&words), "abandon ability able");
    assert_eq!(join_mnemonic_words(&vec!["zoo".to_owned()]), "zoo");
    assert_eq!(join_mnemonic_words(&vec![]), "");
}
