use heritage_cli::capability::{resolve_heir_wallet, resolve_service, resolve_wallet};
use heritage_cli::operations::{
    HeirWalletSubcmd, ServiceSubcmd, WalletAXpubSubcmd, WalletLedgerPolicySubcmd, WalletSubcmd,
};

fn send_bitcoins(sign: bool, broadcast: bool) -> WalletSubcmd {
    WalletSubcmd::SendBitcoins {
        recipient: vec![],
        fee_rate: None,
        fee_absolute: None,
        include_list: vec![],
        exclude_list: vec![],
        include_only: false,
        disable_rbf: false,
        sign,
        broadcast,
        skip_confirmation: false,
    }
}

#[test]
fn sync_needs_observer_and_raw_provider_but_no_key() {
    let r = resolve_wallet(&WalletSubcmd::Sync);
    assert!(!r.needs_key_backend);
    assert!(r.needs_chain_observer);
    assert!(r.needs_raw_chain_provider);
}

#[test]
fn balance_needs_only_the_observer() {
    let r = resolve_wallet(&WalletSubcmd::Balance);
    assert!(!r.needs_key_backend);
    assert!(r.needs_chain_observer);
    assert!(!r.needs_raw_chain_provider);
}

#[test]
fn fingerprint_needs_nothing() {
    let r = resolve_wallet(&WalletSubcmd::Fingerprint);
    assert!(!r.needs_key_backend);
    assert!(!r.needs_chain_observer);
    assert!(!r.needs_raw_chain_provider);
}

#[test]
fn plain_send_does_not_touch_the_key_backend() {
    let r = resolve_wallet(&send_bitcoins(false, false));
    assert!(!r.needs_key_backend);
    assert!(r.needs_chain_observer);
    assert!(!r.needs_raw_chain_provider);
}

#[test]
fn signing_send_needs_the_key_backend() {
    let r = resolve_wallet(&send_bitcoins(true, false));
    assert!(r.needs_key_backend);
    assert!(!r.needs_raw_chain_provider);
}

#[test]
fn broadcasting_send_needs_the_raw_provider() {
    let r = resolve_wallet(&send_bitcoins(true, true));
    assert!(r.needs_key_backend);
    assert!(r.needs_raw_chain_provider);
}

#[test]
fn local_rename_suppresses_the_observer() {
    let local = resolve_wallet(&WalletSubcmd::Rename {
        new_name: "n".to_owned(),
        local_only: true,
    });
    assert!(!local.needs_chain_observer);
    let remote = resolve_wallet(&WalletSubcmd::Rename {
        new_name: "n".to_owned(),
        local_only: false,
    });
    assert!(remote.needs_chain_observer);
}

#[test]
fn sign_psbt_defers_broadcast_needs() {
    let plain = resolve_wallet(&WalletSubcmd::SignPsbt {
        psbt: "p".to_owned(),
        broadcast: false,
        skip_confirmation: false,
    });
    assert!(plain.needs_key_backend);
    assert!(!plain.needs_chain_observer);
    assert!(!plain.needs_raw_chain_provider);
    let chained = resolve_wallet(&WalletSubcmd::SignPsbt {
        psbt: "p".to_owned(),
        broadcast: true,
        skip_confirmation: false,
    });
    assert!(chained.needs_chain_observer);
    assert!(chained.needs_raw_chain_provider);
}

#[test]
fn xpub_generation_is_offline() {
    let r = resolve_wallet(&WalletSubcmd::AccountXpubs {
        subcmd: WalletAXpubSubcmd::Generate { start: 0, end: 20 },
    });
    assert!(r.needs_key_backend);
    assert!(!r.needs_chain_observer);
}

#[test]
fn xpub_auto_add_needs_both_components() {
    let r = resolve_wallet(&WalletSubcmd::AccountXpubs {
        subcmd: WalletAXpubSubcmd::AutoAdd { count: 20 },
    });
    assert!(r.needs_key_backend);
    assert!(r.needs_chain_observer);
}

#[test]
fn policy_registration_is_offline() {
    let r = resolve_wallet(&WalletSubcmd::LedgerPolicies {
        subcmd: WalletLedgerPolicySubcmd::Register { policies: vec![] },
    });
    assert!(r.needs_key_backend);
    assert!(!r.needs_chain_observer);
}

#[test]
fn policy_listing_is_online_only() {
    let r = resolve_wallet(&WalletSubcmd::LedgerPolicies {
        subcmd: WalletLedgerPolicySubcmd::List,
    });
    assert!(!r.needs_key_backend);
    assert!(r.needs_chain_observer);
}

#[test]
fn listing_inheritances_needs_only_the_provider() {
    let r = resolve_heir_wallet(&HeirWalletSubcmd::ListInheritances {
        immatures: false,
        details: false,
    });
    assert!(!r.needs_key_backend);
    assert!(r.needs_chain_observer);
    assert!(!r.needs_raw_chain_provider);
}

#[test]
fn spending_an_inheritance_scales_with_its_flags() {
    let plain = resolve_heir_wallet(&HeirWalletSubcmd::SpendInheritance {
        id: "H1".to_owned(),
        recipient: "addr".to_owned(),
        sign: false,
        broadcast: false,
        skip_confirmation: false,
    });
    assert!(!plain.needs_key_backend);
    assert!(plain.needs_chain_observer);
    assert!(!plain.needs_raw_chain_provider);
    let full = resolve_heir_wallet(&HeirWalletSubcmd::SpendInheritance {
        id: "H1".to_owned(),
        recipient: "addr".to_owned(),
        sign: true,
        broadcast: true,
        skip_confirmation: false,
    });
    assert!(full.needs_key_backend);
    assert!(full.needs_raw_chain_provider);
}

#[test]
fn heir_mnemonic_needs_the_key_backend_only() {
    let r = resolve_heir_wallet(&HeirWalletSubcmd::Mnemonic);
    assert!(r.needs_key_backend);
    assert!(!r.needs_chain_observer);
}

#[test]
fn service_config_skips_the_client() {
    assert!(!resolve_service(&ServiceSubcmd::Config { set: true }));
    assert!(resolve_service(&ServiceSubcmd::Login));
    assert!(resolve_service(&ServiceSubcmd::ListHeritages));
}
