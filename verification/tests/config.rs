use heritage_cli::btc::Network;
use heritage_cli::config::{
    choose_blockchain_config, default_data_dir, overlay_service_config, AuthConfig,
    BlockchainProviderConfig, BlockchainProviderGlobalArgs, CliGlobalArgs, DataDir,
    HeritageServiceGlobalArgs, ServiceConfig,
};

fn no_provider_args() -> BlockchainProviderGlobalArgs {
    BlockchainProviderGlobalArgs {
        electrum_uri: None,
        bitcoincore_url: None,
        auth_cookie: None,
        username: None,
        password: None,
    }
}

#[test]
fn default_dir_sits_under_the_home() {
    let d = default_data_dir(Some("/home/alice".to_owned()));
    assert_eq!(d.path, "/home/alice/.heritage-wallet");
    let bare = default_data_dir(None);
    assert_eq!(bare.path, ".heritage-wallet");
}

#[test]
fn default_dir_ends_with_the_wallet_name() {
    let d = DataDir::default();
    assert!(d.to_string().ends_with(".heritage-wallet"));
}

#[test]
fn data_dir_round_trips_through_text() {
    let d = DataDir::from_str("/tmp/wallets");
    assert_eq!(d.to_string(), "/tmp/wallets");
    let _gargs = CliGlobalArgs { network: Network::Regtest, datadir: d };
}

#[test]
fn electrum_flag_wins_the_provider() {
    let mut args = no_provider_args();
    args.electrum_uri = Some("ssl://electrum.example:50002".to_owned());
    args.bitcoincore_url = Some("http://localhost:8332".to_owned());
    let c = BlockchainProviderConfig::try_from(args).unwrap();
    assert_eq!(
        c,
        BlockchainProviderConfig::Electrum { url: "ssl://electrum.example:50002".to_owned() }
    );
}

#[test]
fn bitcoin_core_prefers_the_cookie() {
    let mut args = no_provider_args();
    args.bitcoincore_url = Some("http://localhost:8332".to_owned());
    args.auth_cookie = Some("/var/lib/bitcoind/.cookie".to_owned());
    let c = BlockchainProviderConfig::try_from(args).unwrap();
    assert_eq!(
        c,
        BlockchainProviderConfig::BitcoinCore {
            url: "http://localhost:8332".to_owned(),
            auth: AuthConfig::Cookie { file: "/var/lib/bitcoind/.cookie".to_owned() },
        }
    );
}

#[test]
fn bitcoin_core_falls_back_to_user_and_password() {
    let mut args = no_provider_args();
    args.bitcoincore_url = Some("http://localhost:8332".to_owned());
    args.username = Some("rpc".to_owned());
    args.password = Some("SECRET-REDACTED".to_owned());
    let c = BlockchainProviderConfig::try_from(args).unwrap();
    match c {
        BlockchainProviderConfig::BitcoinCore { auth: AuthConfig::UserPass { username, .. }, .. } => {
            assert_eq!(username, "rpc");
        },
        _ => panic!("expected a Bitcoin Core endpoint"),
    }
}

#[test]
fn no_provider_flags_defer_to_the_stored_config() {
    assert_eq!(BlockchainProviderConfig::try_from(no_provider_args()), Err(()));
}

#[test]
fn provider_precedence_is_flags_then_stored_then_fallback() {
    let flags = BlockchainProviderConfig::Electrum { url: "a".to_owned() };
    let stored = BlockchainProviderConfig::Electrum { url: "b".to_owned() };
    let fallback = BlockchainProviderConfig::Electrum { url: "c".to_owned() };
    assert_eq!(
        choose_blockchain_config(Some(flags.clone()), Some(stored.clone()), fallback.clone()),
        flags
    );
    assert_eq!(
        choose_blockchain_config(None, Some(stored.clone()), fallback.clone()),
        stored
    );
    assert_eq!(choose_blockchain_config(None, None, fallback.clone()), fallback);
}

#[test]
fn service_flags_overlay_the_stored_config() {
    let base = ServiceConfig {
        service_api_url: "https://api.example".to_owned(),
        auth_url: "https://auth.example".to_owned(),
        auth_client_id: "cli".to_owned(),
    };
    let overlaid = overlay_service_config(
        base.clone(),
        HeritageServiceGlobalArgs {
            service_api_url: Some("https://api.other".to_owned()),
            auth_url: None,
            auth_client_id: None,
        },
    );
    assert_eq!(overlaid.service_api_url, "https://api.other");
    assert_eq!(overlaid.auth_url, base.auth_url);
    assert_eq!(overlaid.auth_client_id, base.auth_client_id);
}
