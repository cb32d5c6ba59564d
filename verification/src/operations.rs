//! The operation surface of the tool, as plain data.
//!
//! Each enum mirrors one subcommand family.  Payloads that only backends
//! understand (descriptor backups, partially signed transactions, extended
//! public keys, policies) are carried as their textual command-line form;
//! the core never looks inside them.

use vstd::prelude::*;
use crate::txbuild::{FeeRate, Recipient};

verus! {

/// The kind of chain-observation backend a wallet uses.
#[derive(Clone, Copy, PartialEq, Eq, Structural, Debug)]
pub enum OnlineWalletType {
    /// No online wallet: the wallet cannot sync or generate addresses.
    NoOnlineWallet,
    /// The remote heritage service acts as the online wallet.
    Service,
    /// A local online wallet synced against an Electrum or Bitcoin node.
    Local,
}

/// The kind of key-management backend a wallet uses.
#[derive(Clone, Copy, PartialEq, Eq, Structural, Debug)]
pub enum KeyProviderType {
    /// No key provider: the wallet cannot sign (watch-only).
    NoKeyProvider,
    /// Seed stored in the local database, optionally password-gated.
    Local,
    /// A hardware signing device.
    Ledger,
}

/// The kind of heritage/claim backend an heir-wallet uses.
#[derive(Clone, Copy, PartialEq, Eq, Structural, Debug)]
pub enum HeritageProviderType {
    /// No heritage provider: the heir-wallet cannot list claims.
    NoHeritageProvider,
    /// The remote heritage service.
    Service,
    /// A local wallet restored from a descriptors backup.
    Local,
}

/// Account extended-public-key management operations.
#[derive(Clone, Debug)]
pub enum WalletAXpubSubcmd {
    /// Derive keys for the index range `start..end` with the key backend.
    Generate { start: u32, end: u32 },
    /// List the keys the online wallet already watches, by status.
    ListAdded { used: bool, unused: bool },
    /// Feed the given keys to the online wallet.
    Add { account_xpubs: Vec<String> },
    /// Derive and feed enough keys to keep `count` of them unused.
    AutoAdd { count: usize },
}

/// Hardware-device wallet-policy management operations.
#[derive(Clone, Debug)]
pub enum WalletLedgerPolicySubcmd {
    /// List the policies derivable from the online wallet's descriptors.
    List,
    /// List the policies already registered on the device.
    ListRegistered,
    /// Register the given policies on the device.
    Register { policies: Vec<String> },
    /// Register every derivable policy not yet on the device.
    AutoRegister,
}

/// Wallet operations.
#[derive(Clone, Debug)]
pub enum WalletSubcmd {
    /// Create a new wallet from the chosen backend kinds.
    Create {
        online_wallet: OnlineWalletType,
        existing_service_wallet_name: Option<String>,
        existing_service_wallet_fingerprint: Option<u32>,
        existing_service_wallet_id: Option<String>,
        backup: Option<String>,
        backup_file: Option<String>,
        key_provider: KeyProviderType,
        seed: Option<Vec<String>>,
        word_count: Option<usize>,
        no_password: bool,
        no_auto_feed_xpubs: bool,
        block_inclusion_objective: u16,
    },
    /// Rename the wallet, locally and (unless `local_only`) in the service.
    Rename { new_name: String, local_only: bool },
    /// Back up the online wallet's descriptors.
    Backup { file: Option<String>, overwrite: bool },
    /// Remove the wallet from the local database.
    Remove,
    /// Get a new address from the current configuration.
    NewAddress,
    /// List all addresses.
    Addresses,
    /// List past transactions.
    Transactions,
    /// List unspent outputs.
    Utxos,
    /// Manage hardware-device wallet policies.
    LedgerPolicies { subcmd: WalletLedgerPolicySubcmd },
    /// Manage the heritage configuration (all of its operations are
    /// handled by the online wallet alone).
    HeritageConfigs,
    /// Manage account extended public keys.
    AccountXpubs { subcmd: WalletAXpubSubcmd },
    /// Sync from the Bitcoin network.
    Sync,
    /// Show the balance.
    Balance,
    /// Show or set the block inclusion objective.
    BlockInclusionObjective { set: Option<u16> },
    /// Show the wallet's fingerprint.
    Fingerprint,
    /// Show the wallet's mnemonic for backup purposes.
    Mnemonic { i_understand_what_i_am_doing: bool },
    /// Derive an heir configuration usable by another wallet.
    HeirConfig,
    /// Build an unsigned transaction from recipient and fee flags.
    SendBitcoins {
        recipient: Vec<Recipient>,
        fee_rate: Option<FeeRate>,
        fee_absolute: Option<u64>,
        include_list: Vec<String>,
        exclude_list: Vec<String>,
        include_only: bool,
        disable_rbf: bool,
        sign: bool,
        broadcast: bool,
        skip_confirmation: bool,
    },
    /// Sign a partially signed transaction.
    SignPsbt { psbt: String, broadcast: bool, skip_confirmation: bool },
    /// Broadcast a fully signed transaction.
    BroadcastPsbt { psbt: String },
}

/// Heir-wallet operations.
#[derive(Clone, Debug)]
pub enum HeirWalletSubcmd {
    /// Create a new heir-wallet from the chosen backend kinds.
    Create {
        fingerprint: Option<u32>,
        backup: Option<String>,
        backup_file: Option<String>,
        heritage_provider: HeritageProviderType,
        key_provider: KeyProviderType,
        seed: Option<Vec<String>>,
        word_count: Option<usize>,
        with_password: bool,
    },
    /// Rename the heir-wallet in the database.
    Rename { new_name: String },
    /// Remove the heir-wallet from the database.
    Remove { i_understand_what_i_am_doing: bool },
    /// Show the heir-wallet's fingerprint.
    Fingerprint,
    /// Show the heir-wallet's mnemonic for backup purposes.
    Mnemonic,
    /// Derive an heir configuration.
    HeirConfig,
    /// Sync the local heritage provider from the Bitcoin network.
    Sync,
    /// List spendable inheritances.
    ListInheritances { immatures: bool, details: bool },
    /// Build an unsigned transaction spending one inheritance.
    SpendInheritance {
        id: String,
        recipient: String,
        sign: bool,
        broadcast: bool,
        skip_confirmation: bool,
    },
    /// Sign a partially signed transaction.
    SignPsbt { psbt: String, broadcast: bool, skip_confirmation: bool },
    /// Broadcast a fully signed transaction.
    BroadcastPsbt { psbt: String },
}

/// Operations against the remote heritage service itself.  The per-wallet
/// and per-heir service operations keep only the identifier the core reads.
#[derive(Clone, Debug)]
pub enum ServiceSubcmd {
    /// Authenticate with the service and store the session tokens.
    Login,
    /// Discard the stored session tokens.
    Logout,
    /// List the wallets known to the service.
    ListWallets,
    /// Operate on one service-side wallet.
    Wallet { wallet_id: String },
    /// List the heirs declared in the service.
    ListHeirs,
    /// Operate on one service-side heir.
    Heir { heir_id: String },
    /// List the inheritances the service reports.
    ListHeritages,
    /// Show or persist the service configuration.
    Config { set: bool },
}

} // verus!
