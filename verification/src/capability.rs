//! Capability resolution.
//!
//! For each requested operation, the minimal set of backends that must be
//! live.  The mapping is a pure, total, explicit function of the operation:
//! every variant appears once, so adding a variant without deciding its
//! requirements is a compile-time error.

use vstd::prelude::*;
use crate::operations::{
    HeirWalletSubcmd, ServiceSubcmd, WalletAXpubSubcmd, WalletLedgerPolicySubcmd, WalletSubcmd,
};

verus! {

/// Which backends an operation needs.
#[derive(Clone, Copy, PartialEq, Eq, Structural, Debug)]
pub struct CapabilityRequirement {
    /// The key-management backend must be live (the operation signs or
    /// derives keys).
    pub needs_key_backend: bool,
    /// The chain-observation backend must be live (the operation reads or
    /// changes chain-facing state).
    pub needs_chain_observer: bool,
    /// A raw chain provider must be live (the operation talks to a
    /// Bitcoin or Electrum node directly).
    pub needs_raw_chain_provider: bool,
}

/// Whether a wallet operation needs the chain-observation backend.
pub open spec fn wallet_needs_chain_observer(op: WalletSubcmd) -> bool {
    match op {
        WalletSubcmd::Create { .. } => true,
        WalletSubcmd::Rename { local_only, .. } => !local_only,
        WalletSubcmd::Backup { .. } => true,
        WalletSubcmd::Remove => false,
        WalletSubcmd::NewAddress => true,
        WalletSubcmd::Addresses => true,
        WalletSubcmd::Transactions => true,
        WalletSubcmd::Utxos => true,
        WalletSubcmd::LedgerPolicies { subcmd } => match subcmd {
            WalletLedgerPolicySubcmd::List => true,
            WalletLedgerPolicySubcmd::ListRegistered => false,
            WalletLedgerPolicySubcmd::Register { .. } => false,
            WalletLedgerPolicySubcmd::AutoRegister => true,
        },
        WalletSubcmd::HeritageConfigs => true,
        WalletSubcmd::AccountXpubs { subcmd } => match subcmd {
            WalletAXpubSubcmd::Generate { .. } => false,
            WalletAXpubSubcmd::ListAdded { .. } => true,
            WalletAXpubSubcmd::Add { .. } => true,
            WalletAXpubSubcmd::AutoAdd { .. } => true,
        },
        WalletSubcmd::Sync => true,
        WalletSubcmd::Balance => true,
        WalletSubcmd::BlockInclusionObjective { .. } => true,
        WalletSubcmd::Fingerprint => false,
        WalletSubcmd::Mnemonic { .. } => false,
        WalletSubcmd::HeirConfig => false,
        WalletSubcmd::SendBitcoins { .. } => true,
        WalletSubcmd::SignPsbt { broadcast, .. } => broadcast,
        WalletSubcmd::BroadcastPsbt { .. } => true,
    }
}

/// Whether a wallet operation needs the key-management backend.
pub open spec fn wallet_needs_key_backend(op: WalletSubcmd) -> bool {
    match op {
        WalletSubcmd::Create { .. } => true,
        WalletSubcmd::Rename { .. } => false,
        WalletSubcmd::Backup { .. } => false,
        WalletSubcmd::Remove => false,
        WalletSubcmd::NewAddress => false,
        WalletSubcmd::Addresses => false,
        WalletSubcmd::Transactions => false,
        WalletSubcmd::Utxos => false,
        WalletSubcmd::LedgerPolicies { subcmd } => match subcmd {
            WalletLedgerPolicySubcmd::List => false,
            WalletLedgerPolicySubcmd::ListRegistered => false,
            WalletLedgerPolicySubcmd::Register { .. } => true,
            WalletLedgerPolicySubcmd::AutoRegister => true,
        },
        WalletSubcmd::HeritageConfigs => false,
        WalletSubcmd::AccountXpubs { subcmd } => match subcmd {
            WalletAXpubSubcmd::Generate { .. } => true,
            WalletAXpubSubcmd::ListAdded { .. } => false,
            WalletAXpubSubcmd::Add { .. } => false,
            WalletAXpubSubcmd::AutoAdd { .. } => true,
        },
        WalletSubcmd::Sync => false,
        WalletSubcmd::Balance => false,
        WalletSubcmd::BlockInclusionObjective { .. } => false,
        WalletSubcmd::Fingerprint => false,
        WalletSubcmd::Mnemonic { .. } => true,
        WalletSubcmd::HeirConfig => true,
        WalletSubcmd::SendBitcoins { sign, .. } => sign,
        WalletSubcmd::SignPsbt { .. } => true,
        WalletSubcmd::BroadcastPsbt { .. } => false,
    }
}

/// Whether a wallet operation needs a raw chain provider.
pub open spec fn wallet_needs_raw_chain_provider(op: WalletSubcmd) -> bool {
    match op {
        WalletSubcmd::Create { .. } => false,
        WalletSubcmd::Rename { .. } => false,
        WalletSubcmd::Backup { .. } => false,
        WalletSubcmd::Remove => false,
        WalletSubcmd::NewAddress => false,
        WalletSubcmd::Addresses => false,
        WalletSubcmd::Transactions => false,
        WalletSubcmd::Utxos => false,
        WalletSubcmd::LedgerPolicies { .. } => false,
        WalletSubcmd::HeritageConfigs => false,
        WalletSubcmd::AccountXpubs { .. } => false,
        WalletSubcmd::Sync => true,
        WalletSubcmd::Balance => false,
        WalletSubcmd::BlockInclusionObjective { .. } => false,
        WalletSubcmd::Fingerprint => false,
        WalletSubcmd::Mnemonic { .. } => false,
        WalletSubcmd::HeirConfig => false,
        WalletSubcmd::SendBitcoins { broadcast, .. } => broadcast,
        WalletSubcmd::SignPsbt { broadcast, .. } => broadcast,
        WalletSubcmd::BroadcastPsbt { .. } => true,
    }
}

/// The requirement set of a wallet operation.
pub open spec fn wallet_requirement(op: WalletSubcmd) -> CapabilityRequirement {
    CapabilityRequirement {
        needs_key_backend: wallet_needs_key_backend(op),
        needs_chain_observer: wallet_needs_chain_observer(op),
        needs_raw_chain_provider: wallet_needs_raw_chain_provider(op),
    }
}

/// Resolves the backends a wallet operation needs.
pub fn resolve_wallet(op: &WalletSubcmd) -> (r: CapabilityRequirement)
    ensures
        r == wallet_requirement(*op),
{
    let needs_chain_observer = match op {
        WalletSubcmd::Create { .. } => true,
        WalletSubcmd::Rename { local_only, .. } => !*local_only,
        WalletSubcmd::Backup { .. } => true,
        WalletSubcmd::Remove => false,
        WalletSubcmd::NewAddress => true,
        WalletSubcmd::Addresses => true,
        WalletSubcmd::Transactions => true,
        WalletSubcmd::Utxos => true,
        WalletSubcmd::LedgerPolicies { subcmd } => match subcmd {
            WalletLedgerPolicySubcmd::List => true,
            WalletLedgerPolicySubcmd::ListRegistered => false,
            WalletLedgerPolicySubcmd::Register { .. } => false,
            WalletLedgerPolicySubcmd::AutoRegister => true,
        },
        WalletSubcmd::HeritageConfigs => true,
        WalletSubcmd::AccountXpubs { subcmd } => match subcmd {
            WalletAXpubSubcmd::Generate { .. } => false,
            WalletAXpubSubcmd::ListAdded { .. } => true,
            WalletAXpubSubcmd::Add { .. } => true,
            WalletAXpubSubcmd::AutoAdd { .. } => true,
        },
        WalletSubcmd::Sync => true,
        WalletSubcmd::Balance => true,
        WalletSubcmd::BlockInclusionObjective { .. } => true,
        WalletSubcmd::Fingerprint => false,
        WalletSubcmd::Mnemonic { .. } => false,
        WalletSubcmd::HeirConfig => false,
        WalletSubcmd::SendBitcoins { .. } => true,
        WalletSubcmd::SignPsbt { broadcast, .. } => *broadcast,
        WalletSubcmd::BroadcastPsbt { .. } => true,
    };
    let needs_key_backend = match op {
        WalletSubcmd::Create { .. } => true,
        WalletSubcmd::Rename { .. } => false,
        WalletSubcmd::Backup { .. } => false,
        WalletSubcmd::Remove => false,
        WalletSubcmd::NewAddress => false,
        WalletSubcmd::Addresses => false,
        WalletSubcmd::Transactions => false,
        WalletSubcmd::Utxos => false,
        WalletSubcmd::LedgerPolicies { subcmd } => match subcmd {
            WalletLedgerPolicySubcmd::List => false,
            WalletLedgerPolicySubcmd::ListRegistered => false,
            WalletLedgerPolicySubcmd::Register { .. } => true,
            WalletLedgerPolicySubcmd::AutoRegister => true,
        },
        WalletSubcmd::HeritageConfigs => false,
        WalletSubcmd::AccountXpubs { subcmd } => match subcmd {
            WalletAXpubSubcmd::Generate { .. } => true,
            WalletAXpubSubcmd::ListAdded { .. } => false,
            WalletAXpubSubcmd::Add { .. } => false,
            WalletAXpubSubcmd::AutoAdd { .. } => true,
        },
        WalletSubcmd::Sync => false,
        WalletSubcmd::Balance => false,
        WalletSubcmd::BlockInclusionObjective { .. } => false,
        WalletSubcmd::Fingerprint => false,
        WalletSubcmd::Mnemonic { .. } => true,
        WalletSubcmd::HeirConfig => true,
        WalletSubcmd::SendBitcoins { sign, .. } => *sign,
        WalletSubcmd::SignPsbt { .. } => true,
        WalletSubcmd::BroadcastPsbt { .. } => false,
    };
    let needs_raw_chain_provider = match op {
        WalletSubcmd::Create { .. } => false,
        WalletSubcmd::Rename { .. } => false,
        WalletSubcmd::Backup { .. } => false,
        WalletSubcmd::Remove => false,
        WalletSubcmd::NewAddress => false,
        WalletSubcmd::Addresses => false,
        WalletSubcmd::Transactions => false,
        WalletSubcmd::Utxos => false,
        WalletSubcmd::LedgerPolicies { .. } => false,
        WalletSubcmd::HeritageConfigs => false,
        WalletSubcmd::AccountXpubs { .. } => false,
        WalletSubcmd::Sync => true,
        WalletSubcmd::Balance => false,
        WalletSubcmd::BlockInclusionObjective { .. } => false,
        WalletSubcmd::Fingerprint => false,
        WalletSubcmd::Mnemonic { .. } => false,
        WalletSubcmd::HeirConfig => false,
        WalletSubcmd::SendBitcoins { broadcast, .. } => *broadcast,
        WalletSubcmd::SignPsbt { broadcast, .. } => *broadcast,
        WalletSubcmd::BroadcastPsbt { .. } => true,
    };
    CapabilityRequirement { needs_key_backend, needs_chain_observer, needs_raw_chain_provider }
}

/// Whether an heir-wallet operation needs the heritage/claim backend
/// (its chain-observation role).
pub open spec fn heir_wallet_needs_chain_observer(op: HeirWalletSubcmd) -> bool {
    match op {
        HeirWalletSubcmd::Create { .. } => true,
        HeirWalletSubcmd::Rename { .. } => false,
        HeirWalletSubcmd::Remove { .. } => false,
        HeirWalletSubcmd::Fingerprint => false,
        HeirWalletSubcmd::Mnemonic => false,
        HeirWalletSubcmd::HeirConfig => false,
        HeirWalletSubcmd::Sync => true,
        HeirWalletSubcmd::ListInheritances { .. } => true,
        HeirWalletSubcmd::SpendInheritance { .. } => true,
        HeirWalletSubcmd::SignPsbt { broadcast, .. } => broadcast,
        HeirWalletSubcmd::BroadcastPsbt { .. } => true,
    }
}

/// Whether an heir-wallet operation needs the key-management backend.
pub open spec fn heir_wallet_needs_key_backend(op: HeirWalletSubcmd) -> bool {
    match op {
        HeirWalletSubcmd::Create { .. } => true,
        HeirWalletSubcmd::Rename { .. } => false,
        HeirWalletSubcmd::Remove { .. } => false,
        HeirWalletSubcmd::Fingerprint => false,
        HeirWalletSubcmd::Mnemonic => true,
        HeirWalletSubcmd::HeirConfig => true,
        HeirWalletSubcmd::Sync => false,
        HeirWalletSubcmd::ListInheritances { .. } => false,
        HeirWalletSubcmd::SpendInheritance { sign, .. } => sign,
        HeirWalletSubcmd::SignPsbt { .. } => true,
        HeirWalletSubcmd::BroadcastPsbt { .. } => false,
    }
}

/// Whether an heir-wallet operation needs a raw chain provider.
pub open spec fn heir_wallet_needs_raw_chain_provider(op: HeirWalletSubcmd) -> bool {
    match op {
        HeirWalletSubcmd::Create { .. } => false,
        HeirWalletSubcmd::Rename { .. } => false,
        HeirWalletSubcmd::Remove { .. } => false,
        HeirWalletSubcmd::Fingerprint => false,
        HeirWalletSubcmd::Mnemonic => false,
        HeirWalletSubcmd::HeirConfig => false,
        HeirWalletSubcmd::Sync => true,
        HeirWalletSubcmd::ListInheritances { .. } => false,
        HeirWalletSubcmd::SpendInheritance { broadcast, .. } => broadcast,
        HeirWalletSubcmd::SignPsbt { broadcast, .. } => broadcast,
        HeirWalletSubcmd::BroadcastPsbt { .. } => true,
    }
}

/// The requirement set of an heir-wallet operation.
pub open spec fn heir_wallet_requirement(op: HeirWalletSubcmd) -> CapabilityRequirement {
    CapabilityRequirement {
        needs_key_backend: heir_wallet_needs_key_backend(op),
        needs_chain_observer: heir_wallet_needs_chain_observer(op),
        needs_raw_chain_provider: heir_wallet_needs_raw_chain_provider(op),
    }
}

/// Resolves the backends an heir-wallet operation needs.
pub fn resolve_heir_wallet(op: &HeirWalletSubcmd) -> (r: CapabilityRequirement)
    ensures
        r == heir_wallet_requirement(*op),
{
    let needs_chain_observer = match op {
        HeirWalletSubcmd::Create { .. } => true,
        HeirWalletSubcmd::Rename { .. } => false,
        HeirWalletSubcmd::Remove { .. } => false,
        HeirWalletSubcmd::Fingerprint => false,
        HeirWalletSubcmd::Mnemonic => false,
        HeirWalletSubcmd::HeirConfig => false,
        HeirWalletSubcmd::Sync => true,
        HeirWalletSubcmd::ListInheritances { .. } => true,
        HeirWalletSubcmd::SpendInheritance { .. } => true,
        HeirWalletSubcmd::SignPsbt { broadcast, .. } => *broadcast,
        HeirWalletSubcmd::BroadcastPsbt { .. } => true,
    };
    let needs_key_backend = match op {
        HeirWalletSubcmd::Create { .. } => true,
        HeirWalletSubcmd::Rename { .. } => false,
        HeirWalletSubcmd::Remove { .. } => false,
        HeirWalletSubcmd::Fingerprint => false,
        HeirWalletSubcmd::Mnemonic => true,
        HeirWalletSubcmd::HeirConfig => true,
        HeirWalletSubcmd::Sync => false,
        HeirWalletSubcmd::ListInheritances { .. } => false,
        HeirWalletSubcmd::SpendInheritance { sign, .. } => *sign,
        HeirWalletSubcmd::SignPsbt { .. } => true,
        HeirWalletSubcmd::BroadcastPsbt { .. } => false,
    };
    let needs_raw_chain_provider = match op {
        HeirWalletSubcmd::Create { .. } => false,
        HeirWalletSubcmd::Rename { .. } => false,
        HeirWalletSubcmd::Remove { .. } => false,
        HeirWalletSubcmd::Fingerprint => false,
        HeirWalletSubcmd::Mnemonic => false,
        HeirWalletSubcmd::HeirConfig => false,
        HeirWalletSubcmd::Sync => true,
        HeirWalletSubcmd::ListInheritances { .. } => false,
        HeirWalletSubcmd::SpendInheritance { broadcast, .. } => *broadcast,
        HeirWalletSubcmd::SignPsbt { broadcast, .. } => *broadcast,
        HeirWalletSubcmd::BroadcastPsbt { .. } => true,
    };
    CapabilityRequirement { needs_key_backend, needs_chain_observer, needs_raw_chain_provider }
}

/// Whether a service operation needs an authenticated service client at
/// all.  Showing or persisting the local configuration does not.
pub open spec fn service_needs_client(op: ServiceSubcmd) -> bool {
    match op {
        ServiceSubcmd::Login => true,
        ServiceSubcmd::Logout => true,
        ServiceSubcmd::ListWallets => true,
        ServiceSubcmd::Wallet { .. } => true,
        ServiceSubcmd::ListHeirs => true,
        ServiceSubcmd::Heir { .. } => true,
        ServiceSubcmd::ListHeritages => true,
        ServiceSubcmd::Config { .. } => false,
    }
}

/// Resolves whether a service operation needs the service client.
pub fn resolve_service(op: &ServiceSubcmd) -> (r: bool)
    ensures
        r == service_needs_client(*op),
{
    match op {
        ServiceSubcmd::Login => true,
        ServiceSubcmd::Logout => true,
        ServiceSubcmd::ListWallets => true,
        ServiceSubcmd::Wallet { .. } => true,
        ServiceSubcmd::ListHeirs => true,
        ServiceSubcmd::Heir { .. } => true,
        ServiceSubcmd::ListHeritages => true,
        ServiceSubcmd::Config { .. } => false,
    }
}

} // verus!
