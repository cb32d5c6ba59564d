//! The few Bitcoin-domain facts the core takes from the `bitcoin` crate:
//! parsing denominated amounts and validating addresses against a network.
//! Everything else the core needs about the chain stays behind the
//! backends.

use vstd::prelude::*;

verus! {

/// The Bitcoin network the tool operates on.
#[derive(Clone, Copy, PartialEq, Eq, Structural, Debug)]
pub enum Network {
    Bitcoin,
    Testnet,
    Signet,
    Regtest,
}

/// An injective numbering of the networks, used to state what the
/// address-validation call depends on.
pub open spec fn network_id(n: Network) -> int {
    match n {
        Network::Bitcoin => 0,
        Network::Testnet => 1,
        Network::Signet => 2,
        Network::Regtest => 3,
    }
}

/// What `bitcoin::Amount`'s string parser returns, in satoshi, for a given
/// input: a function of the characters alone.
pub uninterp spec fn parsed_amount(s: Seq<char>) -> Option<u64>;

/// Relies on `bitcoin::Amount`'s `FromStr` (via `from_str_with_denomination`):
/// the parse result depends on the input characters alone; `to_sat` reads
/// the underlying satoshi count.
#[verifier::external_body]
pub fn parse_btc_amount(s: &str) -> (r: Option<u64>)
    ensures
        r == parsed_amount(s@),
{
    match s.parse::<bitcoin::Amount>() {
        Ok(a) => Some(a.to_sat()),
        Err(_) => None,
    }
}

/// Whether a textual address parses and belongs to the network with the
/// given number: a function of the characters and the network alone.
pub uninterp spec fn address_valid(s: Seq<char>, network: int) -> bool;

/// Relies on `bitcoin::Address`'s `FromStr` and `require_network`: both
/// depend only on the address characters and the required network.
#[verifier::external_body]
pub fn check_address(s: &str, network: Network) -> (r: bool)
    ensures
        r == address_valid(s@, network_id(network)),
{
    let net = match network {
        Network::Bitcoin => bitcoin::Network::Bitcoin,
        Network::Testnet => bitcoin::Network::Testnet,
        Network::Signet => bitcoin::Network::Signet,
        Network::Regtest => bitcoin::Network::Regtest,
    };
    match s.parse::<bitcoin::Address<_>>() {
        Ok(a) => a.require_network(net).is_ok(),
        Err(_) => false,
    }
}

} // verus!
