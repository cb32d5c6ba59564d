//! Choosing the display denomination of an amount.
//!
//! Large amounts read best in bitcoin, middling ones in millibitcoin,
//! small ones in satoshi.

use vstd::prelude::*;

verus! {

/// One tenth of a bitcoin, in satoshi: from here up, display in BTC.
pub const BTC_DISPLAY_FLOOR_SAT: u64 = 10_000_000;

/// From here up (and below the BTC floor), display in mBTC.
pub const MILLI_BTC_DISPLAY_FLOOR_SAT: u64 = 10_000;

/// The unit an amount is displayed in.
#[derive(Clone, Copy, PartialEq, Eq, Structural, Debug)]
pub enum AmountDenomination {
    Bitcoin,
    MilliBitcoin,
    Satoshi,
}

/// Picks the display denomination of an amount in satoshi.
pub fn display_denomination(sats: u64) -> (r: AmountDenomination)
    ensures
        sats >= BTC_DISPLAY_FLOOR_SAT ==> r == AmountDenomination::Bitcoin,
        MILLI_BTC_DISPLAY_FLOOR_SAT <= sats < BTC_DISPLAY_FLOOR_SAT
            ==> r == AmountDenomination::MilliBitcoin,
        sats < MILLI_BTC_DISPLAY_FLOOR_SAT ==> r == AmountDenomination::Satoshi,
{
    if sats >= BTC_DISPLAY_FLOOR_SAT {
        AmountDenomination::Bitcoin
    } else if sats >= MILLI_BTC_DISPLAY_FLOOR_SAT {
        AmountDenomination::MilliBitcoin
    } else {
        AmountDenomination::Satoshi
    }
}

} // verus!
