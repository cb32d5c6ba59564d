//! Error taxonomy of the orchestration core.
//!
//! Validation errors are reported before any backend is touched; backend
//! availability errors propagate unchanged; a declined confirmation is a
//! successful no-op, not a failure, and therefore has no variant here.

use vstd::prelude::*;

verus! {

/// Everything the orchestration core itself can refuse or report.
#[derive(Clone, PartialEq, Eq, Structural, Debug)]
pub enum Error {
    /// A recipient flag is not of the form `<ADDRESS>:<AMOUNT>`.
    InvalidRecipient,
    /// A recipient amount is neither `all` nor a parseable Bitcoin amount.
    InvalidAmount,
    /// A recipient address is not valid for the selected network.
    InvalidAddressNetwork,
    /// More than one recipient while at least one amount is `all`.
    AmbiguousDrainTarget,
    /// A fee-rate flag that is not a plain decimal number.
    InvalidFeeRate,
    /// A forced fee rate below the floor of one satoshi per virtual byte.
    FeeRateTooLow,
    /// A wallet was created with no key backend and no explicit fingerprint.
    MissingFingerprint,
    /// The two entries of a double-checked secret prompt differ.
    PasswordMismatch,
    /// The interactive secret prompt itself failed.
    PromptFailed,
    /// No compatible hardware signing device responded.
    DeviceUnavailable,
    /// A remote-service call was attempted without a valid session.
    Unauthenticated,
    /// The raw chain provider could not be reached.
    UnreachableProvider,
    /// The operation requires a key backend variant the entity does not have.
    IncorrectKeyProvider,
    /// The operation requires a heritage provider variant the entity does not have.
    IncorrectHeritageProvider,
}

impl Error {
    /// A short, stable description for the display layer.
    pub fn message(&self) -> &'static str {
        match self {
            Error::InvalidRecipient => "invalid recipient. Must be <ADDRESS>:<AMOUNT>",
            Error::InvalidAmount => "invalid recipient amount",
            Error::InvalidAddressNetwork => "address is not valid for the selected network",
            Error::AmbiguousDrainTarget => {
                "Exactly one recipient is allowed when using amount 'all'"
            },
            Error::InvalidFeeRate => "invalid fee rate. Must be a decimal number of sat/vB",
            Error::FeeRateTooLow => "Fee rate must be greater or equal to 1.0",
            Error::MissingFingerprint => "a fingerprint is required when no key backend is set",
            Error::PasswordMismatch => "Passwords did not match",
            Error::PromptFailed => "could not read the secret prompt",
            Error::DeviceUnavailable => "no compatible signing device responded",
            Error::Unauthenticated => "not authenticated with the remote service",
            Error::UnreachableProvider => "the blockchain provider is unreachable",
            Error::IncorrectKeyProvider => "the operation needs another key provider",
            Error::IncorrectHeritageProvider => "the operation needs another heritage provider",
        }
    }
}

} // verus!
