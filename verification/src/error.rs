//! The error kinds of the wallet and how severe each one is.

use vstd::prelude::*;
use vstd::string::*;

verus! {

/// Everything that can go wrong inside the wallet.
#[derive(Clone, Copy, Debug, PartialEq, Eq, Structural)]
pub enum WalletError {
    /// The secret does not yield entropy of an accepted length.
    InvalidSecret,
    /// No master or child key could be built.
    KeyDerivationError,
    /// The account index is not below the number of derived accounts.
    UnknownAccount,
    /// The token symbol is not in the registry.
    UnknownToken,
    /// The text is not an address.
    InvalidAddress,
    /// The text is not an unsigned 256-bit decimal number.
    InvalidAmount,
    /// A balance query on the chain failed.
    ChainQueryError,
    /// The chain refused or lost a submitted transfer.
    ChainBroadcastError,
}

/// Who is to blame for an error, and whether the wallet survives it.
#[derive(Clone, Copy, Debug, PartialEq, Eq, Structural)]
pub enum ErrorClass {
    /// The request was wrong; the wallet is untouched.
    Caller,
    /// The chain node failed; the wallet is untouched.
    Upstream,
    /// The wallet cannot be used and has to be created again.
    Fatal,
}

impl WalletError {
    /// The class of each error kind.
    pub open spec fn class_of(self) -> ErrorClass {
        match self {
            WalletError::InvalidSecret | WalletError::KeyDerivationError => ErrorClass::Fatal,
            WalletError::ChainQueryError | WalletError::ChainBroadcastError => ErrorClass::Upstream,
            _ => ErrorClass::Caller,
        }
    }

    /// Classifies the error.
    pub fn class(&self) -> (r: ErrorClass)
        ensures
            r == self.class_of(),
    {
        match self {
            WalletError::InvalidSecret => ErrorClass::Fatal,
            WalletError::KeyDerivationError => ErrorClass::Fatal,
            WalletError::ChainQueryError => ErrorClass::Upstream,
            WalletError::ChainBroadcastError => ErrorClass::Upstream,
            _ => ErrorClass::Caller,
        }
    }

    /// The text shown for each error kind.
    pub open spec fn message_of(self) -> Seq<char> {
        match self {
            WalletError::InvalidSecret => "Invalid secret"@,
            WalletError::KeyDerivationError => "Derivation error"@,
            WalletError::UnknownAccount => "Invalid account index"@,
            WalletError::UnknownToken => "Token not found"@,
            WalletError::InvalidAddress => "Invalid address"@,
            WalletError::InvalidAmount => "Invalid amount"@,
            WalletError::ChainQueryError => "Chain query failed"@,
            WalletError::ChainBroadcastError => "Chain broadcast failed"@,
        }
    }

    /// A short description of the error.
    pub fn message(&self) -> (r: String)
        ensures
            r@ == self.message_of(),
    {
        match self {
            WalletError::InvalidSecret => String::from_str("Invalid secret"),
            WalletError::KeyDerivationError => String::from_str("Derivation error"),
            WalletError::UnknownAccount => String::from_str("Invalid account index"),
            WalletError::UnknownToken => String::from_str("Token not found"),
            WalletError::InvalidAddress => String::from_str("Invalid address"),
            WalletError::InvalidAmount => String::from_str("Invalid amount"),
            WalletError::ChainQueryError => String::from_str("Chain query failed"),
            WalletError::ChainBroadcastError => String::from_str("Chain broadcast failed"),
        }
    }
}

} // verus!
