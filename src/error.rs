use vstd::prelude::*;

verus! {

/// The failures that an operation on the ledger can report. Every failure
/// leaves the ledger exactly as it was.
#[derive(Debug, Clone, Copy, PartialEq, Eq, Structural)]
pub enum ErrorCode {
    /// The mint amount exceeds the asset's remaining mintable supply.
    InsufficientSupply,
    /// The purchase amount exceeds the escrow balance.
    InsufficientTokenBalance,
    /// Reserved for rejecting zero amounts; no operation raises it.
    InvalidAmount,
    /// Reserved for rejecting a signer other than the creator; no operation raises it.
    Unauthorized,
    /// An asset with this id is already registered.
    DuplicateAsset,
    /// No asset with this id is registered.
    AssetNotFound,
    /// A revenue counter would exceed `u64::MAX`.
    ArithmeticOverflow,
}

impl ErrorCode {
    /// The human-readable message of each error.
    pub open spec fn message_spec(&self) -> Seq<char> {
        match self {
            ErrorCode::InsufficientSupply => "Insufficient supply"@,
            ErrorCode::InsufficientTokenBalance => "Insufficient token balance"@,
            ErrorCode::InvalidAmount => "Invalid amount"@,
            ErrorCode::Unauthorized => "Unauthorized"@,
            ErrorCode::DuplicateAsset => "Duplicate asset"@,
            ErrorCode::AssetNotFound => "Asset not found"@,
            ErrorCode::ArithmeticOverflow => "Arithmetic overflow"@,
        }
    }

    /// The human-readable message of this error.
    pub fn message(&self) -> (r: &'static str)
        ensures
            r@ == self.message_spec(),
    {
        match self {
            ErrorCode::InsufficientSupply => "Insufficient supply",
            ErrorCode::InsufficientTokenBalance => "Insufficient token balance",
            ErrorCode::InvalidAmount => "Invalid amount",
            ErrorCode::Unauthorized => "Unauthorized",
            ErrorCode::DuplicateAsset => "Duplicate asset",
            ErrorCode::AssetNotFound => "Asset not found",
            ErrorCode::ArithmeticOverflow => "Arithmetic overflow",
        }
    }
}

} // verus!
