//! The errors with which a call is rejected.

use vstd::prelude::*;

verus! {

/// A failure of the arithmetic, of the store, or of decoding.
#[derive(Clone, Copy, Debug, PartialEq, Eq, Structural)]
pub enum StdError {
    /// A result does not fit the 128-bit range, or a subtraction went below zero.
    Overflow,
    /// A division by zero.
    DivideByZero,
    /// A record that the call needs has not been written yet.
    NotFound,
    /// A payload could not be decoded.
    ParseErr,
    /// An address or an asset reference was refused by the host.
    GenericErr,
}

/// A failure to find exactly one non-empty coin among the funds of a call.
#[derive(Clone, Copy, Debug, PartialEq, Eq, Structural)]
pub enum PaymentError {
    /// The coin of the expected denomination is missing.
    MissingDenom,
    /// A coin of another denomination was sent.
    ExtraDenom,
    /// More than one coin was sent.
    MultipleDenoms,
    /// No coin was sent, or the one sent has amount zero.
    NoFunds,
    /// Coins were sent with a call that takes none.
    NonPayable,
}

/// Why a call was rejected. A rejected call leaves every record as it was.
#[derive(Clone, Copy, Debug, PartialEq, Eq, Structural)]
pub enum ContractError {
    Std(StdError),
    Unauthorized {},
    InsufficientFunds {},
    AuctionHasNotStartedYet {},
    NoFunds {},
    ZeroTokens {},
    WrongAsset {},
    PaymentError(PaymentError),
    CannotSetBothSellerAddressAndNft {},
    MustSetEitherSellerAddressOrNft {},
    EpochDurationCannotBeZero {},
    TargetDurationCannotBeZero {},
    AuctionAlreadyScheduled {},
    AuctionStartTimeInThePast {},
}

impl ContractError {
    /// The message that describes the error.
    pub fn message(&self) -> (text: &'static str)
        ensures
            text@ == self.spec_message(),
    {
        match self {
            ContractError::Std(StdError::Overflow) => "Overflow",
            ContractError::Std(StdError::DivideByZero) => "Divide by zero",
            ContractError::Std(StdError::NotFound) => "Not found",
            ContractError::Std(StdError::ParseErr) => "Error parsing",
            ContractError::Std(StdError::GenericErr) => "Generic error",
            ContractError::Unauthorized {} => "Unauthorized",
            ContractError::InsufficientFunds {} => "Insufficient funds",
            ContractError::AuctionHasNotStartedYet {} => "Auction has not started yet",
            ContractError::NoFunds {} => "No funds",
            ContractError::ZeroTokens {} => "Zero tokens",
            ContractError::WrongAsset {} => "Wrong asset",
            ContractError::PaymentError(_) => "Payment error",
            ContractError::CannotSetBothSellerAddressAndNft {} => "Cannot set both seller address and nft",
            ContractError::MustSetEitherSellerAddressOrNft {} => "Must set either seller address or nft",
            ContractError::EpochDurationCannotBeZero {} => "Epoch duration cannot be zero",
            ContractError::TargetDurationCannotBeZero {} => "Target duration cannot be zero",
            ContractError::AuctionAlreadyScheduled {} => "Auction already scheduled",
            ContractError::AuctionStartTimeInThePast {} => "Auction start time in the past",
        }
    }

    /// The message of each error, as a sequence of characters.
    pub open spec fn spec_message(&self) -> Seq<char> {
        match self {
            ContractError::Std(StdError::Overflow) => "Overflow"@,
            ContractError::Std(StdError::DivideByZero) => "Divide by zero"@,
            ContractError::Std(StdError::NotFound) => "Not found"@,
            ContractError::Std(StdError::ParseErr) => "Error parsing"@,
            ContractError::Std(StdError::GenericErr) => "Generic error"@,
            ContractError::Unauthorized {} => "Unauthorized"@,
            ContractError::InsufficientFunds {} => "Insufficient funds"@,
            ContractError::AuctionHasNotStartedYet {} => "Auction has not started yet"@,
            ContractError::NoFunds {} => "No funds"@,
            ContractError::ZeroTokens {} => "Zero tokens"@,
            ContractError::WrongAsset {} => "Wrong asset"@,
            ContractError::PaymentError(_) => "Payment error"@,
            ContractError::CannotSetBothSellerAddressAndNft {} => "Cannot set both seller address and nft"@,
            ContractError::MustSetEitherSellerAddressOrNft {} => "Must set either seller address or nft"@,
            ContractError::EpochDurationCannotBeZero {} => "Epoch duration cannot be zero"@,
            ContractError::TargetDurationCannotBeZero {} => "Target duration cannot be zero"@,
            ContractError::AuctionAlreadyScheduled {} => "Auction already scheduled"@,
            ContractError::AuctionStartTimeInThePast {} => "Auction start time in the past"@,
        }
    }
}

} // verus!
