//! The ways in which a call to the receiver fails.

use vstd::prelude::*;

verus! {

/// Every failure is fatal to the call that met it and names its cause.
#[derive(Clone, Copy, Debug, PartialEq, Eq, Structural)]
pub enum CCIPReceiverError {
    /// The caller is not a relay that the router allows for the source chain.
    InvalidCaller,
    /// The signer is not the owner of the receiver.
    Unauthorized,
    /// The accounts that accompany a token transfer do not have the expected
    /// shape.
    InvalidRemainingAccounts,
    /// A token account is not owned by the declared token program.
    InvalidTokenAccountOwner,
    /// The account given as delegated authority is not the derived one.
    InvalidTokenAdmin,
    /// The payload is longer than the receiver stores.
    MessageDataTooLarge,
    /// The message lists more token transfers than the receiver stores.
    TooManyTokens,
    /// The sender address is longer than the receiver stores.
    SenderAddressTooLarge,
    /// The configuration account is not the receiver's own, so the router it
    /// names cannot be relied on.
    InvalidRouter,
    /// A token account or a token program does not belong to the mint.
    TokenMintMismatch,
    /// The mint account does not hold the data of a mint.
    InvalidMintData,
    /// The mint account holds a mint that was never initialized.
    UninitializedMint,
    /// The message counter cannot be incremented any further.
    CounterOverflow,
}

impl CCIPReceiverError {
    /// The text that describes the failure to an operator.
    pub open spec fn text(self) -> Seq<char> {
        match self {
            CCIPReceiverError::InvalidCaller => "Caller is not the configured CCIP router"@,
            CCIPReceiverError::Unauthorized => "Unauthorized: Signer is not the program owner"@,
            CCIPReceiverError::InvalidRemainingAccounts =>
                "Invalid remaining accounts structure for token transfer"@,
            CCIPReceiverError::InvalidTokenAccountOwner =>
                "Provided token account owner does not match token program"@,
            CCIPReceiverError::InvalidTokenAdmin => "Provided token admin PDA is incorrect"@,
            CCIPReceiverError::MessageDataTooLarge =>
                "Message data exceeds the maximum allowed size for this receiver"@,
            CCIPReceiverError::TooManyTokens =>
                "Number of tokens exceeds the maximum allowed for this receiver"@,
            CCIPReceiverError::SenderAddressTooLarge =>
                "Sender address exceeds the maximum allowed size for this receiver"@,
            CCIPReceiverError::InvalidRouter =>
                "Configuration account does not belong to this receiver"@,
            CCIPReceiverError::TokenMintMismatch =>
                "Token account or token program does not match the mint"@,
            CCIPReceiverError::InvalidMintData => "Mint account data is not a valid mint"@,
            CCIPReceiverError::UninitializedMint => "Mint account is not initialized"@,
            CCIPReceiverError::CounterOverflow => "Message counter overflow"@,
        }
    }

    /// The text that describes the failure to an operator.
    pub fn message(&self) -> (r: &'static str)
        ensures
            r@ == self.text(),
    {
        match self {
            CCIPReceiverError::InvalidCaller => "Caller is not the configured CCIP router",
            CCIPReceiverError::Unauthorized => "Unauthorized: Signer is not the program owner",
            CCIPReceiverError::InvalidRemainingAccounts =>
                "Invalid remaining accounts structure for token transfer",
            CCIPReceiverError::InvalidTokenAccountOwner =>
                "Provided token account owner does not match token program",
            CCIPReceiverError::InvalidTokenAdmin => "Provided token admin PDA is incorrect",
            CCIPReceiverError::MessageDataTooLarge =>
                "Message data exceeds the maximum allowed size for this receiver",
            CCIPReceiverError::TooManyTokens =>
                "Number of tokens exceeds the maximum allowed for this receiver",
            CCIPReceiverError::SenderAddressTooLarge =>
                "Sender address exceeds the maximum allowed size for this receiver",
            CCIPReceiverError::InvalidRouter =>
                "Configuration account does not belong to this receiver",
            CCIPReceiverError::TokenMintMismatch =>
                "Token account or token program does not match the mint",
            CCIPReceiverError::InvalidMintData => "Mint account data is not a valid mint",
            CCIPReceiverError::UninitializedMint => "Mint account is not initialized",
            CCIPReceiverError::CounterOverflow => "Message counter overflow",
        }
    }
}

} // verus!
