//! What the receiver tells its observers.

use vstd::prelude::*;
use crate::address::Address;

verus! {

/// The receiver has been initialized.
#[derive(Clone, Copy, Debug)]
pub struct ReceiverInitialized {
    /// Who may administer the receiver.
    pub owner: Address,
    /// The router that the receiver works with.
    pub router: Address,
}

/// A message has arrived.
#[derive(Debug)]
pub struct MessageReceived {
    /// Identifier of the message.
    pub message_id: [u8; 32],
    /// Selector of the chain the message comes from.
    pub source_chain_selector: u64,
    /// Address of the sender on that chain.
    pub sender: Vec<u8>,
    /// Length of the payload in bytes.
    pub data_length: u64,
    /// Number of token transfers that the message lists.
    pub token_count: u8,
}

/// The mathematical content of a [`MessageReceived`].
pub struct MessageReceivedView {
    pub message_id: [u8; 32],
    pub source_chain_selector: u64,
    pub sender: Seq<u8>,
    pub data_length: u64,
    pub token_count: u8,
}

impl View for MessageReceived {
    type V = MessageReceivedView;

    open spec fn view(&self) -> MessageReceivedView {
        MessageReceivedView {
            message_id: self.message_id,
            source_chain_selector: self.source_chain_selector,
            sender: self.sender@,
            data_length: self.data_length,
            token_count: self.token_count,
        }
    }
}

/// Tokens have arrived with a message.
#[derive(Clone, Copy, Debug)]
pub struct TokenReceived {
    /// The mint of the token.
    pub token: Address,
    /// The amount received.
    pub amount: u64,
    /// Position of the transfer in the message's list.
    pub index: u8,
}

/// Tokens have been forwarded to a recipient.
#[derive(Clone, Copy, Debug)]
pub struct TokensForwarded {
    /// The mint of the token.
    pub token: Address,
    /// The amount forwarded.
    pub amount: u64,
    /// The token account that received them.
    pub recipient: Address,
}

} // verus!
