//! What the receiver persists, and the messages it is handed.

use vstd::prelude::*;
use crate::address::{Address, ZERO_BYTES};
use crate::error::CCIPReceiverError;

verus! {

/// Longest payload, in bytes, that the receiver accepts.
pub const MAX_MESSAGE_DATA_SIZE: usize = 1024;

/// Largest number of token transfers in one message that the receiver accepts.
pub const MAX_TOKEN_AMOUNTS: usize = 10;

/// Longest sender address, in bytes, that the receiver accepts.
pub const MAX_SENDER_ADDRESS_SIZE: usize = 64;

/// The receiver's configuration.
#[derive(Clone, Copy, Debug)]
pub struct BaseState {
    /// Who may administer the receiver.
    pub owner: Address,
    /// The router whose allowlist decides which relays may deliver.
    pub router: Address,
}

impl Default for BaseState {
    fn default() -> (r: BaseState)
        ensures
            r.owner == Address::zero_spec(),
            r.router == Address::zero_spec(),
    {
        BaseState { owner: Address::zero(), router: Address::zero() }
    }
}

/// What a message carries.
#[derive(Clone, Copy, Debug, PartialEq, Eq, Structural)]
pub enum MessageType {
    /// Tokens and no payload. Also the kind of a message that carries
    /// neither.
    TokenTransfer,
    /// A payload and no tokens.
    ArbitraryMessaging,
    /// A payload together with tokens.
    ProgrammaticTokenTransfer,
}

impl Default for MessageType {
    fn default() -> (r: MessageType)
        ensures
            r == MessageType::TokenTransfer,
    {
        MessageType::TokenTransfer
    }
}

impl MessageType {
    /// The kind of a message with the given payload and token list.
    pub open spec fn of(data: Seq<u8>, token_amounts: Seq<SVMTokenAmount>) -> MessageType {
        if data.len() > 0 && token_amounts.len() > 0 {
            MessageType::ProgrammaticTokenTransfer
        } else if data.len() > 0 {
            MessageType::ArbitraryMessaging
        } else {
            MessageType::TokenTransfer
        }
    }

    /// Classifies a message by whether it has a payload and whether it lists
    /// tokens.
    pub fn classify(data: &Vec<u8>, token_amounts: &Vec<SVMTokenAmount>) -> (r: MessageType)
        ensures
            r == MessageType::of(data@, token_amounts@),
    {
        if data.len() > 0 && token_amounts.len() > 0 {
            MessageType::ProgrammaticTokenTransfer
        } else if data.len() > 0 {
            MessageType::ArbitraryMessaging
        } else {
            MessageType::TokenTransfer
        }
    }
}

/// The kind of a message depends only on which of its two parts are present:
/// with no payload it is a token transfer, whether or not tokens are listed;
/// with a payload it is arbitrary messaging without tokens and a programmatic
/// token transfer with them.
pub proof fn lemma_classification(data: Seq<u8>, token_amounts: Seq<SVMTokenAmount>)
    ensures
        data.len() == 0 && token_amounts.len() == 0 ==> MessageType::of(data, token_amounts)
            == MessageType::TokenTransfer,
        data.len() > 0 && token_amounts.len() == 0 ==> MessageType::of(data, token_amounts)
            == MessageType::ArbitraryMessaging,
        data.len() == 0 && token_amounts.len() > 0 ==> MessageType::of(data, token_amounts)
            == MessageType::TokenTransfer,
        data.len() > 0 && token_amounts.len() > 0 ==> MessageType::of(data, token_amounts)
            == MessageType::ProgrammaticTokenTransfer,
{
}

/// An amount of one token.
#[derive(Clone, Copy, Debug)]
pub struct SVMTokenAmount {
    /// The mint of the token.
    pub token: Address,
    /// The amount, in the smallest unit of the token.
    pub amount: u64,
}

/// A message from another chain, as a relay delivers it.
#[derive(Debug)]
pub struct Any2SVMMessage {
    /// Identifier of the message.
    pub message_id: [u8; 32],
    /// Selector of the chain the message comes from.
    pub source_chain_selector: u64,
    /// Address of the sender on that chain.
    pub sender: Vec<u8>,
    /// The payload.
    pub data: Vec<u8>,
    /// The token transfers that accompany the message.
    pub token_amounts: Vec<SVMTokenAmount>,
}

/// The mathematical content of an [`Any2SVMMessage`].
pub struct Any2SVMMessageView {
    pub message_id: [u8; 32],
    pub source_chain_selector: u64,
    pub sender: Seq<u8>,
    pub data: Seq<u8>,
    pub token_amounts: Seq<SVMTokenAmount>,
}

impl View for Any2SVMMessage {
    type V = Any2SVMMessageView;

    open spec fn view(&self) -> Any2SVMMessageView {
        Any2SVMMessageView {
            message_id: self.message_id,
            source_chain_selector: self.source_chain_selector,
            sender: self.sender@,
            data: self.data@,
            token_amounts: self.token_amounts@,
        }
    }
}

impl Any2SVMMessageView {
    /// The first size limit that the message exceeds, if it exceeds any: the
    /// payload is looked at first, then the number of tokens, then the sender.
    pub open spec fn size_error(self) -> Option<CCIPReceiverError> {
        if self.data.len() > MAX_MESSAGE_DATA_SIZE {
            Some(CCIPReceiverError::MessageDataTooLarge)
        } else if self.token_amounts.len() > MAX_TOKEN_AMOUNTS {
            Some(CCIPReceiverError::TooManyTokens)
        } else if self.sender.len() > MAX_SENDER_ADDRESS_SIZE {
            Some(CCIPReceiverError::SenderAddressTooLarge)
        } else {
            None
        }
    }

    /// The amount that the message asks to forward: that of its first token
    /// transfer, and zero where it lists none. Later entries of the list are
    /// recorded but not forwarded.
    pub open spec fn token_amount(self) -> u64 {
        if self.token_amounts.len() > 0 {
            self.token_amounts[0].amount
        } else {
            0
        }
    }

    /// The kind of the message.
    pub open spec fn message_type(self) -> MessageType {
        MessageType::of(self.data, self.token_amounts)
    }
}

impl Clone for Any2SVMMessage {
    fn clone(&self) -> (r: Any2SVMMessage)
        ensures
            r@ == self@,
    {
        Any2SVMMessage {
            message_id: self.message_id,
            source_chain_selector: self.source_chain_selector,
            sender: self.sender.clone(),
            data: self.data.clone(),
            token_amounts: self.token_amounts.clone(),
        }
    }
}

impl Any2SVMMessage {
    /// Holds the message to the size limits.
    pub fn validate(&self) -> (r: Result<(), CCIPReceiverError>)
        ensures
            r == match self@.size_error() {
                Some(e) => Err::<(), CCIPReceiverError>(e),
                None => Ok(()),
            },
    {
        if self.data.len() > MAX_MESSAGE_DATA_SIZE {
            Err(CCIPReceiverError::MessageDataTooLarge)
        } else if self.token_amounts.len() > MAX_TOKEN_AMOUNTS {
            Err(CCIPReceiverError::TooManyTokens)
        } else if self.sender.len() > MAX_SENDER_ADDRESS_SIZE {
            Err(CCIPReceiverError::SenderAddressTooLarge)
        } else {
            Ok(())
        }
    }

    /// The amount that the message asks to forward.
    pub fn token_amount(&self) -> (r: u64)
        ensures
            r == self@.token_amount(),
    {
        if self.token_amounts.len() > 0 {
            self.token_amounts[0].amount
        } else {
            0
        }
    }
}

/// A message as the receiver keeps it.
#[derive(Debug)]
pub struct ReceivedMessage {
    /// Identifier of the message.
    pub message_id: [u8; 32],
    /// What the message carries.
    pub message_type: MessageType,
    /// The payload.
    pub data: Vec<u8>,
    /// The token transfers that accompanied the message.
    pub token_amounts: Vec<SVMTokenAmount>,
    /// When the message was received.
    pub received_timestamp: i64,
    /// Selector of the chain the message came from.
    pub source_chain_selector: u64,
    /// Address of the sender on that chain.
    pub sender: Vec<u8>,
}

/// The mathematical content of a [`ReceivedMessage`].
pub struct ReceivedMessageView {
    pub message_id: [u8; 32],
    pub message_type: MessageType,
    pub data: Seq<u8>,
    pub token_amounts: Seq<SVMTokenAmount>,
    pub received_timestamp: i64,
    pub source_chain_selector: u64,
    pub sender: Seq<u8>,
}

impl View for ReceivedMessage {
    type V = ReceivedMessageView;

    open spec fn view(&self) -> ReceivedMessageView {
        ReceivedMessageView {
            message_id: self.message_id,
            message_type: self.message_type,
            data: self.data@,
            token_amounts: self.token_amounts@,
            received_timestamp: self.received_timestamp,
            source_chain_selector: self.source_chain_selector,
            sender: self.sender@,
        }
    }
}

impl ReceivedMessageView {
    /// The record of nothing: what the receiver holds before the first
    /// message.
    pub open spec fn empty() -> ReceivedMessageView {
        ReceivedMessageView {
            message_id: ZERO_BYTES,
            message_type: MessageType::TokenTransfer,
            data: Seq::empty(),
            token_amounts: Seq::empty(),
            received_timestamp: 0,
            source_chain_selector: 0,
            sender: Seq::empty(),
        }
    }

    /// The record of `message`, received at `now`.
    pub open spec fn of(message: Any2SVMMessageView, now: i64) -> ReceivedMessageView {
        ReceivedMessageView {
            message_id: message.message_id,
            message_type: message.message_type(),
            data: message.data,
            token_amounts: message.token_amounts,
            received_timestamp: now,
            source_chain_selector: message.source_chain_selector,
            sender: message.sender,
        }
    }

    /// A record is well formed when it respects the size limits and its kind
    /// is the one its contents have.
    pub open spec fn wf(self) -> bool {
        &&& self.data.len() <= MAX_MESSAGE_DATA_SIZE
        &&& self.token_amounts.len() <= MAX_TOKEN_AMOUNTS
        &&& self.sender.len() <= MAX_SENDER_ADDRESS_SIZE
        &&& self.message_type == MessageType::of(self.data, self.token_amounts)
    }
}

impl Default for ReceivedMessage {
    fn default() -> (r: ReceivedMessage)
        ensures
            r@ == ReceivedMessageView::empty(),
    {
        ReceivedMessage {
            message_id: ZERO_BYTES,
            message_type: MessageType::TokenTransfer,
            data: Vec::new(),
            token_amounts: Vec::new(),
            received_timestamp: 0,
            source_chain_selector: 0,
            sender: Vec::new(),
        }
    }
}

impl Clone for ReceivedMessage {
    fn clone(&self) -> (r: ReceivedMessage)
        ensures
            r@ == self@,
    {
        ReceivedMessage {
            message_id: self.message_id,
            message_type: self.message_type,
            data: self.data.clone(),
            token_amounts: self.token_amounts.clone(),
            received_timestamp: self.received_timestamp,
            source_chain_selector: self.source_chain_selector,
            sender: self.sender.clone(),
        }
    }
}

/// The single record of what the receiver has received.
#[derive(Debug)]
pub struct MessagesStorage {
    /// When the record was last written.
    pub last_updated: i64,
    /// How many messages have been accepted since initialization.
    pub message_count: u64,
    /// The message accepted last.
    pub latest_message: ReceivedMessage,
}

/// The mathematical content of a [`MessagesStorage`].
pub struct MessagesStorageView {
    pub last_updated: i64,
    pub message_count: u64,
    pub latest_message: ReceivedMessageView,
}

impl View for MessagesStorage {
    type V = MessagesStorageView;

    open spec fn view(&self) -> MessagesStorageView {
        MessagesStorageView {
            last_updated: self.last_updated,
            message_count: self.message_count,
            latest_message: self.latest_message@,
        }
    }
}

impl MessagesStorageView {
    /// The record after `message` has been accepted at `now`: the message
    /// replaces the one held before and the counter moves on by one.
    pub open spec fn accept(self, message: Any2SVMMessageView, now: i64) -> MessagesStorageView
        recommends
            self.message_count < u64::MAX,
    {
        MessagesStorageView {
            last_updated: now,
            message_count: (self.message_count + 1) as u64,
            latest_message: ReceivedMessageView::of(message, now),
        }
    }

    /// The record is well formed when the message it holds is.
    pub open spec fn wf(self) -> bool {
        self.latest_message.wf()
    }
}

impl MessagesStorage {
    /// Writes an accepted message into the record.
    ///
    /// The message replaces the one held before, the counter is incremented
    /// and both timestamps are set to `now`. Where the counter is at its
    /// largest value nothing is written and the call fails.
    pub fn record(&mut self, message: Any2SVMMessage, message_type: MessageType, now: i64) -> (r:
        Result<(), CCIPReceiverError>)
        ensures
            old(self).message_count == u64::MAX ==> r == Err::<(), CCIPReceiverError>(
                CCIPReceiverError::CounterOverflow,
            ) && *final(self) == *old(self),
            old(self).message_count < u64::MAX ==> r == Ok::<(), CCIPReceiverError>(())
                && final(self).last_updated == now && final(self).message_count == old(
                self,
            ).message_count + 1 && final(self).latest_message@ == (ReceivedMessageView {
                message_type,
                ..ReceivedMessageView::of(message@, now)
            }),
    {
        if self.message_count == u64::MAX {
            return Err(CCIPReceiverError::CounterOverflow);
        }
        self.latest_message = ReceivedMessage {
            message_id: message.message_id,
            message_type,
            data: message.data,
            token_amounts: message.token_amounts,
            received_timestamp: now,
            source_chain_selector: message.source_chain_selector,
            sender: message.sender,
        };
        self.message_count = self.message_count + 1;
        self.last_updated = now;
        Ok(())
    }
}

} // verus!
