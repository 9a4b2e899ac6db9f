//! Receiving a message: the size limits, the classification, the token
//! transfer where the message asks for one, and the record.

use vstd::prelude::*;
use crate::context::{find_token_admin, token_admin_address, AccountHandle, CcipReceive};
use crate::error::CCIPReceiverError;
use crate::events::{MessageReceived, MessageReceivedView, TokenReceived, TokensForwarded};
use crate::state::{
    Any2SVMMessage, Any2SVMMessageView, MessageType, MessagesStorageView, ReceivedMessageView,
};
use crate::transfer::{planned_transfer, prepare_transfer, TransferRequest, TransferRequestView};

verus! {

/// What the host has to do for a message that the receiver has accepted.
///
/// The receiver decides and the host acts: it executes the transfer, signed
/// with the seeds given, and publishes the events. Where the transfer fails,
/// the host fails the whole call, and the record that the receiver has
/// written is discarded with everything else.
#[derive(Debug)]
pub struct ReceiveOutcome {
    /// Says that the message has arrived.
    pub message_received: MessageReceived,
    /// Says which tokens have arrived, where a transfer is made.
    pub token_received: Option<TokenReceived>,
    /// The transfer to execute, if any.
    pub transfer: Option<TransferRequest>,
    /// Says where the tokens went, once the transfer has been executed.
    pub tokens_forwarded: Option<TokensForwarded>,
}

/// The mathematical content of a [`ReceiveOutcome`].
pub struct ReceiveOutcomeView {
    pub message_received: MessageReceivedView,
    pub token_received: Option<TokenReceived>,
    pub transfer: Option<TransferRequestView>,
    pub tokens_forwarded: Option<TokensForwarded>,
}

impl View for ReceiveOutcome {
    type V = ReceiveOutcomeView;

    open spec fn view(&self) -> ReceiveOutcomeView {
        ReceiveOutcomeView {
            message_received: self.message_received@,
            token_received: self.token_received,
            transfer: match self.transfer {
                Some(request) => Some(request@),
                None => None,
            },
            tokens_forwarded: self.tokens_forwarded,
        }
    }
}

/// The event that announces `message`.
pub open spec fn announcement(message: Any2SVMMessageView) -> MessageReceivedView {
    MessageReceivedView {
        message_id: message.message_id,
        source_chain_selector: message.source_chain_selector,
        sender: message.sender,
        data_length: message.data.len() as u64,
        token_count: message.token_amounts.len() as u8,
    }
}

/// The transfer that `message` asks for: none where its amount is zero, and
/// then the accounts of the call are not looked at; otherwise the transfer
/// of that amount between the accounts of the call.
pub open spec fn requested_transfer(
    handles: Seq<AccountHandle>,
    token_admin: Option<(Seq<u8>, u8)>,
    message: Any2SVMMessageView,
) -> Result<Option<TransferRequestView>, CCIPReceiverError> {
    if message.token_amount() == 0 {
        Ok(None)
    } else {
        match planned_transfer(handles, token_admin, message.token_amount()) {
            Ok(request) => Ok(Some(request)),
            Err(e) => Err(e),
        }
    }
}

/// What the host is told for an accepted `message` with the given transfer.
pub open spec fn outcome_of(
    handles: Seq<AccountHandle>,
    message: Any2SVMMessageView,
    transfer: Option<TransferRequestView>,
) -> ReceiveOutcomeView {
    ReceiveOutcomeView {
        message_received: announcement(message),
        token_received: if transfer is Some {
            Some(TokenReceived { token: handles[0].key, amount: message.token_amount(), index: 0 })
        } else {
            None
        },
        transfer,
        tokens_forwarded: if transfer is Some {
            Some(
                TokensForwarded {
                    token: handles[0].key,
                    amount: message.token_amount(),
                    recipient: handles[3].key,
                },
            )
        } else {
            None
        },
    }
}

/// The whole effect of receiving `message` at `now`, on a record `storage`
/// and with the accounts `handles`: what the host is told and the record
/// afterwards, or the reason why the message is not accepted.
///
/// The size limits come first, then the transfer, then the counter.
pub open spec fn received(
    storage: MessagesStorageView,
    handles: Seq<AccountHandle>,
    message: Any2SVMMessageView,
    now: i64,
    token_admin: Option<(Seq<u8>, u8)>,
) -> Result<(ReceiveOutcomeView, MessagesStorageView), CCIPReceiverError> {
    match message.size_error() {
        Some(e) => Err(e),
        None => match requested_transfer(handles, token_admin, message) {
            Err(e) => Err(e),
            Ok(transfer) => if storage.message_count == u64::MAX {
                Err(CCIPReceiverError::CounterOverflow)
            } else {
                Ok((outcome_of(handles, message, transfer), storage.accept(message, now)))
            },
        },
    }
}

/// A message whose amount is zero is received without a look at the accounts
/// of the call: with any other accounts, and any other delegated authority,
/// the effect is the same. No transfer is made, and the only reasons for
/// which such a message is not accepted are its size and a full counter.
pub proof fn lemma_zero_amount_needs_no_accounts(
    storage: MessagesStorageView,
    handles: Seq<AccountHandle>,
    token_admin: Option<(Seq<u8>, u8)>,
    other_handles: Seq<AccountHandle>,
    other_token_admin: Option<(Seq<u8>, u8)>,
    message: Any2SVMMessageView,
    now: i64,
)
    requires
        message.token_amount() == 0,
    ensures
        received(storage, handles, message, now, token_admin) == received(
            storage,
            other_handles,
            message,
            now,
            other_token_admin,
        ),
        received(storage, handles, message, now, token_admin) matches Ok(effect)
            ==> effect.0.transfer is None,
        received(storage, handles, message, now, token_admin) is Err <==> message.size_error()
            is Some || storage.message_count == u64::MAX,
        received(storage, handles, message, now, token_admin) matches Err(e) ==> e
            == CCIPReceiverError::MessageDataTooLarge || e == CCIPReceiverError::TooManyTokens || e
            == CCIPReceiverError::SenderAddressTooLarge || e == CCIPReceiverError::CounterOverflow,
{
}

/// A transfer is asked for exactly when the amount of the message is not
/// zero.
pub proof fn lemma_transfer_follows_amount(
    storage: MessagesStorageView,
    handles: Seq<AccountHandle>,
    token_admin: Option<(Seq<u8>, u8)>,
    message: Any2SVMMessageView,
    now: i64,
)
    ensures
        received(storage, handles, message, now, token_admin) matches Ok(effect) ==> (
        effect.0.transfer is Some <==> message.token_amount() != 0),
{
}

/// An accepted message is counted once, and becomes the latest message of a
/// well-formed record, with its kind and the time of its receipt.
pub proof fn lemma_accepted_message_is_recorded(
    storage: MessagesStorageView,
    handles: Seq<AccountHandle>,
    token_admin: Option<(Seq<u8>, u8)>,
    message: Any2SVMMessageView,
    now: i64,
)
    ensures
        received(storage, handles, message, now, token_admin) matches Ok(effect) ==> {
            &&& effect.1.message_count == storage.message_count + 1
            &&& effect.1.last_updated == now
            &&& effect.1.latest_message == ReceivedMessageView::of(message, now)
            &&& effect.1.latest_message.message_type == message.message_type()
            &&& effect.1.wf()
        },
{
}

/// Whether a call that found the accounts as `before` and left them as
/// `after`, with the result `r`, has received `message` at `now`.
///
/// An accepted message changes the record and nothing else; a message that
/// is not accepted changes nothing at all.
pub open spec fn handled(
    before: CcipReceive,
    after: CcipReceive,
    message: Any2SVMMessageView,
    now: i64,
    r: Result<ReceiveOutcome, CCIPReceiverError>,
) -> bool {
    match received(
        before.messages_storage@,
        before.remaining_accounts@,
        message,
        now,
        token_admin_address(),
    ) {
        Ok((outcome, storage)) => {
            &&& r matches Ok(told) && told@ == outcome
            &&& after.messages_storage@ == storage
            &&& after.same_accounts(before)
        },
        Err(e) => r matches Err(f) && f == e && after == before,
    }
}

/// Receives a message whose caller has been found authorized.
///
/// A message over one of the size limits is refused. Otherwise the message
/// is classified. Where the amount of its first token transfer is not zero,
/// the accounts of the call are bound to the roles of a transfer and the
/// transfer is prepared; with an amount of zero the accounts are not looked
/// at and no transfer is made. At last the message is written into the
/// record, with `now` as the time of receipt.
pub fn handler(ctx: &mut CcipReceive, message: Any2SVMMessage, now: i64) -> (r: Result<
    ReceiveOutcome,
    CCIPReceiverError,
>)
    ensures
        handled(*old(ctx), *final(ctx), message@, now, r),
        r is Ok ==> final(ctx).messages_storage.message_count == old(
            ctx,
        ).messages_storage.message_count + 1,
        r is Ok ==> final(ctx).messages_storage@.wf(),
        r is Err ==> *final(ctx) == *old(ctx),
        r matches Ok(told) ==> (told.transfer is Some <==> message@.token_amount() != 0),
        message@.token_amount() == 0 ==> (r is Err <==> message@.size_error() is Some || old(
            ctx,
        ).messages_storage.message_count == u64::MAX),
{
    match message.validate() {
        Ok(()) => {},
        Err(e) => {
            return Err(e);
        },
    }
    let message_received = MessageReceived {
        message_id: message.message_id,
        source_chain_selector: message.source_chain_selector,
        sender: message.sender.clone(),
        data_length: message.data.len() as u64,
        token_count: message.token_amounts.len() as u8,
    };
    let message_type = MessageType::classify(&message.data, &message.token_amounts);
    let amount = message.token_amount();
    let mut token_received: Option<TokenReceived> = None;
    let mut transfer: Option<TransferRequest> = None;
    let mut tokens_forwarded: Option<TokensForwarded> = None;
    if amount != 0 {
        let token_admin = find_token_admin();
        match prepare_transfer(&ctx.remaining_accounts, &token_admin, amount) {
            Ok(request) => {
                let token = ctx.remaining_accounts[0].key;
                let recipient = ctx.remaining_accounts[3].key;
                token_received = Some(TokenReceived { token, amount, index: 0 });
                tokens_forwarded = Some(TokensForwarded { token, amount, recipient });
                transfer = Some(request);
            },
            Err(e) => {
                return Err(e);
            },
        }
    }
    match ctx.messages_storage.record(message, message_type, now) {
        Ok(()) => {},
        Err(e) => {
            return Err(e);
        },
    }
    Ok(ReceiveOutcome { message_received, token_received, transfer, tokens_forwarded })
}

} // verus!
