//! Initializing the receiver.

use vstd::prelude::*;
use crate::address::Address;
use crate::context::Initialize;
use crate::error::CCIPReceiverError;
use crate::events::ReceiverInitialized;
use crate::state::{BaseState, MessagesStorageView, ReceivedMessage, ReceivedMessageView};

verus! {

/// The record of a receiver that has received nothing since `now`.
pub open spec fn fresh_storage(now: i64) -> MessagesStorageView {
    MessagesStorageView {
        last_updated: now,
        message_count: 0,
        latest_message: ReceivedMessageView::empty(),
    }
}

/// Sets the receiver up for the router `router`, at the time `now`.
///
/// The payer becomes the owner, the router is registered, and the record is
/// emptied. Nothing keeps the operation from being run again: a later run
/// registers its own payer and router and empties the record once more.
pub fn handler(ctx: &mut Initialize, router: Address, now: i64) -> (r: Result<
    ReceiverInitialized,
    CCIPReceiverError,
>)
    ensures
        r matches Ok(told) && told == (ReceiverInitialized {
            owner: old(ctx).payer.key,
            router,
        }),
        final(ctx).state == (BaseState { owner: old(ctx).payer.key, router }),
        final(ctx).messages_storage@ == fresh_storage(now),
        final(ctx).messages_storage@.wf(),
        final(ctx).payer == old(ctx).payer,
{
    let owner = ctx.payer.key;
    ctx.state.owner = owner;
    ctx.state.router = router;
    ctx.messages_storage.last_updated = now;
    ctx.messages_storage.message_count = 0;
    ctx.messages_storage.latest_message = ReceivedMessage::default();
    Ok(ReceiverInitialized { owner, router })
}

} // verus!
