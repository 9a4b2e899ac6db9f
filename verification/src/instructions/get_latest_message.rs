//! Looking at the latest message.

use vstd::prelude::*;
use crate::context::GetLatestMessage;
use crate::error::CCIPReceiverError;
use crate::state::ReceivedMessage;

verus! {

/// Returns a copy of the message that was accepted last. The record is not
/// changed, and the call does not fail.
pub fn get_latest_message_handler(ctx: &GetLatestMessage) -> (r: Result<
    ReceivedMessage,
    CCIPReceiverError,
>)
    ensures
        r matches Ok(message) && message@ == ctx.messages_storage.latest_message@,
{
    Ok(ctx.messages_storage.latest_message.clone())
}

} // verus!
