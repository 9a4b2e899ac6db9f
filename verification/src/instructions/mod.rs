//! The operations of the receiver.

pub mod ccip_receive;
pub mod get_latest_message;
pub mod initialize;
pub mod withdraw_tokens;

pub use ccip_receive::handler as ccip_receive_handler;
pub use get_latest_message::get_latest_message_handler;
pub use initialize::handler as initialize_handler;
pub use withdraw_tokens::handler as withdraw_tokens_handler;
