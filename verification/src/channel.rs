//! The channel in one place: its two handles, the function that makes them,
//! and the errors they report.

pub use crate::error::ChannelError;
pub use crate::receiver::Receiver;
pub use crate::sender::Sender;
pub use crate::shared_state::{channel, SharedState};
