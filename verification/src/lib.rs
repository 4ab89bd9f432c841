//! An unbounded multi-producer, single-consumer channel for OS threads.
//!
//! Everything a channel remembers (the queued items, whether it is closed and
//! how many senders are alive) is one [`ChannelState`] behind one lock. Each
//! operation of a handle takes the lock, makes one transition of that state
//! and wakes the consumer where the transition calls for it. The transitions
//! are specified over [`ChannelView`], and `laws` proves what follows from
//! them for every order in which threads may come to the lock.

pub mod channel;
pub mod error;
pub mod laws;
pub mod model;
pub mod receiver;
pub mod sender;
pub mod shared_state;
pub mod state;
pub mod sync;
pub mod trace;

pub use error::ChannelError;
pub use model::{ChannelView, Phase, Wake};
pub use receiver::Receiver;
pub use sender::Sender;
pub use shared_state::{channel, SharedState};
pub use state::ChannelState;
