//! Errors handed to the users of a client, and the sizes of its queues.

use vstd::prelude::*;

verus! {

/// Number of payloads each of the two message queues can hold.
pub const DEFAULT_MESSAGE_QUEUE_SIZE: usize = 150;

/// Number of close signals the close channel can hold.
pub const DEFAULT_KILL_MESSAGE_QUEUE_SIZE: usize = 10;

/// Why an operation of a client was refused.
#[derive(Debug, Clone, Copy, PartialEq, Eq, Structural)]
pub enum QuinnetError {
    /// The queue has no room left for the message.
    FullQueue,
    /// The other end of the channel is gone.
    ChannelClosed,
    /// The message could not be turned into bytes.
    Serialization,
    /// The bytes could not be turned into a message.
    Deserialization,
}

} // verus!
