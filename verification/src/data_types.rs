//! Core data types: amounts, heights, timestamps and resources.

use vstd::prelude::*;

use crate::identifiers::Destination;

verus! {

/// `2^64`, the base in which an amount splits into two 64-bit halves.
pub open spec fn two_pow_64() -> int {
    0x1_0000_0000_0000_0000
}

/// An amount of tokens, counted in attos (`10^-18` of a token).
#[derive(Clone, Copy, Debug, PartialEq, Eq, Structural)]
pub struct Amount(pub u128);

impl Amount {
    /// The high 64 bits of the number of attos.
    pub fn upper_half(self) -> (half: u64)
        ensures
            half == self.0 as int / two_pow_64(),
    {
        let attos: u128 = self.0;
        assert(attos >> 64u128 == attos / 0x1_0000_0000_0000_0000u128) by (bit_vector);
        (attos >> 64u128) as u64
    }

    /// The low 64 bits of the number of attos.
    pub fn lower_half(self) -> (half: u64)
        ensures
            half == self.0 as int % two_pow_64(),
    {
        let attos: u128 = self.0;
        assert(attos as u64 == attos % 0x1_0000_0000_0000_0000u128) by (bit_vector);
        attos as u64
    }
}

/// The height of a block in its chain.
#[derive(Clone, Copy, Debug, PartialEq, Eq, Structural)]
pub struct BlockHeight(pub u64);

/// A point in time, in microseconds since the Unix epoch.
#[derive(Clone, Copy, Debug, PartialEq, Eq, Structural)]
pub struct Timestamp(pub u64);

impl Timestamp {
    /// The number of microseconds since the Unix epoch.
    pub fn micros(&self) -> (micros: u64)
        ensures
            micros == self.0,
    {
        self.0
    }
}

/// The resources that a message grants to, or an operation may consume on, its receiver.
#[derive(Clone, Copy, Debug, PartialEq, Eq, Structural)]
pub struct Resources {
    /// An amount of execution fuel.
    pub fuel: u64,
    /// A number of read operations to be executed.
    pub read_operations: u32,
    /// A number of write operations to be executed.
    pub write_operations: u32,
    /// A number of bytes read from runtime.
    pub bytes_to_read: u32,
    /// A number of bytes to write.
    pub bytes_to_write: u32,
    /// A number of messages to be sent.
    pub messages: u32,
    /// The size of the messages to be sent.
    pub message_size: u32,
    /// An increase in the amount of storage space.
    pub storage_size_delta: u32,
}

/// A request to send a message.
#[derive(Clone, Debug, PartialEq, Eq)]
pub struct SendMessageRequest<Message> {
    /// The destination of the message.
    pub destination: Destination,
    /// Whether the message is authenticated by the signer of the current block.
    pub authenticated: bool,
    /// Whether the message is tracked: bounced back to its sender if rejected.
    pub is_tracked: bool,
    /// The grant of resources that the message carries.
    pub grant: Resources,
    /// The message itself.
    pub message: Message,
}

} // verus!
