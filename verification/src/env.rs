//! Plain identities and per-invocation context supplied by the hosting
//! message-passing environment.

use vstd::prelude::*;

verus! {

/// Identity of an actor (a program or a user) in the hosting environment.
#[derive(Clone, Copy, Debug, PartialEq, Eq, Structural)]
pub struct ActorId(pub u64);

/// Identifier of a single message. A request's identifier correlates it with
/// its eventual reply; the identifier of a suspended inbound message is the
/// handle used to wake it.
#[derive(Clone, Copy, Debug, PartialEq, Eq, Structural)]
pub struct MessageId(pub u64);

/// What the environment tells a handler invocation about the message it is
/// processing. The host dispatcher fills this in; the coordinator only reads
/// it.
#[derive(Clone, Copy, Debug, PartialEq, Eq, Structural)]
pub struct MessageContext {
    /// The actor that sent the inbound message.
    pub source: ActorId,
    /// Identifier of the inbound message itself.
    pub message_id: MessageId,
    /// The environment's logical clock (block height) at delivery time.
    pub block_height: u32,
    /// The identifier the environment will assign to a request sent by this
    /// invocation, should it send one.
    pub outbound_message_id: MessageId,
}

} // verus!
