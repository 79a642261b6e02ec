//! Messages between peers, the receivers a message is sent to, and the tasks
//! that the network hands to the game.

use vstd::prelude::*;

verus! {

/// The address of a peer: the plain values of a socket address.
#[derive(Clone, Copy, Debug, PartialEq, Eq, Hash, Structural)]
pub struct PeerAddress {
    /// Whether the address is an IPv6 one.
    pub is_ipv6: bool,
    /// The IP address as an integer (an IPv4 address in the low 32 bits).
    pub ip: u128,
    /// The port.
    pub port: u16,
    /// The IPv6 flow information (0 for IPv4).
    pub flowinfo: u32,
    /// The IPv6 scope id (0 for IPv4).
    pub scope_id: u32,
}

/// A message between two peers. `F` is the type of the real-valued
/// coordinates that a message carries; the network passes them on unchanged.
#[derive(Clone, Copy, Debug, PartialEq)]
pub enum Message<F> {
    /// A client greets the server.
    Greeting { id: u16 },
    /// Acknowledges the message with id `message_id`.
    Response { message_id: u16 },
    /// An actor appears.
    ActorSpawn { id: u16, public_id: u16, x: F, y: F, angle: F },
    /// A client is granted control of an actor.
    ActorGrant { id: u16, public_id: u16 },
    /// An actor moves and turns.
    ActorAction { id: u16, public_id: u16, move_x: F, move_y: F, angle: F },
    /// The position of an actor, as the server sees it.
    TransformSync { id: u16, public_id: u16, x: F, y: F },
}

/// The id of a message that asks to be acknowledged.
pub open spec fn message_id_of<F>(message: Message<F>) -> Option<u16> {
    match message {
        Message::Greeting { id } => Some(id),
        Message::Response { .. } => None,
        Message::ActorSpawn { id, .. } => Some(id),
        Message::ActorGrant { id, .. } => Some(id),
        Message::ActorAction { id, .. } => Some(id),
        Message::TransformSync { id, .. } => Some(id),
    }
}

impl<F> Message<F> {
    /// The id of the message, where it asks to be acknowledged; a response
    /// has none.
    pub fn get_id(&self) -> (r: Option<u16>)
        ensures
            r == message_id_of(*self),
    {
        match self {
            Message::Greeting { id } => Some(*id),
            Message::Response { .. } => None,
            Message::ActorSpawn { id, .. } => Some(*id),
            Message::ActorGrant { id, .. } => Some(*id),
            Message::ActorAction { id, .. } => Some(*id),
            Message::TransformSync { id, .. } => Some(*id),
        }
    }
}

/// The peers that a message is sent to.
#[derive(Clone, Copy, Debug, PartialEq, Eq, Structural)]
pub enum MessageReceiver {
    /// Only the peer with this address.
    Only(PeerAddress),
    /// Every peer.
    Every,
    /// Every peer but the one with this address.
    Except(PeerAddress),
}

/// Whether `receiver` takes in the peer at `address`.
pub open spec fn accepts(receiver: MessageReceiver, address: PeerAddress) -> bool {
    match receiver {
        MessageReceiver::Only(a) => address == a,
        MessageReceiver::Every => true,
        MessageReceiver::Except(a) => address != a,
    }
}

/// Work that the network hands to the game.
#[derive(Clone, Copy, Debug, PartialEq)]
pub enum GameTask<F> {
    /// A player connected from this address.
    PlayerConnect(PeerAddress),
    /// Spawn an actor.
    ActorSpawn { public_id: u16, x: F, y: F, angle: F },
    /// The local player controls this actor.
    ActorGrant(u16),
    /// Move and turn an actor.
    ActorAction { public_id: u16, move_x: F, move_y: F, angle: F },
    /// Place an actor.
    TransformSync { public_id: u16, x: F, y: F },
}

/// Work that the game hands to the network.
#[derive(Clone, Copy, Debug, PartialEq, Eq, Structural)]
pub enum NetworkTask {
    /// The peer at this address controls the actor with this public id.
    AttachPublicId(PeerAddress, u16),
}

} // verus!
