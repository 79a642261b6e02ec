//! The network: the messages that peers exchange and the decision core of the
//! network system.

pub mod message;
pub mod network;
