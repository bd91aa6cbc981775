//! NetMic: a network microphone. This library holds the wire framing of the
//! UDP datagrams, the protocol data types, and the state machines of the
//! sender and the receiver, each with its contract.

pub mod audio;
pub mod client;
pub mod config;
pub mod control;
pub mod datagram;
pub mod pactl;
pub mod protocol;
pub mod server;
pub mod text;
pub mod ui;
