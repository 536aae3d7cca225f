//! Core logic of a microphone-to-network audio streamer: sample frame
//! encoding, the producer/consumer buffer channel, capture-device selection,
//! and the send-loop state machine for the TCP and UDP transports.

pub mod channel;
pub mod codec;
pub mod config;
pub mod device;
pub mod sender;
