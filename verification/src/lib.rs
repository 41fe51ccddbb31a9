//! Control plane of a trunked-radio receiver.
//!
//! The receive task follows a trunking control channel, decides from the
//! decoded protocol events which frequency the receiver is tuned to, and hands
//! voice frames to the audio task. Both tasks are written as transition
//! functions: they take one event and return the messages to deliver, in
//! order, so that the surrounding program only moves messages between queues.

pub mod audio;
pub mod encrypted;
pub mod guarantees;
pub mod hub;
pub mod message;
pub mod recv;
pub mod sdr;
