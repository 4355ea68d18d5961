//! Core of a small firmware image: the operations that the firmware exports
//! under the C calling convention, and the data that its serial diagnostic
//! hands to the transmit primitive.

pub mod arith;
pub mod uart;

pub use arith::add;
