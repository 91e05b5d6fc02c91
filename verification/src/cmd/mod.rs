//! The commands of the protocol.
pub mod set;

pub use set::SetCommand;
