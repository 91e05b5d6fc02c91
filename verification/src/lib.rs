//! A small Redis-protocol library: the frames of the protocol, a cursor
//! that reads command arguments from them, the `SET` command with its wire
//! form, the server's shutdown listener, the command line's argument
//! conversions, and a future wrapper that measures how long a future took.
use vstd::prelude::*;

pub mod bytes_buf;
pub mod cli;
pub mod cmd;
pub mod duration;
pub mod frame;
pub mod parse;
pub mod shutdown;
pub mod text;
pub mod timed;

verus! {

/// Default port that a redis server listens on.
///
/// Used if no port is specified.
pub const DEFAULT_PORT: u16 = 6379;

} // verus!
