//! The library's error type.
use vstd::prelude::*;

verus! {

/// Errors the library's decisions produce; I/O and transport failures are
/// reported by the program around it.
#[derive(Debug, Clone)]
pub enum Error {
    /// Configuration is missing or a user-supplied selector is invalid.
    Config(String),
    /// Daraja answered with something other than what was asked for.
    Api(String),
}

/// The view of an error: its variant and its message.
pub open spec fn config_error(e: Error, msg: Seq<char>) -> bool {
    e matches Error::Config(m) && m@ == msg
}

pub open spec fn api_error(e: Error, msg: Seq<char>) -> bool {
    e matches Error::Api(m) && m@ == msg
}

} // verus!
