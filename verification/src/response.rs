//! The response envelope common to all commands.

use vstd::prelude::*;

verus! {

/// A device response: a status code, the device's timestamp, the
/// command-specific message payload, and a free-form description.
///
/// Code `0` is success; negative codes report parameter, command or
/// authentication errors as the device defines them — callers branch on
/// `code != 0`.
#[derive(Debug, Clone)]
pub struct Response<T> {
    /// Response code.
    pub code: i8,
    /// UNIX timestamp set by the device.
    pub when: u64,
    /// Response message, one shape per command.
    pub msg: T,
    /// Called command, or further description.
    pub desc: String,
}

} // verus!
