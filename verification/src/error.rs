//! The failure taxonomy shared by the library and the I/O shell around it.

use vstd::prelude::*;

verus! {

/// Every public operation reports its failure as one of these variants.
///
/// Variants that describe transport or channel failures are produced by the
/// I/O shell that owns the socket; the library itself produces the framing,
/// crypto and protocol-contract variants.
#[derive(Debug)]
pub enum Error {
    /// Transport failure, or a frame the codec rejects; the text says which.
    Io(String),
    /// Malformed or unexpected JSON in a device response.
    Json(String),
    /// The actor's work queue was closed before the item could be submitted.
    SendMPSC,
    /// The reply slot was dropped before any result was delivered.
    RecvOneshot,
    /// The handshake response carried no salt value.
    SaltNotFound,
    /// A token did not survive the hash-to-bytes decoding step.
    CurraptedToken,
    /// A command that requires encrypted parameters was built without
    /// authentication data; carries the command name.
    CommandSholdHaveAuthData(&'static str),
    /// The hash digest was not valid hexadecimal.
    Hex,
    /// The symmetric key handed to the cipher was not exactly 32 bytes.
    EncryptionFailed,
}

} // verus!
