//! Error types of the handshake and of the device handlers.

use vstd::prelude::*;

verus! {

/// `std::io::Error`, carried through opaquely: the library never looks
/// inside an I/O error, it only hands it on.
#[verifier::external_type_specification]
#[verifier::external_body]
pub struct ExIoError(std::io::Error);

/// initial handshake errors
#[derive(Debug)]
pub enum ConnectionError {
    /// The first byte was not the handshake magic.
    HandshakeError,
    /// Reading from or writing to the peer failed.
    IoError(std::io::Error),
    /// The announced device type byte names no known device.
    DevicetypeError(u8),
}

/// devices handlers errors
#[derive(Debug)]
pub enum HubError {
    /// Reading from or writing to the peer failed.
    IoError(std::io::Error),
    /// The peer closed the connection.
    Disconnected,
}

} // verus!
