//! The connection handshake, as a state machine driven one byte at a time.
//!
//! A client sends the magic byte, waits for the acknowledgement, then sends
//! its device type byte and its device id byte. The caller reads each byte
//! from the peer, feeds it to [`Handshake::on_byte`], and performs the
//! returned [`HandshakeAction`].

use vstd::prelude::*;

use crate::error::ConnectionError;
use crate::protocol::{DeviceType, HANDSHAKE_MAGIC};

verus! {

/// Where the handshake stands.
#[derive(Debug, Clone, Copy, PartialEq, Eq, Structural)]
pub enum Handshake {
    /// Waiting for the magic byte.
    AwaitMagic,
    /// The magic was accepted and acknowledged; waiting for the device type.
    AwaitType,
    /// Waiting for the device id; `type_byte` is the announced type.
    AwaitId { type_byte: u8 },
    /// The handshake is over, accepted or refused.
    Finished,
}

/// What the caller does after feeding one byte.
#[derive(Debug)]
pub enum HandshakeAction {
    /// Send [`HANDSHAKE_ACK`] to the peer (and flush), then read the next byte.
    SendAck,
    /// Read the next byte.
    ReadNext,
    /// The handshake failed.
    Fail(ConnectionError),
    /// The peer is a device of type `dev_type` with id `dev_id`.
    Identified { dev_type: DeviceType, dev_id: u8 },
}

impl Handshake {
    /// The state of a fresh connection.
    pub fn start() -> (h: Handshake)
        ensures
            h == Handshake::AwaitMagic,
    {
        Handshake::AwaitMagic
    }

    /// One handshake step. The magic byte is acknowledged and anything else
    /// in its place refuses the connection; the type byte is kept; the id
    /// byte ends the handshake, identifying the device when the type byte
    /// names a known type and failing with that type byte otherwise.
    pub open spec fn step(self, b: u8) -> (Handshake, HandshakeAction) {
        match self {
            Handshake::AwaitMagic => if b == HANDSHAKE_MAGIC {
                (Handshake::AwaitType, HandshakeAction::SendAck)
            } else {
                (Handshake::Finished, HandshakeAction::Fail(ConnectionError::HandshakeError))
            },
            Handshake::AwaitType => (Handshake::AwaitId { type_byte: b }, HandshakeAction::ReadNext),
            Handshake::AwaitId { type_byte } => (
                Handshake::Finished,
                if DeviceType::is_code(type_byte) {
                    HandshakeAction::Identified { dev_type: DeviceType::of_code(type_byte), dev_id: b }
                } else {
                    HandshakeAction::Fail(ConnectionError::DevicetypeError(type_byte))
                },
            ),
            Handshake::Finished => (Handshake::Finished, HandshakeAction::Fail(ConnectionError::HandshakeError)),
        }
    }

    /// Feeds one byte of an unfinished handshake.
    pub fn on_byte(self, b: u8) -> (res: (Handshake, HandshakeAction))
        requires
            self != Handshake::Finished,
        ensures
            res == self.step(b),
    {
        match self {
            Handshake::AwaitMagic => {
                if b == HANDSHAKE_MAGIC {
                    (Handshake::AwaitType, HandshakeAction::SendAck)
                } else {
                    (Handshake::Finished, HandshakeAction::Fail(ConnectionError::HandshakeError))
                }
            },
            Handshake::AwaitType => (Handshake::AwaitId { type_byte: b }, HandshakeAction::ReadNext),
            Handshake::AwaitId { type_byte } => {
                match DeviceType::from_byte(type_byte) {
                    Some(dev_type) => (
                        Handshake::Finished,
                        HandshakeAction::Identified { dev_type, dev_id: b },
                    ),
                    None => (
                        Handshake::Finished,
                        HandshakeAction::Fail(ConnectionError::DevicetypeError(type_byte)),
                    ),
                }
            },
            Handshake::Finished => (
                Handshake::Finished,
                HandshakeAction::Fail(ConnectionError::HandshakeError),
            ),
        }
    }
}

} // verus!
