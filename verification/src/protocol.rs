//! Wire constants, device and button codes, and colours.

use vstd::prelude::*;

verus! {

pub const HANDSHAKE_MAGIC: u8 = 0xA0;

pub const HANDSHAKE_ACK: u8 = 0xAC;

pub const TAG_BUTTON_EVENT: u8 = 0x01;

pub const TAG_LED_FEEDBACK: u8 = 0x02;

pub const TAG_LIGHT_CMD: u8 = 0x03;

pub const TAG_SENSOR_VALUE: u8 = 0x04;

pub const TAG_STATE_QUERY: u8 = 0x10;

/// Devices type (identified upon the handshake)
#[derive(Debug, Clone, Copy, PartialEq, Eq, Structural)]
pub enum DeviceType {
    Controller,
    Light,
    Sensor,
    Monitor,
}

impl DeviceType {
    /// The byte that announces this device type in the handshake.
    pub open spec fn code(self) -> u8 {
        match self {
            DeviceType::Controller => 0x01,
            DeviceType::Light => 0x02,
            DeviceType::Sensor => 0x03,
            DeviceType::Monitor => 0xFF,
        }
    }

    /// Whether `b` announces some device type.
    pub open spec fn is_code(b: u8) -> bool {
        b == 0x01 || b == 0x02 || b == 0x03 || b == 0xFF
    }

    /// The device type that a known code announces.
    pub open spec fn of_code(b: u8) -> DeviceType {
        if b == 0x01 {
            DeviceType::Controller
        } else if b == 0x02 {
            DeviceType::Light
        } else if b == 0x03 {
            DeviceType::Sensor
        } else {
            DeviceType::Monitor
        }
    }

    /// Decodes a device type byte: `Some` exactly for the four known codes,
    /// and then the type whose code is `b`.
    pub fn from_byte(b: u8) -> (r: Option<Self>)
        ensures
            r is Some <==> Self::is_code(b),
            r matches Some(t) ==> t.code() == b,
    {
        match b {
            0x01 => Some(Self::Controller),
            0x02 => Some(Self::Light),
            0x03 => Some(Self::Sensor),
            0xFF => Some(Self::Monitor),
            _ => None,
        }
    }
}

/// Button actions
#[derive(Debug, Clone, Copy, PartialEq, Eq, Structural)]
pub enum ButtonAction {
    Pressed,
    Released,
}

impl ButtonAction {
    /// The byte that encodes this action.
    pub open spec fn code(self) -> u8 {
        match self {
            ButtonAction::Pressed => 0x01,
            ButtonAction::Released => 0x00,
        }
    }

    /// Decodes an action byte: `Some` exactly for `0x01` and `0x00`, and then
    /// the action whose code is `b`.
    pub fn from_byte(b: u8) -> (r: Option<Self>)
        ensures
            r is Some <==> (b == 0x01 || b == 0x00),
            r matches Some(a) ==> a.code() == b,
    {
        match b {
            0x01 => Some(Self::Pressed),
            0x00 => Some(Self::Released),
            _ => None,
        }
    }
}

/// light colors RGB .
#[derive(Debug, Clone, Copy, Default, PartialEq, Eq, Structural)]
pub struct Color {
    pub r: u8,
    pub g: u8,
    pub b: u8,
}

impl Color {
    /// Builds a colour from its three channels.
    pub open spec fn rgb(r: u8, g: u8, b: u8) -> Color {
        Color { r, g, b }
    }

    /// All channels off.
    pub fn off() -> (c: Color)
        ensures
            c == Color::rgb(0, 0, 0),
    {
        Color { r: 0, g: 0, b: 0 }
    }

    /// All channels full.
    pub fn white() -> (c: Color)
        ensures
            c == Color::rgb(255, 255, 255),
    {
        Color { r: 255, g: 255, b: 255 }
    }

    pub fn red() -> (c: Color)
        ensures
            c == Color::rgb(255, 0, 0),
    {
        Color { r: 255, g: 0, b: 0 }
    }

    pub fn green() -> (c: Color)
        ensures
            c == Color::rgb(0, 255, 0),
    {
        Color { r: 0, g: 255, b: 0 }
    }

    pub fn blue() -> (c: Color)
        ensures
            c == Color::rgb(0, 0, 255),
    {
        Color { r: 0, g: 0, b: 255 }
    }
}

} // verus!
