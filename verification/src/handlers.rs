//! What the hub does with each kind of device, apart from the I/O itself.
//!
//! A controller sends button events (`TAG_BUTTON_EVENT, id, action`); the
//! hub records them, turns a press of buttons 0, 1, 2 into a red, green or
//! blue command for light 0 that every light receives, and answers the
//! controller with LED feedback (white while pressed, off when released).
//! A sensor sends readings (`TAG_SENSOR_VALUE, high, low`). A monitor sends
//! `TAG_STATE_QUERY` and receives the state as a length-prefixed document.
//!
//! Incoming bytes are decoded by small state machines fed one byte at a
//! time: a byte where a tag is expected that is not the right tag is
//! skipped, which is how a handler ignores an unexpected tag.

use vstd::prelude::*;

use crate::hub_actor::{Button, LightColor};
use crate::protocol::{
    Color, DeviceType, TAG_BUTTON_EVENT, TAG_LED_FEEDBACK, TAG_LIGHT_CMD, TAG_SENSOR_VALUE, TAG_STATE_QUERY,
};

verus! {

/// The outcome of feeding one byte to a decoder.
#[derive(Debug, PartialEq, Eq, Structural)]
pub enum RxEvent<T> {
    /// The byte was taken; a message is still incomplete.
    Pending,
    /// A tag was expected and this byte is not the right tag; it is skipped.
    Ignored(u8),
    /// The byte completed a message.
    Ready(T),
}

/// The messages that a decoder completes along a run, in order.
pub open spec fn events_of<T>(e: RxEvent<T>) -> Seq<T> {
    match e {
        RxEvent::Ready(t) => seq![t],
        _ => Seq::empty(),
    }
}

// ----------------------------------------------------------------------
// Controller
// ----------------------------------------------------------------------

/// Where the decoding of a controller's byte stream stands.
#[derive(Debug, Clone, Copy, PartialEq, Eq, Structural)]
pub enum ControllerRx {
    /// Waiting for `TAG_BUTTON_EVENT`.
    AwaitTag,
    /// Waiting for the button id.
    AwaitButton,
    /// Waiting for the action byte of button `button_id`.
    AwaitAction { button_id: u8 },
}

impl ControllerRx {
    /// One decoding step. The action byte `0x01` means pressed; any other
    /// action byte means released.
    pub open spec fn step(self, b: u8) -> (ControllerRx, RxEvent<Button>) {
        match self {
            ControllerRx::AwaitTag => if b == TAG_BUTTON_EVENT {
                (ControllerRx::AwaitButton, RxEvent::Pending)
            } else {
                (ControllerRx::AwaitTag, RxEvent::Ignored(b))
            },
            ControllerRx::AwaitButton => (
                ControllerRx::AwaitAction { button_id: b },
                RxEvent::Pending,
            ),
            ControllerRx::AwaitAction { button_id } => (
                ControllerRx::AwaitTag,
                RxEvent::Ready(Button { button_id, is_pressed: b == 0x01 }),
            ),
        }
    }

    /// The state reached and the button events completed after feeding
    /// `bytes` in order.
    pub open spec fn run(self, bytes: Seq<u8>) -> (ControllerRx, Seq<Button>)
        decreases bytes.len(),
    {
        if bytes.len() == 0 {
            (self, Seq::empty())
        } else {
            let (next, e) = self.step(bytes[0]);
            let (last, rest) = next.run(bytes.drop_first());
            (last, events_of(e) + rest)
        }
    }

    /// The decoder of a freshly connected controller.
    pub fn new() -> (rx: ControllerRx)
        ensures
            rx == ControllerRx::AwaitTag,
    {
        ControllerRx::AwaitTag
    }

    /// Feeds one byte.
    pub fn on_byte(self, b: u8) -> (res: (ControllerRx, RxEvent<Button>))
        ensures
            res == self.step(b),
    {
        match self {
            ControllerRx::AwaitTag => {
                if b == TAG_BUTTON_EVENT {
                    (ControllerRx::AwaitButton, RxEvent::Pending)
                } else {
                    (ControllerRx::AwaitTag, RxEvent::Ignored(b))
                }
            },
            ControllerRx::AwaitButton => (ControllerRx::AwaitAction { button_id: b }, RxEvent::Pending),
            ControllerRx::AwaitAction { button_id } => (
                ControllerRx::AwaitTag,
                RxEvent::Ready(Button { button_id, is_pressed: b == 0x01 }),
            ),
        }
    }
}

/// The colour that a press of `button_id` gives light 0: red, green and
/// blue for buttons 0, 1 and 2; none for any other button.
pub open spec fn button_color(button_id: u8) -> Option<Color> {
    if button_id == 0 {
        Some(Color::rgb(255, 0, 0))
    } else if button_id == 1 {
        Some(Color::rgb(0, 255, 0))
    } else if button_id == 2 {
        Some(Color::rgb(0, 0, 255))
    } else {
        None
    }
}

/// The light command that every light receives for colour `c`.
pub open spec fn light_command_bytes(c: Color) -> Seq<u8> {
    seq![TAG_LIGHT_CMD, c.r, c.g, c.b]
}

/// The LED feedback for a button: white while pressed, off when released.
pub open spec fn led_feedback_bytes(button_id: u8, is_pressed: bool) -> Seq<u8> {
    let v: u8 = if is_pressed {
        255
    } else {
        0
    };
    seq![TAG_LED_FEEDBACK, button_id, v, v, v]
}

/// The colour for a pressed button, if it has one.
pub fn color_for_button(button_id: u8) -> (c: Option<Color>)
    ensures
        c == button_color(button_id),
{
    match button_id {
        0 => Some(Color::red()),
        1 => Some(Color::green()),
        2 => Some(Color::blue()),
        _ => None,
    }
}

/// One thing the hub does in answer to a button event.
#[derive(Debug, Clone, Copy, PartialEq, Eq)]
pub enum ControllerEffect {
    /// Record the button's new state in the hub's state.
    RecordButton(Button),
    /// Record a light's new colour in the hub's state.
    RecordLight(LightColor),
    /// Send this light command to every connected light.
    BroadcastLight([u8; 4]),
    /// Send this LED feedback back to the controller.
    SendFeedback([u8; 5]),
}

/// The hub's reaction to a button event, as the effects to carry out in
/// order. The button is always recorded first. A press of a button that
/// has a colour then records light 0 in that colour and broadcasts the
/// matching light command. The controller gets LED feedback for the button
/// last.
pub fn react_to_button(event: Button) -> (effects: Vec<ControllerEffect>)
    ensures
        effects@.len() > 0,
        effects@[0] == ControllerEffect::RecordButton(event),
        effects@.last() matches ControllerEffect::SendFeedback(f) && f@ == led_feedback_bytes(
            event.button_id,
            event.is_pressed,
        ),
        (event.is_pressed && button_color(event.button_id) is Some) ==> {
            &&& effects@.len() == 4
            &&& effects@[1] == ControllerEffect::RecordLight(
                LightColor { light_id: 0, color: button_color(event.button_id).unwrap() },
            )
            &&& effects@[2] matches ControllerEffect::BroadcastLight(cmd) && cmd@
                == light_command_bytes(button_color(event.button_id).unwrap())
        },
        !(event.is_pressed && button_color(event.button_id) is Some) ==> effects@.len() == 2,
{
    let mut effects: Vec<ControllerEffect> = Vec::new();
    effects.push(ControllerEffect::RecordButton(event));
    if event.is_pressed {
        match color_for_button(event.button_id) {
            Some(c) => {
                effects.push(ControllerEffect::RecordLight(LightColor { light_id: 0, color: c }));
                let cmd = [TAG_LIGHT_CMD, c.r, c.g, c.b];
                assert(cmd@ =~= light_command_bytes(c));
                effects.push(ControllerEffect::BroadcastLight(cmd));
            },
            None => {},
        }
    }
    let v: u8 = if event.is_pressed {
        255
    } else {
        0
    };
    let feedback = [TAG_LED_FEEDBACK, event.button_id, v, v, v];
    assert(feedback@ =~= led_feedback_bytes(event.button_id, event.is_pressed));
    effects.push(ControllerEffect::SendFeedback(feedback));
    effects
}

/// What a device's connection is handled as, once the handshake has said
/// what the device is.
#[derive(Debug, Clone, Copy, PartialEq, Eq, Structural)]
pub enum HandlerKind {
    /// Read button events, update the state, command the lights, answer
    /// with LED feedback.
    ButtonEvents,
    /// Forward every light command to the device.
    LightForwarding,
    /// Read sensor readings into the state.
    SensorReadings,
    /// Answer state queries with the serialised state.
    StateQueries,
}

/// Routes a device to its handler: controllers to button events, lights to
/// light forwarding, sensors to sensor readings, monitors to state queries.
pub fn route(dev_type: DeviceType) -> (h: HandlerKind)
    ensures
        h == match dev_type {
            DeviceType::Controller => HandlerKind::ButtonEvents,
            DeviceType::Light => HandlerKind::LightForwarding,
            DeviceType::Sensor => HandlerKind::SensorReadings,
            DeviceType::Monitor => HandlerKind::StateQueries,
        },
{
    match dev_type {
        DeviceType::Controller => HandlerKind::ButtonEvents,
        DeviceType::Light => HandlerKind::LightForwarding,
        DeviceType::Sensor => HandlerKind::SensorReadings,
        DeviceType::Monitor => HandlerKind::StateQueries,
    }
}

// ----------------------------------------------------------------------
// Sensor
// ----------------------------------------------------------------------

/// The big-endian value of two bytes.
pub open spec fn be_u16(high: u8, low: u8) -> u16 {
    (high as int * 256 + low as int) as u16
}

/// Where the decoding of a sensor's byte stream stands.
#[derive(Debug, Clone, Copy, PartialEq, Eq, Structural)]
pub enum SensorRx {
    /// Waiting for `TAG_SENSOR_VALUE`.
    AwaitTag,
    /// Waiting for the high byte of the value.
    AwaitHigh,
    /// Waiting for the low byte; `high` is the high byte.
    AwaitLow { high: u8 },
}

impl SensorRx {
    /// One decoding step; a reading is the big-endian value of its two bytes.
    pub open spec fn step(self, b: u8) -> (SensorRx, RxEvent<u16>) {
        match self {
            SensorRx::AwaitTag => if b == TAG_SENSOR_VALUE {
                (SensorRx::AwaitHigh, RxEvent::Pending)
            } else {
                (SensorRx::AwaitTag, RxEvent::Ignored(b))
            },
            SensorRx::AwaitHigh => (SensorRx::AwaitLow { high: b }, RxEvent::Pending),
            SensorRx::AwaitLow { high } => (SensorRx::AwaitTag, RxEvent::Ready(be_u16(high, b))),
        }
    }

    /// The state reached and the readings completed after feeding `bytes`.
    pub open spec fn run(self, bytes: Seq<u8>) -> (SensorRx, Seq<u16>)
        decreases bytes.len(),
    {
        if bytes.len() == 0 {
            (self, Seq::empty())
        } else {
            let (next, e) = self.step(bytes[0]);
            let (last, rest) = next.run(bytes.drop_first());
            (last, events_of(e) + rest)
        }
    }

    /// The decoder of a freshly connected sensor.
    pub fn new() -> (rx: SensorRx)
        ensures
            rx == SensorRx::AwaitTag,
    {
        SensorRx::AwaitTag
    }

    /// Feeds one byte.
    pub fn on_byte(self, b: u8) -> (res: (SensorRx, RxEvent<u16>))
        ensures
            res == self.step(b),
    {
        match self {
            SensorRx::AwaitTag => {
                if b == TAG_SENSOR_VALUE {
                    (SensorRx::AwaitHigh, RxEvent::Pending)
                } else {
                    (SensorRx::AwaitTag, RxEvent::Ignored(b))
                }
            },
            SensorRx::AwaitHigh => (SensorRx::AwaitLow { high: b }, RxEvent::Pending),
            SensorRx::AwaitLow { high } => {
                let value: u16 = (high as u16) * 256 + (b as u16);
                (SensorRx::AwaitTag, RxEvent::Ready(value))
            },
        }
    }
}

// ----------------------------------------------------------------------
// Monitor
// ----------------------------------------------------------------------

/// What the hub does with one byte from a monitor.
#[derive(Debug, Clone, Copy, PartialEq, Eq, Structural)]
pub enum MonitorAction {
    /// Send the current state.
    SendState,
    /// Any other byte ends the monitor's session.
    Disconnect,
}

/// A monitor's byte is a state query or ends the session.
pub fn monitor_action(tag: u8) -> (a: MonitorAction)
    ensures
        a == (if tag == TAG_STATE_QUERY {
            MonitorAction::SendState
        } else {
            MonitorAction::Disconnect
        }),
{
    if tag == TAG_STATE_QUERY {
        MonitorAction::SendState
    } else {
        MonitorAction::Disconnect
    }
}

/// The four big-endian bytes of `n`.
pub open spec fn be_u32_bytes(n: u32) -> Seq<u8> {
    seq![
        (n / 0x1000000) as u8,
        (n / 0x10000 % 0x100) as u8,
        (n / 0x100 % 0x100) as u8,
        (n % 0x100) as u8,
    ]
}

/// The length prefix for a document of `len` bytes: the length, cut to 32
/// bits, in big-endian order.
pub open spec fn length_prefix(len: nat) -> Seq<u8> {
    be_u32_bytes((len % 0x1_0000_0000) as u32)
}

/// The big-endian bytes of a 32-bit value.
pub fn u32_to_be(n: u32) -> (r: [u8; 4])
    ensures
        r@ == be_u32_bytes(n),
{
    let r = [
        (n / 0x1000000) as u8,
        (n / 0x10000 % 0x100) as u8,
        (n / 0x100 % 0x100) as u8,
        (n % 0x100) as u8,
    ];
    assert(r@ =~= be_u32_bytes(n));
    r
}

/// The answer to a state query: the document's length prefix followed by
/// the document.
pub fn frame_state_response(document: &[u8]) -> (r: Vec<u8>)
    ensures
        r@ == length_prefix(document@.len()) + document@,
{
    let len: u64 = document.len() as u64;
    let n: u32 = (len % 0x1_0000_0000) as u32;
    let prefix = u32_to_be(n);
    let mut out: Vec<u8> = Vec::new();
    out.push(prefix[0]);
    out.push(prefix[1]);
    out.push(prefix[2]);
    out.push(prefix[3]);
    assert(out@ =~= length_prefix(document@.len()));
    let mut i: usize = 0;
    while i < document.len()
        invariant
            0 <= i <= document@.len(),
            out@ == length_prefix(document@.len()) + document@.subrange(0, i as int),
        decreases document@.len() - i,
    {
        out.push(document[i]);
        i = i + 1;
        assert(out@ =~= length_prefix(document@.len()) + document@.subrange(0, i as int));
    }
    assert(document@.subrange(0, document@.len() as int) =~= document@);
    out
}

} // verus!
