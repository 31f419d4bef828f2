//! The device side of the protocol, as used by the end-to-end checker: the
//! frames that simulated devices send, the decoding of what the hub sends
//! back, and the bookkeeping of the checker's phases.

use vstd::prelude::*;

use crate::protocol::{
    Color, HANDSHAKE_ACK, HANDSHAKE_MAGIC, TAG_BUTTON_EVENT, TAG_LED_FEEDBACK, TAG_LIGHT_CMD,
    TAG_SENSOR_VALUE,
};

verus! {

pub const DEVICE_CONTROLLER: u8 = 0x01;

pub const DEVICE_LIGHT: u8 = 0x02;

pub const DEVICE_SENSOR: u8 = 0x03;

pub const DEVICE_MONITOR: u8 = 0xFF;

/// The largest state document the checker accepts, in bytes.
pub const MAX_STATE_LEN: u32 = 1_000_000;

/// The number of phases the checker runs.
pub const PHASE_COUNT: usize = 8;

/// What the checker asks its simulated controller to do.
#[derive(Debug, Clone, Copy, PartialEq, Eq, Structural)]
pub enum ControllerCommand {
    ButtonPress(u8),
    ButtonRelease(u8),
    Shutdown,
}

impl ControllerCommand {
    /// The frame the controller sends for this command; `Shutdown` sends
    /// nothing and stops the controller.
    pub open spec fn frame(self) -> Option<Seq<u8>> {
        match self {
            ControllerCommand::ButtonPress(btn) => Some(seq![TAG_BUTTON_EVENT, btn, 0x01u8]),
            ControllerCommand::ButtonRelease(btn) => Some(seq![TAG_BUTTON_EVENT, btn, 0x00u8]),
            ControllerCommand::Shutdown => None,
        }
    }

    /// Encodes the command as the controller's wire frame.
    pub fn encode(&self) -> (r: Option<[u8; 3]>)
        ensures
            r is Some <==> self.frame() is Some,
            r matches Some(bytes) ==> bytes@ == self.frame().unwrap(),
    {
        match self {
            ControllerCommand::ButtonPress(btn) => {
                let f = [TAG_BUTTON_EVENT, *btn, 0x01];
                assert(f@ =~= self.frame().unwrap());
                Some(f)
            },
            ControllerCommand::ButtonRelease(btn) => {
                let f = [TAG_BUTTON_EVENT, *btn, 0x00];
                assert(f@ =~= self.frame().unwrap());
                Some(f)
            },
            ControllerCommand::Shutdown => None,
        }
    }
}

/// What the checker asks its simulated sensor to do.
#[derive(Debug, Clone, Copy, PartialEq, Eq, Structural)]
pub enum SensorCommand {
    SendValue(u16),
    Shutdown,
}

impl SensorCommand {
    /// The frame the sensor sends for this command: the tag and the value in
    /// big-endian order; `Shutdown` sends nothing and stops the sensor.
    pub open spec fn frame(self) -> Option<Seq<u8>> {
        match self {
            SensorCommand::SendValue(v) => Some(
                seq![TAG_SENSOR_VALUE, (v / 256) as u8, (v % 256) as u8],
            ),
            SensorCommand::Shutdown => None,
        }
    }

    /// Encodes the command as the sensor's wire frame.
    pub fn encode(&self) -> (r: Option<[u8; 3]>)
        ensures
            r is Some <==> self.frame() is Some,
            r matches Some(bytes) ==> bytes@ == self.frame().unwrap(),
    {
        match self {
            SensorCommand::SendValue(v) => {
                let f = [TAG_SENSOR_VALUE, (*v / 256) as u8, (*v % 256) as u8];
                assert(f@ =~= self.frame().unwrap());
                Some(f)
            },
            SensorCommand::Shutdown => None,
        }
    }
}

/// LED feedback as the controller reads it.
#[derive(Debug, Clone, Copy, PartialEq, Eq, Structural)]
pub struct LedFeedback {
    pub button_id: u8,
    pub r: u8,
    pub g: u8,
    pub b: u8,
}

/// A light command as a light reads it.
#[derive(Debug, Clone, Copy, PartialEq, Eq, Structural)]
pub struct LightCommand {
    pub r: u8,
    pub g: u8,
    pub b: u8,
}

impl LedFeedback {
    /// Whether this is the feedback for `button_id` in colour `c`.
    pub fn shows(&self, button_id: u8, c: Color) -> (ok: bool)
        ensures
            ok == (self.button_id == button_id && self.r == c.r && self.g == c.g && self.b == c.b),
    {
        self.button_id == button_id && self.r == c.r && self.g == c.g && self.b == c.b
    }
}

impl LightCommand {
    /// Whether this command sets colour `c`.
    pub fn shows(&self, c: Color) -> (ok: bool)
        ensures
            ok == (self.r == c.r && self.g == c.g && self.b == c.b),
    {
        self.r == c.r && self.g == c.g && self.b == c.b
    }
}

/// What can be wrong with the state a monitor reads in the checker's
/// seventh phase, after button 1 was pressed last, button 0 was released,
/// and sensor 0 reported 150.
#[derive(Debug, Clone, PartialEq, Eq)]
pub enum StateIssue {
    /// The document has no `lights` table.
    LightsMissing,
    /// The `lights` table has no entry for light 0.
    Light0Missing,
    /// Light 0 is not green; it has these channels.
    Light0Wrong { r: u8, g: u8, b: u8 },
    /// The document has no `buttons` table.
    ButtonsMissing,
    /// Button 0 is present and not `"released"`; it reads this.
    Button0NotReleased(String),
    /// Button 1 is present and not `"pressed"`; it reads this.
    Button1NotPressed(String),
    /// The document has no `sensors` table.
    SensorsMissing,
    /// The `sensors` table has no entry for sensor 0.
    Sensor0Missing,
    /// Sensor 0 does not read 150.
    Sensor0Wrong,
}

/// The issue with light 0: `light0` is `None` when the table is missing,
/// `Some(None)` when light 0 is missing, else light 0's channels.
pub open spec fn light_issues(light0: Option<Option<(u8, u8, u8)>>) -> Seq<StateIssue> {
    match light0 {
        None => seq![StateIssue::LightsMissing],
        Some(None) => seq![StateIssue::Light0Missing],
        Some(Some((r, g, b))) => if r == 0 && g == 255 && b == 0 {
            Seq::empty()
        } else {
            seq![StateIssue::Light0Wrong { r, g, b }]
        },
    }
}

/// The issues with buttons 0 and 1: `buttons` is `None` when the table is
/// missing, else what buttons 0 and 1 read, each when present.
pub open spec fn button_issues(buttons: Option<(Option<String>, Option<String>)>) -> Seq<
    StateIssue,
> {
    match buttons {
        None => seq![StateIssue::ButtonsMissing],
        Some((b0, b1)) => {
            let i0 = match b0 {
                Some(s) => if s@ == "released"@ {
                    Seq::empty()
                } else {
                    seq![StateIssue::Button0NotReleased(s)]
                },
                None => Seq::empty(),
            };
            let i1 = match b1 {
                Some(s) => if s@ == "pressed"@ {
                    Seq::empty()
                } else {
                    seq![StateIssue::Button1NotPressed(s)]
                },
                None => Seq::empty(),
            };
            i0 + i1
        },
    }
}

/// The issue with sensor 0: `sensor0` is `None` when the table is missing,
/// `Some(None)` when sensor 0 is missing, else its reading as a whole
/// number, if it is one.
pub open spec fn sensor_issues(sensor0: Option<Option<Option<u64>>>) -> Seq<StateIssue> {
    match sensor0 {
        None => seq![StateIssue::SensorsMissing],
        Some(None) => seq![StateIssue::Sensor0Missing],
        Some(Some(v)) => if v == Some(150u64) {
            Seq::empty()
        } else {
            seq![StateIssue::Sensor0Wrong]
        },
    }
}

/// Checks the state read in the seventh phase: light 0 green, button 0
/// released, button 1 pressed, sensor 0 at 150. The issues come in that
/// order; the phase passes when there are none.
pub fn state_issues(
    light0: Option<Option<(u8, u8, u8)>>,
    buttons: Option<(Option<String>, Option<String>)>,
    sensor0: Option<Option<Option<u64>>>,
) -> (issues: Vec<StateIssue>)
    ensures
        issues@ == light_issues(light0) + button_issues(buttons) + sensor_issues(sensor0),
{
    let ghost g_buttons = buttons;
    let mut issues: Vec<StateIssue> = Vec::new();
    match light0 {
        None => issues.push(StateIssue::LightsMissing),
        Some(None) => issues.push(StateIssue::Light0Missing),
        Some(Some((r, g, b))) => {
            if !(r == 0 && g == 255 && b == 0) {
                issues.push(StateIssue::Light0Wrong { r, g, b });
            }
        },
    }
    assert(issues@ =~= light_issues(light0));
    let ghost after_lights = issues@;
    match buttons {
        None => issues.push(StateIssue::ButtonsMissing),
        Some((b0, b1)) => {
            match b0 {
                Some(s) => {
                    if !(s == "released".to_owned()) {
                        issues.push(StateIssue::Button0NotReleased(s));
                    }
                },
                None => {},
            }
            match b1 {
                Some(s) => {
                    if !(s == "pressed".to_owned()) {
                        issues.push(StateIssue::Button1NotPressed(s));
                    }
                },
                None => {},
            }
        },
    }
    assert(issues@ =~= after_lights + button_issues(g_buttons));
    let ghost after_buttons = issues@;
    match sensor0 {
        None => issues.push(StateIssue::SensorsMissing),
        Some(None) => issues.push(StateIssue::Sensor0Missing),
        Some(Some(v)) => {
            let ok = match v {
                Some(n) => n == 150,
                None => false,
            };
            if !ok {
                issues.push(StateIssue::Sensor0Wrong);
            }
        },
    }
    assert(issues@ =~= after_buttons + sensor_issues(sensor0));
    issues
}

/// The first bytes a device sends: the magic, its type and its id.
pub fn handshake_request(device_type: u8, device_id: u8) -> (r: [u8; 3])
    ensures
        r@ == seq![HANDSHAKE_MAGIC, device_type, device_id],
{
    let r = [HANDSHAKE_MAGIC, device_type, device_id];
    assert(r@ =~= seq![HANDSHAKE_MAGIC, device_type, device_id]);
    r
}

/// Whether the hub's answer to the handshake is the acknowledgement.
pub fn is_handshake_ack(b: u8) -> (ok: bool)
    ensures
        ok == (b == HANDSHAKE_ACK),
{
    b == HANDSHAKE_ACK
}

/// Reads a five-byte frame from the hub as LED feedback: `Some` exactly
/// when it starts with `TAG_LED_FEEDBACK`; other frames are skipped.
pub fn decode_led_feedback(buf: [u8; 5]) -> (r: Option<LedFeedback>)
    ensures
        r is Some <==> buf@[0] == TAG_LED_FEEDBACK,
        r matches Some(fb) ==> fb == (LedFeedback {
            button_id: buf@[1],
            r: buf@[2],
            g: buf@[3],
            b: buf@[4],
        }),
{
    if buf[0] == TAG_LED_FEEDBACK {
        Some(LedFeedback { button_id: buf[1], r: buf[2], g: buf[3], b: buf[4] })
    } else {
        None
    }
}

/// Reads a four-byte frame from the hub as a light command: `Some` exactly
/// when it starts with `TAG_LIGHT_CMD`; other frames are skipped.
pub fn decode_light_command(buf: [u8; 4]) -> (r: Option<LightCommand>)
    ensures
        r is Some <==> buf@[0] == TAG_LIGHT_CMD,
        r matches Some(cmd) ==> cmd == (LightCommand { r: buf@[1], g: buf@[2], b: buf@[3] }),
{
    if buf[0] == TAG_LIGHT_CMD {
        Some(LightCommand { r: buf[1], g: buf[2], b: buf[3] })
    } else {
        None
    }
}

/// The value of four big-endian bytes.
pub open spec fn be_u32_value(s: Seq<u8>) -> int {
    s[0] as int * 0x1000000 + s[1] as int * 0x10000 + s[2] as int * 0x100 + s[3] as int
}

/// The length announced by the four-byte prefix of the hub's answer to a
/// state query: `Ok` with the length when it is at most `MAX_STATE_LEN`,
/// `Err` with the announced length otherwise.
pub fn response_length(len_buf: [u8; 4]) -> (r: Result<usize, u32>)
    ensures
        be_u32_value(len_buf@) <= MAX_STATE_LEN ==> r == Ok::<usize, u32>(
            be_u32_value(len_buf@) as usize,
        ),
        be_u32_value(len_buf@) > MAX_STATE_LEN ==> r == Err::<usize, u32>(
            be_u32_value(len_buf@) as u32,
        ),
{
    let n: u32 = (len_buf[0] as u32) * 0x1000000 + (len_buf[1] as u32) * 0x10000 + (len_buf[2] as u32)
        * 0x100 + (len_buf[3] as u32);
    if n > MAX_STATE_LEN {
        Err(n)
    } else {
        Ok(n as usize)
    }
}

/// An RGB triple as the checker compares them.
pub open spec fn same_rgb(a: (u8, u8, u8), b: (u8, u8, u8)) -> bool {
    a.0 == b.0 && a.1 == b.1 && a.2 == b.2
}

/// The first position, among those that both sequences have, where the
/// received colour differs from the expected one; `None` when they agree on
/// all of them.
pub fn first_mismatch(received: &Vec<(u8, u8, u8)>, expected: &[(u8, u8, u8)]) -> (r: Option<
    usize,
>)
    ensures
        match r {
            Some(i) => {
                &&& i < received@.len()
                &&& i < expected@.len()
                &&& !same_rgb(received@[i as int], expected@[i as int])
                &&& forall|j: int| 0 <= j < i ==> same_rgb(received@[j], expected@[j])
            },
            None => forall|j: int|
                0 <= j < received@.len() && j < expected@.len() ==> same_rgb(
                    received@[j],
                    expected@[j],
                ),
        },
{
    let mut i: usize = 0;
    while i < received.len() && i < expected.len()
        invariant
            i <= received@.len(),
            i <= expected@.len(),
            forall|j: int| 0 <= j < i ==> same_rgb(received@[j], expected@[j]),
        decreases received@.len() - i,
    {
        let got = received[i];
        let want = expected[i];
        if !(got.0 == want.0 && got.1 == want.1 && got.2 == want.2) {
            return Some(i);
        }
        i = i + 1;
    }
    None
}

/// The checker's tally of passed and failed phases.
pub struct TestRunner {
    pub passed: usize,
    pub failed: usize,
    pub total: usize,
}

/// The checker's final outcome.
#[derive(Debug, Clone, Copy, PartialEq, Eq, Structural)]
pub enum Summary {
    /// No phase failed: `passed` of `total` passed.
    AllPassed { passed: usize, total: usize },
    /// `failed` phases failed; `passed` of `total` passed.
    SomeFailed { passed: usize, total: usize, failed: usize },
}

impl TestRunner {
    /// A tally with nothing run yet, out of `PHASE_COUNT` phases.
    pub fn new() -> (t: TestRunner)
        ensures
            t.passed == 0,
            t.failed == 0,
            t.total == PHASE_COUNT,
    {
        TestRunner { passed: 0, failed: 0, total: PHASE_COUNT }
    }

    /// Counts one passed phase.
    pub fn pass(&mut self)
        requires
            old(self).passed < usize::MAX,
        ensures
            final(self).passed == old(self).passed + 1,
            final(self).failed == old(self).failed,
            final(self).total == old(self).total,
    {
        self.passed = self.passed + 1;
    }

    /// Counts one failed phase.
    pub fn fail(&mut self)
        requires
            old(self).failed < usize::MAX,
        ensures
            final(self).failed == old(self).failed + 1,
            final(self).passed == old(self).passed,
            final(self).total == old(self).total,
    {
        self.failed = self.failed + 1;
    }

    /// The outcome: all passed exactly when no phase failed.
    pub fn summary(&self) -> (s: Summary)
        ensures
            self.failed == 0 ==> s == (Summary::AllPassed { passed: self.passed, total: self.total }),
            self.failed != 0 ==> s == (Summary::SomeFailed {
                passed: self.passed,
                total: self.total,
                failed: self.failed,
            }),
    {
        if self.failed == 0 {
            Summary::AllPassed { passed: self.passed, total: self.total }
        } else {
            Summary::SomeFailed { passed: self.passed, total: self.total, failed: self.failed }
        }
    }
}

} // verus!
