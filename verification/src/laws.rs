//! Properties of the library as a whole: what a device sends is what the
//! hub decodes, what the hub sends is what a device decodes, and what is
//! written to the hub's state is what a later snapshot shows.

use vstd::prelude::*;

use crate::checker::{
    be_u32_value, button_issues, light_issues, same_rgb, sensor_issues,
    StateIssue, PHASE_COUNT, ControllerCommand, LedFeedback, LightCommand, SensorCommand, DEVICE_CONTROLLER,
    DEVICE_LIGHT, DEVICE_MONITOR, DEVICE_SENSOR, MAX_STATE_LEN,
};
use crate::connection::{Handshake, HandshakeAction};
use crate::protocol::{HANDSHAKE_ACK, TAG_STATE_QUERY};
use crate::error::ConnectionError;
use crate::handlers::{
    be_u16, be_u32_bytes, button_color, events_of, led_feedback_bytes, length_prefix, light_command_bytes,
    ControllerRx, RxEvent, SensorRx,
};
use crate::hub_actor::{Button, ButtonState, HubView, LightColor, Query, Sensor};
use crate::protocol::{
    ButtonAction, Color, DeviceType, HANDSHAKE_MAGIC, TAG_BUTTON_EVENT, TAG_LED_FEEDBACK,
    TAG_LIGHT_CMD, TAG_SENSOR_VALUE,
};

verus! {

// ----------------------------------------------------------------------
// Codes
// ----------------------------------------------------------------------

/// Every device type has a code, the code decodes back to that type, and no
/// two types share a code.
pub proof fn lemma_device_code_roundtrip(t: DeviceType, u: DeviceType)
    ensures
        DeviceType::is_code(t.code()),
        DeviceType::of_code(t.code()) == t,
        t.code() == u.code() ==> t == u,
{
}

/// The device type bytes that the checker announces are the hub's codes
/// for controller, light, sensor and monitor.
pub proof fn lemma_checker_device_codes()
    ensures
        DEVICE_CONTROLLER == DeviceType::Controller.code(),
        DEVICE_LIGHT == DeviceType::Light.code(),
        DEVICE_SENSOR == DeviceType::Sensor.code(),
        DEVICE_MONITOR == DeviceType::Monitor.code(),
{
}

/// No two button actions share a code.
pub proof fn lemma_button_action_codes_distinct(a: ButtonAction, b: ButtonAction)
    ensures
        a.code() == b.code() ==> a == b,
{
}

// ----------------------------------------------------------------------
// Handshake
// ----------------------------------------------------------------------

/// A device that sends the magic, a known type code and its id is
/// acknowledged after the magic and identified as that type with that id.
pub proof fn lemma_handshake_accepts(t: DeviceType, id: u8)
    ensures
        ({
            let (s1, a1) = Handshake::AwaitMagic.step(HANDSHAKE_MAGIC);
            let (s2, a2) = s1.step(t.code());
            let (s3, a3) = s2.step(id);
            &&& a1 is SendAck
            &&& a2 is ReadNext
            &&& s3 == Handshake::Finished
            &&& a3 == (HandshakeAction::Identified { dev_type: t, dev_id: id })
        }),
{
}

/// Any first byte other than the magic refuses the connection at once.
pub proof fn lemma_handshake_refuses_bad_magic(b: u8)
    requires
        b != HANDSHAKE_MAGIC,
    ensures
        Handshake::AwaitMagic.step(b) == (
            Handshake::Finished,
            HandshakeAction::Fail(ConnectionError::HandshakeError),
        ),
{
}

/// A type byte that names no device ends the handshake with that byte as
/// the error, whatever id follows.
pub proof fn lemma_handshake_refuses_unknown_type(type_byte: u8, id: u8)
    requires
        !DeviceType::is_code(type_byte),
    ensures
        ({
            let (s2, _) = Handshake::AwaitType.step(type_byte);
            s2.step(id) == (
                Handshake::Finished,
                HandshakeAction::Fail(ConnectionError::DevicetypeError(type_byte)),
            )
        }),
{
}

// ----------------------------------------------------------------------
// Controller stream
// ----------------------------------------------------------------------

/// The bytes a controller sends for a sequence of commands.
pub open spec fn controller_frames(cmds: Seq<ControllerCommand>) -> Seq<u8>
    decreases cmds.len(),
{
    if cmds.len() == 0 {
        Seq::empty()
    } else {
        let first = match cmds[0].frame() {
            Some(f) => f,
            None => Seq::empty(),
        };
        first + controller_frames(cmds.drop_first())
    }
}

/// The button event a command stands for, if any.
pub open spec fn command_events(cmd: ControllerCommand) -> Seq<Button> {
    match cmd {
        ControllerCommand::ButtonPress(b) => seq![Button { button_id: b, is_pressed: true }],
        ControllerCommand::ButtonRelease(b) => seq![Button { button_id: b, is_pressed: false }],
        ControllerCommand::Shutdown => Seq::empty(),
    }
}

/// The button events a sequence of commands stands for, in order.
pub open spec fn controller_events(cmds: Seq<ControllerCommand>) -> Seq<Button>
    decreases cmds.len(),
{
    if cmds.len() == 0 {
        Seq::empty()
    } else {
        command_events(cmds[0]) + controller_events(cmds.drop_first())
    }
}

/// Decoding two byte strings one after the other is decoding their
/// concatenation.
pub proof fn lemma_controller_run_append(s: ControllerRx, a: Seq<u8>, b: Seq<u8>)
    ensures
        s.run(a + b) == (s.run(a).0.run(b).0, s.run(a).1 + s.run(a).0.run(b).1),
    decreases a.len(),
{
    if a.len() == 0 {
        assert(a + b =~= b);
        assert(s.run(a).1 + s.run(b).1 =~= s.run(b).1);
    } else {
        let (next, e) = s.step(a[0]);
        assert((a + b).drop_first() =~= a.drop_first() + b);
        lemma_controller_run_append(next, a.drop_first(), b);
        assert(events_of(e) + (next.run(a.drop_first()).1 + next.run(a.drop_first()).0.run(b).1)
            =~= (events_of(e) + next.run(a.drop_first()).1) + next.run(a.drop_first()).0.run(b).1);
    }
}

/// One command's frame decodes to that command's event.
proof fn lemma_controller_frame(cmd: ControllerCommand)
    ensures
        ControllerRx::AwaitTag.run(
            match cmd.frame() {
                Some(f) => f,
                None => Seq::empty(),
            },
        ) == (ControllerRx::AwaitTag, command_events(cmd)),
{
    reveal_with_fuel(ControllerRx::run, 4);
    match cmd {
        ControllerCommand::Shutdown => {
            assert(Seq::<Button>::empty() =~= command_events(cmd));
        },
        _ => {
            let f = cmd.frame().unwrap();
            assert(f.drop_first().drop_first().drop_first() =~= Seq::<u8>::empty());
            assert(f.drop_first()[0] == f[1]);
            assert(f.drop_first().drop_first()[0] == f[2]);
            let s1 = ControllerRx::AwaitTag.step(f[0]).0;
            let s2 = s1.step(f[1]).0;
            let r3 = s2.run(f.drop_first().drop_first());
            assert(r3.1 =~= command_events(cmd));
            let r2 = s1.run(f.drop_first());
            assert(r2.1 =~= command_events(cmd));
            assert(ControllerRx::AwaitTag.run(f).1 =~= command_events(cmd));
        },
    }
}

/// Whatever commands the checker gives its controller, the hub decodes
/// exactly the matching button events, in the same order, and is ready for
/// the next frame afterwards.
pub proof fn lemma_controller_stream_roundtrip(cmds: Seq<ControllerCommand>)
    ensures
        ControllerRx::AwaitTag.run(controller_frames(cmds)) == (
            ControllerRx::AwaitTag,
            controller_events(cmds),
        ),
    decreases cmds.len(),
{
    if cmds.len() == 0 {
    } else {
        let first = match cmds[0].frame() {
            Some(f) => f,
            None => Seq::empty(),
        };
        lemma_controller_run_append(ControllerRx::AwaitTag, first, controller_frames(cmds.drop_first()));
        lemma_controller_stream_roundtrip(cmds.drop_first());
        let s = ControllerRx::AwaitTag;
        lemma_controller_frame(cmds[0]);
        assert(s.run(first).1 + controller_events(cmds.drop_first()) =~= controller_events(cmds));
    }
}

/// Bytes that are not `TAG_BUTTON_EVENT`, arriving between frames, are
/// skipped: they complete no event and leave the decoder waiting for a tag.
pub proof fn lemma_controller_skips_noise(bytes: Seq<u8>)
    requires
        forall|i: int| 0 <= i < bytes.len() ==> bytes[i] != TAG_BUTTON_EVENT,
    ensures
        ControllerRx::AwaitTag.run(bytes) == (ControllerRx::AwaitTag, Seq::<Button>::empty()),
    decreases bytes.len(),
{
    if bytes.len() > 0 {
        assert forall|i: int| 0 <= i < bytes.drop_first().len() implies bytes.drop_first()[i]
            != TAG_BUTTON_EVENT by {
            assert(bytes.drop_first()[i] == bytes[i + 1]);
        }
        lemma_controller_skips_noise(bytes.drop_first());
        assert(Seq::<Button>::empty() + Seq::<Button>::empty() =~= Seq::<Button>::empty());
    }
}

// ----------------------------------------------------------------------
// Sensor stream
// ----------------------------------------------------------------------

/// The bytes a sensor sends for a sequence of commands.
pub open spec fn sensor_frames(cmds: Seq<SensorCommand>) -> Seq<u8>
    decreases cmds.len(),
{
    if cmds.len() == 0 {
        Seq::empty()
    } else {
        let first = match cmds[0].frame() {
            Some(f) => f,
            None => Seq::empty(),
        };
        first + sensor_frames(cmds.drop_first())
    }
}

/// The readings a sequence of sensor commands stands for, in order.
pub open spec fn sensor_values(cmds: Seq<SensorCommand>) -> Seq<u16>
    decreases cmds.len(),
{
    if cmds.len() == 0 {
        Seq::empty()
    } else {
        let first = match cmds[0] {
            SensorCommand::SendValue(v) => seq![v],
            SensorCommand::Shutdown => Seq::empty(),
        };
        first + sensor_values(cmds.drop_first())
    }
}

/// Splitting a value into its big-endian bytes and joining them again
/// gives the value back.
pub proof fn lemma_be_u16_roundtrip(v: u16)
    ensures
        be_u16((v / 256) as u8, (v % 256) as u8) == v,
{
}

/// Decoding two byte strings one after the other is decoding their
/// concatenation.
pub proof fn lemma_sensor_run_append(s: SensorRx, a: Seq<u8>, b: Seq<u8>)
    ensures
        s.run(a + b) == (s.run(a).0.run(b).0, s.run(a).1 + s.run(a).0.run(b).1),
    decreases a.len(),
{
    if a.len() == 0 {
        assert(a + b =~= b);
        assert(s.run(a).1 + s.run(b).1 =~= s.run(b).1);
    } else {
        let (next, e) = s.step(a[0]);
        assert((a + b).drop_first() =~= a.drop_first() + b);
        lemma_sensor_run_append(next, a.drop_first(), b);
        assert(events_of(e) + (next.run(a.drop_first()).1 + next.run(a.drop_first()).0.run(b).1)
            =~= (events_of(e) + next.run(a.drop_first()).1) + next.run(a.drop_first()).0.run(b).1);
    }
}

/// One command's frame decodes to that command's reading.
proof fn lemma_sensor_frame(cmd: SensorCommand)
    ensures
        SensorRx::AwaitTag.run(
            match cmd.frame() {
                Some(f) => f,
                None => Seq::empty(),
            },
        ) == (
            SensorRx::AwaitTag,
            match cmd {
                SensorCommand::SendValue(v) => seq![v],
                SensorCommand::Shutdown => Seq::empty(),
            },
        ),
{
    reveal_with_fuel(SensorRx::run, 4);
    match cmd {
        SensorCommand::Shutdown => {
            assert(Seq::<u16>::empty() =~= Seq::<u16>::empty());
        },
        SensorCommand::SendValue(v) => {
            lemma_be_u16_roundtrip(v);
            let f = cmd.frame().unwrap();
            assert(f.drop_first().drop_first().drop_first() =~= Seq::<u8>::empty());
            assert(f.drop_first()[0] == f[1]);
            assert(f.drop_first().drop_first()[0] == f[2]);
            let s1 = SensorRx::AwaitTag.step(f[0]).0;
            let s2 = s1.step(f[1]).0;
            let r3 = s2.run(f.drop_first().drop_first());
            assert(r3.1 =~= seq![v]);
            let r2 = s1.run(f.drop_first());
            assert(r2.1 =~= seq![v]);
            assert(SensorRx::AwaitTag.run(f).1 =~= seq![v]);
        },
    }
}

/// Whatever values the checker's sensor sends, the hub decodes exactly
/// those values, in the same order.
pub proof fn lemma_sensor_stream_roundtrip(cmds: Seq<SensorCommand>)
    ensures
        SensorRx::AwaitTag.run(sensor_frames(cmds)) == (SensorRx::AwaitTag, sensor_values(cmds)),
    decreases cmds.len(),
{
    if cmds.len() == 0 {
    } else {
        let first = match cmds[0].frame() {
            Some(f) => f,
            None => Seq::empty(),
        };
        lemma_sensor_run_append(SensorRx::AwaitTag, first, sensor_frames(cmds.drop_first()));
        lemma_sensor_stream_roundtrip(cmds.drop_first());
        let s = SensorRx::AwaitTag;
        lemma_sensor_frame(cmds[0]);
        assert(s.run(first).1 + sensor_values(cmds.drop_first()) =~= sensor_values(cmds));
    }
}

/// Bytes that are not `TAG_SENSOR_VALUE`, arriving between frames, are
/// skipped: they complete no reading and leave the decoder waiting for a tag.
pub proof fn lemma_sensor_skips_noise(bytes: Seq<u8>)
    requires
        forall|i: int| 0 <= i < bytes.len() ==> bytes[i] != TAG_SENSOR_VALUE,
    ensures
        SensorRx::AwaitTag.run(bytes) == (SensorRx::AwaitTag, Seq::<u16>::empty()),
    decreases bytes.len(),
{
    if bytes.len() > 0 {
        assert forall|i: int| 0 <= i < bytes.drop_first().len() implies bytes.drop_first()[i]
            != TAG_SENSOR_VALUE by {
            assert(bytes.drop_first()[i] == bytes[i + 1]);
        }
        lemma_sensor_skips_noise(bytes.drop_first());
        assert(Seq::<u16>::empty() + Seq::<u16>::empty() =~= Seq::<u16>::empty());
    }
}

// ----------------------------------------------------------------------
// What devices read from the hub
// ----------------------------------------------------------------------

/// A light reads the hub's light command for colour `c` as that colour.
pub proof fn lemma_light_command_readable(c: Color)
    ensures
        light_command_bytes(c).len() == 4,
        light_command_bytes(c)[0] == TAG_LIGHT_CMD,
        (LightCommand {
            r: light_command_bytes(c)[1],
            g: light_command_bytes(c)[2],
            b: light_command_bytes(c)[3],
        }) == (LightCommand { r: c.r, g: c.g, b: c.b }),
{
}

/// A controller reads the hub's LED feedback for a button as that button,
/// lit white when pressed and dark when released.
pub proof fn lemma_led_feedback_readable(button_id: u8, is_pressed: bool)
    ensures
        ({
            let f = led_feedback_bytes(button_id, is_pressed);
            let v: u8 = if is_pressed {
                255
            } else {
                0
            };
            &&& f.len() == 5
            &&& f[0] == TAG_LED_FEEDBACK
            &&& (LedFeedback { button_id: f[1], r: f[2], g: f[3], b: f[4] }) == (LedFeedback {
                button_id,
                r: v,
                g: v,
                b: v,
            })
        }),
{
}

/// The length a monitor reads from the hub's answer is the document's
/// length, and the document follows it unchanged, for every document the
/// monitor accepts.
pub proof fn lemma_state_response_roundtrip(doc: Seq<u8>)
    requires
        doc.len() <= MAX_STATE_LEN,
    ensures
        ({
            let frame = length_prefix(doc.len()) + doc;
            &&& frame.len() == doc.len() + 4
            &&& be_u32_value(frame.take(4)) == doc.len()
            &&& frame.skip(4) == doc
        }),
{
    let frame = length_prefix(doc.len()) + doc;
    let n: u32 = (doc.len() % 0x1_0000_0000) as u32;
    assert(n == doc.len());
    assert(frame.skip(4) =~= doc);
    let p = frame.take(4);
    assert(p[0] == (n / 0x1000000) as u8);
    assert(p[1] == (n / 0x10000 % 0x100) as u8);
    assert(p[2] == (n / 0x100 % 0x100) as u8);
    assert(p[3] == (n % 0x100) as u8);
    assert(be_u32_value(p) == n as int) by (nonlinear_arith)
        requires
            p[0] == (n / 0x1000000) as u8,
            p[1] == (n / 0x10000 % 0x100) as u8,
            p[2] == (n / 0x100 % 0x100) as u8,
            p[3] == (n % 0x100) as u8,
            be_u32_value(p) == p[0] as int * 0x1000000 + p[1] as int * 0x10000 + p[2] as int
                * 0x100 + p[3] as int,
    ;
}

// ----------------------------------------------------------------------
// Hub state
// ----------------------------------------------------------------------

/// A snapshot request leaves the state as it is.
pub proof fn lemma_snapshot_leaves_state(m: HubView)
    ensures
        m.apply(Query::GetSnapshot) == m,
{
}

/// After an update, a snapshot shows the new value under the device's id,
/// every other entry of that table as before, and the other tables
/// unchanged.
pub proof fn lemma_read_after_write(m: HubView, l: LightColor, s: Sensor, b: Button)
    ensures
        ({
            let ml = m.apply(Query::SetLight { light: l });
            &&& ml.lights.contains_key(l.light_id) && ml.lights[l.light_id] == l.color
            &&& forall|k: u8| k != l.light_id ==> #[trigger] ml.lights.contains_key(k)
                == m.lights.contains_key(k) && (m.lights.contains_key(k) ==> ml.lights[k]
                == m.lights[k])
            &&& ml.buttons == m.buttons && ml.sensors == m.sensors
        }),
        ({
            let ms = m.apply(Query::SetSensor { sensor: s });
            &&& ms.sensors.contains_key(s.sensor_id) && ms.sensors[s.sensor_id] == s.value
            &&& forall|k: u8| k != s.sensor_id ==> #[trigger] ms.sensors.contains_key(k)
                == m.sensors.contains_key(k) && (m.sensors.contains_key(k) ==> ms.sensors[k]
                == m.sensors[k])
            &&& ms.lights == m.lights && ms.buttons == m.buttons
        }),
        ({
            let mb = m.apply(Query::SetButton { button: b });
            &&& mb.buttons.contains_key(b.button_id) && mb.buttons[b.button_id] == ButtonState(
                b.is_pressed,
            )
            &&& forall|k: u8| k != b.button_id ==> #[trigger] mb.buttons.contains_key(k)
                == m.buttons.contains_key(k) && (m.buttons.contains_key(k) ==> mb.buttons[k]
                == m.buttons[k])
            &&& mb.lights == m.lights && mb.sensors == m.sensors
        }),
{
}

/// Of two updates of the same entry, the later one wins.
pub proof fn lemma_last_write_wins(m: HubView, l1: LightColor, l2: LightColor)
    requires
        l1.light_id == l2.light_id,
    ensures
        m.apply(Query::SetLight { light: l1 }).apply(Query::SetLight { light: l2 }) == m.apply(
            Query::SetLight { light: l2 },
        ),
{
    assert(m.lights.insert(l1.light_id, l1.color).insert(l2.light_id, l2.color) =~= m.lights.insert(
        l2.light_id,
        l2.color,
    ));
}

/// Updates of different entries, or of different tables, give the same
/// state in either order.
pub proof fn lemma_updates_commute(m: HubView, q1: Query, q2: Query)
    requires
        match (q1, q2) {
            (Query::SetLight { light: a }, Query::SetLight { light: b }) => a.light_id
                != b.light_id,
            (Query::SetSensor { sensor: a }, Query::SetSensor { sensor: b }) => a.sensor_id
                != b.sensor_id,
            (Query::SetButton { button: a }, Query::SetButton { button: b }) => a.button_id
                != b.button_id,
            _ => true,
        },
    ensures
        m.apply(q1).apply(q2) == m.apply(q2).apply(q1),
{
    let l = m.apply(q1).apply(q2);
    let r = m.apply(q2).apply(q1);
    assert(l.lights =~= r.lights);
    assert(l.sensors =~= r.sensors);
    assert(l.buttons =~= r.buttons);
}

/// The state after the hub has carried out the record effects that
/// `react_to_button` lists for a button event, in their order: the button
/// is recorded, then a press of button 0, 1 or 2 records light 0 in red,
/// green or blue; otherwise the lights are untouched.
pub open spec fn after_button_event(m: HubView, e: Button) -> HubView {
    let m2 = m.apply(Query::SetButton { button: e });
    if e.is_pressed && button_color(e.button_id) is Some {
        m2.apply(
            Query::SetLight {
                light: LightColor { light_id: 0, color: button_color(e.button_id).unwrap() },
            },
        )
    } else {
        m2
    }
}

/// After a button event, a snapshot shows the button in its reported state,
/// and light 0 in the button's colour when it was pressed and has one.
pub proof fn lemma_button_event_effect(m: HubView, e: Button)
    ensures
        ({
            let m3 = after_button_event(m, e);
            &&& m3.buttons.contains_key(e.button_id)
            &&& m3.buttons[e.button_id] == ButtonState(e.is_pressed)
            &&& (e.is_pressed && button_color(e.button_id) is Some) ==> m3.lights.contains_key(0)
                && m3.lights[0] == button_color(e.button_id).unwrap()
            &&& !(e.is_pressed && button_color(e.button_id) is Some) ==> m3.lights == m.lights
            &&& m3.sensors == m.sensors
        }),
{
}

// ----------------------------------------------------------------------
// The protocol's fixed values
// ----------------------------------------------------------------------

/// The protocol's bytes: magic `0xA0`, acknowledgement `0xAC`, tags `0x01`
/// (button event), `0x02` (LED feedback), `0x03` (light command), `0x04`
/// (sensor value), `0x10` (state query); device codes `0x01` controller,
/// `0x02` light, `0x03` sensor, `0xFF` monitor, and no others; action codes
/// `0x01` pressed, `0x00` released; a state document of at most 1,000,000
/// bytes; eight checker phases.
pub proof fn lemma_wire_values(b: u8)
    ensures
        HANDSHAKE_MAGIC == 0xA0u8,
        HANDSHAKE_ACK == 0xACu8,
        TAG_BUTTON_EVENT == 0x01u8,
        TAG_LED_FEEDBACK == 0x02u8,
        TAG_LIGHT_CMD == 0x03u8,
        TAG_SENSOR_VALUE == 0x04u8,
        TAG_STATE_QUERY == 0x10u8,
        DeviceType::Controller.code() == 0x01u8,
        DeviceType::Light.code() == 0x02u8,
        DeviceType::Sensor.code() == 0x03u8,
        DeviceType::Monitor.code() == 0xFFu8,
        DeviceType::is_code(b) <==> (b == 0x01 || b == 0x02 || b == 0x03 || b == 0xFF),
        DeviceType::is_code(b) ==> DeviceType::of_code(b).code() == b,
        ButtonAction::Pressed.code() == 0x01u8,
        ButtonAction::Released.code() == 0x00u8,
        MAX_STATE_LEN == 1_000_000u32,
        PHASE_COUNT == 8usize,
{
}

// ----------------------------------------------------------------------
// What each step means
// ----------------------------------------------------------------------

/// The handshake byte by byte. The first byte must be `0xA0`: it is
/// acknowledged, and anything else refuses the connection. The type byte,
/// whatever it is, is only kept; nothing is decided before the id byte.
/// The id byte ends the handshake: a type byte `0x01`, `0x02`, `0x03` or
/// `0xFF` identifies a controller, light, sensor or monitor with that id;
/// any other type byte refuses the device with that type byte.
pub proof fn lemma_handshake_meaning(b: u8, t: u8)
    ensures
        b == 0xA0 ==> Handshake::AwaitMagic.step(b) == (Handshake::AwaitType, HandshakeAction::SendAck),
        b != 0xA0 ==> Handshake::AwaitMagic.step(b) == (
            Handshake::Finished,
            HandshakeAction::Fail(ConnectionError::HandshakeError),
        ),
        Handshake::AwaitType.step(b) == (Handshake::AwaitId { type_byte: b }, HandshakeAction::ReadNext),
        (Handshake::AwaitId { type_byte: t }).step(b).0 == Handshake::Finished,
        t == 0x01 ==> (Handshake::AwaitId { type_byte: t }).step(b).1 == (HandshakeAction::Identified {
            dev_type: DeviceType::Controller,
            dev_id: b,
        }),
        t == 0x02 ==> (Handshake::AwaitId { type_byte: t }).step(b).1 == (HandshakeAction::Identified {
            dev_type: DeviceType::Light,
            dev_id: b,
        }),
        t == 0x03 ==> (Handshake::AwaitId { type_byte: t }).step(b).1 == (HandshakeAction::Identified {
            dev_type: DeviceType::Sensor,
            dev_id: b,
        }),
        t == 0xFF ==> (Handshake::AwaitId { type_byte: t }).step(b).1 == (HandshakeAction::Identified {
            dev_type: DeviceType::Monitor,
            dev_id: b,
        }),
        !(t == 0x01 || t == 0x02 || t == 0x03 || t == 0xFF) ==> (Handshake::AwaitId {
            type_byte: t,
        }).step(b).1 == HandshakeAction::Fail(ConnectionError::DevicetypeError(t)),
{
}

/// Only buttons 0, 1 and 2 have a colour: red (255, 0, 0), green
/// (0, 255, 0) and blue (0, 0, 255), in that order; a press of any other
/// button lights nothing.
pub proof fn lemma_button_colors(id: u8, r: u8, g: u8, b: u8)
    ensures
        button_color(id) is Some <==> id <= 2,
        id == 0 ==> button_color(id) == Some(Color { r: 255, g: 0, b: 0 }),
        id == 1 ==> button_color(id) == Some(Color { r: 0, g: 255, b: 0 }),
        id == 2 ==> button_color(id) == Some(Color { r: 0, g: 0, b: 255 }),
        Color::rgb(r, g, b) == (Color { r, g, b }),
{
}

/// A press of a button other than 0, 1 and 2, and any release, leaves every
/// light as it was.
pub proof fn lemma_other_buttons_leave_lights(m: HubView, e: Button)
    requires
        e.button_id > 2 || !e.is_pressed,
    ensures
        after_button_event(m, e).lights == m.lights,
{
}

/// The frames the hub sends: a light command is `0x03` and the colour's
/// three channels; LED feedback is `0x02`, the button id, and three
/// channels all 255 while pressed and all 0 when released.
pub proof fn lemma_hub_frames(c: Color, id: u8, pressed: bool)
    ensures
        light_command_bytes(c) == seq![0x03u8, c.r, c.g, c.b],
        pressed ==> led_feedback_bytes(id, pressed) == seq![0x02u8, id, 255u8, 255u8, 255u8],
        !pressed ==> led_feedback_bytes(id, pressed) == seq![0x02u8, id, 0u8, 0u8, 0u8],
{
}

/// The frames devices send: a button event is `0x01`, the button, then
/// `0x01` for a press or `0x00` for a release; a sensor reading is `0x04`
/// and the value's high then low byte; shutdowns send nothing.
pub proof fn lemma_device_frames(btn: u8, v: u16)
    ensures
        ControllerCommand::ButtonPress(btn).frame() == Some(seq![0x01u8, btn, 0x01u8]),
        ControllerCommand::ButtonRelease(btn).frame() == Some(seq![0x01u8, btn, 0x00u8]),
        ControllerCommand::Shutdown.frame() is None,
        SensorCommand::SendValue(v).frame() == Some(
            seq![0x04u8, (v as int / 256) as u8, (v as int % 256) as u8],
        ),
        SensorCommand::Shutdown.frame() is None,
{
}

/// Decoding a controller's bytes: waiting for a tag, `0x01` starts a button
/// event and any other byte is skipped; the next byte is the button; the
/// byte after that completes the event, a press exactly when it is `0x01`.
pub proof fn lemma_controller_decoding(b: u8, id: u8)
    ensures
        b == 0x01 ==> ControllerRx::AwaitTag.step(b) == (ControllerRx::AwaitButton, RxEvent::<
            Button,
        >::Pending),
        b != 0x01 ==> ControllerRx::AwaitTag.step(b) == (ControllerRx::AwaitTag, RxEvent::<
            Button,
        >::Ignored(b)),
        ControllerRx::AwaitButton.step(b) == (ControllerRx::AwaitAction { button_id: b }, RxEvent::<
            Button,
        >::Pending),
        (ControllerRx::AwaitAction { button_id: id }).step(b) == (
            ControllerRx::AwaitTag,
            RxEvent::Ready(Button { button_id: id, is_pressed: b == 0x01 }),
        ),
        events_of(RxEvent::Ready(id)) == seq![id],
        events_of(RxEvent::<u8>::Pending) == Seq::<u8>::empty(),
        events_of(RxEvent::<u8>::Ignored(b)) == Seq::<u8>::empty(),
{
}

/// Decoding a sensor's bytes: waiting for a tag, `0x04` starts a reading
/// and any other byte is skipped; the next two bytes are the value, high
/// byte first.
pub proof fn lemma_sensor_decoding(b: u8, high: u8)
    ensures
        b == 0x04 ==> SensorRx::AwaitTag.step(b) == (SensorRx::AwaitHigh, RxEvent::<u16>::Pending),
        b != 0x04 ==> SensorRx::AwaitTag.step(b) == (SensorRx::AwaitTag, RxEvent::<u16>::Ignored(b)),
        SensorRx::AwaitHigh.step(b) == (SensorRx::AwaitLow { high: b }, RxEvent::<u16>::Pending),
        (SensorRx::AwaitLow { high }).step(b).0 == SensorRx::AwaitTag,
        (SensorRx::AwaitLow { high }).step(b).1 == RxEvent::Ready(be_u16(high, b)),
        be_u16(high, b) as int == high as int * 256 + b as int,
{
}

/// The four-byte length prefix is big-endian: its bytes, read as base-256
/// digits with the first byte most significant, give back the length; and
/// the checker reads four bytes the same way.
pub proof fn lemma_big_endian_u32(n: u32, s: Seq<u8>)
    requires
        s.len() == 4,
    ensures
        be_u32_bytes(n).len() == 4,
        be_u32_bytes(n)[0] as int * 16777216 + be_u32_bytes(n)[1] as int * 65536
            + be_u32_bytes(n)[2] as int * 256 + be_u32_bytes(n)[3] as int == n as int,
        be_u32_value(s) == s[0] as int * 16777216 + s[1] as int * 65536 + s[2] as int * 256
            + s[3] as int,
{
    let p = be_u32_bytes(n);
    assert(p[0] as int * 16777216 + p[1] as int * 65536 + p[2] as int * 256 + p[3] as int
        == n as int) by (nonlinear_arith)
        requires
            p[0] == (n / 0x1000000) as u8,
            p[1] == (n / 0x10000 % 0x100) as u8,
            p[2] == (n / 0x100 % 0x100) as u8,
            p[3] == (n % 0x100) as u8,
    ;
}

/// The length prefix of a document is its length in four big-endian bytes,
/// taken modulo 2^32 as a 32-bit count.
pub proof fn lemma_length_prefix(len: nat)
    ensures
        length_prefix(len).len() == 4,
        length_prefix(len)[0] as int * 16777216 + length_prefix(len)[1] as int * 65536
            + length_prefix(len)[2] as int * 256 + length_prefix(len)[3] as int == len
            % 4294967296,
{
    lemma_big_endian_u32((len % 4294967296) as u32, seq![0u8, 0u8, 0u8, 0u8]);
}

/// The empty hub records nothing.
pub proof fn lemma_empty_hub(k: u8)
    ensures
        !HubView::empty().lights.contains_key(k),
        !HubView::empty().buttons.contains_key(k),
        !HubView::empty().sensors.contains_key(k),
{
}

// ----------------------------------------------------------------------
// The checker's judgements
// ----------------------------------------------------------------------

/// Two colours are the same exactly when all three channels are equal.
pub proof fn lemma_same_rgb_is_equality(a: (u8, u8, u8), b: (u8, u8, u8))
    ensures
        same_rgb(a, b) <==> a == b,
{
}

/// Phase 7 on light 0: a missing table or entry is reported as such; light
/// 0 passes exactly when it is (0, 255, 0), and is otherwise reported with
/// the channels it has.
pub proof fn lemma_light_judgement(r: u8, g: u8, b: u8)
    ensures
        light_issues(None) == seq![StateIssue::LightsMissing],
        light_issues(Some(None)) == seq![StateIssue::Light0Missing],
        (r, g, b) == (0u8, 255u8, 0u8) ==> light_issues(Some(Some((r, g, b)))) == Seq::<
            StateIssue,
        >::empty(),
        (r, g, b) != (0u8, 255u8, 0u8) ==> light_issues(Some(Some((r, g, b)))) == seq![
            StateIssue::Light0Wrong { r, g, b },
        ],
{
}

/// Phase 7 on buttons: a missing table is reported alone. Otherwise button
/// 0, when present, is reported first exactly when it does not read
/// `"released"`; button 1, when present, is reported last exactly when it
/// does not read `"pressed"`; absent buttons are not reported.
pub proof fn lemma_button_judgement(b0: Option<String>, b1: Option<String>)
    ensures
        button_issues(None) == seq![StateIssue::ButtonsMissing],
        ({
            let issues = button_issues(Some((b0, b1)));
            &&& b0 is None ==> forall|i: int|
                0 <= i < issues.len() ==> !(issues[i] is Button0NotReleased)
            &&& b1 is None ==> forall|i: int|
                0 <= i < issues.len() ==> !(issues[i] is Button1NotPressed)
            &&& b0 matches Some(s) ==> (s@ != "released"@ <==> (issues.len() > 0 && issues[0]
                == StateIssue::Button0NotReleased(s)))
            &&& b1 matches Some(s) ==> (s@ != "pressed"@ <==> (issues.len() > 0 && issues.last()
                == StateIssue::Button1NotPressed(s)))
            &&& issues.len() <= 2
        }),
{
}

/// Phase 7 on sensor 0: a missing table or entry is reported as such;
/// sensor 0 passes exactly when it reads the whole number 150.
pub proof fn lemma_sensor_judgement(v: Option<u64>)
    ensures
        sensor_issues(None) == seq![StateIssue::SensorsMissing],
        sensor_issues(Some(None)) == seq![StateIssue::Sensor0Missing],
        v == Some(150u64) ==> sensor_issues(Some(Some(v))) == Seq::<StateIssue>::empty(),
        v != Some(150u64) ==> sensor_issues(Some(Some(v))) == seq![StateIssue::Sensor0Wrong],
{
}

} // verus!
