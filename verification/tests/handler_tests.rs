use device_hub::checker::{response_length, ControllerCommand, SensorCommand};
use device_hub::handlers::{
    color_for_button, frame_state_response, monitor_action, react_to_button, route, u32_to_be,
    ControllerEffect, ControllerRx, HandlerKind, MonitorAction, RxEvent, SensorRx,
};
use device_hub::hub_actor::{Button, LightColor};
use device_hub::protocol::{Color, DeviceType, TAG_STATE_QUERY};

fn feed_controller(bytes: &[u8]) -> (ControllerRx, Vec<Button>, Vec<u8>) {
    let mut rx = ControllerRx::new();
    let mut events = Vec::new();
    let mut ignored = Vec::new();
    for &b in bytes {
        let (next, e) = rx.on_byte(b);
        rx = next;
        match e {
            RxEvent::Ready(btn) => events.push(btn),
            RxEvent::Ignored(t) => ignored.push(t),
            RxEvent::Pending => {}
        }
    }
    (rx, events, ignored)
}

fn feed_sensor(bytes: &[u8]) -> (SensorRx, Vec<u16>, Vec<u8>) {
    let mut rx = SensorRx::new();
    let mut values = Vec::new();
    let mut ignored = Vec::new();
    for &b in bytes {
        let (next, e) = rx.on_byte(b);
        rx = next;
        match e {
            RxEvent::Ready(v) => values.push(v),
            RxEvent::Ignored(t) => ignored.push(t),
            RxEvent::Pending => {}
        }
    }
    (rx, values, ignored)
}

#[test]
fn controller_decodes_press_and_release() {
    let (rx, ev, ign) = feed_controller(&[0x01, 5, 0x01, 0x01, 6, 0x00]);
    assert_eq!(rx, ControllerRx::AwaitTag);
    assert!(ign.is_empty());
    assert_eq!(
        ev,
        vec![
            Button { button_id: 5, is_pressed: true },
            Button { button_id: 6, is_pressed: false }
        ]
    );
}

#[test]
fn controller_any_other_action_byte_is_release() {
    let (_, ev, _) = feed_controller(&[0x01, 3, 0x07]);
    assert_eq!(ev, vec![Button { button_id: 3, is_pressed: false }]);
}

#[test]
fn controller_skips_unexpected_tags() {
    let (rx, ev, ign) = feed_controller(&[0x09, 0x02, 0x01, 2, 0x01]);
    assert_eq!(rx, ControllerRx::AwaitTag);
    assert_eq!(ign, vec![0x09, 0x02]);
    assert_eq!(ev, vec![Button { button_id: 2, is_pressed: true }]);
}

#[test]
fn controller_partial_frame_waits() {
    let (rx, ev, _) = feed_controller(&[0x01, 4]);
    assert_eq!(rx, ControllerRx::AwaitAction { button_id: 4 });
    assert!(ev.is_empty());
}

#[test]
fn controller_stream_roundtrip_from_checker_frames() {
    let cmds = [
        ControllerCommand::ButtonPress(0),
        ControllerCommand::ButtonPress(1),
        ControllerCommand::Shutdown,
        ControllerCommand::ButtonRelease(0),
        ControllerCommand::ButtonPress(2),
    ];
    let mut bytes = Vec::new();
    for c in cmds.iter() {
        if let Some(f) = c.encode() {
            bytes.extend_from_slice(&f);
        }
    }
    let (rx, ev, ign) = feed_controller(&bytes);
    assert_eq!(rx, ControllerRx::AwaitTag);
    assert!(ign.is_empty());
    assert_eq!(
        ev,
        vec![
            Button { button_id: 0, is_pressed: true },
            Button { button_id: 1, is_pressed: true },
            Button { button_id: 0, is_pressed: false },
            Button { button_id: 2, is_pressed: true },
        ]
    );
}

#[test]
fn button_colors() {
    assert_eq!(color_for_button(0), Some(Color::red()));
    assert_eq!(color_for_button(1), Some(Color::green()));
    assert_eq!(color_for_button(2), Some(Color::blue()));
    assert_eq!(color_for_button(3), None);
    assert_eq!(color_for_button(255), None);
}

#[test]
fn reaction_to_press_with_color() {
    let e = Button { button_id: 0, is_pressed: true };
    assert_eq!(
        react_to_button(e),
        vec![
            ControllerEffect::RecordButton(e),
            ControllerEffect::RecordLight(LightColor { light_id: 0, color: Color::red() }),
            ControllerEffect::BroadcastLight([0x03, 255, 0, 0]),
            ControllerEffect::SendFeedback([0x02, 0, 255, 255, 255]),
        ]
    );
}

#[test]
fn reaction_to_press_of_each_colored_button() {
    for (id, c) in [(1u8, Color::green()), (2, Color::blue())] {
        let e = Button { button_id: id, is_pressed: true };
        let effects = react_to_button(e);
        assert_eq!(effects[1], ControllerEffect::RecordLight(LightColor { light_id: 0, color: c }));
        assert_eq!(effects[2], ControllerEffect::BroadcastLight([0x03, c.r, c.g, c.b]));
    }
}

#[test]
fn reaction_to_press_without_color() {
    let e = Button { button_id: 7, is_pressed: true };
    assert_eq!(
        react_to_button(e),
        vec![
            ControllerEffect::RecordButton(e),
            ControllerEffect::SendFeedback([0x02, 7, 255, 255, 255]),
        ]
    );
}

#[test]
fn reaction_to_release() {
    let e = Button { button_id: 1, is_pressed: false };
    assert_eq!(
        react_to_button(e),
        vec![ControllerEffect::RecordButton(e), ControllerEffect::SendFeedback([0x02, 1, 0, 0, 0])]
    );
}

#[test]
fn routing_by_device_type() {
    assert_eq!(route(DeviceType::Controller), HandlerKind::ButtonEvents);
    assert_eq!(route(DeviceType::Light), HandlerKind::LightForwarding);
    assert_eq!(route(DeviceType::Sensor), HandlerKind::SensorReadings);
    assert_eq!(route(DeviceType::Monitor), HandlerKind::StateQueries);
}

#[test]
fn sensor_decodes_big_endian() {
    let (rx, v, ign) = feed_sensor(&[0x04, 0x00, 150, 0x04, 0x12, 0x34, 0x04, 0xFF, 0xFF]);
    assert_eq!(rx, SensorRx::AwaitTag);
    assert!(ign.is_empty());
    assert_eq!(v, vec![150, 0x1234, 0xFFFF]);
}

#[test]
fn sensor_skips_unexpected_tags() {
    let (_, v, ign) = feed_sensor(&[0x01, 0x04, 0x01, 0x00]);
    assert_eq!(ign, vec![0x01]);
    assert_eq!(v, vec![256]);
}

#[test]
fn sensor_stream_roundtrip_from_checker_frames() {
    let values = [0u16, 1, 150, 255, 256, 4660, 65535];
    let mut bytes = Vec::new();
    for &val in values.iter() {
        bytes.extend_from_slice(&SensorCommand::SendValue(val).encode().unwrap());
    }
    assert!(SensorCommand::Shutdown.encode().is_none());
    let (_, v, _) = feed_sensor(&bytes);
    assert_eq!(v, values.to_vec());
}

#[test]
fn monitor_actions() {
    assert_eq!(monitor_action(TAG_STATE_QUERY), MonitorAction::SendState);
    assert_eq!(monitor_action(0x11), MonitorAction::Disconnect);
    assert_eq!(monitor_action(0x00), MonitorAction::Disconnect);
}

#[test]
fn u32_big_endian_bytes() {
    assert_eq!(u32_to_be(0x01020304), [1, 2, 3, 4]);
    assert_eq!(u32_to_be(0), [0, 0, 0, 0]);
    assert_eq!(u32_to_be(u32::MAX), [255, 255, 255, 255]);
}

#[test]
fn state_response_framing() {
    let doc = b"{\"lights\":{}}".to_vec();
    let f = frame_state_response(&doc);
    assert_eq!(&f[..4], &[0, 0, 0, doc.len() as u8]);
    assert_eq!(&f[4..], &doc[..]);
    let empty = frame_state_response(&[]);
    assert_eq!(empty, vec![0, 0, 0, 0]);
}

#[test]
fn state_response_length_roundtrip() {
    let doc = vec![b'x'; 300];
    let f = frame_state_response(&doc);
    let mut len = [0u8; 4];
    len.copy_from_slice(&f[..4]);
    assert_eq!(response_length(len), Ok(300));
    assert_eq!(f.len(), 304);
}
