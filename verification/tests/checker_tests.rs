use device_hub::checker::{
    decode_led_feedback, decode_light_command, first_mismatch, handshake_request,
    is_handshake_ack, response_length, state_issues, ControllerCommand, StateIssue, LedFeedback, LightCommand,
    SensorCommand, Summary, TestRunner, MAX_STATE_LEN,
};

use device_hub::protocol::Color;

#[test]
fn phase_verdicts_on_frames() {
    assert!(LightCommand { r: 255, g: 0, b: 0 }.shows(Color::red()));
    assert!(!LightCommand { r: 255, g: 0, b: 0 }.shows(Color::green()));
    assert!(LedFeedback { button_id: 0, r: 255, g: 255, b: 255 }.shows(0, Color::white()));
    assert!(!LedFeedback { button_id: 1, r: 255, g: 255, b: 255 }.shows(0, Color::white()));
    assert!(LedFeedback { button_id: 0, r: 0, g: 0, b: 0 }.shows(0, Color::off()));
    assert!(!LedFeedback { button_id: 0, r: 0, g: 0, b: 1 }.shows(0, Color::off()));
}

#[test]
fn state_issues_none_for_expected_state() {
    let issues = state_issues(
        Some(Some((0, 255, 0))),
        Some((Some("released".to_string()), Some("pressed".to_string()))),
        Some(Some(Some(150))),
    );
    assert!(issues.is_empty());
    let absent_buttons = state_issues(Some(Some((0, 255, 0))), Some((None, None)), Some(Some(Some(150))));
    assert!(absent_buttons.is_empty());
}

#[test]
fn state_issues_missing_tables() {
    assert_eq!(
        state_issues(None, None, None),
        vec![StateIssue::LightsMissing, StateIssue::ButtonsMissing, StateIssue::SensorsMissing]
    );
    assert_eq!(
        state_issues(Some(None), Some((None, None)), Some(None)),
        vec![StateIssue::Light0Missing, StateIssue::Sensor0Missing]
    );
}

#[test]
fn state_issues_wrong_values_in_order() {
    assert_eq!(
        state_issues(
            Some(Some((255, 0, 0))),
            Some((Some("pressed".to_string()), Some(String::new()))),
            Some(Some(None)),
        ),
        vec![
            StateIssue::Light0Wrong { r: 255, g: 0, b: 0 },
            StateIssue::Button0NotReleased("pressed".to_string()),
            StateIssue::Button1NotPressed(String::new()),
            StateIssue::Sensor0Wrong,
        ]
    );
    assert_eq!(
        state_issues(Some(Some((0, 255, 0))), Some((None, None)), Some(Some(Some(151)))),
        vec![StateIssue::Sensor0Wrong]
    );
}

#[test]
fn handshake_request_bytes() {
    assert_eq!(handshake_request(0xFF, 0x00), [0xA0, 0xFF, 0x00]);
    assert_eq!(handshake_request(0x01, 0x07), [0xA0, 0x01, 0x07]);
}

#[test]
fn handshake_ack_check() {
    assert!(is_handshake_ack(0xAC));
    assert!(!is_handshake_ack(0xA0));
    assert!(!is_handshake_ack(0x00));
}

#[test]
fn controller_command_frames() {
    assert_eq!(ControllerCommand::ButtonPress(2).encode(), Some([0x01, 2, 0x01]));
    assert_eq!(ControllerCommand::ButtonRelease(0).encode(), Some([0x01, 0, 0x00]));
    assert_eq!(ControllerCommand::Shutdown.encode(), None);
}

#[test]
fn sensor_command_frames() {
    assert_eq!(SensorCommand::SendValue(150).encode(), Some([0x04, 0x00, 150]));
    assert_eq!(SensorCommand::SendValue(0xABCD).encode(), Some([0x04, 0xAB, 0xCD]));
    assert_eq!(SensorCommand::Shutdown.encode(), None);
}

#[test]
fn led_feedback_decoding() {
    assert_eq!(
        decode_led_feedback([0x02, 0, 255, 255, 255]),
        Some(LedFeedback { button_id: 0, r: 255, g: 255, b: 255 })
    );
    assert_eq!(decode_led_feedback([0x03, 0, 255, 255, 255]), None);
}

#[test]
fn light_command_decoding() {
    assert_eq!(decode_light_command([0x03, 0, 255, 0]), Some(LightCommand { r: 0, g: 255, b: 0 }));
    assert_eq!(decode_light_command([0x02, 0, 255, 0]), None);
}

#[test]
fn response_length_limits() {
    assert_eq!(response_length([0, 0, 0, 0]), Ok(0));
    assert_eq!(response_length([0x00, 0x0F, 0x42, 0x40]), Ok(1_000_000));
    assert_eq!(response_length([0x00, 0x0F, 0x42, 0x41]), Err(1_000_001));
    assert_eq!(response_length([0xFF, 0xFF, 0xFF, 0xFF]), Err(u32::MAX));
    assert_eq!(MAX_STATE_LEN, 1_000_000);
}

#[test]
fn first_mismatch_positions() {
    let expected = [(255, 0, 0), (0, 255, 0), (0, 0, 255)];
    assert_eq!(first_mismatch(&vec![(255, 0, 0), (0, 255, 0), (0, 0, 255)], &expected), None);
    assert_eq!(first_mismatch(&vec![(255, 0, 0), (0, 0, 255), (0, 255, 0)], &expected), Some(1));
    assert_eq!(first_mismatch(&vec![(1, 0, 0)], &expected), Some(0));
    assert_eq!(first_mismatch(&vec![(255, 0, 0)], &expected), None);
    assert_eq!(first_mismatch(&vec![], &expected), None);
}

#[test]
fn test_runner_counts() {
    let mut t = TestRunner::new();
    assert_eq!((t.passed, t.failed, t.total), (0, 0, 8));
    t.pass();
    t.pass();
    assert_eq!(t.summary(), Summary::AllPassed { passed: 2, total: 8 });
    t.fail();
    assert_eq!((t.passed, t.failed, t.total), (2, 1, 8));
    assert_eq!(t.summary(), Summary::SomeFailed { passed: 2, total: 8, failed: 1 });
}

#[test]
fn test_runner_all_pass() {
    let mut t = TestRunner::new();
    for _ in 0..8 {
        t.pass();
    }
    assert_eq!(t.summary(), Summary::AllPassed { passed: 8, total: 8 });
}
