use device_hub::hub_actor::{
    Button, ButtonState, HubData, LightColor, Query, Reply, Sensor, StateSnapshot,
};
use device_hub::protocol::Color;

fn snapshot(h: &mut HubData) -> StateSnapshot {
    match h.handle_message(Query::GetSnapshot) {
        Reply::Snapshot(s) => s,
        Reply::Done => panic!("a snapshot request must be answered with a snapshot"),
    }
}

fn update(h: &mut HubData, q: Query) {
    match h.handle_message(q) {
        Reply::Done => {}
        Reply::Snapshot(_) => panic!("an update must be answered Done"),
    }
}

#[test]
fn new_hub_is_empty() {
    let mut h = HubData::new();
    let s = snapshot(&mut h);
    assert!(s.lights.is_empty());
    assert!(s.buttons.is_empty());
    assert!(s.sensors.is_empty());
}

#[test]
fn read_after_write_each_table() {
    let mut h = HubData::new();
    update(&mut h, Query::SetLight { light: LightColor { light_id: 4, color: Color::blue() } });
    update(&mut h, Query::SetSensor { sensor: Sensor { sensor_id: 2, value: 1234 } });
    update(&mut h, Query::SetButton { button: Button { button_id: 9, is_pressed: true } });
    let s = snapshot(&mut h);
    assert_eq!(s.lights.get(&4), Some(&Color::blue()));
    assert_eq!(s.sensors.get(&2), Some(&1234));
    assert_eq!(s.buttons.get(&9), Some(&ButtonState(true)));
    assert_eq!(s.lights.len(), 1);
    assert_eq!(s.sensors.len(), 1);
    assert_eq!(s.buttons.len(), 1);
}

#[test]
fn last_write_wins() {
    let mut h = HubData::new();
    update(&mut h, Query::SetLight { light: LightColor { light_id: 0, color: Color::red() } });
    update(&mut h, Query::SetLight { light: LightColor { light_id: 0, color: Color::green() } });
    let s = snapshot(&mut h);
    assert_eq!(s.lights.get(&0), Some(&Color::green()));
    assert_eq!(s.lights.len(), 1);
}

#[test]
fn other_entries_unchanged() {
    let mut h = HubData::new();
    update(&mut h, Query::SetSensor { sensor: Sensor { sensor_id: 1, value: 10 } });
    update(&mut h, Query::SetSensor { sensor: Sensor { sensor_id: 2, value: 20 } });
    update(&mut h, Query::SetSensor { sensor: Sensor { sensor_id: 1, value: 11 } });
    let s = snapshot(&mut h);
    assert_eq!(s.sensors.get(&1), Some(&11));
    assert_eq!(s.sensors.get(&2), Some(&20));
}

#[test]
fn snapshot_leaves_state() {
    let mut h = HubData::new();
    update(&mut h, Query::SetButton { button: Button { button_id: 0, is_pressed: false } });
    let a = snapshot(&mut h);
    let b = snapshot(&mut h);
    assert_eq!(a.buttons, b.buttons);
    assert_eq!(a.lights, b.lights);
    assert_eq!(a.sensors, b.sensors);
}

#[test]
fn snapshot_is_a_copy() {
    let mut h = HubData::new();
    update(&mut h, Query::SetSensor { sensor: Sensor { sensor_id: 0, value: 1 } });
    let before = snapshot(&mut h);
    update(&mut h, Query::SetSensor { sensor: Sensor { sensor_id: 0, value: 2 } });
    assert_eq!(before.sensors.get(&0), Some(&1));
    assert_eq!(snapshot(&mut h).sensors.get(&0), Some(&2));
}

#[test]
fn button_state_labels() {
    assert_eq!(ButtonState(true).label(), "pressed");
    assert_eq!(ButtonState(false).label(), "released");
}

#[test]
fn state_snapshot_copy_and_new() {
    let mut s = StateSnapshot::new();
    s.lights.insert(3, Color::white());
    let c = s.copy();
    assert_eq!(c.lights.get(&3), Some(&Color::white()));
    assert!(c.buttons.is_empty());
}

#[test]
fn updates_of_different_entries_commute() {
    let a = Query::SetLight { light: LightColor { light_id: 1, color: Color::red() } };
    let b = Query::SetLight { light: LightColor { light_id: 2, color: Color::blue() } };
    let c = Query::SetSensor { sensor: Sensor { sensor_id: 1, value: 7 } };
    let mut h1 = HubData::new();
    let mut h2 = HubData::new();
    for q in [a, b, c] {
        update(&mut h1, q);
    }
    for q in [c, b, a] {
        update(&mut h2, q);
    }
    let (s1, s2) = (snapshot(&mut h1), snapshot(&mut h2));
    assert_eq!(s1.lights, s2.lights);
    assert_eq!(s1.sensors, s2.sensors);
    assert_eq!(s1.buttons, s2.buttons);
}
