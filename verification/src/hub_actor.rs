//! The hub's global state and the actor step that reads and updates it.
//!
//! The state is owned by one task; every other task talks to it by
//! messages. `HubData::handle_message` is that task's whole decision: given
//! the current state and one message, it yields the next state and the
//! reply. Channels and the receive loop live outside the library.

use std::collections::HashMap;
use vstd::prelude::*;

use crate::protocol::Color;

verus! {

broadcast use vstd::std_specs::hash::group_hash_axioms;

/// A button's new state, as reported by a controller.
#[derive(Debug, Clone, Copy, PartialEq, Eq, Structural)]
pub struct Button {
    pub button_id: u8,
    pub is_pressed: bool,
}

/// A sensor's new reading.
#[derive(Debug, Clone, Copy, PartialEq, Eq, Structural)]
pub struct Sensor {
    pub sensor_id: u8,
    pub value: u16,
}

/// A light's new colour.
#[derive(Debug, Clone, Copy, PartialEq, Eq, Structural)]
pub struct LightColor {
    pub light_id: u8,
    pub color: Color,
}

/// Whether a button is held down (`true`) or released (`false`).
#[derive(Debug, Clone, Copy, Default, PartialEq, Eq, Structural)]
pub struct ButtonState(pub bool);

impl ButtonState {
    /// The word that stands for this state in a serialised snapshot:
    /// `"pressed"` or `"released"`.
    pub fn label(&self) -> (s: &'static str)
        ensures
            s@ == (if self.0 {
                "pressed"@
            } else {
                "released"@
            }),
    {
        if self.0 {
            "pressed"
        } else {
            "released"
        }
    }
}

/// Snapshot immutable of the global state.
#[derive(Clone, Default)]
pub struct StateSnapshot {
    pub lights: HashMap<u8, Color>,
    pub buttons: HashMap<u8, ButtonState>,
    pub sensors: HashMap<u8, u16>,
}

/// The abstract content of a [`StateSnapshot`]: three finite maps keyed by
/// device-local ids.
pub struct HubView {
    pub lights: Map<u8, Color>,
    pub buttons: Map<u8, ButtonState>,
    pub sensors: Map<u8, u16>,
}

impl View for StateSnapshot {
    type V = HubView;

    open spec fn view(&self) -> HubView {
        HubView { lights: self.lights@, buttons: self.buttons@, sensors: self.sensors@ }
    }
}

impl HubView {
    /// The state of a hub that has heard from no device.
    pub open spec fn empty() -> HubView {
        HubView { lights: Map::empty(), buttons: Map::empty(), sensors: Map::empty() }
    }

    /// The state after `q` has been handled.
    pub open spec fn apply(self, q: Query) -> HubView {
        match q {
            Query::GetSnapshot => self,
            Query::SetLight { light } => HubView {
                lights: self.lights.insert(light.light_id, light.color),
                ..self
            },
            Query::SetSensor { sensor } => HubView {
                sensors: self.sensors.insert(sensor.sensor_id, sensor.value),
                ..self
            },
            Query::SetButton { button } => HubView {
                buttons: self.buttons.insert(button.button_id, ButtonState(button.is_pressed)),
                ..self
            },
        }
    }
}

/// Messages accepted by the actor [`HubData`].
#[derive(Debug, Clone, Copy, PartialEq, Eq, Structural)]
pub enum Query {
    GetSnapshot,
    SetLight { light: LightColor },
    SetSensor { sensor: Sensor },
    SetButton { button: Button },
}

/// The actor's answer to a [`Query`].
pub enum Reply {
    /// A copy of the whole state, answering [`Query::GetSnapshot`].
    Snapshot(StateSnapshot),
    /// The update was applied.
    Done,
}

/// Main Actor that contain the hub global state.
pub struct HubData {
    state: StateSnapshot,
}

impl View for HubData {
    type V = HubView;

    closed spec fn view(&self) -> HubView {
        self.state@
    }
}

impl StateSnapshot {
    /// An empty snapshot.
    pub fn new() -> (s: StateSnapshot)
        ensures
            s@ == HubView::empty(),
    {
        StateSnapshot { lights: HashMap::new(), buttons: HashMap::new(), sensors: HashMap::new() }
    }

    /// A copy of this snapshot with the same content.
    pub fn copy(&self) -> (s: StateSnapshot)
        ensures
            s@ == self@,
    {
        StateSnapshot {
            lights: self.lights.clone(),
            buttons: self.buttons.clone(),
            sensors: self.sensors.clone(),
        }
    }
}

impl HubData {
    /// A hub state with no lights, buttons or sensors recorded.
    pub fn new() -> (h: HubData)
        ensures
            h@ == HubView::empty(),
    {
        HubData { state: StateSnapshot::new() }
    }

    /// Handles one message: updates record the new value under the device's
    /// id (replacing any earlier one) and are answered `Done`; a snapshot
    /// request leaves the state as it is and is answered with a copy of it.
    pub fn handle_message(&mut self, msg: Query) -> (reply: Reply)
        ensures
            final(self)@ == old(self)@.apply(msg),
            match msg {
                Query::GetSnapshot => reply matches Reply::Snapshot(s) && s@ == old(self)@,
                _ => reply is Done,
            },
    {
        match msg {
            Query::GetSnapshot => Reply::Snapshot(self.state.copy()),
            Query::SetButton { button } => {
                self.state.buttons.insert(button.button_id, ButtonState(button.is_pressed));
                Reply::Done
            },
            Query::SetLight { light } => {
                self.state.lights.insert(light.light_id, light.color);
                Reply::Done
            },
            Query::SetSensor { sensor } => {
                self.state.sensors.insert(sensor.sensor_id, sensor.value);
                Reply::Done
            },
        }
    }
}

} // verus!
