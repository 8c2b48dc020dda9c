//! The Ryos MK FX keyboard: its reports, its light layer and its events.
pub mod control;
pub mod custom_lights;
pub mod event;
pub mod hardware_color;
pub mod keys;
pub mod light_control;
pub mod lights;
pub mod profile;
pub mod quantizer;
pub mod sdk;

pub use self::control::{select, Control, ControlRequest, ControlStatus, WaitError, WaitStep};
pub use self::custom_lights::{CustomLights, LightLayer, LightLayerData, LightLayerKey};
pub use self::event::{
    Event, EventAction, EventKeyAction, EventLiveRecordingAction, EventQueue, EventRadSubtype,
    EventSubtype, EventType,
};
pub use self::hardware_color::HardwareColor;
pub use self::keys::{KeysEasyzone, KeysExtra, KeysFunction, KeysMacro, KeysPrimary, KeysThumbster};
pub use self::light_control::{LightControl, LightControlState, LightControlWriteCheck};
pub use self::lights::{LightDimnessType, LightEffect, LightLedFeedback, LightMode, Lights};
pub use self::profile::{DeviceInfo, Profile, ProfileError};
pub use self::sdk::{effect_index_to_sdk_index, sdk_index_to_light_index};

use vstd::prelude::*;

verus! {

/// The interfaces of the keyboard, in the order that their device nodes come.
#[derive(Clone, Copy, Debug, PartialEq, Eq)]
pub enum Interface {
    Primary,
    Events,
}

impl Interface {
    /// Position of the interface's device node.
    pub fn index(&self) -> (r: usize)
        ensures
            r == if *self == Interface::Primary {
                0usize
            } else {
                1usize
            },
    {
        match self {
            Interface::Primary => 0,
            Interface::Events => 1,
        }
    }
}

} // verus!
