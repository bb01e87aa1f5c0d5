//! The life of the plugin inside the simulator: it has its menu, commands and window while
//! an aircraft is loaded and the plugin is enabled.

use vstd::prelude::*;

verus! {

/// Name of the plugin.
pub const PLUGIN_NAME: &'static str = "FLC Hints";

/// Signature of the plugin, by which the simulator tells plugins apart.
pub const PLUGIN_SIGNATURE: &'static str = "uk.co.flightlevelchange.hints";

/// What the plugin does, in a sentence.
pub const PLUGIN_DESCRIPTION: &'static str =
    "Displays a set of hint images for the current aircraft";

/// Number of the message that the simulator sends when an aircraft has been unloaded.
pub const XPLM_MSG_PLANE_UNLOADED: u32 = 106;

/// Number of the message that the simulator sends when the livery of an aircraft has been
/// loaded.
pub const XPLM_MSG_LIVERY_LOADED: u32 = 108;

/// What is to be done with the plugin's menu, commands and window.
#[derive(Debug, Clone, Copy, PartialEq, Eq, Structural)]
pub enum PluginAction {
    /// Leave them as they are.
    Nothing,
    /// Create them for the aircraft that is loaded, in place of those that exist.
    Create,
    /// Remove them, if they exist.
    Remove,
}

/// The plugin, as far as its life goes: whether an aircraft is loaded.
#[derive(Debug, Clone, Copy, PartialEq, Eq, Structural)]
pub struct HintPlugin {
    pub aircraft_loaded: bool,
}

impl HintPlugin {
    /// What a message of the simulator asks for.
    pub open spec fn action_on(message: i32) -> PluginAction {
        if message == XPLM_MSG_LIVERY_LOADED {
            PluginAction::Create
        } else if message == XPLM_MSG_PLANE_UNLOADED {
            PluginAction::Remove
        } else {
            PluginAction::Nothing
        }
    }

    /// The plugin after a message of the simulator.
    pub open spec fn after(self, message: i32) -> HintPlugin {
        match Self::action_on(message) {
            PluginAction::Create => HintPlugin { aircraft_loaded: true },
            PluginAction::Remove => HintPlugin { aircraft_loaded: false },
            PluginAction::Nothing => self,
        }
    }

    /// The plugin when the simulator starts it: no aircraft is loaded.
    pub fn start() -> (plugin: Self)
        ensures
            !plugin.aircraft_loaded,
    {
        HintPlugin { aircraft_loaded: false }
    }

    /// The plugin is enabled: its menu, commands and window are created if an aircraft is
    /// loaded.
    pub fn enable(&self) -> (action: PluginAction)
        ensures
            action == if self.aircraft_loaded {
                PluginAction::Create
            } else {
                PluginAction::Nothing
            },
    {
        if self.aircraft_loaded {
            PluginAction::Create
        } else {
            PluginAction::Nothing
        }
    }

    /// The plugin is disabled: its menu, commands and window are removed.
    pub fn disable(&self) -> (action: PluginAction)
        ensures
            action == PluginAction::Remove,
    {
        PluginAction::Remove
    }

    /// The simulator sent a message. When a livery has been loaded, an aircraft is there, and
    /// the menu, commands and window are created for it. When the aircraft has been unloaded,
    /// they are removed. Any other message changes nothing.
    pub fn receive_message(&mut self, message: i32) -> (action: PluginAction)
        ensures
            action == Self::action_on(message),
            *final(self) == old(self).after(message),
    {
        if message < 0 {
            PluginAction::Nothing
        } else if message as u32 == XPLM_MSG_LIVERY_LOADED {
            self.aircraft_loaded = true;
            PluginAction::Create
        } else if message as u32 == XPLM_MSG_PLANE_UNLOADED {
            self.aircraft_loaded = false;
            PluginAction::Remove
        } else {
            PluginAction::Nothing
        }
    }
}

} // verus!
