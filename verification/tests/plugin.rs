use hints::plugin::{
    HintPlugin, PluginAction, PLUGIN_DESCRIPTION, PLUGIN_NAME, PLUGIN_SIGNATURE,
    XPLM_MSG_LIVERY_LOADED, XPLM_MSG_PLANE_UNLOADED,
};

#[test]
fn plugin_names_itself() {
    assert_eq!(PLUGIN_NAME, "FLC Hints");
    assert_eq!(PLUGIN_SIGNATURE, "uk.co.flightlevelchange.hints");
    assert_eq!(PLUGIN_DESCRIPTION, "Displays a set of hint images for the current aircraft");
}

#[test]
fn messages_have_the_numbers_of_the_simulator() {
    assert_eq!(XPLM_MSG_PLANE_UNLOADED, 106);
    assert_eq!(XPLM_MSG_LIVERY_LOADED, 108);
}

#[test]
fn plugin_starts_without_an_aircraft() {
    let plugin = HintPlugin::start();
    assert!(!plugin.aircraft_loaded);
    assert_eq!(plugin.enable(), PluginAction::Nothing);
}

#[test]
fn loaded_livery_creates_the_window() {
    let mut plugin = HintPlugin::start();
    assert_eq!(plugin.receive_message(108), PluginAction::Create);
    assert!(plugin.aircraft_loaded);
    assert_eq!(plugin.receive_message(108), PluginAction::Create);
    assert!(plugin.aircraft_loaded);
}

#[test]
fn unloaded_plane_removes_the_window() {
    let mut plugin = HintPlugin::start();
    plugin.receive_message(108);
    assert_eq!(plugin.receive_message(106), PluginAction::Remove);
    assert!(!plugin.aircraft_loaded);
    assert_eq!(plugin.receive_message(106), PluginAction::Remove);
    assert!(!plugin.aircraft_loaded);
}

#[test]
fn other_messages_change_nothing() {
    for loaded in [false, true] {
        for message in [0, 101, 102, 105, 107, 109, -1, -108, i32::MIN, i32::MAX] {
            let mut plugin = HintPlugin { aircraft_loaded: loaded };
            assert_eq!(plugin.receive_message(message), PluginAction::Nothing);
            assert_eq!(plugin.aircraft_loaded, loaded);
        }
    }
}

#[test]
fn enabling_creates_the_window_while_an_aircraft_is_loaded() {
    let mut plugin = HintPlugin::start();
    plugin.receive_message(108);
    assert_eq!(plugin.disable(), PluginAction::Remove);
    assert!(plugin.aircraft_loaded);
    assert_eq!(plugin.enable(), PluginAction::Create);
    plugin.receive_message(106);
    assert_eq!(plugin.enable(), PluginAction::Nothing);
}

#[test]
fn disabling_removes_the_window() {
    assert_eq!(HintPlugin { aircraft_loaded: false }.disable(), PluginAction::Remove);
    assert_eq!(HintPlugin { aircraft_loaded: true }.disable(), PluginAction::Remove);
}
