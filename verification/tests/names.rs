use hints::config::{path_from_args, RELATIVE_CONFIG_PATH};
use hints::utils::{
    aircraft_id, get_current_aircraft_icao, get_current_aircraft_id, state_file_name, XplmWrite,
    HINTS_DIRECTORY, SAVE_DIRECTORY,
};
use hints::{ConfigError, ConfigLocation};

#[test]
fn directories_are_named_hints() {
    assert_eq!(HINTS_DIRECTORY, "hints");
    assert_eq!(SAVE_DIRECTORY, "hints");
    assert_eq!(RELATIVE_CONFIG_PATH, "../hints/config.toml");
}

#[test]
fn empty_designator_stands_for_none() {
    assert_eq!(get_current_aircraft_icao(String::new()), None);
}

#[test]
fn designator_is_kept_as_it_is() {
    assert_eq!(get_current_aircraft_icao(String::from("C172")), Some(String::from("C172")));
    assert_eq!(get_current_aircraft_icao(String::from(" ")), Some(String::from(" ")));
}

#[test]
fn aircraft_is_known_by_its_designator() {
    assert_eq!(aircraft_id(Some(String::from("B738")), String::from("b738")), "B738");
    assert_eq!(get_current_aircraft_id(Some(String::from("B738")), "b738.acf"), "B738");
}

#[test]
fn aircraft_without_designator_is_known_by_its_file() {
    assert_eq!(aircraft_id(None, String::from("Cessna_172SP")), "Cessna_172SP");
    assert_eq!(get_current_aircraft_id(None, "Cessna_172SP.acf"), "Cessna_172SP");
}

#[test]
fn only_the_last_extension_is_taken_off() {
    assert_eq!(get_current_aircraft_id(None, "DR401.CDI155.acf"), "DR401.CDI155");
    assert_eq!(get_current_aircraft_id(None, "glider"), "glider");
}

#[test]
fn state_file_is_named_after_the_aircraft() {
    assert_eq!(state_file_name("C172"), "C172.toml");
    assert_eq!(state_file_name("DR401.CDI155"), "DR401.CDI155.toml");
    assert_eq!(state_file_name(""), ".toml");
}

#[test]
fn text_without_zero_byte_is_logged_as_it_is() {
    let mut writer = XplmWrite;
    assert_eq!(writer.write(b"Loading hints\n"), (14, b"Loading hints\n".to_vec()));
    assert_eq!(writer.write(b""), (0, Vec::new()));
}

#[test]
fn text_with_a_zero_byte_is_replaced() {
    let mut writer = XplmWrite;
    assert_eq!(writer.write(b"a\0b"), (3, b"Invalid message\n".to_vec()));
    assert_eq!(writer.write(b"\0"), (1, b"Invalid message\n".to_vec()));
    assert_eq!(writer.write(b"ends with zero\0"), (15, b"Invalid message\n".to_vec()));
}

#[test]
fn logged_text_holds_no_zero_byte() {
    let mut writer = XplmWrite;
    for buf in [&b""[..], b"plain", b"\0", b"a\0", b"\0\0\0", b"Invalid message\n"] {
        let (written, message) = writer.write(buf);
        assert_eq!(written, buf.len());
        assert!(!message.contains(&0));
    }
}

#[test]
fn error_shows_its_message_behind_the_opening() {
    let error = ConfigError::new(String::from("no hints"));
    assert_eq!(error.msg(), "no hints");
    assert_eq!(error.to_string(), "Unable to load hints: no hints");
    assert_eq!(ConfigError::new(String::new()).to_string(), "Unable to load hints: ");
}

#[test]
fn path_is_the_one_argument() {
    let args = vec![String::from("hints"), String::from("cfg/config.toml")];
    assert_eq!(path_from_args(&args), "cfg/config.toml");
}

#[test]
fn locations_are_told_apart() {
    assert_ne!(ConfigLocation::FromArgs, ConfigLocation::RelativeToPlugin);
}

#[test]
fn name_that_ends_in_a_separator_loses_it() {
    assert_eq!(get_current_aircraft_id(None, "glider/"), "glider");
    assert_eq!(get_current_aircraft_id(None, "a/b/"), "a/b");
}
