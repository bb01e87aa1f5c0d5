use hints::window::{LoadReport, Mode, PositioningMode, Rect, Saved, State, SystemWrapper, Window};

const CREATED: Rect = Rect { left: 1470, top: 400, right: 1870, bottom: 100 };
const MOVED: Rect = Rect { left: 10, top: 900, right: 410, bottom: 600 };

fn created() -> Window {
    Window { mode: PositioningMode::Free, geometry: CREATED, visible: false }
}

#[test]
fn popped_out_and_vr_are_kept_as_they_are() {
    assert_eq!(Mode::from(&PositioningMode::PopOut), Mode::PopOut);
    assert_eq!(Mode::from(&PositioningMode::VR), Mode::VR);
}

#[test]
fn every_other_positioning_is_kept_as_free() {
    assert_eq!(Mode::from(&PositioningMode::Free), Mode::Free);
    assert_eq!(Mode::from(&PositioningMode::CenterOnMonitor), Mode::Free);
    assert_eq!(Mode::from(&PositioningMode::FullScreenOnMonitor), Mode::Free);
    assert_eq!(Mode::from(&PositioningMode::FullScreenOnAllMonitors), Mode::Free);
}

#[test]
fn kept_modes_stand_for_their_positioning() {
    assert_eq!(PositioningMode::from(&Mode::Free), PositioningMode::Free);
    assert_eq!(PositioningMode::from(&Mode::PopOut), PositioningMode::PopOut);
    assert_eq!(PositioningMode::from(&Mode::VR), PositioningMode::VR);
}

#[test]
fn kept_mode_comes_back_from_its_positioning() {
    for mode in [Mode::Free, Mode::PopOut, Mode::VR] {
        assert_eq!(Mode::from(&PositioningMode::from(&mode)), mode);
    }
}

#[test]
fn state_is_taken_from_a_window() {
    let window = Window { mode: PositioningMode::PopOut, geometry: MOVED, visible: true };
    assert_eq!(
        State::from(&window),
        State { mode: Mode::PopOut, position: MOVED, visible: true }
    );
    let window = Window { mode: PositioningMode::CenterOnMonitor, geometry: CREATED, visible: false };
    assert_eq!(
        State::from(&window),
        State { mode: Mode::Free, position: CREATED, visible: false }
    );
}

#[test]
fn new_wrapper_keeps_the_geometry_of_the_window_as_default() {
    let wrapper = SystemWrapper::new(created(), Saved::Missing).0;
    assert_eq!(wrapper.default_geometry(), CREATED);
    assert_eq!(wrapper.window(), created());
}

#[test]
fn new_wrapper_restores_what_was_saved() {
    let state = State { mode: Mode::VR, position: MOVED, visible: true };
    let wrapper = SystemWrapper::new(created(), Saved::Found(state)).0;
    assert_eq!(wrapper.default_geometry(), CREATED);
    assert_eq!(
        wrapper.window(),
        Window { mode: PositioningMode::VR, geometry: MOVED, visible: true }
    );
}

#[test]
fn toggling_flips_the_visibility() {
    let mut wrapper = SystemWrapper::new(created(), Saved::NoPath).0;
    assert!(wrapper.toggle_hint_window());
    assert!(wrapper.window().visible);
    assert!(!wrapper.toggle_hint_window());
    assert!(!wrapper.window().visible);
    assert_eq!(wrapper.window(), created());
}

#[test]
fn visibility_is_set() {
    let mut wrapper = SystemWrapper::new(created(), Saved::NoPath).0;
    wrapper.set_hint_window_visible(true);
    assert!(wrapper.window().visible);
    wrapper.set_hint_window_visible(true);
    assert!(wrapper.window().visible);
    wrapper.set_hint_window_visible(false);
    assert_eq!(wrapper.window(), created());
}

#[test]
fn save_keeps_the_window_as_it_was_observed() {
    let mut wrapper = SystemWrapper::new(created(), Saved::NoPath).0;
    assert_eq!(
        wrapper.save(),
        State { mode: Mode::Free, position: CREATED, visible: false }
    );
    wrapper.observe(Window { mode: PositioningMode::PopOut, geometry: MOVED, visible: true });
    assert_eq!(
        wrapper.save(),
        State { mode: Mode::PopOut, position: MOVED, visible: true }
    );
    assert_eq!(wrapper.default_geometry(), CREATED);
}

#[test]
fn load_restores_a_state_that_was_found() {
    let mut wrapper = SystemWrapper::new(created(), Saved::NoPath).0;
    let state = State { mode: Mode::PopOut, position: MOVED, visible: true };
    assert_eq!(wrapper.load(Saved::Found(state), false), LoadReport::Loaded);
    assert_eq!(
        wrapper.window(),
        Window { mode: PositioningMode::PopOut, geometry: MOVED, visible: true }
    );
    assert_eq!(wrapper.load(Saved::Found(state), true), LoadReport::Loaded);
    assert_eq!(wrapper.save(), state);
}

#[test]
fn load_warns_of_a_missing_state_unless_quiet() {
    let mut wrapper = SystemWrapper::new(created(), Saved::NoPath).0;
    assert_eq!(wrapper.load(Saved::Missing, false), LoadReport::NotFound);
    assert_eq!(wrapper.load(Saved::Missing, true), LoadReport::Nothing);
    assert_eq!(wrapper.window(), created());
}

#[test]
fn load_reports_failures_and_leaves_the_window_alone() {
    let mut wrapper = SystemWrapper::new(created(), Saved::NoPath).0;
    for quietly in [false, true] {
        assert_eq!(wrapper.load(Saved::NoPath, quietly), LoadReport::Nothing);
        assert_eq!(wrapper.load(Saved::Unreadable, quietly), LoadReport::ReadFailed);
        assert_eq!(wrapper.load(Saved::Unparsable, quietly), LoadReport::ParseFailed);
    }
    assert_eq!(wrapper.window(), created());
}

#[test]
fn reset_puts_the_window_back_where_it_first_was() {
    let state = State { mode: Mode::PopOut, position: MOVED, visible: false };
    let mut wrapper = SystemWrapper::new(created(), Saved::Found(state)).0;
    wrapper.reset();
    assert_eq!(
        wrapper.window(),
        Window { mode: PositioningMode::Free, geometry: CREATED, visible: true }
    );
    wrapper.reset();
    assert_eq!(
        wrapper.window(),
        Window { mode: PositioningMode::Free, geometry: CREATED, visible: true }
    );
    assert_eq!(wrapper.default_geometry(), CREATED);
}

#[test]
fn saved_window_comes_back_after_a_reset() {
    let mut wrapper = SystemWrapper::new(created(), Saved::NoPath).0;
    wrapper.observe(Window { mode: PositioningMode::VR, geometry: MOVED, visible: true });
    let state = wrapper.save();
    wrapper.reset();
    assert_eq!(wrapper.load(Saved::Found(state), false), LoadReport::Loaded);
    assert_eq!(
        wrapper.window(),
        Window { mode: PositioningMode::VR, geometry: MOVED, visible: true }
    );
}

#[test]
fn new_wrapper_reports_quietly_on_what_was_saved() {
    let state = State { mode: Mode::Free, position: MOVED, visible: true };
    assert_eq!(SystemWrapper::new(created(), Saved::Found(state)).1, LoadReport::Loaded);
    assert_eq!(SystemWrapper::new(created(), Saved::Missing).1, LoadReport::Nothing);
    assert_eq!(SystemWrapper::new(created(), Saved::NoPath).1, LoadReport::Nothing);
    assert_eq!(SystemWrapper::new(created(), Saved::Unreadable).1, LoadReport::ReadFailed);
    assert_eq!(SystemWrapper::new(created(), Saved::Unparsable).1, LoadReport::ParseFailed);
    assert_eq!(SystemWrapper::new(created(), Saved::Unparsable).0.window(), created());
}
