//! The hints window as the simulator shows it, and the part of it that is kept between
//! sessions: where the window is, how it is positioned, and whether it is visible.

use vstd::prelude::*;

verus! {

/// How the simulator positions a window.
#[derive(Debug, Clone, Copy, PartialEq, Eq, Structural)]
pub enum PositioningMode {
    /// The window floats where its geometry puts it.
    Free,
    CenterOnMonitor,
    FullScreenOnMonitor,
    FullScreenOnAllMonitors,
    /// The window is popped out into a window of the operating system.
    PopOut,
    /// The window floats in virtual reality.
    VR,
}

/// The positioning that is kept between sessions: free, popped out, or in virtual reality.
#[derive(Debug, Clone, Copy, PartialEq, Eq, Structural)]
pub enum Mode {
    Free,
    PopOut,
    VR,
}

impl Mode {
    /// The mode that is kept for a positioning mode: popped out and virtual reality as they
    /// are, every other as free.
    pub open spec fn of(value: PositioningMode) -> Mode {
        match value {
            PositioningMode::PopOut => Mode::PopOut,
            PositioningMode::VR => Mode::VR,
            _ => Mode::Free,
        }
    }

    /// The mode that is kept for a positioning mode.
    pub fn from(value: &PositioningMode) -> (mode: Mode)
        ensures
            mode == Mode::of(*value),
    {
        match value {
            PositioningMode::PopOut => Mode::PopOut,
            PositioningMode::VR => Mode::VR,
            _ => Mode::Free,
        }
    }
}

impl PositioningMode {
    /// The positioning mode that a kept mode stands for.
    pub open spec fn of(value: Mode) -> PositioningMode {
        match value {
            Mode::PopOut => PositioningMode::PopOut,
            Mode::VR => PositioningMode::VR,
            Mode::Free => PositioningMode::Free,
        }
    }

    /// The positioning mode that a kept mode stands for.
    pub fn from(value: &Mode) -> (mode: PositioningMode)
        ensures
            mode == PositioningMode::of(*value),
    {
        match value {
            Mode::PopOut => PositioningMode::PopOut,
            Mode::VR => PositioningMode::VR,
            Mode::Free => PositioningMode::Free,
        }
    }
}

/// A kept mode comes back unchanged from the positioning mode that stands for it.
pub proof fn lemma_mode_round_trip(mode: Mode)
    ensures
        Mode::of(PositioningMode::of(mode)) == mode,
{
}

/// A rectangle on the screen, by its edges.
#[derive(Debug, Clone, Copy, PartialEq, Eq, Structural)]
pub struct Rect {
    pub left: i32,
    pub top: i32,
    pub right: i32,
    pub bottom: i32,
}

/// The hints window as the simulator shows it.
#[derive(Debug, Clone, Copy, PartialEq, Eq, Structural)]
pub struct Window {
    pub mode: PositioningMode,
    pub geometry: Rect,
    pub visible: bool,
}

/// What is kept of the hints window between sessions.
#[derive(Debug, Clone, Copy, PartialEq, Eq, Structural)]
pub struct State {
    pub mode: Mode,
    pub position: Rect,
    pub visible: bool,
}

impl State {
    /// What is kept of a window: its geometry and visibility, and its mode as [`Mode::of`]
    /// keeps it.
    pub open spec fn of(window: Window) -> State {
        State { mode: Mode::of(window.mode), position: window.geometry, visible: window.visible }
    }

    /// The window that a kept state describes.
    pub open spec fn window(self) -> Window {
        Window {
            mode: PositioningMode::of(self.mode),
            geometry: self.position,
            visible: self.visible,
        }
    }

    /// What is kept of a window.
    pub fn from(value: &Window) -> (state: State)
        ensures
            state == State::of(*value),
    {
        State { mode: Mode::from(&value.mode), position: value.geometry, visible: value.visible }
    }
}

/// A state that was kept of some window describes a window of which the same state is kept.
pub proof fn lemma_state_round_trip(state: State)
    ensures
        State::of(state.window()) == state,
{
}

/// A window that is restored from what was kept of it has its geometry and visibility, and
/// its positioning mode unless that was one that is kept as free.
pub proof fn lemma_window_restored(window: Window)
    ensures
        State::of(window).window().geometry == window.geometry,
        State::of(window).window().visible == window.visible,
        State::of(window).window().mode == if window.mode == PositioningMode::PopOut
            || window.mode == PositioningMode::VR {
            window.mode
        } else {
            PositioningMode::Free
        },
{
}

/// What was found where the state of the window is kept.
#[derive(Debug, Clone, Copy, PartialEq, Eq, Structural)]
pub enum Saved {
    /// There is no place to keep a state in.
    NoPath,
    /// No state has been kept yet.
    Missing,
    /// A file is there and could not be read.
    Unreadable,
    /// A file was read and holds no state.
    Unparsable,
    /// This state was kept.
    Found(State),
}

/// What became of an attempt to restore the window, for the log.
#[derive(Debug, Clone, Copy, PartialEq, Eq, Structural)]
pub enum LoadReport {
    /// The window was left alone, and there is nothing to say.
    Nothing,
    /// The window was left alone: no state has been kept, which is worth a warning.
    NotFound,
    /// The window was left alone: the file could not be read.
    ReadFailed,
    /// The window was left alone: the file holds no state.
    ParseFailed,
    /// The window was restored.
    Loaded,
}

/// The report on what was found, where a missing state is passed over `quietly` or not.
pub open spec fn load_report(saved: Saved, quietly: bool) -> LoadReport {
    match saved {
        Saved::NoPath => LoadReport::Nothing,
        Saved::Missing => if quietly {
            LoadReport::Nothing
        } else {
            LoadReport::NotFound
        },
        Saved::Unreadable => LoadReport::ReadFailed,
        Saved::Unparsable => LoadReport::ParseFailed,
        Saved::Found(_) => LoadReport::Loaded,
    }
}

/// The window after an attempt to restore it: the one that a state that was found
/// describes, and else the window as it was.
pub open spec fn window_after_load(window: Window, saved: Saved) -> Window {
    match saved {
        Saved::Found(state) => state.window(),
        _ => window,
    }
}

/// The window when it is put back where it first was: floating freely at `default_geometry`,
/// and visible.
pub open spec fn window_after_reset(default_geometry: Rect) -> Window {
    Window { mode: PositioningMode::Free, geometry: default_geometry, visible: true }
}

/// The hints window together with the geometry that it was created with.
#[derive(Debug, Clone, Copy, PartialEq, Eq, Structural)]
pub struct SystemWrapper {
    window: Window,
    default_geometry: Rect,
}

impl SystemWrapper {
    /// The window as it is.
    pub closed spec fn window_spec(&self) -> Window {
        self.window
    }

    /// The geometry that the window had when it was created.
    pub closed spec fn default_geometry_spec(&self) -> Rect {
        self.default_geometry
    }

    /// Takes charge of a window that was just created: its geometry becomes the default
    /// one, and then the window is restored from what was `saved` of it, quietly. Returns
    /// the wrapper and what is to be said of the restoring.
    pub fn new(window: Window, saved: Saved) -> (made: (Self, LoadReport))
        ensures
            made.0.default_geometry_spec() == window.geometry,
            made.0.window_spec() == window_after_load(window, saved),
            made.1 == load_report(saved, true),
    {
        let mut wrapper = Self { window, default_geometry: window.geometry };
        let report = wrapper.load(saved, true);
        (wrapper, report)
    }

    /// The window as it is.
    #[verifier::when_used_as_spec(window_spec)]
    pub fn window(&self) -> (window: Window)
        ensures
            window == self.window_spec(),
    {
        self.window
    }

    /// The geometry that the window had when it was created.
    #[verifier::when_used_as_spec(default_geometry_spec)]
    pub fn default_geometry(&self) -> (geometry: Rect)
        ensures
            geometry == self.default_geometry_spec(),
    {
        self.default_geometry
    }

    /// Takes note of how the simulator shows the window now, after the user may have moved
    /// it.
    pub fn observe(&mut self, window: Window)
        ensures
            final(self).window_spec() == window,
            final(self).default_geometry_spec() == old(self).default_geometry_spec(),
    {
        self.window = window;
    }

    /// Shows the window if it is hidden and hides it if it is shown. Returns whether it is
    /// visible afterwards.
    #[must_use]
    pub fn toggle_hint_window(&mut self) -> (visible: bool)
        ensures
            visible == !old(self).window_spec().visible,
            final(self).window_spec() == (Window { visible, ..old(self).window_spec() }),
            final(self).default_geometry_spec() == old(self).default_geometry_spec(),
    {
        self.window.visible = !self.window.visible;
        self.window.visible
    }

    /// Shows or hides the window.
    pub fn set_hint_window_visible(&mut self, visible: bool)
        ensures
            final(self).window_spec() == (Window { visible, ..old(self).window_spec() }),
            final(self).default_geometry_spec() == old(self).default_geometry_spec(),
    {
        self.window.visible = visible;
    }

    /// What is to be kept of the window.
    pub fn save(&self) -> (state: State)
        ensures
            state == State::of(self.window_spec()),
    {
        State::from(&self.window)
    }

    /// Restores the window from what was found where its state is kept: see
    /// [`window_after_load`]. Returns what is to be said of it: see [`load_report`].
    pub fn load(&mut self, saved: Saved, quietly: bool) -> (report: LoadReport)
        ensures
            report == load_report(saved, quietly),
            final(self).window_spec() == window_after_load(old(self).window_spec(), saved),
            final(self).default_geometry_spec() == old(self).default_geometry_spec(),
    {
        match saved {
            Saved::NoPath => LoadReport::Nothing,
            Saved::Missing => {
                if quietly {
                    LoadReport::Nothing
                } else {
                    LoadReport::NotFound
                }
            },
            Saved::Unreadable => LoadReport::ReadFailed,
            Saved::Unparsable => LoadReport::ParseFailed,
            Saved::Found(state) => {
                self.window.mode = PositioningMode::from(&state.mode);
                self.window.geometry = state.position;
                self.window.visible = state.visible;
                LoadReport::Loaded
            },
        }
    }

    /// Puts the window back where it first was: see [`window_after_reset`].
    pub fn reset(&mut self)
        ensures
            final(self).window_spec() == window_after_reset(old(self).default_geometry_spec()),
            final(self).default_geometry_spec() == old(self).default_geometry_spec(),
    {
        self.window.mode = PositioningMode::Free;
        self.window.visible = true;
        self.window.geometry = self.default_geometry;
    }
}

} // verus!
