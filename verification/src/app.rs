//! The viewer: the hints that have been loaded, and which of them is shown.

use crate::hints::{Hint, HintView};
use crate::ConfigError;
use vstd::prelude::*;
use vstd::string::StringExecFns;

verus! {

/// A key of the keyboard, as far as the viewer tells keys apart.
#[derive(Debug, Clone, Copy, PartialEq, Eq, Structural)]
pub enum Key {
    UpArrow,
    DownArrow,
    R,
    /// Any other key.
    Other,
}

/// What happened to a key.
#[derive(Debug, Clone, Copy, PartialEq, Eq, Structural)]
pub enum Action {
    Release,
    Press,
    Repeat,
}

/// An input event that reaches the hints window.
#[derive(Debug, Clone, Copy, PartialEq, Eq, Structural)]
pub enum Event {
    /// The wheel was turned by `x` clicks sideways and `y` clicks up.
    Scroll { x: i32, y: i32 },
    /// A key changed; `key` is `None` where the windowing system could not name it.
    Key { key: Option<Key>, action: Action },
    /// Anything else.
    Other,
}

/// What the user asks of the viewer.
#[derive(Debug, Clone, Copy, PartialEq, Eq, Structural)]
pub enum HintsEvent {
    NextHint,
    PreviousHint,
    Reload,
}

impl HintsEvent {
    /// The request that an input event stands for, if any: scrolling up or `DownArrow` asks
    /// for the next hint, scrolling down or `UpArrow` for the previous one, `R` for a reload.
    /// Keys count when they are pressed, not when they repeat or are released.
    pub open spec fn of(event: Event) -> Option<HintsEvent> {
        match event {
            Event::Scroll { x, y } => {
                if y < 0 {
                    Some(HintsEvent::PreviousHint)
                } else if y == 0 {
                    None
                } else {
                    Some(HintsEvent::NextHint)
                }
            },
            Event::Key { key: Some(key), action: Action::Press } => match key {
                Key::UpArrow => Some(HintsEvent::PreviousHint),
                Key::DownArrow => Some(HintsEvent::NextHint),
                Key::R => Some(HintsEvent::Reload),
                Key::Other => None,
            },
            _ => None,
        }
    }

    /// The request that an input event stands for, if any.
    pub fn from(event: &Event) -> (request: Option<Self>)
        ensures
            request == Self::of(*event),
    {
        match *event {
            Event::Scroll { x: _, y } => {
                if y < 0 {
                    Some(Self::PreviousHint)
                } else if y == 0 {
                    None
                } else {
                    Some(Self::NextHint)
                }
            },
            Event::Key { key: Some(key), action } => {
                if action == Action::Press {
                    match key {
                        Key::UpArrow => Some(Self::PreviousHint),
                        Key::DownArrow => Some(Self::NextHint),
                        Key::R => Some(Self::Reload),
                        Key::Other => None,
                    }
                } else {
                    None
                }
            },
            _ => None,
        }
    }
}

/// The index after `current` among `len` hints, going round to the first after the last.
pub open spec fn next_index(current: int, len: int) -> int {
    (current + 1) % len
}

/// The index before `current` among `len` hints, going round to the last before the first.
pub open spec fn previous_index(current: int, len: int) -> int {
    (current + len - 1) % len
}

/// Stepping back from the first of `len` hints gives the last, and from any other the one
/// before it.
pub proof fn lemma_previous_index(current: int, len: int)
    requires
        0 <= current < len,
    ensures
        previous_index(current, len) == if current == 0 {
            len - 1
        } else {
            current - 1
        },
{
    if current == 0 {
        vstd::arithmetic::div_mod::lemma_small_mod((len - 1) as nat, len as nat);
    } else {
        vstd::arithmetic::div_mod::lemma_mod_add_multiples_vanish(current - 1, len);
        vstd::arithmetic::div_mod::lemma_small_mod((current - 1) as nat, len as nat);
    }
}

/// Stepping on from the last of `len` hints gives the first, and from any other the one
/// after it.
pub proof fn lemma_next_index(current: int, len: int)
    requires
        0 <= current < len,
    ensures
        next_index(current, len) == if current + 1 == len {
            0
        } else {
            current + 1
        },
{
    if current + 1 == len {
        vstd::arithmetic::div_mod::lemma_mod_self_0(len);
    } else {
        vstd::arithmetic::div_mod::lemma_small_mod((current + 1) as nat, len as nat);
    }
}

/// Stepping to the next hint and then to the previous one, or the other way round, leads
/// back to the hint that was shown.
pub proof fn lemma_steps_undo_each_other(current: int, len: int)
    requires
        0 <= current < len,
    ensures
        0 <= next_index(current, len) < len,
        0 <= previous_index(current, len) < len,
        previous_index(next_index(current, len), len) == current,
        next_index(previous_index(current, len), len) == current,
{
    lemma_next_index(current, len);
    lemma_previous_index(current, len);
    lemma_previous_index(next_index(current, len), len);
    lemma_next_index(previous_index(current, len), len);
}

/// The textures that the given hints hold, in the order of the hints.
pub open spec fn allocated_textures(hints: Seq<HintView>) -> Seq<usize>
    decreases hints.len(),
{
    if hints.len() == 0 {
        Seq::empty()
    } else {
        let before = allocated_textures(hints.drop_last());
        match hints.last().texture_id {
            Some(texture_id) => before.push(texture_id),
            None => before,
        }
    }
}

/// The texture of an optional hint, as the list of textures to release: one or none.
pub open spec fn texture_of(hint: Option<HintView>) -> Seq<usize> {
    match hint {
        Some(HintView { texture_id: Some(texture_id), .. }) => seq![texture_id],
        _ => Seq::empty(),
    }
}

/// What a [`Hints`] holds.
pub struct HintsView {
    /// The directory that the hints are loaded from.
    pub path: Seq<char>,
    /// The hints, in the order in which they were loaded.
    pub hints: Seq<HintView>,
    /// Index of the hint that is shown.
    pub current: usize,
}

impl HintsView {
    /// Every hint is well formed, and the index names one of them or is zero.
    pub open spec fn wf(self) -> bool {
        &&& self.current == 0 || self.current < self.hints.len()
        &&& forall|i: int| 0 <= i < self.hints.len() ==> (#[trigger] self.hints[i]).wf()
    }

    /// The hint that is shown, if there is one.
    pub open spec fn current_hint(self) -> Option<HintView> {
        if self.current < self.hints.len() {
            Some(self.hints[self.current as int])
        } else {
            None
        }
    }

    /// The same, but with what `change` makes of the hint that is shown, if there is one.
    pub open spec fn with_current(self, change: spec_fn(HintView) -> HintView) -> HintsView {
        if self.current < self.hints.len() {
            HintsView {
                hints: self.hints.update(
                    self.current as int,
                    change(self.hints[self.current as int]),
                ),
                ..self
            }
        } else {
            self
        }
    }

    /// The same, but the hint that is shown has given up its texture.
    pub open spec fn without_current_texture(self) -> HintsView {
        self.with_current(|hint: HintView| hint.without_texture())
    }

    /// No hints, and the index back at the start.
    pub open spec fn reloaded(self) -> HintsView {
        HintsView { hints: Seq::empty(), current: 0, ..self }
    }

    /// The viewer after a request. Without hints, stepping changes nothing. With hints, the
    /// hint that was shown gives up its texture and the index moves one step, going round
    /// at the ends. A reload empties the viewer.
    pub open spec fn after(self, event: HintsEvent) -> HintsView {
        match event {
            HintsEvent::Reload => self.reloaded(),
            HintsEvent::NextHint => {
                if self.hints.len() == 0 {
                    self
                } else {
                    HintsView {
                        current: next_index(self.current as int, self.hints.len() as int) as usize,
                        ..self.without_current_texture()
                    }
                }
            },
            HintsEvent::PreviousHint => {
                if self.hints.len() == 0 {
                    self
                } else {
                    HintsView {
                        current: previous_index(
                            self.current as int,
                            self.hints.len() as int,
                        ) as usize,
                        ..self.without_current_texture()
                    }
                }
            },
        }
    }

    /// The textures that a request sets free, for the renderer to release.
    pub open spec fn released_by(self, event: HintsEvent) -> Seq<usize> {
        match event {
            HintsEvent::Reload => allocated_textures(self.hints),
            _ => texture_of(self.current_hint()),
        }
    }
}

/// The hints of one directory and the index of the one that is shown.
#[derive(Debug)]
pub struct Hints {
    path: String,
    hints: Vec<Hint>,
    current_hint_idx: usize,
}

impl View for Hints {
    type V = HintsView;

    closed spec fn view(&self) -> HintsView {
        HintsView {
            path: self.path@,
            hints: self.hints@.map_values(|hint: Hint| hint@),
            current: self.current_hint_idx,
        }
    }
}

impl Hints {
    /// The viewer is well formed: see [`HintsView::wf`].
    pub open spec fn wf(&self) -> bool {
        self@.wf()
    }

    /// A viewer for the hints in the directory `path`, with no hint loaded yet. `is_dir`
    /// says whether `path` names a directory.
    ///
    /// # Errors
    ///
    /// Fails where `path` is no directory; the message names the path.
    pub fn new(path: String, is_dir: bool) -> (made: Result<Self, ConfigError>)
        ensures
            made is Ok <==> is_dir,
            made matches Ok(hints) ==> hints.wf() && hints@ == (HintsView {
                path: path@,
                hints: Seq::empty(),
                current: 0,
            }),
            made matches Err(error) ==> error@ == path@ + " is not a directory"@,
    {
        if !is_dir {
            let mut msg = path;
            msg.append(" is not a directory");
            return Err(ConfigError::new(msg));
        }
        let hints = Hints { path, hints: Vec::new(), current_hint_idx: 0 };
        assert(hints@.hints =~= Seq::empty());
        Ok(hints)
    }

    /// The directory that the hints are loaded from.
    pub fn path(&self) -> (path: &str)
        ensures
            path@ == self@.path,
    {
        self.path.as_str()
    }

    /// Number of hints that are loaded.
    pub fn len(&self) -> (len: usize)
        ensures
            len == self@.hints.len(),
    {
        self.hints.len()
    }

    /// Index of the hint that is shown.
    pub fn current_hint_idx(&self) -> (index: usize)
        ensures
            index == self@.current,
    {
        self.current_hint_idx
    }

    /// Whether any hint is loaded.
    pub fn have_hints(&self) -> (any: bool)
        ensures
            any <==> self@.hints.len() > 0,
    {
        !self.hints.is_empty()
    }

    /// The hint that is shown, if there is one.
    pub fn current_hint(&self) -> (shown: Option<&Hint>)
        ensures
            match shown {
                Some(hint) => self@.current_hint() == Some(hint@),
                None => self@.current_hint() is None,
            },
    {
        if self.current_hint_idx < self.hints.len() {
            Some(&self.hints[self.current_hint_idx])
        } else {
            None
        }
    }

    /// Appends a hint that has been loaded. The hint that is shown stays the same.
    pub fn push(&mut self, hint: Hint)
        requires
            old(self).wf(),
            hint.wf(),
        ensures
            final(self).wf(),
            final(self)@ == (HintsView { hints: old(self)@.hints.push(hint@), ..old(self)@ }),
    {
        self.hints.push(hint);
        assert(self@.hints =~= old(self)@.hints.push(hint@));
    }

    /// Empties the viewer before its directory is read again, and sets the index back to
    /// the start. Returns the textures that the hints held, for the renderer to release.
    pub fn reload(&mut self) -> (released: Vec<usize>)
        requires
            old(self).wf(),
        ensures
            final(self).wf(),
            final(self)@ == old(self)@.reloaded(),
            released@ == allocated_textures(old(self)@.hints),
    {
        let mut released: Vec<usize> = Vec::new();
        let mut i: usize = 0;
        while i < self.hints.len()
            invariant
                *self == *old(self),
                i <= self.hints.len(),
                released@ == allocated_textures(self@.hints.take(i as int)),
            decreases self.hints.len() - i,
        {
            proof {
                let seen = self@.hints.take(i + 1);
                assert(seen.drop_last() =~= self@.hints.take(i as int));
                assert(seen.last() == self.hints[i as int]@);
            }
            if let Some(texture_id) = self.hints[i].texture_id() {
                released.push(texture_id);
            }
            i += 1;
        }
        assert(self@.hints.take(i as int) =~= self@.hints);
        self.current_hint_idx = 0;
        self.hints = Vec::new();
        assert(self@.hints =~= Seq::empty());
        released
    }

    /// Takes the texture from the hint that is shown, if it holds one, and returns it for
    /// the renderer to release.
    pub fn deallocate_current_texture(&mut self) -> (released: Option<usize>)
        requires
            old(self).wf(),
        ensures
            final(self).wf(),
            final(self)@ == old(self)@.without_current_texture(),
            released == match old(self)@.current_hint() {
                Some(hint) => hint.texture_id,
                None => None,
            },
    {
        if self.current_hint_idx < self.hints.len() {
            let released = self.hints[self.current_hint_idx].deallocate_texture();
            assert(self@.hints =~= old(self)@.without_current_texture().hints);
            released
        } else {
            None
        }
    }

    /// Takes note of the outcome of an attempt to make a texture for the hint that is
    /// shown: see [`Hint::cache_texture`]. Returns the texture that this hint holds
    /// afterwards; `None` also where no hint is shown.
    pub fn cache_current_texture(&mut self, created: Option<usize>) -> (texture_id: Option<usize>)
        requires
            old(self).wf(),
        ensures
            final(self).wf(),
            final(self)@ == old(self)@.with_current(|hint: HintView| hint.with_cached(created)),
            texture_id == match final(self)@.current_hint() {
                Some(hint) => hint.texture_id,
                None => None,
            },
    {
        if self.current_hint_idx < self.hints.len() {
            let texture_id = self.hints[self.current_hint_idx].cache_texture(created);
            assert(self@.hints =~= old(self)@.with_current(
                |hint: HintView| hint.with_cached(created),
            ).hints);
            texture_id
        } else {
            None
        }
    }

    /// Carries out a request: see [`HintsView::after`]. Returns the textures that it sets
    /// free, for the renderer to release. After a reload, the directory is to be read again.
    pub fn handle_hints_event(&mut self, event: HintsEvent) -> (released: Vec<usize>)
        requires
            old(self).wf(),
        ensures
            final(self).wf(),
            final(self)@ == old(self)@.after(event),
            released@ == old(self)@.released_by(event),
    {
        match event {
            HintsEvent::Reload => self.reload(),
            HintsEvent::NextHint => {
                let mut released: Vec<usize> = Vec::new();
                let len = self.hints.len();
                if len > 0 {
                    if let Some(texture_id) = self.deallocate_current_texture() {
                        released.push(texture_id);
                    }
                    assert(self@.hints.len() == len);
                    self.current_hint_idx = (self.current_hint_idx + 1) % len;
                }
                assert(released@ =~= old(self)@.released_by(event));
                released
            },
            HintsEvent::PreviousHint => {
                let mut released: Vec<usize> = Vec::new();
                let len = self.hints.len();
                if len > 0 {
                    if let Some(texture_id) = self.deallocate_current_texture() {
                        released.push(texture_id);
                    }
                    assert(self@.hints.len() == len);
                    let current = self.current_hint_idx;
                    assert(previous_index(current as int, len as int) == if current == 0 {
                        len - 1
                    } else {
                        current - 1
                    }) by {
                        lemma_previous_index(current as int, len as int);
                    }
                    self.current_hint_idx = if current == 0 {
                        len - 1
                    } else {
                        current - 1
                    };
                }
                assert(released@ =~= old(self)@.released_by(event));
                released
            },
        }
    }

    /// Carries out the request that an input event stands for, if it stands for one.
    /// Returns the request and the textures that it sets free, or `None` for an event that
    /// the viewer has no use for.
    pub fn handle_event(&mut self, event: &Event) -> (handled: Option<(HintsEvent, Vec<usize>)>)
        requires
            old(self).wf(),
        ensures
            final(self).wf(),
            match handled {
                Some((request, released)) => {
                    &&& HintsEvent::of(*event) == Some(request)
                    &&& final(self)@ == old(self)@.after(request)
                    &&& released@ == old(self)@.released_by(request)
                },
                None => HintsEvent::of(*event) is None && final(self)@ == old(self)@,
            },
    {
        match HintsEvent::from(event) {
            Some(request) => {
                let released = self.handle_hints_event(request);
                Some((request, released))
            },
            None => None,
        }
    }
}

} // verus!
