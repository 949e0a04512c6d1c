//! Double-buffered keyboard state and the pointer position.

use vstd::prelude::*;

verus! {

/// Identifier of a key: the platform's key code.
pub type Key = u32;

/// Number of key codes that the key table tracks. Codes at or above it are
/// never recorded and always read as "up".
pub const KEY_COUNT: usize = 322;

/// Code of the escape key.
pub const KEY_ESCAPE: Key = 27;

/// Mathematical model of an [`InputState`].
pub struct InputView {
    /// Key table as it stood when the current frame began.
    pub previous: Seq<bool>,
    /// Key table with the events of the current frame applied.
    pub current: Seq<bool>,
    /// Pointer position, in window coordinates.
    pub pointer: (int, int),
}

impl InputView {
    /// The model with every tracked key up and the pointer at the origin.
    pub open spec fn idle() -> InputView {
        InputView {
            previous: Seq::new(KEY_COUNT as nat, |code: int| false),
            current: Seq::new(KEY_COUNT as nat, |code: int| false),
            pointer: (0, 0),
        }
    }

    /// Both tables cover exactly the tracked key codes.
    pub open spec fn well_formed(self) -> bool {
        self.previous.len() == KEY_COUNT && self.current.len() == KEY_COUNT
    }

    /// The key is held down in the current frame.
    pub open spec fn down(self, key: Key) -> bool {
        key < KEY_COUNT && self.current[key as int]
    }

    /// The key was held down when the current frame began.
    pub open spec fn was_down(self, key: Key) -> bool {
        key < KEY_COUNT && self.previous[key as int]
    }

    /// The model with a key recorded as down or up; a code outside the table
    /// changes nothing.
    pub open spec fn with_key(self, key: Key, pressed: bool) -> InputView {
        if key < KEY_COUNT {
            InputView { current: self.current.update(key as int, pressed), ..self }
        } else {
            self
        }
    }

    /// The model with the pointer moved.
    pub open spec fn with_pointer(self, x: i32, y: i32) -> InputView {
        InputView { pointer: (x as int, y as int), ..self }
    }

    /// The model at the start of the next frame.
    pub open spec fn next_frame(self) -> InputView {
        InputView { previous: self.current, ..self }
    }

    /// The key went down during the current frame.
    pub open spec fn pressed(self, key: Key) -> bool {
        self.down(key) && !self.was_down(key)
    }

    /// The key went up during the current frame.
    pub open spec fn released(self, key: Key) -> bool {
        !self.down(key) && self.was_down(key)
    }
}

/// Key state of the previous and of the current frame, and the pointer.
pub struct InputState {
    previous: [bool; KEY_COUNT],
    current: [bool; KEY_COUNT],
    pointer_x: i32,
    pointer_y: i32,
}

impl View for InputState {
    type V = InputView;

    closed spec fn view(&self) -> InputView {
        InputView {
            previous: self.previous@,
            current: self.current@,
            pointer: (self.pointer_x as int, self.pointer_y as int),
        }
    }
}

impl InputState {
    /// A state with every key up and the pointer at the origin.
    pub fn new() -> (state: InputState)
        ensures
            state@ == InputView::idle(),
    {
        let state = InputState {
            previous: [false; KEY_COUNT],
            current: [false; KEY_COUNT],
            pointer_x: 0,
            pointer_y: 0,
        };
        assert(state@.previous =~= InputView::idle().previous);
        assert(state@.current =~= InputView::idle().current);
        state
    }

    /// Starts a frame: the current table becomes the previous one. The copy is
    /// by value, so later changes to the current table leave it alone.
    pub fn begin_frame(&mut self)
        ensures
            final(self)@ == old(self)@.next_frame(),
            final(self)@.previous == final(self)@.current,
    {
        self.previous = self.current;
    }

    /// Records a key as down or up in the current table. A code outside the
    /// table is ignored.
    pub fn set_key(&mut self, key: Key, pressed: bool)
        ensures
            final(self)@ == old(self)@.with_key(key, pressed),
    {
        if (key as usize) < KEY_COUNT {
            self.current[key as usize] = pressed;
        }
    }

    /// Moves the pointer. Within a frame the last position written stands.
    pub fn set_pointer_position(&mut self, x: i32, y: i32)
        ensures
            final(self)@ == old(self)@.with_pointer(x, y),
    {
        self.pointer_x = x;
        self.pointer_y = y;
    }

    /// Whether the key is held down.
    pub fn is_key_down(&self, key: Key) -> (down: bool)
        ensures
            down == self@.down(key),
    {
        (key as usize) < KEY_COUNT && self.current[key as usize]
    }

    /// Whether the key went down during the current frame: it is down and
    /// was not when the frame began.
    pub fn is_key_pressed(&self, key: Key) -> (pressed: bool)
        ensures
            pressed == self@.pressed(key),
    {
        (key as usize) < KEY_COUNT && self.current[key as usize] && !self.previous[key as usize]
    }

    /// Whether the key went up during the current frame: it is up and was
    /// down when the frame began.
    pub fn is_key_released(&self, key: Key) -> (released: bool)
        ensures
            released == self@.released(key),
    {
        (key as usize) < KEY_COUNT && !self.current[key as usize] && self.previous[key as usize]
    }

    /// The pointer position, in window coordinates.
    pub fn pointer_position(&self) -> (position: (i32, i32))
        ensures
            (position.0 as int, position.1 as int) == self@.pointer,
    {
        (self.pointer_x, self.pointer_y)
    }

    /// Both key tables of any state cover exactly the tracked key codes.
    pub proof fn lemma_well_formed(&self)
        ensures
            self@.well_formed(),
    {
    }
}

/// A key held from one frame into the next is down in the new frame and not
/// pressed in it: recording it as down again changes nothing. The key has to
/// be one that the table tracks.
pub proof fn lemma_held_key_is_not_pressed(view: InputView, key: Key)
    requires
        view.well_formed(),
        key < KEY_COUNT,
    ensures
        view.with_key(key, true).next_frame().with_key(key, true).down(key),
        !view.with_key(key, true).next_frame().with_key(key, true).pressed(key),
{
}

/// A key that the table does not track never reads as down, however often
/// it is recorded as such.
pub proof fn lemma_untracked_key_is_ignored(view: InputView, key: Key, pressed: bool)
    requires
        key >= KEY_COUNT,
    ensures
        view.with_key(key, pressed) == view,
        !view.down(key),
        !view.pressed(key),
        !view.released(key),
{
}

/// At the start of a frame, before any event, no key counts as pressed or
/// released.
pub proof fn lemma_new_frame_has_no_edges(view: InputView, key: Key)
    ensures
        !view.next_frame().pressed(key),
        !view.next_frame().released(key),
{
}

} // verus!
