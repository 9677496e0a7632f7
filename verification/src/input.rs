//! Classification of the left mouse button's input.
use vstd::prelude::*;

verus! {

/// What the left mouse button is doing.  `P` is the type of a screen
/// position and `T` the type of a duration.
#[derive(Debug, Clone, Copy)]
pub enum MouseInput<P, T> {
    /// The button is up.
    Idle,
    /// The button went down at `pos` and has not been held long or moved far.
    Clicked { pos: P },
    /// The button has been held down for `dur`; the pointer is at `pos`.
    Holding { pos: P, dur: T },
    /// The pointer has been dragged from `start_pos` to `curr_pos`.
    Dragging { start_pos: P, curr_pos: P },
}

/// Whether a drag may only stretch up to `max_distance` from where it began.
#[derive(Debug, Clone, Copy)]
pub enum MouseDraggingRestriction<T> {
    Yes { max_distance: T },
    No,
}

impl<T> MouseDraggingRestriction<T> {
    /// Whether drags are limited in length.
    pub fn is_restricted(&self) -> (r: bool)
        ensures
            r == (*self is Yes),
    {
        match self {
            MouseDraggingRestriction::No => false,
            MouseDraggingRestriction::Yes { .. } => true,
        }
    }
}

impl<P, T> MouseInput<P, T> {
    /// Whether the button is being dragged.
    pub fn is_draggin(&self) -> (r: bool)
        ensures
            r == (*self is Dragging),
    {
        match self {
            MouseInput::Dragging { .. } => true,
            _ => false,
        }
    }

    /// Whether the button is up.
    pub fn is_idle(&self) -> (r: bool)
        ensures
            r == (*self is Idle),
    {
        match self {
            MouseInput::Idle => true,
            _ => false,
        }
    }
}

/// Whether a drag ended between two frames: the earlier state was a drag and
/// the current state is idle.
pub fn just_released_after_drag<P, T>(latest_state: &MouseInput<P, T>, state: &MouseInput<P, T>) -> (r:
    bool)
    ensures
        r == (*latest_state is Dragging && *state is Idle),
{
    latest_state.is_draggin() && state.is_idle()
}

/// The input `decide_state` gives.
pub open spec fn decide_state_spec<P, T>(
    start_pos: P,
    curr_pos: P,
    timer: T,
    held_long: bool,
    moved_far: bool,
) -> MouseInput<P, T> {
    if moved_far {
        MouseInput::Dragging { start_pos, curr_pos }
    } else if held_long {
        MouseInput::Holding { pos: curr_pos, dur: timer }
    } else {
        MouseInput::Clicked { pos: start_pos }
    }
}

/// The state of a pressed button.
///
/// The press began at `start_pos`, the pointer is now at `curr_pos` and the
/// button has been down for `timer`.  `held_long` says whether `timer`
/// exceeds the hold interval and `moved_far` whether the pointer has moved
/// further than the drag distance from `start_pos`.  A press that moved far
/// is a drag; else one held long is a hold at the pointer; else it is a click
/// where the press began.
pub fn decide_state<P: Copy, T: Copy>(
    start_pos: P,
    curr_pos: P,
    timer: T,
    held_long: bool,
    moved_far: bool,
) -> (r: MouseInput<P, T>)
    ensures
        r == decide_state_spec(start_pos, curr_pos, timer, held_long, moved_far),
{
    let mut state = if held_long {
        MouseInput::Holding { pos: curr_pos, dur: timer }
    } else {
        MouseInput::Clicked { pos: start_pos }
    };
    if moved_far {
        state = MouseInput::Dragging { start_pos: start_pos, curr_pos: curr_pos };
    }
    state
}

} // verus!

verus! {

/// The bookkeeping of the left mouse button between frames: the input of the
/// previous and of the current frame, where the current press began, where
/// the pointer is and whether the button is down.
#[derive(Debug, Clone, Copy)]
pub struct MouseButtonState<P, T> {
    pub latest_state: MouseInput<P, T>,
    pub state: MouseInput<P, T>,
    pub start_pos: P,
    pub curr_pos: P,
    pub key_down: bool,
}

impl<P: Copy, T: Copy> MouseButtonState<P, T> {
    /// The button up, with both positions at `origin`.
    pub fn new(origin: P) -> (r: Self)
        ensures
            r == (MouseButtonState::<P, T> {
                latest_state: MouseInput::Idle,
                state: MouseInput::Idle,
                start_pos: origin,
                curr_pos: origin,
                key_down: false,
            }),
    {
        MouseButtonState {
            latest_state: MouseInput::Idle,
            state: MouseInput::Idle,
            start_pos: origin,
            curr_pos: origin,
            key_down: false,
        }
    }

    /// A frame in which the button is down with the pointer at `pos`: a new
    /// press begins at `pos`; the pointer moves to `pos`; the current input
    /// becomes the previous one.  The current input itself is decided by
    /// `settle` once the press's duration and distance are known.
    pub fn press(&mut self, pos: P)
        ensures
            final(self).start_pos == (if old(self).key_down {
                old(self).start_pos
            } else {
                pos
            }),
            final(self).curr_pos == pos,
            final(self).key_down,
            final(self).latest_state == old(self).state,
            final(self).state == old(self).state,
    {
        if !self.key_down {
            self.start_pos = pos;
            self.curr_pos = pos;
            self.key_down = true;
        }
        self.curr_pos = pos;
        self.latest_state = self.state;
    }

    /// Decides the input of a pressed frame from how long the button has been
    /// down (`timer`, and whether that exceeds the hold interval) and whether
    /// the pointer moved further than the drag distance (see `decide_state`).
    pub fn settle(&mut self, timer: T, held_long: bool, moved_far: bool)
        ensures
            final(self).state == decide_state_spec(
                old(self).start_pos,
                old(self).curr_pos,
                timer,
                held_long,
                moved_far,
            ),
            final(self).latest_state == old(self).latest_state,
            final(self).start_pos == old(self).start_pos,
            final(self).curr_pos == old(self).curr_pos,
            final(self).key_down == old(self).key_down,
    {
        self.state = decide_state(self.start_pos, self.curr_pos, timer, held_long, moved_far);
    }

    /// A frame in which the button is up: the current input becomes the
    /// previous one, the button is no longer down and the input is idle.
    pub fn release(&mut self)
        ensures
            *final(self) == (MouseButtonState {
                latest_state: old(self).state,
                state: MouseInput::Idle,
                key_down: false,
                ..*old(self)
            }),
    {
        self.latest_state = self.state;
        self.key_down = false;
        self.state = MouseInput::Idle;
    }
}

/// What the game does with a frame's input.
///
/// It spawns a body where the button was clicked when the input is a click,
/// a snapshot of the world has arrived, spawning is ready and the click
/// misses every drawn body (`on_object` says whether it hits one); it throws
/// the selected body when a drag has just been released.
pub fn click_action<P: Copy, T>(
    state: &MouseInput<P, T>,
    has_snapshot: bool,
    ready: bool,
    on_object: bool,
    released_after_drag: bool,
) -> (r: (Option<P>, bool))
    ensures
        r.0 == (match *state {
            MouseInput::Clicked { pos } => if has_snapshot && ready && !on_object {
                Some(pos)
            } else {
                None
            },
            _ => None,
        }),
        r.1 == released_after_drag,
{
    let spawn_at = match state {
        MouseInput::Clicked { pos } => {
            if has_snapshot && ready && !on_object {
                Some(*pos)
            } else {
                None
            }
        },
        _ => None,
    };
    (spawn_at, released_after_drag)
}

} // verus!

verus! {

/// Law: a press that moved far is a drag from where it began to the
/// pointer, whatever its duration; a press that did not move far but was held
/// long is a hold at the pointer for `timer`; any other press is a click where
/// it began.
pub proof fn pressed_button_classification<P, T>(
    start_pos: P,
    curr_pos: P,
    timer: T,
    held_long: bool,
    moved_far: bool,
)
    ensures
        moved_far ==> (decide_state_spec(start_pos, curr_pos, timer, held_long, moved_far) matches
            MouseInput::Dragging { start_pos: s, curr_pos: c } && s == start_pos && c == curr_pos),
        !moved_far && held_long ==> (decide_state_spec(start_pos, curr_pos, timer, held_long, moved_far)
            matches MouseInput::Holding { pos, dur } && pos == curr_pos && dur == timer),
        !moved_far && !held_long ==> (decide_state_spec(start_pos, curr_pos, timer, held_long, moved_far)
            matches MouseInput::Clicked { pos } && pos == start_pos),
{
}

} // verus!
