//! The input of one frame: which keys and buttons changed, and where the
//! cursor went.

use vstd::prelude::*;

verus! {

/// The keys that the program reacts to.
#[derive(Clone, Copy, Debug, PartialEq, Eq, Structural)]
pub enum Key {
    A,
    B,
    C,
    D,
    E,
    P,
    Q,
    S,
    V,
    W,
    X,
    Z,
    Num1,
    Num2,
    Num3,
    F1,
    F2,
    F3,
    F4,
    F5,
    F6,
    F7,
    Escape,
    /// Any other key.
    Other,
}

/// What happened to a key or a button.
#[derive(Clone, Copy, Debug, PartialEq, Eq, Structural)]
pub enum Action {
    Release,
    Press,
    Repeat,
}

/// The buttons of the mouse.
#[derive(Clone, Copy, Debug, PartialEq, Eq, Structural)]
pub enum MouseButton {
    /// The left button.
    Button1,
    /// The right button.
    Button2,
    /// The middle button.
    Button3,
    /// Any other button.
    Other,
}

/// What the window reports between two frames.
#[derive(Clone, Copy, Debug, PartialEq, Eq, Structural)]
pub enum WindowEvent {
    Key(Key, Action),
    /// The cursor moved to this place, in whole pixels.
    CursorPos(i32, i32),
    MouseButton(MouseButton, Action),
    /// Anything that is no input.
    Other,
}

/// The key changes among the first `k` events, in their order.
pub open spec fn keys_of(events: Seq<WindowEvent>, k: int) -> Seq<(Key, Action)>
    decreases k,
{
    if k <= 0 {
        Seq::empty()
    } else {
        match events[k - 1] {
            WindowEvent::Key(key, action) => keys_of(events, k - 1).push((key, action)),
            _ => keys_of(events, k - 1),
        }
    }
}

/// The places of the cursor among the first `k` events, in their order.
pub open spec fn cursor_positions_of(events: Seq<WindowEvent>, k: int) -> Seq<(i32, i32)>
    decreases k,
{
    if k <= 0 {
        Seq::empty()
    } else {
        match events[k - 1] {
            WindowEvent::CursorPos(x, y) => cursor_positions_of(events, k - 1).push((x, y)),
            _ => cursor_positions_of(events, k - 1),
        }
    }
}

/// The button changes among the first `k` events, in their order.
pub open spec fn buttons_of(events: Seq<WindowEvent>, k: int) -> Seq<(MouseButton, Action)>
    decreases k,
{
    if k <= 0 {
        Seq::empty()
    } else {
        match events[k - 1] {
            WindowEvent::MouseButton(button, action) => buttons_of(events, k - 1).push(
                (button, action),
            ),
            _ => buttons_of(events, k - 1),
        }
    }
}

/// The input of the current frame.
pub struct RenderWindow {
    key_input: Vec<(Key, Action)>,
    cursor_pos_history: Vec<(i32, i32)>,
    cursor_button_history: Vec<(MouseButton, Action)>,
    latest_cursor_pos: (i32, i32),
}

/// The mathematical model of the input of a frame.
pub struct RenderWindowView {
    pub key_input: Seq<(Key, Action)>,
    pub cursor_pos_history: Seq<(i32, i32)>,
    pub cursor_button_history: Seq<(MouseButton, Action)>,
    pub latest_cursor_pos: (i32, i32),
}

impl RenderWindowView {
    /// Whether `key` was pressed in the frame.
    pub open spec fn pressed(self, key: Key) -> bool {
        self.key_input.contains((key, Action::Press))
    }

    /// Whether `key` was released in the frame.
    pub open spec fn released(self, key: Key) -> bool {
        self.key_input.contains((key, Action::Release))
    }

    /// Whether `key` was pressed in the frame or is held down.
    pub open spec fn held(self, key: Key) -> bool {
        self.key_input.contains((key, Action::Press)) || self.key_input.contains(
            (key, Action::Repeat),
        )
    }

    /// Whether `button` did what `action` says in the frame.
    pub open spec fn clicked(self, button: MouseButton, action: Action) -> bool {
        self.cursor_button_history.contains((button, action))
    }
}

impl View for RenderWindow {
    type V = RenderWindowView;

    closed spec fn view(&self) -> RenderWindowView {
        RenderWindowView {
            key_input: self.key_input@,
            cursor_pos_history: self.cursor_pos_history@,
            cursor_button_history: self.cursor_button_history@,
            latest_cursor_pos: self.latest_cursor_pos,
        }
    }
}

impl RenderWindow {
    /// The input before the first frame: nothing happened, the cursor is at
    /// the origin.
    pub fn new() -> (window: RenderWindow)
        ensures
            window@ == (RenderWindowView {
                key_input: Seq::empty(),
                cursor_pos_history: Seq::empty(),
                cursor_button_history: Seq::empty(),
                latest_cursor_pos: (0i32, 0i32),
            }),
    {
        RenderWindow {
            key_input: Vec::new(),
            cursor_pos_history: Vec::new(),
            cursor_button_history: Vec::new(),
            latest_cursor_pos: (0, 0),
        }
    }

    /// Starts a new frame with the events that came in since the last one:
    /// the input of the last frame is forgotten but for the place of the
    /// cursor, which stays where it was until the cursor moves.
    pub fn poll_events(&mut self, events: &Vec<WindowEvent>)
        ensures
            final(self)@.key_input == keys_of(events@, events@.len() as int),
            final(self)@.cursor_pos_history == cursor_positions_of(events@, events@.len() as int),
            final(self)@.cursor_button_history == buttons_of(events@, events@.len() as int),
            final(self)@.latest_cursor_pos == if final(self)@.cursor_pos_history.len() > 0 {
                final(self)@.cursor_pos_history.last()
            } else {
                old(self)@.latest_cursor_pos
            },
    {
        self.key_input.clear();
        self.cursor_pos_history.clear();
        self.cursor_button_history.clear();
        let mut i: usize = 0;
        while i < events.len()
            invariant
                i <= events@.len(),
                self.key_input@ == keys_of(events@, i as int),
                self.cursor_pos_history@ == cursor_positions_of(events@, i as int),
                self.cursor_button_history@ == buttons_of(events@, i as int),
                self.latest_cursor_pos == if self.cursor_pos_history@.len() > 0 {
                    self.cursor_pos_history@.last()
                } else {
                    old(self).latest_cursor_pos
                },
            decreases events@.len() - i,
        {
            match events[i] {
                WindowEvent::Key(key, action) => {
                    self.key_input.push((key, action));
                },
                WindowEvent::CursorPos(x, y) => {
                    self.cursor_pos_history.push((x, y));
                    self.latest_cursor_pos = (x, y);
                },
                WindowEvent::MouseButton(button, action) => {
                    self.cursor_button_history.push((button, action));
                },
                WindowEvent::Other => {},
            }
            i = i + 1;
        }
    }

    /// The key changes of the frame.
    pub fn get_key_input(&self) -> (keys: &Vec<(Key, Action)>)
        ensures
            keys@ == self@.key_input,
    {
        &self.key_input
    }

    /// The places of the cursor in the frame.
    pub fn get_cursor_history(&self) -> (places: &Vec<(i32, i32)>)
        ensures
            places@ == self@.cursor_pos_history,
    {
        &self.cursor_pos_history
    }

    /// The button changes of the frame.
    pub fn get_cursor_button_history(&self) -> (buttons: &Vec<(MouseButton, Action)>)
        ensures
            buttons@ == self@.cursor_button_history,
    {
        &self.cursor_button_history
    }

    /// The place of the cursor.
    pub fn get_latest_cursor_pos(&self) -> (place: (i32, i32))
        ensures
            place == self@.latest_cursor_pos,
    {
        self.latest_cursor_pos
    }

    /// Whether `key` did what `action` says in the frame.
    pub fn key_event(&self, key: Key, action: Action) -> (found: bool)
        ensures
            found == self@.key_input.contains((key, action)),
    {
        let mut i: usize = 0;
        while i < self.key_input.len()
            invariant
                i <= self.key_input@.len(),
                forall|j: int| 0 <= j < i ==> self.key_input@[j] != (key, action),
            decreases self.key_input@.len() - i,
        {
            let event: (Key, Action) = self.key_input[i];
            if event.0 == key && event.1 == action {
                return true;
            }
            i = i + 1;
        }
        false
    }

    /// Whether `key` was pressed in the frame.
    pub fn pressed(&self, key: Key) -> (found: bool)
        ensures
            found == self@.pressed(key),
    {
        self.key_event(key, Action::Press)
    }

    /// Whether `key` was released in the frame.
    pub fn released(&self, key: Key) -> (found: bool)
        ensures
            found == self@.released(key),
    {
        self.key_event(key, Action::Release)
    }

    /// Whether `key` was pressed in the frame or is held down.
    pub fn held(&self, key: Key) -> (found: bool)
        ensures
            found == self@.held(key),
    {
        self.key_event(key, Action::Press) || self.key_event(key, Action::Repeat)
    }

    /// Whether `button` did what `action` says in the frame.
    pub fn clicked(&self, button: MouseButton, action: Action) -> (found: bool)
        ensures
            found == self@.clicked(button, action),
    {
        let mut i: usize = 0;
        while i < self.cursor_button_history.len()
            invariant
                i <= self.cursor_button_history@.len(),
                forall|j: int| 0 <= j < i ==> self.cursor_button_history@[j] != (button, action),
            decreases self.cursor_button_history@.len() - i,
        {
            let event: (MouseButton, Action) = self.cursor_button_history[i];
            if event.0 == button && event.1 == action {
                return true;
            }
            i = i + 1;
        }
        false
    }
}

} // verus!
