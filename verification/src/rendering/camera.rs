//! The controls of a camera: in which directions it is told to move, and
//! how far the cursor has dragged it round.
//!
//! Where the camera is and where it looks is arithmetic on its position and
//! angles and is left to the caller. What is kept here is what the input
//! of a frame makes of the state of the controls.

use vstd::prelude::*;
use crate::window::{Action, Key, MouseButton, RenderWindow, RenderWindowView};

verus! {

/// The directions in which a camera can move.
#[derive(Clone, Copy, Debug, PartialEq, Eq, Structural)]
pub enum MovementKeys {
    Backward,
    Forward,
    Left,
    Right,
    UpForward,
    UpBackwards,
}

impl MovementKeys {
    /// The place of the direction among the six.
    pub open spec fn index(self) -> int {
        match self {
            MovementKeys::Backward => 0,
            MovementKeys::Forward => 1,
            MovementKeys::Left => 2,
            MovementKeys::Right => 3,
            MovementKeys::UpForward => 4,
            MovementKeys::UpBackwards => 5,
        }
    }

    /// The place of the direction among the six.
    pub fn position(self) -> (index: usize)
        ensures
            index == self.index(),
    {
        match self {
            MovementKeys::Backward => 0,
            MovementKeys::Forward => 1,
            MovementKeys::Left => 2,
            MovementKeys::Right => 3,
            MovementKeys::UpForward => 4,
            MovementKeys::UpBackwards => 5,
        }
    }

    /// The key that moves a camera in this direction.
    pub open spec fn key(self) -> Key {
        match self {
            MovementKeys::Backward => Key::S,
            MovementKeys::Forward => Key::W,
            MovementKeys::Left => Key::A,
            MovementKeys::Right => Key::D,
            MovementKeys::UpForward => Key::E,
            MovementKeys::UpBackwards => Key::Q,
        }
    }
}

/// The direction at a place among the six.
pub open spec fn direction_at(index: int) -> MovementKeys {
    if index == 0 {
        MovementKeys::Backward
    } else if index == 1 {
        MovementKeys::Forward
    } else if index == 2 {
        MovementKeys::Left
    } else if index == 3 {
        MovementKeys::Right
    } else if index == 4 {
        MovementKeys::UpForward
    } else {
        MovementKeys::UpBackwards
    }
}

/// The controls of a camera.
#[derive(Clone, Copy, Debug)]
pub struct Camera {
    movement_keys: [bool; 6],
    middle_key_down: bool,
    last_x: i32,
    last_y: i32,
    first_mouse: bool,
}

/// The mathematical model of the controls of a camera.
pub struct CameraView {
    /// For each direction, by its place, whether the camera moves in it.
    pub movement_keys: Seq<bool>,
    /// Whether moving the cursor turns the camera.
    pub middle_key_down: bool,
    /// Where the cursor was when the camera was last turned.
    pub last_x: i32,
    pub last_y: i32,
    /// Whether the cursor has not turned the camera since the button went
    /// down.
    pub first_mouse: bool,
}

/// How far the cursor turns a camera when it goes from `(last_x, last_y)`
/// to `(x, y)`: to the right and up count as positive.
pub open spec fn drag(last_x: i32, last_y: i32, x: i32, y: i32) -> (i64, i64) {
    ((x - last_x) as i64, (last_y - y) as i64)
}

impl CameraView {
    pub open spec fn wf(self) -> bool {
        self.movement_keys.len() == 6
    }

    /// Controls at rest.
    pub open spec fn initial() -> CameraView {
        CameraView {
            movement_keys: Seq::new(6, |i: int| false),
            middle_key_down: false,
            last_x: 0,
            last_y: 0,
            first_mouse: true,
        }
    }

    /// Whether the camera moves in a direction after a frame: it starts
    /// when the key of the direction is pressed, stops when the key is
    /// released without being pressed, and goes on as before otherwise.
    pub open spec fn latched(self, window: RenderWindowView, direction: MovementKeys) -> bool {
        if window.pressed(direction.key()) {
            true
        } else if window.released(direction.key()) {
            false
        } else {
            self.movement_keys[direction.index()]
        }
    }

    /// The controls after the keys of a frame.
    pub open spec fn after_keys(self, window: RenderWindowView) -> CameraView {
        CameraView {
            movement_keys: Seq::new(6, |i: int| self.latched(window, direction_at(i))),
            ..self
        }
    }

    /// The controls after the buttons of a frame: the middle button down
    /// lets the cursor turn the camera, the middle button up ends that.
    pub open spec fn after_buttons(self, window: RenderWindowView) -> CameraView {
        let down = window.clicked(MouseButton::Button3, Action::Press);
        let up = window.clicked(MouseButton::Button3, Action::Release);
        CameraView {
            middle_key_down: if up {
                false
            } else if down {
                true
            } else {
                self.middle_key_down
            },
            first_mouse: if up {
                true
            } else {
                self.first_mouse
            },
            ..self
        }
    }

    /// The controls after the cursor went through the first `k` of
    /// `places` while it turns the camera.
    pub open spec fn after_drag(self, places: Seq<(i32, i32)>, k: int) -> CameraView {
        if k <= 0 {
            self
        } else {
            CameraView { last_x: places[k - 1].0, last_y: places[k - 1].1, first_mouse: false, ..self }
        }
    }

    /// How far the cursor turns the camera on its way to the `k`-th of
    /// `places`: not at all at the first place after the button went down.
    pub open spec fn drag_at(self, places: Seq<(i32, i32)>, k: int) -> (i64, i64) {
        if k == 0 {
            if self.first_mouse {
                (0i64, 0i64)
            } else {
                drag(self.last_x, self.last_y, places[0].0, places[0].1)
            }
        } else {
            drag(places[k - 1].0, places[k - 1].1, places[k].0, places[k].1)
        }
    }
}

impl View for Camera {
    type V = CameraView;

    closed spec fn view(&self) -> CameraView {
        CameraView {
            movement_keys: self.movement_keys@,
            middle_key_down: self.middle_key_down,
            last_x: self.last_x,
            last_y: self.last_y,
            first_mouse: self.first_mouse,
        }
    }
}

impl Camera {
    /// Controls at rest.
    pub fn new() -> (camera: Camera)
        ensures
            camera@ == CameraView::initial(),
            camera@.wf(),
    {
        let camera = Camera {
            movement_keys: [false; 6],
            middle_key_down: false,
            last_x: 0,
            last_y: 0,
            first_mouse: true,
        };
        assert(camera@.movement_keys =~= CameraView::initial().movement_keys);
        camera
    }

    /// Tells the camera to move in a direction, or to stop moving in it.
    pub fn set_movement_key(&mut self, key: MovementKeys, pressed: bool)
        ensures
            final(self)@ == (CameraView {
                movement_keys: old(self)@.movement_keys.update(key.index(), pressed),
                ..old(self)@
            }),
            final(self)@.wf(),
    {
        let index: usize = key.position();
        self.movement_keys[index] = pressed;
    }

    /// Whether the camera moves in a direction.
    pub fn movement_key(&self, key: MovementKeys) -> (pressed: bool)
        ensures
            pressed == self@.movement_keys[key.index()],
            self@.wf(),
    {
        self.movement_keys[key.position()]
    }

    /// Stops the camera from moving backward, forward, left and right. It
    /// goes on moving up or down if it did.
    pub fn clear_movement_key(&mut self)
        ensures
            final(self)@ == (CameraView {
                movement_keys: Seq::new(
                    6,
                    |i: int|
                        if i < 4 {
                            false
                        } else {
                            old(self)@.movement_keys[i]
                        },
                ),
                ..old(self)@
            }),
            final(self)@.wf(),
    {
        self.movement_keys[0] = false;
        self.movement_keys[1] = false;
        self.movement_keys[2] = false;
        self.movement_keys[3] = false;
        assert(self@.movement_keys =~= Seq::new(
            6,
            |i: int|
                if i < 4 {
                    false
                } else {
                    old(self)@.movement_keys[i]
                },
        ));
    }

    /// Says whether moving the cursor turns the camera.
    pub fn set_rotation_button_status(&mut self, status: bool)
        ensures
            final(self)@ == (CameraView { middle_key_down: status, ..old(self)@ }),
    {
        self.middle_key_down = status;
    }

    /// Says that the cursor stopped turning the camera, be it for a while
    /// only: where it is when it starts again turns nothing.
    pub fn reset_first_mouse(&mut self)
        ensures
            final(self)@ == (CameraView { first_mouse: true, ..old(self)@ }),
    {
        self.first_mouse = true;
    }

    /// Whether moving the cursor turns the camera.
    pub fn rotation_button_status(&self) -> (status: bool)
        ensures
            status == self@.middle_key_down,
    {
        self.middle_key_down
    }

    /// Takes the keys of a frame: the camera starts and stops moving in
    /// the directions whose keys were pressed and released.
    pub fn update_camera_movement(render_window: &RenderWindow, camera: &mut Camera)
        ensures
            final(camera)@ == old(camera)@.after_keys(render_window@),
            final(camera)@.wf(),
    {
        camera.latch(render_window, Key::W, MovementKeys::Forward);
        camera.latch(render_window, Key::A, MovementKeys::Left);
        camera.latch(render_window, Key::S, MovementKeys::Backward);
        camera.latch(render_window, Key::D, MovementKeys::Right);
        camera.latch(render_window, Key::Q, MovementKeys::UpBackwards);
        camera.latch(render_window, Key::E, MovementKeys::UpForward);
        assert(camera@.movement_keys =~= old(camera)@.after_keys(render_window@).movement_keys);
    }

    /// Starts or stops the movement in one direction as its key says.
    fn latch(&mut self, render_window: &RenderWindow, key: Key, direction: MovementKeys)
        requires
            key == direction.key(),
        ensures
            final(self)@ == (CameraView {
                movement_keys: old(self)@.movement_keys.update(
                    direction.index(),
                    old(self)@.latched(render_window@, direction),
                ),
                ..old(self)@
            }),
    {
        if render_window.pressed(key) {
            self.set_movement_key(direction, true);
        } else if render_window.released(key) {
            self.set_movement_key(direction, false);
        } else {
            assert(self@.movement_keys =~= self@.movement_keys.update(
                direction.index(),
                self@.movement_keys[direction.index()],
            ));
        }
    }

    /// Takes the buttons and the cursor of a frame. Returns how far the
    /// cursor turns the camera at each of its places, to the right and up,
    /// in pixels; nothing while the middle button is up.
    pub fn update_camera_rotation(render_window: &RenderWindow, camera: &mut Camera) -> (drags:
        Vec<(i64, i64)>)
        ensures
            rotated(
                old(camera)@.after_buttons(render_window@),
                render_window@.cursor_pos_history,
                final(camera)@,
                drags@,
            ),
    {
        if render_window.clicked(MouseButton::Button3, Action::Press) {
            camera.set_rotation_button_status(true);
        }
        if render_window.clicked(MouseButton::Button3, Action::Release) {
            camera.set_rotation_button_status(false);
            camera.reset_first_mouse();
        }
        camera.update_camera_rotate(render_window.get_cursor_history())
    }

    /// Takes the places that the cursor went through. Returns how far it
    /// turns the camera at each of them; nothing while the middle button
    /// is up.
    pub fn update_camera_rotate(&mut self, cursor_pos_history: &Vec<(i32, i32)>) -> (drags: Vec<
        (i64, i64),
    >)
        ensures
            rotated(old(self)@, cursor_pos_history@, final(self)@, drags@),
    {
        let mut drags: Vec<(i64, i64)> = Vec::new();
        if !self.middle_key_down {
            return drags;
        }
        let mut k: usize = 0;
        while k < cursor_pos_history.len()
            invariant
                k <= cursor_pos_history@.len(),
                old(self)@.middle_key_down,
                self@ == old(self)@.after_drag(cursor_pos_history@, k as int),
                drags@.len() == k,
                forall|j: int|
                    0 <= j < k ==> #[trigger] drags@[j] == old(self)@.drag_at(
                        cursor_pos_history@,
                        j,
                    ),
            decreases cursor_pos_history@.len() - k,
        {
            let place: (i32, i32) = cursor_pos_history[k];
            if self.first_mouse {
                self.last_x = place.0;
                self.last_y = place.1;
                self.first_mouse = false;
            }
            let x_offset: i64 = place.0 as i64 - self.last_x as i64;
            let y_offset: i64 = self.last_y as i64 - place.1 as i64;
            self.last_x = place.0;
            self.last_y = place.1;
            drags.push((x_offset, y_offset));
            k = k + 1;
        }
        drags
    }
}

/// What the cursor makes of the controls `before` on its way through
/// `places`: while the middle button is up, nothing; while it is down, one
/// turn for each place, and the last place is remembered.
pub open spec fn rotated(
    before: CameraView,
    places: Seq<(i32, i32)>,
    after: CameraView,
    drags: Seq<(i64, i64)>,
) -> bool {
    if before.middle_key_down {
        &&& after == before.after_drag(places, places.len() as int)
        &&& drags.len() == places.len()
        &&& forall|j: int| 0 <= j < places.len() ==> #[trigger] drags[j] == before.drag_at(places, j)
    } else {
        after == before && drags.len() == 0
    }
}

} // verus!
