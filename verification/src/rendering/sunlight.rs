//! The controls of the sun: the camera it shines through, and the point it
//! looks at.

use vstd::prelude::*;
use crate::rendering::camera::{Camera, CameraView};
use crate::window::{Key, RenderWindow, RenderWindowView};

verus! {

/// The axis along which the wheel of the mouse moves the point that the
/// sun looks at.
#[derive(Clone, Copy, Debug, PartialEq, Eq, Structural)]
pub enum ScrollDirection {
    X,
    Y,
    Z,
}

/// What the input of a frame does to the point that the sun looks at: the
/// axis along which the wheel moves it, and the steps that the keys ask
/// for, to be taken in the order of the fields.
#[derive(Clone, Copy, Debug, PartialEq, Eq, Structural)]
pub struct LookAtMove {
    /// The axis that the wheel moves along in this frame.
    pub scroll_direction: ScrollDirection,
    /// One step up along x.
    pub x_forward: bool,
    /// One step down along x.
    pub x_backward: bool,
    /// One step down along z.
    pub z_backward: bool,
    /// One step up along z.
    pub z_forward: bool,
    /// One step down along y.
    pub y_backward: bool,
    /// One step up along y.
    pub y_forward: bool,
}

/// The controls of the sun.
#[derive(Clone, Copy, Debug)]
pub struct SunLight {
    camera: Camera,
    current_scroll_direction: ScrollDirection,
}

/// The mathematical model of the controls of the sun.
pub struct SunLightView {
    pub camera: CameraView,
    pub current_scroll_direction: ScrollDirection,
}

/// The axis that the number keys of a frame pick: the key of the last axis
/// wins where several were pressed, and none leaves the axis as it was.
pub open spec fn picked_direction(window: RenderWindowView, before: ScrollDirection) -> ScrollDirection {
    if window.pressed(Key::Num3) {
        ScrollDirection::Z
    } else if window.pressed(Key::Num2) {
        ScrollDirection::Y
    } else if window.pressed(Key::Num1) {
        ScrollDirection::X
    } else {
        before
    }
}

/// What the input of a frame does to the point that the sun looks at while
/// the wheel moves along `direction`.
pub open spec fn look_at_move(window: RenderWindowView, direction: ScrollDirection) -> LookAtMove {
    LookAtMove {
        scroll_direction: direction,
        x_forward: window.held(Key::W),
        x_backward: window.held(Key::S),
        z_backward: window.held(Key::A),
        z_forward: window.held(Key::D),
        y_backward: window.held(Key::Q),
        y_forward: window.held(Key::E),
    }
}

impl View for SunLight {
    type V = SunLightView;

    closed spec fn view(&self) -> SunLightView {
        SunLightView {
            camera: self.camera@,
            current_scroll_direction: self.current_scroll_direction,
        }
    }
}

impl SunLight {
    /// The controls of a sun at rest, whose wheel moves along x.
    pub fn new() -> (sun: SunLight)
        ensures
            sun@ == (SunLightView {
                camera: CameraView::initial(),
                current_scroll_direction: ScrollDirection::X,
            }),
    {
        SunLight { camera: Camera::new(), current_scroll_direction: ScrollDirection::X }
    }

    /// The controls of the camera that the sun shines through.
    pub fn get_camera(&self) -> (camera: &Camera)
        ensures
            camera@ == self@.camera,
    {
        &self.camera
    }

    /// Takes the keys of a frame for the place of the sun.
    pub fn move_sun(&mut self, render_window: &RenderWindow)
        ensures
            final(self)@ == (SunLightView {
                camera: old(self)@.camera.after_keys(render_window@),
                ..old(self)@
            }),
    {
        Camera::update_camera_movement(render_window, &mut self.camera);
    }

    /// Takes the keys of a frame for the point that the sun looks at. The
    /// wheel moves along the axis picked before this frame; the number
    /// keys pick the axis for the frames to come.
    pub fn move_look_at_position(&mut self, render_window: &RenderWindow) -> (step: LookAtMove)
        ensures
            step == look_at_move(render_window@, old(self)@.current_scroll_direction),
            final(self)@ == (SunLightView {
                current_scroll_direction: picked_direction(
                    render_window@,
                    old(self)@.current_scroll_direction,
                ),
                ..old(self)@
            }),
    {
        let scroll_direction: ScrollDirection = self.current_scroll_direction;
        if render_window.pressed(Key::Num1) {
            self.current_scroll_direction = ScrollDirection::X;
        }
        if render_window.pressed(Key::Num2) {
            self.current_scroll_direction = ScrollDirection::Y;
        }
        if render_window.pressed(Key::Num3) {
            self.current_scroll_direction = ScrollDirection::Z;
        }
        LookAtMove {
            scroll_direction,
            x_forward: render_window.held(Key::W),
            x_backward: render_window.held(Key::S),
            z_backward: render_window.held(Key::A),
            z_forward: render_window.held(Key::D),
            y_backward: render_window.held(Key::Q),
            y_forward: render_window.held(Key::E),
        }
    }

    /// Stops the sun from moving backward, forward, left and right.
    pub fn clear_movement_key(&mut self)
        ensures
            final(self)@.current_scroll_direction == old(self)@.current_scroll_direction,
            final(self)@.camera == (CameraView {
                movement_keys: Seq::new(
                    6,
                    |i: int|
                        if i < 4 {
                            false
                        } else {
                            old(self)@.camera.movement_keys[i]
                        },
                ),
                ..old(self)@.camera
            }),
    {
        self.camera.clear_movement_key();
    }
}

} // verus!
