//! The controls of the side views: the right view, the top view and the
//! view of the sun.

use vstd::prelude::*;
use crate::rendering::camera::{Camera, CameraView};
use crate::rendering::sunlight::{
    look_at_move,
    picked_direction,
    LookAtMove,
    ScrollDirection,
    SunLight,
    SunLightView,
};
use crate::view_logic::view_selection::{ViewSelection, ViewTarget};
use crate::window::{RenderWindow, RenderWindowView};

verus! {

/// The controls of the three side views.
#[derive(Clone, Copy, Debug)]
pub struct ViewFBO {
    right: Camera,
    top: Camera,
    sun: SunLight,
}

/// The mathematical model of the controls of the side views.
pub struct ViewFBOView {
    pub right: CameraView,
    pub top: CameraView,
    pub sun: SunLightView,
}

impl View for ViewFBO {
    type V = ViewFBOView;

    closed spec fn view(&self) -> ViewFBOView {
        ViewFBOView { right: self.right@, top: self.top@, sun: self.sun@ }
    }
}

/// The controls of a camera once it stopped moving backward, forward, left
/// and right.
pub open spec fn stopped(camera: CameraView) -> CameraView {
    CameraView {
        movement_keys: Seq::new(
            6,
            |i: int|
                if i < 4 {
                    false
                } else {
                    camera.movement_keys[i]
                },
        ),
        ..camera
    }
}

impl ViewFBOView {
    /// The controls after the keys of a frame went to `target`.
    pub open spec fn after_keys(
        self,
        target: Option<ViewTarget>,
        window: RenderWindowView,
    ) -> ViewFBOView {
        match target {
            Some(ViewTarget::TopCamera) => ViewFBOView { top: self.top.after_keys(window), ..self },
            Some(ViewTarget::RightCamera) => ViewFBOView {
                right: self.right.after_keys(window),
                ..self
            },
            Some(ViewTarget::SunPosition) => ViewFBOView {
                sun: SunLightView { camera: self.sun.camera.after_keys(window), ..self.sun },
                ..self
            },
            Some(ViewTarget::SunLookAt) => ViewFBOView {
                sun: SunLightView {
                    current_scroll_direction: picked_direction(
                        window,
                        self.sun.current_scroll_direction,
                    ),
                    ..self.sun
                },
                ..self
            },
            None => self,
        }
    }
}

impl ViewFBO {
    /// The controls of three views at rest. The wheel of the sun moves
    /// along x.
    pub fn new() -> (views: ViewFBO)
        ensures
            views@ == (ViewFBOView {
                right: CameraView::initial(),
                top: CameraView::initial(),
                sun: SunLightView {
                    camera: CameraView::initial(),
                    current_scroll_direction: ScrollDirection::X,
                },
            }),
    {
        ViewFBO { right: Camera::new(), top: Camera::new(), sun: SunLight::new() }
    }

    /// Hands the keys of a frame to what is selected: the camera of the top
    /// view, the camera of the right view, the place of the sun or the
    /// point it looks at. Returns what the keys do to that point, where it
    /// is selected.
    pub fn update_camera_movement(
        &mut self,
        view_selection: &ViewSelection,
        render_window: &RenderWindow,
    ) -> (step: Option<LookAtMove>)
        ensures
            final(self)@ == old(self)@.after_keys(view_selection@.target(), render_window@),
            step == if view_selection@.target() == Some(ViewTarget::SunLookAt) {
                Some(look_at_move(render_window@, old(self)@.sun.current_scroll_direction))
            } else {
                None
            },
    {
        match view_selection.target() {
            Some(ViewTarget::TopCamera) => {
                Camera::update_camera_movement(render_window, &mut self.top);
                None
            },
            Some(ViewTarget::RightCamera) => {
                Camera::update_camera_movement(render_window, &mut self.right);
                None
            },
            Some(ViewTarget::SunPosition) => {
                self.sun.move_sun(render_window);
                None
            },
            Some(ViewTarget::SunLookAt) => Some(self.sun.move_look_at_position(render_window)),
            None => None,
        }
    }

    /// Stops the cameras of all views from moving backward, forward, left
    /// and right.
    pub fn reset_movement_key_status(&mut self)
        ensures
            final(self)@.top == stopped(old(self)@.top),
            final(self)@.right == stopped(old(self)@.right),
            final(self)@.sun.camera == stopped(old(self)@.sun.camera),
            final(self)@.sun.current_scroll_direction == old(self)@.sun.current_scroll_direction,
    {
        self.top.clear_movement_key();
        self.right.clear_movement_key();
        self.sun.clear_movement_key();
    }

    /// The controls of the camera of the right view.
    pub fn get_right_fbo(&self) -> (camera: &Camera)
        ensures
            camera@ == self@.right,
    {
        &self.right
    }

    /// The controls of the camera of the top view.
    pub fn get_top_fbo(&self) -> (camera: &Camera)
        ensures
            camera@ == self@.top,
    {
        &self.top
    }

    /// The controls of the sun.
    pub fn get_sun_fbo(&self) -> (sun: &SunLight)
        ensures
            sun@ == self@.sun,
    {
        &self.sun
    }
}

} // verus!
