//! Which view is selected, and what a click on a view makes of that.
//!
//! At most one thing is selected at a time: the right view, the top view,
//! the position of the sun or the point the sun looks at. The last two
//! share the shadow view; clicking it goes from one to the other to none.

use vstd::prelude::*;

verus! {

/// The colour of the border around the selected view.
#[derive(Clone, Copy, Debug, PartialEq, Eq, Structural)]
pub enum BorderColour {
    Green,
    /// Only the shadow view has it, while the point the sun looks at moves.
    Blue,
}

/// The views that can be clicked.
#[derive(Clone, Copy, Debug, PartialEq, Eq, Structural)]
pub enum ViewSelected {
    Right,
    Shadow,
    Top,
}

/// What the keys move while a view is selected.
#[derive(Clone, Copy, Debug, PartialEq, Eq, Structural)]
pub enum ViewTarget {
    TopCamera,
    RightCamera,
    SunPosition,
    SunLookAt,
}

/// The colour of the border around a view that is plainly selected.
pub fn green_colour() -> (colour: BorderColour)
    ensures
        colour == BorderColour::Green,
{
    BorderColour::Green
}

/// The colour of the border around the shadow view while the point that
/// the sun looks at is selected.
pub fn blue_colour() -> (colour: BorderColour)
    ensures
        colour == BorderColour::Blue,
{
    BorderColour::Blue
}

/// Which view is selected.
#[derive(Clone, Copy, Debug, PartialEq, Eq, Structural)]
pub struct ViewSelection {
    right_view: bool,
    shadow_map_camera: bool,
    shadow_map_lookat: bool,
    top_view: bool,
    border_colour: BorderColour,
}

/// The mathematical model of a selection.
pub struct ViewSelectionView {
    pub right_view: bool,
    pub shadow_map_camera: bool,
    pub shadow_map_lookat: bool,
    pub top_view: bool,
    pub border_colour: BorderColour,
}

impl ViewSelectionView {
    /// Nothing selected, the border green.
    pub open spec fn initial() -> ViewSelectionView {
        ViewSelectionView {
            right_view: false,
            shadow_map_camera: false,
            shadow_map_lookat: false,
            top_view: false,
            border_colour: BorderColour::Green,
        }
    }

    /// Number of things selected.
    pub open spec fn selected(self) -> int {
        (if self.right_view {
            1int
        } else {
            0
        }) + (if self.shadow_map_camera {
            1int
        } else {
            0
        }) + (if self.shadow_map_lookat {
            1int
        } else {
            0
        }) + (if self.top_view {
            1int
        } else {
            0
        })
    }

    /// The selection after a click on `view`, or beside every view.
    ///
    /// A click on the right or the top view toggles it and clears all else.
    /// A click on the shadow view selects the position of the sun, then the
    /// point it looks at, then nothing. A click beside the views clears the
    /// selection. The border turns blue when the point the sun looks at is
    /// selected and green when anything else is; it keeps its colour when
    /// the selection is cleared.
    pub open spec fn after_click(self, view: Option<ViewSelected>) -> ViewSelectionView {
        match view {
            Some(ViewSelected::Right) => ViewSelectionView {
                right_view: !self.right_view,
                shadow_map_camera: false,
                shadow_map_lookat: false,
                top_view: false,
                border_colour: BorderColour::Green,
            },
            Some(ViewSelected::Top) => ViewSelectionView {
                right_view: false,
                shadow_map_camera: false,
                shadow_map_lookat: false,
                top_view: !self.top_view,
                border_colour: BorderColour::Green,
            },
            Some(ViewSelected::Shadow) => if !self.shadow_map_camera && !self.shadow_map_lookat {
                ViewSelectionView {
                    right_view: false,
                    shadow_map_camera: true,
                    shadow_map_lookat: false,
                    top_view: false,
                    border_colour: BorderColour::Green,
                }
            } else if self.shadow_map_camera && !self.shadow_map_lookat {
                ViewSelectionView {
                    right_view: false,
                    shadow_map_camera: false,
                    shadow_map_lookat: true,
                    top_view: false,
                    border_colour: BorderColour::Blue,
                }
            } else {
                ViewSelectionView {
                    right_view: false,
                    shadow_map_camera: false,
                    shadow_map_lookat: false,
                    top_view: false,
                    border_colour: self.border_colour,
                }
            },
            None => ViewSelectionView {
                right_view: false,
                shadow_map_camera: false,
                shadow_map_lookat: false,
                top_view: false,
                border_colour: self.border_colour,
            },
        }
    }

    /// What the keys move under this selection.
    pub open spec fn target(self) -> Option<ViewTarget> {
        if self.top_view {
            Some(ViewTarget::TopCamera)
        } else if self.right_view {
            Some(ViewTarget::RightCamera)
        } else if self.shadow_map_camera {
            Some(ViewTarget::SunPosition)
        } else if self.shadow_map_lookat {
            Some(ViewTarget::SunLookAt)
        } else {
            None
        }
    }
}

/// The view that a click goes to, where the cursor is over several: the
/// right view before the shadow view before the top view.
pub open spec fn view_under_cursor(over_right: bool, over_shadow: bool, over_top: bool) -> Option<
    ViewSelected,
> {
    if over_right {
        Some(ViewSelected::Right)
    } else if over_shadow {
        Some(ViewSelected::Shadow)
    } else if over_top {
        Some(ViewSelected::Top)
    } else {
        None
    }
}

impl View for ViewSelection {
    type V = ViewSelectionView;

    closed spec fn view(&self) -> ViewSelectionView {
        ViewSelectionView {
            right_view: self.right_view,
            shadow_map_camera: self.shadow_map_camera,
            shadow_map_lookat: self.shadow_map_lookat,
            top_view: self.top_view,
            border_colour: self.border_colour,
        }
    }
}

impl ViewSelection {
    /// A selection with nothing selected.
    pub fn new() -> (selection: ViewSelection)
        ensures
            selection@ == ViewSelectionView::initial(),
    {
        ViewSelection {
            right_view: false,
            shadow_map_camera: false,
            shadow_map_lookat: false,
            top_view: false,
            border_colour: green_colour(),
        }
    }

    /// Whether anything is selected.
    pub fn is_any_view_selected(&self) -> (any: bool)
        ensures
            any == (self@.selected() > 0),
            any == (self@.target() is Some),
    {
        self.right_view || self.top_view || self.shadow_map_camera || self.shadow_map_lookat
    }

    /// Takes a frame of input: where the left button was pressed, the click
    /// goes to the view under the cursor, or beside the views; where it was
    /// not, nothing changes.
    pub fn update_view_selection(
        &mut self,
        left_button_pressed: bool,
        over_right: bool,
        over_shadow: bool,
        over_top: bool,
    )
        ensures
            final(self)@ == if left_button_pressed {
                old(self)@.after_click(view_under_cursor(over_right, over_shadow, over_top))
            } else {
                old(self)@
            },
    {
        if left_button_pressed {
            if over_right {
                self.change_view_selection(Some(ViewSelected::Right));
            } else if over_shadow {
                self.change_view_selection(Some(ViewSelected::Shadow));
            } else if over_top {
                self.change_view_selection(Some(ViewSelected::Top));
            } else {
                self.change_view_selection(None);
            }
        }
    }

    /// Takes a click on `view`, or beside every view.
    pub fn change_view_selection(&mut self, view: Option<ViewSelected>)
        ensures
            final(self)@ == old(self)@.after_click(view),
    {
        match view {
            Some(ViewSelected::Right) => {
                self.border_colour = green_colour();
                self.right_view = !self.right_view;
                self.top_view = false;
                self.shadow_map_camera = false;
                self.shadow_map_lookat = false;
            },
            Some(ViewSelected::Shadow) => {
                if !self.shadow_map_camera && !self.shadow_map_lookat {
                    self.border_colour = green_colour();
                    self.shadow_map_camera = true;
                    self.shadow_map_lookat = false;
                } else if self.shadow_map_camera && !self.shadow_map_lookat {
                    self.border_colour = blue_colour();
                    self.shadow_map_camera = false;
                    self.shadow_map_lookat = true;
                } else {
                    self.shadow_map_camera = false;
                    self.shadow_map_lookat = false;
                }
                self.right_view = false;
                self.top_view = false;
            },
            Some(ViewSelected::Top) => {
                self.border_colour = green_colour();
                self.top_view = !self.top_view;
                self.right_view = false;
                self.shadow_map_camera = false;
                self.shadow_map_lookat = false;
            },
            None => {
                self.top_view = false;
                self.right_view = false;
                self.shadow_map_camera = false;
                self.shadow_map_lookat = false;
            },
        }
    }

    /// What the keys move: the camera of the top view, that of the right
    /// view, the sun, or the point the sun looks at; nothing of these where
    /// no view is selected.
    pub fn target(&self) -> (target: Option<ViewTarget>)
        ensures
            target == self@.target(),
    {
        if self.top_view {
            Some(ViewTarget::TopCamera)
        } else if self.right_view {
            Some(ViewTarget::RightCamera)
        } else if self.shadow_map_camera {
            Some(ViewTarget::SunPosition)
        } else if self.shadow_map_lookat {
            Some(ViewTarget::SunLookAt)
        } else {
            None
        }
    }

    /// Whether the right view is selected.
    pub fn get_right_view_selected(&self) -> (selected: bool)
        ensures
            selected == self@.right_view,
    {
        self.right_view
    }

    /// Whether the position of the sun is selected.
    pub fn get_shadow_camera_view_selected(&self) -> (selected: bool)
        ensures
            selected == self@.shadow_map_camera,
    {
        self.shadow_map_camera
    }

    /// Whether the point that the sun looks at is selected.
    pub fn get_shadow_lookat_view_selected(&self) -> (selected: bool)
        ensures
            selected == self@.shadow_map_lookat,
    {
        self.shadow_map_lookat
    }

    /// Whether the top view is selected.
    pub fn get_top_view_selected(&self) -> (selected: bool)
        ensures
            selected == self@.top_view,
    {
        self.top_view
    }

    /// The colour of the border around the selected view.
    pub fn get_border_colour(&self) -> (colour: BorderColour)
        ensures
            colour == self@.border_colour,
    {
        self.border_colour
    }
}

/// However the views are clicked, at most one thing is selected, and the
/// border is blue only while that is the point the sun looks at or the
/// selection was cleared from there.
pub proof fn lemma_one_selection_at_most(selection: ViewSelectionView, view: Option<ViewSelected>)
    ensures
        selection.after_click(view).selected() <= 1,
        selection.after_click(view).shadow_map_lookat ==> selection.after_click(view).border_colour
            == BorderColour::Blue,
        selection.after_click(view).selected() == 1 && !selection.after_click(
            view,
        ).shadow_map_lookat ==> selection.after_click(view).border_colour == BorderColour::Green,
{
}

/// Three clicks on the shadow view, starting with nothing of it selected,
/// lead through the position of the sun and the point it looks at back to
/// nothing.
pub proof fn lemma_shadow_view_cycle(selection: ViewSelectionView)
    requires
        !selection.shadow_map_camera,
        !selection.shadow_map_lookat,
    ensures
        selection.after_click(Some(ViewSelected::Shadow)).target() == Some(
            ViewTarget::SunPosition,
        ),
        selection.after_click(Some(ViewSelected::Shadow)).after_click(
            Some(ViewSelected::Shadow),
        ).target() == Some(ViewTarget::SunLookAt),
        selection.after_click(Some(ViewSelected::Shadow)).after_click(
            Some(ViewSelected::Shadow),
        ).after_click(Some(ViewSelected::Shadow)).target() is None,
{
}

} // verus!
