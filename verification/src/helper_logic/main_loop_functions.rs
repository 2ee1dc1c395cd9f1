//! The decisions of the main loop: what the keys and buttons of a frame
//! change.

use vstd::prelude::*;
use vstd::string::StringExecFns;
use vstd::utf8::encode_utf8;
use crate::ipc_logic::ipc_content_logic::{
    cluster_colours,
    read_cluster_output_file,
    ClusterOutput,
    IPCUpdateResult,
};
use crate::rendering::camera::{rotated, Camera};
use crate::rendering::cluster_colour::{ClusterColour, ColourChoice};
use crate::rendering::scene_renderer::{InstanceUpload, ModelId, SceneRenderer, UploadInformation};
use crate::rendering::sunlight::{look_at_move, LookAtMove};
use crate::rendering::view_fbo::{stopped, ViewFBO};
use crate::view_logic::view_selection::{view_under_cursor, ViewSelection, ViewTarget};
use crate::window::{Action, Key, MouseButton, RenderWindow, RenderWindowView};

verus! {

/// What the keys of a frame ask of the two parameters of the cluster
/// detection. The radius is lowered before it is raised.
#[derive(Clone, Copy, Debug, PartialEq, Eq, Structural)]
pub struct ClusterKeys {
    /// Lower the radius by one step, not below zero.
    pub lower_epsilon: bool,
    /// Raise the radius by one step.
    pub raise_epsilon: bool,
    /// The least number of points of a cluster from now on.
    pub min_num_points: u32,
}

/// What the keys of a frame ask of the place of the point cloud: one step
/// for each field that is set, taken in the order of the fields.
#[derive(Clone, Copy, Debug, PartialEq, Eq, Structural)]
pub struct CloudMove {
    pub x_forward: bool,
    pub x_backward: bool,
    pub z_forward: bool,
    pub z_backward: bool,
    pub y_forward: bool,
    pub y_backward: bool,
}

/// The least number of points of a cluster after the keys of a frame: one
/// fewer for `V`, but never fewer than one, then one more for `B`.
pub open spec fn min_num_points_after(window: RenderWindowView, min_num_points: u32) -> int {
    let lowered = if window.held(Key::V) {
        if min_num_points - 1 < 1 {
            1
        } else {
            min_num_points - 1
        }
    } else {
        min_num_points as int
    };
    if window.held(Key::B) {
        lowered + 1
    } else {
        lowered
    }
}

/// Takes a click of the left button for the selection of views: the click
/// goes to the view under the cursor, and every camera stops moving
/// backward, forward, left and right. Without a click nothing changes.
pub fn check_for_view_selection(
    view_selection: &mut ViewSelection,
    fbos: &mut ViewFBO,
    camera: &mut Camera,
    render_window: &RenderWindow,
    over_right: bool,
    over_shadow: bool,
    over_top: bool,
)
    ensures
        render_window@.clicked(MouseButton::Button1, Action::Press) ==> {
            &&& final(view_selection)@ == old(view_selection)@.after_click(
                view_under_cursor(over_right, over_shadow, over_top),
            )
            &&& final(fbos)@.top == stopped(old(fbos)@.top)
            &&& final(fbos)@.right == stopped(old(fbos)@.right)
            &&& final(fbos)@.sun.camera == stopped(old(fbos)@.sun.camera)
            &&& final(fbos)@.sun.current_scroll_direction == old(
                fbos,
            )@.sun.current_scroll_direction
            &&& final(camera)@ == stopped(old(camera)@)
        },
        !render_window@.clicked(MouseButton::Button1, Action::Press) ==> {
            &&& final(view_selection)@ == old(view_selection)@
            &&& final(fbos)@ == old(fbos)@
            &&& final(camera)@ == old(camera)@
        },
{
    if render_window.clicked(MouseButton::Button1, Action::Press) {
        view_selection.update_view_selection(true, over_right, over_shadow, over_top);
        fbos.reset_movement_key_status();
        camera.clear_movement_key();
    }
}

/// Hands the keys, the buttons and the cursor of a frame to what they
/// move: to what is selected among the views, or else to the camera of
/// the scene. Returns what the keys do to the point the sun looks at, where
/// that is selected, and how far the cursor turns the camera of the scene.
pub fn update_camera_movement(
    view_selection: &mut ViewSelection,
    fbos: &mut ViewFBO,
    camera: &mut Camera,
    render_window: &RenderWindow,
) -> (moved: (Option<LookAtMove>, Vec<(i64, i64)>))
    ensures
        final(view_selection)@ == old(view_selection)@,
        old(view_selection)@.target() is Some ==> {
            &&& final(camera)@ == old(camera)@
            &&& moved.1@.len() == 0
            &&& moved.0 == if old(view_selection)@.target() == Some(ViewTarget::SunLookAt) {
                Some(look_at_move(render_window@, old(fbos)@.sun.current_scroll_direction))
            } else {
                None
            }
            &&& final(fbos)@ == old(fbos)@.after_keys(
                old(view_selection)@.target(),
                render_window@,
            )
        },
        old(view_selection)@.target() is None ==> {
            &&& final(fbos)@ == old(fbos)@
            &&& moved.0 is None
            &&& rotated(
                old(camera)@.after_keys(render_window@).after_buttons(render_window@),
                render_window@.cursor_pos_history,
                final(camera)@,
                moved.1@,
            )
        },
{
    if view_selection.is_any_view_selected() {
        let step = fbos.update_camera_movement(view_selection, render_window);
        (step, Vec::new())
    } else {
        Camera::update_camera_movement(render_window, camera);
        let drags = Camera::update_camera_rotation(render_window, camera);
        (None, drags)
    }
}

/// Whether the keys of a frame ask to mirror the point cloud.
pub fn reflect_point_cloud(render_window: &RenderWindow) -> (reflect: bool)
    ensures
        reflect == render_window@.pressed(Key::F7),
{
    render_window.pressed(Key::F7)
}

/// Takes the keys of a frame for the parameters of the cluster detection.
/// Any of the four keys makes the clusters shown out of date.
pub fn update_cluster_information(
    min_num_points: u32,
    cluster_for_most_recent: &mut bool,
    render_window: &RenderWindow,
) -> (keys: ClusterKeys)
    requires
        1 <= min_num_points < u32::MAX,
    ensures
        keys.lower_epsilon == render_window@.held(Key::Z),
        keys.raise_epsilon == render_window@.held(Key::X),
        keys.min_num_points == min_num_points_after(render_window@, min_num_points),
        keys.min_num_points >= 1,
        *final(cluster_for_most_recent) == (*old(cluster_for_most_recent) && !(
        render_window@.held(Key::Z) || render_window@.held(Key::X) || render_window@.held(Key::V)
            || render_window@.held(Key::B))),
{
    let lower_epsilon: bool = render_window.held(Key::Z);
    let raise_epsilon: bool = render_window.held(Key::X);
    let mut points: u32 = min_num_points;
    if lower_epsilon {
        *cluster_for_most_recent = false;
    }
    if raise_epsilon {
        *cluster_for_most_recent = false;
    }
    if render_window.held(Key::V) {
        points = if points - 1 < 1 {
            1
        } else {
            points - 1
        };
        *cluster_for_most_recent = false;
    }
    if render_window.held(Key::B) {
        points = points + 1;
        *cluster_for_most_recent = false;
    }
    ClusterKeys { lower_epsilon, raise_epsilon, min_num_points: points }
}

/// Takes the outcome of an update of the point cloud: a new cloud sets the
/// file shown, the number of points and the status line; a failure sets
/// the status line; no change leaves all as it is. Returns whether the
/// time of the last update starts anew.
pub fn update_point_cloud(
    result: IPCUpdateResult,
    num_cloud_points: &mut usize,
    cluster_result_text: &mut String,
    current_content_file: &mut String,
) -> (updated: bool)
    ensures
        match result {
            IPCUpdateResult::Success(upload) => {
                &&& updated == upload.updated_lidar_file is Some
                &&& *final(current_content_file) == match upload.updated_lidar_file {
                    Some(file) => file,
                    None => *old(current_content_file),
                }
                &&& *final(num_cloud_points) == match upload.num_points {
                    Some(points) => points,
                    None => *old(num_cloud_points),
                }
                &&& *final(cluster_result_text) == upload.cluster_error_message
            },
            IPCUpdateResult::Error(message) => {
                &&& !updated
                &&& *final(current_content_file) == *old(current_content_file)
                &&& *final(num_cloud_points) == *old(num_cloud_points)
                &&& *final(cluster_result_text) == message
            },
            IPCUpdateResult::NoChange => {
                &&& !updated
                &&& *final(current_content_file) == *old(current_content_file)
                &&& *final(num_cloud_points) == *old(num_cloud_points)
                &&& *final(cluster_result_text) == *old(cluster_result_text)
            },
        },
{
    match result {
        IPCUpdateResult::Success(upload) => {
            let updated: bool = match upload.updated_lidar_file {
                Some(new_lidar_file) => {
                    *current_content_file = new_lidar_file;
                    true
                },
                None => false,
            };
            match upload.num_points {
                Some(num_points) => {
                    *num_cloud_points = num_points;
                },
                None => {},
            }
            *cluster_result_text = upload.cluster_error_message;
            updated
        },
        IPCUpdateResult::Error(message) => {
            *cluster_result_text = message;
            false
        },
        IPCUpdateResult::NoChange => false,
    }
}

/// The colours of the clusters of the point cloud, and the writes that
/// store them.
pub struct ClusterUpload {
    pub colours: Vec<ColourChoice>,
    pub upload: InstanceUpload,
}

/// The batch that stores the colours of the clusters: so many colours for
/// the model that stands for a point, and no translations.
pub open spec fn colour_batch(colours: nat, cube_model_id: ModelId) -> Seq<UploadInformation> {
    seq![
        UploadInformation {
            model_id: cube_model_id,
            instance_translations: None,
            instance_colours: Some(colours as usize),
        },
    ]
}

/// Takes the outcome of a cluster detection: either the file with its
/// result, as far as it could be read, or why the detection failed. Where
/// there is a result, the colours of the clusters are stored for the
/// points; in any case the status line says how it went.
pub fn update_point_cloud_clusters(
    detection: Result<ClusterOutput, String>,
    palette: &ClusterColour,
    buffer_groups: &mut SceneRenderer,
    cube_model_id: ModelId,
    cluster_result_text: &mut String,
) -> (stored: Option<ClusterUpload>)
    requires
        old(buffer_groups).wf(),
        old(buffer_groups).knows(cube_model_id),
    ensures
        final(buffer_groups).wf(),
        match detection {
            Ok(ClusterOutput::Contents(text)) => {
                let colours = cluster_colours(encode_utf8(text@), palette.len());
                let batch = colour_batch(colours.len(), cube_model_id);
                &&& stored matches Some(cluster)
                &&& cluster.colours@ == colours
                &&& old(buffer_groups)@.stores(batch, cluster.upload)
                &&& final(buffer_groups)@.holds_batch(cluster.upload)
                &&& final(buffer_groups)@ == old(buffer_groups)@.after_batch(batch)
                &&& final(cluster_result_text)@ == "Cluster program status: No Error"@
            },
            Ok(ClusterOutput::Unopened(reason)) => {
                &&& stored is None
                &&& final(buffer_groups)@ == old(buffer_groups)@
                &&& final(cluster_result_text)@ == "Error opening cluster result file: "@
                    + reason@
            },
            Ok(ClusterOutput::Unreadable) => {
                &&& stored is None
                &&& final(buffer_groups)@ == old(buffer_groups)@
                &&& final(cluster_result_text)@ == "Failed to read cluster result file"@
            },
            Err(message) => {
                &&& stored is None
                &&& final(buffer_groups)@ == old(buffer_groups)@
                &&& *final(cluster_result_text) == message
            },
        },
{
    match detection {
        Ok(output) => {
            match read_cluster_output_file(&output, palette) {
                Ok(colours) => {
                    let mut info: Vec<UploadInformation> = Vec::new();
                    info.push(
                        UploadInformation {
                            model_id: cube_model_id,
                            instance_translations: None,
                            instance_colours: Some(colours.len()),
                        },
                    );
                    proof {
                        assert(info@ =~= colour_batch(colours@.len(), cube_model_id));
                    }
                    let upload = buffer_groups.upload_instance_information(info);
                    proof {
                        assert(upload.models@ =~= seq![upload.models@[0]]);
                    }
                    *cluster_result_text = String::from_str("Cluster program status: No Error");
                    Some(ClusterUpload { colours, upload })
                },
                Err(message) => {
                    *cluster_result_text = message;
                    None
                },
            }
        },
        Err(message) => {
            *cluster_result_text = message;
            None
        },
    }
}

/// Whether the keys of a frame ask to close the window.
pub fn check_window_close(render_window: &RenderWindow) -> (close: bool)
    ensures
        close == render_window@.pressed(Key::Escape),
{
    render_window.pressed(Key::Escape)
}

/// What the keys of a frame ask of the place of the point cloud.
pub fn change_point_cloud_position(render_window: &RenderWindow) -> (step: CloudMove)
    ensures
        step == (CloudMove {
            x_forward: render_window@.held(Key::F2),
            x_backward: render_window@.held(Key::F1),
            z_forward: render_window@.held(Key::F4),
            z_backward: render_window@.held(Key::F3),
            y_forward: render_window@.held(Key::F6),
            y_backward: render_window@.held(Key::F5),
        }),
{
    CloudMove {
        x_forward: render_window.held(Key::F2),
        x_backward: render_window.held(Key::F1),
        z_forward: render_window.held(Key::F4),
        z_backward: render_window.held(Key::F3),
        y_forward: render_window.held(Key::F6),
        y_backward: render_window.held(Key::F5),
    }
}

/// Takes the keys of a frame for the pause of the updates: `P` turns it
/// on if it was off, and off if it was on.
pub fn check_pause_updates(pause_updating: &mut bool, render_window: &RenderWindow)
    ensures
        *final(pause_updating) == if render_window@.pressed(Key::P) {
            !*old(pause_updating)
        } else {
            *old(pause_updating)
        },
{
    if render_window.pressed(Key::P) {
        *pause_updating = !*pause_updating;
    }
}

} // verus!
