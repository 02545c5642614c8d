//! An orbit camera driven by pointer and scroll input, the line mesh of a
//! unit grid with coordinate axes that it looks at, and the decisions of the
//! window loop that shows them.
//!
//! All quantities are held as integers in fixed point, so that every rule of
//! the camera (clamps, wrapping, zoom steps) is exact:
//! - angles are in millionths of a degree, so a full turn is an exact integer;
//! - lengths are in millionths of a world unit;
//! - pointer positions are whole window pixels.
//!
//! Turning camera state into a floating-point view-projection matrix, and the
//! mesh into GPU vertices, is left to the rendering side.

mod camera;
mod frame;
mod mesh;

pub use camera::{
    clamp, grow_once, lemma_downward_drag_pins_pitch, lemma_move_without_press,
    lemma_moves_without_press, lemma_orbit_move, lemma_run_keeps_wf,
    lemma_scroll_in_settles_at_min, lemma_step_keeps_wf, lemma_upward_drag_pins_pitch, moved,
    moves_to, orbited, pan_travel, panned, run, scroll_in_events, shrink_once, shrunk, step,
    wrap_turn, zoom_in_once, zoom_out_once, zoomed, CameraEvent, CameraState, PanOffset, Pixel,
    Point3, DEFAULT_DISTANCE, DEFAULT_PITCH, DEFAULT_YAW, FULL_TURN, MAX_DISTANCE, MIN_DISTANCE,
    ORBIT_SENSITIVITY, PAN_LIMIT, PAN_PIXELS_PER_DISTANCE, PITCH_LIMIT,
};
pub use frame::{action_for, frame_action, FrameAction, FrameEvent, REDRAW_INTERVAL_US};
pub use mesh::{
    at, axis_vertices, generate_mesh_vertices, grid_step_vertices, grid_unit, grid_unit_of,
    grid_vertices, lemma_grid_vertices_len, mesh_indices, mesh_vertices, GridPos, LineColor,
    MeshVertex, AXIS_VERTICES, VERTICES_PER_STEP,
};
