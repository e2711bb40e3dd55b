//! Presentation core of a turn-based hex strategy game: the per-player scene
//! graph, the selection marker, the event visualizers that animate simulation
//! events, the decisions of the frame loop, the colour code of tile picking,
//! and the face structure of OBJ meshes.

pub mod types;
pub mod scene;
pub mod event;
pub mod game_state;
pub mod selection;
pub mod unit_type_visual_info;
pub mod event_visualizer;
pub mod tile_picker;
pub mod player_view;
pub mod mgl;
pub mod obj;
