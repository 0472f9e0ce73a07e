//! A terminal snake game, verified.
//!
//! The library holds the game's whole logic: a cell matrix with a
//! diff-based redraw queue, sparse cell groups for entities, snake
//! movement and collision, fruit placement, text layout, the scene
//! state machine and the scene manager. Terminal input and output,
//! raw mode and real time stay outside, in the surrounding binary.

pub mod ansi;
pub mod cell;
pub mod cell_group;
pub mod cell_matrix;
pub mod chronometer;
pub mod color;
pub mod dec;
pub mod events;
pub mod fruit;
pub mod gameplay_context;
pub mod gameplay_scene;
pub mod input;
pub mod rng;
pub mod scene;
pub mod scene_manager;
pub mod snake;
pub mod state_machine;
pub mod text;
pub mod ui;
pub mod ui_scene;
pub mod vector;
pub mod wall;
pub mod world;
