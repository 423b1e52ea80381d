//! Game logic of a small basketball raycaster: the map grid, the level
//! layouts, scoring, the screen state machine, music scene selection and the
//! integer parts of ray stepping and rendering layout.

pub mod map;
pub mod level_data;
pub mod hoop;
pub mod input;
pub mod game_state;
pub mod audio;
pub mod raycaster;
pub mod renderer;
pub mod screens;
pub mod assets;
