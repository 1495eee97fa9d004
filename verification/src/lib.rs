//! Application flow and challenge evaluation core of a quiz game.
//!
//! The crate holds the screen-flow state machine, the data model of a
//! multiple-choice challenge, the evaluation of submitted answers, the
//! command handlers that mutate the game state, and the geometry of the
//! challenge map. Rendering, asset loading and input delivery belong to the
//! host application.

pub mod app_state;
pub mod challenge;
pub mod commands;
pub mod dispatch;
pub mod error;
pub mod evaluator;
pub mod game_state;
pub mod labels;
pub mod map_layout;
pub mod results;
pub mod slides;
pub mod splash;
pub mod text;
