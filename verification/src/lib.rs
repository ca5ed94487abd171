//! Error replies for web handlers, the access rules of a prediction-game
//! site, and the decisions its pages are rendered from.
pub mod status;
pub mod tracing_level;
pub mod resp_err;
pub mod app_error;
pub mod model;
pub mod player_ranking;
pub mod chapter_results;
pub mod pages;
pub mod forms;
pub mod flows;
