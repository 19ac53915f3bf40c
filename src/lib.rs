//! Top-tracks and top-artists viewer: the view-state machine, the ranked
//! result lists and the text that the terminal front end draws.
pub mod client;
pub mod event;
pub mod model;
pub mod render;
pub mod text;
