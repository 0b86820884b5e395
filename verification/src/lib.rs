//! Usage limits of an OpenCode account: what is fetched, when, and how it is shown.

pub mod auth;
pub mod clock;
pub mod input;
pub mod layout;
pub mod meter;
pub mod schedule;
pub mod screen;
pub mod state;
pub mod text;
pub mod time_left;
pub mod types;
pub mod upstream;
