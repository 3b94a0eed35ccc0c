//! Client-side logic of a terminal front end for a classroom service: the state
//! of the screens and how actions change it, the role-based access rules, the
//! key bindings, the reading of the access token, the request addresses and what
//! the screens compute before they draw.

pub mod access;
pub mod actions;
pub mod config;
pub mod endpoints;
pub mod form_views;
pub mod forms;
pub mod keys;
pub mod laws;
pub mod models;
pub mod reducer;
pub mod screens;
pub mod state;
pub mod text;
pub mod token;
