//! Core logic of a terminal client for Microsoft Teams: the application state
//! and its transitions, the conversation data model, and the text processing
//! that turns Graph API data into what the screen shows.
pub mod text;
pub mod graph;
pub mod store;
pub mod app;
pub mod laws;
pub mod config;
pub mod logger;
pub mod auth;
pub mod requests;
pub mod events;
pub mod keys;
pub mod view;
