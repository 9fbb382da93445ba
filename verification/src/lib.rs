//! dockyard: the state, rules and screen contents of a terminal UI for Docker.

pub mod action;
pub mod app;
pub mod args;
pub mod config;
pub mod docker;
pub mod event;
pub mod geometry;
pub mod names;
pub mod order;
pub mod text;
pub mod ui;
pub mod util;
