//! A minimal entity-component application: a startup step spawns the single
//! player entity, and an update step moves it right while the middle pointer
//! button is held.

pub mod app;
pub mod entity;
pub mod input;
