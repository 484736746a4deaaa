pub mod action;
pub mod catalog;
pub mod directory;
pub mod drain;
pub mod laws;
pub mod model;
pub mod roster;
pub mod sequencer;
pub mod team;
pub mod text;
pub mod ui;
