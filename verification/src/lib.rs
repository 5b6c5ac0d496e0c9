//! Decision logic of a morning job that switches network lights off shortly
//! before sunrise: when to act, whom to address, and what to record.

pub mod instant;
pub mod schedule;
pub mod text;
pub mod directory;
pub mod event;
pub mod sunrise;
pub mod controller;
pub mod plan;
