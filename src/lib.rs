//! Decision, timing and display logic of a daily plant-watering controller.

pub mod config;
pub mod countdown;
pub mod cycle;
pub mod decision;
pub mod display;
