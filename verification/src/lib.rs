//! View model of a terminal GPU dashboard.
pub mod gpu;
pub mod input;
pub mod layout;
pub mod panels;
pub mod sm_grid;
pub mod text;
pub mod thermometer;
pub mod tone;
pub mod view;
