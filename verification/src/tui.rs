pub mod app;
pub mod gallery;
pub mod handler;
pub mod state;
pub mod ui;
