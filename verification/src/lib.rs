//! A console program's interface and its save-file handling, as a library:
//! widgets that lay themselves out on a fixed-size character grid, a
//! stack-based navigator that decides which screen is shown, the screens of
//! a program that trades party members between two save files, and the
//! trade itself.

pub mod errors;
pub mod navigator;
pub mod platform;
pub mod saves;
pub mod ui;
