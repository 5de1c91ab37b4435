//! Layout, compositing and the widgets built on them.

pub mod layout;
pub mod lines;
pub mod rendering;
pub mod screens;
pub mod shape;
pub mod theme;
pub mod tree;
pub mod widgets;
