//! What the library knows of the machine it runs on.

pub mod input;
