//! The widgets: leaves that draw themselves and containers that lay out
//! their children.

pub mod align;
pub mod border;
pub mod builder;
pub mod button;
pub mod column;
pub mod divider;
pub mod flexible;
pub mod image;
pub mod linear;
pub mod padding;
pub mod progress_bar;
pub mod row;
pub mod sizedbox;
pub mod stack;
pub mod text;

pub use align::{align, Align, AlignHorizontal, AlignVertical, Alignment};
pub use border::{border, Border, Borders, Corners};
pub use builder::{builder, BuilderWidget};
pub use button::{button, Button};
pub use self::column::{column, Column};
pub use divider::{divider, Divider, Orientation};
pub use flexible::{flexible, Flexible};
pub use image::{image, Image};
pub use padding::{padding, Padding};
pub use progress_bar::{progress_bar, ProgressBar};
pub use row::{row, Row};
pub use sizedbox::{sizedbox, SizedBox};
pub use stack::{stack, Stack};
pub use text::{text, Text};
