//! The pages of the user interface: what each shows and what it decides when
//! a key is pressed.

pub mod about_screen;
pub mod animation;
pub mod error_screen;
pub mod exit_screen;
pub mod menu_screen;
pub mod splash_screen;
pub mod trade_screen;

pub use about_screen::AboutScreen;
pub use animation::{Frame, Picture};
pub use error_screen::ErrorScreen;
pub use exit_screen::ExitScreen;
pub use menu_screen::{MenuChoice, MenuScreen};
pub use splash_screen::SplashScreen;
pub use trade_screen::{Action, TradeScreen, TradeStep, Trainer};
