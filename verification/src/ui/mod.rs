//! Text layout and key handling of the terminal interface.
pub mod layout;
pub mod tui;
pub mod keys;
pub mod view;
