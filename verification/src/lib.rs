//! Settings model and desktop-shell decisions of an unofficial Linux ChatGPT client.
pub mod settings;
pub mod text;
pub mod navigation;
pub mod menu;
pub mod autostart;
