pub mod application;
pub mod clipboard;
pub mod error;
pub mod idle;
pub mod menu;
pub mod mouse;
pub mod timer;
pub mod window;
