//! Window cycling, hotkeys and visibility for multi-client play.

pub mod activation;
pub mod autostart;
pub mod bits;
pub mod config;
pub mod cycle;
pub mod device_search;
pub mod evdev_input;
pub mod geometry;
pub mod hotkeys;
pub mod keys;
pub mod linux_input_state;
pub mod mouse_listener;
pub mod text;
pub mod tray;
pub mod visibility;
pub mod wide;
pub mod windows_input;
pub mod windows_manager;
