//! Winderoo watch-winder firmware logic: time-of-day handling, settings,
//! the winding controller state machine, and the protocol helpers around it.

pub mod text;
pub mod time;
pub mod model;
pub mod hardware;
pub mod settings;
pub mod api;
pub mod controller;
pub mod home_assistant;
pub mod wifi_portal;
pub mod oled_ui;
pub mod embassy;
pub mod esp32;
