pub mod application;
pub mod cursor;
pub mod dialog;
pub mod monitor;
pub mod raw_input;
pub mod utils;
pub mod win32;
pub mod window;
pub mod window_registry;
pub mod xinputinterface;
