pub mod application;
pub mod application_message_handler;
pub mod cursor;
pub mod iinputinterface;
pub mod window;
pub mod window_definition;
