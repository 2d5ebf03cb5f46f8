pub mod clipboard;
pub mod connection;
pub mod events;
pub mod keyboard;
pub mod window;
