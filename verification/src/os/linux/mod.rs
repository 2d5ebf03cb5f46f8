pub mod clipboard;
pub mod connection;
pub mod keycodes;
pub mod keysyms;
pub mod window;
