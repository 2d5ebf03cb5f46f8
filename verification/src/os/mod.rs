pub mod linux;
pub mod x11;
