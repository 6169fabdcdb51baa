pub mod byte;
pub mod hex_file;
pub mod window;
pub mod cursor;
pub mod render;
pub mod app;
