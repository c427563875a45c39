//! The save formats of the game: the binary header and the save kinds.

pub mod decode;
pub mod json;
pub mod models;
pub mod parser;
pub mod save_file;
