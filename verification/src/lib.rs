pub mod bytes;
pub mod error;
pub mod ffxiv_library;
pub mod file_key;
pub mod exd;
pub mod exh;
pub mod ffxiv_file;
pub mod sqpack;
