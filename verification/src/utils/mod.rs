pub mod dump_law;
pub mod hexdump;
pub mod sha256;
pub mod text;
