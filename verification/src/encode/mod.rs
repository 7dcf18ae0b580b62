pub mod cursor;
pub mod encode;
pub mod error;
pub mod varint;
pub mod wire;
pub mod list;
pub mod laws;
