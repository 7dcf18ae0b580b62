pub mod addr;
pub mod alert;
pub mod command;
pub mod encode;
pub mod error;
pub mod getaddr;
pub mod getheaders;
pub mod inv;
pub mod laws;
pub mod message;
pub mod networkaddr;
pub mod ping;
pub mod pong;
pub mod verack;
pub mod version;
