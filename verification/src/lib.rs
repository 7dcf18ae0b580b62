pub mod block;
pub mod encode;
pub mod network;
pub mod utils;
pub mod nodewalker;
pub mod cli;
