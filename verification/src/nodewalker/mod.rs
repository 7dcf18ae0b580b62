pub mod address;
pub mod config;
pub mod fsm;
pub mod hello;
pub mod message;
pub mod provider;
pub mod resolver;
pub mod result;
pub mod stateless;
pub mod walker;
