pub mod command;
pub mod fsm;
pub mod rbtc;
pub mod result;
pub mod worker;
