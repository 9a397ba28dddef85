//! Power-state machines for two game characters, with the state holders that
//! a contract host drives.

pub mod contract;
pub mod data_driver;
pub mod dario_fsm;
pub mod mario_fsm;
pub mod wire;
