//! The types of the emulator service: what a client sends to the machine manager and
//! what it gets back, with their conversions to and from the manager's interface messages.

pub mod word;
pub mod hash;
pub mod cartesi_machine;
pub mod machine_manager;
pub mod emulator_service;
pub mod laws;
