//! A greeting counter program: an instruction decoder and a state transition
//! that bumps a little-endian `u32` counter stored at the front of an account.
pub mod account;
pub mod instructions;
pub mod processor;

pub use account::{Account, GreetingAccount, Identity};
pub use instructions::{DecodeError, HelloInstructions};
pub use processor::{process_instruction, ExecutionError};
