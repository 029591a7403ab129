pub mod clock;
pub mod error;
pub mod state_handlers;
pub mod state_machine;
