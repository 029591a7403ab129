pub mod formatters;
pub mod raw_sender;
pub mod senders;
