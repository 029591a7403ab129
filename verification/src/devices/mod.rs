pub mod aio_module;
pub mod flowmeter;
pub mod gps;
pub mod rpm;
