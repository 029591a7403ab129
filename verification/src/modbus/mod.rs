pub mod crc;
pub mod protocol;
pub mod rtu;
