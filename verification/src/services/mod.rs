pub mod api_service;
pub mod data_service;
pub mod mtws;
