pub mod connection_helper;
pub mod device;
pub mod device_csv;
pub mod device_list;
pub mod enrollment_checkin;
pub mod enrollment_token;
pub mod health;
pub mod server_config;
pub mod session;
pub mod site;
pub mod tag;
pub mod user;
pub mod audit_event;
pub mod backup;
