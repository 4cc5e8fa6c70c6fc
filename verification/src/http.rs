pub mod device_export;
pub mod devices;
pub mod enrollment;
pub mod login;
pub mod render;
pub mod session;
pub mod views;
