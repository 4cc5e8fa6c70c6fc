pub mod auth;
pub mod digest;
pub mod domain;
pub mod ids;
pub mod text;
pub mod time_format;
pub mod deployment;
pub mod http;
