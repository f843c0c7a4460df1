//! Errors built from the failures of other libraries, each described by a
//! plain value of this crate.

pub mod config;
pub mod grpc;
pub mod http_client;
pub mod init_data;
pub mod io;
pub mod json;
pub mod multipart;
pub mod redis;
pub mod sql;
pub mod telegram_api;
pub mod telegram_webapp;
pub mod validation;
pub mod timeout;
