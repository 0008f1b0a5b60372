//! Verified request-handling logic of a collection of small web services.
pub mod text;
pub mod banking;
pub mod starwars;
pub mod guards;
pub mod forms;
pub mod custom_error;
pub mod jsonrpc;
pub mod proxy;
pub mod ids;
pub mod uploads;
pub mod payload;
pub mod cache;
pub mod json_api;
pub mod records;
pub mod accounts;
pub mod acme;
pub mod greetings;
