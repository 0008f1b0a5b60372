//! A small banking registry kept in MySQL: banks, branches, tellers and
//! customers, with the validation and response rules of its HTTP handlers.

pub mod db_layer;
pub mod models;
pub mod persistence;
pub mod sql;
