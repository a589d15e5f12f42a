//! An ingestion pipeline for files deposited in an object store: routing
//! rules map each object key to a destination table, the file's records are
//! extracted from delimited text, and a notification consumer drives the
//! whole run with at-least-once acknowledgment semantics.

pub mod consumer;
pub mod errors;
pub mod file_type;
pub mod ingestion_service;
pub mod models;
pub mod parser;
pub mod ports;
pub mod resolver;
pub mod storage;
