//! Core logic of a crypto trend-following tool: kline extraction from the
//! exchange's answers, the request URLs, the database check and setup
//! procedures, the command line and the small pieces of the web interface.
pub mod text;
pub mod common;
pub mod json;
pub mod klines;
pub mod setup;
pub mod cli;
pub mod database;
pub mod counter;
