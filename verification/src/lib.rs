//! Decision logic of a bridge between a Modbus RTU serial line and an MQTT broker.

pub mod bridge;
pub mod command;
pub mod config;
pub mod data;
pub mod error;
pub mod exchange;
pub mod frame;
pub mod json;
pub mod laws;
pub mod port;
pub mod probe;
pub mod report;
pub mod response;
pub mod scan;
pub mod service;
pub mod text;
pub mod worker;
