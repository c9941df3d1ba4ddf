//! What holds of the bridge as a whole.

pub mod bridge;
pub mod bus;
pub mod conduct;
pub mod config;
pub mod device;
pub mod documents;
pub mod exchange;
pub mod frame;
pub mod line;
pub mod probe;
pub mod scan;
pub mod settings;
pub mod views;
pub mod worker;
