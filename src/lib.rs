//! Core data path of a four-port controller adapter bridge: payload parsing,
//! input transform layers, calibration arithmetic, rumble patterns, and the
//! decisions of the poll and feed loops.

pub mod adapter;
pub mod bridge;
pub mod calibration;
pub mod center;
pub mod config;
pub mod ess;
pub mod feeder;
pub mod input;
pub mod layer;
pub mod poller;
pub mod recent;
pub mod rumble;
pub mod scaling;
pub mod timer;
