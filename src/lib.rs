//! Decision logic of a media streaming bus: bitstream framing, mux timestamp
//! discipline, encoder clocking, and the controller that builds per-output
//! pipelines, each stated over plain values and proved.

pub mod bsf;
pub mod timestamp;
pub mod mux;
pub mod text;
pub mod stream;
pub mod encoder;
pub mod bus;
pub mod bridge;
pub mod device;
pub mod config;
pub mod pipe;
pub mod media;
pub mod frame;
pub mod migration;
pub mod mixer;
pub mod worker;
