//! Execution-plan metadata of a compiled network for a dataflow accelerator,
//! and the decoding of the accelerator's raw output into detections.
pub mod actions;
pub mod bytes_reader;
pub mod channel;
pub mod common;
pub mod config_buffer;
pub mod context;
pub mod core_op;
pub mod features;
pub mod float_bits;
pub mod format;
pub mod hef_data;
pub mod layer;
pub mod network;
pub mod proto_hef;
pub mod status;
pub mod stream_info;
pub mod text;
