//! A verified core for live audio-input capture behind a handle-based boundary.
//!
//! The core keeps a registry of open capture streams keyed by opaque handles,
//! a single-slot frame channel per stream, and the encoding of every value that
//! crosses the boundary to a caller without automatic memory reclamation. The
//! platform audio layer is driven by the embedding program, which hands the
//! core plain values and carries out the actions the core decides on.

pub mod error;
pub mod text;
pub mod channel;
pub mod callback;
pub mod handle;
pub mod registry;
pub mod gateway;
pub mod boundary;
pub mod runtime;
pub mod laws;

pub use crate::boundary::{
    ConsumeFrameResult, DeviceNamesResult, InputStreamResult, QualityOptionsResult, ResultFFI,
    Status,
};
pub use crate::callback::ErrorCallback;
pub use crate::error::{AudioError, ErrorClass};
pub use crate::handle::StreamId;
pub use crate::runtime::{
    rust_audio_deinit, rust_audio_device_quality_options,
    rust_audio_device_quality_options_internal, rust_audio_init, rust_audio_input_device_names,
    rust_audio_input_device_names_internal, rust_audio_input_stream_consume_frame,
    rust_audio_input_stream_built, rust_audio_input_stream_deliver_frame,
    rust_audio_input_stream_free, rust_audio_input_stream_new,
    rust_audio_input_stream_new_internal, rust_audio_input_stream_pause,
    rust_audio_input_stream_start, rust_audio_status, rust_audio_stream_error, AudioCore,
    ErrorReport, OpenPlan, OpenStep,
};
