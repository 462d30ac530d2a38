//! The values handed across the boundary. Where the foreign caller receives a
//! pointer, these types hold the owned buffer behind it, and `None` where the
//! caller receives null. Text travels as NUL-terminated byte strings.

use vstd::prelude::*;
use crate::error::AudioError;
use crate::gateway::{texts, StreamConfig, MAX_COUNT};
use crate::handle::StreamId;
use crate::text::{c_text, string_to_c_bytes, vec_to_c_array};

verus! {

/// The bytes behind an optional buffer.
pub open spec fn bytes_of(field: Option<Vec<u8>>) -> Option<Seq<u8>> {
    match field {
        Some(bytes) => Some(bytes@),
        None => None,
    }
}

/// The byte strings behind an optional array of buffers.
pub open spec fn array_of(field: Option<Vec<Vec<u8>>>) -> Option<Seq<Seq<u8>>> {
    match field {
        Some(array) => Some(array@.map_values(|bytes: Vec<u8>| bytes@)),
        None => None,
    }
}

/// The NUL-terminated byte strings that carry `lines`, in order.
pub open spec fn c_texts(lines: Seq<Seq<char>>) -> Seq<Seq<u8>> {
    lines.map_values(|line: Seq<char>| c_text(line))
}

/// A point-in-time snapshot of the runtime.
#[derive(Clone, Copy, Debug, PartialEq, Eq, Structural)]
pub struct Status {
    /// The number of open streams.
    pub streams_count: u64,
    /// Whether an error callback is registered.
    pub has_error_callback: bool,
}

/// The outcome of an operation that yields nothing: no message on success.
#[derive(Clone, Debug, PartialEq, Eq)]
pub struct ResultFFI {
    pub error_message: Option<Vec<u8>>,
}

/// What a [`ResultFFI`] stands for.
pub struct ResultView {
    pub error_message: Option<Seq<u8>>,
}

impl View for ResultFFI {
    type V = ResultView;

    open spec fn view(&self) -> ResultView {
        ResultView { error_message: bytes_of(self.error_message) }
    }
}

/// The result that reports the outcome `outcome`.
pub open spec fn result_of(outcome: Option<AudioError>) -> ResultView {
    match outcome {
        None => ResultView { error_message: None },
        Some(e) => ResultView { error_message: Some(c_text(e.text())) },
    }
}

impl ResultFFI {
    /// The result of a success.
    pub fn ok() -> (r: Self)
        ensures
            r@ == result_of(None),
    {
        ResultFFI { error_message: None }
    }

    /// The result of a failure described by `message`.
    pub fn error(message: &str) -> (r: Self)
        ensures
            r@.error_message == Some(c_text(message@)),
    {
        ResultFFI { error_message: Some(string_to_c_bytes(message)) }
    }

    /// The result of `outcome`: a success carries no message, a failure the
    /// message of its error.
    pub fn from_result<T>(outcome: &Result<T, AudioError>) -> (r: Self)
        ensures
            r@ == result_of(
                match *outcome {
                    Ok(_) => None,
                    Err(e) => Some(e),
                },
            ),
    {
        match outcome {
            Ok(_) => ResultFFI::ok(),
            Err(e) => ResultFFI::error(e.as_str()),
        }
    }
}

/// The names of the capture devices, or why they cannot be had.
#[derive(Clone, Debug, PartialEq, Eq)]
pub struct DeviceNamesResult {
    pub names: Option<Vec<Vec<u8>>>,
    pub length: i32,
    pub error_message: Option<Vec<u8>>,
}

/// What a [`DeviceNamesResult`] or a [`QualityOptionsResult`] stands for.
pub struct TextArrayView {
    pub items: Option<Seq<Seq<u8>>>,
    pub length: i32,
    pub error_message: Option<Seq<u8>>,
}

impl View for DeviceNamesResult {
    type V = TextArrayView;

    open spec fn view(&self) -> TextArrayView {
        TextArrayView {
            items: array_of(self.names),
            length: self.length,
            error_message: bytes_of(self.error_message),
        }
    }
}

/// The result that reports the outcome of listing device names. An empty
/// list is handed over without an array. The length is the number of names;
/// a list that is too long for it is never handed over.
pub open spec fn device_names_result(
    outcome: Result<Seq<Seq<char>>, AudioError>,
) -> TextArrayView {
    match outcome {
        Ok(names) => TextArrayView {
            items: if names.len() > 0 {
                Some(c_texts(names))
            } else {
                None
            },
            length: names.len() as i32,
            error_message: None,
        },
        Err(e) => TextArrayView { items: None, length: 0, error_message: Some(c_text(e.text())) },
    }
}

/// The describing lines of a device's configurations, or why they cannot be
/// had.
#[derive(Clone, Debug, PartialEq, Eq)]
pub struct QualityOptionsResult {
    pub options: Option<Vec<Vec<u8>>>,
    pub length: i32,
    pub error_message: Option<Vec<u8>>,
}

impl View for QualityOptionsResult {
    type V = TextArrayView;

    open spec fn view(&self) -> TextArrayView {
        TextArrayView {
            items: array_of(self.options),
            length: self.length,
            error_message: bytes_of(self.error_message),
        }
    }
}

/// The result that reports the outcome of listing quality options. The
/// length is the number of lines; a list that is too long for it is never
/// handed over.
pub open spec fn quality_options_result(
    outcome: Result<Seq<Seq<char>>, AudioError>,
) -> TextArrayView {
    match outcome {
        Ok(lines) => TextArrayView {
            items: Some(c_texts(lines)),
            length: lines.len() as i32,
            error_message: None,
        },
        Err(e) => TextArrayView { items: None, length: 0, error_message: Some(c_text(e.text())) },
    }
}

/// Encodes `lines` for the boundary, with their count.
fn text_array(lines: &Vec<String>) -> (out: (Vec<Vec<u8>>, i32))
    requires
        lines@.len() <= MAX_COUNT,
    ensures
        out.0@.map_values(|bytes: Vec<u8>| bytes@) == c_texts(texts(lines@)),
        out.1 == lines@.len(),
{
    let array = vec_to_c_array(lines);
    let length: i32 = lines.len() as i32;
    (array, length)
}

impl DeviceNamesResult {
    /// The result of listing device names with the outcome `outcome`. The
    /// list must not be longer than the boundary can count.
    pub fn from_result(outcome: &Result<Vec<String>, AudioError>) -> (r: Self)
        requires
            outcome matches Ok(names) ==> names@.len() <= MAX_COUNT,
        ensures
            r@ == device_names_result(
                match *outcome {
                    Ok(names) => Ok(texts(names@)),
                    Err(e) => Err(e),
                },
            ),
            outcome matches Ok(names) ==> r.length == names@.len(),
    {
        match outcome {
            Ok(names) => {
                let (array, length) = text_array(names);
                DeviceNamesResult {
                    names: if names.len() > 0 {
                        Some(array)
                    } else {
                        None
                    },
                    length,
                    error_message: None,
                }
            },
            Err(e) => DeviceNamesResult {
                names: None,
                length: 0,
                error_message: Some(string_to_c_bytes(e.as_str())),
            },
        }
    }
}

impl QualityOptionsResult {
    /// The result of listing quality options with the outcome `outcome`. The
    /// list must not be longer than the boundary can count.
    pub fn from_result(outcome: &Result<Vec<String>, AudioError>) -> (r: Self)
        requires
            outcome matches Ok(lines) ==> lines@.len() <= MAX_COUNT,
        ensures
            r@ == quality_options_result(
                match *outcome {
                    Ok(lines) => Ok(texts(lines@)),
                    Err(e) => Err(e),
                },
            ),
            outcome matches Ok(lines) ==> r.length == lines@.len(),
    {
        match outcome {
            Ok(lines) => {
                let (array, length) = text_array(lines);
                QualityOptionsResult { options: Some(array), length, error_message: None }
            },
            Err(e) => QualityOptionsResult {
                options: None,
                length: 0,
                error_message: Some(string_to_c_bytes(e.as_str())),
            },
        }
    }
}

/// The handle and the negotiated format of a newly opened stream, or why it
/// could not be opened. A failure leaves handle, rate and channels at zero.
#[derive(Clone, Debug, PartialEq, Eq)]
pub struct InputStreamResult {
    pub stream_id: StreamId,
    pub sample_rate: u32,
    pub channels: u32,
    pub error_message: Option<Vec<u8>>,
}

/// What an [`InputStreamResult`] stands for.
pub struct InputStreamView {
    pub stream_id: StreamId,
    pub sample_rate: u32,
    pub channels: u32,
    pub error_message: Option<Seq<u8>>,
}

impl View for InputStreamResult {
    type V = InputStreamView;

    open spec fn view(&self) -> InputStreamView {
        InputStreamView {
            stream_id: self.stream_id,
            sample_rate: self.sample_rate,
            channels: self.channels,
            error_message: bytes_of(self.error_message),
        }
    }
}

/// The result that reports the outcome of opening a stream.
pub open spec fn input_stream_result(
    outcome: Result<(StreamId, StreamConfig), AudioError>,
) -> InputStreamView {
    match outcome {
        Ok((stream_id, config)) => InputStreamView {
            stream_id,
            sample_rate: config.sample_rate,
            channels: config.channels as u32,
            error_message: None,
        },
        Err(e) => InputStreamView {
            stream_id: 0,
            sample_rate: 0,
            channels: 0,
            error_message: Some(c_text(e.text())),
        },
    }
}

impl InputStreamResult {
    /// The result of a stream opened under `stream_id`.
    pub fn ok(stream_id: StreamId, sample_rate: u32, channels: u32) -> (r: Self)
        ensures
            r@ == (InputStreamView { stream_id, sample_rate, channels, error_message: None }),
    {
        InputStreamResult { stream_id, sample_rate, channels, error_message: None }
    }

    /// The result of a failure described by `message`.
    pub fn error(message: &str) -> (r: Self)
        ensures
            r@ == (InputStreamView {
                stream_id: 0,
                sample_rate: 0,
                channels: 0,
                error_message: Some(c_text(message@)),
            }),
    {
        InputStreamResult {
            stream_id: 0,
            sample_rate: 0,
            channels: 0,
            error_message: Some(string_to_c_bytes(message)),
        }
    }

    /// The result of the failure `e`.
    pub fn from_error(e: AudioError) -> (r: Self)
        ensures
            r@ == input_stream_result(Err(e)),
    {
        InputStreamResult::error(e.as_str())
    }
}

/// The frame handed to the caller, or nothing. `len` is the number of
/// samples of the frame and `capacity` the number its buffer has room for,
/// the two numbers the frame is released with; with no frame both are zero.
#[derive(Clone, Debug, PartialEq, Eq)]
pub struct ConsumeFrameResult {
    pub frame: Option<Vec<u32>>,
    pub len: i32,
    pub capacity: i32,
    pub error_message: Option<Vec<u8>>,
}

/// What a [`ConsumeFrameResult`] stands for.
pub struct ConsumeFrameView {
    pub frame: Option<Seq<u32>>,
    pub len: i32,
    pub capacity: i32,
    pub error_message: Option<Seq<u8>>,
}

impl View for ConsumeFrameResult {
    type V = ConsumeFrameView;

    open spec fn view(&self) -> ConsumeFrameView {
        ConsumeFrameView {
            frame: match self.frame {
                Some(f) => Some(f@),
                None => None,
            },
            len: self.len,
            capacity: self.capacity,
            error_message: bytes_of(self.error_message),
        }
    }
}

/// The result that hands over nothing.
pub open spec fn no_frame() -> ConsumeFrameView {
    ConsumeFrameView { frame: None, len: 0, capacity: 0, error_message: None }
}

/// Whether a frame of `len` samples in a buffer with room for `capacity`
/// samples can be handed over: it holds a sample, and both numbers are in
/// order and fit the signed 32-bit fields that carry them.
pub open spec fn can_hand_over(len: nat, capacity: usize) -> bool {
    1 <= len <= capacity <= MAX_COUNT
}

/// The result of a poll that received `received` in a buffer with room for
/// `capacity` samples. A frame is handed over with its true length and its
/// true capacity; one that cannot be is handed over as nothing.
pub open spec fn consume_frame_result(
    received: Option<Seq<u32>>,
    capacity: usize,
) -> ConsumeFrameView {
    match received {
        Some(samples) => if can_hand_over(samples.len(), capacity) {
            ConsumeFrameView {
                frame: Some(samples),
                len: samples.len() as i32,
                capacity: capacity as i32,
                error_message: None,
            }
        } else {
            no_frame()
        },
        None => no_frame(),
    }
}

impl ConsumeFrameResult {
    /// The result that hands over nothing.
    pub fn empty() -> (r: Self)
        ensures
            r@ == no_frame(),
    {
        ConsumeFrameResult { frame: None, len: 0, capacity: 0, error_message: None }
    }

    /// The result that hands over `frame`, whose buffer has room for
    /// `capacity` samples. A frame without samples, and one whose length or
    /// capacity the result cannot carry, is dropped and nothing is handed
    /// over.
    pub fn from_frame(frame: Vec<u32>, capacity: usize) -> (r: Self)
        ensures
            r@ == consume_frame_result(Some(frame@), capacity),
            r@.frame is Some ==> r.len == frame@.len() && r.capacity == capacity,
    {
        if frame.len() == 0 || frame.len() > capacity || capacity > MAX_COUNT {
            ConsumeFrameResult::empty()
        } else {
            let len: i32 = frame.len() as i32;
            let capacity: i32 = capacity as i32;
            ConsumeFrameResult { frame: Some(frame), len, capacity, error_message: None }
        }
    }
}

} // verus!
