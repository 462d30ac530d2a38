//! What the platform audio layer reports, as plain values, and the choices the
//! core makes among them: which device carries a name, which of its capture
//! configurations is used, and how a configuration is described to the caller.

use vstd::prelude::*;
use vstd::string::*;
use crate::error::AudioError;
use crate::text::{decimal, decimal_string};

verus! {

/// The sample formats a capture configuration can deliver.
#[derive(Clone, Copy, Debug, PartialEq, Eq, Structural)]
pub enum SampleFormat {
    I8,
    I16,
    I32,
    I64,
    U8,
    U16,
    U32,
    U64,
    F32,
    F64,
}

impl SampleFormat {
    /// The name of the format as shown to the caller.
    pub open spec fn label_of(self) -> Seq<char> {
        match self {
            SampleFormat::I8 => "i8"@,
            SampleFormat::I16 => "i16"@,
            SampleFormat::I32 => "i32"@,
            SampleFormat::I64 => "i64"@,
            SampleFormat::U8 => "u8"@,
            SampleFormat::U16 => "u16"@,
            SampleFormat::U32 => "u32"@,
            SampleFormat::U64 => "u64"@,
            SampleFormat::F32 => "f32"@,
            SampleFormat::F64 => "f64"@,
        }
    }

    /// Gives the name of the format as shown to the caller.
    pub fn label(&self) -> (label: &'static str)
        ensures
            label@ == self.label_of(),
    {
        match self {
            SampleFormat::I8 => "i8",
            SampleFormat::I16 => "i16",
            SampleFormat::I32 => "i32",
            SampleFormat::I64 => "i64",
            SampleFormat::U8 => "u8",
            SampleFormat::U16 => "u16",
            SampleFormat::U32 => "u32",
            SampleFormat::U64 => "u64",
            SampleFormat::F32 => "f32",
            SampleFormat::F64 => "f64",
        }
    }

    /// Whether the format is 32-bit floating point.
    pub fn is_f32(&self) -> (yes: bool)
        ensures
            yes == (*self == SampleFormat::F32),
    {
        match self {
            SampleFormat::F32 => true,
            _ => false,
        }
    }
}

/// The hardware buffer sizes, in frames, that a configuration supports.
#[derive(Clone, Copy, Debug, PartialEq, Eq, Structural)]
pub enum SupportedBufferSize {
    /// Any size from `min` to `max`.
    Range { min: u32, max: u32 },
    /// The platform cannot tell before a stream runs.
    Unknown,
}

/// The capture configuration a stream is built with. The buffer size is left
/// to the platform's default.
#[derive(Clone, Copy, Debug, PartialEq, Eq, Structural)]
pub struct StreamConfig {
    pub channels: u16,
    pub sample_rate: u32,
}

/// One range of capture configurations that a device supports.
#[derive(Clone, Copy, Debug, PartialEq, Eq, Structural)]
pub struct SupportedConfig {
    pub channels: u16,
    pub min_sample_rate: u32,
    pub max_sample_rate: u32,
    pub buffer_size: SupportedBufferSize,
    pub sample_format: SampleFormat,
}

impl SupportedConfig {
    /// The configuration of this range with the highest sample rate.
    pub open spec fn max_rate_config(self) -> StreamConfig {
        StreamConfig { channels: self.channels, sample_rate: self.max_sample_rate }
    }

    /// Picks the configuration of this range with the highest sample rate.
    pub fn with_max_sample_rate(&self) -> (config: StreamConfig)
        ensures
            config == self.max_rate_config(),
    {
        StreamConfig { channels: self.channels, sample_rate: self.max_sample_rate }
    }
}

/// What the platform reports of one capture device. A `None` stands for a
/// query that the platform failed.
#[derive(Clone, Debug, PartialEq, Eq)]
pub struct DeviceInfo {
    pub name: Option<String>,
    pub configs: Option<Vec<SupportedConfig>>,
}

/// What the platform reports when asked for its capture devices.
#[derive(Clone, Debug, PartialEq, Eq)]
pub enum DeviceProbe {
    /// The platform could not enumerate its devices.
    Unavailable,
    /// The devices, in the platform's order.
    Devices(Vec<DeviceInfo>),
}

/// The name a device is looked up by: its reported name, or the empty name
/// when the platform could not tell it.
pub open spec fn device_label(device: DeviceInfo) -> Seq<char> {
    match device.name {
        Some(name) => name@,
        None => Seq::empty(),
    }
}

/// The lookup names of `devices`, in order.
pub open spec fn device_labels(devices: Seq<DeviceInfo>) -> Seq<Seq<char>> {
    devices.map_values(|d: DeviceInfo| device_label(d))
}

/// The sample formats of `configs`, in order.
pub open spec fn sample_formats(configs: Seq<SupportedConfig>) -> Seq<SampleFormat> {
    configs.map_values(|c: SupportedConfig| c.sample_format)
}

/// The text of a buffer-size range as shown to the caller.
pub open spec fn buffer_size_text(size: SupportedBufferSize) -> Seq<char> {
    match size {
        SupportedBufferSize::Range { min, max } => "Range { min: "@ + decimal(min as nat)
            + ", max: "@ + decimal(max as nat) + " }"@,
        SupportedBufferSize::Unknown => "Unknown"@,
    }
}

/// The line that describes a configuration range to the caller: channel
/// count, highest sample rate, sample format and buffer sizes.
pub open spec fn config_line(config: SupportedConfig) -> Seq<char> {
    "channels: "@ + decimal(config.channels as nat) + ", sample_rate: SampleRate("@ + decimal(
        config.max_sample_rate as nat,
    ) + "), sample_format: "@ + config.sample_format.label_of() + ", buffer_size: "@
        + buffer_size_text(config.buffer_size)
}

/// The describing lines of `configs`, in order.
pub open spec fn config_lines(configs: Seq<SupportedConfig>) -> Seq<Seq<char>> {
    configs.map_values(|c: SupportedConfig| config_line(c))
}

/// The texts of `lines`, in order.
pub open spec fn texts(lines: Seq<String>) -> Seq<Seq<char>> {
    lines.map_values(|s: String| s@)
}

/// Renders a buffer-size range as shown to the caller.
pub fn describe_buffer_size(size: &SupportedBufferSize) -> (text: String)
    ensures
        text@ == buffer_size_text(*size),
{
    match size {
        SupportedBufferSize::Range { min, max } => {
            let mut text = "Range { min: ".to_owned();
            text.append(decimal_string(*min).as_str());
            text.append(", max: ");
            text.append(decimal_string(*max).as_str());
            text.append(" }");
            text
        },
        SupportedBufferSize::Unknown => "Unknown".to_owned(),
    }
}

/// Renders the line that describes `config` to the caller.
pub fn describe_config(config: &SupportedConfig) -> (line: String)
    ensures
        line@ == config_line(*config),
{
    let mut line = "channels: ".to_owned();
    line.append(decimal_string(config.channels as u32).as_str());
    line.append(", sample_rate: SampleRate(");
    line.append(decimal_string(config.max_sample_rate).as_str());
    line.append("), sample_format: ");
    line.append(config.sample_format.label());
    line.append(", buffer_size: ");
    line.append(describe_buffer_size(&config.buffer_size).as_str());
    line
}

/// Finds the first device that is looked up by `name`.
pub fn find_device(devices: &Vec<DeviceInfo>, name: &str) -> (found: Option<usize>)
    ensures
        match found {
            Some(i) => i < devices@.len() && device_labels(devices@).index_of_first(name@) == Some(
                i as int,
            ),
            None => device_labels(devices@).index_of_first(name@).is_none(),
        },
{
    let ghost labels = device_labels(devices@);
    let wanted = name.to_owned();
    let mut i: usize = 0;
    while i < devices.len()
        invariant
            i <= devices@.len(),
            labels == device_labels(devices@),
            wanted@ == name@,
            forall|j: int| 0 <= j < i ==> labels[j] != name@,
        decreases devices@.len() - i,
    {
        let matches = match &devices[i].name {
            Some(n) => *n == wanted,
            None => name.is_empty(),
        };
        assert(matches == (labels[i as int] == name@)) by {
            if devices@[i as int].name is None {
                assert(name@.len() == 0 <==> name@ =~= Seq::<char>::empty());
            }
        }
        if matches {
            proof {
                labels.index_of_first_ensures(name@);
            }
            return Some(i);
        }
        i = i + 1;
    }
    proof {
        labels.index_of_first_ensures(name@);
    }
    None
}

/// Finds the first configuration that delivers 32-bit floating-point samples.
pub fn find_f32_config(configs: &Vec<SupportedConfig>) -> (found: Option<usize>)
    ensures
        match found {
            Some(i) => i < configs@.len() && sample_formats(configs@).index_of_first(
                SampleFormat::F32,
            ) == Some(i as int),
            None => sample_formats(configs@).index_of_first(SampleFormat::F32).is_none(),
        },
{
    let ghost formats = sample_formats(configs@);
    let mut i: usize = 0;
    while i < configs.len()
        invariant
            i <= configs@.len(),
            formats == sample_formats(configs@),
            forall|j: int| 0 <= j < i ==> formats[j] != SampleFormat::F32,
        decreases configs@.len() - i,
    {
        if configs[i].sample_format.is_f32() {
            proof {
                formats.index_of_first_ensures(SampleFormat::F32);
                assert(formats[i as int] == SampleFormat::F32);
            }
            return Some(i);
        }
        i = i + 1;
    }
    proof {
        formats.index_of_first_ensures(SampleFormat::F32);
    }
    None
}

/// The most items a list handed across the boundary can hold: its count
/// travels as a signed 32-bit number.
pub const MAX_COUNT: usize = 0x7fff_ffff;

/// The names of all capture devices, or why they cannot be had. A list too
/// long for the boundary counts as one that could not be enumerated.
pub open spec fn device_names(probe: DeviceProbe) -> Result<Seq<Seq<char>>, AudioError> {
    match probe {
        DeviceProbe::Unavailable => Err(AudioError::DeviceEnumeration),
        DeviceProbe::Devices(devices) => if devices@.len() > MAX_COUNT {
            Err(AudioError::DeviceEnumeration)
        } else if exists|i: int| 0 <= i < devices@.len() && (#[trigger] devices@[i]).name is None {
            Err(AudioError::DeviceNameUnavailable)
        } else {
            Ok(device_labels(devices@))
        },
    }
}

/// The describing lines of the configurations of the first device looked up
/// by `name`, or why they cannot be had. A device without a single
/// configuration range has no supported configurations, as has one whose
/// ranges the platform could not list or whose list is too long for the
/// boundary.
pub open spec fn quality_options(probe: DeviceProbe, name: Seq<char>) -> Result<
    Seq<Seq<char>>,
    AudioError,
> {
    match probe {
        DeviceProbe::Unavailable => Err(AudioError::DeviceEnumeration),
        DeviceProbe::Devices(devices) => match device_labels(devices@).index_of_first(name) {
            None => Err(AudioError::DeviceNotFound),
            Some(i) => match devices@[i].configs {
                None => Err(AudioError::NoSupportedConfigs),
                Some(configs) => if configs@.len() == 0 || configs@.len() > MAX_COUNT {
                    Err(AudioError::NoSupportedConfigs)
                } else {
                    Ok(config_lines(configs@))
                },
            },
        },
    }
}

/// The device and the configuration that a capture stream for `name` is built
/// with, or why none can be built: the first device looked up by `name`, and
/// of its first configuration range with 32-bit floating-point samples the
/// one with the highest sample rate.
pub open spec fn capture_choice(probe: DeviceProbe, name: Seq<char>) -> Result<
    (int, StreamConfig),
    AudioError,
> {
    match probe {
        DeviceProbe::Unavailable => Err(AudioError::DeviceEnumeration),
        DeviceProbe::Devices(devices) => match device_labels(devices@).index_of_first(name) {
            None => Err(AudioError::DeviceNotFound),
            Some(i) => match devices@[i].configs {
                None => Err(AudioError::NoSupportedConfigs),
                Some(configs) => match sample_formats(configs@).index_of_first(SampleFormat::F32) {
                    None => Err(AudioError::UnsupportedFormat),
                    Some(k) => Ok((i, configs@[k].max_rate_config())),
                },
            },
        },
    }
}

} // verus!
