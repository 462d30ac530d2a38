//! Failures of the capture runtime, their classes and their messages.

use vstd::prelude::*;
use vstd::string::*;

verus! {

/// The broad class a failure falls under.
#[derive(Clone, Copy, Debug, PartialEq, Eq, Structural)]
pub enum ErrorClass {
    /// The caller handed in something unusable: a null pointer or badly encoded text.
    InvalidInput,
    /// The device or the stream handle named by the caller is not known.
    NotFound,
    /// The device offers no 32-bit floating-point capture format.
    UnsupportedCapability,
    /// The platform audio layer rejected a request.
    PlatformFailure,
}

/// Every failure the runtime reports synchronously.
#[derive(Clone, Copy, Debug, PartialEq, Eq, Structural)]
pub enum AudioError {
    /// No error callback was supplied at initialisation.
    NullCallback,
    /// The device name pointer was null.
    NullDeviceName,
    /// The device name was not valid UTF-8.
    InvalidDeviceName,
    /// The platform could not enumerate its capture devices.
    DeviceEnumeration,
    /// The platform could not tell the name of one of its devices.
    DeviceNameUnavailable,
    /// No capture device carries the requested name.
    DeviceNotFound,
    /// The platform could not list the device's capture configurations.
    NoSupportedConfigs,
    /// None of the device's configurations delivers 32-bit floating-point samples.
    UnsupportedFormat,
    /// The platform failed to build the capture stream.
    StreamBuild,
    /// The plan handed in to complete an opening is not one that awaits its
    /// stream: its handle is zero, is not awaited, or is already open.
    InvalidPlan,
    /// The platform rejected a start or a pause of the stream.
    StreamControl,
    /// No open stream carries the given handle.
    StreamNotFound,
}

impl AudioError {
    /// The class of this failure.
    pub open spec fn class_of(self) -> ErrorClass {
        match self {
            AudioError::NullCallback => ErrorClass::InvalidInput,
            AudioError::NullDeviceName => ErrorClass::InvalidInput,
            AudioError::InvalidDeviceName => ErrorClass::InvalidInput,
            AudioError::DeviceEnumeration => ErrorClass::PlatformFailure,
            AudioError::DeviceNameUnavailable => ErrorClass::PlatformFailure,
            AudioError::DeviceNotFound => ErrorClass::NotFound,
            AudioError::NoSupportedConfigs => ErrorClass::PlatformFailure,
            AudioError::UnsupportedFormat => ErrorClass::UnsupportedCapability,
            AudioError::StreamBuild => ErrorClass::PlatformFailure,
            AudioError::InvalidPlan => ErrorClass::InvalidInput,
            AudioError::StreamControl => ErrorClass::PlatformFailure,
            AudioError::StreamNotFound => ErrorClass::NotFound,
        }
    }

    /// The human-readable text of this failure.
    pub open spec fn text(self) -> Seq<char> {
        match self {
            AudioError::NullCallback => "Error callback is null"@,
            AudioError::NullDeviceName => "Device name is null"@,
            AudioError::InvalidDeviceName => "Invalid UTF-8 in device name"@,
            AudioError::DeviceEnumeration => "cannot get input devices"@,
            AudioError::DeviceNameUnavailable => "cannot get device name"@,
            AudioError::DeviceNotFound => "device with specified name not found"@,
            AudioError::NoSupportedConfigs => "device doesn't have supported configs"@,
            AudioError::UnsupportedFormat => "device doesn't support f32 samples"@,
            AudioError::StreamBuild => "cannot build input stream"@,
            AudioError::InvalidPlan => "stream plan is not valid"@,
            AudioError::StreamControl => "cannot play stream"@,
            AudioError::StreamNotFound => "stream with specified id not found"@,
        }
    }

    /// Computes the class of this failure.
    pub fn class(&self) -> (class: ErrorClass)
        ensures
            class == self.class_of(),
    {
        match self {
            AudioError::NullCallback => ErrorClass::InvalidInput,
            AudioError::NullDeviceName => ErrorClass::InvalidInput,
            AudioError::InvalidDeviceName => ErrorClass::InvalidInput,
            AudioError::DeviceEnumeration => ErrorClass::PlatformFailure,
            AudioError::DeviceNameUnavailable => ErrorClass::PlatformFailure,
            AudioError::DeviceNotFound => ErrorClass::NotFound,
            AudioError::NoSupportedConfigs => ErrorClass::PlatformFailure,
            AudioError::UnsupportedFormat => ErrorClass::UnsupportedCapability,
            AudioError::StreamBuild => ErrorClass::PlatformFailure,
            AudioError::InvalidPlan => ErrorClass::InvalidInput,
            AudioError::StreamControl => ErrorClass::PlatformFailure,
            AudioError::StreamNotFound => ErrorClass::NotFound,
        }
    }

    /// The message of this failure as a string slice.
    pub fn as_str(&self) -> (message: &'static str)
        ensures
            message@ == self.text(),
    {
        match self {
            AudioError::NullCallback => "Error callback is null",
            AudioError::NullDeviceName => "Device name is null",
            AudioError::InvalidDeviceName => "Invalid UTF-8 in device name",
            AudioError::DeviceEnumeration => "cannot get input devices",
            AudioError::DeviceNameUnavailable => "cannot get device name",
            AudioError::DeviceNotFound => "device with specified name not found",
            AudioError::NoSupportedConfigs => "device doesn't have supported configs",
            AudioError::UnsupportedFormat => "device doesn't support f32 samples",
            AudioError::StreamBuild => "cannot build input stream",
            AudioError::InvalidPlan => "stream plan is not valid",
            AudioError::StreamControl => "cannot play stream",
            AudioError::StreamNotFound => "stream with specified id not found",
        }
    }

    /// The message of this failure as an owned string.
    pub fn message(&self) -> (message: String)
        ensures
            message@ == self.text(),
    {
        self.as_str().to_owned()
    }
}

} // verus!
