//! The runtime context and the operations offered at the boundary.
//!
//! The context is one explicitly created object. Every operation takes it as
//! its first argument; the embedding program keeps the one instance of a
//! process. Work that only the platform audio layer can do is done by the
//! embedding program: it hands in what the platform reported and carries out
//! what an operation decided.

use vstd::prelude::*;
use vstd::string::*;
use std::collections::HashSet;
use crate::boundary::{
    consume_frame_result, device_names_result, input_stream_result, no_frame,
    quality_options_result, result_of, ConsumeFrameResult, DeviceNamesResult, InputStreamResult,
    InputStreamView, QualityOptionsResult, ResultFFI, Status,
};
use crate::callback::{held, slot_load, slot_new, slot_store, CallbackSlot, ErrorCallback};
use crate::channel::{drained, offered, oldest, Frame};
use crate::error::AudioError;
use crate::gateway::{
    capture_choice, config_line, config_lines, describe_config, device_labels, device_names,
    find_device, find_f32_config, quality_options, texts, DeviceProbe, StreamConfig, MAX_COUNT,
};
use crate::handle::{HandleAllocator, StreamId};
use crate::registry::StreamRegistry;
use crate::text::{c_text, decode_device_name, decoded_name, string_to_c_bytes};

verus! {

/// What the runtime holds, as mathematical values.
#[verifier::ext_equal]
#[verifier::reject_recursive_types(S)]
pub struct CoreState<S> {
    /// The registered error callback.
    pub callback: Option<ErrorCallback>,
    /// The handle that the next opened stream receives.
    pub upcoming: StreamId,
    /// Whether the handle count has run through all 2^64 values and started
    /// over, which no process lives to see.
    pub started_over: bool,
    /// The handles that were issued for openings not yet completed.
    pub awaiting: Set<StreamId>,
    /// The open streams, each under its handle.
    pub streams: Map<StreamId, S>,
    /// The frames waiting for each open stream, oldest first.
    pub queues: Map<StreamId, Seq<Seq<u32>>>,
}

impl<S> CoreState<S> {
    /// Every open stream has a queue and every queue a stream, there are
    /// finitely many, and no queue holds more than one frame. No stream is
    /// open under handle zero. Until the handle count starts over, every open
    /// handle and every awaited handle is one that was issued, at least one
    /// and below the upcoming handle, and no awaited handle is open.
    pub open spec fn inv(self) -> bool {
        &&& self.streams.dom().finite()
        &&& self.queues.dom() == self.streams.dom()
        &&& forall|h: StreamId| #[trigger]
            self.queues.dom().contains(h) ==> self.queues[h].len() <= 1
        &&& !self.streams.dom().contains(0)
        &&& !self.started_over ==> {
            &&& self.upcoming >= 1
            &&& forall|h: StreamId| #[trigger] self.streams.dom().contains(h) ==> h < self.upcoming
            &&& forall|h: StreamId| #[trigger]
                self.awaiting.contains(h) ==> 1 <= h < self.upcoming
                    && !self.streams.dom().contains(h)
        }
    }

    /// The state of a fresh runtime.
    pub open spec fn initial() -> Self {
        CoreState {
            callback: None,
            upcoming: 1,
            started_over: false,
            awaiting: Set::empty(),
            streams: Map::empty(),
            queues: Map::empty(),
        }
    }

    /// The number of open streams.
    pub open spec fn count(self) -> nat {
        self.streams.dom().len()
    }

    /// The state after `callback` is registered.
    pub open spec fn registered(self, callback: ErrorCallback) -> Self {
        CoreState { callback: Some(callback), ..self }
    }

    /// The state after teardown: no callback, no streams, no queues.
    pub open spec fn torn_down(self) -> Self {
        CoreState { callback: None, streams: Map::empty(), queues: Map::empty(), ..self }
    }

    /// The state after a handle is issued for an opening: the handle is
    /// awaited, and the next handle is one greater.
    pub open spec fn issued(self) -> Self {
        CoreState {
            upcoming: if self.upcoming == u64::MAX {
                0
            } else {
                (self.upcoming + 1) as u64
            },
            started_over: self.started_over || self.upcoming == u64::MAX,
            awaiting: self.awaiting.insert(self.upcoming),
            ..self
        }
    }

    /// Whether a stream may be stored under `handle`: the handle is not
    /// zero, was issued for an opening that is not yet completed, and no
    /// stream is open under it.
    pub open spec fn admits(self, handle: StreamId) -> bool {
        &&& handle != 0
        &&& self.awaiting.contains(handle)
        &&& !self.streams.dom().contains(handle)
    }

    /// The state after the opening planned under `handle` is completed with
    /// `built`: the handle is awaited no longer, and a built stream is stored
    /// where the handle admits one.
    pub open spec fn completed(self, handle: StreamId, built: Option<S>) -> Self {
        let settled = CoreState { awaiting: self.awaiting.remove(handle), ..self };
        match built {
            Some(stream) => if self.admits(handle) {
                settled.admitted(handle, stream)
            } else {
                settled
            },
            None => settled,
        }
    }

    /// The state after `stream` is stored under `handle` with an empty queue.
    pub open spec fn admitted(self, handle: StreamId, stream: S) -> Self {
        CoreState {
            streams: self.streams.insert(handle, stream),
            queues: self.queues.insert(handle, Seq::empty()),
            ..self
        }
    }

    /// The state after the stream under `handle` is released.
    pub open spec fn released(self, handle: StreamId) -> Self {
        CoreState {
            streams: self.streams.remove(handle),
            queues: self.queues.remove(handle),
            ..self
        }
    }

    /// Whether a frame delivered for `handle` is kept: the frame is not
    /// longer than a result can tell, a stream is open under `handle`, and its
    /// queue is empty.
    pub open spec fn accepts(self, handle: StreamId, frame: Seq<u32>) -> bool {
        &&& frame.len() <= MAX_COUNT
        &&& self.queues.dom().contains(handle)
        &&& self.queues[handle].len() == 0
    }

    /// The state after `frame` is delivered for `handle`.
    pub open spec fn delivered(self, handle: StreamId, frame: Seq<u32>) -> Self {
        if frame.len() <= MAX_COUNT && self.queues.dom().contains(handle) {
            CoreState {
                queues: self.queues.insert(handle, offered(self.queues[handle], frame)),
                ..self
            }
        } else {
            self
        }
    }

    /// The frame that a poll of `handle` receives, if any.
    pub open spec fn waiting(self, handle: StreamId) -> Option<Seq<u32>> {
        if self.queues.dom().contains(handle) {
            oldest(self.queues[handle])
        } else {
            None
        }
    }

    /// The state after `handle` is polled.
    pub open spec fn polled(self, handle: StreamId) -> Self {
        if self.queues.dom().contains(handle) {
            CoreState { queues: self.queues.insert(handle, drained(self.queues[handle])), ..self }
        } else {
            self
        }
    }
}

/// The runtime context: the error callback slot, the handle allocator and the
/// stream registry. `S` is the platform's stream object.
#[verifier::reject_recursive_types(S)]
pub struct AudioCore<S> {
    callback: CallbackSlot,
    handles: HandleAllocator,
    awaiting: HashSet<u64>,
    registry: StreamRegistry<S>,
}

impl<S> View for AudioCore<S> {
    type V = CoreState<S>;

    closed spec fn view(&self) -> CoreState<S> {
        CoreState {
            callback: held(self.callback),
            upcoming: self.handles.upcoming(),
            started_over: self.handles.started_over(),
            awaiting: self.awaiting@,
            streams: self.registry.streams(),
            queues: self.registry.queues(),
        }
    }
}

impl<S> AudioCore<S> {
    /// The parts of the context fit together.
    pub closed spec fn sound(&self) -> bool {
        self.registry.wf()
    }

    /// The context is well formed: its parts fit together and its state
    /// keeps the invariant.
    pub open spec fn wf(&self) -> bool {
        self.sound() && self@.inv()
    }

    /// Makes a fresh runtime: no callback, no streams, first handle one.
    pub fn new() -> (core: Self)
        ensures
            core.wf(),
            core@ == CoreState::<S>::initial(),
    {
        let core = AudioCore {
            callback: slot_new(None),
            handles: HandleAllocator::new(),
            awaiting: HashSet::new(),
            registry: StreamRegistry::new(),
        };
        proof {
            core.registry.lemma_wf();
        }
        core
    }

    /// Borrows the platform stream open under `stream_id`, if any.
    pub fn stream(&self, stream_id: StreamId) -> (stream: Option<&S>)
        ensures
            match stream {
                Some(s) => {
                    &&& self@.streams.dom().contains(stream_id)
                    &&& *s == self@.streams[stream_id]
                },
                None => !self@.streams.dom().contains(stream_id),
            },
    {
        self.registry.get(stream_id)
    }
}

/// Registers the error callback and so sets the runtime up. A missing
/// callback is refused and changes nothing; a repeated call replaces the
/// callback.
pub fn rust_audio_init<S>(
    core: &mut AudioCore<S>,
    error_callback: Option<ErrorCallback>,
) -> (r: ResultFFI)
    requires
        old(core).wf(),
    ensures
        final(core).wf(),
        match error_callback {
            Some(callback) => {
                &&& r@ == result_of(None)
                &&& final(core)@ == old(core)@.registered(callback)
            },
            None => {
                &&& r@ == result_of(Some(AudioError::NullCallback))
                &&& final(core)@ == old(core)@
            },
        },
{
    match error_callback {
        Some(callback) => {
            slot_store(&mut core.callback, Some(callback));
            ResultFFI::ok()
        },
        None => ResultFFI::error(AudioError::NullCallback.as_str()),
    }
}

/// Tears the runtime down: clears the error callback and drops every open
/// stream with its channel. Handles issued before are not issued again, and
/// an opening that has begun can still be completed.
pub fn rust_audio_deinit<S>(core: &mut AudioCore<S>)
    requires
        old(core).wf(),
    ensures
        final(core).wf(),
        final(core)@ == old(core)@.torn_down(),
{
    slot_store(&mut core.callback, None);
    core.registry.clear();
    proof {
        core.registry.lemma_wf();
    }
}

/// Takes a snapshot of the runtime: how many streams are open and whether an
/// error callback is registered.
pub fn rust_audio_status<S>(core: &AudioCore<S>) -> (status: Status)
    ensures
        status.streams_count == core@.count(),
        status.has_error_callback == core@.callback.is_some(),
{
    let has_error_callback = slot_load(&core.callback).is_some();
    let streams_count = core.registry.count() as u64;
    Status { streams_count, has_error_callback }
}

/// Lists the names of the capture devices that the platform reported in
/// `probe`.
pub fn rust_audio_input_device_names(probe: &DeviceProbe) -> (r: DeviceNamesResult)
    ensures
        r@ == device_names_result(device_names(*probe)),
        r@.items matches Some(items) ==> r.length == items.len(),
        r@.items is None ==> r.length == 0,
{
    let outcome = rust_audio_input_device_names_internal(probe);
    DeviceNamesResult::from_result(&outcome)
}

/// Collects the names of the devices in `probe`, in the platform's order.
/// Fails when the platform could not enumerate, or could not name a device.
pub fn rust_audio_input_device_names_internal(
    probe: &DeviceProbe,
) -> (names: Result<Vec<String>, AudioError>)
    ensures
        match (names, device_names(*probe)) {
            (Ok(found), Ok(expected)) => texts(found@) == expected,
            (Err(e), Err(expected)) => e == expected,
            _ => false,
        },
{
    match probe {
        DeviceProbe::Unavailable => Err(AudioError::DeviceEnumeration),
        DeviceProbe::Devices(devices) => {
            if devices.len() > MAX_COUNT {
                return Err(AudioError::DeviceEnumeration);
            }
            let mut names: Vec<String> = Vec::new();
            let mut i: usize = 0;
            while i < devices.len()
                invariant
                    *probe == DeviceProbe::Devices(*devices),
                    devices@.len() <= MAX_COUNT,
                    i <= devices@.len(),
                    names@.len() == i,
                    forall|j: int| 0 <= j < i ==> (#[trigger] devices@[j]).name is Some,
                    forall|j: int|
                        0 <= j < i ==> (#[trigger] names@[j])@ == devices@[j].name->0@,
                decreases devices@.len() - i,
            {
                match &devices[i].name {
                    Some(name) => {
                        names.push(name.clone());
                    },
                    None => {
                        return Err(AudioError::DeviceNameUnavailable);
                    },
                }
                i = i + 1;
            }
            Ok(names)
        },
    }
}

/// Describes the capture configurations of the device named by
/// `device_name`, as the platform reported them in `probe`. `None` stands for
/// a null name. A null or badly encoded name is refused whatever `probe`
/// holds, and a device without a single configuration range is a failure.
pub fn rust_audio_device_quality_options(
    device_name: Option<&[u8]>,
    probe: &DeviceProbe,
) -> (r: QualityOptionsResult)
    ensures
        r@ == quality_options_result(
            match decoded_name(
                match device_name {
                    Some(bytes) => Some(bytes@),
                    None => None,
                },
            ) {
                Ok(name) => quality_options(*probe, name),
                Err(e) => Err(e),
            },
        ),
        r@.items matches Some(items) ==> r.length == items.len() && r.length >= 1,
        r@.items is None ==> r.length == 0 && r@.error_message is Some,
{
    match decode_device_name(device_name) {
        Ok(name) => {
            let outcome = rust_audio_device_quality_options_internal(name.as_str(), probe);
            QualityOptionsResult::from_result(&outcome)
        },
        Err(e) => {
            let outcome: Result<Vec<String>, AudioError> = Err(e);
            QualityOptionsResult::from_result(&outcome)
        },
    }
}

/// Describes each configuration range of the first device in `probe` that is
/// looked up by `device_name`.
pub fn rust_audio_device_quality_options_internal(
    device_name: &str,
    probe: &DeviceProbe,
) -> (lines: Result<Vec<String>, AudioError>)
    ensures
        match (lines, quality_options(*probe, device_name@)) {
            (Ok(found), Ok(expected)) => texts(found@) == expected,
            (Err(e), Err(expected)) => e == expected,
            _ => false,
        },
{
    match probe {
        DeviceProbe::Unavailable => Err(AudioError::DeviceEnumeration),
        DeviceProbe::Devices(devices) => match find_device(devices, device_name) {
            None => Err(AudioError::DeviceNotFound),
            Some(d) => match &devices[d].configs {
                None => Err(AudioError::NoSupportedConfigs),
                Some(configs) => {
                    if configs.len() == 0 || configs.len() > MAX_COUNT {
                        return Err(AudioError::NoSupportedConfigs);
                    }
                    let mut lines: Vec<String> = Vec::new();
                    let mut i: usize = 0;
                    while i < configs.len()
                        invariant
                            i <= configs@.len(),
                            lines@.len() == i,
                            forall|j: int|
                                0 <= j < i ==> (#[trigger] lines@[j])@ == config_line(configs@[j]),
                        decreases configs@.len() - i,
                    {
                        lines.push(describe_config(&configs[i]));
                        i = i + 1;
                    }
                    Ok(lines)
                },
            },
        },
    }
}

/// What was decided for a stream about to be built: its handle, the device
/// to build it on, by its place in the probe, and the configuration to build
/// it with. The buffer size is left to the platform's default.
#[derive(Clone, Copy, Debug, PartialEq, Eq, Structural)]
pub struct OpenPlan {
    pub stream_id: StreamId,
    pub device_index: usize,
    pub config: StreamConfig,
}

/// Decides how a capture stream for the device named `device_name` is built
/// and issues its handle, which is awaited until the opening is completed.
/// A failure issues no handle.
pub fn rust_audio_input_stream_new_internal<S>(
    core: &mut AudioCore<S>,
    device_name: &str,
    probe: &DeviceProbe,
) -> (plan: Result<OpenPlan, AudioError>)
    requires
        old(core).wf(),
    ensures
        final(core).wf(),
        match capture_choice(*probe, device_name@) {
            Ok((device, config)) => {
                &&& plan == Ok::<OpenPlan, AudioError>(
                    OpenPlan {
                        stream_id: old(core)@.upcoming,
                        device_index: device as usize,
                        config,
                    },
                )
                &&& final(core)@ == old(core)@.issued()
            },
            Err(e) => {
                &&& plan == Err::<OpenPlan, AudioError>(e)
                &&& final(core)@ == old(core)@
            },
        },
{
    match probe {
        DeviceProbe::Unavailable => Err(AudioError::DeviceEnumeration),
        DeviceProbe::Devices(devices) => match find_device(devices, device_name) {
            None => Err(AudioError::DeviceNotFound),
            Some(d) => match &devices[d].configs {
                None => Err(AudioError::NoSupportedConfigs),
                Some(configs) => match find_f32_config(configs) {
                    None => Err(AudioError::UnsupportedFormat),
                    Some(k) => {
                        let config = configs[k].with_max_sample_rate();
                        let stream_id = core.handles.next();
                        core.awaiting.insert(stream_id);
                        proof {
                            core.registry.lemma_wf();
                        }
                        Ok(OpenPlan { stream_id, device_index: d, config })
                    },
                },
            },
        },
    }
}

/// What the embedding program does next to open a stream.
#[derive(Clone, Debug, PartialEq, Eq)]
pub enum OpenStep {
    /// Build the platform stream as planned, then hand it to
    /// [`rust_audio_input_stream_built`].
    Build(OpenPlan),
    /// Nothing: the opening has ended with this result.
    Done(InputStreamResult),
}

/// What an [`OpenStep`] stands for.
pub enum OpenStepView {
    Build(OpenPlan),
    Done(InputStreamView),
}

impl View for OpenStep {
    type V = OpenStepView;

    open spec fn view(&self) -> OpenStepView {
        match *self {
            OpenStep::Build(plan) => OpenStepView::Build(plan),
            OpenStep::Done(r) => OpenStepView::Done(r@),
        }
    }
}

/// The device and the configuration that a capture stream is built with for
/// the name `raw` handed in by the caller, or why none can be built. A null
/// or badly encoded name is refused whatever `probe` holds.
pub open spec fn open_choice(raw: Option<Seq<u8>>, probe: DeviceProbe) -> Result<
    (int, StreamConfig),
    AudioError,
> {
    match decoded_name(raw) {
        Ok(name) => capture_choice(probe, name),
        Err(e) => Err(e),
    }
}

/// Begins the opening of a capture stream on the device named by
/// `device_name`, as the platform reported its devices in `probe`. `None`
/// stands for a null name.
///
/// Where a stream can be built, a handle is issued and the step is to build
/// it; the embedding program builds the platform stream as planned and
/// completes the opening with [`rust_audio_input_stream_built`]. Otherwise
/// the opening ends here with the error result, and nothing changes.
pub fn rust_audio_input_stream_new<S>(
    core: &mut AudioCore<S>,
    device_name: Option<&[u8]>,
    probe: &DeviceProbe,
) -> (step: OpenStep)
    requires
        old(core).wf(),
    ensures
        final(core).wf(),
        match open_choice(
            match device_name {
                Some(bytes) => Some(bytes@),
                None => None,
            },
            *probe,
        ) {
            Ok((device, config)) => {
                &&& step@ == OpenStepView::Build(
                    OpenPlan {
                        stream_id: old(core)@.upcoming,
                        device_index: device as usize,
                        config,
                    },
                )
                &&& final(core)@ == old(core)@.issued()
            },
            Err(e) => {
                &&& step@ == OpenStepView::Done(input_stream_result(Err(e)))
                &&& final(core)@ == old(core)@
            },
        },
{
    match decode_device_name(device_name) {
        Ok(name) => match rust_audio_input_stream_new_internal(core, name.as_str(), probe) {
            Ok(plan) => OpenStep::Build(plan),
            Err(e) => OpenStep::Done(InputStreamResult::from_error(e)),
        },
        Err(e) => OpenStep::Done(InputStreamResult::from_error(e)),
    }
}

/// How the completion of the opening planned as `plan` ends in `state`, where
/// `built` tells whether the platform built the stream.
pub open spec fn open_outcome<S>(state: CoreState<S>, plan: OpenPlan, built: bool) -> Result<
    (StreamId, StreamConfig),
    AudioError,
> {
    if !built {
        Err(AudioError::StreamBuild)
    } else if !state.admits(plan.stream_id) {
        Err(AudioError::InvalidPlan)
    } else {
        Ok((plan.stream_id, plan.config))
    }
}

/// Completes the opening of a stream planned as `plan`. `built` is the
/// platform stream that the embedding program built, or `None` when the
/// platform failed to build it.
///
/// A built stream is stored under the planned handle with an empty frame
/// channel, and the result tells the handle and the negotiated format. A
/// plan can be completed once. One whose handle is zero, is not awaited or
/// is already open is refused, and the built stream is dropped. So a success
/// always adds one stream, under a handle that is not zero and was never
/// open before.
pub fn rust_audio_input_stream_built<S>(
    core: &mut AudioCore<S>,
    plan: OpenPlan,
    built: Option<S>,
) -> (r: InputStreamResult)
    requires
        old(core).wf(),
    ensures
        final(core).wf(),
        final(core)@ == old(core)@.completed(plan.stream_id, built),
        r@ == input_stream_result(open_outcome(old(core)@, plan, built is Some)),
        r@.error_message is None ==> {
            &&& r.stream_id == plan.stream_id
            &&& r.stream_id != 0
            &&& final(core)@.count() == old(core)@.count() + 1
            &&& final(core)@.waiting(r.stream_id) is None
        },
        r@.error_message is Some ==> {
            &&& final(core)@.streams == old(core)@.streams
            &&& final(core)@.queues == old(core)@.queues
        },
{
    let awaited = core.awaiting.remove(&plan.stream_id);
    proof {
        core.registry.lemma_wf();
    }
    match built {
        Some(stream) => {
            let admitted = plan.stream_id != 0 && awaited && !core.registry.contains(
                plan.stream_id,
            );
            if admitted {
                core.registry.insert(plan.stream_id, stream);
                proof {
                    core.registry.lemma_wf();
                }
                InputStreamResult::ok(
                    plan.stream_id,
                    plan.config.sample_rate,
                    plan.config.channels as u32,
                )
            } else {
                InputStreamResult::from_error(AudioError::InvalidPlan)
            }
        },
        None => InputStreamResult::from_error(AudioError::StreamBuild),
    }
}

/// The result of asking the platform to start or pause the stream under
/// `stream_id`, where `accepted` tells whether the platform took the request.
pub open spec fn control_result<S>(
    state: CoreState<S>,
    stream_id: StreamId,
    accepted: bool,
) -> Option<AudioError> {
    if !state.streams.dom().contains(stream_id) {
        Some(AudioError::StreamNotFound)
    } else if accepted {
        None
    } else {
        Some(AudioError::StreamControl)
    }
}

/// Reports the start of the stream under `stream_id`. The embedding program
/// asks the platform to start the stream it borrowed with
/// [`AudioCore::stream`] and hands in whether the platform `accepted`; for a
/// handle without a stream `accepted` is not looked at.
pub fn rust_audio_input_stream_start<S>(
    core: &AudioCore<S>,
    stream_id: StreamId,
    accepted: bool,
) -> (r: ResultFFI)
    ensures
        r@ == result_of(control_result(core@, stream_id, accepted)),
{
    if !core.registry.contains(stream_id) {
        ResultFFI::error(AudioError::StreamNotFound.as_str())
    } else if accepted {
        ResultFFI::ok()
    } else {
        ResultFFI::error(AudioError::StreamControl.as_str())
    }
}

/// Reports the pause of the stream under `stream_id`, as
/// [`rust_audio_input_stream_start`] does for a start. A pause keeps the
/// stream and its channel.
pub fn rust_audio_input_stream_pause<S>(
    core: &AudioCore<S>,
    stream_id: StreamId,
    accepted: bool,
) -> (r: ResultFFI)
    ensures
        r@ == result_of(control_result(core@, stream_id, accepted)),
{
    if !core.registry.contains(stream_id) {
        ResultFFI::error(AudioError::StreamNotFound.as_str())
    } else if accepted {
        ResultFFI::ok()
    } else {
        ResultFFI::error(AudioError::StreamControl.as_str())
    }
}

/// Hands a captured frame to the channel of `stream_id` without blocking.
/// The frame is kept when a stream is open under `stream_id` and no frame
/// waits for it; otherwise it is dropped. A frame of more samples than a
/// result can tell is dropped too.
pub fn rust_audio_input_stream_deliver_frame<S>(
    core: &mut AudioCore<S>,
    stream_id: StreamId,
    frame: Frame,
) -> (accepted: bool)
    requires
        old(core).wf(),
    ensures
        final(core).wf(),
        accepted == old(core)@.accepts(stream_id, frame@),
        final(core)@ == old(core)@.delivered(stream_id, frame@),
{
    if frame.len() > MAX_COUNT {
        return false;
    }
    let accepted = core.registry.offer(stream_id, frame);
    proof {
        core.registry.lemma_wf();
    }
    accepted
}

/// Reads how many samples the buffer of `frame` has room for.
///
/// Trusted: calls `Vec::capacity`, which is never below the length.
#[verifier::external_body]
fn frame_capacity(frame: &Vec<u32>) -> (capacity: usize)
    ensures
        capacity >= frame@.len(),
{
    frame.capacity()
}

/// Polls the channel of `stream_id` without blocking and hands the waiting
/// frame over, with its true length and the true capacity of its buffer.
/// Nothing waiting, an unknown handle and a frame without samples all give
/// the empty result, never an error; so does a frame whose buffer has room
/// for more samples than the result can tell, which is dropped.
pub fn rust_audio_input_stream_consume_frame<S>(
    core: &mut AudioCore<S>,
    stream_id: StreamId,
) -> (r: ConsumeFrameResult)
    requires
        old(core).wf(),
    ensures
        final(core).wf(),
        final(core)@ == old(core)@.polled(stream_id),
        match old(core)@.waiting(stream_id) {
            Some(samples) => exists|capacity: usize|
                capacity >= samples.len() && r@ == #[trigger] consume_frame_result(
                    Some(samples),
                    capacity,
                ),
            None => r@ == no_frame(),
        },
        r@.frame matches Some(samples) ==> {
            &&& old(core)@.waiting(stream_id) == Some(samples)
            &&& r.len == samples.len()
            &&& 1 <= r.len <= r.capacity
        },
{
    let received = core.registry.take(stream_id);
    proof {
        core.registry.lemma_wf();
    }
    match received {
        Some(frame) => {
            let capacity = frame_capacity(&frame);
            ConsumeFrameResult::from_frame(frame, capacity)
        },
        None => ConsumeFrameResult::empty(),
    }
}

/// Releases the stream under `stream_id`: drops the platform stream and its
/// channel with any frame still waiting. A handle without a stream changes
/// nothing.
pub fn rust_audio_input_stream_free<S>(core: &mut AudioCore<S>, stream_id: StreamId)
    requires
        old(core).wf(),
    ensures
        final(core).wf(),
        final(core)@ == old(core)@.released(stream_id),
{
    core.registry.remove(stream_id);
    proof {
        core.registry.lemma_wf();
    }
}

/// How an error that arose on the capture thread is reported: to the
/// registered callback where there is one, and else only to the diagnostic
/// log. `message` is the NUL-terminated text to report.
#[derive(Clone, Debug, PartialEq, Eq)]
pub struct ErrorReport {
    pub callback: Option<ErrorCallback>,
    pub message: Vec<u8>,
}

/// The text that reports the stream error described by `detail`.
pub open spec fn stream_error_text(detail: Seq<char>) -> Seq<char> {
    "error on stream: "@ + detail
}

/// Decides how the stream error described by `detail` is reported.
pub fn rust_audio_stream_error<S>(core: &AudioCore<S>, detail: &str) -> (report: ErrorReport)
    ensures
        report.callback == core@.callback,
        report.message@ == c_text(stream_error_text(detail@)),
{
    let mut text = "error on stream: ".to_owned();
    text.append(detail);
    ErrorReport { callback: slot_load(&core.callback), message: string_to_c_bytes(text.as_str()) }
}

} // verus!
