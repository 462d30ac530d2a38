use rust_audio::gateway::{
    DeviceInfo, DeviceProbe, SampleFormat, StreamConfig, SupportedBufferSize, SupportedConfig,
};
use rust_audio::{
    rust_audio_deinit, rust_audio_init, rust_audio_input_stream_built,
    rust_audio_input_stream_consume_frame, rust_audio_input_stream_deliver_frame,
    rust_audio_input_stream_free, rust_audio_input_stream_new,
    rust_audio_input_stream_new_internal, rust_audio_input_stream_pause,
    rust_audio_input_stream_start, rust_audio_status, rust_audio_stream_error, AudioCore,
    AudioError, ConsumeFrameResult, ErrorClass, InputStreamResult, OpenPlan, OpenStep, ResultFFI,
    Status,
};

#[derive(Debug, PartialEq, Eq)]
struct FakeStream {
    tag: u32,
}

fn c_bytes(text: &str) -> Option<Vec<u8>> {
    let mut bytes = text.as_bytes().to_vec();
    bytes.push(0);
    Some(bytes)
}

fn f32_config(channels: u16, max_sample_rate: u32) -> SupportedConfig {
    SupportedConfig {
        channels,
        min_sample_rate: 8000,
        max_sample_rate,
        buffer_size: SupportedBufferSize::Unknown,
        sample_format: SampleFormat::F32,
    }
}

fn two_devices() -> DeviceProbe {
    DeviceProbe::Devices(vec![
        DeviceInfo { name: Some(String::from("front")), configs: Some(vec![f32_config(2, 48000)]) },
        DeviceInfo { name: Some(String::from("rear")), configs: Some(vec![f32_config(1, 44100)]) },
    ])
}

fn open(core: &mut AudioCore<FakeStream>, name: &str, tag: u32) -> InputStreamResult {
    match rust_audio_input_stream_new(core, Some(name.as_bytes()), &two_devices()) {
        OpenStep::Build(plan) => rust_audio_input_stream_built(core, plan, Some(FakeStream { tag })),
        OpenStep::Done(result) => result,
    }
}

fn error_result(message: &str) -> InputStreamResult {
    InputStreamResult { stream_id: 0, sample_rate: 0, channels: 0, error_message: c_bytes(message) }
}

fn empty_frame_result() -> ConsumeFrameResult {
    ConsumeFrameResult { frame: None, len: 0, capacity: 0, error_message: None }
}

#[test]
fn init_without_callback_is_invalid_input() {
    let mut core: AudioCore<FakeStream> = AudioCore::new();
    let r = rust_audio_init(&mut core, None);
    assert_eq!(r, ResultFFI { error_message: c_bytes("Error callback is null") });
    assert_eq!(AudioError::NullCallback.class(), ErrorClass::InvalidInput);
    assert!(!rust_audio_status(&core).has_error_callback);
}

#[test]
fn init_registers_and_reinit_replaces_the_callback() {
    let mut core: AudioCore<FakeStream> = AudioCore::new();
    assert_eq!(rust_audio_status(&core), Status { streams_count: 0, has_error_callback: false });
    assert_eq!(rust_audio_init(&mut core, Some(0x1000)), ResultFFI { error_message: None });
    assert!(rust_audio_status(&core).has_error_callback);
    assert_eq!(rust_audio_stream_error(&core, "x").callback, Some(0x1000));
    assert_eq!(rust_audio_init(&mut core, Some(0x2000)), ResultFFI { error_message: None });
    assert_eq!(rust_audio_stream_error(&core, "x").callback, Some(0x2000));
}

#[test]
fn failed_init_keeps_the_registered_callback() {
    let mut core: AudioCore<FakeStream> = AudioCore::new();
    rust_audio_init(&mut core, Some(0x1000));
    let r = rust_audio_init(&mut core, None);
    assert_eq!(r.error_message, c_bytes("Error callback is null"));
    assert_eq!(rust_audio_stream_error(&core, "x").callback, Some(0x1000));
}

#[test]
fn deinit_clears_callback_and_streams() {
    let mut core: AudioCore<FakeStream> = AudioCore::new();
    rust_audio_init(&mut core, Some(0x1000));
    let a = open(&mut core, "front", 1);
    open(&mut core, "rear", 2);
    assert!(rust_audio_input_stream_deliver_frame(&mut core, a.stream_id, vec![1, 2]));
    rust_audio_deinit(&mut core);
    assert_eq!(rust_audio_status(&core), Status { streams_count: 0, has_error_callback: false });
    assert!(core.stream(a.stream_id).is_none());
    assert_eq!(rust_audio_input_stream_consume_frame(&mut core, a.stream_id), empty_frame_result());
    assert!(!rust_audio_input_stream_deliver_frame(&mut core, a.stream_id, vec![3]));
}

#[test]
fn handles_start_at_one_and_are_not_reused() {
    let mut core: AudioCore<FakeStream> = AudioCore::new();
    assert_eq!(open(&mut core, "front", 1).stream_id, 1);
    assert_eq!(open(&mut core, "rear", 2).stream_id, 2);
    rust_audio_input_stream_free(&mut core, 1);
    assert_eq!(open(&mut core, "front", 3).stream_id, 3);
    rust_audio_deinit(&mut core);
    assert_eq!(open(&mut core, "front", 4).stream_id, 4);
}

#[test]
fn open_reports_the_negotiated_format() {
    let mut core: AudioCore<FakeStream> = AudioCore::new();
    let r = open(&mut core, "front", 7);
    assert_eq!(
        r,
        InputStreamResult { stream_id: 1, sample_rate: 48000, channels: 2, error_message: None }
    );
    assert_eq!(core.stream(1), Some(&FakeStream { tag: 7 }));
    assert_eq!(rust_audio_status(&core).streams_count, 1);
}

#[test]
fn open_plans_first_f32_range_at_its_highest_rate() {
    let mut core: AudioCore<FakeStream> = AudioCore::new();
    let i16_config = SupportedConfig {
        channels: 2,
        min_sample_rate: 8000,
        max_sample_rate: 96000,
        buffer_size: SupportedBufferSize::Unknown,
        sample_format: SampleFormat::I16,
    };
    let probe = DeviceProbe::Devices(vec![
        DeviceInfo { name: Some(String::from("other")), configs: None },
        DeviceInfo {
            name: Some(String::from("mic")),
            configs: Some(vec![i16_config, f32_config(1, 44100), f32_config(2, 192000)]),
        },
        DeviceInfo { name: Some(String::from("mic")), configs: Some(vec![f32_config(8, 8000)]) },
    ]);
    let plan = rust_audio_input_stream_new_internal(&mut core, "mic", &probe);
    assert_eq!(
        plan,
        Ok(OpenPlan {
            stream_id: 1,
            device_index: 1,
            config: StreamConfig { channels: 1, sample_rate: 44100 },
        })
    );
}

#[test]
fn open_of_unknown_device_is_not_found_and_changes_nothing() {
    let mut core: AudioCore<FakeStream> = AudioCore::new();
    open(&mut core, "front", 1);
    let plan = rust_audio_input_stream_new_internal(&mut core, "nonexistent-device", &two_devices());
    assert_eq!(plan, Err(AudioError::DeviceNotFound));
    assert_eq!(AudioError::DeviceNotFound.class(), ErrorClass::NotFound);
    let r = InputStreamResult::from_error(AudioError::DeviceNotFound);
    assert_eq!(
        r,
        InputStreamResult {
            stream_id: 0,
            sample_rate: 0,
            channels: 0,
            error_message: c_bytes("device with specified name not found"),
        }
    );
    assert_eq!(rust_audio_status(&core).streams_count, 1);
    assert_eq!(open(&mut core, "rear", 2).stream_id, 2);
}

#[test]
fn open_fails_for_each_platform_shortcoming() {
    let mut core: AudioCore<FakeStream> = AudioCore::new();
    assert_eq!(
        rust_audio_input_stream_new_internal(&mut core, "mic", &DeviceProbe::Unavailable),
        Err(AudioError::DeviceEnumeration)
    );
    let no_configs =
        DeviceProbe::Devices(vec![DeviceInfo { name: Some(String::from("mic")), configs: None }]);
    assert_eq!(
        rust_audio_input_stream_new_internal(&mut core, "mic", &no_configs),
        Err(AudioError::NoSupportedConfigs)
    );
    let no_f32 = DeviceProbe::Devices(vec![DeviceInfo {
        name: Some(String::from("mic")),
        configs: Some(vec![SupportedConfig {
            channels: 2,
            min_sample_rate: 1,
            max_sample_rate: 2,
            buffer_size: SupportedBufferSize::Unknown,
            sample_format: SampleFormat::F64,
        }]),
    }]);
    assert_eq!(
        rust_audio_input_stream_new_internal(&mut core, "mic", &no_f32),
        Err(AudioError::UnsupportedFormat)
    );
    assert_eq!(AudioError::UnsupportedFormat.class(), ErrorClass::UnsupportedCapability);
    assert_eq!(AudioError::DeviceEnumeration.class(), ErrorClass::PlatformFailure);
    assert_eq!(open(&mut core, "front", 1).stream_id, 1);
}

#[test]
fn unnamed_device_is_found_by_the_empty_name() {
    let mut core: AudioCore<FakeStream> = AudioCore::new();
    let probe = DeviceProbe::Devices(vec![
        DeviceInfo { name: Some(String::from("mic")), configs: Some(vec![f32_config(1, 1)]) },
        DeviceInfo { name: None, configs: Some(vec![f32_config(4, 16000)]) },
    ]);
    let plan = rust_audio_input_stream_new_internal(&mut core, "", &probe).unwrap();
    assert_eq!(plan.device_index, 1);
    assert_eq!(plan.config, StreamConfig { channels: 4, sample_rate: 16000 });
}

#[test]
fn failed_build_reports_platform_failure_and_stores_nothing() {
    let mut core: AudioCore<FakeStream> = AudioCore::new();
    let plan = rust_audio_input_stream_new_internal(&mut core, "front", &two_devices()).unwrap();
    let r = rust_audio_input_stream_built(&mut core, plan, None);
    assert_eq!(
        r,
        InputStreamResult {
            stream_id: 0,
            sample_rate: 0,
            channels: 0,
            error_message: c_bytes("cannot build input stream"),
        }
    );
    assert_eq!(AudioError::StreamBuild.class(), ErrorClass::PlatformFailure);
    assert_eq!(rust_audio_status(&core).streams_count, 0);
    assert_eq!(open(&mut core, "front", 1).stream_id, 2);
}

#[test]
fn release_of_first_stream_leaves_second_consumable() {
    let mut core: AudioCore<FakeStream> = AudioCore::new();
    let a = open(&mut core, "front", 1);
    let b = open(&mut core, "rear", 2);
    assert_eq!(rust_audio_status(&core).streams_count, 2);
    rust_audio_input_stream_free(&mut core, a.stream_id);
    assert_eq!(rust_audio_status(&core).streams_count, 1);
    assert!(rust_audio_input_stream_deliver_frame(&mut core, b.stream_id, vec![10, 20, 30]));
    let r = rust_audio_input_stream_consume_frame(&mut core, b.stream_id);
    assert_eq!(r.frame, Some(vec![10, 20, 30]));
    assert_eq!(r.len, 3);
    assert!(r.capacity >= 3);
    assert_eq!(r.error_message, None);
    assert_eq!(core.stream(b.stream_id), Some(&FakeStream { tag: 2 }));
    assert!(core.stream(a.stream_id).is_none());
}

#[test]
fn pause_of_never_started_stream_keeps_the_entry() {
    let mut core: AudioCore<FakeStream> = AudioCore::new();
    let a = open(&mut core, "front", 1);
    let rejected = rust_audio_input_stream_pause(&core, a.stream_id, false);
    assert_eq!(rejected.error_message, c_bytes("cannot play stream"));
    let accepted = rust_audio_input_stream_pause(&core, a.stream_id, true);
    assert_eq!(accepted, ResultFFI { error_message: None });
    assert_eq!(rust_audio_status(&core).streams_count, 1);
    assert_eq!(core.stream(a.stream_id), Some(&FakeStream { tag: 1 }));
    assert!(rust_audio_input_stream_deliver_frame(&mut core, a.stream_id, vec![5]));
    assert_eq!(rust_audio_input_stream_consume_frame(&mut core, a.stream_id).frame, Some(vec![5]));
}

#[test]
fn start_reports_unknown_handle_and_platform_rejection() {
    let mut core: AudioCore<FakeStream> = AudioCore::new();
    let a = open(&mut core, "front", 1);
    assert_eq!(rust_audio_input_stream_start(&core, a.stream_id, true), ResultFFI { error_message: None });
    assert_eq!(
        rust_audio_input_stream_start(&core, a.stream_id, false).error_message,
        c_bytes("cannot play stream")
    );
    assert_eq!(
        rust_audio_input_stream_start(&core, 99, true).error_message,
        c_bytes("stream with specified id not found")
    );
    assert_eq!(
        rust_audio_input_stream_pause(&core, 0, true).error_message,
        c_bytes("stream with specified id not found")
    );
    assert_eq!(AudioError::StreamNotFound.class(), ErrorClass::NotFound);
    assert_eq!(AudioError::StreamControl.class(), ErrorClass::PlatformFailure);
}

#[test]
fn pause_after_release_is_an_ordinary_not_found() {
    let mut core: AudioCore<FakeStream> = AudioCore::new();
    let a = open(&mut core, "front", 1);
    rust_audio_input_stream_free(&mut core, a.stream_id);
    assert_eq!(
        rust_audio_input_stream_pause(&core, a.stream_id, true).error_message,
        c_bytes("stream with specified id not found")
    );
}

#[test]
fn consume_without_pending_frame_is_empty() {
    let mut core: AudioCore<FakeStream> = AudioCore::new();
    let a = open(&mut core, "front", 1);
    assert_eq!(rust_audio_input_stream_consume_frame(&mut core, a.stream_id), empty_frame_result());
    assert_eq!(rust_audio_input_stream_consume_frame(&mut core, a.stream_id), empty_frame_result());
}

#[test]
fn consume_of_unknown_handle_is_empty() {
    let mut core: AudioCore<FakeStream> = AudioCore::new();
    assert_eq!(rust_audio_input_stream_consume_frame(&mut core, 0), empty_frame_result());
    assert_eq!(rust_audio_input_stream_consume_frame(&mut core, 42), empty_frame_result());
    assert_eq!(rust_audio_status(&core).streams_count, 0);
}

#[test]
fn second_push_before_drain_is_dropped() {
    let mut core: AudioCore<FakeStream> = AudioCore::new();
    let a = open(&mut core, "front", 1);
    assert!(rust_audio_input_stream_deliver_frame(&mut core, a.stream_id, vec![1, 1]));
    assert!(!rust_audio_input_stream_deliver_frame(&mut core, a.stream_id, vec![2, 2]));
    let first = rust_audio_input_stream_consume_frame(&mut core, a.stream_id);
    assert_eq!(first.frame, Some(vec![1, 1]));
    assert_eq!(first.len, 2);
    assert_eq!(rust_audio_input_stream_consume_frame(&mut core, a.stream_id), empty_frame_result());
    assert!(rust_audio_input_stream_deliver_frame(&mut core, a.stream_id, vec![3, 3]));
    assert_eq!(rust_audio_input_stream_consume_frame(&mut core, a.stream_id).frame, Some(vec![3, 3]));
}

#[test]
fn frames_of_different_streams_do_not_mix() {
    let mut core: AudioCore<FakeStream> = AudioCore::new();
    let a = open(&mut core, "front", 1);
    let b = open(&mut core, "rear", 2);
    assert!(rust_audio_input_stream_deliver_frame(&mut core, a.stream_id, vec![1]));
    assert!(rust_audio_input_stream_deliver_frame(&mut core, b.stream_id, vec![2]));
    assert_eq!(rust_audio_input_stream_consume_frame(&mut core, b.stream_id).frame, Some(vec![2]));
    assert_eq!(rust_audio_input_stream_consume_frame(&mut core, a.stream_id).frame, Some(vec![1]));
}

#[test]
fn frame_without_samples_is_consumed_as_nothing() {
    let mut core: AudioCore<FakeStream> = AudioCore::new();
    let a = open(&mut core, "front", 1);
    assert!(rust_audio_input_stream_deliver_frame(&mut core, a.stream_id, Vec::new()));
    assert_eq!(rust_audio_input_stream_consume_frame(&mut core, a.stream_id), empty_frame_result());
    assert!(rust_audio_input_stream_deliver_frame(&mut core, a.stream_id, vec![9]));
}

#[test]
fn delivery_for_unknown_handle_is_dropped() {
    let mut core: AudioCore<FakeStream> = AudioCore::new();
    assert!(!rust_audio_input_stream_deliver_frame(&mut core, 1, vec![1]));
    let a = open(&mut core, "front", 1);
    assert_eq!(rust_audio_input_stream_consume_frame(&mut core, a.stream_id), empty_frame_result());
}

#[test]
fn release_is_idempotent() {
    let mut core: AudioCore<FakeStream> = AudioCore::new();
    let a = open(&mut core, "front", 1);
    let b = open(&mut core, "rear", 2);
    rust_audio_input_stream_free(&mut core, 77);
    assert_eq!(rust_audio_status(&core).streams_count, 2);
    rust_audio_input_stream_free(&mut core, a.stream_id);
    rust_audio_input_stream_free(&mut core, a.stream_id);
    assert_eq!(rust_audio_status(&core).streams_count, 1);
    assert_eq!(core.stream(b.stream_id), Some(&FakeStream { tag: 2 }));
}

#[test]
fn release_drops_the_waiting_frame() {
    let mut core: AudioCore<FakeStream> = AudioCore::new();
    let a = open(&mut core, "front", 1);
    assert!(rust_audio_input_stream_deliver_frame(&mut core, a.stream_id, vec![1]));
    rust_audio_input_stream_free(&mut core, a.stream_id);
    assert_eq!(rust_audio_input_stream_consume_frame(&mut core, a.stream_id), empty_frame_result());
}

#[test]
fn stream_count_follows_opens_and_releases() {
    let mut core: AudioCore<FakeStream> = AudioCore::new();
    let mut live: Vec<u64> = Vec::new();
    let script: [i64; 12] = [0, 0, -1, 0, -2, -2, 0, 0, -9, -3, -4, 0];
    for step in script {
        if step == 0 {
            let r = open(&mut core, "front", 0);
            live.push(r.stream_id);
        } else {
            let handle = (-step) as u64;
            rust_audio_input_stream_free(&mut core, handle);
            live.retain(|h| *h != handle);
        }
        assert_eq!(rust_audio_status(&core).streams_count, live.len() as u64);
    }
    assert_eq!(live, vec![5, 6]);
}

#[test]
fn completing_a_plan_twice_is_refused_and_keeps_the_open_stream() {
    let mut core: AudioCore<FakeStream> = AudioCore::new();
    let plan = rust_audio_input_stream_new_internal(&mut core, "front", &two_devices()).unwrap();
    let first = rust_audio_input_stream_built(&mut core, plan, Some(FakeStream { tag: 1 }));
    assert_eq!(first.error_message, None);
    assert!(rust_audio_input_stream_deliver_frame(&mut core, plan.stream_id, vec![1]));
    let second = rust_audio_input_stream_built(&mut core, plan, Some(FakeStream { tag: 2 }));
    assert_eq!(second, error_result("stream plan is not valid"));
    assert_eq!(AudioError::InvalidPlan.class(), ErrorClass::InvalidInput);
    assert_eq!(rust_audio_status(&core).streams_count, 1);
    assert_eq!(core.stream(plan.stream_id), Some(&FakeStream { tag: 1 }));
    let r = rust_audio_input_stream_consume_frame(&mut core, plan.stream_id);
    assert_eq!(r.frame, Some(vec![1]));
}

#[test]
fn plan_with_handle_zero_or_a_handle_never_issued_is_refused() {
    let mut core: AudioCore<FakeStream> = AudioCore::new();
    let config = StreamConfig { channels: 2, sample_rate: 48000 };
    let zero = OpenPlan { stream_id: 0, device_index: 0, config };
    let r = rust_audio_input_stream_built(&mut core, zero, Some(FakeStream { tag: 1 }));
    assert_eq!(r, error_result("stream plan is not valid"));
    let unissued = OpenPlan { stream_id: 1, device_index: 0, config };
    let r = rust_audio_input_stream_built(&mut core, unissued, Some(FakeStream { tag: 1 }));
    assert_eq!(r, error_result("stream plan is not valid"));
    assert_eq!(rust_audio_status(&core).streams_count, 0);
    assert!(core.stream(0).is_none());
    assert!(core.stream(1).is_none());
    assert_eq!(open(&mut core, "front", 2).stream_id, 1);
    assert_eq!(core.stream(1), Some(&FakeStream { tag: 2 }));
}

#[test]
fn plan_is_completed_once_even_after_its_stream_is_released() {
    let mut core: AudioCore<FakeStream> = AudioCore::new();
    let plan = rust_audio_input_stream_new_internal(&mut core, "front", &two_devices()).unwrap();
    rust_audio_input_stream_built(&mut core, plan, Some(FakeStream { tag: 1 }));
    rust_audio_input_stream_free(&mut core, plan.stream_id);
    assert_eq!(rust_audio_status(&core).streams_count, 0);
    let again = rust_audio_input_stream_built(&mut core, plan, Some(FakeStream { tag: 2 }));
    assert_eq!(again, error_result("stream plan is not valid"));
    assert_eq!(rust_audio_status(&core).streams_count, 0);
    assert!(core.stream(plan.stream_id).is_none());
}

#[test]
fn plan_whose_build_failed_cannot_be_completed_later() {
    let mut core: AudioCore<FakeStream> = AudioCore::new();
    let plan = rust_audio_input_stream_new_internal(&mut core, "front", &two_devices()).unwrap();
    let failed = rust_audio_input_stream_built(&mut core, plan, None);
    assert_eq!(failed, error_result("cannot build input stream"));
    let late = rust_audio_input_stream_built(&mut core, plan, Some(FakeStream { tag: 1 }));
    assert_eq!(late, error_result("stream plan is not valid"));
    assert_eq!(rust_audio_status(&core).streams_count, 0);
}

#[test]
fn plans_may_be_completed_in_any_order() {
    let mut core: AudioCore<FakeStream> = AudioCore::new();
    let first = rust_audio_input_stream_new_internal(&mut core, "front", &two_devices()).unwrap();
    let second = rust_audio_input_stream_new_internal(&mut core, "rear", &two_devices()).unwrap();
    assert_eq!((first.stream_id, second.stream_id), (1, 2));
    let b = rust_audio_input_stream_built(&mut core, second, Some(FakeStream { tag: 2 }));
    let a = rust_audio_input_stream_built(&mut core, first, Some(FakeStream { tag: 1 }));
    assert_eq!((a.stream_id, b.stream_id), (1, 2));
    assert_eq!(rust_audio_status(&core).streams_count, 2);
    rust_audio_deinit(&mut core);
    assert_eq!(rust_audio_status(&core).streams_count, 0);
}

#[test]
fn open_with_null_name_is_refused_and_changes_nothing() {
    let mut core: AudioCore<FakeStream> = AudioCore::new();
    let step = rust_audio_input_stream_new(&mut core, None, &two_devices());
    assert_eq!(step, OpenStep::Done(error_result("Device name is null")));
    let step = rust_audio_input_stream_new(&mut core, None, &DeviceProbe::Unavailable);
    assert_eq!(step, OpenStep::Done(error_result("Device name is null")));
    assert_eq!(rust_audio_status(&core).streams_count, 0);
    assert_eq!(open(&mut core, "front", 1).stream_id, 1);
}

#[test]
fn open_with_badly_encoded_name_is_refused_and_changes_nothing() {
    let mut core: AudioCore<FakeStream> = AudioCore::new();
    let raw: [u8; 2] = [0xff, 0xfe];
    let step = rust_audio_input_stream_new(&mut core, Some(&raw[..]), &two_devices());
    assert_eq!(step, OpenStep::Done(error_result("Invalid UTF-8 in device name")));
    assert_eq!(rust_audio_status(&core).streams_count, 0);
    assert_eq!(open(&mut core, "front", 1).stream_id, 1);
}

#[test]
fn open_begins_with_a_plan_and_ends_with_one_more_stream() {
    let mut core: AudioCore<FakeStream> = AudioCore::new();
    open(&mut core, "rear", 1);
    let before = rust_audio_status(&core).streams_count;
    let step = rust_audio_input_stream_new(&mut core, Some("front".as_bytes()), &two_devices());
    let plan = OpenPlan {
        stream_id: 2,
        device_index: 0,
        config: StreamConfig { channels: 2, sample_rate: 48000 },
    };
    assert_eq!(step, OpenStep::Build(plan));
    assert_eq!(rust_audio_status(&core).streams_count, before);
    let r = rust_audio_input_stream_built(&mut core, plan, Some(FakeStream { tag: 9 }));
    assert_eq!(
        r,
        InputStreamResult { stream_id: 2, sample_rate: 48000, channels: 2, error_message: None }
    );
    assert_eq!(rust_audio_status(&core).streams_count, before + 1);
    assert_eq!(rust_audio_input_stream_consume_frame(&mut core, 2), empty_frame_result());
}

#[test]
fn open_of_unknown_device_ends_at_once_with_not_found() {
    let mut core: AudioCore<FakeStream> = AudioCore::new();
    let step =
        rust_audio_input_stream_new(&mut core, Some("nonexistent-device".as_bytes()), &two_devices());
    assert_eq!(step, OpenStep::Done(error_result("device with specified name not found")));
    assert_eq!(rust_audio_status(&core).streams_count, 0);
}

#[test]
fn stream_error_goes_to_the_callback_or_the_log() {
    let mut core: AudioCore<FakeStream> = AudioCore::new();
    let unregistered = rust_audio_stream_error(&core, "device unplugged");
    assert_eq!(unregistered.callback, None);
    assert_eq!(unregistered.message, b"error on stream: device unplugged\0".to_vec());
    rust_audio_init(&mut core, Some(0xbeef));
    let registered = rust_audio_stream_error(&core, "device unplugged");
    assert_eq!(registered.callback, Some(0xbeef));
    assert_eq!(registered.message, b"error on stream: device unplugged\0".to_vec());
}
