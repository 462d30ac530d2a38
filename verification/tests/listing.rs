use rust_audio::gateway::{
    describe_config, find_device, find_f32_config, DeviceInfo, DeviceProbe, SampleFormat,
    SupportedBufferSize, SupportedConfig,
};
use rust_audio::{
    rust_audio_device_quality_options, rust_audio_device_quality_options_internal,
    rust_audio_input_device_names, rust_audio_input_device_names_internal, AudioError,
    DeviceNamesResult, ErrorClass, QualityOptionsResult,
};

fn c_bytes(text: &str) -> Vec<u8> {
    let mut bytes = text.as_bytes().to_vec();
    bytes.push(0);
    bytes
}

fn config(format: SampleFormat, buffer_size: SupportedBufferSize) -> SupportedConfig {
    SupportedConfig {
        channels: 2,
        min_sample_rate: 8000,
        max_sample_rate: 48000,
        buffer_size,
        sample_format: format,
    }
}

fn probe() -> DeviceProbe {
    DeviceProbe::Devices(vec![
        DeviceInfo {
            name: Some(String::from("Built-in Microphone")),
            configs: Some(vec![
                config(SampleFormat::I16, SupportedBufferSize::Unknown),
                config(SampleFormat::F32, SupportedBufferSize::Range { min: 15, max: 4096 }),
            ]),
        },
        DeviceInfo { name: Some(String::from("USB")), configs: None },
        DeviceInfo { name: Some(String::from("Silent")), configs: Some(Vec::new()) },
    ])
}

#[test]
fn device_names_come_in_platform_order() {
    let names = rust_audio_input_device_names_internal(&probe());
    assert_eq!(
        names,
        Ok(vec![String::from("Built-in Microphone"), String::from("USB"), String::from("Silent")])
    );
    let r = rust_audio_input_device_names(&probe());
    assert_eq!(
        r,
        DeviceNamesResult {
            names: Some(vec![c_bytes("Built-in Microphone"), c_bytes("USB"), c_bytes("Silent")]),
            length: 3,
            error_message: None,
        }
    );
}

#[test]
fn no_devices_give_no_array() {
    let r = rust_audio_input_device_names(&DeviceProbe::Devices(Vec::new()));
    assert_eq!(r, DeviceNamesResult { names: None, length: 0, error_message: None });
}

#[test]
fn failed_enumeration_is_reported() {
    assert_eq!(
        rust_audio_input_device_names_internal(&DeviceProbe::Unavailable),
        Err(AudioError::DeviceEnumeration)
    );
    let r = rust_audio_input_device_names(&DeviceProbe::Unavailable);
    assert_eq!(
        r,
        DeviceNamesResult {
            names: None,
            length: 0,
            error_message: Some(c_bytes("cannot get input devices")),
        }
    );
}

#[test]
fn unnamed_device_fails_the_listing() {
    let unnamed = DeviceProbe::Devices(vec![
        DeviceInfo { name: Some(String::from("a")), configs: None },
        DeviceInfo { name: None, configs: None },
    ]);
    assert_eq!(
        rust_audio_input_device_names_internal(&unnamed),
        Err(AudioError::DeviceNameUnavailable)
    );
    assert_eq!(
        rust_audio_input_device_names(&unnamed).error_message,
        Some(c_bytes("cannot get device name"))
    );
    assert_eq!(AudioError::DeviceNameUnavailable.class(), ErrorClass::PlatformFailure);
}

#[test]
fn quality_options_describe_each_range() {
    let lines = rust_audio_device_quality_options_internal("Built-in Microphone", &probe());
    assert_eq!(
        lines,
        Ok(vec![
            String::from(
                "channels: 2, sample_rate: SampleRate(48000), sample_format: i16, buffer_size: Unknown"
            ),
            String::from(
                "channels: 2, sample_rate: SampleRate(48000), sample_format: f32, buffer_size: Range { min: 15, max: 4096 }"
            ),
        ])
    );
}

#[test]
fn quality_options_cross_the_boundary_as_c_strings() {
    let raw = "Built-in Microphone".as_bytes();
    let r = rust_audio_device_quality_options(Some(raw), &probe());
    assert_eq!(
        r,
        QualityOptionsResult {
            options: Some(vec![
                c_bytes(
                    "channels: 2, sample_rate: SampleRate(48000), sample_format: i16, buffer_size: Unknown"
                ),
                c_bytes(
                    "channels: 2, sample_rate: SampleRate(48000), sample_format: f32, buffer_size: Range { min: 15, max: 4096 }"
                ),
            ]),
            length: 2,
            error_message: None,
        }
    );
}

#[test]
fn device_without_ranges_has_no_supported_configs() {
    assert_eq!(
        rust_audio_device_quality_options_internal("Silent", &probe()),
        Err(AudioError::NoSupportedConfigs)
    );
    let r = rust_audio_device_quality_options(Some("Silent".as_bytes()), &probe());
    assert_eq!(
        r,
        QualityOptionsResult {
            options: None,
            length: 0,
            error_message: Some(c_bytes("device doesn't have supported configs")),
        }
    );
}

#[test]
fn quality_options_refuse_null_and_bad_names() {
    let null = rust_audio_device_quality_options(None, &probe());
    assert_eq!(
        null,
        QualityOptionsResult {
            options: None,
            length: 0,
            error_message: Some(c_bytes("Device name is null")),
        }
    );
    let raw: [u8; 3] = [0x66, 0xff, 0x66];
    let bad = rust_audio_device_quality_options(Some(&raw[..]), &probe());
    assert_eq!(bad.error_message, Some(c_bytes("Invalid UTF-8 in device name")));
    assert_eq!(bad.options, None);
    assert_eq!(AudioError::NullDeviceName.class(), ErrorClass::InvalidInput);
    assert_eq!(AudioError::InvalidDeviceName.class(), ErrorClass::InvalidInput);
}

#[test]
fn null_name_is_refused_before_the_probe_is_looked_at() {
    let r = rust_audio_device_quality_options(None, &DeviceProbe::Unavailable);
    assert_eq!(r.error_message, Some(c_bytes("Device name is null")));
}

#[test]
fn quality_options_fail_for_unknown_device_and_missing_configs() {
    assert_eq!(
        rust_audio_device_quality_options_internal("nope", &probe()),
        Err(AudioError::DeviceNotFound)
    );
    assert_eq!(
        rust_audio_device_quality_options_internal("USB", &probe()),
        Err(AudioError::NoSupportedConfigs)
    );
    assert_eq!(
        rust_audio_device_quality_options_internal("USB", &DeviceProbe::Unavailable),
        Err(AudioError::DeviceEnumeration)
    );
    let r = rust_audio_device_quality_options(Some("USB".as_bytes()), &probe());
    assert_eq!(r.error_message, Some(c_bytes("device doesn't have supported configs")));
    assert_eq!(AudioError::NoSupportedConfigs.class(), ErrorClass::PlatformFailure);
}

#[test]
fn every_sample_format_has_its_label() {
    let formats = [
        (SampleFormat::I8, "i8"),
        (SampleFormat::I16, "i16"),
        (SampleFormat::I32, "i32"),
        (SampleFormat::I64, "i64"),
        (SampleFormat::U8, "u8"),
        (SampleFormat::U16, "u16"),
        (SampleFormat::U32, "u32"),
        (SampleFormat::U64, "u64"),
        (SampleFormat::F32, "f32"),
        (SampleFormat::F64, "f64"),
    ];
    for (format, label) in formats {
        assert_eq!(format.label(), label);
        assert_eq!(format.is_f32(), label == "f32");
    }
}

#[test]
fn config_line_renders_extreme_numbers() {
    let c = SupportedConfig {
        channels: u16::MAX,
        min_sample_rate: 0,
        max_sample_rate: u32::MAX,
        buffer_size: SupportedBufferSize::Range { min: 0, max: u32::MAX },
        sample_format: SampleFormat::U64,
    };
    assert_eq!(
        describe_config(&c),
        "channels: 65535, sample_rate: SampleRate(4294967295), sample_format: u64, buffer_size: Range { min: 0, max: 4294967295 }"
    );
}

#[test]
fn first_match_wins_in_device_and_format_search() {
    let devices = vec![
        DeviceInfo { name: Some(String::from("a")), configs: None },
        DeviceInfo { name: Some(String::from("b")), configs: None },
        DeviceInfo { name: Some(String::from("b")), configs: None },
    ];
    assert_eq!(find_device(&devices, "b"), Some(1));
    assert_eq!(find_device(&devices, "c"), None);
    assert_eq!(find_device(&devices, ""), None);
    let configs = vec![
        config(SampleFormat::F64, SupportedBufferSize::Unknown),
        config(SampleFormat::F32, SupportedBufferSize::Unknown),
        config(SampleFormat::F32, SupportedBufferSize::Unknown),
    ];
    assert_eq!(find_f32_config(&configs), Some(1));
    assert_eq!(find_f32_config(&configs[..1].to_vec()), None);
}
