use rust_audio::error::AudioError;
use rust_audio::text::{decimal_string, decode_device_name, string_to_c_bytes, vec_to_c_array};

#[test]
fn c_bytes_end_with_a_single_nul() {
    assert_eq!(string_to_c_bytes("mic"), b"mic\0".to_vec());
    assert_eq!(string_to_c_bytes(""), vec![0u8]);
}

#[test]
fn c_bytes_fall_back_to_empty_on_interior_nul() {
    assert_eq!(string_to_c_bytes("a\0b"), vec![0u8]);
}

#[test]
fn c_array_keeps_order_and_length() {
    let strings = vec![String::from("one"), String::from("tw\0o"), String::from("")];
    let out = vec_to_c_array(&strings);
    assert_eq!(out, vec![b"one\0".to_vec(), vec![0u8], vec![0u8]]);
}

#[test]
fn decimal_rendering_matches_known_values() {
    assert_eq!(decimal_string(0), "0");
    assert_eq!(decimal_string(7), "7");
    assert_eq!(decimal_string(10), "10");
    assert_eq!(decimal_string(48000), "48000");
    assert_eq!(decimal_string(u32::MAX), "4294967295");
}

#[test]
fn null_device_name_is_rejected() {
    assert_eq!(decode_device_name(None), Err(AudioError::NullDeviceName));
}

#[test]
fn badly_encoded_device_name_is_rejected() {
    let raw: [u8; 2] = [0xC3, 0x28];
    assert_eq!(decode_device_name(Some(&raw[..])), Err(AudioError::InvalidDeviceName));
}

#[test]
fn well_encoded_device_name_is_decoded() {
    let raw = "Mikrofon \u{00e4}".as_bytes();
    assert_eq!(decode_device_name(Some(raw)), Ok(String::from("Mikrofon \u{00e4}")));
}
