use toaster::utf16::{decode_lossy, encode};
use toaster::wstring::get_wide_string;
use toaster::{WideString, WideStringError};

fn std_units(text: &str) -> Vec<u16> {
    text.encode_utf16().collect()
}

#[test]
fn from_str_appends_one_terminator() {
    let buffer = WideString::from_str("Hi");
    assert_eq!(buffer.ptr(), &[0x48, 0x69, 0]);
}

#[test]
fn from_str_of_empty_text_is_the_terminator_alone() {
    let buffer = WideString::from_str("");
    assert_eq!(buffer.ptr(), &[0]);
}

#[test]
fn from_str_length_is_encoded_length_plus_one() {
    for text in ["", "a", "Toaster.lnk", "h\u{e9}llo", "\u{1F35E} toast", "\u{10FFFF}\u{10000}"] {
        let buffer = WideString::from_str(text);
        let units = buffer.ptr();
        assert_eq!(units.len(), std_units(text).len() + 1);
        assert_eq!(units[units.len() - 1], 0);
        assert_eq!(&units[..units.len() - 1], std_units(text).as_slice());
    }
}

#[test]
fn get_wide_string_is_the_encoding_and_a_zero() {
    assert_eq!(get_wide_string("A\u{20AC}"), vec![0x41, 0x20AC, 0]);
}

#[test]
fn encode_keeps_bmp_characters_as_one_unit() {
    assert_eq!(encode("A"), vec![0x0041]);
    assert_eq!(encode("\u{D7FF}"), vec![0xD7FF]);
    assert_eq!(encode("\u{E000}"), vec![0xE000]);
    assert_eq!(encode("\u{FFFF}"), vec![0xFFFF]);
    assert_eq!(encode("\u{0}"), vec![0]);
}

#[test]
fn encode_splits_supplementary_characters_into_surrogates() {
    assert_eq!(encode("\u{10000}"), vec![0xD800, 0xDC00]);
    assert_eq!(encode("\u{1F35E}"), vec![0xD83C, 0xDF5E]);
    assert_eq!(encode("\u{10FFFF}"), vec![0xDBFF, 0xDFFF]);
    assert_eq!(encode("\u{1D11E}"), vec![0xD834, 0xDD1E]);
}

#[test]
fn encode_agrees_with_the_standard_library() {
    for text in ["", "plain", "C:\\Users\\me\\toast.exe", "\u{7FF}\u{800}", "a\u{10437}b\u{24B62}c"] {
        assert_eq!(encode(text), std_units(text));
    }
}

#[test]
fn with_size_is_all_zero() {
    let buffer = WideString::with_size(5);
    assert_eq!(buffer.ptr(), &[0, 0, 0, 0, 0]);
}

#[test]
fn with_size_zero_is_empty() {
    let buffer = WideString::with_size(0);
    assert!(buffer.ptr().is_empty());
}

#[test]
fn default_is_empty() {
    let buffer = WideString::default();
    assert!(buffer.ptr().is_empty());
    assert_eq!(buffer.to_string(), "");
}

#[test]
fn from_str_with_size_pads_with_zeros() {
    let buffer = WideString::from_str_with_size("abc", 8).unwrap();
    assert_eq!(buffer.ptr(), &[0x61, 0x62, 0x63, 0, 0, 0, 0, 0]);
}

#[test]
fn from_str_with_size_prefix_decodes_to_the_text() {
    let text = "Start Menu \u{1F35E}";
    let encoded = std_units(text).len();
    let buffer = WideString::from_str_with_size(text, 256).unwrap();
    let units = buffer.ptr();
    assert_eq!(units.len(), 256);
    assert_eq!(decode_lossy(&units[..encoded]), text);
    assert!(units[encoded..].iter().all(|unit| *unit == 0));
}

#[test]
fn from_str_with_size_accepts_the_smallest_size_with_room() {
    let buffer = WideString::from_str_with_size("abc", 4).unwrap();
    assert_eq!(buffer.ptr(), WideString::from_str("abc").ptr());
}

#[test]
fn from_str_with_size_rejects_a_size_without_room_for_the_terminator() {
    assert_eq!(
        WideString::from_str_with_size("abc", 3).err(),
        Some(WideStringError::InvalidArgument)
    );
}

#[test]
fn from_str_with_size_rejects_a_size_shorter_than_the_text() {
    assert_eq!(
        WideString::from_str_with_size("abc", 1).err(),
        Some(WideStringError::InvalidArgument)
    );
    assert_eq!(
        WideString::from_str_with_size("", 0).err(),
        Some(WideStringError::InvalidArgument)
    );
}

#[test]
fn from_str_with_size_counts_units_not_characters() {
    // One character, two code units: three units are needed with the terminator.
    assert!(WideString::from_str_with_size("\u{1F35E}", 2).is_err());
    let buffer = WideString::from_str_with_size("\u{1F35E}", 3).unwrap();
    assert_eq!(buffer.ptr(), &[0xD83C, 0xDF5E, 0]);
}

#[test]
fn from_str_with_size_of_empty_text() {
    let buffer = WideString::from_str_with_size("", 2).unwrap();
    assert_eq!(buffer.ptr(), &[0, 0]);
}

#[test]
fn mut_ptr_writes_in_place() {
    let mut buffer = WideString::with_size(4);
    {
        let units = buffer.mut_ptr();
        assert_eq!(units.len(), 4);
        units[0] = 0x4F;
        units[1] = 0x4B;
    }
    assert_eq!(buffer.ptr(), &[0x4F, 0x4B, 0, 0]);
    assert_eq!(buffer.to_string(), "OK\0\0");
}

#[test]
fn mut_ptr_starts_with_the_buffer_contents() {
    let mut buffer = WideString::from_str("ab");
    assert_eq!(buffer.mut_ptr(), &mut [0x61, 0x62, 0]);
}

#[test]
fn to_string_decodes_the_whole_buffer() {
    assert_eq!(WideString::from_str("toast").to_string(), "toast\0");
    assert_eq!(
        WideString::from_str_with_size("toast", 8).unwrap().to_string(),
        "toast\0\0\0"
    );
}

#[test]
fn decode_is_the_inverse_of_encode() {
    for text in ["", "Hello!", "na\u{ef}ve", "\u{FFFD}", "\u{10000}\u{FFFF}\u{10FFFF}", "a\0b"] {
        assert_eq!(decode_lossy(&encode(text)), text);
    }
}

#[test]
fn decode_replaces_a_lone_low_surrogate() {
    assert_eq!(decode_lossy(&[0x61, 0xDC00, 0x62]), "a\u{FFFD}b");
}

#[test]
fn decode_replaces_a_lone_high_surrogate() {
    assert_eq!(decode_lossy(&[0xD800]), "\u{FFFD}");
    assert_eq!(decode_lossy(&[0xD800, 0x61]), "\u{FFFD}a");
}

#[test]
fn decode_replaces_each_of_two_high_surrogates_and_pairs_the_second() {
    assert_eq!(decode_lossy(&[0xD834, 0xD834, 0xDD1E]), "\u{FFFD}\u{1D11E}");
    assert_eq!(decode_lossy(&[0xD834, 0xD834]), "\u{FFFD}\u{FFFD}");
}

#[test]
fn decode_replaces_surrogates_in_the_wrong_order() {
    assert_eq!(decode_lossy(&[0xDD1E, 0xD834]), "\u{FFFD}\u{FFFD}");
}

#[test]
fn decode_combines_surrogate_pairs() {
    assert_eq!(decode_lossy(&[0xD800, 0xDC00]), "\u{10000}");
    assert_eq!(decode_lossy(&[0xDBFF, 0xDFFF]), "\u{10FFFF}");
    assert_eq!(decode_lossy(&[0xD83C, 0xDF5E]), "\u{1F35E}");
}

#[test]
fn decode_agrees_with_the_standard_library() {
    let samples: [&[u16]; 6] = [
        &[],
        &[0xD834, 0xDD1E, 0x006d, 0x0075, 0xD800, 0x0069, 0x0063],
        &[0xDFFF, 0xDBFF, 0xDFFF, 0xD7FF, 0xE000],
        &[0, 0, 0x41, 0],
        &[0xDBFF, 0xDBFF, 0xDC00, 0xDC00],
        &[0xFFFF, 0xFFFE, 0xD800],
    ];
    for units in samples {
        assert_eq!(decode_lossy(units), String::from_utf16_lossy(units));
    }
}

#[test]
fn error_is_comparable_and_printable() {
    let error = WideStringError::InvalidArgument;
    assert_eq!(error, error.clone());
    assert_eq!(format!("{:?}", error), "InvalidArgument");
}

#[test]
fn from_str_keeps_a_nul_inside_the_text() {
    let buffer = WideString::from_str("a\0b");
    assert_eq!(buffer.ptr(), &[0x61, 0, 0x62, 0]);
}

#[test]
fn units_before_the_first_zero_decode_to_the_text() {
    for text in ["", "Toaster", "h\u{e9}llo w\u{f6}rld", "\u{1F35E}\u{1F35E}"] {
        let buffer = WideString::from_str_with_size(text, 32).unwrap();
        let units = buffer.ptr();
        let end = units.iter().position(|unit| *unit == 0).unwrap();
        assert_eq!(decode_lossy(&units[..end]), text);
        let exact = WideString::from_str(text);
        let units = exact.ptr();
        let end = units.iter().position(|unit| *unit == 0).unwrap();
        assert_eq!(end, units.len() - 1);
        assert_eq!(decode_lossy(&units[..end]), text);
    }
}
