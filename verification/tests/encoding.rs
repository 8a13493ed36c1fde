use eventlog::{encode_record, encode_wide, encode_wide_terminated};

#[test]
fn empty_string_encodes_to_nothing() {
    assert_eq!(encode_wide(""), Vec::<u16>::new());
    assert_eq!(encode_wide_terminated(""), vec![0u16]);
}

#[test]
fn ascii_encodes_one_unit_per_character() {
    assert_eq!(encode_wide("Ab0"), vec![0x41u16, 0x62, 0x30]);
    assert_eq!(encode_wide_terminated("A"), vec![0x41u16, 0x00]);
}

#[test]
fn basic_plane_character_encodes_to_one_unit() {
    assert_eq!(encode_wide("\u{20AC}"), vec![0x20ACu16]);
}

#[test]
fn supplementary_character_encodes_to_surrogate_pair() {
    assert_eq!(encode_wide("\u{1D11E}"), vec![0xD834u16, 0xDD1E]);
    assert_eq!(encode_wide("a\u{10FFFF}"), vec![0x61u16, 0xDBFF, 0xDFFF]);
}

#[test]
fn record_buffer_carries_both_terminators() {
    assert_eq!(encode_record("hi"), vec![0x68u16, 0x69, 0x00, 0x00]);
    assert_eq!(encode_record(""), vec![0x00u16, 0x00]);
}
