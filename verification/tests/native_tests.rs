use provenance::native::{NativeEncoding, NativePath, NativeString, NativeStringError};
use provenance::text::{hex32_string, parse_hex_u128, text_contains};

#[test]
fn display_text_replaces_invalid_sequences() {
    assert_eq!("f\u{FFFD}o", NativePath::from_unix_bytes(vec![0x66, 0x80, 0x6f]).to_string_lossy());
    assert_eq!("A\u{FFFD}", NativePath::from_windows_wtf16(&[0x41, 0xd800]).to_string_lossy());
    assert_eq!("héllo", NativeString::from_unix_bytes("héllo".as_bytes().to_vec()).to_string_lossy());
}

#[test]
fn windows_text_needs_whole_code_units() {
    assert_eq!(
        Err(NativeStringError::OddWindowsByteLength { length: 3 }),
        NativeString::from_windows_wtf16_bytes(vec![1, 2, 3])
    );
    let s = NativeString::from_windows_wtf16_bytes(vec![0x41, 0x00]).expect("even");
    assert_eq!(NativeEncoding::WindowsWtf16LittleEndian, s.encoding());
    assert_eq!(&[0x41, 0x00], s.units());
    assert_eq!(
        "Windows WTF-16 byte length must be even; got 3",
        NativeStringError::OddWindowsByteLength { length: 3 }.message()
    );
    assert_eq!(&[0x41, 0x00, 0x00, 0xd8], NativePath::from_windows_wtf16(&[0x41, 0xd800]).units());
}

#[test]
fn identifiers_print_and_parse_as_fixed_hex() {
    assert_eq!("000000000000000000000000000000ff", hex32_string(255));
    assert_eq!(Some(255), parse_hex_u128("000000000000000000000000000000ff"));
    assert_eq!(Some(255), parse_hex_u128("+FF"));
    assert_eq!(None, parse_hex_u128(""));
    assert_eq!(None, parse_hex_u128("1g"));
    assert_eq!(None, parse_hex_u128("1000000000000000000000000000000000"));
    assert!(text_contains("a corrupt row", "corrupt"));
    assert!(!text_contains("corrup", "corrupt"));
    assert!(text_contains("x", ""));
}
