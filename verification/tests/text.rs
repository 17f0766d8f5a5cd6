use nx::ipc::message::BufferDescriptor;
use nx::ipc::sf::{
    attribute_has, is_valid_attribute, read_text, transfer_mode, Buffer, InAutoSelectBuffer,
    InMapAliasBuffer, InNonSecureMapAliasBuffer, InPointerBuffer, OutMapAliasBuffer,
    OutNonSecureMapAliasBuffer, TransferMode, ATTR_ALLOW_NON_SECURE, ATTR_IN, ATTR_MAP_ALIAS,
    ATTR_OUT, ATTR_POINTER,
};

#[test]
fn text_longer_than_the_buffer_is_cut_before_the_terminator() {
    let mut memory = [0xffu8; 8];
    let mut buffer = OutMapAliasBuffer::from_mut(0x1000, 8);
    buffer.set_string(&mut memory, String::from("abcdefghij"));
    assert_eq!(&memory, b"abcdefg\0");
    assert_eq!(buffer.get_string(&memory), "abcdefg");
    assert_eq!(buffer, OutMapAliasBuffer::from_mut(0x1000, 8));
}

#[test]
fn writing_never_leaves_the_region() {
    let mut memory = [0xeeu8; 12];
    let mut buffer = OutMapAliasBuffer::from_mut(0x1000, 8);
    buffer.set_string(&mut memory, String::from("abcdefghijklmnop"));
    assert_eq!(&memory[..8], b"abcdefg\0");
    assert_eq!(&memory[8..], &[0xee; 4]);
}

#[test]
fn short_text_is_followed_by_zeros_to_the_end() {
    let mut memory = [0xffu8; 8];
    let mut buffer = OutMapAliasBuffer::from_mut(0x1000, 8);
    buffer.set_string(&mut memory, String::from("hi"));
    assert_eq!(memory, [b'h', b'i', 0, 0, 0, 0, 0, 0]);
    assert_eq!(buffer.get_string(&memory), "hi");
    buffer.set_string(&mut memory, String::new());
    assert_eq!(memory, [0; 8]);
    assert_eq!(buffer.get_string(&memory), "");
}

#[test]
fn text_that_fills_all_but_one_byte_fits() {
    let mut memory = [0xffu8; 4];
    let mut buffer = OutMapAliasBuffer::from_mut(0x1000, 4);
    buffer.set_string(&mut memory, String::from("abc"));
    assert_eq!(&memory, b"abc\0");
    buffer.set_string(&mut memory, String::from("abcd"));
    assert_eq!(&memory, b"abc\0");
}

#[test]
fn a_region_of_one_byte_holds_only_the_terminator() {
    let mut memory = [0xffu8; 1];
    let mut buffer = OutMapAliasBuffer::from_mut(0x1000, 1);
    buffer.set_string(&mut memory, String::from("x"));
    assert_eq!(memory, [0]);
    assert_eq!(buffer.get_string(&memory), "");
}

#[test]
fn an_empty_region_is_left_alone() {
    let mut memory = [0xffu8; 3];
    let mut buffer = OutMapAliasBuffer::new();
    buffer.set_string(&mut memory, String::from("abc"));
    assert_eq!(memory, [0xff; 3]);
    assert_eq!(buffer.get_string(&memory), "");
}

#[test]
fn reading_stops_at_the_first_zero_or_at_the_end() {
    assert_eq!(read_text(b"abc\0def\0"), "abc");
    assert_eq!(read_text(b"abc"), "abc");
    assert_eq!(read_text(b"\0abc"), "");
    assert_eq!(read_text(b""), "");
    let buffer = InMapAliasBuffer::from_const(0x2000, 2);
    assert_eq!(buffer.get_string(b"abcd"), "ab");
}

#[test]
fn each_byte_is_read_as_the_character_with_that_code() {
    let text = read_text(&[0x41, 0xe9, 0xff, 0x7f]);
    let chars: Vec<char> = text.chars().collect();
    assert_eq!(chars, vec!['A', '\u{e9}', '\u{ff}', '\u{7f}']);
}

#[test]
fn a_region_without_address_or_size_is_the_empty_region() {
    assert_eq!(InMapAliasBuffer::new(), Buffer { buf: 0, size: 0 });
    assert_eq!(InMapAliasBuffer::from_const(0, 16), Buffer { buf: 0, size: 0 });
    assert_eq!(InMapAliasBuffer::from_const(0x100, 0), Buffer { buf: 0, size: 0 });
    assert_eq!(InMapAliasBuffer::from_const(0x100, 16), Buffer { buf: 0x100, size: 16 });
    assert_eq!(OutMapAliasBuffer::from_mut(0x100, 16), Buffer { buf: 0x100, size: 16 });
    assert_eq!(OutMapAliasBuffer::from_mut(0, 1), Buffer { buf: 0, size: 0 });
}

#[test]
fn regions_of_values_and_arrays_have_their_size() {
    let value: u64 = 5;
    let array: [u16; 7] = [0; 7];
    let empty: [u32; 0] = [];
    assert_eq!(InMapAliasBuffer::from_var(0x40, &value), Buffer { buf: 0x40, size: 8 });
    assert_eq!(InMapAliasBuffer::from_var(0x40, &()), Buffer { buf: 0, size: 0 });
    assert_eq!(InMapAliasBuffer::from_array(0x80, &array), Buffer { buf: 0x80, size: 14 });
    assert_eq!(InMapAliasBuffer::from_array(0x80, &empty), Buffer { buf: 0, size: 0 });
    assert_eq!(InMapAliasBuffer::from_array(0x80, &array).element_count(2), 7);
    assert_eq!(InMapAliasBuffer::from_array(0x80, &array).element_count(4), 3);
}

#[test]
fn the_attribute_tag_travels_with_the_type() {
    let source = InMapAliasBuffer::from_const(0x100, 32);
    let other = OutNonSecureMapAliasBuffer::from_other(source);
    assert_eq!(other, Buffer { buf: 0x100, size: 32 });
    assert_eq!(source.attribute(), 5);
    assert_eq!(other.attribute(), 70);
    assert_eq!(InNonSecureMapAliasBuffer::new().attribute(), 69);
    assert_eq!(InPointerBuffer::new().attribute(), 9);
    assert_eq!(InAutoSelectBuffer::new().attribute(), 33);
    assert_eq!(
        other.descriptor(),
        BufferDescriptor { attribute: 70, address: 0x100, size: 32 }
    );
}

#[test]
fn attribute_flags_and_modes() {
    assert!(attribute_has(5, ATTR_IN));
    assert!(!attribute_has(5, ATTR_OUT));
    assert!(attribute_has(5, ATTR_MAP_ALIAS));
    assert!(attribute_has(70, ATTR_ALLOW_NON_SECURE));
    assert!(!attribute_has(70, ATTR_POINTER));
    assert!(!attribute_has(0xff, 0));
    assert!(attribute_has(0x80, 128));
    assert_eq!(transfer_mode(5), Some(TransferMode::MapAlias));
    assert_eq!(transfer_mode(9), Some(TransferMode::Pointer));
    assert_eq!(transfer_mode(34), Some(TransferMode::AutoSelect));
    assert_eq!(transfer_mode(1), None);
    assert_eq!(transfer_mode(12), None);
    assert!(is_valid_attribute(5));
    assert!(is_valid_attribute(70));
    assert!(!is_valid_attribute(4));
    assert!(!is_valid_attribute(13));
    assert!(!is_valid_attribute(0));
}
