use nx::wire::{
    push_bytes, push_u16, push_u32, push_u32s, push_u64, read_u16, read_u32, read_u32s, read_u64,
};

#[test]
fn integers_are_written_least_significant_byte_first() {
    let mut out = vec![0xaa];
    push_u16(&mut out, 0x0102);
    push_u32(&mut out, 0x0304_0506);
    push_u64(&mut out, 0x0708_090a_0b0c_0d0e);
    assert_eq!(
        out,
        vec![0xaa, 2, 1, 6, 5, 4, 3, 0x0e, 0x0d, 0x0c, 0x0b, 0x0a, 9, 8, 7]
    );
    assert_eq!(read_u16(&out, 1), 0x0102);
    assert_eq!(read_u32(&out, 3), 0x0304_0506);
    assert_eq!(read_u64(&out, 7), 0x0708_090a_0b0c_0d0e);
}

#[test]
fn extreme_values_survive() {
    let mut out = Vec::new();
    push_u16(&mut out, u16::MAX);
    push_u32(&mut out, u32::MAX);
    push_u64(&mut out, u64::MAX);
    push_u64(&mut out, 0);
    assert_eq!(read_u16(&out, 0), u16::MAX);
    assert_eq!(read_u32(&out, 2), u32::MAX);
    assert_eq!(read_u64(&out, 6), u64::MAX);
    assert_eq!(read_u64(&out, 14), 0);
}

#[test]
fn lists_are_written_in_order() {
    let mut out = vec![1, 2];
    push_u32s(&mut out, &vec![0x10, 0x2000, 0xffff_ffff]);
    push_bytes(&mut out, &[7, 8]);
    assert_eq!(out, vec![1, 2, 0x10, 0, 0, 0, 0, 0x20, 0, 0, 0xff, 0xff, 0xff, 0xff, 7, 8]);
    assert_eq!(read_u32s(&out, 2, 3), vec![0x10, 0x2000, 0xffff_ffff]);
    assert_eq!(read_u32s(&out, 2, 0), Vec::<u32>::new());
}
