use nx::result::{
    invalid_handle, invalid_header, invalid_output, malformed_message, message_too_large,
    object_not_found, out_of_domain_entries, unknown_command, unsupported_operation, ResultCode,
};

#[test]
fn success_is_the_zero_word() {
    assert_eq!(ResultCode::success().get_value(), 0);
    assert!(ResultCode::success().is_success());
    assert!(!ResultCode::success().is_failure());
    assert!(ResultCode::new(0).is_success());
    assert!(ResultCode::new(1).is_failure());
}

#[test]
fn from_parts_packs_module_below_description() {
    let rc = ResultCode::from_parts(10, 221);
    assert_eq!(rc.get_value(), 10 + 512 * 221);
    assert_eq!(rc.get_value(), 113162);
    assert_eq!(rc.get_module(), 10);
    assert_eq!(rc.get_description(), 221);
}

#[test]
fn from_parts_reduces_each_part_to_its_field() {
    let rc = ResultCode::from_parts(512 + 3, 8192 + 7);
    assert_eq!(rc.get_module(), 3);
    assert_eq!(rc.get_description(), 7);
    assert_eq!(rc.get_value(), 3 + 512 * 7);
    let top = ResultCode::from_parts(511, 8191);
    assert_eq!(top.get_value(), 0x3f_ffff);
}

#[test]
fn parts_of_a_raw_word_ignore_the_high_bits() {
    let rc = ResultCode::new(0xffff_ffff);
    assert_eq!(rc.get_module(), 511);
    assert_eq!(rc.get_description(), 8191);
    assert_eq!(rc.get_value(), 0xffff_ffff);
}

#[test]
fn named_failures_have_their_module_and_description() {
    let all = [
        (invalid_handle(), 1, 114),
        (invalid_header(), 10, 211),
        (unknown_command(), 10, 221),
        (invalid_output(), 10, 232),
        (object_not_found(), 10, 261),
        (out_of_domain_entries(), 10, 301),
        (unsupported_operation(), 11, 1),
        (message_too_large(), 11, 2),
        (malformed_message(), 11, 3),
    ];
    for (rc, module, description) in all {
        assert!(rc.is_failure());
        assert_eq!(rc.get_module(), module);
        assert_eq!(rc.get_description(), description);
        assert_eq!(rc, ResultCode::from_parts(module, description));
    }
    for (i, (a, _, _)) in all.iter().enumerate() {
        for (j, (b, _, _)) in all.iter().enumerate() {
            assert_eq!(a == b, i == j);
        }
    }
}
