use nx::version::Version;

#[test]
fn rank_orders_by_major_then_minor_then_micro() {
    assert_eq!(Version::new(0, 0, 0).get_rank(), 0);
    assert_eq!(Version::new(1, 2, 3).get_rank(), 65536 + 2 * 256 + 3);
    assert_eq!(Version::new(255, 255, 255).get_rank(), 0xff_ffff);
    assert!(Version::new(1, 255, 255).lt(&Version::new(2, 0, 0)));
    assert!(Version::new(2, 0, 255).lt(&Version::new(2, 1, 0)));
    assert!(Version::new(2, 1, 0).lt(&Version::new(2, 1, 1)));
    assert!(!Version::new(2, 1, 1).lt(&Version::new(2, 1, 1)));
    assert!(Version::new(2, 1, 1).le(&Version::new(2, 1, 1)));
    assert!(!Version::new(3, 0, 0).le(&Version::new(2, 9, 9)));
}

#[test]
fn equal_versions_are_equal_values() {
    assert_eq!(Version::new(4, 1, 0), Version { major: 4, minor: 1, micro: 0 });
    assert_ne!(Version::new(4, 1, 0), Version::new(4, 0, 1));
}

#[test]
fn versions_compare_as_their_ranks_do() {
    let all = [
        Version::new(0, 0, 0),
        Version::new(0, 0, 1),
        Version::new(0, 1, 0),
        Version::new(1, 0, 0),
        Version::new(1, 0, 255),
        Version::new(1, 1, 0),
        Version::new(255, 255, 255),
    ];
    for a in all {
        for b in all {
            assert_eq!(a < b, a.lt(&b));
            assert_eq!(a <= b, a.le(&b));
            assert_eq!(a < b, a.get_rank() < b.get_rank());
        }
    }
}
