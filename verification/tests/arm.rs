use nx::arm::{
    checked_ticks_to_nanoseconds, nanoseconds_to_ticks, ticks_to_nanoseconds, CpuRegister,
    FpuRegister, RegisterGroup, ThreadContext,
};

#[test]
fn cpu_register_halves() {
    let mut r = CpuRegister { reg: 0 };
    r.set_x(0x1234_5678_9abc_def0);
    assert_eq!(r.get_x(), 0x1234_5678_9abc_def0);
    assert_eq!(r.get_w(), 0x9abc_def0);
    assert_eq!(r.get_r(), 0x9abc_def0);
    r.set_w(7);
    assert_eq!(r.get_x(), 7);
    r.set_x(u64::MAX);
    r.set_r(0xffff_ffff);
    assert_eq!(r.get_x(), 0xffff_ffff);
    assert_eq!(r.get_w(), 0xffff_ffff);
}

#[test]
fn fpu_register_holds_all_128_bits() {
    let mut v = FpuRegister::default();
    assert_eq!(v.get_v(), 0);
    v.set_v(u128::MAX - 1);
    assert_eq!(v.get_v(), u128::MAX - 1);
}

#[test]
fn thread_context_starts_zeroed() {
    let ctx = ThreadContext::default();
    assert_eq!(ctx.gpu_gprs[28].get_x(), 0);
    assert_eq!(ctx.fpu_gprs[31].get_v(), 0);
    assert_eq!(ctx.sp, 0);
    assert_eq!(CpuRegister::default(), CpuRegister { reg: 0 });
}

#[test]
fn twelve_ticks_are_625_nanoseconds() {
    assert_eq!(ticks_to_nanoseconds(0), 0);
    assert_eq!(ticks_to_nanoseconds(1), 52);
    assert_eq!(ticks_to_nanoseconds(12), 625);
    assert_eq!(ticks_to_nanoseconds(19_200_000), 1_000_000_000);
    assert_eq!(nanoseconds_to_ticks(0), 0);
    assert_eq!(nanoseconds_to_ticks(52), 0);
    assert_eq!(nanoseconds_to_ticks(53), 1);
    assert_eq!(nanoseconds_to_ticks(625), 12);
    assert_eq!(nanoseconds_to_ticks(1_000_000_000), 19_200_000);
}

#[test]
fn conversions_do_not_wrap_on_large_values() {
    // The product with 625 does not fit 64 bits, the quotient does.
    let ticks: u64 = u64::MAX / 53;
    assert_eq!(ticks_to_nanoseconds(ticks) as u128, ticks as u128 * 625 / 12);
    assert_eq!(nanoseconds_to_ticks(u64::MAX) as u128, u64::MAX as u128 * 12 / 625);
}

#[test]
fn ticks_survive_the_round_trip_within_one_tick() {
    for ticks in [0u64, 1, 2, 11, 12, 13, 1000, 19_200_001, 1 << 40] {
        let back = nanoseconds_to_ticks(ticks_to_nanoseconds(ticks));
        assert!(back <= ticks && ticks - back <= 1);
    }
}

#[test]
fn a_span_too_long_for_64_bits_is_refused() {
    assert_eq!(checked_ticks_to_nanoseconds(12), Some(625));
    let last: u64 = 354_177_486_215_223_391;
    assert_eq!(checked_ticks_to_nanoseconds(last), Some(18_446_744_073_709_551_614));
    assert_eq!(ticks_to_nanoseconds(last), u64::MAX - 1);
    assert_eq!(checked_ticks_to_nanoseconds(last + 1), None);
    assert_eq!(checked_ticks_to_nanoseconds(u64::MAX), None);
}

#[test]
fn register_groups_are_the_low_four_bits() {
    assert_eq!(RegisterGroup::cpu_gprs().get(), 1);
    assert_eq!(RegisterGroup::cpu_sprs().get(), 2);
    assert_eq!(RegisterGroup::fpu_gprs().get(), 4);
    assert_eq!(RegisterGroup::fpu_sprs().get(), 8);
    let all = [
        RegisterGroup::cpu_gprs(),
        RegisterGroup::cpu_sprs(),
        RegisterGroup::fpu_gprs(),
        RegisterGroup::fpu_sprs(),
    ];
    for (i, a) in all.iter().enumerate() {
        for (j, b) in all.iter().enumerate() {
            assert_eq!(a.contains(*b), i == j);
        }
    }
    let cpu = RegisterGroup::cpu_gprs().union(RegisterGroup::cpu_sprs());
    assert_eq!(cpu, RegisterGroup::from(3));
    assert!(cpu.contains(RegisterGroup::cpu_sprs()));
    assert!(!cpu.contains(RegisterGroup::fpu_gprs()));
    assert_eq!(cpu.intersection(RegisterGroup::from(6)), RegisterGroup::cpu_sprs());
    assert!(!RegisterGroup::from(0).contains(RegisterGroup::from(15)));
    assert_eq!(RegisterGroup::from(0xffff_fff0).get(), 0xffff_fff0);
}
