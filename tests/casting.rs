use riscv_emulator::human_time;

#[test]
fn test_test_cmp_casting() {
    assert_eq!(1, u64::from(69.lt(&420)));
    assert_eq!(0, u64::from(69.lt(&42)));
}

#[test]
fn test_test_unsigned_signed_add() {
    let a: u64 = 100;
    let b: i64 = -5;
    let (c, _) = a.overflowing_add(b as u64);
    assert_eq!(95, c)
}

#[test]
fn cpu_test_cmp_casting() {
    assert_eq!(1, u64::from(69.lt(&420)));
    assert_eq!(0, u64::from(69.lt(&42)));
}

#[test]
fn cpu_test_unsigned_signed_add() {
    let a: u64 = 100;
    let b: i64 = -5;
    let (c, _) = a.overflowing_add(b as u64);
    assert_eq!(95, c)
}

#[test]
fn human_time_picks_the_unit() {
    assert_eq!(human_time(0), "0 ns");
    assert_eq!(human_time(999), "999 ns");
    assert_eq!(human_time(1_000), "1 µs");
    assert_eq!(human_time(1_500_000), "1 ms");
    assert_eq!(human_time(42_000_000_000), "42 s");
    assert_eq!(human_time(120_000_000_000), "120 s");
    assert_eq!(human_time(3_600_000_000_000), "3 m");
    assert_eq!(human_time(7_200_000_000_000_000), "7 h");
}
