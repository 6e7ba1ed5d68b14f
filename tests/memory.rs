use riscv_emulator::{Bus, CPUError, Dram, Memory};

#[test]
fn dram_starts_with_code_then_zeros() {
    let dram = Dram::with_code(&[1, 2, 3], 8);
    assert_eq!(dram.size(), 8);
    assert_eq!(dram.get_data(0..8).unwrap(), vec![1, 2, 3, 0, 0, 0, 0, 0]);
}

#[test]
fn dram_loads_are_little_endian() {
    let dram = Dram::with_code(&[0x78, 0x56, 0x34, 0x12, 0xF0, 0xDE, 0xBC, 0x9A], 16);
    assert_eq!(dram.load_u8(0), Ok(0x78));
    assert_eq!(dram.load_u16(0), Ok(0x5678));
    assert_eq!(dram.load_u32(0), Ok(0x1234_5678));
    assert_eq!(dram.load_u64(0), Ok(0x9ABC_DEF0_1234_5678));
    assert_eq!(dram.load_u128(0), Ok(0x9ABC_DEF0_1234_5678));
    assert_eq!(dram.load_u16(3), Ok(0xF012));
}

#[test]
fn dram_signed_loads_reinterpret() {
    let dram = Dram::with_code(&[0xFF, 0xFF, 0xFF, 0xFF, 0xFF, 0xFF, 0xFF, 0x80], 16);
    assert_eq!(dram.load_i8(0), Ok(-1));
    assert_eq!(dram.load_i16(0), Ok(-1));
    assert_eq!(dram.load_i32(0), Ok(-1));
    assert_eq!(dram.load_i64(0), Ok(i64::MIN + 0xFF_FFFF_FFFF_FFFF));
    assert_eq!(dram.load_i128(0), Ok(0x80FF_FFFF_FFFF_FFFF));
}

#[test]
fn dram_store_load_round_trip() {
    let mut dram = Dram::with_code(&[], 32);
    dram.store_u32(4, 0xDEAD_BEEF).unwrap();
    assert_eq!(dram.load_u32(4), Ok(0xDEAD_BEEF));
    assert_eq!(dram.get_data(4..8).unwrap(), vec![0xEF, 0xBE, 0xAD, 0xDE]);
    dram.store_i16(10, -2).unwrap();
    assert_eq!(dram.load_i16(10), Ok(-2));
    assert_eq!(dram.load_u16(10), Ok(0xFFFE));
    dram.store_u128(16, u128::MAX - 1).unwrap();
    assert_eq!(dram.load_u128(16), Ok(u128::MAX - 1));
    dram.store_i8(0, -128).unwrap();
    assert_eq!(dram.load_i8(0), Ok(-128));
    dram.store_i64(8, -3).unwrap();
    assert_eq!(dram.load_i64(8), Ok(-3));
    dram.store_u64(24, 7).unwrap();
    assert_eq!(dram.load_u64(24), Ok(7));
    dram.store_u8(31, 9).unwrap();
    assert_eq!(dram.load_u8(31), Ok(9));
    dram.store_i32(4, i32::MIN).unwrap();
    assert_eq!(dram.load_i32(4), Ok(i32::MIN));
    dram.store_u16(2, 0xABCD).unwrap();
    assert_eq!(dram.load_u16(2), Ok(0xABCD));
    dram.store_i128(16, -5).unwrap();
    assert_eq!(dram.load_i128(16), Ok(-5));
}

#[test]
fn dram_rejects_access_past_the_end() {
    let mut dram = Dram::with_code(&[], 8);
    assert_eq!(dram.load_u32(6), Err(CPUError::AddressNotMapped(9)));
    assert_eq!(dram.load_u8(8), Err(CPUError::AddressNotMapped(8)));
    assert_eq!(dram.store_u64(1, 5), Err(CPUError::AddressNotMapped(8)));
    assert_eq!(dram.get_data(0..8).unwrap(), vec![0; 8]);
    assert_eq!(dram.get_data(0..9), Err(CPUError::AddressNotMapped(9)));
    assert_eq!(dram.load_u16(u64::MAX), Err(CPUError::AddressNotMapped(0)));
}

fn two_region_bus() -> Bus {
    Bus::new(vec![
        (0x1000..0x1010, Dram::with_code(&[1, 2, 3, 4], 16)),
        (0x2000..0x2008, Dram::with_code(&[5, 6, 7, 8], 8)),
    ])
}

#[test]
fn bus_routes_by_address() {
    let bus = two_region_bus();
    assert_eq!(bus.load_u32(0x1000), Ok(0x0403_0201));
    assert_eq!(bus.load_u32(0x2000), Ok(0x0807_0605));
    assert_eq!(bus.load_u8(0x2003), Ok(8));
    assert_eq!(bus.size(), u64::MAX);
}

#[test]
fn bus_rejects_unmapped_addresses() {
    let mut bus = two_region_bus();
    assert_eq!(bus.load_u8(0x1010), Err(CPUError::AddressNotMapped(0x1010)));
    assert_eq!(bus.load_u8(0), Err(CPUError::AddressNotMapped(0)));
    assert_eq!(bus.store_u8(0x3000, 1), Err(CPUError::AddressNotMapped(0x3000)));
    // the device reports the last byte at its own offset
    assert_eq!(bus.load_u32(0x2006), Err(CPUError::AddressNotMapped(9)));
}

#[test]
fn bus_store_reaches_the_device() {
    let mut bus = two_region_bus();
    bus.store_u16(0x2002, 0xBEEF).unwrap();
    assert_eq!(bus.load_u16(0x2002), Ok(0xBEEF));
    assert_eq!(bus.get_data(0x2000..0x2004).unwrap(), vec![5, 6, 0xEF, 0xBE]);
    assert_eq!(bus.load_u32(0x1000), Ok(0x0403_0201));
    bus.store_i32(0x1004, -1).unwrap();
    assert_eq!(bus.load_i32(0x1004), Ok(-1));
    assert_eq!(bus.load_i8(0x1004), Ok(-1));
    assert_eq!(bus.load_u64(0x1000), Ok(0xFFFF_FFFF_0403_0201));
}

#[test]
fn bus_get_data_needs_a_mapped_start() {
    let bus = two_region_bus();
    assert_eq!(bus.get_data(0x3000..0x3001), Err(CPUError::AddressNotMapped(0x3000)));
    assert_eq!(bus.get_data(0x2000..0x2010), Err(CPUError::AddressNotMapped(0x10)));
}
