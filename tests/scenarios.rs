use riscv_emulator::{CPUError, HostCall, DRAM_BASE, DRAM_SIZE, RV32E, RV32I, RV64I};

fn program(words: &[u32]) -> Vec<u8> {
    let mut bytes = Vec::new();
    for w in words {
        bytes.extend_from_slice(&w.to_le_bytes());
    }
    bytes
}

fn run32(words: &[u32], cycles: usize) -> RV32I {
    let mut cpu = RV32I::with_code(&program(words), None);
    for _ in 0..cycles {
        cpu.cycle().unwrap();
    }
    cpu
}

fn run64(words: &[u32], cycles: usize) -> RV64I {
    let mut cpu = RV64I::with_code(&program(words), None);
    for _ in 0..cycles {
        cpu.cycle().unwrap();
    }
    cpu
}

#[test]
fn addi_from_reset() {
    let cpu = run32(&[0x02A0_0093], 1);
    assert_eq!(cpu.hart().registers()[1], 42);
    assert_eq!(cpu.hart().pc(), DRAM_BASE + 4);
}

#[test]
fn lui_loads_upper_immediate() {
    let cpu = run32(&[0x1234_52B7], 1);
    assert_eq!(cpu.hart().registers()[5], 0x1234_5000);
}

#[test]
fn jal_links_and_jumps() {
    let cpu = run32(&[0x0080_00EF], 1);
    assert_eq!(cpu.hart().registers()[1], DRAM_BASE + 4);
    assert_eq!(cpu.hart().pc(), DRAM_BASE + 8);
}

#[test]
fn store_word_then_load_word() {
    // x2 = DRAM_BASE + 0x100, x1 = 0xDEADBEEF, SW x1, 0(x2), LW x3, 0(x2)
    let cpu = run32(
        &[0x8000_0137, 0x1001_0113, 0xDEAD_C0B7, 0xEEF0_8093, 0x0011_2023, 0x0001_2183],
        6,
    );
    let regs = cpu.hart().registers();
    assert_eq!(regs[2], DRAM_BASE + 0x100);
    assert_eq!(regs[1], 0xDEAD_BEEF);
    assert_eq!(regs[3], regs[1]);
}

#[test]
fn blt_is_signed_and_bltu_is_not() {
    // x1 = -1, x2 = 1, then BLT x1, x2, +8
    let taken = run32(&[0xFFF0_0093, 0x0010_0113, 0x0020_C463], 3);
    assert_eq!(taken.hart().registers()[1], 0xFFFF_FFFF);
    assert_eq!(taken.hart().pc(), DRAM_BASE + 8 + 8);
    // the same with BLTU x1, x2, +8
    let not_taken = run32(&[0xFFF0_0093, 0x0010_0113, 0x0020_E463], 3);
    assert_eq!(not_taken.hart().pc(), DRAM_BASE + 12);
}

#[test]
fn addw_sign_extends() {
    // x1 = 1 << 31, x2 = 0, ADDW x3, x1, x2
    let cpu = run64(&[0x0010_0093, 0x01F0_9093, 0x0000_0113, 0x0020_81BB], 4);
    let regs = cpu.hart().registers();
    assert_eq!(regs[1], 0x0000_0000_8000_0000);
    assert_eq!(regs[3], 0xFFFF_FFFF_8000_0000);
}

#[test]
fn reset_state() {
    let cpu = RV32I::with_code(&[], None);
    assert_eq!(cpu.hart().pc(), DRAM_BASE);
    assert_eq!(cpu.hart().registers()[2], DRAM_BASE + DRAM_SIZE);
    assert_eq!(cpu.hart().registers()[0], 0);
    assert_eq!(cpu.hart().registers().len(), 32);
}

#[test]
fn x0_ignores_writes() {
    // ADDI x0, x0, 5
    let cpu = run32(&[0x0050_0013], 1);
    assert_eq!(cpu.hart().registers()[0], 0);
    assert_eq!(cpu.hart().pc(), DRAM_BASE + 4);
}

#[test]
fn halt_word_stops() {
    let mut cpu = RV32I::with_code(&program(&[0xFFFF_FFFF]), None);
    assert_eq!(cpu.cycle(), Err(CPUError::Halt));
}

#[test]
fn zero_word_is_not_implemented() {
    let mut cpu = RV32I::with_code(&[], None);
    assert_eq!(cpu.cycle(), Err(CPUError::InstructionNotImplemented(0)));
}

#[test]
fn ecall_is_not_implemented() {
    let mut cpu = RV32I::with_code(&program(&[0x0000_0073]), None);
    assert_eq!(cpu.cycle(), Err(CPUError::InstructionNotImplemented(0x73)));
}

#[test]
fn fetch_outside_memory_fails() {
    // JAL x0, -4 from DRAM_BASE leaves the mapped range
    let mut cpu = RV32I::with_code(&program(&[0xFFDF_F06F]), None);
    cpu.cycle().unwrap();
    assert_eq!(cpu.hart().pc(), DRAM_BASE - 4);
    assert_eq!(cpu.cycle(), Err(CPUError::AddressNotMapped(DRAM_BASE - 4)));
}

#[test]
fn load_outside_memory_fails() {
    // LW x3, 0(x0)
    let mut cpu = RV32I::with_code(&program(&[0x0000_2183]), None);
    assert_eq!(cpu.cycle(), Err(CPUError::AddressNotMapped(0)));
    assert_eq!(cpu.hart().registers()[3], 0);
}

#[test]
fn put_char_reaches_the_host() {
    // ADDI x10, x0, 0x41, then the print word
    let mut cpu = run32(&[0x0410_0513, 0xFFFF_FFFD], 2);
    assert_eq!(cpu.take_host_calls(), vec![HostCall::PutChar(0x41)]);
    assert_eq!(cpu.take_host_calls(), vec![]);
}

#[test]
fn dump_word_reaches_the_host() {
    let mut cpu = run32(&[0xFFFF_FFFE], 1);
    assert_eq!(cpu.take_host_calls(), vec![HostCall::DumpState]);
}

#[test]
fn rv32e_rejects_high_registers() {
    // ADDI x20, x0, 1
    let mut cpu = RV32E::with_code(&program(&[0x0010_0A13]), None);
    assert_eq!(cpu.cycle(), Err(CPUError::InstructionNotImplemented(0x0010_0A13)));
    let ok = {
        let mut cpu = RV32I::with_code(&program(&[0x0010_0A13]), None);
        cpu.cycle()
    };
    assert_eq!(ok, Ok(()));
}

#[test]
fn rv32e_has_sixteen_registers() {
    let cpu = RV32E::with_code(&[], None);
    assert_eq!(cpu.hart().registers().len(), 16);
    assert_eq!(cpu.dump_registers().registers().len(), 16);
}

#[test]
fn jalr_reads_rs1_before_writing_rd() {
    // LUI x1, 0x80000; JALR x1, 0(x1) where rd == rs1
    let cpu = run32(&[0x8000_00B7, 0x0000_80E7], 2);
    assert_eq!(cpu.hart().pc(), DRAM_BASE);
    assert_eq!(cpu.hart().registers()[1], DRAM_BASE + 8);
}

#[test]
fn beq_and_bne_are_complementary() {
    // BEQ x1, x1, +12 is taken; BNE x1, x1, +12 is not
    let beq = run32(&[0x0010_8663], 1);
    assert_eq!(beq.hart().pc(), DRAM_BASE + 12);
    let bne = run32(&[0x0010_9663], 1);
    assert_eq!(bne.hart().pc(), DRAM_BASE + 4);
}

#[test]
fn shift_amount_uses_low_bits() {
    // x1 = 1, x2 = 33, SLL x3, x1, x2 on RV32 shifts by 1
    let cpu = run32(&[0x0010_0093, 0x0210_0113, 0x0020_91B3], 3);
    assert_eq!(cpu.hart().registers()[3], 2);
}

#[test]
fn sra_keeps_the_sign() {
    // x1 = -1 (ADDI), x2 = 4, SRA x3, x1, x2
    let cpu = run32(&[0xFFF0_0093, 0x0040_0113, 0x4020_D1B3], 3);
    assert_eq!(cpu.hart().registers()[3], 0xFFFF_FFFF);
}

#[test]
fn negative_immediate_fills_the_register() {
    let cpu = run64(&[0xFFF0_0093], 1);
    assert_eq!(cpu.hart().registers()[1], u64::MAX);
}

#[test]
fn lui_sign_extends_on_rv64() {
    let cpu = run64(&[0x8000_0137], 1);
    assert_eq!(cpu.hart().registers()[2], 0xFFFF_FFFF_8000_0000);
}

#[test]
fn auipc_adds_to_its_own_address() {
    // AUIPC x6, 1
    let cpu = run32(&[0x0000_1317], 1);
    assert_eq!(cpu.hart().registers()[6], DRAM_BASE + 0x1000);
}

#[test]
fn load_byte_signed_and_unsigned() {
    // x2 = DRAM_BASE + 0x100, x1 = -1, SB x1, 0(x2), LB x3, 0(x2), LBU x4, 0(x2)
    let cpu = run32(
        &[0x8000_0137, 0x1001_0113, 0xFFF0_0093, 0x0011_0023, 0x0001_0183, 0x0001_4203],
        6,
    );
    assert_eq!(cpu.hart().registers()[3], 0xFFFF_FFFF);
    assert_eq!(cpu.hart().registers()[4], 0xFF);
}

#[test]
fn rv64_doubleword_round_trip() {
    // x2 = DRAM_BASE + 0x100 (LUI sign-extends, so build it from ADDI and SLLI),
    // x1 = -1, SD x1, 0(x2), LD x3, 0(x2)
    let cpu = run64(
        &[
            0x0010_0113, // ADDI x2, x0, 1
            0x01F1_1113, // SLLI x2, x2, 31
            0x1001_0113, // ADDI x2, x2, 0x100
            0xFFF0_0093, // ADDI x1, x0, -1
            0x0011_3023, // SD x1, 0(x2)
            0x0001_3183, // LD x3, 0(x2)
        ],
        6,
    );
    assert_eq!(cpu.hart().registers()[2], DRAM_BASE + 0x100);
    assert_eq!(cpu.hart().registers()[3], u64::MAX);
}

#[test]
fn rv64_wide_shift_immediate() {
    // x1 = 1, SLLI x1, x1, 40
    let cpu = run64(&[0x0010_0093, 0x0280_9093], 2);
    assert_eq!(cpu.hart().registers()[1], 1 << 40);
}

#[test]
fn sraiw_sign_extends() {
    // x1 = 1 << 31, SRAIW x3, x1, 4
    let cpu = run64(&[0x0010_0093, 0x01F0_9093, 0x4040_D19B], 3);
    assert_eq!(cpu.hart().registers()[3], 0xFFFF_FFFF_F800_0000);
}

#[test]
fn word_ops_are_rv64_only() {
    let mut cpu = RV32I::with_code(&program(&[0x0020_81BB]), None);
    assert_eq!(cpu.cycle(), Err(CPUError::InstructionNotImplemented(0x0020_81BB)));
}

#[test]
fn reset_restores_the_start() {
    let mut cpu = run32(&[0x02A0_0093], 1);
    cpu.reset();
    assert_eq!(cpu.hart().pc(), DRAM_BASE);
    assert_eq!(cpu.hart().registers()[1], 0);
    assert_eq!(cpu.hart().registers()[2], DRAM_BASE + DRAM_SIZE);
}

#[test]
fn memory_dump_holds_the_program() {
    let cpu = RV32I::with_code(&program(&[0x02A0_0093]), None);
    let data = cpu.dump_memory().unwrap();
    assert_eq!(data.len() as u64, DRAM_SIZE);
    assert_eq!(&data[..4], &[0x93, 0x00, 0xA0, 0x02]);
    assert_eq!(data[4], 0);
}
