use riscv_emulator::{Bus, CPUError, Dram, FloatExt, RegisterDump, DRAM_BASE, M, RV32I};

fn program(words: &[u32]) -> Vec<u8> {
    let mut bytes = Vec::new();
    for w in words {
        bytes.extend_from_slice(&w.to_le_bytes());
    }
    bytes
}

fn small_rv32i(words: &[u32], mul: Option<M>, float: Option<FloatExt>) -> RV32I {
    let end = DRAM_BASE + 0x1000;
    let bus = Bus::new(vec![(DRAM_BASE..end, Dram::with_code(&program(words), 0x1000))]);
    RV32I::new(bus, DRAM_BASE..end, float, mul)
}

// x1 = 0xFFFFFFFF, x2 = 0xFFFFFFFF, MUL x3, x1, x2, MULHU x4, x1, x2
const MUL_PROGRAM: [u32; 4] = [0xFFF0_0093, 0xFFF0_0113, 0x0220_81B3, 0x0220_B233];

#[test]
fn multiply_extension() {
    let mut cpu = small_rv32i(&MUL_PROGRAM, Some(M), None);
    for _ in 0..4 {
        cpu.cycle().unwrap();
    }
    assert_eq!(cpu.hart().registers()[3], 1);
    assert_eq!(cpu.hart().registers()[4], 0xFFFF_FFFE);
}

#[test]
fn multiply_needs_the_extension() {
    let mut cpu = small_rv32i(&MUL_PROGRAM, None, None);
    cpu.cycle().unwrap();
    cpu.cycle().unwrap();
    assert_eq!(cpu.cycle(), Err(CPUError::InstructionNotImplemented(0x0220_81B3)));
}

#[test]
fn divide_is_recognized_but_not_implemented() {
    // DIV x3, x1, x2
    let mut cpu = small_rv32i(&[0x0220_C1B3], Some(M), None);
    assert_eq!(cpu.cycle(), Err(CPUError::InstructionNotImplemented(0x0220_C1B3)));
}

#[test]
fn float_slot_passes_instructions_through() {
    // FLW f0, 0(x0) is not a base instruction
    let mut cpu = small_rv32i(&[0x0000_2007], None, Some(FloatExt::F));
    assert_eq!(cpu.cycle(), Err(CPUError::InstructionNotImplemented(0x0000_2007)));
    assert_eq!(cpu.hart().pc(), DRAM_BASE + 4);
}

#[test]
fn new_resets_to_the_mapping() {
    let cpu = small_rv32i(&[], None, None);
    assert_eq!(cpu.hart().pc(), DRAM_BASE);
    assert_eq!(cpu.hart().registers()[2], DRAM_BASE + 0x1000);
    assert_eq!(cpu.dump_memory().unwrap().len(), 0x1000);
}

#[test]
fn register_dump_mask() {
    let cpu = small_rv32i(&[], None, None);
    let mut actual = cpu.dump_registers();
    assert_eq!(actual.pc(), Some(DRAM_BASE));
    assert_eq!(actual.registers()[2], Some(DRAM_BASE + 0x1000));
    let mut expected = RegisterDump::uninitialized(32);
    expected.set_register(2, Some(DRAM_BASE + 0x1000));
    assert!(actual != expected);
    actual.apply_mask(&expected);
    assert_eq!(actual.pc(), None);
    assert_eq!(actual.registers()[0], None);
    assert!(actual == expected);
    expected.set_pc(Some(0));
    assert!(actual != expected);
}

#[test]
fn register_dump_new() {
    let dump = RegisterDump::new(7, &vec![0, 1, 2]);
    assert_eq!(dump.pc(), Some(7));
    assert_eq!(dump.registers(), &vec![Some(0), Some(1), Some(2)]);
    assert!(dump == RegisterDump::new(7, &vec![0, 1, 2]));
    assert!(dump != RegisterDump::new(7, &vec![0, 1, 3]));
    assert!(dump != RegisterDump::new(7, &vec![0, 1]));
}
