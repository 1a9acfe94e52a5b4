use vcpu::cpu::{Cpu, CpuFault, CpuFlag, MEMORY_SIZE};
use vcpu::iset::{Instruction, OperandType, OperandValue, Register};

fn write_word(cpu: &mut Cpu, addr: u64, value: u64) {
    let bytes = Instruction::split_number(value);
    cpu.set_mem_slice(addr, bytes.as_slice());
}

fn read_word(cpu: &Cpu, addr: u64) -> u64 {
    let mut w: u64 = 0;
    for i in 0..8 {
        w = w << 8 | cpu.get_mem(addr + i) as u64;
    }
    w
}

fn run_to_halt(cpu: &mut Cpu) {
    while !cpu.get_flag(CpuFlag::Halt) {
        cpu.next_instruction().unwrap();
    }
}

#[test]
fn scenario_a_subtract_program() {
    let program = vec![
        Instruction::Mov(
            (OperandType::Immediate, OperandValue::Imm(12)),
            (OperandType::Register, OperandValue::Reg(Register::Rax)),
        ),
        Instruction::Mov(
            (OperandType::Immediate, OperandValue::Imm(7)),
            (OperandType::Register, OperandValue::Reg(Register::Rbx)),
        ),
        Instruction::Sub(
            (OperandType::Register, OperandValue::Reg(Register::Rax)),
            (OperandType::Register, OperandValue::Reg(Register::Rbx)),
        ),
        Instruction::Hlt,
    ];
    let mut cpu = Cpu::new();
    cpu.rsp = cpu.load_program(program);
    cpu.rbp = cpu.rsp;
    run_to_halt(&mut cpu);
    assert_eq!(cpu.rax, 12);
    assert_eq!(cpu.rbx, 0xFFFFFFFFFFFFFFFB);
    assert!(cpu.get_flag(CpuFlag::Halt));
}

#[test]
fn scenario_b_counter_at_program_end() {
    let program = vec![
        Instruction::Mov(
            (OperandType::Immediate, OperandValue::Imm(5)),
            (OperandType::Register, OperandValue::Reg(Register::Rax)),
        ),
        Instruction::Hlt,
    ];
    let mut cpu = Cpu::new();
    let size = cpu.load_program(program);
    assert_eq!(size, 12); // opcode + mode + selector + 8 immediate bytes, + 1 for halt
    run_to_halt(&mut cpu);
    assert_eq!(cpu.rax, 5);
    assert_eq!(cpu.rip, size);
}

#[test]
fn unknown_opcode_faults_without_mutation() {
    let mut cpu = Cpu::new();
    cpu.set_mem(0, 0xFF);
    cpu.rax = 77;
    let r = cpu.next_instruction();
    assert_eq!(r, Err(CpuFault::DecodeFault));
    assert_eq!(cpu.rip, 0);
    assert_eq!(cpu.rax, 77);
    assert_eq!(cpu.flags, 0);
    assert_eq!(cpu.get_mem(0), 0xFF);
}

#[test]
fn unknown_mode_nibble_faults() {
    let mut cpu = Cpu::new();
    cpu.set_mem(0, 0x02);
    cpu.set_mem(1, 0x00); // nibble 0b0000 is not a recognized combination
    let r = cpu.next_instruction();
    assert_eq!(r, Err(CpuFault::DecodeFault));
    assert_eq!(cpu.rip, 0);
}

#[test]
fn unknown_complement_mode_faults() {
    let mut cpu = Cpu::new();
    cpu.set_mem(0, 0x05);
    cpu.set_mem(1, 0x00); // selector bits 0b00 are not recognized
    let r = cpu.next_instruction();
    assert_eq!(r, Err(CpuFault::DecodeFault));
    assert_eq!(cpu.rip, 0);
}

#[test]
fn register_code_nine_faults_without_mutation() {
    let mut cpu = Cpu::new();
    // move-immediate-to-register whose selector names register code 9
    cpu.set_mem(0, 0x02);
    cpu.set_mem(1, 0x04);
    cpu.set_mem(2, 0x09);
    write_word(&mut cpu, 3, 1234);
    let r = cpu.next_instruction();
    assert_eq!(r, Err(CpuFault::RegisterFault));
    assert_eq!(cpu.rip, 0);
    assert_eq!(cpu.rax, 0);
    assert_eq!(cpu.rbx, 0);
}

#[test]
fn counter_beyond_memory_faults() {
    let mut cpu = Cpu::new();
    cpu.rip = MEMORY_SIZE as u64;
    assert_eq!(cpu.next_instruction(), Err(CpuFault::OutOfBoundsFault));
    assert_eq!(cpu.rip, MEMORY_SIZE as u64);
}

#[test]
fn truncated_instruction_at_memory_end_faults() {
    let mut cpu = Cpu::new();
    let last = MEMORY_SIZE as u64 - 1;
    cpu.set_mem(last, 0x02);
    cpu.rip = last;
    assert_eq!(cpu.next_instruction(), Err(CpuFault::OutOfBoundsFault));
    assert_eq!(cpu.rip, last);
}

#[test]
fn word_store_beyond_memory_faults() {
    let mut cpu = Cpu::new();
    // word to memory at an immediate address too close to the end
    cpu.set_mem(0, 0x02);
    cpu.set_mem(1, 0x01);
    cpu.set_mem(2, 0x00);
    write_word(&mut cpu, 3, 0xAA);
    write_word(&mut cpu, 11, MEMORY_SIZE as u64 - 4);
    assert_eq!(cpu.next_instruction(), Err(CpuFault::OutOfBoundsFault));
    assert_eq!(cpu.rip, 0);
}

#[test]
fn nop_advances_counter_only() {
    let mut cpu = Cpu::new();
    cpu.next_instruction().unwrap();
    assert_eq!(cpu.rip, 1);
    assert_eq!(cpu.flags, 0);
    assert_eq!(cpu.rax, 0);
}

#[test]
fn halt_sets_flag_and_advances() {
    let mut cpu = Cpu::new();
    cpu.set_mem(0, 0x01);
    cpu.next_instruction().unwrap();
    assert_eq!(cpu.rip, 1);
    assert!(cpu.get_flag(CpuFlag::Halt));
    assert_eq!(cpu.flags, 0x01);
    // the flag is advisory: a further step still executes
    cpu.next_instruction().unwrap();
    assert_eq!(cpu.rip, 2);
}

#[test]
fn move_immediate_to_register() {
    let mut cpu = Cpu::new();
    cpu.set_mem(0, 0x02);
    cpu.set_mem(1, 0x04);
    cpu.set_mem(2, 0x01); // destination rbx
    write_word(&mut cpu, 3, 0xDEAD_BEEF_0102_0304);
    cpu.next_instruction().unwrap();
    assert_eq!(cpu.rbx, 0xDEAD_BEEF_0102_0304);
    assert_eq!(cpu.rip, 11);
    assert_eq!(cpu.flags, 0);
}

#[test]
fn move_register_to_register_copies_exactly() {
    let mut cpu = Cpu::new();
    cpu.set_mem(0, 0x02);
    cpu.set_mem(1, 0x0C);
    cpu.set_mem(2, 0x01); // source rax, destination rbx
    cpu.rax = 9876;
    cpu.rbx = 1;
    cpu.next_instruction().unwrap();
    assert_eq!(cpu.rbx, 9876);
    assert_eq!(cpu.rax, 9876);
    assert_eq!(cpu.rip, 3);
}

#[test]
fn move_word_to_memory_at_immediate_address() {
    let mut cpu = Cpu::new();
    cpu.set_mem(0, 0x02);
    cpu.set_mem(1, 0x01);
    cpu.set_mem(2, 0x00);
    write_word(&mut cpu, 3, 0x1122334455667788);
    write_word(&mut cpu, 11, 0x100);
    cpu.next_instruction().unwrap();
    assert_eq!(read_word(&cpu, 0x100), 0x1122334455667788);
    assert_eq!(cpu.rip, 19);
}

#[test]
fn move_memory_byte_to_register() {
    let mut cpu = Cpu::new();
    cpu.set_mem(0, 0x02);
    cpu.set_mem(1, 0x06);
    cpu.set_mem(2, 0x02); // destination rcx
    write_word(&mut cpu, 3, 0x200);
    cpu.set_mem(0x200, 0x7F);
    cpu.next_instruction().unwrap();
    assert_eq!(cpu.rcx, 0x7F); // one byte, not a full word
    assert_eq!(cpu.rip, 11);
}

#[test]
fn move_memory_byte_to_register_alternate_nibble() {
    let mut cpu = Cpu::new();
    cpu.set_mem(0, 0x02);
    cpu.set_mem(1, 0x09); // dispatches identically to 0b0110
    cpu.set_mem(2, 0x02);
    write_word(&mut cpu, 3, 0x200);
    cpu.set_mem(0x200, 0x7F);
    cpu.next_instruction().unwrap();
    assert_eq!(cpu.rcx, 0x7F);
    assert_eq!(cpu.rip, 11);
}

#[test]
fn move_immediate_to_memory_through_register() {
    let mut cpu = Cpu::new();
    cpu.set_mem(0, 0x02);
    cpu.set_mem(1, 0x05);
    cpu.set_mem(2, 0x01); // destination register rbx holds the address
    write_word(&mut cpu, 3, 0xA1B2C3D4E5F60708);
    cpu.rbx = 0x400;
    cpu.next_instruction().unwrap();
    assert_eq!(read_word(&cpu, 0x400), 0xA1B2C3D4E5F60708);
    assert_eq!(cpu.rbx, 0x400);
    assert_eq!(cpu.rip, 11);
}

#[test]
fn move_register_to_memory_through_register() {
    let mut cpu = Cpu::new();
    cpu.set_mem(0, 0x02);
    cpu.set_mem(1, 0x0D);
    cpu.set_mem(2, 0x01); // source rax, destination rbx holds the address
    cpu.rax = 0xCAFEF00DDEADBEEF;
    cpu.rbx = 0x300;
    cpu.next_instruction().unwrap();
    assert_eq!(read_word(&cpu, 0x300), 0xCAFEF00DDEADBEEF);
    assert_eq!(cpu.rip, 3);
}

#[test]
fn move_memory_byte_through_register_to_register() {
    let mut cpu = Cpu::new();
    cpu.set_mem(0, 0x02);
    cpu.set_mem(1, 0x0E);
    cpu.set_mem(2, 0x03); // source rax holds the address, destination rdx
    cpu.rax = 0x500;
    cpu.set_mem(0x500, 0x42);
    cpu.next_instruction().unwrap();
    assert_eq!(cpu.rdx, 0x42);
    assert_eq!(cpu.rip, 3);
}

#[test]
fn add_registers_wraps() {
    let mut cpu = Cpu::new();
    cpu.set_mem(0, 0x03);
    cpu.set_mem(1, 0x0C);
    cpu.set_mem(2, 0x01); // source rax, destination rbx
    cpu.rax = u64::MAX;
    cpu.rbx = 5;
    cpu.next_instruction().unwrap();
    assert_eq!(cpu.rbx, 4);
    assert_eq!(cpu.rax, u64::MAX);
    assert_eq!(cpu.flags, 0); // arithmetic updates no flag
}

#[test]
fn subtract_immediate_from_register() {
    let mut cpu = Cpu::new();
    cpu.set_mem(0, 0x04);
    cpu.set_mem(1, 0x04);
    cpu.set_mem(2, 0x01); // destination rbx
    write_word(&mut cpu, 3, 3);
    cpu.rbx = 10;
    cpu.next_instruction().unwrap();
    assert_eq!(cpu.rbx, 7);
    assert_eq!(cpu.rip, 11);
}

#[test]
fn subtract_wraps_below_zero() {
    let mut cpu = Cpu::new();
    cpu.set_mem(0, 0x04);
    cpu.set_mem(1, 0x0C);
    cpu.set_mem(2, 0x01); // source rax, destination rbx
    cpu.rax = 12;
    cpu.rbx = 7;
    cpu.next_instruction().unwrap();
    assert_eq!(cpu.rbx, 0xFFFFFFFFFFFFFFFB);
    assert_eq!(cpu.flags, 0);
}

#[test]
fn add_to_memory_reads_one_byte_writes_word() {
    let mut cpu = Cpu::new();
    cpu.set_mem(0, 0x03);
    cpu.set_mem(1, 0x01);
    cpu.set_mem(2, 0x00);
    write_word(&mut cpu, 3, 5);
    write_word(&mut cpu, 11, 0x100);
    write_word(&mut cpu, 0x100, 0x0202020202020202);
    cpu.next_instruction().unwrap();
    // the prior destination value is the single byte 0x02, not the word
    assert_eq!(read_word(&cpu, 0x100), 7);
    assert_eq!(cpu.rip, 19);
}

#[test]
fn add_through_register_stores_sum_at_sum() {
    let mut cpu = Cpu::new();
    cpu.set_mem(0, 0x03);
    cpu.set_mem(1, 0x05);
    cpu.set_mem(2, 0x01); // destination rbx
    write_word(&mut cpu, 3, 0x10);
    cpu.rbx = 0x500;
    cpu.next_instruction().unwrap();
    // the computed word is both the value stored and the address stored at
    assert_eq!(read_word(&cpu, 0x510), 0x510);
    assert_eq!(cpu.rbx, 0x500); // the register itself is not updated
    assert_eq!(cpu.rip, 11);
}

#[test]
fn complement_register_twice_restores() {
    let mut cpu = Cpu::new();
    cpu.set_mem(0, 0x05);
    cpu.set_mem(1, 0x20);
    cpu.set_mem(2, 0x00); // register rax
    cpu.rax = 0x0123456789ABCDEF;
    cpu.next_instruction().unwrap();
    assert_eq!(cpu.rax, !0x0123456789ABCDEFu64);
    assert_eq!(cpu.rip, 2);
    cpu.rip = 0;
    cpu.next_instruction().unwrap();
    assert_eq!(cpu.rax, 0x0123456789ABCDEF);
}

#[test]
fn complement_memory_byte_twice_restores() {
    let mut cpu = Cpu::new();
    cpu.set_mem(0, 0x05);
    cpu.set_mem(1, 0x10);
    write_word(&mut cpu, 2, 0x100);
    cpu.set_mem(0x100, 0xAB);
    cpu.next_instruction().unwrap();
    assert_eq!(cpu.get_mem(0x100), 0x54);
    assert_eq!(cpu.rip, 10);
    cpu.rip = 0;
    cpu.next_instruction().unwrap();
    assert_eq!(cpu.get_mem(0x100), 0xAB);
}

#[test]
fn complement_byte_through_register() {
    let mut cpu = Cpu::new();
    cpu.set_mem(0, 0x05);
    cpu.set_mem(1, 0x30);
    cpu.set_mem(2, 0x02); // register rcx holds the address
    cpu.rcx = 0x200;
    cpu.set_mem(0x200, 0x0F);
    cpu.next_instruction().unwrap();
    assert_eq!(cpu.get_mem(0x200), 0xF0);
    assert_eq!(cpu.rip, 2);
    cpu.rip = 0;
    cpu.next_instruction().unwrap();
    assert_eq!(cpu.get_mem(0x200), 0x0F);
}

#[test]
fn second_complement_opcode_behaves_identically() {
    let mut cpu = Cpu::new();
    cpu.set_mem(0, 0x06);
    cpu.set_mem(1, 0x20);
    cpu.set_mem(2, 0x00); // register rax
    cpu.rax = 7;
    cpu.next_instruction().unwrap();
    assert_eq!(cpu.rax, !7u64);
    assert_eq!(cpu.rip, 2);
}

#[test]
fn complement_invalid_register_faults() {
    let mut cpu = Cpu::new();
    cpu.set_mem(0, 0x05);
    cpu.set_mem(1, 0x20);
    cpu.set_mem(2, 0x0B); // register code 11 is out of range
    assert_eq!(cpu.next_instruction(), Err(CpuFault::RegisterFault));
    assert_eq!(cpu.rip, 0);
}

#[test]
fn flags_accumulate_and_never_clear() {
    let mut cpu = Cpu::new();
    cpu.set_flag(CpuFlag::Zero, true);
    assert!(cpu.get_flag(CpuFlag::Zero));
    assert!(!cpu.get_flag(CpuFlag::Carry));
    cpu.set_flag(CpuFlag::Zero, false); // setting false leaves the byte alone
    assert!(cpu.get_flag(CpuFlag::Zero));
    cpu.set_flag(CpuFlag::Carry, true);
    assert_eq!(cpu.flags, 0x18);
    cpu.set_flag(CpuFlag::Overflow, true);
    cpu.set_flag(CpuFlag::Negative, true);
    cpu.set_flag(CpuFlag::Halt, true);
    assert_eq!(cpu.flags, 0x1F);
}

#[test]
fn register_codes_map_to_slots() {
    let mut cpu = Cpu::new();
    cpu.rax = 10;
    cpu.rbx = 11;
    cpu.rcx = 12;
    cpu.rdx = 13;
    cpu.rbp = 14;
    cpu.rsp = 15;
    cpu.rip = 16;
    for code in 0..7u8 {
        assert_eq!(cpu.reg_value(code), 10 + code as u64);
    }
    *cpu.reg_code(2) = 99;
    assert_eq!(cpu.rcx, 99);
    assert_eq!(cpu.reg_value(2), 99);
}

#[test]
fn memory_bytes_read_back() {
    let mut cpu = Cpu::new();
    assert_eq!(cpu.get_mem(1234), 0);
    cpu.set_mem(1234, 0x5A);
    assert_eq!(cpu.get_mem(1234), 0x5A);
    cpu.set_mem_slice(5, &[1, 2, 3]);
    assert_eq!(cpu.get_mem(4), 0);
    assert_eq!(cpu.get_mem(5), 1);
    assert_eq!(cpu.get_mem(6), 2);
    assert_eq!(cpu.get_mem(7), 3);
    assert_eq!(cpu.get_mem(8), 0);
}

#[test]
fn fresh_cpu_is_zeroed() {
    let cpu = Cpu::new();
    assert_eq!(cpu.rax, 0);
    assert_eq!(cpu.rbx, 0);
    assert_eq!(cpu.rcx, 0);
    assert_eq!(cpu.rdx, 0);
    assert_eq!(cpu.rbp, 0);
    assert_eq!(cpu.rsp, 0);
    assert_eq!(cpu.rip, 0);
    assert_eq!(cpu.flags, 0);
    assert_eq!(cpu.get_mem(0), 0);
    assert_eq!(cpu.get_mem(MEMORY_SIZE as u64 - 1), 0);
}
