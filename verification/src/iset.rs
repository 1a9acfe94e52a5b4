//! The instruction set and its binary encoding.
//!
//! An instruction is encoded as an opcode byte followed, for the two-operand
//! instructions, by a mode byte, a register-selector byte and zero, one or two
//! big-endian word fields; the one-operand complement instructions carry a
//! single mode byte and at most one word field. The spec functions here define
//! that encoding exactly, and `to_bytes` is proved to produce it.

use vstd::prelude::*;

verus! {

use crate::cpu::Arch;

/// Whether an operand denotes a register, an immediate value, or a memory
/// location (whose address comes from the paired value).
#[derive(Debug, Copy, Clone, PartialEq, Eq)]
pub enum OperandType {
    Register,
    Immediate,
    Memory,
}

/// The seven register slots, identified in the encoding by codes 0 through 6.
#[derive(Debug, Copy, Clone)]
pub enum Register {
    Rax,
    Rbx,
    Rcx,
    Rdx,
    Rbp,
    Rsp,
    Rip,
}

/// The value half of an operand: an immediate word or a register name.
#[derive(Debug, Copy, Clone)]
pub enum OperandValue {
    Imm(Arch),
    Reg(Register),
}

pub type Operand = (OperandType, OperandValue);

/// The closed instruction set. `Inv` and `Not` are separately opcoded but
/// semantically identical one's-complement instructions.
#[derive(Debug, Copy, Clone)]
pub enum Instruction {
    Nop,
    Hlt,
    Mov(Operand, Operand),
    Add(Operand, Operand),
    Sub(Operand, Operand),
    Inv(Operand),
    Not(Operand),
}

pub type Program = Vec<Instruction>;

/// The 3-bit code that the selector and mode bytes carry for each register.
pub open spec fn spec_register_code(r: Register) -> u8 {
    match r {
        Register::Rax => 0,
        Register::Rbx => 1,
        Register::Rcx => 2,
        Register::Rdx => 3,
        Register::Rbp => 4,
        Register::Rsp => 5,
        Register::Rip => 6,
    }
}

pub fn register_code(r: Register) -> (c: u8)
    ensures
        c == spec_register_code(r),
{
    match r {
        Register::Rax => 0,
        Register::Rbx => 1,
        Register::Rcx => 2,
        Register::Rdx => 3,
        Register::Rbp => 4,
        Register::Rsp => 5,
        Register::Rip => 6,
    }
}

/// The eight bytes of a word in big-endian order, most significant first.
pub open spec fn word_bytes(n: Arch) -> Seq<u8> {
    seq![
        (n >> 56) as u8,
        (n >> 48) as u8,
        (n >> 40) as u8,
        (n >> 32) as u8,
        (n >> 24) as u8,
        (n >> 16) as u8,
        (n >> 8) as u8,
        n as u8,
    ]
}

/// 1 when the operand's value is a register, else 0.
pub open spec fn reg_bit(op: Operand) -> u8 {
    match op.1 {
        OperandValue::Reg(_) => 1,
        OperandValue::Imm(_) => 0,
    }
}

/// 1 when the operand's locational tag says memory, else 0.
pub open spec fn mem_bit(op: Operand) -> u8 {
    match op.0 {
        OperandType::Memory => 1,
        _ => 0,
    }
}

/// The register code an operand contributes to the selector byte: its
/// register's code when it names a register, else 0.
pub open spec fn reg_nibble(op: Operand) -> u8 {
    match op.1 {
        OperandValue::Reg(r) => spec_register_code(r),
        OperandValue::Imm(_) => 0,
    }
}

/// The big-endian word field an operand appends: its immediate's bytes when it
/// carries one, else nothing.
pub open spec fn op_field(op: Operand) -> Seq<u8> {
    match op.1 {
        OperandValue::Imm(x) => word_bytes(x),
        OperandValue::Reg(_) => Seq::empty(),
    }
}

/// The mode byte of a two-operand instruction: from high to low bit of the low
/// nibble, source-is-register, destination-is-register, source-is-memory,
/// destination-is-memory.
pub open spec fn mode_byte(src: Operand, dest: Operand) -> u8 {
    (reg_bit(src) << 3) | (reg_bit(dest) << 2) | (mem_bit(src) << 1) | mem_bit(dest)
}

/// The register-selector byte: source register code in the high nibble,
/// destination register code in the low nibble.
pub open spec fn selector_byte(src: Operand, dest: Operand) -> u8 {
    (reg_nibble(src) << 4) | reg_nibble(dest)
}

/// Mode byte, selector byte, then the word fields of the non-register
/// operands in source-then-destination order.
pub open spec fn two_operand_bytes(src: Operand, dest: Operand) -> Seq<u8> {
    seq![mode_byte(src, dest), selector_byte(src, dest)] + op_field(src) + op_field(dest)
}

/// The mode byte of a one-operand complement instruction.
pub open spec fn unary_mode_byte(op: Operand) -> u8 {
    (reg_bit(op) << 5) | (mem_bit(op) << 4) | (reg_nibble(op) << 4)
}

/// Mode byte, then the word field when the operand carries an immediate.
pub open spec fn unary_bytes(op: Operand) -> Seq<u8> {
    seq![unary_mode_byte(op)] + op_field(op)
}

/// The complete encoding of one instruction: opcode byte, then operand bytes.
pub open spec fn instruction_bytes(i: Instruction) -> Seq<u8> {
    match i {
        Instruction::Nop => seq![0x00u8],
        Instruction::Hlt => seq![0x01u8],
        Instruction::Mov(src, dest) => seq![0x02u8] + two_operand_bytes(src, dest),
        Instruction::Add(src, dest) => seq![0x03u8] + two_operand_bytes(src, dest),
        Instruction::Sub(src, dest) => seq![0x04u8] + two_operand_bytes(src, dest),
        Instruction::Inv(op) => seq![0x05u8] + unary_bytes(op),
        Instruction::Not(op) => seq![0x06u8] + unary_bytes(op),
    }
}

/// The concatenation of each instruction's encoding, in order.
pub open spec fn program_bytes(p: Seq<Instruction>) -> Seq<u8>
    decreases p.len(),
{
    if p.len() == 0 {
        Seq::empty()
    } else {
        program_bytes(p.drop_last()) + instruction_bytes(p.last())
    }
}

impl Instruction {
    /// Split a word into its eight big-endian bytes.
    pub fn split_number(n: Arch) -> (r: Vec<u8>)
        ensures
            r@ == word_bytes(n),
    {
        let mut bytes: Vec<u8> = Vec::new();
        bytes.push(#[verifier::truncate] ((n >> 56) as u8));
        bytes.push(#[verifier::truncate] ((n >> 48) as u8));
        bytes.push(#[verifier::truncate] ((n >> 40) as u8));
        bytes.push(#[verifier::truncate] ((n >> 32) as u8));
        bytes.push(#[verifier::truncate] ((n >> 24) as u8));
        bytes.push(#[verifier::truncate] ((n >> 16) as u8));
        bytes.push(#[verifier::truncate] ((n >> 8) as u8));
        bytes.push(#[verifier::truncate] (n as u8));
        proof {
            assert(bytes@ =~= word_bytes(n));
        }
        bytes
    }

    /// The mode and selector bytes followed by the word fields for a
    /// two-operand instruction.
    fn operand_bytes(src: Operand, dest: Operand) -> (r: Vec<u8>)
        ensures
            r@ == two_operand_bytes(src, dest),
    {
        let src_mem: u8 = match src.0 {
            OperandType::Memory => 1,
            _ => 0,
        };
        let dest_mem: u8 = match dest.0 {
            OperandType::Memory => 1,
            _ => 0,
        };
        let (src_is_reg, src_nib): (u8, u8) = match src.1 {
            OperandValue::Imm(_) => (0, 0),
            OperandValue::Reg(r) => (1, register_code(r)),
        };
        let (dest_is_reg, dest_nib): (u8, u8) = match dest.1 {
            OperandValue::Imm(_) => (0, 0),
            OperandValue::Reg(r) => (1, register_code(r)),
        };

        let first: u8 = (src_is_reg << 3) | (dest_is_reg << 2) | (src_mem << 1) | dest_mem;
        let second: u8 = (src_nib << 4) | dest_nib;

        let mut bytes: Vec<u8> = Vec::new();
        bytes.push(first);
        bytes.push(second);
        if let OperandValue::Imm(x) = src.1 {
            let mut field = Instruction::split_number(x);
            bytes.append(&mut field);
        }
        if let OperandValue::Imm(x) = dest.1 {
            let mut field = Instruction::split_number(x);
            bytes.append(&mut field);
        }
        proof {
            assert(bytes@ =~= two_operand_bytes(src, dest));
        }
        bytes
    }

    /// The mode byte of a one-operand complement instruction.
    fn unary_byte(op: Operand) -> (b: u8)
        ensures
            b == unary_mode_byte(op),
    {
        let mem: u8 = match op.0 {
            OperandType::Memory => 1,
            _ => 0,
        };
        let (is_reg, nib): (u8, u8) = match op.1 {
            OperandValue::Imm(_) => (0, 0),
            OperandValue::Reg(r) => (1, register_code(r)),
        };
        (is_reg << 5) | (mem << 4) | (nib << 4)
    }

    /// Encode this instruction into the byte sequence the engine consumes.
    pub fn to_bytes(&self) -> (r: Vec<u8>)
        ensures
            r@ == instruction_bytes(*self),
    {
        match *self {
            Self::Nop => {
                let mut bytes: Vec<u8> = Vec::new();
                bytes.push(0x00);
                proof {
                    assert(bytes@ =~= instruction_bytes(*self));
                }
                bytes
            },
            Self::Hlt => {
                let mut bytes: Vec<u8> = Vec::new();
                bytes.push(0x01);
                proof {
                    assert(bytes@ =~= instruction_bytes(*self));
                }
                bytes
            },
            Self::Mov(src, dest) => {
                let mut bytes: Vec<u8> = Vec::new();
                bytes.push(0x02);
                let mut rest = Instruction::operand_bytes(src, dest);
                bytes.append(&mut rest);
                proof {
                    assert(bytes@ =~= instruction_bytes(*self));
                }
                bytes
            },
            Self::Add(src, dest) => {
                let mut bytes: Vec<u8> = Vec::new();
                bytes.push(0x03);
                let mut rest = Instruction::operand_bytes(src, dest);
                bytes.append(&mut rest);
                proof {
                    assert(bytes@ =~= instruction_bytes(*self));
                }
                bytes
            },
            Self::Sub(src, dest) => {
                let mut bytes: Vec<u8> = Vec::new();
                bytes.push(0x04);
                let mut rest = Instruction::operand_bytes(src, dest);
                bytes.append(&mut rest);
                proof {
                    assert(bytes@ =~= instruction_bytes(*self));
                }
                bytes
            },
            Self::Inv(op) => {
                let mut bytes: Vec<u8> = Vec::new();
                bytes.push(0x05);
                bytes.push(Instruction::unary_byte(op));
                if let OperandValue::Imm(x) = op.1 {
                    let mut field = Instruction::split_number(x);
                    bytes.append(&mut field);
                }
                proof {
                    assert(bytes@ =~= instruction_bytes(*self));
                }
                bytes
            },
            Self::Not(op) => {
                let mut bytes: Vec<u8> = Vec::new();
                bytes.push(0x06);
                bytes.push(Instruction::unary_byte(op));
                if let OperandValue::Imm(x) = op.1 {
                    let mut field = Instruction::split_number(x);
                    bytes.append(&mut field);
                }
                proof {
                    assert(bytes@ =~= instruction_bytes(*self));
                }
                bytes
            },
        }
    }

    /// Decode an opcode byte carrying no operands back into an instruction.
    pub fn from_byte(byte: u8) -> (r: Self)
        requires
            byte == 0x00 || byte == 0x01,
        ensures
            byte == 0x00 ==> r is Nop,
            byte == 0x01 ==> r is Hlt,
    {
        match byte {
            0x00 => Self::Nop,
            _ => Self::Hlt,
        }
    }
}

} // verus!
