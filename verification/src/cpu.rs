//! The CPU: register file, flag byte, flat byte memory, and the verified
//! fetch-decode-execute step.
//!
//! The abstract state of a CPU is a [`CpuView`]; the mathematical interpreter
//! [`step_spec`] defines what one step does to it, and
//! [`Cpu::next_instruction`] is proved to implement that interpreter exactly.
//!
//! The original design left memory accesses unchecked, relying on the host to
//! trap out-of-range addresses; this implementation closes that gap with an
//! explicit `OutOfBoundsFault`, checked before any state mutation, so a step
//! either completes in full or leaves the CPU untouched.

use vstd::prelude::*;

verus! {

use crate::iset::{Instruction, Program, word_bytes, program_bytes};
use vstd::wrapping::u64_specs;

/// The machine's native word: registers, immediates and addresses are all
/// 64-bit unsigned, and arithmetic wraps modulo 2^64.
pub type Arch = u64;

/// Fixed memory capacity in bytes: 16 MiB.
pub const MEMORY_SIZE: usize = 16 * 1024 * 1024;

/// A fatal condition: the step stops and the CPU is left unchanged.
#[derive(Debug, Copy, Clone, PartialEq, Eq)]
pub enum CpuFault {
    /// The opcode byte or a mode-byte dispatch value is not recognized.
    DecodeFault,
    /// A register code outside 0 through 6 was to be resolved.
    RegisterFault,
    /// A memory access would fall outside the fixed capacity.
    OutOfBoundsFault,
}

/// The five named flag bits of the flag byte. Only `Halt` is ever set by an
/// instruction; the other four are defined but carry no semantics.
#[derive(Debug, Copy, Clone)]
pub enum CpuFlag {
    Halt,
    Overflow,
    Negative,
    Zero,
    Carry,
}

/// The bit each flag occupies in the flag byte.
pub open spec fn spec_flag_mask(f: CpuFlag) -> u8 {
    match f {
        CpuFlag::Halt => 0x01,
        CpuFlag::Overflow => 0x02,
        CpuFlag::Negative => 0x04,
        CpuFlag::Zero => 0x08,
        CpuFlag::Carry => 0x10,
    }
}

pub fn flag_mask(f: CpuFlag) -> (m: u8)
    ensures
        m == spec_flag_mask(f),
{
    match f {
        CpuFlag::Halt => 0x01,
        CpuFlag::Overflow => 0x02,
        CpuFlag::Negative => 0x04,
        CpuFlag::Zero => 0x08,
        CpuFlag::Carry => 0x10,
    }
}

/// One CPU instance: seven word registers, a flag byte, and exclusively owned
/// memory of fixed capacity.
#[derive(Debug, Clone)]
pub struct Cpu {
    pub rax: Arch,
    pub rbx: Arch,
    pub rcx: Arch,
    pub rdx: Arch,
    pub rbp: Arch,
    pub rsp: Arch,
    pub rip: Arch,
    pub flags: u8,
    pub memory: Vec<u8>,
}

/// The abstract state of a CPU: the registers and flags as plain values and
/// the memory as a byte sequence.
#[verifier::ext_equal]
pub ghost struct CpuView {
    pub rax: u64,
    pub rbx: u64,
    pub rcx: u64,
    pub rdx: u64,
    pub rbp: u64,
    pub rsp: u64,
    pub rip: u64,
    pub flags: u8,
    pub mem: Seq<u8>,
}

impl CpuView {
    /// A well-formed state holds exactly the fixed memory capacity.
    pub open spec fn wf(self) -> bool {
        self.mem.len() == MEMORY_SIZE
    }
}

impl View for Cpu {
    type V = CpuView;

    open spec fn view(&self) -> CpuView {
        CpuView {
            rax: self.rax,
            rbx: self.rbx,
            rcx: self.rcx,
            rdx: self.rdx,
            rbp: self.rbp,
            rsp: self.rsp,
            rip: self.rip,
            flags: self.flags,
            mem: self.memory@,
        }
    }
}

/// The register a 3-bit code names, for codes 0 through 6.
pub open spec fn reg_of(s: CpuView, code: u8) -> u64 {
    if code == 0 {
        s.rax
    } else if code == 1 {
        s.rbx
    } else if code == 2 {
        s.rcx
    } else if code == 3 {
        s.rdx
    } else if code == 4 {
        s.rbp
    } else if code == 5 {
        s.rsp
    } else {
        s.rip
    }
}

/// The state with the register named by `code` replaced by `v`.
pub open spec fn with_reg(s: CpuView, code: u8, v: u64) -> CpuView {
    if code == 0 {
        CpuView { rax: v, ..s }
    } else if code == 1 {
        CpuView { rbx: v, ..s }
    } else if code == 2 {
        CpuView { rcx: v, ..s }
    } else if code == 3 {
        CpuView { rdx: v, ..s }
    } else if code == 4 {
        CpuView { rbp: v, ..s }
    } else if code == 5 {
        CpuView { rsp: v, ..s }
    } else {
        CpuView { rip: v, ..s }
    }
}

/// The word stored big-endian in the eight bytes starting at `a`.
pub open spec fn word_at(mem: Seq<u8>, a: int) -> u64 {
    ((mem[a] as u64) << 56) | ((mem[a + 1] as u64) << 48) | ((mem[a + 2] as u64) << 40) | ((mem[a
        + 3] as u64) << 32) | ((mem[a + 4] as u64) << 24) | ((mem[a + 5] as u64) << 16) | ((mem[a
        + 6] as u64) << 8) | (mem[a + 7] as u64)
}

/// The memory with `bs` written at consecutive addresses from `a`.
pub open spec fn store_bytes(mem: Seq<u8>, a: int, bs: Seq<u8>) -> Seq<u8> {
    mem.map(|i: int, b: u8| if a <= i < a + bs.len() { bs[i - a] } else { b })
}

/// What a two-operand opcode computes from the resolved destination and
/// source values: move passes the source through, add and subtract wrap
/// modulo 2^64 with the destination as first operand (the minuend).
pub open spec fn apply_op(op: u8, dest_val: u64, src_val: u64) -> u64 {
    if op == 0x02 {
        src_val
    } else if op == 0x03 {
        u64_specs::wrapping_add(dest_val, src_val)
    } else {
        u64_specs::wrapping_sub(dest_val, src_val)
    }
}

/// One step of a two-operand instruction (move, add or subtract) from state
/// `s`, whose memory holds `op` at the program counter.
///
/// The mode byte follows the opcode and the register-selector byte follows it;
/// the low nibble of the mode byte picks one of the eight recognized
/// addressing combinations, and each non-register operand contributes one
/// big-endian word field after the selector. The program counter is advanced
/// past every byte consumed before operand values are resolved, so a register
/// operand naming the program counter sees the advanced value. Faults are
/// checked in the order the accesses would happen, and a faulting step leaves
/// the state unchanged.
pub open spec fn two_operand_step(s: CpuView, op: u8) -> Result<CpuView, CpuFault> {
    let pc = s.rip;
    if pc + 2 >= MEMORY_SIZE {
        Err(CpuFault::OutOfBoundsFault)
    } else {
        let locb = s.mem[pc + 1];
        let regs = s.mem[pc + 2];
        let src_reg = (regs >> 4) & 0xf;
        let dest_reg = regs & 0xf;
        let nib = locb & 0xf;
        if nib == 0x1 {
            // word value from the first field, stored at the address in the
            // second field; add and subtract read one byte there as the prior
            // destination value but store a full word
            if pc + 19 > MEMORY_SIZE {
                Err(CpuFault::OutOfBoundsFault)
            } else {
                let src = word_at(s.mem, pc + 3);
                let dest_addr = word_at(s.mem, pc + 11);
                let s1 = CpuView { rip: (pc + 19) as u64, ..s };
                if dest_addr + 8 > MEMORY_SIZE {
                    Err(CpuFault::OutOfBoundsFault)
                } else {
                    let value = apply_op(op, s.mem[dest_addr as int] as u64, src);
                    Ok(
                        CpuView {
                            mem: store_bytes(s1.mem, dest_addr as int, word_bytes(value)),
                            ..s1
                        },
                    )
                }
            }
        } else if nib == 0x4 {
            // word value from the field, into the destination register
            if pc + 11 > MEMORY_SIZE {
                Err(CpuFault::OutOfBoundsFault)
            } else {
                let src = word_at(s.mem, pc + 3);
                let s1 = CpuView { rip: (pc + 11) as u64, ..s };
                if dest_reg > 6 {
                    Err(CpuFault::RegisterFault)
                } else {
                    Ok(with_reg(s1, dest_reg, apply_op(op, reg_of(s1, dest_reg), src)))
                }
            }
        } else if nib == 0x5 {
            // word value from the field, stored through the destination
            // register; for add and subtract the computed word is both the
            // value stored and the address stored at
            if pc + 11 > MEMORY_SIZE {
                Err(CpuFault::OutOfBoundsFault)
            } else {
                let src = word_at(s.mem, pc + 3);
                let s1 = CpuView { rip: (pc + 11) as u64, ..s };
                if dest_reg > 6 {
                    Err(CpuFault::RegisterFault)
                } else {
                    let w = apply_op(op, reg_of(s1, dest_reg), src);
                    let addr = if op == 0x02 {
                        reg_of(s1, dest_reg)
                    } else {
                        w
                    };
                    if addr + 8 > MEMORY_SIZE {
                        Err(CpuFault::OutOfBoundsFault)
                    } else {
                        Ok(
                            CpuView {
                                mem: store_bytes(s1.mem, addr as int, word_bytes(w)),
                                ..s1
                            },
                        )
                    }
                }
            }
        } else if nib == 0x6 || nib == 0x9 {
            // one byte read at the address in the field, into the destination
            // register (the two nibbles dispatch identically)
            if pc + 11 > MEMORY_SIZE {
                Err(CpuFault::OutOfBoundsFault)
            } else {
                let src_addr = word_at(s.mem, pc + 3);
                let s1 = CpuView { rip: (pc + 11) as u64, ..s };
                if src_addr >= MEMORY_SIZE {
                    Err(CpuFault::OutOfBoundsFault)
                } else if dest_reg > 6 {
                    Err(CpuFault::RegisterFault)
                } else {
                    Ok(
                        with_reg(
                            s1,
                            dest_reg,
                            apply_op(op, reg_of(s1, dest_reg), s.mem[src_addr as int] as u64),
                        ),
                    )
                }
            }
        } else if nib == 0xc {
            // register to register
            let s1 = CpuView { rip: (pc + 3) as u64, ..s };
            if src_reg > 6 || dest_reg > 6 {
                Err(CpuFault::RegisterFault)
            } else {
                Ok(with_reg(s1, dest_reg, apply_op(op, reg_of(s1, dest_reg), reg_of(s1, src_reg))))
            }
        } else if nib == 0xd {
            // source register's word stored at the address in the destination
            // register; add and subtract store the computed word instead
            let s1 = CpuView { rip: (pc + 3) as u64, ..s };
            if src_reg > 6 || dest_reg > 6 {
                Err(CpuFault::RegisterFault)
            } else {
                let value = apply_op(op, reg_of(s1, dest_reg), reg_of(s1, src_reg));
                let addr = reg_of(s1, dest_reg);
                if addr + 8 > MEMORY_SIZE {
                    Err(CpuFault::OutOfBoundsFault)
                } else {
                    Ok(CpuView { mem: store_bytes(s1.mem, addr as int, word_bytes(value)), ..s1 })
                }
            }
        } else if nib == 0xe {
            // one byte read at the address in the source register, into the
            // destination register
            let s1 = CpuView { rip: (pc + 3) as u64, ..s };
            if src_reg > 6 {
                Err(CpuFault::RegisterFault)
            } else {
                let addr = reg_of(s1, src_reg);
                if addr >= MEMORY_SIZE {
                    Err(CpuFault::OutOfBoundsFault)
                } else if dest_reg > 6 {
                    Err(CpuFault::RegisterFault)
                } else {
                    Ok(
                        with_reg(
                            s1,
                            dest_reg,
                            apply_op(op, reg_of(s1, dest_reg), s.mem[addr as int] as u64),
                        ),
                    )
                }
            }
        } else {
            Err(CpuFault::DecodeFault)
        }
    }
}

/// One step of a complement instruction from state `s`.
///
/// The byte after the opcode is the mode byte; bits 4 and 5 select register,
/// memory-at-immediate-address, or memory-at-address-in-register. The decoder
/// also reads the byte after the mode byte for its register code, without
/// advancing the program counter past it; for the immediate-address form that
/// byte is the first of the word field. A register operand is complemented as
/// a full word; a memory operand as a single byte.
pub open spec fn complement_step(s: CpuView) -> Result<CpuView, CpuFault> {
    let pc = s.rip;
    if pc + 2 >= MEMORY_SIZE {
        Err(CpuFault::OutOfBoundsFault)
    } else {
        let locb = s.mem[pc + 1];
        let reg = s.mem[pc + 2] & 0xf;
        let sel = (locb >> 4) & 0x3;
        if sel == 0x1 {
            // complement the byte at the immediate address
            if pc + 10 > MEMORY_SIZE {
                Err(CpuFault::OutOfBoundsFault)
            } else {
                let addr = word_at(s.mem, pc + 2);
                let s1 = CpuView { rip: (pc + 10) as u64, ..s };
                if addr >= MEMORY_SIZE {
                    Err(CpuFault::OutOfBoundsFault)
                } else {
                    Ok(
                        CpuView {
                            mem: s1.mem.update(addr as int, !s.mem[addr as int]),
                            ..s1
                        },
                    )
                }
            }
        } else if sel == 0x2 {
            // complement the register's word
            let s1 = CpuView { rip: (pc + 2) as u64, ..s };
            if reg > 6 {
                Err(CpuFault::RegisterFault)
            } else {
                Ok(with_reg(s1, reg, !reg_of(s1, reg)))
            }
        } else if sel == 0x3 {
            // complement the byte at the address in the register
            let s1 = CpuView { rip: (pc + 2) as u64, ..s };
            if reg > 6 {
                Err(CpuFault::RegisterFault)
            } else {
                let addr = reg_of(s1, reg);
                if addr >= MEMORY_SIZE {
                    Err(CpuFault::OutOfBoundsFault)
                } else {
                    Ok(
                        CpuView {
                            mem: s1.mem.update(addr as int, !s.mem[addr as int]),
                            ..s1
                        },
                    )
                }
            }
        } else {
            Err(CpuFault::DecodeFault)
        }
    }
}

/// One fetch-decode-execute step from state `s`: the authoritative definition
/// of the engine. `Ok` carries the next state; `Err` carries the fault, and a
/// faulting step changes nothing.
pub open spec fn step_spec(s: CpuView) -> Result<CpuView, CpuFault> {
    if s.rip >= MEMORY_SIZE {
        Err(CpuFault::OutOfBoundsFault)
    } else {
        let op = s.mem[s.rip as int];
        if op == 0x00 {
            Ok(CpuView { rip: (s.rip + 1) as u64, ..s })
        } else if op == 0x01 {
            Ok(CpuView { rip: (s.rip + 1) as u64, flags: s.flags | 0x01, ..s })
        } else if op == 0x02 || op == 0x03 || op == 0x04 {
            two_operand_step(s, op)
        } else if op == 0x05 || op == 0x06 {
            complement_step(s)
        } else {
            Err(CpuFault::DecodeFault)
        }
    }
}

/// Registers and flags agree between two states.
pub open spec fn same_regs_flags(a: CpuView, b: CpuView) -> bool {
    &&& b.rax == a.rax
    &&& b.rbx == a.rbx
    &&& b.rcx == a.rcx
    &&& b.rdx == a.rdx
    &&& b.rbp == a.rbp
    &&& b.rsp == a.rsp
    &&& b.rip == a.rip
    &&& b.flags == a.flags
}

impl Cpu {
    /// A well-formed CPU holds exactly the fixed memory capacity.
    pub open spec fn wf(&self) -> bool {
        self@.wf()
    }

    /// A fresh CPU: all registers and flags zero, memory zero-filled.
    pub fn new() -> (cpu: Cpu)
        ensures
            cpu.wf(),
            cpu@.rax == 0,
            cpu@.rbx == 0,
            cpu@.rcx == 0,
            cpu@.rdx == 0,
            cpu@.rbp == 0,
            cpu@.rsp == 0,
            cpu@.rip == 0,
            cpu@.flags == 0,
            forall|i: int| 0 <= i < MEMORY_SIZE ==> cpu@.mem[i] == 0,
    {
        let mut memory: Vec<u8> = Vec::new();
        let mut i: usize = 0;
        while i < MEMORY_SIZE
            invariant
                i <= MEMORY_SIZE,
                memory@.len() == i,
                forall|j: int| 0 <= j < i ==> memory@[j] == 0,
            decreases MEMORY_SIZE - i,
        {
            memory.push(0);
            i += 1;
        }
        Cpu {
            rax: 0,
            rbx: 0,
            rcx: 0,
            rdx: 0,
            rbp: 0,
            rsp: 0,
            rip: 0,
            flags: 0x00,
            memory,
        }
    }

    /// Copy the encoding of each instruction, in order, into memory starting
    /// at the current program counter, and report the total byte count
    /// written, so a caller can place a stack pointer above the code.
    ///
    /// Memory from the program counter through the count reproduces exactly
    /// the concatenation of the instructions' encoded bytes; nothing else
    /// changes.
    pub fn load_program(&mut self, program: Program) -> (size: Arch)
        requires
            old(self).wf(),
            old(self)@.rip + program_bytes(program@).len() <= MEMORY_SIZE,
        ensures
            final(self).wf(),
            size == program_bytes(program@).len(),
            forall|i: int|
                0 <= i < size ==> final(self)@.mem[old(self)@.rip + i] == program_bytes(program@)[i],
            forall|i: int|
                0 <= i < MEMORY_SIZE && !(old(self)@.rip <= i < old(self)@.rip + size)
                    ==> final(self)@.mem[i] == old(self)@.mem[i],
            same_regs_flags(old(self)@, final(self)@),
    {
        let mut bytes: Vec<u8> = Vec::new();
        let mut idx: usize = 0;
        while idx < program.len()
            invariant
                idx <= program@.len(),
                bytes@ == program_bytes(program@.take(idx as int)),
            decreases program@.len() - idx,
        {
            let mut raw = program[idx].to_bytes();
            bytes.append(&mut raw);
            proof {
                assert(program@.take(idx as int + 1).drop_last() =~= program@.take(idx as int));
                assert(program@.take(idx as int + 1).last() == program@[idx as int]);
            }
            idx += 1;
        }
        proof {
            assert(program@.take(program@.len() as int) =~= program@);
        }
        let n = bytes.len();
        let base = self.rip;
        let mut j: usize = 0;
        while j < n
            invariant
                self.wf(),
                j <= n,
                n == bytes@.len(),
                bytes@ == program_bytes(program@),
                base == old(self)@.rip,
                base + n <= MEMORY_SIZE,
                same_regs_flags(old(self)@, self@),
                forall|i: int| 0 <= i < j ==> self@.mem[base + i] == bytes@[i],
                forall|i: int|
                    0 <= i < MEMORY_SIZE && !(base <= i < base + j) ==> self@.mem[i] == old(
                        self,
                    )@.mem[i],
            decreases n - j,
        {
            self.set_mem(base + j as u64, bytes[j]);
            j += 1;
        }
        n as u64
    }

    /// Read the byte at `addr`.
    pub fn get_mem(&self, addr: Arch) -> (b: u8)
        requires
            self.wf(),
            addr < MEMORY_SIZE,
        ensures
            b == self@.mem[addr as int],
    {
        self.memory[addr as usize]
    }

    /// Write the byte at `addr`.
    pub fn set_mem(&mut self, addr: Arch, val: u8)
        requires
            old(self).wf(),
            addr < MEMORY_SIZE,
        ensures
            final(self).wf(),
            final(self)@.mem == old(self)@.mem.update(addr as int, val),
            same_regs_flags(old(self)@, final(self)@),
    {
        self.memory[addr as usize] = val;
    }

    /// Write the bytes of `val` at consecutive addresses from `addr`.
    pub fn set_mem_slice(&mut self, addr: Arch, val: &[u8])
        requires
            old(self).wf(),
            addr + val@.len() <= MEMORY_SIZE,
        ensures
            final(self).wf(),
            final(self)@.mem == store_bytes(old(self)@.mem, addr as int, val@),
            same_regs_flags(old(self)@, final(self)@),
    {
        let mut i: usize = 0;
        while i < val.len()
            invariant
                self.wf(),
                i <= val@.len(),
                addr + val@.len() <= MEMORY_SIZE,
                same_regs_flags(old(self)@, self@),
                self@.mem == store_bytes(old(self)@.mem, addr as int, val@.take(i as int)),
            decreases val@.len() - i,
        {
            self.set_mem(addr + i as u64, val[i]);
            proof {
                assert(store_bytes(old(self)@.mem, addr as int, val@.take(i as int)).update(
                    addr + i,
                    val@[i as int],
                ) =~= store_bytes(old(self)@.mem, addr as int, val@.take(i as int + 1)));
            }
            i += 1;
        }
        proof {
            assert(val@.take(val@.len() as int) =~= val@);
        }
    }

    /// Whether the named flag bit is set.
    pub fn get_flag(&self, bit: CpuFlag) -> (r: bool)
        ensures
            r == (self@.flags & spec_flag_mask(bit) > 0),
    {
        self.flags & flag_mask(bit) > 0
    }

    /// Set the named flag bit. Passing `false` leaves the byte as it is: the
    /// flag byte is only ever accumulated into, never cleared.
    pub fn set_flag(&mut self, flag: CpuFlag, value: bool)
        ensures
            final(self)@.flags == old(self)@.flags | (if value {
                spec_flag_mask(flag)
            } else {
                0
            }),
            final(self)@.mem == old(self)@.mem,
            final(self)@.rax == old(self)@.rax,
            final(self)@.rbx == old(self)@.rbx,
            final(self)@.rcx == old(self)@.rcx,
            final(self)@.rdx == old(self)@.rdx,
            final(self)@.rbp == old(self)@.rbp,
            final(self)@.rsp == old(self)@.rsp,
            final(self)@.rip == old(self)@.rip,
    {
        self.flags = self.flags | if value {
            flag_mask(flag)
        } else {
            0x00
        };
    }

    /// A mutable borrow of the register slot a valid code names. The engine
    /// checks codes against the 0 through 6 range before resolving one; an
    /// out-of-range code is a `RegisterFault` there.
    pub fn reg_code(&mut self, code: u8) -> (r: &mut Arch)
        requires
            code <= 6,
        ensures
            *r == reg_of(old(self)@, code),
            final(self)@ == with_reg(old(self)@, code, *final(r)),
    {
        match code {
            0 => &mut self.rax,
            1 => &mut self.rbx,
            2 => &mut self.rcx,
            3 => &mut self.rdx,
            4 => &mut self.rbp,
            5 => &mut self.rsp,
            _ => &mut self.rip,
        }
    }

    /// The value of the register slot a valid code names.
    pub fn reg_value(&self, code: u8) -> (r: Arch)
        requires
            code <= 6,
        ensures
            r == reg_of(self@, code),
    {
        match code {
            0 => self.rax,
            1 => self.rbx,
            2 => self.rcx,
            3 => self.rdx,
            4 => self.rbp,
            5 => self.rsp,
            _ => self.rip,
        }
    }

    /// The value the register `code` would hold once the program counter has
    /// been advanced to `new_rip`, without mutating anything.
    fn reg_value_advanced(&self, code: u8, new_rip: u64) -> (v: u64)
        requires
            code <= 6,
        ensures
            v == reg_of((CpuView { rip: new_rip, ..self@ }), code),
    {
        if code == 6 {
            new_rip
        } else {
            self.reg_value(code)
        }
    }

    /// Read the word stored big-endian at `addr`.
    fn read_word(&self, addr: Arch) -> (w: Arch)
        requires
            self.wf(),
            addr + 8 <= MEMORY_SIZE,
        ensures
            w == word_at(self@.mem, addr as int),
    {
        ((self.get_mem(addr) as u64) << 56) | ((self.get_mem(addr + 1) as u64) << 48) | ((self.get_mem(
            addr + 2,
        ) as u64) << 40) | ((self.get_mem(addr + 3) as u64) << 32) | ((self.get_mem(addr + 4) as u64)
            << 24) | ((self.get_mem(addr + 5) as u64) << 16) | ((self.get_mem(addr + 6) as u64) << 8)
            | (self.get_mem(addr + 7) as u64)
    }

    /// Write `w` big-endian into the eight bytes at `addr`.
    fn write_word(&mut self, addr: Arch, w: Arch)
        requires
            old(self).wf(),
            addr + 8 <= MEMORY_SIZE,
        ensures
            final(self).wf(),
            final(self)@.mem == store_bytes(old(self)@.mem, addr as int, word_bytes(w)),
            same_regs_flags(old(self)@, final(self)@),
    {
        let bytes = Instruction::split_number(w);
        self.set_mem_slice(addr, bytes.as_slice());
    }

    /// The two-operand computation: move passes the source through, add and
    /// subtract wrap modulo 2^64.
    fn arith(op: u8, dest_val: u64, src_val: u64) -> (r: u64)
        requires
            op == 0x02 || op == 0x03 || op == 0x04,
        ensures
            r == apply_op(op, dest_val, src_val),
    {
        if op == 0x02 {
            src_val
        } else if op == 0x03 {
            dest_val.wrapping_add(src_val)
        } else {
            dest_val.wrapping_sub(src_val)
        }
    }

    /// Execute one two-operand instruction whose opcode has been fetched.
    fn two_operand(&mut self, op: u8) -> (r: Result<(), CpuFault>)
        requires
            old(self).wf(),
            old(self)@.rip < MEMORY_SIZE,
            op == 0x02 || op == 0x03 || op == 0x04,
        ensures
            final(self).wf(),
            (match two_operand_step(old(self)@, op) {
                Ok(t) => r is Ok && final(self)@ == t,
                Err(f) => (r matches Err(g) && g == f) && final(self)@ == old(self)@,
            }),
    {
        let pc = self.rip;
        if pc + 2 >= MEMORY_SIZE as u64 {
            return Err(CpuFault::OutOfBoundsFault);
        }
        let locb = self.get_mem(pc + 1);
        let regs = self.get_mem(pc + 2);
        let src_reg = (regs >> 4) & 0xf;
        let dest_reg = regs & 0xf;
        let nib = locb & 0xf;
        if nib == 0x1 {
            if pc + 19 > MEMORY_SIZE as u64 {
                return Err(CpuFault::OutOfBoundsFault);
            }
            let src = self.read_word(pc + 3);
            let dest_addr = self.read_word(pc + 11);
            if dest_addr > MEMORY_SIZE as u64 - 8 {
                return Err(CpuFault::OutOfBoundsFault);
            }
            let dest_byte = self.get_mem(dest_addr);
            let value = Self::arith(op, dest_byte as u64, src);
            self.rip = pc + 19;
            self.write_word(dest_addr, value);
            proof {
                assert(two_operand_step(old(self)@, op) matches Ok(t) && self@ =~= t);
            }
            Ok(())
        } else if nib == 0x4 {
            if pc + 11 > MEMORY_SIZE as u64 {
                return Err(CpuFault::OutOfBoundsFault);
            }
            let src = self.read_word(pc + 3);
            if dest_reg > 6 {
                return Err(CpuFault::RegisterFault);
            }
            let cur = self.reg_value_advanced(dest_reg, pc + 11);
            let value = Self::arith(op, cur, src);
            self.rip = pc + 11;
            *self.reg_code(dest_reg) = value;
            proof {
                assert(two_operand_step(old(self)@, op) matches Ok(t) && self@ =~= t);
            }
            Ok(())
        } else if nib == 0x5 {
            if pc + 11 > MEMORY_SIZE as u64 {
                return Err(CpuFault::OutOfBoundsFault);
            }
            let src = self.read_word(pc + 3);
            if dest_reg > 6 {
                return Err(CpuFault::RegisterFault);
            }
            let cur = self.reg_value_advanced(dest_reg, pc + 11);
            let w = Self::arith(op, cur, src);
            let addr = if op == 0x02 {
                cur
            } else {
                w
            };
            if addr > MEMORY_SIZE as u64 - 8 {
                return Err(CpuFault::OutOfBoundsFault);
            }
            self.rip = pc + 11;
            self.write_word(addr, w);
            proof {
                assert(two_operand_step(old(self)@, op) matches Ok(t) && self@ =~= t);
            }
            Ok(())
        } else if nib == 0x6 || nib == 0x9 {
            if pc + 11 > MEMORY_SIZE as u64 {
                return Err(CpuFault::OutOfBoundsFault);
            }
            let src_addr = self.read_word(pc + 3);
            if src_addr >= MEMORY_SIZE as u64 {
                return Err(CpuFault::OutOfBoundsFault);
            }
            let b = self.get_mem(src_addr);
            if dest_reg > 6 {
                return Err(CpuFault::RegisterFault);
            }
            let cur = self.reg_value_advanced(dest_reg, pc + 11);
            let value = Self::arith(op, cur, b as u64);
            self.rip = pc + 11;
            *self.reg_code(dest_reg) = value;
            proof {
                assert(two_operand_step(old(self)@, op) matches Ok(t) && self@ =~= t);
            }
            Ok(())
        } else if nib == 0xc {
            if src_reg > 6 || dest_reg > 6 {
                return Err(CpuFault::RegisterFault);
            }
            let src_val = self.reg_value_advanced(src_reg, pc + 3);
            let cur = self.reg_value_advanced(dest_reg, pc + 3);
            let value = Self::arith(op, cur, src_val);
            self.rip = pc + 3;
            *self.reg_code(dest_reg) = value;
            proof {
                assert(two_operand_step(old(self)@, op) matches Ok(t) && self@ =~= t);
            }
            Ok(())
        } else if nib == 0xd {
            if src_reg > 6 || dest_reg > 6 {
                return Err(CpuFault::RegisterFault);
            }
            let src_val = self.reg_value_advanced(src_reg, pc + 3);
            let cur = self.reg_value_advanced(dest_reg, pc + 3);
            let value = Self::arith(op, cur, src_val);
            let addr = cur;
            if addr > MEMORY_SIZE as u64 - 8 {
                return Err(CpuFault::OutOfBoundsFault);
            }
            self.rip = pc + 3;
            self.write_word(addr, value);
            proof {
                assert(two_operand_step(old(self)@, op) matches Ok(t) && self@ =~= t);
            }
            Ok(())
        } else if nib == 0xe {
            if src_reg > 6 {
                return Err(CpuFault::RegisterFault);
            }
            let addr = self.reg_value_advanced(src_reg, pc + 3);
            if addr >= MEMORY_SIZE as u64 {
                return Err(CpuFault::OutOfBoundsFault);
            }
            let b = self.get_mem(addr);
            if dest_reg > 6 {
                return Err(CpuFault::RegisterFault);
            }
            let cur = self.reg_value_advanced(dest_reg, pc + 3);
            let value = Self::arith(op, cur, b as u64);
            self.rip = pc + 3;
            *self.reg_code(dest_reg) = value;
            proof {
                assert(two_operand_step(old(self)@, op) matches Ok(t) && self@ =~= t);
            }
            Ok(())
        } else {
            Err(CpuFault::DecodeFault)
        }
    }

    /// Execute one complement instruction whose opcode has been fetched.
    fn complement(&mut self) -> (r: Result<(), CpuFault>)
        requires
            old(self).wf(),
            old(self)@.rip < MEMORY_SIZE,
        ensures
            final(self).wf(),
            (match complement_step(old(self)@) {
                Ok(t) => r is Ok && final(self)@ == t,
                Err(f) => (r matches Err(g) && g == f) && final(self)@ == old(self)@,
            }),
    {
        let pc = self.rip;
        if pc + 2 >= MEMORY_SIZE as u64 {
            return Err(CpuFault::OutOfBoundsFault);
        }
        let locb = self.get_mem(pc + 1);
        let sel_byte = self.get_mem(pc + 2);
        let reg = sel_byte & 0xf;
        let sel = (locb >> 4) & 0x3;
        if sel == 0x1 {
            if pc + 10 > MEMORY_SIZE as u64 {
                return Err(CpuFault::OutOfBoundsFault);
            }
            let addr = self.read_word(pc + 2);
            if addr >= MEMORY_SIZE as u64 {
                return Err(CpuFault::OutOfBoundsFault);
            }
            let b = self.get_mem(addr);
            self.rip = pc + 10;
            self.set_mem(addr, !b);
            proof {
                assert(complement_step(old(self)@) matches Ok(t) && self@ =~= t);
            }
            Ok(())
        } else if sel == 0x2 {
            if reg > 6 {
                return Err(CpuFault::RegisterFault);
            }
            let cur = self.reg_value_advanced(reg, pc + 2);
            self.rip = pc + 2;
            *self.reg_code(reg) = !cur;
            proof {
                assert(complement_step(old(self)@) matches Ok(t) && self@ =~= t);
            }
            Ok(())
        } else if sel == 0x3 {
            if reg > 6 {
                return Err(CpuFault::RegisterFault);
            }
            let addr = self.reg_value_advanced(reg, pc + 2);
            if addr >= MEMORY_SIZE as u64 {
                return Err(CpuFault::OutOfBoundsFault);
            }
            let b = self.get_mem(addr);
            self.rip = pc + 2;
            self.set_mem(addr, !b);
            proof {
                assert(complement_step(old(self)@) matches Ok(t) && self@ =~= t);
            }
            Ok(())
        } else {
            Err(CpuFault::DecodeFault)
        }
    }

    /// Execute one instruction at the program counter: fetch the opcode,
    /// decode the operands, apply the operation, and advance the program
    /// counter past every byte consumed.
    ///
    /// Implements [`step_spec`] exactly: on `Ok` the state is the interpreter's
    /// next state; on `Err` it is the interpreter's fault and the CPU is
    /// unchanged — no register or memory mutation of a faulting instruction is
    /// visible.
    pub fn next_instruction(&mut self) -> (r: Result<(), CpuFault>)
        requires
            old(self).wf(),
        ensures
            final(self).wf(),
            (match step_spec(old(self)@) {
                Ok(t) => r is Ok && final(self)@ == t,
                Err(f) => (r matches Err(g) && g == f) && final(self)@ == old(self)@,
            }),
    {
        let pc = self.rip;
        if pc >= MEMORY_SIZE as u64 {
            return Err(CpuFault::OutOfBoundsFault);
        }
        let opcode = self.get_mem(pc);
        if opcode == 0x00 {
            self.rip = pc + 1;
            proof {
                assert(step_spec(old(self)@) matches Ok(t) && self@ =~= t);
            }
            Ok(())
        } else if opcode == 0x01 {
            self.rip = pc + 1;
            self.set_flag(CpuFlag::Halt, true);
            proof {
                assert(step_spec(old(self)@) matches Ok(t) && self@ =~= t);
            }
            Ok(())
        } else if opcode == 0x02 || opcode == 0x03 || opcode == 0x04 {
            self.two_operand(opcode)
        } else if opcode == 0x05 || opcode == 0x06 {
            self.complement()
        } else {
            Err(CpuFault::DecodeFault)
        }
    }
}

} // verus!
