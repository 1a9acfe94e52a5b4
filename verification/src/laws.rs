//! Proof functions stating the laws the engine obeys, over the mathematical
//! interpreter [`step_spec`]. Together with `Cpu::next_instruction`'s
//! contract — the executable step implements `step_spec` exactly, and a
//! faulting step leaves the CPU untouched — they carry over to the running
//! engine.

use vstd::prelude::*;

verus! {

use crate::cpu::{CpuFault, CpuView, MEMORY_SIZE, reg_of, step_spec};
use vstd::wrapping::u64_specs;

/// Subtracting register `x` from register `y` leaves `(b - a) mod 2^64` in
/// `y`, where `a` and `b` are the registers' prior values, and leaves `x`
/// unchanged. The program-counter register is excluded: its operand value is
/// read only after the counter has advanced past the instruction.
pub proof fn lemma_subtract_registers(s: CpuView, x: u8, y: u8, a: u64, b: u64)
    requires
        s.wf(),
        s.rip + 3 <= MEMORY_SIZE,
        x <= 5,
        y <= 5,
        s.mem[s.rip as int] == 0x04,
        s.mem[s.rip + 1] & 0xf == 0xc,
        s.mem[s.rip + 2] == (x << 4) | y,
        reg_of(s, x) == a,
        reg_of(s, y) == b,
    ensures
        step_spec(s) matches Ok(t) && {
            &&& reg_of(t, y) == u64_specs::wrapping_sub(b, a)
            &&& reg_of(t, y) as int == (b - a) % 0x1_0000_0000_0000_0000
            &&& x != y ==> reg_of(t, x) == a
            &&& t.rip == s.rip + 3
            &&& t.mem == s.mem
            &&& t.flags == s.flags
        },
{
    let sel = (x << 4) | y;
    assert(((sel >> 4) & 0xf) == x && (sel & 0xf) == y) by (bit_vector)
        requires
            x <= 5,
            y <= 5,
            sel == (x << 4) | y,
    ;
}

/// Adding register `x` into register `y` leaves `(a + b) mod 2^64` in `y`,
/// where `a` and `b` are the registers' prior values, and leaves `x`
/// unchanged. The program-counter register is excluded as in
/// [`lemma_subtract_registers`].
pub proof fn lemma_add_registers(s: CpuView, x: u8, y: u8, a: u64, b: u64)
    requires
        s.wf(),
        s.rip + 3 <= MEMORY_SIZE,
        x <= 5,
        y <= 5,
        s.mem[s.rip as int] == 0x03,
        s.mem[s.rip + 1] & 0xf == 0xc,
        s.mem[s.rip + 2] == (x << 4) | y,
        reg_of(s, x) == a,
        reg_of(s, y) == b,
    ensures
        step_spec(s) matches Ok(t) && {
            &&& reg_of(t, y) == u64_specs::wrapping_add(b, a)
            &&& reg_of(t, y) as int == (a + b) % 0x1_0000_0000_0000_0000
            &&& x != y ==> reg_of(t, x) == a
            &&& t.rip == s.rip + 3
            &&& t.mem == s.mem
            &&& t.flags == s.flags
        },
{
    let sel = (x << 4) | y;
    assert(((sel >> 4) & 0xf) == x && (sel & 0xf) == y) by (bit_vector)
        requires
            x <= 5,
            y <= 5,
            sel == (x << 4) | y,
    ;
}

/// A register-to-register move copies exactly: afterwards register `y` holds
/// the prior value of register `x`, and register `x` still holds it too. The
/// program-counter register is excluded as in [`lemma_subtract_registers`].
pub proof fn lemma_move_registers(s: CpuView, x: u8, y: u8)
    requires
        s.wf(),
        s.rip + 3 <= MEMORY_SIZE,
        x <= 5,
        y <= 5,
        s.mem[s.rip as int] == 0x02,
        s.mem[s.rip + 1] & 0xf == 0xc,
        s.mem[s.rip + 2] == (x << 4) | y,
    ensures
        step_spec(s) matches Ok(t) && {
            &&& reg_of(t, y) == reg_of(s, x)
            &&& reg_of(t, x) == reg_of(s, x)
            &&& t.rip == s.rip + 3
            &&& t.mem == s.mem
            &&& t.flags == s.flags
        },
{
    let sel = (x << 4) | y;
    assert(((sel >> 4) & 0xf) == x && (sel & 0xf) == y) by (bit_vector)
        requires
            x <= 5,
            y <= 5,
            sel == (x << 4) | y,
    ;
}

/// Complementing a register twice restores its original value: one step
/// complements the word, and a second step from the same instruction (the
/// program counter put back) complements it again. The program-counter
/// register is excluded: putting the counter back for the second step would
/// itself overwrite the complemented value.
pub proof fn lemma_complement_register_twice(s: CpuView, r: u8)
    requires
        s.wf(),
        s.rip + 3 <= MEMORY_SIZE,
        s.mem[s.rip as int] == 0x05 || s.mem[s.rip as int] == 0x06,
        (s.mem[s.rip + 1] >> 4) & 0x3 == 0x2,
        s.mem[s.rip + 2] & 0xf == r,
        r <= 5,
    ensures
        step_spec(s) matches Ok(t) && {
            &&& reg_of(t, r) == !reg_of(s, r)
            &&& t.mem == s.mem
            &&& step_spec((CpuView { rip: s.rip, ..t })) matches Ok(u) && reg_of(u, r) == reg_of(
                s,
                r,
            )
        },
{
    let v = reg_of(s, r);
    assert(!(!v) == v) by (bit_vector);
}

/// Complementing the same memory byte twice restores it: one step complements
/// the byte at the immediate address, and a second step from the same
/// instruction (the program counter put back) complements it again, leaving
/// the memory exactly as it began. The address must lie outside the
/// instruction's own ten bytes, else the first step would rewrite the
/// encoding the second step decodes.
pub proof fn lemma_complement_byte_twice(s: CpuView, addr: u64)
    requires
        s.wf(),
        s.rip + 10 <= MEMORY_SIZE,
        s.mem[s.rip as int] == 0x05 || s.mem[s.rip as int] == 0x06,
        (s.mem[s.rip + 1] >> 4) & 0x3 == 0x1,
        crate::cpu::word_at(s.mem, s.rip + 2) == addr,
        addr < MEMORY_SIZE,
        !(s.rip <= addr < s.rip + 10),
    ensures
        step_spec(s) matches Ok(t) && {
            &&& t.mem[addr as int] == !s.mem[addr as int]
            &&& forall|i: int| 0 <= i < MEMORY_SIZE && i != addr ==> t.mem[i] == s.mem[i]
            &&& step_spec((CpuView { rip: s.rip, ..t })) matches Ok(u) && u.mem == s.mem
        },
{
    let b = s.mem[addr as int];
    assert(!(!b) == b) by (bit_vector);
    let t = step_spec(s)->Ok_0;
    let t2 = CpuView { rip: s.rip, ..t };
    assert(crate::cpu::word_at(t2.mem, t2.rip + 2) == addr);
    let u = step_spec(t2)->Ok_0;
    assert(u.mem =~= s.mem);
}

/// Complementing the byte a register points at twice restores it, as in
/// [`lemma_complement_byte_twice`] but with the address taken from a register.
/// The program-counter register is excluded as address register, and the
/// addressed byte must lie outside the instruction's own bytes (its two
/// encoded bytes and the register-code byte the decoder peeks at).
pub proof fn lemma_complement_byte_through_register_twice(s: CpuView, r: u8)
    requires
        s.wf(),
        s.rip + 3 <= MEMORY_SIZE,
        s.mem[s.rip as int] == 0x05 || s.mem[s.rip as int] == 0x06,
        (s.mem[s.rip + 1] >> 4) & 0x3 == 0x3,
        s.mem[s.rip + 2] & 0xf == r,
        r <= 5,
        reg_of(s, r) < MEMORY_SIZE,
        !(s.rip <= reg_of(s, r) < s.rip + 3),
    ensures
        step_spec(s) matches Ok(t) && {
            let addr = reg_of(s, r) as int;
            &&& t.mem[addr] == !s.mem[addr]
            &&& forall|i: int| 0 <= i < MEMORY_SIZE && i != addr ==> t.mem[i] == s.mem[i]
            &&& step_spec((CpuView { rip: s.rip, ..t })) matches Ok(u) && u.mem == s.mem
        },
{
    let addr = reg_of(s, r) as int;
    let b = s.mem[addr];
    assert(!(!b) == b) by (bit_vector);
    let t = step_spec(s)->Ok_0;
    let t2 = CpuView { rip: s.rip, ..t };
    let u = step_spec(t2)->Ok_0;
    assert(u.mem =~= s.mem);
}

/// No instruction other than halt touches the flag byte, and halt only sets
/// the Halt bit: every successful step leaves the four other flag bits — and,
/// unless the opcode is halt, the whole byte — at their prior value.
pub proof fn lemma_only_halt_sets_flags(s: CpuView)
    requires
        s.wf(),
        step_spec(s) is Ok,
    ensures
        step_spec(s) matches Ok(t) && {
            &&& t.flags & 0xfe == s.flags & 0xfe
            &&& s.mem[s.rip as int] != 0x01 ==> t.flags == s.flags
            &&& s.mem[s.rip as int] == 0x01 ==> t.flags == s.flags | 0x01
        },
{
    let f = s.flags;
    assert((f | 0x01) & 0xfe == f & 0xfe) by (bit_vector);
}

/// An opcode byte outside the recognized set at the program counter makes the
/// step fault with a decode fault — and, by `Cpu::next_instruction`'s
/// contract, a faulting step mutates no register and no memory.
pub proof fn lemma_unknown_opcode_faults(s: CpuView)
    requires
        s.wf(),
        s.rip < MEMORY_SIZE,
        s.mem[s.rip as int] > 0x06,
    ensures
        step_spec(s) matches Err(f) && f == CpuFault::DecodeFault,
{
}

/// A register code outside 0 through 6 in the selector byte of an
/// immediate-to-register instruction makes the step fault with a register
/// fault — and, by `Cpu::next_instruction`'s contract, a faulting step
/// mutates no register and no memory.
pub proof fn lemma_invalid_register_faults(s: CpuView, op: u8, code: u8)
    requires
        s.wf(),
        s.rip + 11 <= MEMORY_SIZE,
        op == 0x02 || op == 0x03 || op == 0x04,
        s.mem[s.rip as int] == op,
        s.mem[s.rip + 1] & 0xf == 0x4,
        s.mem[s.rip + 2] & 0xf == code,
        code > 6,
    ensures
        step_spec(s) matches Err(f) && f == CpuFault::RegisterFault,
{
}

} // verus!
