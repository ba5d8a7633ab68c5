use vstd::prelude::*;
use crate::flags::{with_flag, has_flag, CARRY, ZERO, IRQ_DISABLE, BREAK, UNUSED, OVERFLOW, NEGATIVE};
use crate::instruction::{AddressingMode, Mnemonic, opcode_table, mode_len};
use crate::machine::{
    Machine, Decoded, adc, brk, carry_in, decode, step_entry, compare, execute, interrupt, operand, popped, push, rd,
    signed, stack_addr, step, top,
};
use crate::memory::{copied, fits, loaded, next_addr, read16, CPU_RAM_SIZE, RESET_VECTOR};
use crate::disassembler::{disasm_from, line_text};

verus! {

/// Setting or clearing one flag decides that flag and leaves every other bit alone.
pub proof fn lemma_with_flag(p: u8, mask: u8, on: bool, other: u8)
    requires
        mask != 0,
    ensures
        has_flag(with_flag(p, mask, on), mask) == on,
        mask & other == 0 ==> has_flag(with_flag(p, mask, on), other) == has_flag(p, other),
{
    assert((p | mask) & mask == mask) by (bit_vector);
    assert(mask != 0 ==> (p & !mask) & mask != mask) by (bit_vector);
    assert(mask & other == 0 ==> (((p | mask) & other == other) == (p & other == other))) by (bit_vector);
    assert(mask & other == 0 ==> (((p & !mask) & other == other) == (p & other == other))) by (bit_vector);
}

/// The flag masks are single distinct bits.
pub proof fn lemma_masks_disjoint()
    ensures
        CARRY & ZERO == 0,
        CARRY & NEGATIVE == 0,
        CARRY & OVERFLOW == 0,
        ZERO & CARRY == 0,
        ZERO & NEGATIVE == 0,
        ZERO & OVERFLOW == 0,
        NEGATIVE & CARRY == 0,
        NEGATIVE & ZERO == 0,
        NEGATIVE & OVERFLOW == 0,
        OVERFLOW & CARRY == 0,
        OVERFLOW & ZERO == 0,
        OVERFLOW & NEGATIVE == 0,
{
    assert(1u8 & 2u8 == 0 && 1u8 & 0x80u8 == 0 && 1u8 & 0x40u8 == 0 && 2u8 & 1u8 == 0 && 2u8 & 0x80u8 == 0
        && 2u8 & 0x40u8 == 0 && 0x80u8 & 1u8 == 0 && 0x80u8 & 2u8 == 0 && 0x80u8 & 0x40u8 == 0
        && 0x40u8 & 1u8 == 0 && 0x40u8 & 2u8 == 0 && 0x40u8 & 0x80u8 == 0) by (bit_vector);
}

/// The copy of P that PHP pushes has U set.
pub proof fn lemma_php_pushes_unused(m: Machine)
    requires
        m.mem.len() == CPU_RAM_SIZE,
        rd(m, m.pc) == 0x08,
    ensures
        has_flag(step(m).0.mem[stack_addr(m.s)], UNUSED),
{
    reveal(execute);
    let p = m.p;
    assert((p | BREAK | UNUSED) & UNUSED == UNUSED) by (bit_vector);
}

/// At a BRK opcode, a step runs BRK from the byte after it.
pub proof fn lemma_step_brk(m: Machine)
    requires
        rd(m, m.pc) == 0x00,
    ensures
        step(m).0 == brk(Machine { pc: next_addr(m.pc), ..m }),
{
    let e = step_entry(0x00);
    assert(e.name == Mnemonic::BRK && e.mode == AddressingMode::IMP);
    let m1 = Machine { pc: next_addr(m.pc), ..m };
    assert(decode(m1, AddressingMode::IMP).pc == m1.pc);
    assert(Machine { pc: decode(m1, AddressingMode::IMP).pc, ..m1 } == m1);
    reveal(execute);
    assert(execute(m1, Mnemonic::BRK, AddressingMode::IMP, decode(m1, AddressingMode::IMP)).0 == brk(m1));
}

/// The copy of P that BRK pushes, below the two bytes of the return address, has U set.
pub proof fn lemma_brk_pushes_unused(m: Machine)
    requires
        m.mem.len() == CPU_RAM_SIZE,
        rd(m, m.pc) == 0x00,
    ensures
        has_flag(step(m).0.mem[stack_addr(((m.s as int + 254) % 256) as u8)], UNUSED),
{
    lemma_step_brk(m);
    let p = m.p;
    assert((p | IRQ_DISABLE | BREAK | UNUSED) & UNUSED == UNUSED) by (bit_vector);
}

/// The copy of P that an interrupt pushes, below the two bytes of PC, has U set.
pub proof fn lemma_interrupt_pushes_unused(m: Machine, vector: u16)
    requires
        m.mem.len() == CPU_RAM_SIZE,
    ensures
        has_flag(interrupt(m, vector).mem[stack_addr(((m.s as int + 254) % 256) as u8)], UNUSED),
{
    let p = m.p;
    assert(((p | IRQ_DISABLE | UNUSED) & !BREAK) & UNUSED == UNUSED) by (bit_vector);
}

/// The stack pointer wraps modulo 256: a push decrements it and a pop increments it,
/// so a push at 0x00 leaves 0xFF and a pop at 0xFF leaves 0x00.
pub proof fn lemma_stack_wraps(m: Machine, v: u8)
    ensures
        push(m, v).s as int == (m.s as int + 255) % 256,
        popped(m).s as int == (m.s as int + 1) % 256,
        m.s == 0 ==> push(m, v).s == 0xFF,
        m.s == 0xFF ==> popped(m).s == 0,
{
}

/// A pop undoes a push: it returns the pushed byte and S comes back to where it was.
pub proof fn lemma_push_pop(m: Machine, v: u8)
    requires
        m.mem.len() == CPU_RAM_SIZE,
    ensures
        top(push(m, v)) == v,
        popped(push(m, v)).s == m.s,
        popped(push(m, v)).mem == m.mem.update(stack_addr(m.s), v),
{
}

/// Loading puts the program's bytes from the start address on. `load` puts the start
/// address in the reset vector; a copy at an address leaves the vector as it was.
pub proof fn lemma_load_round_trip(mem: Seq<u8>, program: Seq<u8>, start: u16)
    requires
        mem.len() == CPU_RAM_SIZE,
        fits(program.len(), start),
    ensures
        loaded(mem, program, start).subrange(start as int, start + program.len()) == program,
        read16(loaded(mem, program, start), RESET_VECTOR) == start,
        copied(mem, program, start).subrange(start as int, start + program.len()) == program,
        read16(copied(mem, program, start), RESET_VECTOR) == read16(mem, RESET_VECTOR),
{
    assert(copied(mem, program, start).subrange(start as int, start + program.len()) =~= program);
    assert(loaded(mem, program, start).subrange(start as int, start + program.len()) =~= program);
}

/// Bit 7 of `x ^ y` is set exactly when `x` and `y` differ in sign.
proof fn lemma_sign_xor(a: u8, v: u8, r: u8)
    ensures
        ((a ^ r) & (v ^ r) & 0x80 != 0) == ((a >= 0x80) != (r >= 0x80) && (v >= 0x80) != (r >= 0x80)),
{
    assert(((a ^ r) & (v ^ r) & 0x80 != 0) == ((a >= 0x80) != (r >= 0x80) && (v >= 0x80) != (r >= 0x80)))
        by (bit_vector);
}

/// ADC sets V exactly when the sum of A, the operand and C, read as signed bytes,
/// falls outside -128..=127.
pub proof fn lemma_adc_overflow(m: Machine, v: u8)
    ensures
        has_flag(adc(m, v).p, OVERFLOW) <==> !(-128 <= signed(m.a) + signed(v) + carry_in(m) <= 127),
{
    let sum = m.a as int + v as int + carry_in(m);
    let r = (sum % 256) as u8;
    let p1 = with_flag(m.p, CARRY, sum > 0xFF);
    let p2 = with_flag(p1, ZERO, r == 0);
    let p3 = with_flag(p2, NEGATIVE, r >= 0x80);
    lemma_with_flag(p3, OVERFLOW, (m.a ^ r) & (v ^ r) & 0x80 != 0, 0);
    lemma_sign_xor(m.a, v, r);
}

/// `!y` is `255 - y`.
proof fn lemma_not(y: u8)
    ensures
        !y == 255 - y,
{
    assert(!y == 255 - y) by (bit_vector);
}

/// SBC is ADC of the complemented operand; ADC adds the operand itself.
pub proof fn lemma_sbc_is_adc(m: Machine, mode: AddressingMode, d: Decoded)
    ensures
        execute(m, Mnemonic::SBC, mode, d).0 == adc(m, !operand(m, mode, d)),
        execute(m, Mnemonic::ADC, mode, d).0 == adc(m, operand(m, mode, d)),
{
    reveal(execute);
}

/// Subtracting `y` as ADC of `!y` with C set (no borrow): A becomes `A - y` modulo 256,
/// and C stays set exactly when no borrow was needed (`A >= y`).
pub proof fn lemma_sbc(m: Machine, y: u8)
    requires
        has_flag(m.p, CARRY),
    ensures
        adc(m, !y).a as int == (m.a as int - y as int + 256) % 256,
        has_flag(adc(m, !y).p, CARRY) <==> m.a >= y,
{
    lemma_not(y);
    let n = !y;
    let sum = m.a as int + n as int + carry_in(m);
    let r = (sum % 256) as u8;
    let p1 = with_flag(m.p, CARRY, sum > 0xFF);
    let p2 = with_flag(p1, ZERO, r == 0);
    let p3 = with_flag(p2, NEGATIVE, r >= 0x80);
    lemma_masks_disjoint();
    lemma_with_flag(m.p, CARRY, sum > 0xFF, CARRY);
    lemma_with_flag(p1, ZERO, r == 0, CARRY);
    lemma_with_flag(p2, NEGATIVE, r >= 0x80, CARRY);
    lemma_with_flag(p3, OVERFLOW, (m.a ^ r) & (n ^ r) & 0x80 != 0, CARRY);
}

/// Compare sets Z exactly when the register equals the operand, C exactly when it is
/// at least the operand, and N to bit 7 of their difference modulo 256.
pub proof fn lemma_compare(m: Machine, reg: u8, v: u8)
    ensures
        has_flag(compare(m, reg, v).p, ZERO) <==> reg == v,
        has_flag(compare(m, reg, v).p, CARRY) <==> reg >= v,
        has_flag(compare(m, reg, v).p, NEGATIVE) <==> (reg as int - v as int + 256) % 256 >= 128,
{
    let t = ((reg as int - v as int + 256) % 256) as u8;
    let p1 = with_flag(m.p, CARRY, reg >= v);
    let p2 = with_flag(p1, ZERO, t == 0);
    lemma_masks_disjoint();
    lemma_with_flag(m.p, CARRY, reg >= v, ZERO);
    lemma_with_flag(p1, ZERO, t == 0, CARRY);
    lemma_with_flag(p2, NEGATIVE, t >= 0x80, CARRY);
    lemma_with_flag(p2, NEGATIVE, t >= 0x80, ZERO);
    lemma_with_flag(p1, ZERO, t == 0, ZERO);
    lemma_with_flag(m.p, CARRY, reg >= v, CARRY);
}

/// Disassembling the bytes of one instruction gives one line: its mnemonic followed by
/// the operand written as its addressing mode prescribes.
pub proof fn lemma_disassemble_one(op: u8, lo: u8, hi: u8)
    requires
        opcode_table(op) is Some,
    ensures
        ({
            let e = opcode_table(op)->0;
            let bytes = seq![op, lo, hi].subrange(0, mode_len(e.mode) as int);
            disasm_from(bytes, 0, 0, false) == Ok::<Seq<Seq<char>>, crate::disassembler::DisassembleError>(
                seq![line_text(e, lo, hi)],
            )
        }),
{
    let e = opcode_table(op)->0;
    let bytes = seq![op, lo, hi].subrange(0, mode_len(e.mode) as int);
    crate::instruction::lemma_table_entry(op);
    assert(disasm_from(bytes, mode_len(e.mode) as nat, 0, false) == Ok::<Seq<Seq<char>>, crate::disassembler::DisassembleError>(Seq::empty()));
    assert(seq![line_text(e, lo, hi)] + Seq::<Seq<char>>::empty() =~= seq![line_text(e, lo, hi)]);
}

} // verus!
