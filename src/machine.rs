use vstd::prelude::*;
use crate::flags::{
    with_flag, with_nz, has_flag, CARRY, ZERO, IRQ_DISABLE, BREAK, UNUSED, OVERFLOW, NEGATIVE,
};
use crate::instruction::{AddressingMode, Instruction, Mnemonic, opcode_table};
use crate::memory::{word, next_addr, read16};

verus! {

/// Address of the NMI vector.
pub const NMI_VECTOR: u16 = 0xFFFA;

/// Address of the IRQ and BRK vector.
pub const IRQ_VECTOR: u16 = 0xFFFE;

/// Base of the stack page: the stack byte for S lives at 0x0100 + S.
pub const STACK_OFFSET: u16 = 0x0100;

/// The state that instructions read and write: the registers and the 64 KiB of memory.
pub struct Machine {
    pub a: u8,
    pub x: u8,
    pub y: u8,
    pub s: u8,
    pub pc: u16,
    pub p: u8,
    pub mem: Seq<u8>,
}

/// What the addressing-mode decoder found: the program counter past the operand
/// bytes, the effective address, the branch offset and whether indexing crossed a page.
pub struct Decoded {
    pub pc: u16,
    pub addr: u16,
    pub rel: u8,
    pub crossed: bool,
}

pub open spec fn rd(m: Machine, a: u16) -> u8 {
    m.mem[a as int]
}

/// `a + b` on 16 bits, wrapping.
pub open spec fn add16(a: u16, b: u8) -> u16 {
    ((a as int + b as int) % 0x10000) as u16
}

/// The zero-page address of `v`, wrapping within page zero.
pub open spec fn zp(v: int) -> u16 {
    (v % 256) as u16
}

/// Whether `a` and `b` lie on different 256-byte pages.
pub open spec fn other_page(a: u16, b: u16) -> bool {
    a / 256 != b / 256
}

/// The modes whose operand lives at an effective address.
pub open spec fn addressed(mode: AddressingMode) -> bool {
    !(mode is IMP || mode is ACC || mode is REL)
}

/// The pointer from which JMP (indirect) takes its high byte: the next address,
/// but without carrying into the high byte of the pointer.
pub open spec fn ind_next(p: u16) -> u16 {
    ((p / 256) * 256 + (p % 256 + 1) % 256) as u16
}

/// Absolute indexed modes: `base + index`, noting a page cross.
pub open spec fn decode_indexed(base: u16, index: u8, pc: u16) -> Decoded {
    let t = add16(base, index);
    Decoded { pc, addr: t, rel: 0, crossed: other_page(base, t) }
}

/// JMP (indirect): the target is read through the pointer, with the page-boundary bug.
pub open spec fn decode_ind(m: Machine) -> Decoded {
    let p = word(rd(m, m.pc), rd(m, next_addr(m.pc)));
    Decoded {
        pc: next_addr(next_addr(m.pc)),
        addr: word(rd(m, p), rd(m, ind_next(p))),
        rel: 0,
        crossed: false,
    }
}

/// (zp,X): the address is read from page zero at operand + X, wrapping within the page.
pub open spec fn decode_idx(m: Machine) -> Decoded {
    let z = zp(rd(m, m.pc) + m.x);
    Decoded { pc: next_addr(m.pc), addr: word(rd(m, z), rd(m, zp(z + 1))), rel: 0, crossed: false }
}

/// (zp),Y: the base is read from page zero at the operand, then Y is added to it.
pub open spec fn decode_idy(m: Machine) -> Decoded {
    let b = rd(m, m.pc);
    decode_indexed(word(rd(m, b as u16), rd(m, zp(b + 1))), m.y, next_addr(m.pc))
}

/// Decodes the operand bytes at `m.pc` (the byte after the opcode) in the given mode.
pub open spec fn decode(m: Machine, mode: AddressingMode) -> Decoded {
    let pc1 = next_addr(m.pc);
    let pc2 = next_addr(pc1);
    let b1 = rd(m, m.pc);
    match mode {
        AddressingMode::IMM => Decoded { pc: pc1, addr: m.pc, rel: 0, crossed: false },
        AddressingMode::REL => Decoded { pc: pc1, addr: 0, rel: b1, crossed: false },
        AddressingMode::ZP0 => Decoded { pc: pc1, addr: b1 as u16, rel: 0, crossed: false },
        AddressingMode::ZPX => Decoded { pc: pc1, addr: zp(b1 + m.x), rel: 0, crossed: false },
        AddressingMode::ZPY => Decoded { pc: pc1, addr: zp(b1 + m.y), rel: 0, crossed: false },
        AddressingMode::ABS => Decoded { pc: pc2, addr: word(b1, rd(m, pc1)), rel: 0, crossed: false },
        AddressingMode::ABX => decode_indexed(word(b1, rd(m, pc1)), m.x, pc2),
        AddressingMode::ABY => decode_indexed(word(b1, rd(m, pc1)), m.y, pc2),
        AddressingMode::IND => decode_ind(m),
        AddressingMode::IDX => decode_idx(m),
        AddressingMode::IDY => decode_idy(m),
        AddressingMode::IMP | AddressingMode::ACC => Decoded {
            pc: m.pc,
            addr: 0,
            rel: 0,
            crossed: false,
        },
    }
}

/// Whether an operation can run in a mode: the pairs that the opcode table holds
/// all satisfy it (see `lemma_table_fits`).
pub open spec fn mode_fits(name: Mnemonic, mode: AddressingMode) -> bool {
    match name {
        Mnemonic::ASL | Mnemonic::LSR | Mnemonic::ROL | Mnemonic::ROR => mode is ACC || (addressed(
            mode,
        ) && !(mode is IND)),
        Mnemonic::BCC | Mnemonic::BCS | Mnemonic::BEQ | Mnemonic::BNE | Mnemonic::BMI
        | Mnemonic::BPL | Mnemonic::BVS | Mnemonic::BVC => mode is REL,
        Mnemonic::JMP => addressed(mode),
        Mnemonic::ADC | Mnemonic::SBC | Mnemonic::AND | Mnemonic::ORA | Mnemonic::EOR
        | Mnemonic::BIT | Mnemonic::CMP | Mnemonic::CPX | Mnemonic::CPY | Mnemonic::DEC
        | Mnemonic::INC | Mnemonic::JSR | Mnemonic::LDA | Mnemonic::LDX | Mnemonic::LDY
        | Mnemonic::STA | Mnemonic::STX | Mnemonic::STY => addressed(mode) && !(mode is IND),
        _ => mode is IMP,
    }
}

/// Every entry of the opcode table pairs its operation with a mode it can run in,
/// and takes between 2 and 7 cycles.
pub proof fn lemma_table_fits(op: u8)
    ensures
        opcode_table(op) matches Some(e) ==> mode_fits(e.name, e.mode) && 2 <= e.min_cycles <= 7
            && e.opcode == op,
{
}

/// The operand of an instruction: A in accumulator mode, else the byte at the effective address.
pub open spec fn operand(m: Machine, mode: AddressingMode, d: Decoded) -> u8 {
    if mode is ACC {
        m.a
    } else {
        rd(m, d.addr)
    }
}

/// The extra cycle of an indexed read that crossed a page.
pub open spec fn penalty(d: Decoded) -> nat {
    if d.crossed {
        1
    } else {
        0
    }
}

pub open spec fn stack_addr(s: u8) -> int {
    STACK_OFFSET as int + s as int
}

/// Pushes `v`: it is written at 0x0100 + S, then S decreases by one, modulo 256.
pub open spec fn push(m: Machine, v: u8) -> Machine {
    Machine { mem: m.mem.update(stack_addr(m.s), v), s: ((m.s as int + 255) % 256) as u8, ..m }
}

/// S after a pop: one more, modulo 256.
pub open spec fn pop_s(s: u8) -> u8 {
    ((s as int + 1) % 256) as u8
}

/// The byte that a pop returns.
pub open spec fn top(m: Machine) -> u8 {
    m.mem[stack_addr(pop_s(m.s))]
}

/// The machine after a pop.
pub open spec fn popped(m: Machine) -> Machine {
    Machine { s: pop_s(m.s), ..m }
}

/// The status that PLP and RTI take from the stack: B cleared and U set.
pub open spec fn pulled_status(v: u8) -> u8 {
    (v & !BREAK) | UNUSED
}

/// ADC: A + operand + C, with C, Z, N and V set from the sum.
pub open spec fn adc(m: Machine, v: u8) -> Machine {
    let sum = m.a as int + v as int + if has_flag(m.p, CARRY) {
        1int
    } else {
        0
    };
    let r = (sum % 256) as u8;
    let p1 = with_flag(m.p, CARRY, sum > 0xFF);
    let p2 = with_flag(p1, ZERO, r == 0);
    let p3 = with_flag(p2, NEGATIVE, r >= 0x80);
    Machine { a: r, p: with_flag(p3, OVERFLOW, (m.a ^ r) & (v ^ r) & 0x80 != 0), ..m }
}

/// A takes `r`; Z and N follow it.
pub open spec fn set_a(m: Machine, r: u8) -> Machine {
    Machine { a: r, p: with_nz(m.p, r), ..m }
}

pub open spec fn set_x(m: Machine, r: u8) -> Machine {
    Machine { x: r, p: with_nz(m.p, r), ..m }
}

pub open spec fn set_y(m: Machine, r: u8) -> Machine {
    Machine { y: r, p: with_nz(m.p, r), ..m }
}

/// The result of a shift or rotate: C from the bit shifted out, Z and N from `r`,
/// which goes to A in accumulator mode and to the effective address otherwise.
pub open spec fn shifted(m: Machine, mode: AddressingMode, d: Decoded, r: u8, c: bool) -> Machine {
    let p = with_nz(with_flag(m.p, CARRY, c), r);
    if mode is ACC {
        Machine { a: r, p, ..m }
    } else {
        Machine { p, mem: m.mem.update(d.addr as int, r), ..m }
    }
}

/// The carry flag as a number.
pub open spec fn carry_in(m: Machine) -> int {
    if has_flag(m.p, CARRY) {
        1
    } else {
        0
    }
}

/// ASL: shift left, bit 7 into C.
pub open spec fn asl(m: Machine, mode: AddressingMode, d: Decoded) -> Machine {
    let v = operand(m, mode, d);
    shifted(m, mode, d, ((v as int * 2) % 256) as u8, v >= 0x80)
}

/// LSR: shift right, bit 0 into C.
pub open spec fn lsr(m: Machine, mode: AddressingMode, d: Decoded) -> Machine {
    let v = operand(m, mode, d);
    shifted(m, mode, d, v / 2, v % 2 == 1)
}

/// ROL: shift left with C into bit 0, bit 7 into C.
pub open spec fn rol(m: Machine, mode: AddressingMode, d: Decoded) -> Machine {
    let v = operand(m, mode, d);
    shifted(m, mode, d, ((v as int * 2 + carry_in(m)) % 256) as u8, v >= 0x80)
}

/// ROR: shift right with C into bit 7, bit 0 into C.
pub open spec fn ror(m: Machine, mode: AddressingMode, d: Decoded) -> Machine {
    let v = operand(m, mode, d);
    shifted(m, mode, d, (v / 2 + carry_in(m) * 128) as u8, v % 2 == 1)
}

/// BIT: Z from A AND the operand, V and N from bits 6 and 7 of the operand.
pub open spec fn bit(m: Machine, v: u8) -> Machine {
    let p = with_flag(with_flag(m.p, ZERO, m.a & v == 0), OVERFLOW, v & 0x40 != 0);
    Machine { p: with_flag(p, NEGATIVE, v >= 0x80), ..m }
}

/// A memory read-modify-write (INC, DEC) that stores `r`.
pub open spec fn modified(m: Machine, d: Decoded, r: u8) -> Machine {
    Machine { p: with_nz(m.p, r), mem: m.mem.update(d.addr as int, r), ..m }
}

/// The value of `rel` as a two's-complement offset.
pub open spec fn signed(rel: u8) -> int {
    if rel >= 128 {
        rel as int - 256
    } else {
        rel as int
    }
}

pub open spec fn branch_target(pc: u16, rel: u8) -> u16 {
    ((pc as int + signed(rel) + 0x10000) % 0x10000) as u16
}

/// A conditional branch: when taken, one cycle more, and one more again when the
/// target lies on another page.
pub open spec fn branch(m: Machine, taken: bool, d: Decoded) -> (Machine, nat) {
    if taken {
        let t = branch_target(m.pc, d.rel);
        (Machine { pc: t, ..m }, if other_page(m.pc, t) {
            2
        } else {
            1
        })
    } else {
        (m, 0)
    }
}

/// CMP, CPX, CPY: C when `reg >= v`, Z when equal, N from bit 7 of `reg - v` modulo 256.
pub open spec fn compare(m: Machine, reg: u8, v: u8) -> Machine {
    let t = ((reg as int - v as int + 256) % 256) as u8;
    Machine {
        p: with_flag(with_flag(with_flag(m.p, CARRY, reg >= v), ZERO, t == 0), NEGATIVE, t >= 0x80),
        ..m
    }
}

/// JSR: pushes the address of the last operand byte, high byte first, and jumps.
pub open spec fn jsr(m: Machine, target: u16) -> Machine {
    let ret = (m.pc as int + 0xFFFF) % 0x10000;
    let m1 = push(push(m, (ret / 256) as u8), (ret % 256) as u8);
    Machine { pc: target, ..m1 }
}

/// RTS: pops the low then the high byte and resumes one past that address.
pub open spec fn rts(m: Machine) -> Machine {
    let lo = top(m);
    let m1 = popped(m);
    let hi = top(m1);
    Machine { pc: next_addr(word(lo, hi)), ..popped(m1) }
}

/// RTI: pops the status (B cleared, U set), then the low and the high byte of PC.
pub open spec fn rti(m: Machine) -> Machine {
    let v = top(m);
    let m1 = popped(m);
    let lo = top(m1);
    let m2 = popped(m1);
    let hi = top(m2);
    Machine { p: pulled_status(v), pc: word(lo, hi), ..popped(m2) }
}

/// BRK: pushes PC + 1 and the status with I, B and U set, then sets I, clears B
/// and jumps through the vector at 0xFFFE.
pub open spec fn brk(m: Machine) -> Machine {
    let ret = (m.pc as int + 1) % 0x10000;
    let m1 = push(push(m, (ret / 256) as u8), (ret % 256) as u8);
    let m2 = push(m1, m.p | IRQ_DISABLE | BREAK | UNUSED);
    Machine {
        pc: read16(m2.mem, IRQ_VECTOR),
        p: with_flag(with_flag(m.p, IRQ_DISABLE, true), BREAK, false),
        ..m2
    }
}

/// The effect of the operation `name` on `m`, whose PC is already past the operand
/// bytes, and the cycles it adds to the base count.
#[verifier::opaque]
pub open spec fn execute(m: Machine, name: Mnemonic, mode: AddressingMode, d: Decoded) -> (
    Machine,
    nat,
) {
    let v = operand(m, mode, d);
    let pen = penalty(d);
    match name {
        Mnemonic::ADC => (adc(m, v), pen),
        Mnemonic::SBC => (adc(m, !v), pen),
        Mnemonic::AND => (set_a(m, m.a & v), pen),
        Mnemonic::ORA => (set_a(m, m.a | v), pen),
        Mnemonic::EOR => (set_a(m, m.a ^ v), pen),
        Mnemonic::ASL => (asl(m, mode, d), 0),
        Mnemonic::LSR => (lsr(m, mode, d), 0),
        Mnemonic::ROL => (rol(m, mode, d), 0),
        Mnemonic::ROR => (ror(m, mode, d), 0),
        Mnemonic::BCC => branch(m, !has_flag(m.p, CARRY), d),
        Mnemonic::BCS => branch(m, has_flag(m.p, CARRY), d),
        Mnemonic::BEQ => branch(m, has_flag(m.p, ZERO), d),
        Mnemonic::BNE => branch(m, !has_flag(m.p, ZERO), d),
        Mnemonic::BMI => branch(m, has_flag(m.p, NEGATIVE), d),
        Mnemonic::BPL => branch(m, !has_flag(m.p, NEGATIVE), d),
        Mnemonic::BVS => branch(m, has_flag(m.p, OVERFLOW), d),
        Mnemonic::BVC => branch(m, !has_flag(m.p, OVERFLOW), d),
        Mnemonic::BIT => (bit(m, v), 0),
        Mnemonic::CLC => (Machine { p: m.p & !CARRY, ..m }, 0),
        Mnemonic::CLD => (Machine { p: m.p & !crate::flags::DECIMAL, ..m }, 0),
        Mnemonic::CLI => (Machine { p: m.p & !IRQ_DISABLE, ..m }, 0),
        Mnemonic::CLV => (Machine { p: m.p & !OVERFLOW, ..m }, 0),
        Mnemonic::SEC => (Machine { p: m.p | CARRY, ..m }, 0),
        Mnemonic::SED => (Machine { p: m.p | crate::flags::DECIMAL, ..m }, 0),
        Mnemonic::SEI => (Machine { p: m.p | IRQ_DISABLE, ..m }, 0),
        Mnemonic::CMP => (compare(m, m.a, v), pen),
        Mnemonic::CPX => (compare(m, m.x, v), pen),
        Mnemonic::CPY => (compare(m, m.y, v), pen),
        Mnemonic::DEC => (modified(m, d, ((v as int + 255) % 256) as u8), 0),
        Mnemonic::INC => (modified(m, d, ((v as int + 1) % 256) as u8), 0),
        Mnemonic::DEX => (set_x(m, ((m.x as int + 255) % 256) as u8), 0),
        Mnemonic::DEY => (set_y(m, ((m.y as int + 255) % 256) as u8), 0),
        Mnemonic::INX => (set_x(m, ((m.x as int + 1) % 256) as u8), 0),
        Mnemonic::INY => (set_y(m, ((m.y as int + 1) % 256) as u8), 0),
        Mnemonic::JMP => (Machine { pc: d.addr, ..m }, 0),
        Mnemonic::JSR => (jsr(m, d.addr), 0),
        Mnemonic::RTS => (rts(m), 0),
        Mnemonic::RTI => (rti(m), 0),
        Mnemonic::BRK => (brk(m), 0),
        Mnemonic::LDA => (set_a(m, v), pen),
        Mnemonic::LDX => (set_x(m, v), pen),
        Mnemonic::LDY => (set_y(m, v), pen),
        Mnemonic::STA => (Machine { mem: m.mem.update(d.addr as int, m.a), ..m }, 0),
        Mnemonic::STX => (Machine { mem: m.mem.update(d.addr as int, m.x), ..m }, 0),
        Mnemonic::STY => (Machine { mem: m.mem.update(d.addr as int, m.y), ..m }, 0),
        Mnemonic::PHA => (push(m, m.a), 0),
        Mnemonic::PHP => (push(m, m.p | BREAK | UNUSED), 0),
        Mnemonic::PLA => (set_a(popped(m), top(m)), 0),
        Mnemonic::PLP => (Machine { p: pulled_status(top(m)), ..popped(m) }, 0),
        Mnemonic::TAX => (set_x(m, m.a), 0),
        Mnemonic::TAY => (set_y(m, m.a), 0),
        Mnemonic::TSX => (set_x(m, m.s), 0),
        Mnemonic::TXA => (set_a(m, m.x), 0),
        Mnemonic::TYA => (set_a(m, m.y), 0),
        Mnemonic::TXS => (Machine { s: m.x, ..m }, 0),
        Mnemonic::NOP | Mnemonic::IDK => (m, 0),
    }
}

/// The entry of NOP, which stands in for opcodes that step mode does not execute.
pub open spec fn nop_entry() -> Instruction {
    Instruction {
        name: Mnemonic::NOP,
        opcode: 0xEA,
        mode: AddressingMode::IMP,
        bytes: 1,
        min_cycles: 2,
    }
}

/// The entry that step mode runs for `op`: its own, or NOP's for an unknown or
/// unofficial opcode.
pub open spec fn step_entry(op: u8) -> Instruction {
    match opcode_table(op) {
        Some(e) => if e.name == Mnemonic::IDK {
            nop_entry()
        } else {
            e
        },
        None => nop_entry(),
    }
}

/// One instruction run from `m` with the entry `e`: fetch, decode, execute. Gives
/// the new machine and the cycles taken, the base count of `e` included.
pub open spec fn run_entry(m: Machine, e: Instruction) -> (Machine, nat) {
    let m1 = Machine { pc: next_addr(m.pc), ..m };
    let d = decode(m1, e.mode);
    let r = execute(Machine { pc: d.pc, ..m1 }, e.name, e.mode, d);
    (r.0, (e.min_cycles + r.1) as nat)
}

/// One instruction in step mode.
pub open spec fn step(m: Machine) -> (Machine, nat) {
    run_entry(m, step_entry(rd(m, m.pc)))
}

/// RESET: A, X and Y cleared, S = 0xFD, P = U, PC from the reset vector.
pub open spec fn reset(m: Machine) -> Machine {
    Machine { a: 0, x: 0, y: 0, s: 0xFD, p: UNUSED, pc: read16(m.mem, crate::memory::RESET_VECTOR), mem: m.mem }
}

/// The entry sequence of IRQ and NMI: push PC high then low, set I and U and clear
/// B, push the status, and jump through `vector`.
pub open spec fn interrupt(m: Machine, vector: u16) -> Machine {
    let m1 = push(push(m, (m.pc / 256) as u8), (m.pc % 256) as u8);
    let p = (m.p | IRQ_DISABLE | UNUSED) & !BREAK;
    let m2 = push(Machine { p, ..m1 }, p);
    Machine { pc: read16(m2.mem, vector), ..m2 }
}

} // verus!
