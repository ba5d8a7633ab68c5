use vstd::prelude::*;
use crate::bus::Bus;
pub use crate::flags::Flags;
pub use crate::instruction::AddressingMode;
use crate::flags::{
    with_nz, has_flag, CARRY, ZERO, IRQ_DISABLE, DECIMAL, BREAK, UNUSED,
    OVERFLOW, NEGATIVE,
};
use crate::instruction::{Instruction, Mnemonic, opcode_table, lookup};
use crate::machine::{
    Machine, Decoded, decode, execute, step, step_entry, run_entry, reset, interrupt, push, popped,
    top, rd, adc, set_a, set_x, set_y, modified, branch, compare, jsr, rts, rti, brk,
    pulled_status, asl, lsr, rol, ror, bit, penalty, operand, addressed, ind_next, decode_indexed, decode_ind, decode_idx,
    decode_idy, zp, branch_target,
    mode_fits, lemma_table_fits, IRQ_VECTOR, NMI_VECTOR,
};
use crate::memory::{
    LoadError, copied, fits, loaded, read16, word, next_addr, DEFAULT_START, RESET_VECTOR, CPU_RAM_SIZE,
};

verus! {

/// Why the cycle-accurate path refused to run an instruction.
#[derive(Clone, Copy, Debug, PartialEq, Eq, Structural)]
pub enum ExecError {
    /// The opcode has no entry in the table.
    InvalidOpcodeStrict(u8),
    /// The opcode is one of the recognised but unimplemented unofficial ones.
    UnofficialOpcode(u8),
}


/// The entry that the cycle-accurate path runs for `op`, or why it refuses to.
pub open spec fn strict_entry(op: u8) -> Result<Instruction, ExecError> {
    match opcode_table(op) {
        None => Err(ExecError::InvalidOpcodeStrict(op)),
        Some(e) => if e.name == Mnemonic::IDK {
            Err(ExecError::UnofficialOpcode(op))
        } else {
            Ok(e)
        },
    }
}

/// One clock tick from `m` with `budget` cycles left of the instruction under way:
/// when none are left, the next instruction runs at once and its cycles, less this
/// one, become the budget.
pub open spec fn clock_spec(m: Machine, budget: nat) -> Result<(Machine, nat), ExecError> {
    if budget > 0 {
        Ok((m, (budget - 1) as nat))
    } else {
        match strict_entry(rd(m, m.pc)) {
            Err(err) => Err(err),
            Ok(e) => Ok((run_entry(m, e).0, (run_entry(m, e).1 - 1) as nat)),
        }
    }
}

/// `n` clock ticks, stopping at the first refused one: the machine, the budget, the
/// ticks that ran, and the error that stopped them if any.
pub open spec fn run_clocks(m: Machine, budget: nat, n: nat) -> (Machine, nat, nat, Option<ExecError>)
    decreases n,
{
    if n == 0 {
        (m, budget, 0, None)
    } else {
        match clock_spec(m, budget) {
            Err(err) => (m, budget, 0, Some(err)),
            Ok(next) => {
                let r = run_clocks(next.0, next.1, (n - 1) as nat);
                (r.0, r.1, r.2 + 1, r.3)
            },
        }
    }
}

/// The machine after `k` instructions in step mode.
pub open spec fn steps(m: Machine, k: nat) -> Machine
    decreases k,
{
    if k == 0 {
        m
    } else {
        step(steps(m, (k - 1) as nat)).0
    }
}

/// The cycles that the first `k` steps from `m` take.
pub open spec fn steps_cycles(m: Machine, k: nat) -> nat
    decreases k,
{
    if k == 0 {
        0
    } else {
        steps_cycles(m, (k - 1) as nat) + step(steps(m, (k - 1) as nat)).1
    }
}

/// Whether the next opcode is BRK.
pub open spec fn at_brk(m: Machine) -> bool {
    rd(m, m.pc) == 0
}

/// None of the first `k` machines that stepping from `m` goes through is at a BRK.
pub open spec fn no_brk_before(m: Machine, k: nat) -> bool {
    forall|j: nat| j < k ==> !at_brk(#[trigger] steps(m, j))
}

/// The extra cycles of an operation are at most two.
pub proof fn lemma_extra_cycles(m: Machine, name: Mnemonic, mode: AddressingMode, d: Decoded)
    ensures
        execute(m, name, mode, d).1 <= 2,
{
    reveal(execute);
}

/// A step takes at least the base cycles of the entry it runs, and at most two more.
pub proof fn lemma_step_cycles(m: Machine)
    ensures
        step(m).1 >= step_entry(rd(m, m.pc)).min_cycles,
        2 <= step(m).1 <= 9,
{
    let e = step_entry(rd(m, m.pc));
    lemma_table_fits(rd(m, m.pc));
    let m1 = Machine { pc: next_addr(m.pc), ..m };
    let d = decode(m1, e.mode);
    lemma_extra_cycles(Machine { pc: d.pc, ..m1 }, e.name, e.mode, d);
}

/// A 6502 processor with its bus.
pub struct CPU6502 {
    pub reg_a: u8,
    pub reg_x: u8,
    pub reg_y: u8,
    pub stk_ptr: u8,
    pub pc: u16,
    pub status: Flags,
    bus: Box<Bus>,
    /// Cycles left before the instruction under way is complete.
    cycles: u32,
    total_cycles: u32,
    /// Per-instruction scratch, empty between instructions.
    operand: Option<u8>,
    addr_abs: Option<u16>,
    addr_rel: Option<u8>,
    mode: AddressingMode,
    page_crossed: bool,
}

impl View for CPU6502 {
    type V = Machine;

    closed spec fn view(&self) -> Machine {
        Machine {
            a: self.reg_a,
            x: self.reg_x,
            y: self.reg_y,
            s: self.stk_ptr,
            pc: self.pc,
            p: self.status.bits,
            mem: self.memory(),
        }
    }
}

impl CPU6502 {
    pub const STACK_OFFSET: u16 = 0x0100;

    pub const RESET_CYCLES: u32 = 8;

    pub const IRQ_CYCLES: u32 = 7;

    pub const NMI_CYCLES: u32 = 8;

    /// The 64 KiB that the bus holds.
    pub closed spec fn memory(&self) -> Seq<u8> {
        self.bus@
    }

    /// Cycles left of the instruction under way.
    pub closed spec fn budget(&self) -> u32 {
        self.cycles
    }

    /// Cycles counted since construction.
    pub closed spec fn total(&self) -> u32 {
        self.total_cycles
    }

    /// The per-instruction scratch is empty.
    pub closed spec fn idle(&self) -> bool {
        self.operand is None && self.addr_abs is None && self.addr_rel is None && !self.page_crossed
    }

    /// `self` and `o` agree on the scratch and on the cycle total.
    pub closed spec fn same_scratch(&self, o: &Self) -> bool {
        &&& self.operand == o.operand
        &&& self.addr_abs == o.addr_abs
        &&& self.addr_rel == o.addr_rel
        &&& self.mode == o.mode
        &&& self.page_crossed == o.page_crossed
        &&& self.total_cycles == o.total_cycles
    }

    /// `self` and `o` agree on everything but the registers and memory.
    pub closed spec fn same_timing(&self, o: &Self) -> bool {
        self.same_scratch(o) && self.cycles == o.cycles
    }

    spec fn decoded(&self) -> Decoded {
        Decoded {
            pc: self.pc,
            addr: match self.addr_abs {
                Some(a) => a,
                None => 0,
            },
            rel: match self.addr_rel {
                Some(r) => r,
                None => 0,
            },
            crossed: self.page_crossed,
        }
    }

    pub proof fn lemma_memory_size(&self)
        ensures
            self.memory().len() == CPU_RAM_SIZE,
            self@.mem == self.memory(),
    {
        self.bus.lemma_size();
    }

    /// A processor on `bus` in its power-on state, PC at 0 and S at 0xFD.
    pub fn new(bus: Box<Bus>) -> (r: CPU6502)
        ensures
            r@ == (Machine { a: 0, x: 0, y: 0, s: 0xFD, pc: 0, p: UNUSED, mem: bus@ }),
            r.budget() == 0,
            r.total() == 0,
            r.idle(),
    {
        CPU6502 {
            reg_a: 0,
            reg_x: 0,
            reg_y: 0,
            stk_ptr: 0xFD,
            pc: 0,
            status: Flags::unused(),
            bus,
            cycles: 0,
            total_cycles: 0,
            operand: None,
            addr_abs: None,
            addr_rel: None,
            mode: AddressingMode::IMP,
            page_crossed: false,
        }
    }

    /// A processor on a fresh zeroed bus, with S at 0xFF and PC at `pc`.
    pub fn create_cpu_and_bus(pc: u16) -> (r: Self)
        ensures
            r@ == (Machine {
                a: 0,
                x: 0,
                y: 0,
                s: 0xFF,
                pc,
                p: UNUSED,
                mem: Seq::new(CPU_RAM_SIZE as nat, |i: int| 0u8),
            }),
            r.budget() == 0,
            r.total() == 0,
            r.idle(),
    {
        CPU6502 {
            reg_a: 0,
            reg_x: 0,
            reg_y: 0,
            stk_ptr: 0xFF,
            pc,
            status: Flags::unused(),
            bus: Box::new(Bus::new()),
            cycles: 0,
            total_cycles: 0,
            operand: None,
            addr_abs: None,
            addr_rel: None,
            mode: AddressingMode::IMP,
            page_crossed: false,
        }
    }

    pub fn get_a(&self) -> (r: u8)
        ensures
            r == self@.a,
    {
        self.reg_a
    }

    pub fn get_x(&self) -> (r: u8)
        ensures
            r == self@.x,
    {
        self.reg_x
    }

    pub fn get_y(&self) -> (r: u8)
        ensures
            r == self@.y,
    {
        self.reg_y
    }

    pub fn get_s(&self) -> (r: u8)
        ensures
            r == self@.s,
    {
        self.stk_ptr
    }

    pub fn get_pc(&self) -> (r: u16)
        ensures
            r == self@.pc,
    {
        self.pc
    }

    pub fn get_status(&self) -> (r: Flags)
        ensures
            r.bits == self@.p,
    {
        self.status
    }

    pub fn set_a(&mut self, v: u8)
        ensures
            final(self)@ == (Machine { a: v, ..old(self)@ }),
            final(self).same_timing(old(self)),
            final(self).budget() == old(self).budget(),
            final(self).total() == old(self).total(),
            old(self).idle() ==> final(self).idle(),
    {
        self.reg_a = v;
    }

    pub fn set_x(&mut self, v: u8)
        ensures
            final(self)@ == (Machine { x: v, ..old(self)@ }),
            final(self).same_timing(old(self)),
            final(self).budget() == old(self).budget(),
            final(self).total() == old(self).total(),
            old(self).idle() ==> final(self).idle(),
    {
        self.reg_x = v;
    }

    pub fn set_y(&mut self, v: u8)
        ensures
            final(self)@ == (Machine { y: v, ..old(self)@ }),
            final(self).same_timing(old(self)),
            final(self).budget() == old(self).budget(),
            final(self).total() == old(self).total(),
            old(self).idle() ==> final(self).idle(),
    {
        self.reg_y = v;
    }

    pub fn set_s(&mut self, v: u8)
        ensures
            final(self)@ == (Machine { s: v, ..old(self)@ }),
            final(self).same_timing(old(self)),
            final(self).budget() == old(self).budget(),
            final(self).total() == old(self).total(),
            old(self).idle() ==> final(self).idle(),
    {
        self.stk_ptr = v;
    }

    pub fn set_pc(&mut self, v: u16)
        ensures
            final(self)@ == (Machine { pc: v, ..old(self)@ }),
            final(self).same_timing(old(self)),
            final(self).budget() == old(self).budget(),
            final(self).total() == old(self).total(),
            old(self).idle() ==> final(self).idle(),
    {
        self.pc = v;
    }

    pub fn set_status(&mut self, f: Flags)
        ensures
            final(self)@ == (Machine { p: f.bits, ..old(self)@ }),
            final(self).same_timing(old(self)),
            final(self).budget() == old(self).budget(),
            final(self).total() == old(self).total(),
            old(self).idle() ==> final(self).idle(),
    {
        self.status = f;
    }

    /// Cycles counted since construction.
    pub fn get_total_cycles(&self) -> (r: u32)
        ensures
            r == self.total(),
    {
        self.total_cycles
    }

    /// The byte at `addr`.
    pub fn read(&self, addr: u16) -> (r: u8)
        ensures
            self.memory().len() == CPU_RAM_SIZE,
            r == self.memory()[addr as int],
    {
        self.bus.read(addr)
    }

    /// The little-endian word at `addr`; the high byte comes from the next address,
    /// wrapping at 0xFFFF.
    pub fn read_u16(&self, addr: u16) -> (r: u16)
        ensures
            self.memory().len() == CPU_RAM_SIZE,
            r == read16(self.memory(), addr),
    {
        self.bus.read_u16(addr)
    }

    /// Writes `val` at `addr`.
    pub fn write(&mut self, addr: u16, val: u8)
        ensures
            final(self)@ == (Machine { mem: old(self)@.mem.update(addr as int, val), ..old(self)@ }),
            final(self).same_timing(old(self)),
            final(self).budget() == old(self).budget(),
            final(self).total() == old(self).total(),
            old(self).idle() ==> final(self).idle(),
    {
        self.bus.write(addr, val);
    }

    /// The bytes from `start` to `end`, both included; `None` when `start` is past `end + 1`.
    pub fn index_memory(&self, start: u16, end: u16) -> (r: Option<&[u8]>)
        ensures
            r is Some <==> start as int <= end as int + 1,
            r matches Some(s) ==> s@ == self.memory().subrange(start as int, end as int + 1),
    {
        self.bus.index_memory(start, end)
    }

    /// Reads the byte at PC and moves PC past it.
    fn read_pc(&mut self) -> (r: u8)
        ensures
            r == rd(old(self)@, old(self).pc),
            final(self)@ == (Machine { pc: next_addr(old(self).pc), ..old(self)@ }),
            final(self).same_timing(old(self)),
    {
        let val = self.read(self.pc);
        self.pc = self.pc.wrapping_add(1);
        val
    }

    fn stack_push(&mut self, data: u8)
        ensures
            final(self)@ == push(old(self)@, data),
            final(self).same_timing(old(self)),
    {
        let addr = self.stk_ptr as u16 + Self::STACK_OFFSET;
        self.write(addr, data);
        self.stk_ptr = self.stk_ptr.wrapping_sub(1);
    }

    fn stack_pop(&mut self) -> (r: u8)
        ensures
            r == top(old(self)@),
            final(self)@ == popped(old(self)@),
            final(self).same_timing(old(self)),
    {
        self.stk_ptr = self.stk_ptr.wrapping_add(1);
        let addr = self.stk_ptr as u16 + Self::STACK_OFFSET;
        self.read(addr)
    }

    /// Sets Z and N from `v`.
    fn set_nz(&mut self, v: u8)
        ensures
            final(self)@ == (Machine { p: with_nz(old(self).status.bits, v), ..old(self)@ }),
            final(self).same_timing(old(self)),
    {
        self.status.set(Flags::zero(), v == 0);
        self.status.set(Flags::negative(), v >= 0x80);
    }

    /// The little-endian word at `lo_addr` and `hi_addr`.
    fn read_pair(&self, lo_addr: u16, hi_addr: u16) -> (r: u16)
        ensures
            r == word(rd(self@, lo_addr), rd(self@, hi_addr)),
    {
        let lo = self.read(lo_addr);
        let hi = self.read(hi_addr);
        (hi as u16) * 256 + lo as u16
    }

    /// `base` indexed by `index`, for the absolute indexed modes.
    fn indexed(base: u16, index: u8, pc: u16) -> (d: Decoded)
        ensures
            d == decode_indexed(base, index, pc),
    {
        let t = base.wrapping_add(index as u16);
        Decoded { pc, addr: t, rel: 0, crossed: t / 256 != base / 256 }
    }

    fn decode_ind(&self) -> (d: Decoded)
        ensures
            d == decode_ind(self@),
    {
        let pc1 = self.pc.wrapping_add(1);
        let ptr = self.read_pair(self.pc, pc1);
        // The high byte comes from the same page when the pointer ends in 0xFF.
        let next = if ptr % 256 == 0xFF {
            ptr - 0xFF
        } else {
            ptr + 1
        };
        assert(next == ind_next(ptr));
        Decoded { pc: pc1.wrapping_add(1), addr: self.read_pair(ptr, next), rel: 0, crossed: false }
    }

    fn decode_idx(&self) -> (d: Decoded)
        ensures
            d == decode_idx(self@),
    {
        let ptr = self.read(self.pc).wrapping_add(self.reg_x);
        let nxt = ptr.wrapping_add(1);
        assert(ptr as u16 == zp(rd(self@, self.pc) + self.reg_x));
        assert(nxt as u16 == zp(ptr as u16 + 1));
        let addr = self.read_pair(ptr as u16, nxt as u16);
        Decoded { pc: self.pc.wrapping_add(1), addr, rel: 0, crossed: false }
    }

    fn decode_idy(&self) -> (d: Decoded)
        ensures
            d == decode_idy(self@),
    {
        let ptr = self.read(self.pc);
        let nxt = ptr.wrapping_add(1);
        assert(nxt as u16 == zp(ptr + 1));
        let base = self.read_pair(ptr as u16, nxt as u16);
        Self::indexed(base, self.reg_y, self.pc.wrapping_add(1))
    }

    /// What the decoder finds for `mode` at PC, without moving PC.
    fn decode_operand(&self, mode: AddressingMode) -> (d: Decoded)
        ensures
            d == decode(self@, mode),
    {
        proof { self.lemma_memory_size(); }
        let pc1 = self.pc.wrapping_add(1);
        let pc2 = pc1.wrapping_add(1);
        match mode {
            AddressingMode::IMM => Decoded { pc: pc1, addr: self.pc, rel: 0, crossed: false },
            AddressingMode::REL => Decoded { pc: pc1, addr: 0, rel: self.read(self.pc), crossed: false },
            AddressingMode::ZP0 => Decoded { pc: pc1, addr: self.read(self.pc) as u16, rel: 0, crossed: false },
            AddressingMode::ZPX => Decoded {
                pc: pc1,
                addr: self.read(self.pc).wrapping_add(self.reg_x) as u16,
                rel: 0,
                crossed: false,
            },
            AddressingMode::ZPY => Decoded {
                pc: pc1,
                addr: self.read(self.pc).wrapping_add(self.reg_y) as u16,
                rel: 0,
                crossed: false,
            },
            AddressingMode::ABS => Decoded { pc: pc2, addr: self.read_pair(self.pc, pc1), rel: 0, crossed: false },
            AddressingMode::ABX => Self::indexed(self.read_pair(self.pc, pc1), self.reg_x, pc2),
            AddressingMode::ABY => Self::indexed(self.read_pair(self.pc, pc1), self.reg_y, pc2),
            AddressingMode::IND => self.decode_ind(),
            AddressingMode::IDX => self.decode_idx(),
            AddressingMode::IDY => self.decode_idy(),
            AddressingMode::IMP | AddressingMode::ACC => Decoded { pc: self.pc, addr: 0, rel: 0, crossed: false },
        }
    }

    /// Decodes the operand bytes for `mode`, moving PC past them and filling the scratch.
    fn run_addr_mode(&mut self, mode: AddressingMode)
        ensures
            final(self)@ == (Machine { pc: decode(old(self)@, mode).pc, ..old(self)@ }),
            final(self).decoded() == decode(old(self)@, mode),
            addressed(mode) <==> final(self).addr_abs is Some,
            mode is REL <==> final(self).addr_rel is Some,
            final(self).operand == (if mode is ACC { Some(old(self).reg_a) } else { None }),
            final(self).mode == old(self).mode,
            final(self).cycles == old(self).cycles,
            final(self).total_cycles == old(self).total_cycles,
    {
        let d = self.decode_operand(mode);
        self.pc = d.pc;
        self.page_crossed = d.crossed;
        self.operand = if let AddressingMode::ACC = mode {
            Some(self.reg_a)
        } else {
            None
        };
        self.addr_rel = if let AddressingMode::REL = mode {
            Some(d.rel)
        } else {
            None
        };
        self.addr_abs = match mode {
            AddressingMode::IMP | AddressingMode::ACC | AddressingMode::REL => None,
            _ => Some(d.addr),
        };
    }
}


impl CPU6502 {
    /// The operand in the scratch, 0 when there is none.
    spec fn opnd(&self) -> u8 {
        match self.operand {
            Some(v) => v,
            None => 0,
        }
    }

    fn adc(&mut self)
        requires
            old(self).operand is Some,
            old(self).cycles <= 16,
        ensures
            final(self)@ == adc(old(self)@, old(self).opnd()),
            final(self).cycles == old(self).cycles + penalty(old(self).decoded()),
            final(self).same_scratch(old(self)),
    {
        let v = self.operand.unwrap();
        let c: u16 = if self.status.contains(Flags::carry()) {
            1
        } else {
            0
        };
        let sum = self.reg_a as u16 + v as u16 + c;
        let r = (sum % 256) as u8;
        self.status.set(Flags::carry(), sum > 0xFF);
        self.status.set(Flags::zero(), r == 0);
        self.status.set(Flags::negative(), r >= 0x80);
        // Signed overflow: both inputs differ in sign from the result.
        self.status.set(Flags::overflow(), (self.reg_a ^ r) & (v ^ r) & 0x80 != 0);
        self.reg_a = r;
        self.add_penalty();
    }

    fn sbc(&mut self)
        requires
            old(self).operand is Some,
            old(self).cycles <= 16,
        ensures
            final(self)@ == adc(old(self)@, !old(self).opnd()),
            final(self).cycles == old(self).cycles + penalty(old(self).decoded()),
            final(self).same_scratch(old(self)),
    {
        // A - M - (1 - C) is A + !M + C on eight bits.
        let v = self.operand.unwrap();
        self.operand = Some(!v);
        self.adc();
        self.operand = Some(v);
    }

    fn and(&mut self)
        requires
            old(self).operand is Some,
            old(self).cycles <= 16,
        ensures
            final(self)@ == set_a(old(self)@, old(self)@.a & old(self).opnd()),
            final(self).cycles == old(self).cycles + penalty(old(self).decoded()),
            final(self).same_scratch(old(self)),
    {
        let r = self.reg_a & self.operand.unwrap();
        self.reg_a = r;
        self.set_nz(r);
        self.add_penalty();
    }

    fn ora(&mut self)
        requires
            old(self).operand is Some,
            old(self).cycles <= 16,
        ensures
            final(self)@ == set_a(old(self)@, old(self)@.a | old(self).opnd()),
            final(self).cycles == old(self).cycles + penalty(old(self).decoded()),
            final(self).same_scratch(old(self)),
    {
        let r = self.reg_a | self.operand.unwrap();
        self.reg_a = r;
        self.set_nz(r);
        self.add_penalty();
    }

    fn eor(&mut self)
        requires
            old(self).operand is Some,
            old(self).cycles <= 16,
        ensures
            final(self)@ == set_a(old(self)@, old(self)@.a ^ old(self).opnd()),
            final(self).cycles == old(self).cycles + penalty(old(self).decoded()),
            final(self).same_scratch(old(self)),
    {
        let r = self.reg_a ^ self.operand.unwrap();
        self.reg_a = r;
        self.set_nz(r);
        self.add_penalty();
    }

    fn asl(&mut self)
        requires
            old(self).operand is Some,
            old(self).mode is ACC || old(self).addr_abs is Some,
            old(self).opnd() == operand(old(self)@, old(self).mode, old(self).decoded()),
        ensures
            final(self)@ == asl(old(self)@, old(self).mode, old(self).decoded()),
            final(self).cycles == old(self).cycles,
            final(self).same_scratch(old(self)),
    {
        let v = self.operand.unwrap();
        let r = ((v as u16 * 2) % 256) as u8;
        self.status.set(Flags::carry(), v >= 0x80);
        self.set_nz(r);
        self.write_result(r);
    }

    fn lsr(&mut self)
        requires
            old(self).operand is Some,
            old(self).mode is ACC || old(self).addr_abs is Some,
            old(self).opnd() == operand(old(self)@, old(self).mode, old(self).decoded()),
        ensures
            final(self)@ == lsr(old(self)@, old(self).mode, old(self).decoded()),
            final(self).cycles == old(self).cycles,
            final(self).same_scratch(old(self)),
    {
        let v = self.operand.unwrap();
        let r = v / 2;
        self.status.set(Flags::carry(), v % 2 == 1);
        self.set_nz(r);
        self.write_result(r);
    }

    fn rol(&mut self)
        requires
            old(self).operand is Some,
            old(self).mode is ACC || old(self).addr_abs is Some,
            old(self).opnd() == operand(old(self)@, old(self).mode, old(self).decoded()),
        ensures
            final(self)@ == rol(old(self)@, old(self).mode, old(self).decoded()),
            final(self).cycles == old(self).cycles,
            final(self).same_scratch(old(self)),
    {
        let v = self.operand.unwrap();
        let c: u16 = if self.status.contains(Flags::carry()) { 1 } else { 0 };
        let r = ((v as u16 * 2 + c) % 256) as u8;
        self.status.set(Flags::carry(), v >= 0x80);
        self.set_nz(r);
        self.write_result(r);
    }

    fn ror(&mut self)
        requires
            old(self).operand is Some,
            old(self).mode is ACC || old(self).addr_abs is Some,
            old(self).opnd() == operand(old(self)@, old(self).mode, old(self).decoded()),
        ensures
            final(self)@ == ror(old(self)@, old(self).mode, old(self).decoded()),
            final(self).cycles == old(self).cycles,
            final(self).same_scratch(old(self)),
    {
        let v = self.operand.unwrap();
        let c: u8 = if self.status.contains(Flags::carry()) { 1 } else { 0 };
        let r = v / 2 + c * 128;
        self.status.set(Flags::carry(), v % 2 == 1);
        self.set_nz(r);
        self.write_result(r);
    }

    /// Stores the result of a shift or rotate: to A in accumulator mode, else to memory.
    fn write_result(&mut self, r: u8)
        requires
            old(self).mode is ACC || old(self).addr_abs is Some,
        ensures
            final(self)@ == (if old(self).mode is ACC {
                Machine { a: r, ..old(self)@ }
            } else {
                Machine { mem: old(self)@.mem.update(old(self).decoded().addr as int, r), ..old(self)@ }
            }),
            final(self).same_timing(old(self)),
    {
        if let AddressingMode::ACC = self.mode {
            self.reg_a = r;
        } else {
            self.write(self.addr_abs.unwrap(), r);
        }
    }

    /// One more cycle when indexing crossed a page.
    fn add_penalty(&mut self)
        requires
            old(self).cycles <= 16,
        ensures
            final(self)@ == old(self)@,
            final(self).cycles == old(self).cycles + penalty(old(self).decoded()),
            final(self).same_scratch(old(self)),
    {
        if self.page_crossed {
            self.cycles = self.cycles + 1;
        }
    }

    /// Takes a branch: one cycle, one more when the target is on another page.
    fn branch(&mut self)
        requires
            old(self).addr_rel is Some,
            old(self).cycles <= 16,
        ensures
            final(self)@ == branch(old(self)@, true, old(self).decoded()).0,
            final(self).cycles == old(self).cycles + branch(old(self)@, true, old(self).decoded()).1,
            final(self).same_scratch(old(self)),
    {
        self.cycles = self.cycles + 1;
        let rel = self.addr_rel.unwrap();
        let t = if rel >= 128 {
            self.pc.wrapping_sub(256 - rel as u16)
        } else {
            self.pc.wrapping_add(rel as u16)
        };
        assert(t == branch_target(self.pc, rel));
        if t / 256 != self.pc / 256 {
            self.cycles = self.cycles + 1;
        }
        self.pc = t;
    }

    fn compare(&mut self, reg: u8)
        requires
            old(self).operand is Some,
            old(self).cycles <= 16,
        ensures
            final(self)@ == compare(old(self)@, reg, old(self).opnd()),
            final(self).cycles == old(self).cycles + penalty(old(self).decoded()),
            final(self).same_scratch(old(self)),
    {
        self.add_penalty();
        let v = self.operand.unwrap();
        self.status.set(Flags::carry(), reg >= v);
        let t = reg.wrapping_sub(v);
        self.status.set(Flags::zero(), t == 0);
        self.status.set(Flags::negative(), t >= 0x80);
    }

    fn bcc(&mut self)
        requires
            old(self).addr_rel is Some,
            old(self).cycles <= 16,
        ensures
            final(self)@ == branch(old(self)@, !has_flag(old(self)@.p, CARRY), old(self).decoded()).0,
            final(self).cycles == old(self).cycles + branch(old(self)@, !has_flag(old(self)@.p, CARRY), old(self).decoded()).1,
            final(self).same_scratch(old(self)),
    {
        if !self.status.contains(Flags::carry()) {
            self.branch();
        }
    }

    fn bcs(&mut self)
        requires
            old(self).addr_rel is Some,
            old(self).cycles <= 16,
        ensures
            final(self)@ == branch(old(self)@, has_flag(old(self)@.p, CARRY), old(self).decoded()).0,
            final(self).cycles == old(self).cycles + branch(old(self)@, has_flag(old(self)@.p, CARRY), old(self).decoded()).1,
            final(self).same_scratch(old(self)),
    {
        if self.status.contains(Flags::carry()) {
            self.branch();
        }
    }

    fn beq(&mut self)
        requires
            old(self).addr_rel is Some,
            old(self).cycles <= 16,
        ensures
            final(self)@ == branch(old(self)@, has_flag(old(self)@.p, ZERO), old(self).decoded()).0,
            final(self).cycles == old(self).cycles + branch(old(self)@, has_flag(old(self)@.p, ZERO), old(self).decoded()).1,
            final(self).same_scratch(old(self)),
    {
        if self.status.contains(Flags::zero()) {
            self.branch();
        }
    }

    fn bne(&mut self)
        requires
            old(self).addr_rel is Some,
            old(self).cycles <= 16,
        ensures
            final(self)@ == branch(old(self)@, !has_flag(old(self)@.p, ZERO), old(self).decoded()).0,
            final(self).cycles == old(self).cycles + branch(old(self)@, !has_flag(old(self)@.p, ZERO), old(self).decoded()).1,
            final(self).same_scratch(old(self)),
    {
        if !self.status.contains(Flags::zero()) {
            self.branch();
        }
    }

    fn bmi(&mut self)
        requires
            old(self).addr_rel is Some,
            old(self).cycles <= 16,
        ensures
            final(self)@ == branch(old(self)@, has_flag(old(self)@.p, NEGATIVE), old(self).decoded()).0,
            final(self).cycles == old(self).cycles + branch(old(self)@, has_flag(old(self)@.p, NEGATIVE), old(self).decoded()).1,
            final(self).same_scratch(old(self)),
    {
        if self.status.contains(Flags::negative()) {
            self.branch();
        }
    }

    fn bpl(&mut self)
        requires
            old(self).addr_rel is Some,
            old(self).cycles <= 16,
        ensures
            final(self)@ == branch(old(self)@, !has_flag(old(self)@.p, NEGATIVE), old(self).decoded()).0,
            final(self).cycles == old(self).cycles + branch(old(self)@, !has_flag(old(self)@.p, NEGATIVE), old(self).decoded()).1,
            final(self).same_scratch(old(self)),
    {
        if !self.status.contains(Flags::negative()) {
            self.branch();
        }
    }

    fn bvs(&mut self)
        requires
            old(self).addr_rel is Some,
            old(self).cycles <= 16,
        ensures
            final(self)@ == branch(old(self)@, has_flag(old(self)@.p, OVERFLOW), old(self).decoded()).0,
            final(self).cycles == old(self).cycles + branch(old(self)@, has_flag(old(self)@.p, OVERFLOW), old(self).decoded()).1,
            final(self).same_scratch(old(self)),
    {
        if self.status.contains(Flags::overflow()) {
            self.branch();
        }
    }

    fn bvc(&mut self)
        requires
            old(self).addr_rel is Some,
            old(self).cycles <= 16,
        ensures
            final(self)@ == branch(old(self)@, !has_flag(old(self)@.p, OVERFLOW), old(self).decoded()).0,
            final(self).cycles == old(self).cycles + branch(old(self)@, !has_flag(old(self)@.p, OVERFLOW), old(self).decoded()).1,
            final(self).same_scratch(old(self)),
    {
        if !self.status.contains(Flags::overflow()) {
            self.branch();
        }
    }

    fn bit(&mut self)
        requires
            old(self).operand is Some,
            old(self).cycles <= 16,
        ensures
            final(self)@ == bit(old(self)@, old(self).opnd()),
            final(self).cycles == old(self).cycles + 0,
            final(self).same_scratch(old(self)),
    {
        let v = self.operand.unwrap();
        self.status.set(Flags::zero(), self.reg_a & v == 0);
        self.status.set(Flags::overflow(), v & 0x40 != 0);
        self.status.set(Flags::negative(), v >= 0x80);
    }

    fn clc(&mut self)
        requires
            old(self).cycles <= 16,
        ensures
            final(self)@ == (Machine { p: old(self)@.p & !CARRY, ..old(self)@ }),
            final(self).cycles == old(self).cycles + 0,
            final(self).same_scratch(old(self)),
    {
        self.status.remove(Flags::carry());
    }

    fn cld(&mut self)
        requires
            old(self).cycles <= 16,
        ensures
            final(self)@ == (Machine { p: old(self)@.p & !DECIMAL, ..old(self)@ }),
            final(self).cycles == old(self).cycles + 0,
            final(self).same_scratch(old(self)),
    {
        self.status.remove(Flags::decimal());
    }

    fn cli(&mut self)
        requires
            old(self).cycles <= 16,
        ensures
            final(self)@ == (Machine { p: old(self)@.p & !IRQ_DISABLE, ..old(self)@ }),
            final(self).cycles == old(self).cycles + 0,
            final(self).same_scratch(old(self)),
    {
        self.status.remove(Flags::irq_disable());
    }

    fn clv(&mut self)
        requires
            old(self).cycles <= 16,
        ensures
            final(self)@ == (Machine { p: old(self)@.p & !OVERFLOW, ..old(self)@ }),
            final(self).cycles == old(self).cycles + 0,
            final(self).same_scratch(old(self)),
    {
        self.status.remove(Flags::overflow());
    }

    fn sec(&mut self)
        requires
            old(self).cycles <= 16,
        ensures
            final(self)@ == (Machine { p: old(self)@.p | CARRY, ..old(self)@ }),
            final(self).cycles == old(self).cycles + 0,
            final(self).same_scratch(old(self)),
    {
        self.status.insert(Flags::carry());
    }

    fn sed(&mut self)
        requires
            old(self).cycles <= 16,
        ensures
            final(self)@ == (Machine { p: old(self)@.p | DECIMAL, ..old(self)@ }),
            final(self).cycles == old(self).cycles + 0,
            final(self).same_scratch(old(self)),
    {
        self.status.insert(Flags::decimal());
    }

    fn sei(&mut self)
        requires
            old(self).cycles <= 16,
        ensures
            final(self)@ == (Machine { p: old(self)@.p | IRQ_DISABLE, ..old(self)@ }),
            final(self).cycles == old(self).cycles + 0,
            final(self).same_scratch(old(self)),
    {
        self.status.insert(Flags::irq_disable());
    }

    fn cmp(&mut self)
        requires
            old(self).operand is Some,
            old(self).cycles <= 16,
        ensures
            final(self)@ == compare(old(self)@, old(self).reg_a, old(self).opnd()),
            final(self).cycles == old(self).cycles + penalty(old(self).decoded()),
            final(self).same_scratch(old(self)),
    {
        self.compare(self.reg_a);
    }

    fn cpx(&mut self)
        requires
            old(self).operand is Some,
            old(self).cycles <= 16,
        ensures
            final(self)@ == compare(old(self)@, old(self).reg_x, old(self).opnd()),
            final(self).cycles == old(self).cycles + penalty(old(self).decoded()),
            final(self).same_scratch(old(self)),
    {
        self.compare(self.reg_x);
    }

    fn cpy(&mut self)
        requires
            old(self).operand is Some,
            old(self).cycles <= 16,
        ensures
            final(self)@ == compare(old(self)@, old(self).reg_y, old(self).opnd()),
            final(self).cycles == old(self).cycles + penalty(old(self).decoded()),
            final(self).same_scratch(old(self)),
    {
        self.compare(self.reg_y);
    }

    fn dec(&mut self)
        requires
            old(self).operand is Some,
            old(self).addr_abs is Some,
            old(self).cycles <= 16,
        ensures
            final(self)@ == modified(old(self)@, old(self).decoded(), ((old(self).opnd() as int + 255) % 256) as u8),
            final(self).cycles == old(self).cycles + 0,
            final(self).same_scratch(old(self)),
    {
        let r = self.operand.unwrap().wrapping_sub(1);
        self.set_nz(r);
        self.write(self.addr_abs.unwrap(), r);
    }

    fn inc(&mut self)
        requires
            old(self).operand is Some,
            old(self).addr_abs is Some,
            old(self).cycles <= 16,
        ensures
            final(self)@ == modified(old(self)@, old(self).decoded(), ((old(self).opnd() as int + 1) % 256) as u8),
            final(self).cycles == old(self).cycles + 0,
            final(self).same_scratch(old(self)),
    {
        let r = self.operand.unwrap().wrapping_add(1);
        self.set_nz(r);
        self.write(self.addr_abs.unwrap(), r);
    }

    fn dex(&mut self)
        requires
            old(self).cycles <= 16,
        ensures
            final(self)@ == set_x(old(self)@, ((old(self).reg_x as int + 255) % 256) as u8),
            final(self).cycles == old(self).cycles + 0,
            final(self).same_scratch(old(self)),
    {
        let r = self.reg_x.wrapping_sub(1);
        self.reg_x = r;
        self.set_nz(r);
    }

    fn dey(&mut self)
        requires
            old(self).cycles <= 16,
        ensures
            final(self)@ == set_y(old(self)@, ((old(self).reg_y as int + 255) % 256) as u8),
            final(self).cycles == old(self).cycles + 0,
            final(self).same_scratch(old(self)),
    {
        let r = self.reg_y.wrapping_sub(1);
        self.reg_y = r;
        self.set_nz(r);
    }

    fn inx(&mut self)
        requires
            old(self).cycles <= 16,
        ensures
            final(self)@ == set_x(old(self)@, ((old(self).reg_x as int + 1) % 256) as u8),
            final(self).cycles == old(self).cycles + 0,
            final(self).same_scratch(old(self)),
    {
        let r = self.reg_x.wrapping_add(1);
        self.reg_x = r;
        self.set_nz(r);
    }

    fn iny(&mut self)
        requires
            old(self).cycles <= 16,
        ensures
            final(self)@ == set_y(old(self)@, ((old(self).reg_y as int + 1) % 256) as u8),
            final(self).cycles == old(self).cycles + 0,
            final(self).same_scratch(old(self)),
    {
        let r = self.reg_y.wrapping_add(1);
        self.reg_y = r;
        self.set_nz(r);
    }

    fn jmp(&mut self)
        requires
            old(self).addr_abs is Some,
            old(self).cycles <= 16,
        ensures
            final(self)@ == (Machine { pc: old(self).decoded().addr, ..old(self)@ }),
            final(self).cycles == old(self).cycles + 0,
            final(self).same_scratch(old(self)),
    {
        self.pc = self.addr_abs.unwrap();
    }

    fn jsr(&mut self)
        requires
            old(self).addr_abs is Some,
            old(self).cycles <= 16,
        ensures
            final(self)@ == jsr(old(self)@, old(self).decoded().addr),
            final(self).cycles == old(self).cycles + 0,
            final(self).same_scratch(old(self)),
    {
        // PC is past the operand here; the pushed address is that of its last byte.
        let ret = self.pc.wrapping_sub(1);
        self.stack_push((ret / 256) as u8);
        self.stack_push((ret % 256) as u8);
        self.pc = self.addr_abs.unwrap();
    }

    fn lda(&mut self)
        requires
            old(self).operand is Some,
            old(self).cycles <= 16,
        ensures
            final(self)@ == set_a(old(self)@, old(self).opnd()),
            final(self).cycles == old(self).cycles + penalty(old(self).decoded()),
            final(self).same_scratch(old(self)),
    {
        let v = self.operand.unwrap();
        self.reg_a = v;
        self.set_nz(v);
        self.add_penalty();
    }

    fn ldx(&mut self)
        requires
            old(self).operand is Some,
            old(self).cycles <= 16,
        ensures
            final(self)@ == set_x(old(self)@, old(self).opnd()),
            final(self).cycles == old(self).cycles + penalty(old(self).decoded()),
            final(self).same_scratch(old(self)),
    {
        let v = self.operand.unwrap();
        self.reg_x = v;
        self.set_nz(v);
        self.add_penalty();
    }

    fn ldy(&mut self)
        requires
            old(self).operand is Some,
            old(self).cycles <= 16,
        ensures
            final(self)@ == set_y(old(self)@, old(self).opnd()),
            final(self).cycles == old(self).cycles + penalty(old(self).decoded()),
            final(self).same_scratch(old(self)),
    {
        let v = self.operand.unwrap();
        self.reg_y = v;
        self.set_nz(v);
        self.add_penalty();
    }

    fn pha(&mut self)
        requires
            old(self).cycles <= 16,
        ensures
            final(self)@ == push(old(self)@, old(self).reg_a),
            final(self).cycles == old(self).cycles + 0,
            final(self).same_scratch(old(self)),
    {
        self.stack_push(self.reg_a);
    }

    fn php(&mut self)
        requires
            old(self).cycles <= 16,
        ensures
            final(self)@ == push(old(self)@, old(self)@.p | BREAK | UNUSED),
            final(self).cycles == old(self).cycles + 0,
            final(self).same_scratch(old(self)),
    {
        self.stack_push(self.status.bits | BREAK | UNUSED);
    }

    fn pla(&mut self)
        requires
            old(self).cycles <= 16,
        ensures
            final(self)@ == set_a(popped(old(self)@), top(old(self)@)),
            final(self).cycles == old(self).cycles + 0,
            final(self).same_scratch(old(self)),
    {
        let v = self.stack_pop();
        self.reg_a = v;
        self.set_nz(v);
    }

    fn plp(&mut self)
        requires
            old(self).cycles <= 16,
        ensures
            final(self)@ == (Machine { p: pulled_status(top(old(self)@)), ..popped(old(self)@) }),
            final(self).cycles == old(self).cycles + 0,
            final(self).same_scratch(old(self)),
    {
        let mut flags = Flags::from_bits_truncate(self.stack_pop());
        flags.remove(Flags::brk());
        flags.insert(Flags::unused());
        self.status = flags;
    }

    fn rti(&mut self)
        requires
            old(self).cycles <= 16,
        ensures
            final(self)@ == rti(old(self)@),
            final(self).cycles == old(self).cycles + 0,
            final(self).same_scratch(old(self)),
    {
        let mut flags = Flags::from_bits_truncate(self.stack_pop());
        flags.remove(Flags::brk());
        flags.insert(Flags::unused());
        self.status = flags;
        let lo = self.stack_pop();
        let hi = self.stack_pop();
        self.pc = (hi as u16) * 256 + lo as u16;
    }

    fn rts(&mut self)
        requires
            old(self).cycles <= 16,
        ensures
            final(self)@ == rts(old(self)@),
            final(self).cycles == old(self).cycles + 0,
            final(self).same_scratch(old(self)),
    {
        let lo = self.stack_pop();
        let hi = self.stack_pop();
        self.pc = ((hi as u16) * 256 + lo as u16).wrapping_add(1);
    }

    fn brk(&mut self)
        requires
            old(self).cycles <= 16,
        ensures
            final(self)@ == brk(old(self)@),
            final(self).cycles == old(self).cycles + 0,
            final(self).same_scratch(old(self)),
    {
        // PC is already past the BRK byte; the pushed address skips one more.
        let ret = self.pc.wrapping_add(1);
        self.stack_push((ret / 256) as u8);
        self.stack_push((ret % 256) as u8);
        self.stack_push(self.status.bits | IRQ_DISABLE | BREAK | UNUSED);
        self.pc = self.read_u16(IRQ_VECTOR);
        self.status.set(Flags::irq_disable(), true);
        self.status.set(Flags::brk(), false);
    }

    fn sta(&mut self)
        requires
            old(self).addr_abs is Some,
            old(self).cycles <= 16,
        ensures
            final(self)@ == (Machine { mem: old(self)@.mem.update(old(self).decoded().addr as int, old(self).reg_a), ..old(self)@ }),
            final(self).cycles == old(self).cycles + 0,
            final(self).same_scratch(old(self)),
    {
        self.write(self.addr_abs.unwrap(), self.reg_a);
    }

    fn stx(&mut self)
        requires
            old(self).addr_abs is Some,
            old(self).cycles <= 16,
        ensures
            final(self)@ == (Machine { mem: old(self)@.mem.update(old(self).decoded().addr as int, old(self).reg_x), ..old(self)@ }),
            final(self).cycles == old(self).cycles + 0,
            final(self).same_scratch(old(self)),
    {
        self.write(self.addr_abs.unwrap(), self.reg_x);
    }

    fn sty(&mut self)
        requires
            old(self).addr_abs is Some,
            old(self).cycles <= 16,
        ensures
            final(self)@ == (Machine { mem: old(self)@.mem.update(old(self).decoded().addr as int, old(self).reg_y), ..old(self)@ }),
            final(self).cycles == old(self).cycles + 0,
            final(self).same_scratch(old(self)),
    {
        self.write(self.addr_abs.unwrap(), self.reg_y);
    }

    fn tax(&mut self)
        requires
            old(self).cycles <= 16,
        ensures
            final(self)@ == set_x(old(self)@, old(self).reg_a),
            final(self).cycles == old(self).cycles + 0,
            final(self).same_scratch(old(self)),
    {
        let v = self.reg_a;
        self.reg_x = v;
        self.set_nz(v);
    }

    fn tay(&mut self)
        requires
            old(self).cycles <= 16,
        ensures
            final(self)@ == set_y(old(self)@, old(self).reg_a),
            final(self).cycles == old(self).cycles + 0,
            final(self).same_scratch(old(self)),
    {
        let v = self.reg_a;
        self.reg_y = v;
        self.set_nz(v);
    }

    fn tsx(&mut self)
        requires
            old(self).cycles <= 16,
        ensures
            final(self)@ == set_x(old(self)@, old(self).stk_ptr),
            final(self).cycles == old(self).cycles + 0,
            final(self).same_scratch(old(self)),
    {
        let v = self.stk_ptr;
        self.reg_x = v;
        self.set_nz(v);
    }

    fn txa(&mut self)
        requires
            old(self).cycles <= 16,
        ensures
            final(self)@ == set_a(old(self)@, old(self).reg_x),
            final(self).cycles == old(self).cycles + 0,
            final(self).same_scratch(old(self)),
    {
        let v = self.reg_x;
        self.reg_a = v;
        self.set_nz(v);
    }

    fn tya(&mut self)
        requires
            old(self).cycles <= 16,
        ensures
            final(self)@ == set_a(old(self)@, old(self).reg_y),
            final(self).cycles == old(self).cycles + 0,
            final(self).same_scratch(old(self)),
    {
        let v = self.reg_y;
        self.reg_a = v;
        self.set_nz(v);
    }

    fn txs(&mut self)
        requires
            old(self).cycles <= 16,
        ensures
            final(self)@ == (Machine { s: old(self).reg_x, ..old(self)@ }),
            final(self).cycles == old(self).cycles + 0,
            final(self).same_scratch(old(self)),
    {
        self.stk_ptr = self.reg_x;
    }

    fn nop(&mut self)
        requires
            old(self).cycles <= 16,
        ensures
            final(self)@ == old(self)@,
            final(self).cycles == old(self).cycles + 0,
            final(self).same_scratch(old(self)),
    {

    }
}


impl CPU6502 {
    /// Runs the operation `name` on the scratch that the decoder filled for `mode`.
    #[verifier::rlimit(50)]
    fn run_operation(&mut self, name: Mnemonic, mode: AddressingMode)
        requires
            mode_fits(name, mode),
            addressed(mode) <==> old(self).addr_abs is Some,
            mode is REL <==> old(self).addr_rel is Some,
            old(self).cycles <= 16,
        ensures
            final(self)@ == execute(old(self)@, name, mode, old(self).decoded()).0,
            final(self).cycles == old(self).cycles + execute(old(self)@, name, mode, old(self).decoded()).1,
            final(self).total_cycles == old(self).total_cycles,
    {
        proof {
            self.lemma_memory_size();
            reveal(execute);
        }
        self.mode = mode;
        self.operand = match mode {
            AddressingMode::IMP | AddressingMode::REL | AddressingMode::IND => None,
            AddressingMode::ACC => Some(self.reg_a),
            _ => Some(self.read(self.addr_abs.unwrap())),
        };
        match name {
            Mnemonic::ADC => self.adc(),
            Mnemonic::SBC => self.sbc(),
            Mnemonic::AND => self.and(),
            Mnemonic::ORA => self.ora(),
            Mnemonic::EOR => self.eor(),
            Mnemonic::ASL => self.asl(),
            Mnemonic::LSR => self.lsr(),
            Mnemonic::ROL => self.rol(),
            Mnemonic::ROR => self.ror(),
            Mnemonic::BCC => self.bcc(),
            Mnemonic::BCS => self.bcs(),
            Mnemonic::BEQ => self.beq(),
            Mnemonic::BNE => self.bne(),
            Mnemonic::BMI => self.bmi(),
            Mnemonic::BPL => self.bpl(),
            Mnemonic::BVS => self.bvs(),
            Mnemonic::BVC => self.bvc(),
            Mnemonic::BIT => self.bit(),
            Mnemonic::CLC => self.clc(),
            Mnemonic::CLD => self.cld(),
            Mnemonic::CLI => self.cli(),
            Mnemonic::CLV => self.clv(),
            Mnemonic::SEC => self.sec(),
            Mnemonic::SED => self.sed(),
            Mnemonic::SEI => self.sei(),
            Mnemonic::CMP => self.cmp(),
            Mnemonic::CPX => self.cpx(),
            Mnemonic::CPY => self.cpy(),
            Mnemonic::DEC => self.dec(),
            Mnemonic::INC => self.inc(),
            Mnemonic::DEX => self.dex(),
            Mnemonic::DEY => self.dey(),
            Mnemonic::INX => self.inx(),
            Mnemonic::INY => self.iny(),
            Mnemonic::JMP => self.jmp(),
            Mnemonic::JSR => self.jsr(),
            Mnemonic::RTS => self.rts(),
            Mnemonic::RTI => self.rti(),
            Mnemonic::BRK => self.brk(),
            Mnemonic::LDA => self.lda(),
            Mnemonic::LDX => self.ldx(),
            Mnemonic::LDY => self.ldy(),
            Mnemonic::STA => self.sta(),
            Mnemonic::STX => self.stx(),
            Mnemonic::STY => self.sty(),
            Mnemonic::PHA => self.pha(),
            Mnemonic::PHP => self.php(),
            Mnemonic::PLA => self.pla(),
            Mnemonic::PLP => self.plp(),
            Mnemonic::TAX => self.tax(),
            Mnemonic::TAY => self.tay(),
            Mnemonic::TSX => self.tsx(),
            Mnemonic::TXA => self.txa(),
            Mnemonic::TYA => self.tya(),
            Mnemonic::TXS => self.txs(),
            Mnemonic::NOP | Mnemonic::IDK => self.nop(),
        }
    }

    /// Decodes and runs `e`, PC being just past its opcode, then empties the scratch.
    fn execute_entry(&mut self, e: Instruction)
        requires
            mode_fits(e.name, e.mode),
            old(self).cycles <= 16,
        ensures
            ({
                let d = decode(old(self)@, e.mode);
                let r = execute(Machine { pc: d.pc, ..old(self)@ }, e.name, e.mode, d);
                &&& final(self)@ == r.0
                &&& final(self).cycles == old(self).cycles + r.1
            }),
            final(self).total_cycles == old(self).total_cycles,
            final(self).idle(),
    {
        self.run_addr_mode(e.mode);
        self.run_operation(e.name, e.mode);
        self.operand = None;
        self.addr_abs = None;
        self.addr_rel = None;
        self.page_crossed = false;
    }

    /// The entry that step mode runs for `op`.
    fn step_instruction(op: u8) -> (e: Instruction)
        ensures
            e == step_entry(op),
    {
        match lookup(op) {
            Some(e) => if e.name == Mnemonic::IDK {
                Instruction::new(Mnemonic::NOP, 0xEA, AddressingMode::IMP, 1, 2)
            } else {
                e
            },
            None => Instruction::new(Mnemonic::NOP, 0xEA, AddressingMode::IMP, 1, 2),
        }
    }

    /// Runs the next instruction whatever the cycle budget, an unknown or unofficial
    /// opcode running as NOP, and returns the cycles it took.
    pub fn execute_step(&mut self) -> (r: u32)
        requires
            old(self).total() <= u32::MAX - 9,
        ensures
            final(self)@ == step(old(self)@).0,
            r as nat == step(old(self)@).1,
            r >= step_entry(rd(old(self)@, old(self)@.pc)).min_cycles,
            2 <= r <= 9,
            final(self).total() == old(self).total() + r,
            final(self).budget() == 0,
            final(self).idle(),
    {
        proof { lemma_step_cycles(self@); }
        let op = self.read_pc();
        let e = Self::step_instruction(op);
        proof { lemma_table_fits(op); }
        self.cycles = e.min_cycles as u32;
        self.execute_entry(e);
        let n = self.cycles;
        self.total_cycles = self.total_cycles + n;
        self.cycles = 0;
        n
    }

    /// The entry that the cycle-accurate path runs for `op`, or why it refuses to.
    fn strict_instruction(op: u8) -> (r: Result<Instruction, ExecError>)
        ensures
            r == strict_entry(op),
    {
        match lookup(op) {
            None => Err(ExecError::InvalidOpcodeStrict(op)),
            Some(e) => if e.name == Mnemonic::IDK {
                Err(ExecError::UnofficialOpcode(op))
            } else {
                Ok(e)
            },
        }
    }

    /// One clock tick. When no cycles are left of the instruction under way, the next
    /// one is fetched and run at once, and its cycle count becomes the budget; each
    /// tick then takes one cycle off the budget and adds one to the total. An unknown
    /// or unofficial opcode is refused with nothing changed.
    pub fn clock(&mut self) -> (r: Result<(), ExecError>)
        requires
            old(self).total() < u32::MAX,
        ensures
            match clock_spec(old(self)@, old(self).budget() as nat) {
                Ok(next) => {
                    &&& r is Ok
                    &&& final(self)@ == next.0
                    &&& final(self).budget() == next.1
                    &&& final(self).total() == old(self).total() + 1
                },
                Err(err) => {
                    &&& r == Err::<(), ExecError>(err)
                    &&& final(self)@ == old(self)@
                    &&& final(self).budget() == old(self).budget()
                    &&& final(self).total() == old(self).total()
                },
            },
            old(self).idle() ==> final(self).idle(),
    {
        if self.cycles == 0 {
            let op = self.read(self.pc);
            let e = match Self::strict_instruction(op) {
                Ok(e) => e,
                Err(err) => return Err(err),
            };
            proof { lemma_table_fits(op); }
            let ghost m1 = Machine { pc: next_addr(self.pc), ..self@ };
            proof { lemma_extra_cycles(Machine { pc: decode(m1, e.mode).pc, ..m1 }, e.name, e.mode, decode(m1, e.mode)); }
            self.pc = self.pc.wrapping_add(1);
            self.cycles = e.min_cycles as u32;
            self.execute_entry(e);
        }
        self.cycles = self.cycles - 1;
        self.total_cycles = self.total_cycles + 1;
        Ok(())
    }

    /// Calls `clock` `cycles` times, stopping at the first refused instruction.
    pub fn run_cycles(&mut self, cycles: u32) -> (r: Result<(), ExecError>)
        requires
            old(self).total() + cycles <= u32::MAX,
        ensures
            ({
                let run = run_clocks(old(self)@, old(self).budget() as nat, cycles as nat);
                &&& final(self)@ == run.0
                &&& final(self).budget() == run.1
                &&& final(self).total() == old(self).total() + run.2
                &&& r == match run.3 {
                    None => Ok::<(), ExecError>(()),
                    Some(err) => Err(err),
                }
            }),
            old(self).idle() ==> final(self).idle(),
    {
        let mut i: u32 = 0;
        while i < cycles
            invariant
                i <= cycles,
                old(self).total() + cycles <= u32::MAX,
                self.total() == old(self).total() + i,
                old(self).idle() ==> self.idle(),
                ({
                    let all = run_clocks(old(self)@, old(self).budget() as nat, cycles as nat);
                    let rest = run_clocks(self@, self.budget() as nat, (cycles - i) as nat);
                    all == (rest.0, rest.1, (rest.2 + i) as nat, rest.3)
                }),
            decreases cycles - i,
        {
            match self.clock() {
                Ok(()) => {},
                Err(err) => return Err(err),
            }
            i = i + 1;
        }
        Ok(())
    }

    /// Steps until the next opcode is BRK (0x00), which is fetched but not run, so
    /// that PC ends just past it. Returns false, having stopped between two
    /// instructions, if the cycle total would otherwise overflow.
    #[verifier::rlimit(100)]
    pub fn run_until_brk(&mut self) -> (r: bool)
        ensures
            exists|k: nat|
                #![trigger steps(old(self)@, k)]
                {
                    let m = steps(old(self)@, k);
                    &&& no_brk_before(old(self)@, k)
                    &&& final(self).total() == old(self).total() + steps_cycles(old(self)@, k)
                    &&& r ==> at_brk(m) && final(self)@ == (Machine { pc: next_addr(m.pc), ..m })
                    &&& !r ==> final(self)@ == m && final(self).total() > u32::MAX - 9
                },
            final(self).total() >= old(self).total(),
            old(self).idle() ==> final(self).idle(),
    {
        let ghost k: nat = 0;
        loop
            invariant
                self@ == steps(old(self)@, k),
                no_brk_before(old(self)@, k),
                self.total() == old(self).total() + steps_cycles(old(self)@, k),
                self.total() >= old(self).total(),
                old(self).idle() ==> self.idle(),
            decreases u32::MAX - self.total(),
        {
            proof { self.lemma_memory_size(); }
            if self.read(self.pc) == 0 {
                self.pc = self.pc.wrapping_add(1);
                return true;
            }
            if self.total_cycles > u32::MAX - 9 {
                return false;
            }
            let ghost before = self@;
            let ghost total_before = self.total();
            let n = self.execute_step();
            proof {
                assert(steps(old(self)@, k + 1) == step(steps(old(self)@, k)).0);
                assert(steps_cycles(old(self)@, k + 1) == steps_cycles(old(self)@, k) + step(
                    steps(old(self)@, k),
                ).1);
                assert(self@ == steps(old(self)@, k + 1));
                assert(self.total() == total_before + n);
                assert forall|j: nat| j < k + 1 implies !at_brk(#[trigger] steps(old(self)@, j)) by {
                    if j == k {
                        assert(steps(old(self)@, j) == before);
                    }
                }
                k = k + 1;
            }
        }
    }

    /// RESET: A, X and Y cleared, S = 0xFD, P = U, PC from the reset vector; the
    /// next instruction waits for the eight cycles of the sequence.
    pub fn reset(&mut self)
        ensures
            final(self)@ == reset(old(self)@),
            final(self).budget() == Self::RESET_CYCLES,
            final(self).total() == old(self).total(),
            final(self).idle(),
    {
        self.reg_a = 0;
        self.reg_x = 0;
        self.reg_y = 0;
        self.stk_ptr = 0xFD;
        self.status = Flags::unused();
        self.pc = self.read_u16(RESET_VECTOR);
        self.cycles = Self::RESET_CYCLES;
        self.operand = None;
        self.addr_abs = None;
        self.addr_rel = None;
        self.page_crossed = false;
        self.mode = AddressingMode::IMP;
    }

    /// Pushes PC and the status (I and U set, B cleared) and jumps through `vector`.
    fn enter_interrupt(&mut self, vector: u16)
        ensures
            final(self)@ == interrupt(old(self)@, vector),
            final(self).same_timing(old(self)),
    {
        self.stack_push((self.pc / 256) as u8);
        self.stack_push((self.pc % 256) as u8);
        self.status.insert(Flags::irq_disable());
        self.status.insert(Flags::unused());
        self.status.remove(Flags::brk());
        self.stack_push(self.status.bits);
        self.pc = self.read_u16(vector);
    }

    /// Interrupt request: taken only when I is clear, through the vector at 0xFFFE,
    /// in seven cycles.
    pub fn irq(&mut self)
        ensures
            !has_flag(old(self)@.p, IRQ_DISABLE) ==> final(self)@ == interrupt(old(self)@, IRQ_VECTOR)
                && final(self).budget() == Self::IRQ_CYCLES && final(self).idle(),
            has_flag(old(self)@.p, IRQ_DISABLE) ==> final(self)@ == old(self)@
                && final(self).same_timing(old(self)) && final(self).budget() == old(self).budget()
                && (old(self).idle() ==> final(self).idle()),
            final(self).total() == old(self).total(),
    {
        if !self.status.contains(Flags::irq_disable()) {
            self.enter_interrupt(IRQ_VECTOR);
            self.cycles = Self::IRQ_CYCLES;
            self.operand = None;
            self.addr_abs = None;
            self.addr_rel = None;
            self.page_crossed = false;
            self.mode = AddressingMode::IMP;
        }
    }

    /// Non-maskable interrupt: always taken, through the vector at 0xFFFA, in eight cycles.
    pub fn nmi(&mut self)
        ensures
            final(self)@ == interrupt(old(self)@, NMI_VECTOR),
            final(self).budget() == Self::NMI_CYCLES,
            final(self).total() == old(self).total(),
            final(self).idle(),
    {
        self.enter_interrupt(NMI_VECTOR);
        self.cycles = Self::NMI_CYCLES;
        self.operand = None;
        self.addr_abs = None;
        self.addr_rel = None;
        self.page_crossed = false;
        self.mode = AddressingMode::IMP;
    }

    /// Loads `program` at 0x8000, points the reset vector at it and resets, so that the
    /// program starts after the eight cycles of RESET. Fails, changing nothing, when the
    /// program would reach 0xFFFC.
    pub fn load(&mut self, program: Vec<u8>) -> (r: Result<(), LoadError>)
        ensures
            r is Ok <==> fits(program@.len(), DEFAULT_START),
            r is Ok ==> final(self)@ == reset(Machine { mem: loaded(old(self)@.mem, program@, DEFAULT_START), ..old(self)@ })
                && final(self).budget() == Self::RESET_CYCLES && final(self).idle(),
            r is Err ==> r == Err::<(), LoadError>(LoadError::ProgramTooLarge) && final(self)@ == old(self)@
                && final(self).same_timing(old(self)) && final(self).budget() == old(self).budget()
                && (old(self).idle() ==> final(self).idle()),
            final(self).total() == old(self).total(),
    {
        match self.bus.load_cpu(program, None) {
            Ok(()) => {},
            Err(e) => return Err(e),
        }
        self.reset();
        Ok(())
    }

    /// Loads `program` at `start_addr`: every other byte, the reset vector included, and
    /// every register stay as they were. Fails, changing nothing, when the program would
    /// reach 0xFFFC.
    pub fn specific_load(&mut self, program: Vec<u8>, start_addr: u16) -> (r: Result<(), LoadError>)
        ensures
            r is Ok <==> fits(program@.len(), start_addr),
            r is Ok ==> final(self)@ == (Machine { mem: copied(old(self)@.mem, program@, start_addr), ..old(self)@ }),
            r is Err ==> r == Err::<(), LoadError>(LoadError::ProgramTooLarge) && final(self)@ == old(self)@,
            final(self).same_timing(old(self)),
            final(self).budget() == old(self).budget(),
            final(self).total() == old(self).total(),
            old(self).idle() ==> final(self).idle(),
    {
        self.bus.load_at(program, start_addr)
    }
}

} // verus!
