use vstd::prelude::*;

verus! {

/// Size of the address space: every `u16` address names one byte.
pub const CPU_RAM_SIZE: usize = 0x10000;

/// Address of the two-byte reset vector.
pub const RESET_VECTOR: u16 = 0xFFFC;

/// Where a program is loaded when no start address is given.
pub const DEFAULT_START: u16 = 0x8000;

/// Why a program could not be loaded.
#[derive(Clone, Copy, Debug, PartialEq, Eq, Structural)]
pub enum LoadError {
    /// The program would reach the reset vector at 0xFFFC.
    ProgramTooLarge,
}

/// The 16-bit value whose low byte is `lo` and high byte is `hi`.
pub open spec fn word(lo: u8, hi: u8) -> u16 {
    (hi as int * 256 + lo as int) as u16
}

/// The address after `a`, wrapping from 0xFFFF to 0.
pub open spec fn next_addr(a: u16) -> u16 {
    ((a as int + 1) % 0x10000) as u16
}

/// The little-endian 16-bit value at `addr` and the address after it.
pub open spec fn read16(mem: Seq<u8>, addr: u16) -> u16 {
    word(mem[addr as int], mem[next_addr(addr) as int])
}

/// `mem` with `val` written little-endian at `addr` and the address after it.
pub open spec fn write16(mem: Seq<u8>, addr: u16, val: u16) -> Seq<u8> {
    mem.update(addr as int, (val % 256) as u8).update(next_addr(addr) as int, (val / 256) as u8)
}

/// Whether a program of `len` bytes fits between `start` and the reset vector.
pub open spec fn fits(len: nat, start: u16) -> bool {
    len <= RESET_VECTOR as int - start as int
}

/// `mem` with the bytes of `program` written one after another from `start` on, and
/// nothing else changed.
pub open spec fn copied(mem: Seq<u8>, program: Seq<u8>, start: u16) -> Seq<u8> {
    Seq::new(
        mem.len(),
        |i: int|
            if start <= i < start + program.len() {
                program[i - start]
            } else {
                mem[i]
            },
    )
}

/// `mem` after loading `program` at `start`: the reset vector points at `start`,
/// the program's bytes follow one another from `start` on, and nothing else changes.
pub open spec fn loaded(mem: Seq<u8>, program: Seq<u8>, start: u16) -> Seq<u8> {
    copied(write16(mem, RESET_VECTOR, start), program, start)
}

/// A byte-addressable store of the whole 16-bit address space.
pub trait Memory {
    /// The bytes held, indexed by address.
    spec fn contents(&self) -> Seq<u8>;

    fn read(&self, addr: u16) -> (r: u8)
        ensures
            self.contents().len() == CPU_RAM_SIZE,
            r == self.contents()[addr as int],
    ;

    fn write(&mut self, addr: u16, val: u8)
        ensures
            final(self).contents() == old(self).contents().update(addr as int, val),
    ;

    /// Little-endian read; the high byte comes from the next address, wrapping at 0xFFFF.
    fn read_u16(&self, addr: u16) -> (r: u16)
        ensures
            self.contents().len() == CPU_RAM_SIZE,
            r == read16(self.contents(), addr),
    ;

    /// Little-endian write; the high byte goes to the next address, wrapping at 0xFFFF.
    fn write_u16(&mut self, addr: u16, val: u16)
        ensures
            final(self).contents() == write16(old(self).contents(), addr, val),
    ;

    /// Copies `program` to `start_addr` (0x8000 when `None`) and points the reset
    /// vector at it; fails, changing nothing, when the program would reach 0xFFFC.
    fn load(&mut self, program: Vec<u8>, start_addr: Option<u16>) -> (r: Result<(), LoadError>)
        ensures
            ({
                let start = match start_addr {
                    Some(s) => s,
                    None => DEFAULT_START,
                };
                &&& r is Ok <==> fits(program@.len(), start)
                &&& r is Ok ==> final(self).contents() == loaded(old(self).contents(), program@, start)
                &&& r is Err ==> r == Err::<(), LoadError>(LoadError::ProgramTooLarge)
                    && final(self).contents() == old(self).contents()
            }),
    ;
}

/// Flat 64 KiB memory.
#[allow(non_camel_case_types)]
pub struct CPU_RAM {
    mem: Box<[u8; CPU_RAM_SIZE]>,
}

impl View for CPU_RAM {
    type V = Seq<u8>;

    closed spec fn view(&self) -> Seq<u8> {
        self.mem@
    }
}

impl CPU_RAM {
    /// A memory holding zero everywhere.
    pub fn new() -> (r: CPU_RAM)
        ensures
            r@ == Seq::new(CPU_RAM_SIZE as nat, |i: int| 0u8),
    {
        let mem: [u8; CPU_RAM_SIZE] = vstd::array::array_fill_for_copy_types(0u8);
        let r = CPU_RAM { mem: Box::new(mem) };
        assert(r@ =~= Seq::new(CPU_RAM_SIZE as nat, |i: int| 0u8));
        r
    }

    pub proof fn lemma_size(&self)
        ensures
            self@.len() == CPU_RAM_SIZE,
    {
    }

    /// Copies `program` to `start` on; nothing else changes.
    pub fn copy_program(&mut self, program: &Vec<u8>, start: u16)
        requires
            fits(program@.len(), start),
        ensures
            final(self)@ == copied(old(self)@, program@, start),
    {
        let ghost before = self@;
        let mut i: usize = 0;
        while i < program.len()
            invariant
                start as int + program@.len() <= RESET_VECTOR as int,
                i <= program@.len(),
                self@.len() == CPU_RAM_SIZE,
                before.len() == CPU_RAM_SIZE,
                forall|k: int|
                    0 <= k < CPU_RAM_SIZE ==> #[trigger] self@[k] == if start <= k < start + i {
                        program@[k - start]
                    } else {
                        before[k]
                    },
            decreases program@.len() - i,
        {
            self.mem[start as usize + i] = program[i];
            i = i + 1;
        }
        assert(self@ =~= copied(before, program@, start));
    }

    /// Copies `program` to `start_addr` on, leaving every other byte (the reset vector
    /// included) as it was; fails, changing nothing, when the program would reach 0xFFFC.
    pub fn load_at(&mut self, program: Vec<u8>, start_addr: u16) -> (r: Result<(), LoadError>)
        ensures
            r is Ok <==> fits(program@.len(), start_addr),
            r is Ok ==> final(self)@ == copied(old(self)@, program@, start_addr),
            r is Err ==> r == Err::<(), LoadError>(LoadError::ProgramTooLarge) && final(self)@ == old(self)@,
    {
        if start_addr > RESET_VECTOR || program.len() > (RESET_VECTOR - start_addr) as usize {
            return Err(LoadError::ProgramTooLarge);
        }
        self.copy_program(&program, start_addr);
        Ok(())
    }

    /// The bytes from `start` to `end`, both included; `None` when `start` is past `end + 1`.
    pub fn index_memory(&self, start: u16, end: u16) -> (r: Option<&[u8]>)
        ensures
            r is Some <==> start as int <= end as int + 1,
            r matches Some(s) ==> s@ == self@.subrange(start as int, end as int + 1),
    {
        if start as usize <= end as usize + 1 {
            let all: &[u8] = self.mem.as_slice();
            Some(vstd::slice::slice_subrange(all, start as usize, end as usize + 1))
        } else {
            None
        }
    }
}

impl Memory for CPU_RAM {
    open spec fn contents(&self) -> Seq<u8> {
        self@
    }

    fn read(&self, addr: u16) -> (r: u8) {
        self.mem[addr as usize]
    }

    fn write(&mut self, addr: u16, val: u8) {
        self.mem[addr as usize] = val;
    }

    fn read_u16(&self, addr: u16) -> (r: u16) {
        let lo = self.mem[addr as usize];
        let hi = self.mem[addr.wrapping_add(1) as usize];
        (hi as u16) * 256 + lo as u16
    }

    fn write_u16(&mut self, addr: u16, val: u16) {
        self.mem[addr as usize] = (val % 256) as u8;
        self.mem[addr.wrapping_add(1) as usize] = (val / 256) as u8;
    }

    fn load(&mut self, program: Vec<u8>, start_addr: Option<u16>) -> (r: Result<(), LoadError>) {
        let start = match start_addr {
            Some(x) => x,
            None => DEFAULT_START,
        };
        if start > RESET_VECTOR || program.len() > (RESET_VECTOR - start) as usize {
            return Err(LoadError::ProgramTooLarge);
        }
        let ghost before = self@;
        self.write_u16(RESET_VECTOR, start);
        self.copy_program(&program, start);
        Ok(())
    }
}

} // verus!
