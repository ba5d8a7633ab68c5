use vstd::prelude::*;
use crate::memory::{CPU_RAM, CPU_RAM_SIZE, LoadError, Memory, DEFAULT_START, copied, fits, loaded, read16};

verus! {

/// The address bus: every read and write of the processor goes through it.
pub struct Bus {
    cpu_ram: CPU_RAM,
}

impl View for Bus {
    type V = Seq<u8>;

    closed spec fn view(&self) -> Seq<u8> {
        self.cpu_ram@
    }
}

impl Bus {
    /// A bus over 64 KiB of zeroed memory.
    pub fn new() -> (r: Bus)
        ensures
            r@ == Seq::new(CPU_RAM_SIZE as nat, |i: int| 0u8),
    {
        Bus { cpu_ram: CPU_RAM::new() }
    }

    pub proof fn lemma_size(&self)
        ensures
            self@.len() == CPU_RAM_SIZE,
    {
        self.cpu_ram.lemma_size();
    }

    /// The bytes from `start` to `end`, both included; `None` when `start` is past `end + 1`.
    pub fn index_memory(&self, start: u16, end: u16) -> (r: Option<&[u8]>)
        ensures
            r is Some <==> start as int <= end as int + 1,
            r matches Some(s) ==> s@ == self@.subrange(start as int, end as int + 1),
    {
        self.cpu_ram.index_memory(start, end)
    }

    pub fn write(&mut self, addr: u16, val: u8)
        ensures
            final(self)@ == old(self)@.update(addr as int, val),
    {
        self.cpu_ram.write(addr, val);
    }

    pub fn read(&self, addr: u16) -> (r: u8)
        ensures
            self@.len() == CPU_RAM_SIZE,
            r == self@[addr as int],
    {
        self.cpu_ram.read(addr)
    }

    /// Little-endian read of the two bytes at `addr` and the address after it.
    pub fn read_u16(&self, addr: u16) -> (r: u16)
        ensures
            self@.len() == CPU_RAM_SIZE,
            r == read16(self@, addr),
    {
        self.cpu_ram.read_u16(addr)
    }

    /// Copies `program` to `start_addr` (0x8000 when `None`) and points the reset
    /// vector at it; fails, changing nothing, when the program would reach 0xFFFC.
    pub fn load_cpu(&mut self, program: Vec<u8>, start_addr: Option<u16>) -> (r: Result<(), LoadError>)
        ensures
            ({
                let start = match start_addr {
                    Some(s) => s,
                    None => DEFAULT_START,
                };
                &&& r is Ok <==> fits(program@.len(), start)
                &&& r is Ok ==> final(self)@ == loaded(old(self)@, program@, start)
                &&& r is Err ==> r == Err::<(), LoadError>(LoadError::ProgramTooLarge)
                    && final(self)@ == old(self)@
            }),
    {
        self.cpu_ram.load(program, start_addr)
    }

    /// Copies `program` to `start_addr` on, leaving every other byte (the reset vector
    /// included) as it was; fails, changing nothing, when the program would reach 0xFFFC.
    pub fn load_at(&mut self, program: Vec<u8>, start_addr: u16) -> (r: Result<(), LoadError>)
        ensures
            r is Ok <==> fits(program@.len(), start_addr),
            r is Ok ==> final(self)@ == copied(old(self)@, program@, start_addr),
            r is Err ==> r == Err::<(), LoadError>(LoadError::ProgramTooLarge) && final(self)@ == old(self)@,
    {
        self.cpu_ram.load_at(program, start_addr)
    }
}

} // verus!
