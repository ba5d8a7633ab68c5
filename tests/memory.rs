use simple_6502::bus::Bus;
use simple_6502::memory::{LoadError, Memory, CPU_RAM};

#[test]
fn it_works() {
    let mut ram = CPU_RAM::new();
    let addr = 200;
    let x = 100;

    assert_eq!(0, ram.read(addr));

    ram.write(addr, x);

    assert_eq!(x, ram.read(addr));
}

#[test]
fn ram_u16_is_little_endian_and_wraps() {
    let mut ram = CPU_RAM::new();
    ram.write_u16(0x1234, 0xBEEF);
    assert_eq!(ram.read(0x1234), 0xEF);
    assert_eq!(ram.read(0x1235), 0xBE);
    assert_eq!(ram.read_u16(0x1234), 0xBEEF);
    ram.write_u16(0xFFFF, 0x1122);
    assert_eq!(ram.read(0xFFFF), 0x22);
    assert_eq!(ram.read(0x0000), 0x11);
    assert_eq!(ram.read_u16(0xFFFF), 0x1122);
}

#[test]
fn load_writes_program_and_reset_vector() {
    let mut ram = CPU_RAM::new();
    assert_eq!(ram.load(vec![1, 2, 3], Some(0x1000)), Ok(()));
    assert_eq!(ram.read(0x1000), 1);
    assert_eq!(ram.read(0x1001), 2);
    assert_eq!(ram.read(0x1002), 3);
    assert_eq!(ram.read_u16(0xFFFC), 0x1000);
    let mut ram = CPU_RAM::new();
    assert_eq!(ram.load(vec![7], None), Ok(()));
    assert_eq!(ram.read(0x8000), 7);
    assert_eq!(ram.read_u16(0xFFFC), 0x8000);
}

#[test]
fn load_largest_program_fits_and_one_more_fails() {
    let mut ram = CPU_RAM::new();
    let program = vec![0xEA; 0xFFFC - 0x8000];
    assert_eq!(ram.load(program, None), Ok(()));
    assert_eq!(ram.read(0xFFFB), 0xEA);
    assert_eq!(ram.read_u16(0xFFFC), 0x8000);
    let mut ram = CPU_RAM::new();
    let program = vec![0xEA; 0xFFFC - 0x8000 + 1];
    assert_eq!(ram.load(program, None), Err(LoadError::ProgramTooLarge));
    assert_eq!(ram.read_u16(0xFFFC), 0);
    assert_eq!(ram.read(0x8000), 0);
}

#[test]
fn load_past_reset_vector_fails() {
    let mut ram = CPU_RAM::new();
    assert_eq!(ram.load(vec![], Some(0xFFFD)), Err(LoadError::ProgramTooLarge));
    assert_eq!(ram.load(vec![], Some(0xFFFC)), Ok(()));
}

#[test]
fn index_memory_is_inclusive() {
    let mut bus = Bus::new();
    bus.write(0x10, 1);
    bus.write(0x11, 2);
    bus.write(0x12, 3);
    assert_eq!(bus.index_memory(0x10, 0x12), Some(&[1u8, 2, 3][..]));
    assert_eq!(bus.index_memory(0x10, 0x0F), Some(&[][..]));
    assert_eq!(bus.index_memory(0x10, 0x0E), None);
    assert_eq!(bus.index_memory(0xFFFF, 0xFFFF).map(|s| s.len()), Some(1));
    assert_eq!(bus.read(0x11), 2);
}
