use vstd::prelude::*;
use vstd::string::*;

verus! {

/// How an instruction finds its operand or target.
#[allow(non_camel_case_types, clippy::upper_case_acronyms)]
#[derive(Clone, Copy, Debug, PartialEq, Eq, Structural)]
pub enum AddressingMode {
    /// Immediate: the byte after the opcode.
    IMM,
    /// Relative: a signed branch offset.
    REL,
    /// Zero page.
    ZP0,
    /// Zero page indexed by X, wrapping within page zero.
    ZPX,
    /// Zero page indexed by Y, wrapping within page zero.
    ZPY,
    /// Absolute 16-bit address.
    ABS,
    /// Absolute indexed by X.
    ABX,
    /// Absolute indexed by Y.
    ABY,
    /// Indirect, with the page-boundary bug of JMP.
    IND,
    /// Indexed indirect, (zp,X).
    IDX,
    /// Indirect indexed, (zp),Y.
    IDY,
    /// Implied: no operand.
    IMP,
    /// Accumulator.
    ACC,
}

/// The three-letter operation names; `IDK` marks the recognised but unimplemented unofficial opcodes.
#[allow(clippy::upper_case_acronyms)]
#[derive(Clone, Copy, Debug, PartialEq, Eq, Structural)]
pub enum Mnemonic {
    ADC,
    AND,
    ASL,
    BCC,
    BCS,
    BEQ,
    BIT,
    BMI,
    BNE,
    BPL,
    BRK,
    BVC,
    BVS,
    CLC,
    CLD,
    CLI,
    CLV,
    CMP,
    CPX,
    CPY,
    DEC,
    DEX,
    DEY,
    EOR,
    IDK,
    INC,
    INX,
    INY,
    JMP,
    JSR,
    LDA,
    LDX,
    LDY,
    LSR,
    NOP,
    ORA,
    PHA,
    PHP,
    PLA,
    PLP,
    ROL,
    ROR,
    RTI,
    RTS,
    SBC,
    SEC,
    SED,
    SEI,
    STA,
    STX,
    STY,
    TAX,
    TAY,
    TSX,
    TXA,
    TXS,
    TYA,
}

/// One row of the opcode table.
#[derive(Clone, Copy, Debug, PartialEq, Eq, Structural)]
pub struct Instruction {
    pub name: Mnemonic,
    pub opcode: u8,
    pub mode: AddressingMode,
    pub bytes: u8,
    pub min_cycles: u8,
}

/// Length in bytes of an instruction in the given mode, opcode included.
pub open spec fn mode_len(mode: AddressingMode) -> u8 {
    match mode {
        AddressingMode::IMP | AddressingMode::ACC => 1,
        AddressingMode::ABS | AddressingMode::ABX | AddressingMode::ABY | AddressingMode::IND => 3,
        _ => 2,
    }
}

/// The three characters of a mnemonic.
pub open spec fn mnemonic_text(m: Mnemonic) -> Seq<char> {
    match m {
        Mnemonic::ADC => seq!['A', 'D', 'C'],
        Mnemonic::AND => seq!['A', 'N', 'D'],
        Mnemonic::ASL => seq!['A', 'S', 'L'],
        Mnemonic::BCC => seq!['B', 'C', 'C'],
        Mnemonic::BCS => seq!['B', 'C', 'S'],
        Mnemonic::BEQ => seq!['B', 'E', 'Q'],
        Mnemonic::BIT => seq!['B', 'I', 'T'],
        Mnemonic::BMI => seq!['B', 'M', 'I'],
        Mnemonic::BNE => seq!['B', 'N', 'E'],
        Mnemonic::BPL => seq!['B', 'P', 'L'],
        Mnemonic::BRK => seq!['B', 'R', 'K'],
        Mnemonic::BVC => seq!['B', 'V', 'C'],
        Mnemonic::BVS => seq!['B', 'V', 'S'],
        Mnemonic::CLC => seq!['C', 'L', 'C'],
        Mnemonic::CLD => seq!['C', 'L', 'D'],
        Mnemonic::CLI => seq!['C', 'L', 'I'],
        Mnemonic::CLV => seq!['C', 'L', 'V'],
        Mnemonic::CMP => seq!['C', 'M', 'P'],
        Mnemonic::CPX => seq!['C', 'P', 'X'],
        Mnemonic::CPY => seq!['C', 'P', 'Y'],
        Mnemonic::DEC => seq!['D', 'E', 'C'],
        Mnemonic::DEX => seq!['D', 'E', 'X'],
        Mnemonic::DEY => seq!['D', 'E', 'Y'],
        Mnemonic::EOR => seq!['E', 'O', 'R'],
        Mnemonic::IDK => seq!['I', 'D', 'K'],
        Mnemonic::INC => seq!['I', 'N', 'C'],
        Mnemonic::INX => seq!['I', 'N', 'X'],
        Mnemonic::INY => seq!['I', 'N', 'Y'],
        Mnemonic::JMP => seq!['J', 'M', 'P'],
        Mnemonic::JSR => seq!['J', 'S', 'R'],
        Mnemonic::LDA => seq!['L', 'D', 'A'],
        Mnemonic::LDX => seq!['L', 'D', 'X'],
        Mnemonic::LDY => seq!['L', 'D', 'Y'],
        Mnemonic::LSR => seq!['L', 'S', 'R'],
        Mnemonic::NOP => seq!['N', 'O', 'P'],
        Mnemonic::ORA => seq!['O', 'R', 'A'],
        Mnemonic::PHA => seq!['P', 'H', 'A'],
        Mnemonic::PHP => seq!['P', 'H', 'P'],
        Mnemonic::PLA => seq!['P', 'L', 'A'],
        Mnemonic::PLP => seq!['P', 'L', 'P'],
        Mnemonic::ROL => seq!['R', 'O', 'L'],
        Mnemonic::ROR => seq!['R', 'O', 'R'],
        Mnemonic::RTI => seq!['R', 'T', 'I'],
        Mnemonic::RTS => seq!['R', 'T', 'S'],
        Mnemonic::SBC => seq!['S', 'B', 'C'],
        Mnemonic::SEC => seq!['S', 'E', 'C'],
        Mnemonic::SED => seq!['S', 'E', 'D'],
        Mnemonic::SEI => seq!['S', 'E', 'I'],
        Mnemonic::STA => seq!['S', 'T', 'A'],
        Mnemonic::STX => seq!['S', 'T', 'X'],
        Mnemonic::STY => seq!['S', 'T', 'Y'],
        Mnemonic::TAX => seq!['T', 'A', 'X'],
        Mnemonic::TAY => seq!['T', 'A', 'Y'],
        Mnemonic::TSX => seq!['T', 'S', 'X'],
        Mnemonic::TXA => seq!['T', 'X', 'A'],
        Mnemonic::TXS => seq!['T', 'X', 'S'],
        Mnemonic::TYA => seq!['T', 'Y', 'A'],
    }
}

/// The opcode table: the entry of each opcode the processor recognises.
pub open spec fn opcode_table(op: u8) -> Option<Instruction> {
    match op {
        0x00 => Some(Instruction { name: Mnemonic::BRK, opcode: 0x00, mode: AddressingMode::IMP, bytes: 1, min_cycles: 7 }),
        0x01 => Some(Instruction { name: Mnemonic::ORA, opcode: 0x01, mode: AddressingMode::IDX, bytes: 2, min_cycles: 6 }),
        0x05 => Some(Instruction { name: Mnemonic::ORA, opcode: 0x05, mode: AddressingMode::ZP0, bytes: 2, min_cycles: 3 }),
        0x06 => Some(Instruction { name: Mnemonic::ASL, opcode: 0x06, mode: AddressingMode::ZP0, bytes: 2, min_cycles: 5 }),
        0x08 => Some(Instruction { name: Mnemonic::PHP, opcode: 0x08, mode: AddressingMode::IMP, bytes: 1, min_cycles: 3 }),
        0x09 => Some(Instruction { name: Mnemonic::ORA, opcode: 0x09, mode: AddressingMode::IMM, bytes: 2, min_cycles: 2 }),
        0x0A => Some(Instruction { name: Mnemonic::ASL, opcode: 0x0A, mode: AddressingMode::ACC, bytes: 1, min_cycles: 2 }),
        0x0D => Some(Instruction { name: Mnemonic::ORA, opcode: 0x0D, mode: AddressingMode::ABS, bytes: 3, min_cycles: 4 }),
        0x0E => Some(Instruction { name: Mnemonic::ASL, opcode: 0x0E, mode: AddressingMode::ABS, bytes: 3, min_cycles: 6 }),
        0x10 => Some(Instruction { name: Mnemonic::BPL, opcode: 0x10, mode: AddressingMode::REL, bytes: 2, min_cycles: 2 }),
        0x11 => Some(Instruction { name: Mnemonic::ORA, opcode: 0x11, mode: AddressingMode::IDY, bytes: 2, min_cycles: 5 }),
        0x15 => Some(Instruction { name: Mnemonic::ORA, opcode: 0x15, mode: AddressingMode::ZPX, bytes: 2, min_cycles: 4 }),
        0x16 => Some(Instruction { name: Mnemonic::ASL, opcode: 0x16, mode: AddressingMode::ZPX, bytes: 2, min_cycles: 6 }),
        0x18 => Some(Instruction { name: Mnemonic::CLC, opcode: 0x18, mode: AddressingMode::IMP, bytes: 1, min_cycles: 2 }),
        0x19 => Some(Instruction { name: Mnemonic::ORA, opcode: 0x19, mode: AddressingMode::ABY, bytes: 3, min_cycles: 4 }),
        0x1C => Some(Instruction { name: Mnemonic::IDK, opcode: 0x1C, mode: AddressingMode::IMP, bytes: 1, min_cycles: 4 }),
        0x1D => Some(Instruction { name: Mnemonic::ORA, opcode: 0x1D, mode: AddressingMode::ABX, bytes: 3, min_cycles: 4 }),
        0x1E => Some(Instruction { name: Mnemonic::ASL, opcode: 0x1E, mode: AddressingMode::ABX, bytes: 3, min_cycles: 7 }),
        0x20 => Some(Instruction { name: Mnemonic::JSR, opcode: 0x20, mode: AddressingMode::ABS, bytes: 3, min_cycles: 6 }),
        0x21 => Some(Instruction { name: Mnemonic::AND, opcode: 0x21, mode: AddressingMode::IDX, bytes: 2, min_cycles: 6 }),
        0x24 => Some(Instruction { name: Mnemonic::BIT, opcode: 0x24, mode: AddressingMode::ZP0, bytes: 2, min_cycles: 3 }),
        0x25 => Some(Instruction { name: Mnemonic::AND, opcode: 0x25, mode: AddressingMode::ZP0, bytes: 2, min_cycles: 3 }),
        0x26 => Some(Instruction { name: Mnemonic::ROL, opcode: 0x26, mode: AddressingMode::ZP0, bytes: 2, min_cycles: 5 }),
        0x28 => Some(Instruction { name: Mnemonic::PLP, opcode: 0x28, mode: AddressingMode::IMP, bytes: 1, min_cycles: 4 }),
        0x29 => Some(Instruction { name: Mnemonic::AND, opcode: 0x29, mode: AddressingMode::IMM, bytes: 2, min_cycles: 2 }),
        0x2A => Some(Instruction { name: Mnemonic::ROL, opcode: 0x2A, mode: AddressingMode::ACC, bytes: 1, min_cycles: 2 }),
        0x2C => Some(Instruction { name: Mnemonic::BIT, opcode: 0x2C, mode: AddressingMode::ABS, bytes: 3, min_cycles: 4 }),
        0x2D => Some(Instruction { name: Mnemonic::AND, opcode: 0x2D, mode: AddressingMode::ABS, bytes: 3, min_cycles: 4 }),
        0x2E => Some(Instruction { name: Mnemonic::ROL, opcode: 0x2E, mode: AddressingMode::ABS, bytes: 3, min_cycles: 6 }),
        0x30 => Some(Instruction { name: Mnemonic::BMI, opcode: 0x30, mode: AddressingMode::REL, bytes: 2, min_cycles: 2 }),
        0x31 => Some(Instruction { name: Mnemonic::AND, opcode: 0x31, mode: AddressingMode::IDY, bytes: 2, min_cycles: 5 }),
        0x35 => Some(Instruction { name: Mnemonic::AND, opcode: 0x35, mode: AddressingMode::ZPX, bytes: 2, min_cycles: 4 }),
        0x36 => Some(Instruction { name: Mnemonic::ROL, opcode: 0x36, mode: AddressingMode::ZPX, bytes: 2, min_cycles: 6 }),
        0x38 => Some(Instruction { name: Mnemonic::SEC, opcode: 0x38, mode: AddressingMode::IMP, bytes: 1, min_cycles: 2 }),
        0x39 => Some(Instruction { name: Mnemonic::AND, opcode: 0x39, mode: AddressingMode::ABY, bytes: 3, min_cycles: 4 }),
        0x3C => Some(Instruction { name: Mnemonic::IDK, opcode: 0x3C, mode: AddressingMode::IMP, bytes: 1, min_cycles: 4 }),
        0x3D => Some(Instruction { name: Mnemonic::AND, opcode: 0x3D, mode: AddressingMode::ABX, bytes: 3, min_cycles: 4 }),
        0x3E => Some(Instruction { name: Mnemonic::ROL, opcode: 0x3E, mode: AddressingMode::ABX, bytes: 3, min_cycles: 7 }),
        0x40 => Some(Instruction { name: Mnemonic::RTI, opcode: 0x40, mode: AddressingMode::IMP, bytes: 1, min_cycles: 6 }),
        0x41 => Some(Instruction { name: Mnemonic::EOR, opcode: 0x41, mode: AddressingMode::IDX, bytes: 2, min_cycles: 6 }),
        0x45 => Some(Instruction { name: Mnemonic::EOR, opcode: 0x45, mode: AddressingMode::ZP0, bytes: 2, min_cycles: 3 }),
        0x46 => Some(Instruction { name: Mnemonic::LSR, opcode: 0x46, mode: AddressingMode::ZP0, bytes: 2, min_cycles: 5 }),
        0x48 => Some(Instruction { name: Mnemonic::PHA, opcode: 0x48, mode: AddressingMode::IMP, bytes: 1, min_cycles: 3 }),
        0x49 => Some(Instruction { name: Mnemonic::EOR, opcode: 0x49, mode: AddressingMode::IMM, bytes: 2, min_cycles: 2 }),
        0x4A => Some(Instruction { name: Mnemonic::LSR, opcode: 0x4A, mode: AddressingMode::ACC, bytes: 1, min_cycles: 2 }),
        0x4C => Some(Instruction { name: Mnemonic::JMP, opcode: 0x4C, mode: AddressingMode::ABS, bytes: 3, min_cycles: 3 }),
        0x4D => Some(Instruction { name: Mnemonic::EOR, opcode: 0x4D, mode: AddressingMode::ABS, bytes: 3, min_cycles: 4 }),
        0x4E => Some(Instruction { name: Mnemonic::LSR, opcode: 0x4E, mode: AddressingMode::ABS, bytes: 3, min_cycles: 6 }),
        0x50 => Some(Instruction { name: Mnemonic::BVC, opcode: 0x50, mode: AddressingMode::REL, bytes: 2, min_cycles: 2 }),
        0x51 => Some(Instruction { name: Mnemonic::EOR, opcode: 0x51, mode: AddressingMode::IDY, bytes: 2, min_cycles: 5 }),
        0x55 => Some(Instruction { name: Mnemonic::EOR, opcode: 0x55, mode: AddressingMode::ZPX, bytes: 2, min_cycles: 4 }),
        0x56 => Some(Instruction { name: Mnemonic::LSR, opcode: 0x56, mode: AddressingMode::ZPX, bytes: 2, min_cycles: 6 }),
        0x58 => Some(Instruction { name: Mnemonic::CLI, opcode: 0x58, mode: AddressingMode::IMP, bytes: 1, min_cycles: 2 }),
        0x59 => Some(Instruction { name: Mnemonic::EOR, opcode: 0x59, mode: AddressingMode::ABY, bytes: 3, min_cycles: 4 }),
        0x5C => Some(Instruction { name: Mnemonic::IDK, opcode: 0x5C, mode: AddressingMode::IMP, bytes: 1, min_cycles: 4 }),
        0x5D => Some(Instruction { name: Mnemonic::EOR, opcode: 0x5D, mode: AddressingMode::ABX, bytes: 3, min_cycles: 4 }),
        0x5E => Some(Instruction { name: Mnemonic::LSR, opcode: 0x5E, mode: AddressingMode::ABX, bytes: 3, min_cycles: 7 }),
        0x60 => Some(Instruction { name: Mnemonic::RTS, opcode: 0x60, mode: AddressingMode::IMP, bytes: 1, min_cycles: 6 }),
        0x61 => Some(Instruction { name: Mnemonic::ADC, opcode: 0x61, mode: AddressingMode::IDX, bytes: 2, min_cycles: 6 }),
        0x65 => Some(Instruction { name: Mnemonic::ADC, opcode: 0x65, mode: AddressingMode::ZP0, bytes: 2, min_cycles: 3 }),
        0x66 => Some(Instruction { name: Mnemonic::ROR, opcode: 0x66, mode: AddressingMode::ZP0, bytes: 2, min_cycles: 5 }),
        0x68 => Some(Instruction { name: Mnemonic::PLA, opcode: 0x68, mode: AddressingMode::IMP, bytes: 1, min_cycles: 4 }),
        0x69 => Some(Instruction { name: Mnemonic::ADC, opcode: 0x69, mode: AddressingMode::IMM, bytes: 2, min_cycles: 2 }),
        0x6A => Some(Instruction { name: Mnemonic::ROR, opcode: 0x6A, mode: AddressingMode::ACC, bytes: 1, min_cycles: 2 }),
        0x6C => Some(Instruction { name: Mnemonic::JMP, opcode: 0x6C, mode: AddressingMode::IND, bytes: 3, min_cycles: 5 }),
        0x6D => Some(Instruction { name: Mnemonic::ADC, opcode: 0x6D, mode: AddressingMode::ABS, bytes: 3, min_cycles: 4 }),
        0x6E => Some(Instruction { name: Mnemonic::ROR, opcode: 0x6E, mode: AddressingMode::ABS, bytes: 3, min_cycles: 6 }),
        0x70 => Some(Instruction { name: Mnemonic::BVS, opcode: 0x70, mode: AddressingMode::REL, bytes: 2, min_cycles: 2 }),
        0x71 => Some(Instruction { name: Mnemonic::ADC, opcode: 0x71, mode: AddressingMode::IDY, bytes: 2, min_cycles: 5 }),
        0x75 => Some(Instruction { name: Mnemonic::ADC, opcode: 0x75, mode: AddressingMode::ZPX, bytes: 2, min_cycles: 4 }),
        0x76 => Some(Instruction { name: Mnemonic::ROR, opcode: 0x76, mode: AddressingMode::ZPX, bytes: 2, min_cycles: 6 }),
        0x78 => Some(Instruction { name: Mnemonic::SEI, opcode: 0x78, mode: AddressingMode::IMP, bytes: 1, min_cycles: 2 }),
        0x79 => Some(Instruction { name: Mnemonic::ADC, opcode: 0x79, mode: AddressingMode::ABY, bytes: 3, min_cycles: 4 }),
        0x7D => Some(Instruction { name: Mnemonic::ADC, opcode: 0x7D, mode: AddressingMode::ABX, bytes: 3, min_cycles: 4 }),
        0x7E => Some(Instruction { name: Mnemonic::ROR, opcode: 0x7E, mode: AddressingMode::ABX, bytes: 3, min_cycles: 7 }),
        0x81 => Some(Instruction { name: Mnemonic::STA, opcode: 0x81, mode: AddressingMode::IDX, bytes: 2, min_cycles: 6 }),
        0x84 => Some(Instruction { name: Mnemonic::STY, opcode: 0x84, mode: AddressingMode::ZP0, bytes: 2, min_cycles: 3 }),
        0x85 => Some(Instruction { name: Mnemonic::STA, opcode: 0x85, mode: AddressingMode::ZP0, bytes: 2, min_cycles: 3 }),
        0x86 => Some(Instruction { name: Mnemonic::STX, opcode: 0x86, mode: AddressingMode::ZP0, bytes: 2, min_cycles: 3 }),
        0x88 => Some(Instruction { name: Mnemonic::DEY, opcode: 0x88, mode: AddressingMode::IMP, bytes: 1, min_cycles: 2 }),
        0x8A => Some(Instruction { name: Mnemonic::TXA, opcode: 0x8A, mode: AddressingMode::IMP, bytes: 1, min_cycles: 2 }),
        0x8C => Some(Instruction { name: Mnemonic::STY, opcode: 0x8C, mode: AddressingMode::ABS, bytes: 3, min_cycles: 4 }),
        0x8D => Some(Instruction { name: Mnemonic::STA, opcode: 0x8D, mode: AddressingMode::ABS, bytes: 3, min_cycles: 4 }),
        0x8E => Some(Instruction { name: Mnemonic::STX, opcode: 0x8E, mode: AddressingMode::ABS, bytes: 3, min_cycles: 4 }),
        0x90 => Some(Instruction { name: Mnemonic::BCC, opcode: 0x90, mode: AddressingMode::REL, bytes: 2, min_cycles: 2 }),
        0x91 => Some(Instruction { name: Mnemonic::STA, opcode: 0x91, mode: AddressingMode::IDY, bytes: 2, min_cycles: 6 }),
        0x94 => Some(Instruction { name: Mnemonic::STY, opcode: 0x94, mode: AddressingMode::ZPX, bytes: 2, min_cycles: 4 }),
        0x95 => Some(Instruction { name: Mnemonic::STA, opcode: 0x95, mode: AddressingMode::ZPX, bytes: 2, min_cycles: 4 }),
        0x96 => Some(Instruction { name: Mnemonic::STX, opcode: 0x96, mode: AddressingMode::ZPY, bytes: 2, min_cycles: 4 }),
        0x98 => Some(Instruction { name: Mnemonic::TYA, opcode: 0x98, mode: AddressingMode::IMP, bytes: 1, min_cycles: 2 }),
        0x99 => Some(Instruction { name: Mnemonic::STA, opcode: 0x99, mode: AddressingMode::ABY, bytes: 3, min_cycles: 5 }),
        0x9A => Some(Instruction { name: Mnemonic::TXS, opcode: 0x9A, mode: AddressingMode::IMP, bytes: 1, min_cycles: 2 }),
        0x9D => Some(Instruction { name: Mnemonic::STA, opcode: 0x9D, mode: AddressingMode::ABX, bytes: 3, min_cycles: 5 }),
        0xA0 => Some(Instruction { name: Mnemonic::LDY, opcode: 0xA0, mode: AddressingMode::IMM, bytes: 2, min_cycles: 2 }),
        0xA1 => Some(Instruction { name: Mnemonic::LDA, opcode: 0xA1, mode: AddressingMode::IDX, bytes: 2, min_cycles: 6 }),
        0xA2 => Some(Instruction { name: Mnemonic::LDX, opcode: 0xA2, mode: AddressingMode::IMM, bytes: 2, min_cycles: 2 }),
        0xA4 => Some(Instruction { name: Mnemonic::LDY, opcode: 0xA4, mode: AddressingMode::ZP0, bytes: 2, min_cycles: 3 }),
        0xA5 => Some(Instruction { name: Mnemonic::LDA, opcode: 0xA5, mode: AddressingMode::ZP0, bytes: 2, min_cycles: 3 }),
        0xA6 => Some(Instruction { name: Mnemonic::LDX, opcode: 0xA6, mode: AddressingMode::ZP0, bytes: 2, min_cycles: 3 }),
        0xA8 => Some(Instruction { name: Mnemonic::TAY, opcode: 0xA8, mode: AddressingMode::IMP, bytes: 1, min_cycles: 2 }),
        0xA9 => Some(Instruction { name: Mnemonic::LDA, opcode: 0xA9, mode: AddressingMode::IMM, bytes: 2, min_cycles: 2 }),
        0xAA => Some(Instruction { name: Mnemonic::TAX, opcode: 0xAA, mode: AddressingMode::IMP, bytes: 1, min_cycles: 2 }),
        0xAC => Some(Instruction { name: Mnemonic::LDY, opcode: 0xAC, mode: AddressingMode::ABS, bytes: 3, min_cycles: 4 }),
        0xAD => Some(Instruction { name: Mnemonic::LDA, opcode: 0xAD, mode: AddressingMode::ABS, bytes: 3, min_cycles: 4 }),
        0xAE => Some(Instruction { name: Mnemonic::LDX, opcode: 0xAE, mode: AddressingMode::ABS, bytes: 3, min_cycles: 4 }),
        0xB0 => Some(Instruction { name: Mnemonic::BCS, opcode: 0xB0, mode: AddressingMode::REL, bytes: 2, min_cycles: 2 }),
        0xB1 => Some(Instruction { name: Mnemonic::LDA, opcode: 0xB1, mode: AddressingMode::IDY, bytes: 2, min_cycles: 5 }),
        0xB4 => Some(Instruction { name: Mnemonic::LDY, opcode: 0xB4, mode: AddressingMode::ZPX, bytes: 2, min_cycles: 4 }),
        0xB5 => Some(Instruction { name: Mnemonic::LDA, opcode: 0xB5, mode: AddressingMode::ZPX, bytes: 2, min_cycles: 4 }),
        0xB6 => Some(Instruction { name: Mnemonic::LDX, opcode: 0xB6, mode: AddressingMode::ZPY, bytes: 2, min_cycles: 4 }),
        0xB8 => Some(Instruction { name: Mnemonic::CLV, opcode: 0xB8, mode: AddressingMode::IMP, bytes: 1, min_cycles: 2 }),
        0xB9 => Some(Instruction { name: Mnemonic::LDA, opcode: 0xB9, mode: AddressingMode::ABY, bytes: 3, min_cycles: 4 }),
        0xBA => Some(Instruction { name: Mnemonic::TSX, opcode: 0xBA, mode: AddressingMode::IMP, bytes: 1, min_cycles: 2 }),
        0xBC => Some(Instruction { name: Mnemonic::LDY, opcode: 0xBC, mode: AddressingMode::ABX, bytes: 3, min_cycles: 4 }),
        0xBD => Some(Instruction { name: Mnemonic::LDA, opcode: 0xBD, mode: AddressingMode::ABX, bytes: 3, min_cycles: 4 }),
        0xBE => Some(Instruction { name: Mnemonic::LDX, opcode: 0xBE, mode: AddressingMode::ABY, bytes: 3, min_cycles: 4 }),
        0xC0 => Some(Instruction { name: Mnemonic::CPY, opcode: 0xC0, mode: AddressingMode::IMM, bytes: 2, min_cycles: 2 }),
        0xC1 => Some(Instruction { name: Mnemonic::CMP, opcode: 0xC1, mode: AddressingMode::IDX, bytes: 2, min_cycles: 6 }),
        0xC4 => Some(Instruction { name: Mnemonic::CPY, opcode: 0xC4, mode: AddressingMode::ZP0, bytes: 2, min_cycles: 3 }),
        0xC5 => Some(Instruction { name: Mnemonic::CMP, opcode: 0xC5, mode: AddressingMode::ZP0, bytes: 2, min_cycles: 3 }),
        0xC6 => Some(Instruction { name: Mnemonic::DEC, opcode: 0xC6, mode: AddressingMode::ZP0, bytes: 2, min_cycles: 5 }),
        0xC8 => Some(Instruction { name: Mnemonic::INY, opcode: 0xC8, mode: AddressingMode::IMP, bytes: 1, min_cycles: 2 }),
        0xC9 => Some(Instruction { name: Mnemonic::CMP, opcode: 0xC9, mode: AddressingMode::IMM, bytes: 2, min_cycles: 2 }),
        0xCA => Some(Instruction { name: Mnemonic::DEX, opcode: 0xCA, mode: AddressingMode::IMP, bytes: 1, min_cycles: 2 }),
        0xCC => Some(Instruction { name: Mnemonic::CPY, opcode: 0xCC, mode: AddressingMode::ABS, bytes: 3, min_cycles: 4 }),
        0xCD => Some(Instruction { name: Mnemonic::CMP, opcode: 0xCD, mode: AddressingMode::ABS, bytes: 3, min_cycles: 4 }),
        0xCE => Some(Instruction { name: Mnemonic::DEC, opcode: 0xCE, mode: AddressingMode::ABS, bytes: 3, min_cycles: 6 }),
        0xD0 => Some(Instruction { name: Mnemonic::BNE, opcode: 0xD0, mode: AddressingMode::REL, bytes: 2, min_cycles: 2 }),
        0xD1 => Some(Instruction { name: Mnemonic::CMP, opcode: 0xD1, mode: AddressingMode::IDY, bytes: 2, min_cycles: 5 }),
        0xD5 => Some(Instruction { name: Mnemonic::CMP, opcode: 0xD5, mode: AddressingMode::ZPX, bytes: 2, min_cycles: 4 }),
        0xD6 => Some(Instruction { name: Mnemonic::DEC, opcode: 0xD6, mode: AddressingMode::ZPX, bytes: 2, min_cycles: 6 }),
        0xD8 => Some(Instruction { name: Mnemonic::CLD, opcode: 0xD8, mode: AddressingMode::IMP, bytes: 1, min_cycles: 2 }),
        0xD9 => Some(Instruction { name: Mnemonic::CMP, opcode: 0xD9, mode: AddressingMode::ABY, bytes: 3, min_cycles: 4 }),
        0xDC => Some(Instruction { name: Mnemonic::IDK, opcode: 0xDC, mode: AddressingMode::IMP, bytes: 1, min_cycles: 4 }),
        0xDD => Some(Instruction { name: Mnemonic::CMP, opcode: 0xDD, mode: AddressingMode::ABX, bytes: 3, min_cycles: 4 }),
        0xDE => Some(Instruction { name: Mnemonic::DEC, opcode: 0xDE, mode: AddressingMode::ABX, bytes: 3, min_cycles: 7 }),
        0xE0 => Some(Instruction { name: Mnemonic::CPX, opcode: 0xE0, mode: AddressingMode::IMM, bytes: 2, min_cycles: 2 }),
        0xE1 => Some(Instruction { name: Mnemonic::SBC, opcode: 0xE1, mode: AddressingMode::IDX, bytes: 2, min_cycles: 6 }),
        0xE4 => Some(Instruction { name: Mnemonic::CPX, opcode: 0xE4, mode: AddressingMode::ZP0, bytes: 2, min_cycles: 3 }),
        0xE5 => Some(Instruction { name: Mnemonic::SBC, opcode: 0xE5, mode: AddressingMode::ZP0, bytes: 2, min_cycles: 3 }),
        0xE6 => Some(Instruction { name: Mnemonic::INC, opcode: 0xE6, mode: AddressingMode::ZP0, bytes: 2, min_cycles: 5 }),
        0xE8 => Some(Instruction { name: Mnemonic::INX, opcode: 0xE8, mode: AddressingMode::IMP, bytes: 1, min_cycles: 2 }),
        0xE9 => Some(Instruction { name: Mnemonic::SBC, opcode: 0xE9, mode: AddressingMode::IMM, bytes: 2, min_cycles: 2 }),
        0xEA => Some(Instruction { name: Mnemonic::NOP, opcode: 0xEA, mode: AddressingMode::IMP, bytes: 1, min_cycles: 2 }),
        0xEC => Some(Instruction { name: Mnemonic::CPX, opcode: 0xEC, mode: AddressingMode::ABS, bytes: 3, min_cycles: 4 }),
        0xED => Some(Instruction { name: Mnemonic::SBC, opcode: 0xED, mode: AddressingMode::ABS, bytes: 3, min_cycles: 4 }),
        0xEE => Some(Instruction { name: Mnemonic::INC, opcode: 0xEE, mode: AddressingMode::ABS, bytes: 3, min_cycles: 6 }),
        0xF0 => Some(Instruction { name: Mnemonic::BEQ, opcode: 0xF0, mode: AddressingMode::REL, bytes: 2, min_cycles: 2 }),
        0xF1 => Some(Instruction { name: Mnemonic::SBC, opcode: 0xF1, mode: AddressingMode::IDY, bytes: 2, min_cycles: 5 }),
        0xF5 => Some(Instruction { name: Mnemonic::SBC, opcode: 0xF5, mode: AddressingMode::ZPX, bytes: 2, min_cycles: 4 }),
        0xF6 => Some(Instruction { name: Mnemonic::INC, opcode: 0xF6, mode: AddressingMode::ZPX, bytes: 2, min_cycles: 6 }),
        0xF8 => Some(Instruction { name: Mnemonic::SED, opcode: 0xF8, mode: AddressingMode::IMP, bytes: 1, min_cycles: 2 }),
        0xF9 => Some(Instruction { name: Mnemonic::SBC, opcode: 0xF9, mode: AddressingMode::ABY, bytes: 3, min_cycles: 4 }),
        0xFC => Some(Instruction { name: Mnemonic::IDK, opcode: 0xFC, mode: AddressingMode::IMP, bytes: 1, min_cycles: 4 }),
        0xFD => Some(Instruction { name: Mnemonic::SBC, opcode: 0xFD, mode: AddressingMode::ABX, bytes: 3, min_cycles: 4 }),
        0xFE => Some(Instruction { name: Mnemonic::INC, opcode: 0xFE, mode: AddressingMode::ABX, bytes: 3, min_cycles: 7 }),
        _ => None,
    }
}

impl Mnemonic {
    /// The three characters of the name.
    pub fn chars(self) -> (r: (char, char, char))
        ensures
            seq![r.0, r.1, r.2] == mnemonic_text(self),
    {
        match self {
            Mnemonic::ADC => ('A', 'D', 'C'),
            Mnemonic::AND => ('A', 'N', 'D'),
            Mnemonic::ASL => ('A', 'S', 'L'),
            Mnemonic::BCC => ('B', 'C', 'C'),
            Mnemonic::BCS => ('B', 'C', 'S'),
            Mnemonic::BEQ => ('B', 'E', 'Q'),
            Mnemonic::BIT => ('B', 'I', 'T'),
            Mnemonic::BMI => ('B', 'M', 'I'),
            Mnemonic::BNE => ('B', 'N', 'E'),
            Mnemonic::BPL => ('B', 'P', 'L'),
            Mnemonic::BRK => ('B', 'R', 'K'),
            Mnemonic::BVC => ('B', 'V', 'C'),
            Mnemonic::BVS => ('B', 'V', 'S'),
            Mnemonic::CLC => ('C', 'L', 'C'),
            Mnemonic::CLD => ('C', 'L', 'D'),
            Mnemonic::CLI => ('C', 'L', 'I'),
            Mnemonic::CLV => ('C', 'L', 'V'),
            Mnemonic::CMP => ('C', 'M', 'P'),
            Mnemonic::CPX => ('C', 'P', 'X'),
            Mnemonic::CPY => ('C', 'P', 'Y'),
            Mnemonic::DEC => ('D', 'E', 'C'),
            Mnemonic::DEX => ('D', 'E', 'X'),
            Mnemonic::DEY => ('D', 'E', 'Y'),
            Mnemonic::EOR => ('E', 'O', 'R'),
            Mnemonic::IDK => ('I', 'D', 'K'),
            Mnemonic::INC => ('I', 'N', 'C'),
            Mnemonic::INX => ('I', 'N', 'X'),
            Mnemonic::INY => ('I', 'N', 'Y'),
            Mnemonic::JMP => ('J', 'M', 'P'),
            Mnemonic::JSR => ('J', 'S', 'R'),
            Mnemonic::LDA => ('L', 'D', 'A'),
            Mnemonic::LDX => ('L', 'D', 'X'),
            Mnemonic::LDY => ('L', 'D', 'Y'),
            Mnemonic::LSR => ('L', 'S', 'R'),
            Mnemonic::NOP => ('N', 'O', 'P'),
            Mnemonic::ORA => ('O', 'R', 'A'),
            Mnemonic::PHA => ('P', 'H', 'A'),
            Mnemonic::PHP => ('P', 'H', 'P'),
            Mnemonic::PLA => ('P', 'L', 'A'),
            Mnemonic::PLP => ('P', 'L', 'P'),
            Mnemonic::ROL => ('R', 'O', 'L'),
            Mnemonic::ROR => ('R', 'O', 'R'),
            Mnemonic::RTI => ('R', 'T', 'I'),
            Mnemonic::RTS => ('R', 'T', 'S'),
            Mnemonic::SBC => ('S', 'B', 'C'),
            Mnemonic::SEC => ('S', 'E', 'C'),
            Mnemonic::SED => ('S', 'E', 'D'),
            Mnemonic::SEI => ('S', 'E', 'I'),
            Mnemonic::STA => ('S', 'T', 'A'),
            Mnemonic::STX => ('S', 'T', 'X'),
            Mnemonic::STY => ('S', 'T', 'Y'),
            Mnemonic::TAX => ('T', 'A', 'X'),
            Mnemonic::TAY => ('T', 'A', 'Y'),
            Mnemonic::TSX => ('T', 'S', 'X'),
            Mnemonic::TXA => ('T', 'X', 'A'),
            Mnemonic::TXS => ('T', 'X', 'S'),
            Mnemonic::TYA => ('T', 'Y', 'A'),
        }
    }
}

impl Instruction {
    pub fn new(name: Mnemonic, opcode: u8, mode: AddressingMode, bytes: u8, min_cycles: u8) -> (r: Instruction)
        ensures
            r == (Instruction { name, opcode, mode, bytes, min_cycles }),
    {
        Instruction { name, opcode, mode, bytes, min_cycles }
    }
}

/// Looks an opcode up in the table.
pub fn lookup(op: u8) -> (r: Option<Instruction>)
    ensures
        r == opcode_table(op),
{
    match op {
        0x00 => Some(Instruction::new(Mnemonic::BRK, 0x00, AddressingMode::IMP, 1, 7)),
        0x01 => Some(Instruction::new(Mnemonic::ORA, 0x01, AddressingMode::IDX, 2, 6)),
        0x05 => Some(Instruction::new(Mnemonic::ORA, 0x05, AddressingMode::ZP0, 2, 3)),
        0x06 => Some(Instruction::new(Mnemonic::ASL, 0x06, AddressingMode::ZP0, 2, 5)),
        0x08 => Some(Instruction::new(Mnemonic::PHP, 0x08, AddressingMode::IMP, 1, 3)),
        0x09 => Some(Instruction::new(Mnemonic::ORA, 0x09, AddressingMode::IMM, 2, 2)),
        0x0A => Some(Instruction::new(Mnemonic::ASL, 0x0A, AddressingMode::ACC, 1, 2)),
        0x0D => Some(Instruction::new(Mnemonic::ORA, 0x0D, AddressingMode::ABS, 3, 4)),
        0x0E => Some(Instruction::new(Mnemonic::ASL, 0x0E, AddressingMode::ABS, 3, 6)),
        0x10 => Some(Instruction::new(Mnemonic::BPL, 0x10, AddressingMode::REL, 2, 2)),
        0x11 => Some(Instruction::new(Mnemonic::ORA, 0x11, AddressingMode::IDY, 2, 5)),
        0x15 => Some(Instruction::new(Mnemonic::ORA, 0x15, AddressingMode::ZPX, 2, 4)),
        0x16 => Some(Instruction::new(Mnemonic::ASL, 0x16, AddressingMode::ZPX, 2, 6)),
        0x18 => Some(Instruction::new(Mnemonic::CLC, 0x18, AddressingMode::IMP, 1, 2)),
        0x19 => Some(Instruction::new(Mnemonic::ORA, 0x19, AddressingMode::ABY, 3, 4)),
        0x1C => Some(Instruction::new(Mnemonic::IDK, 0x1C, AddressingMode::IMP, 1, 4)),
        0x1D => Some(Instruction::new(Mnemonic::ORA, 0x1D, AddressingMode::ABX, 3, 4)),
        0x1E => Some(Instruction::new(Mnemonic::ASL, 0x1E, AddressingMode::ABX, 3, 7)),
        0x20 => Some(Instruction::new(Mnemonic::JSR, 0x20, AddressingMode::ABS, 3, 6)),
        0x21 => Some(Instruction::new(Mnemonic::AND, 0x21, AddressingMode::IDX, 2, 6)),
        0x24 => Some(Instruction::new(Mnemonic::BIT, 0x24, AddressingMode::ZP0, 2, 3)),
        0x25 => Some(Instruction::new(Mnemonic::AND, 0x25, AddressingMode::ZP0, 2, 3)),
        0x26 => Some(Instruction::new(Mnemonic::ROL, 0x26, AddressingMode::ZP0, 2, 5)),
        0x28 => Some(Instruction::new(Mnemonic::PLP, 0x28, AddressingMode::IMP, 1, 4)),
        0x29 => Some(Instruction::new(Mnemonic::AND, 0x29, AddressingMode::IMM, 2, 2)),
        0x2A => Some(Instruction::new(Mnemonic::ROL, 0x2A, AddressingMode::ACC, 1, 2)),
        0x2C => Some(Instruction::new(Mnemonic::BIT, 0x2C, AddressingMode::ABS, 3, 4)),
        0x2D => Some(Instruction::new(Mnemonic::AND, 0x2D, AddressingMode::ABS, 3, 4)),
        0x2E => Some(Instruction::new(Mnemonic::ROL, 0x2E, AddressingMode::ABS, 3, 6)),
        0x30 => Some(Instruction::new(Mnemonic::BMI, 0x30, AddressingMode::REL, 2, 2)),
        0x31 => Some(Instruction::new(Mnemonic::AND, 0x31, AddressingMode::IDY, 2, 5)),
        0x35 => Some(Instruction::new(Mnemonic::AND, 0x35, AddressingMode::ZPX, 2, 4)),
        0x36 => Some(Instruction::new(Mnemonic::ROL, 0x36, AddressingMode::ZPX, 2, 6)),
        0x38 => Some(Instruction::new(Mnemonic::SEC, 0x38, AddressingMode::IMP, 1, 2)),
        0x39 => Some(Instruction::new(Mnemonic::AND, 0x39, AddressingMode::ABY, 3, 4)),
        0x3C => Some(Instruction::new(Mnemonic::IDK, 0x3C, AddressingMode::IMP, 1, 4)),
        0x3D => Some(Instruction::new(Mnemonic::AND, 0x3D, AddressingMode::ABX, 3, 4)),
        0x3E => Some(Instruction::new(Mnemonic::ROL, 0x3E, AddressingMode::ABX, 3, 7)),
        0x40 => Some(Instruction::new(Mnemonic::RTI, 0x40, AddressingMode::IMP, 1, 6)),
        0x41 => Some(Instruction::new(Mnemonic::EOR, 0x41, AddressingMode::IDX, 2, 6)),
        0x45 => Some(Instruction::new(Mnemonic::EOR, 0x45, AddressingMode::ZP0, 2, 3)),
        0x46 => Some(Instruction::new(Mnemonic::LSR, 0x46, AddressingMode::ZP0, 2, 5)),
        0x48 => Some(Instruction::new(Mnemonic::PHA, 0x48, AddressingMode::IMP, 1, 3)),
        0x49 => Some(Instruction::new(Mnemonic::EOR, 0x49, AddressingMode::IMM, 2, 2)),
        0x4A => Some(Instruction::new(Mnemonic::LSR, 0x4A, AddressingMode::ACC, 1, 2)),
        0x4C => Some(Instruction::new(Mnemonic::JMP, 0x4C, AddressingMode::ABS, 3, 3)),
        0x4D => Some(Instruction::new(Mnemonic::EOR, 0x4D, AddressingMode::ABS, 3, 4)),
        0x4E => Some(Instruction::new(Mnemonic::LSR, 0x4E, AddressingMode::ABS, 3, 6)),
        0x50 => Some(Instruction::new(Mnemonic::BVC, 0x50, AddressingMode::REL, 2, 2)),
        0x51 => Some(Instruction::new(Mnemonic::EOR, 0x51, AddressingMode::IDY, 2, 5)),
        0x55 => Some(Instruction::new(Mnemonic::EOR, 0x55, AddressingMode::ZPX, 2, 4)),
        0x56 => Some(Instruction::new(Mnemonic::LSR, 0x56, AddressingMode::ZPX, 2, 6)),
        0x58 => Some(Instruction::new(Mnemonic::CLI, 0x58, AddressingMode::IMP, 1, 2)),
        0x59 => Some(Instruction::new(Mnemonic::EOR, 0x59, AddressingMode::ABY, 3, 4)),
        0x5C => Some(Instruction::new(Mnemonic::IDK, 0x5C, AddressingMode::IMP, 1, 4)),
        0x5D => Some(Instruction::new(Mnemonic::EOR, 0x5D, AddressingMode::ABX, 3, 4)),
        0x5E => Some(Instruction::new(Mnemonic::LSR, 0x5E, AddressingMode::ABX, 3, 7)),
        0x60 => Some(Instruction::new(Mnemonic::RTS, 0x60, AddressingMode::IMP, 1, 6)),
        0x61 => Some(Instruction::new(Mnemonic::ADC, 0x61, AddressingMode::IDX, 2, 6)),
        0x65 => Some(Instruction::new(Mnemonic::ADC, 0x65, AddressingMode::ZP0, 2, 3)),
        0x66 => Some(Instruction::new(Mnemonic::ROR, 0x66, AddressingMode::ZP0, 2, 5)),
        0x68 => Some(Instruction::new(Mnemonic::PLA, 0x68, AddressingMode::IMP, 1, 4)),
        0x69 => Some(Instruction::new(Mnemonic::ADC, 0x69, AddressingMode::IMM, 2, 2)),
        0x6A => Some(Instruction::new(Mnemonic::ROR, 0x6A, AddressingMode::ACC, 1, 2)),
        0x6C => Some(Instruction::new(Mnemonic::JMP, 0x6C, AddressingMode::IND, 3, 5)),
        0x6D => Some(Instruction::new(Mnemonic::ADC, 0x6D, AddressingMode::ABS, 3, 4)),
        0x6E => Some(Instruction::new(Mnemonic::ROR, 0x6E, AddressingMode::ABS, 3, 6)),
        0x70 => Some(Instruction::new(Mnemonic::BVS, 0x70, AddressingMode::REL, 2, 2)),
        0x71 => Some(Instruction::new(Mnemonic::ADC, 0x71, AddressingMode::IDY, 2, 5)),
        0x75 => Some(Instruction::new(Mnemonic::ADC, 0x75, AddressingMode::ZPX, 2, 4)),
        0x76 => Some(Instruction::new(Mnemonic::ROR, 0x76, AddressingMode::ZPX, 2, 6)),
        0x78 => Some(Instruction::new(Mnemonic::SEI, 0x78, AddressingMode::IMP, 1, 2)),
        0x79 => Some(Instruction::new(Mnemonic::ADC, 0x79, AddressingMode::ABY, 3, 4)),
        0x7D => Some(Instruction::new(Mnemonic::ADC, 0x7D, AddressingMode::ABX, 3, 4)),
        0x7E => Some(Instruction::new(Mnemonic::ROR, 0x7E, AddressingMode::ABX, 3, 7)),
        0x81 => Some(Instruction::new(Mnemonic::STA, 0x81, AddressingMode::IDX, 2, 6)),
        0x84 => Some(Instruction::new(Mnemonic::STY, 0x84, AddressingMode::ZP0, 2, 3)),
        0x85 => Some(Instruction::new(Mnemonic::STA, 0x85, AddressingMode::ZP0, 2, 3)),
        0x86 => Some(Instruction::new(Mnemonic::STX, 0x86, AddressingMode::ZP0, 2, 3)),
        0x88 => Some(Instruction::new(Mnemonic::DEY, 0x88, AddressingMode::IMP, 1, 2)),
        0x8A => Some(Instruction::new(Mnemonic::TXA, 0x8A, AddressingMode::IMP, 1, 2)),
        0x8C => Some(Instruction::new(Mnemonic::STY, 0x8C, AddressingMode::ABS, 3, 4)),
        0x8D => Some(Instruction::new(Mnemonic::STA, 0x8D, AddressingMode::ABS, 3, 4)),
        0x8E => Some(Instruction::new(Mnemonic::STX, 0x8E, AddressingMode::ABS, 3, 4)),
        0x90 => Some(Instruction::new(Mnemonic::BCC, 0x90, AddressingMode::REL, 2, 2)),
        0x91 => Some(Instruction::new(Mnemonic::STA, 0x91, AddressingMode::IDY, 2, 6)),
        0x94 => Some(Instruction::new(Mnemonic::STY, 0x94, AddressingMode::ZPX, 2, 4)),
        0x95 => Some(Instruction::new(Mnemonic::STA, 0x95, AddressingMode::ZPX, 2, 4)),
        0x96 => Some(Instruction::new(Mnemonic::STX, 0x96, AddressingMode::ZPY, 2, 4)),
        0x98 => Some(Instruction::new(Mnemonic::TYA, 0x98, AddressingMode::IMP, 1, 2)),
        0x99 => Some(Instruction::new(Mnemonic::STA, 0x99, AddressingMode::ABY, 3, 5)),
        0x9A => Some(Instruction::new(Mnemonic::TXS, 0x9A, AddressingMode::IMP, 1, 2)),
        0x9D => Some(Instruction::new(Mnemonic::STA, 0x9D, AddressingMode::ABX, 3, 5)),
        0xA0 => Some(Instruction::new(Mnemonic::LDY, 0xA0, AddressingMode::IMM, 2, 2)),
        0xA1 => Some(Instruction::new(Mnemonic::LDA, 0xA1, AddressingMode::IDX, 2, 6)),
        0xA2 => Some(Instruction::new(Mnemonic::LDX, 0xA2, AddressingMode::IMM, 2, 2)),
        0xA4 => Some(Instruction::new(Mnemonic::LDY, 0xA4, AddressingMode::ZP0, 2, 3)),
        0xA5 => Some(Instruction::new(Mnemonic::LDA, 0xA5, AddressingMode::ZP0, 2, 3)),
        0xA6 => Some(Instruction::new(Mnemonic::LDX, 0xA6, AddressingMode::ZP0, 2, 3)),
        0xA8 => Some(Instruction::new(Mnemonic::TAY, 0xA8, AddressingMode::IMP, 1, 2)),
        0xA9 => Some(Instruction::new(Mnemonic::LDA, 0xA9, AddressingMode::IMM, 2, 2)),
        0xAA => Some(Instruction::new(Mnemonic::TAX, 0xAA, AddressingMode::IMP, 1, 2)),
        0xAC => Some(Instruction::new(Mnemonic::LDY, 0xAC, AddressingMode::ABS, 3, 4)),
        0xAD => Some(Instruction::new(Mnemonic::LDA, 0xAD, AddressingMode::ABS, 3, 4)),
        0xAE => Some(Instruction::new(Mnemonic::LDX, 0xAE, AddressingMode::ABS, 3, 4)),
        0xB0 => Some(Instruction::new(Mnemonic::BCS, 0xB0, AddressingMode::REL, 2, 2)),
        0xB1 => Some(Instruction::new(Mnemonic::LDA, 0xB1, AddressingMode::IDY, 2, 5)),
        0xB4 => Some(Instruction::new(Mnemonic::LDY, 0xB4, AddressingMode::ZPX, 2, 4)),
        0xB5 => Some(Instruction::new(Mnemonic::LDA, 0xB5, AddressingMode::ZPX, 2, 4)),
        0xB6 => Some(Instruction::new(Mnemonic::LDX, 0xB6, AddressingMode::ZPY, 2, 4)),
        0xB8 => Some(Instruction::new(Mnemonic::CLV, 0xB8, AddressingMode::IMP, 1, 2)),
        0xB9 => Some(Instruction::new(Mnemonic::LDA, 0xB9, AddressingMode::ABY, 3, 4)),
        0xBA => Some(Instruction::new(Mnemonic::TSX, 0xBA, AddressingMode::IMP, 1, 2)),
        0xBC => Some(Instruction::new(Mnemonic::LDY, 0xBC, AddressingMode::ABX, 3, 4)),
        0xBD => Some(Instruction::new(Mnemonic::LDA, 0xBD, AddressingMode::ABX, 3, 4)),
        0xBE => Some(Instruction::new(Mnemonic::LDX, 0xBE, AddressingMode::ABY, 3, 4)),
        0xC0 => Some(Instruction::new(Mnemonic::CPY, 0xC0, AddressingMode::IMM, 2, 2)),
        0xC1 => Some(Instruction::new(Mnemonic::CMP, 0xC1, AddressingMode::IDX, 2, 6)),
        0xC4 => Some(Instruction::new(Mnemonic::CPY, 0xC4, AddressingMode::ZP0, 2, 3)),
        0xC5 => Some(Instruction::new(Mnemonic::CMP, 0xC5, AddressingMode::ZP0, 2, 3)),
        0xC6 => Some(Instruction::new(Mnemonic::DEC, 0xC6, AddressingMode::ZP0, 2, 5)),
        0xC8 => Some(Instruction::new(Mnemonic::INY, 0xC8, AddressingMode::IMP, 1, 2)),
        0xC9 => Some(Instruction::new(Mnemonic::CMP, 0xC9, AddressingMode::IMM, 2, 2)),
        0xCA => Some(Instruction::new(Mnemonic::DEX, 0xCA, AddressingMode::IMP, 1, 2)),
        0xCC => Some(Instruction::new(Mnemonic::CPY, 0xCC, AddressingMode::ABS, 3, 4)),
        0xCD => Some(Instruction::new(Mnemonic::CMP, 0xCD, AddressingMode::ABS, 3, 4)),
        0xCE => Some(Instruction::new(Mnemonic::DEC, 0xCE, AddressingMode::ABS, 3, 6)),
        0xD0 => Some(Instruction::new(Mnemonic::BNE, 0xD0, AddressingMode::REL, 2, 2)),
        0xD1 => Some(Instruction::new(Mnemonic::CMP, 0xD1, AddressingMode::IDY, 2, 5)),
        0xD5 => Some(Instruction::new(Mnemonic::CMP, 0xD5, AddressingMode::ZPX, 2, 4)),
        0xD6 => Some(Instruction::new(Mnemonic::DEC, 0xD6, AddressingMode::ZPX, 2, 6)),
        0xD8 => Some(Instruction::new(Mnemonic::CLD, 0xD8, AddressingMode::IMP, 1, 2)),
        0xD9 => Some(Instruction::new(Mnemonic::CMP, 0xD9, AddressingMode::ABY, 3, 4)),
        0xDC => Some(Instruction::new(Mnemonic::IDK, 0xDC, AddressingMode::IMP, 1, 4)),
        0xDD => Some(Instruction::new(Mnemonic::CMP, 0xDD, AddressingMode::ABX, 3, 4)),
        0xDE => Some(Instruction::new(Mnemonic::DEC, 0xDE, AddressingMode::ABX, 3, 7)),
        0xE0 => Some(Instruction::new(Mnemonic::CPX, 0xE0, AddressingMode::IMM, 2, 2)),
        0xE1 => Some(Instruction::new(Mnemonic::SBC, 0xE1, AddressingMode::IDX, 2, 6)),
        0xE4 => Some(Instruction::new(Mnemonic::CPX, 0xE4, AddressingMode::ZP0, 2, 3)),
        0xE5 => Some(Instruction::new(Mnemonic::SBC, 0xE5, AddressingMode::ZP0, 2, 3)),
        0xE6 => Some(Instruction::new(Mnemonic::INC, 0xE6, AddressingMode::ZP0, 2, 5)),
        0xE8 => Some(Instruction::new(Mnemonic::INX, 0xE8, AddressingMode::IMP, 1, 2)),
        0xE9 => Some(Instruction::new(Mnemonic::SBC, 0xE9, AddressingMode::IMM, 2, 2)),
        0xEA => Some(Instruction::new(Mnemonic::NOP, 0xEA, AddressingMode::IMP, 1, 2)),
        0xEC => Some(Instruction::new(Mnemonic::CPX, 0xEC, AddressingMode::ABS, 3, 4)),
        0xED => Some(Instruction::new(Mnemonic::SBC, 0xED, AddressingMode::ABS, 3, 4)),
        0xEE => Some(Instruction::new(Mnemonic::INC, 0xEE, AddressingMode::ABS, 3, 6)),
        0xF0 => Some(Instruction::new(Mnemonic::BEQ, 0xF0, AddressingMode::REL, 2, 2)),
        0xF1 => Some(Instruction::new(Mnemonic::SBC, 0xF1, AddressingMode::IDY, 2, 5)),
        0xF5 => Some(Instruction::new(Mnemonic::SBC, 0xF5, AddressingMode::ZPX, 2, 4)),
        0xF6 => Some(Instruction::new(Mnemonic::INC, 0xF6, AddressingMode::ZPX, 2, 6)),
        0xF8 => Some(Instruction::new(Mnemonic::SED, 0xF8, AddressingMode::IMP, 1, 2)),
        0xF9 => Some(Instruction::new(Mnemonic::SBC, 0xF9, AddressingMode::ABY, 3, 4)),
        0xFC => Some(Instruction::new(Mnemonic::IDK, 0xFC, AddressingMode::IMP, 1, 4)),
        0xFD => Some(Instruction::new(Mnemonic::SBC, 0xFD, AddressingMode::ABX, 3, 4)),
        0xFE => Some(Instruction::new(Mnemonic::INC, 0xFE, AddressingMode::ABX, 3, 7)),
        _ => None,
    }
}

/// Every entry of the table agrees with itself: its opcode is its key, its length is
/// that of its mode, and it takes between 2 and 7 cycles.
pub proof fn lemma_table_entry(op: u8)
    ensures
        opcode_table(op) matches Some(e) ==> e.opcode == op && e.bytes == mode_len(e.mode)
            && 2 <= e.min_cycles <= 7,
{
}

/// The entry of the smallest opcode whose mnemonic is `name`, if any.
pub fn instruction_by_name(name: &str) -> (r: Option<Instruction>)
    ensures
        r matches Some(e) ==> opcode_table(e.opcode) == Some(e) && mnemonic_text(e.name) == name@
            && forall|op: u8| op < e.opcode ==> !(#[trigger] opcode_table(op) matches Some(o) && mnemonic_text(o.name) == name@),
        r is None ==> forall|op: u8| !(#[trigger] opcode_table(op) matches Some(o) && mnemonic_text(o.name) == name@),
{
    if name.unicode_len() != 3 {
        proof {
            assert forall|op: u8| !(#[trigger] opcode_table(op) matches Some(o) && mnemonic_text(o.name) == name@) by {
                if let Some(o) = opcode_table(op) {
                    assert(mnemonic_text(o.name).len() == 3);
                }
            }
        }
        return None;
    }
    let n0 = name.get_char(0);
    let n1 = name.get_char(1);
    let n2 = name.get_char(2);
    assert(name@ =~= seq![n0, n1, n2]);
    let mut op: u16 = 0;
    while op < 256
        invariant
            op <= 256,
            name@ == seq![n0, n1, n2],
            forall|k: u8| k < op ==> !(#[trigger] opcode_table(k) matches Some(o) && mnemonic_text(o.name) == name@),
        decreases 256 - op,
    {
        if let Some(e) = lookup(op as u8) {
            let (c0, c1, c2) = e.name.chars();
            if c0 == n0 && c1 == n1 && c2 == n2 {
                proof { lemma_table_entry(op as u8); }
                return Some(e);
            }
            assert(seq![c0, c1, c2] != name@) by {
                if seq![c0, c1, c2] == name@ {
                    assert(seq![c0, c1, c2][0] == name@[0]);
                    assert(seq![c0, c1, c2][1] == name@[1]);
                    assert(seq![c0, c1, c2][2] == name@[2]);
                }
            }
        }
        op = op + 1;
    }
    None
}

} // verus!
