use vstd::prelude::*;
use crate::cpu::CPU6502;
use crate::instruction::{AddressingMode, Instruction, lookup, mnemonic_text, mode_len, opcode_table};
use crate::machine::{Machine, rd};
use crate::memory::next_addr;
pub use crate::hex_input::{htb_option, hex_string_to_bytes};
use crate::text::{hex2, hex4, push_all, push_hex2, push_hex4, string_from_chars};

verus! {

/// Why a buffer could not be disassembled.
#[derive(Clone, Copy, Debug, PartialEq, Eq, Structural)]
pub enum DisassembleError {
    /// The byte at `index` is no opcode of the table.
    DisassembleCorrupt { index: usize, opcode: u8 },
    /// The instruction at `index` needs more bytes than the buffer has left.
    Truncated { index: usize },
}

/// The operand as written for `mode`, from the first (`lo`) and second (`hi`) operand byte.
pub open spec fn operand_text(mode: AddressingMode, lo: u8, hi: u8) -> Seq<char> {
    match mode {
        AddressingMode::IMM => seq![' ', '#', '$'] + hex2(lo),
        AddressingMode::REL | AddressingMode::ZP0 => seq![' ', '$'] + hex2(lo),
        AddressingMode::ZPX => seq![' ', '$'] + hex2(lo) + seq![',', 'X'],
        AddressingMode::ZPY => seq![' ', '$'] + hex2(lo) + seq![',', 'Y'],
        AddressingMode::IDX => seq![' ', '(', '$'] + hex2(lo) + seq![',', 'X', ')'],
        AddressingMode::IDY => seq![' ', '(', '$'] + hex2(lo) + seq![')', ',', 'Y'],
        AddressingMode::ABS => seq![' ', '$'] + hex2(hi) + hex2(lo),
        AddressingMode::ABX => seq![' ', '$'] + hex2(hi) + hex2(lo) + seq![',', 'X'],
        AddressingMode::ABY => seq![' ', '$'] + hex2(hi) + hex2(lo) + seq![',', 'Y'],
        AddressingMode::IND => seq![' ', '(', '$'] + hex2(hi) + hex2(lo) + seq![')'],
        AddressingMode::ACC => seq![' ', 'A'],
        AddressingMode::IMP => Seq::empty(),
    }
}

/// One disassembled instruction: mnemonic, then operand.
pub open spec fn line_text(e: Instruction, lo: u8, hi: u8) -> Seq<char> {
    mnemonic_text(e.name) + operand_text(e.mode, lo, hi)
}

/// The address column, `$hhhh: `.
pub open spec fn addr_text(a: u16) -> Seq<char> {
    seq!['$'] + hex4(a) + seq![':', ' ']
}

/// The byte at `k`, or 0 past the end.
pub open spec fn byte_at(b: Seq<u8>, k: int) -> u8 {
    if 0 <= k < b.len() {
        b[k]
    } else {
        0
    }
}

/// The lines of `b` from index `i` on, each prefixed with its address (counted from
/// `first`, wrapping) when `with_addr`; an error at the first byte that is no opcode
/// or at the first instruction cut short by the end of `b`.
pub open spec fn disasm_from(b: Seq<u8>, i: nat, first: u16, with_addr: bool) -> Result<
    Seq<Seq<char>>,
    DisassembleError,
>
    decreases b.len() - i,
{
    if i >= b.len() {
        Ok(Seq::empty())
    } else {
        match opcode_table(b[i as int]) {
            None => Err(DisassembleError::DisassembleCorrupt { index: i as usize, opcode: b[i as int] }),
            Some(e) => if i + mode_len(e.mode) > b.len() {
                Err(DisassembleError::Truncated { index: i as usize })
            } else {
                let text = line_text(e, byte_at(b, i + 1int), byte_at(b, i + 2int));
                let line = if with_addr {
                    addr_text(((first + i) % 0x10000) as u16) + text
                } else {
                    text
                };
                match disasm_from(b, i + mode_len(e.mode) as nat, first, with_addr) {
                    Ok(rest) => Ok(seq![line] + rest),
                    Err(err) => Err(err),
                }
            },
        }
    }
}

/// The text of the instruction at PC, with `???` for an unknown opcode.
pub open spec fn next_instr_text(m: Machine) -> Seq<char> {
    match opcode_table(rd(m, m.pc)) {
        Some(e) => line_text(e, rd(m, next_addr(m.pc)), rd(m, next_addr(next_addr(m.pc)))),
        None => seq!['?', '?', '?'],
    }
}

/// Whether `r` holds the lines `spec` gives, or the same error.
pub open spec fn same_lines(r: Result<Vec<String>, DisassembleError>, spec: Result<Seq<Seq<char>>, DisassembleError>) -> bool {
    match (r, spec) {
        (Ok(v), Ok(lines)) => v@.len() == lines.len() && forall|k: int| 0 <= k < lines.len() ==> #[trigger] v@[k]@ == lines[k],
        (Err(a), Err(b)) => a == b,
        _ => false,
    }
}

/// Appends the operand text of `mode`.
fn push_operand(out: &mut Vec<char>, mode: AddressingMode, lo: u8, hi: u8)
    ensures
        final(out)@ == old(out)@ + operand_text(mode, lo, hi),
{
    let ghost start = out@;
    match mode {
        AddressingMode::IMM => {
            push_all(out, &[' ', '#', '$']);
            push_hex2(out, lo);
        },
        AddressingMode::REL | AddressingMode::ZP0 => {
            push_all(out, &[' ', '$']);
            push_hex2(out, lo);
        },
        AddressingMode::ZPX => {
            push_all(out, &[' ', '$']);
            push_hex2(out, lo);
            push_all(out, &[',', 'X']);
        },
        AddressingMode::ZPY => {
            push_all(out, &[' ', '$']);
            push_hex2(out, lo);
            push_all(out, &[',', 'Y']);
        },
        AddressingMode::IDX => {
            push_all(out, &[' ', '(', '$']);
            push_hex2(out, lo);
            push_all(out, &[',', 'X', ')']);
        },
        AddressingMode::IDY => {
            push_all(out, &[' ', '(', '$']);
            push_hex2(out, lo);
            push_all(out, &[')', ',', 'Y']);
        },
        AddressingMode::ABS => {
            push_all(out, &[' ', '$']);
            push_hex2(out, hi);
            push_hex2(out, lo);
        },
        AddressingMode::ABX => {
            push_all(out, &[' ', '$']);
            push_hex2(out, hi);
            push_hex2(out, lo);
            push_all(out, &[',', 'X']);
        },
        AddressingMode::ABY => {
            push_all(out, &[' ', '$']);
            push_hex2(out, hi);
            push_hex2(out, lo);
            push_all(out, &[',', 'Y']);
        },
        AddressingMode::IND => {
            push_all(out, &[' ', '(', '$']);
            push_hex2(out, hi);
            push_hex2(out, lo);
            push_all(out, &[')']);
        },
        AddressingMode::ACC => {
            push_all(out, &[' ', 'A']);
        },
        AddressingMode::IMP => {},
    }
    assert(out@ =~= start + operand_text(mode, lo, hi));
}

/// Appends the mnemonic and operand of `e`.
fn push_line(out: &mut Vec<char>, e: Instruction, lo: u8, hi: u8)
    ensures
        final(out)@ == old(out)@ + line_text(e, lo, hi),
{
    let (c0, c1, c2) = e.name.chars();
    push_all(out, &[c0, c1, c2]);
    push_operand(out, e.mode, lo, hi);
    assert(out@ =~= old(out)@ + line_text(e, lo, hi));
}

/// The mnemonic and operand of the instruction at the CPU's PC; an unknown opcode
/// shows as `???` and stands for one byte.
pub fn disassemble_next_instr(cpu: &CPU6502) -> (r: String)
    ensures
        r@ == next_instr_text(cpu@),
{
    proof { cpu.lemma_memory_size(); }
    let pc = cpu.get_pc();
    let mut out: Vec<char> = Vec::new();
    match lookup(cpu.read(pc)) {
        Some(e) => {
            let pc1 = pc.wrapping_add(1);
            let pc2 = pc1.wrapping_add(1);
            assert(pc1 == next_addr(pc) && pc2 == next_addr(pc1));
            let lo = cpu.read(pc1);
            let hi = cpu.read(pc2);
            push_line(&mut out, e, lo, hi);
        },
        None => {
            push_all(&mut out, &['?', '?', '?']);
        },
    }
    string_from_chars(&out)
}

/// `prefix` followed by the lines of `r`, or the error of `r`.
pub open spec fn prepend(prefix: Seq<Seq<char>>, r: Result<Seq<Seq<char>>, DisassembleError>) -> Result<
    Seq<Seq<char>>,
    DisassembleError,
> {
    match r {
        Ok(rest) => Ok(prefix + rest),
        Err(err) => Err(err),
    }
}

proof fn lemma_prepend_push(a: Seq<Seq<char>>, line: Seq<char>, r: Result<Seq<Seq<char>>, DisassembleError>)
    ensures
        prepend(a, prepend(seq![line], r)) == prepend(a.push(line), r),
{
    if let Ok(rest) = r {
        assert(a + (seq![line] + rest) =~= a.push(line) + rest);
    }
}

/// Disassembles the whole of `obj_code`, with or without an address column.
fn disassemble_bytes(obj_code: &Vec<u8>, first_addr: u16, with_addr: bool) -> (r: Result<Vec<String>, DisassembleError>)
    ensures
        same_lines(r, disasm_from(obj_code@, 0, first_addr, with_addr)),
{
    let mut ret: Vec<String> = Vec::new();
    let ghost lines: Seq<Seq<char>> = Seq::empty();
    let mut i: usize = 0;
    let mut addr: u16 = first_addr;
    assert(prepend(lines, disasm_from(obj_code@, 0, first_addr, with_addr)) =~= disasm_from(obj_code@, 0, first_addr, with_addr)) by {
        if let Ok(rest) = disasm_from(obj_code@, 0, first_addr, with_addr) {
            assert(lines + rest =~= rest);
        }
    }
    while i < obj_code.len()
        invariant
            i <= obj_code@.len(),
            addr == ((first_addr + i) % 0x10000) as u16,
            ret@.len() == lines.len(),
            forall|k: int| 0 <= k < lines.len() ==> #[trigger] ret@[k]@ == lines[k],
            prepend(lines, disasm_from(obj_code@, i as nat, first_addr, with_addr)) == disasm_from(
                obj_code@,
                0,
                first_addr,
                with_addr,
            ),
        decreases obj_code@.len() - i,
    {
        let opcode = obj_code[i];
        let e = match lookup(opcode) {
            Some(e) => e,
            None => return Err(DisassembleError::DisassembleCorrupt { index: i, opcode }),
        };
        proof { crate::instruction::lemma_table_entry(opcode); }
        if e.bytes as usize > obj_code.len() - i {
            return Err(DisassembleError::Truncated { index: i });
        }
        let lo = if i + 1 < obj_code.len() {
            obj_code[i + 1]
        } else {
            0
        };
        let hi = if i + 1 < obj_code.len() && i + 2 < obj_code.len() {
            obj_code[i + 2]
        } else {
            0
        };
        let mut out: Vec<char> = Vec::new();
        if with_addr {
            out.push('$');
            push_hex4(&mut out, addr);
            push_all(&mut out, &[':', ' ']);
        }
        push_line(&mut out, e, lo, hi);
        let line = string_from_chars(&out);
        proof {
            let text = line_text(e, byte_at(obj_code@, i + 1int), byte_at(obj_code@, i + 2int));
            if with_addr {
                assert(out@ =~= addr_text(addr) + text);
            } else {
                assert(out@ =~= text);
            }
            lemma_prepend_push(lines, line@, disasm_from(obj_code@, (i + e.bytes) as nat, first_addr, with_addr));
            lines = lines.push(line@);
            vstd::arithmetic::div_mod::lemma_add_mod_noop(first_addr + i, e.bytes as int, 0x10000);
        }
        ret.push(line);
        i = i + e.bytes as usize;
        addr = addr.wrapping_add(e.bytes as u16);
    }
    proof {
        assert(lines + Seq::<Seq<char>>::empty() =~= lines);
    }
    Ok(ret)
}

/// Disassembles `obj_code` into one line per instruction. Fails at the first byte
/// that is no opcode, or at an instruction cut short by the end of the buffer.
pub fn disassemble_to_stream(obj_code: &Vec<u8>) -> (r: Result<Vec<String>, DisassembleError>)
    ensures
        same_lines(r, disasm_from(obj_code@, 0, 0, false)),
{
    disassemble_bytes(obj_code, 0, false)
}

/// Like `disassemble_to_stream`, each line starting with its address, counted from
/// `first_addr`.
pub fn disassemble_with_addr_line(obj_code: &Vec<u8>, first_addr: u16) -> (r: Result<Vec<String>, DisassembleError>)
    ensures
        same_lines(r, disasm_from(obj_code@, 0, first_addr, true)),
{
    disassemble_bytes(obj_code, first_addr, true)
}

} // verus!
