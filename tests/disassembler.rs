use simple_6502::cpu::CPU6502;
use simple_6502::disassembler::{
    disassemble_next_instr, disassemble_to_stream, disassemble_with_addr_line, hex_string_to_bytes,
    htb_option, DisassembleError,
};
use simple_6502::hex_input::{decode_hex_chars, ensure_input, extract_from_hex, strip_whitespace};

#[test]
fn test_hex_convert() {
    assert_eq!(0x80 as u8, htb_option("8000").unwrap()[0]);
}

#[test]
fn test_disassemble_stream() {
    let hex_dump = vec![0xa9, 0x01, 0x8d, 0x00, 0x02, 0xa9, 0x05, 0x8d, 0x01, 0x02, 0xa9, 0x08, 0x8e, 0x02, 0x02];

    let v = disassemble_to_stream(&hex_dump).unwrap();

    let mut result = String::from("");

    // push all except last
    for s in &v[0..v.len() - 1] {
        result.push_str(&s[..]);
        result.push_str(" ");
        println!("{} ", s);
    }
    // push last
    result.push_str(v.last().unwrap());

    let answer = "LDA #$01 STA $0200 LDA #$05 STA $0201 LDA #$08 STX $0202";
    assert_eq!(answer, result);
}

#[test]
fn test_disassemble_with_parse() {
    let test = "a9 01 8d 00 02 a9 05 8d
        01 02 a9 08 8e 02 02";

    let hex_dump = hex_string_to_bytes(test);

    let v = disassemble_to_stream(&hex_dump).unwrap();

    let mut result = String::from("");
    // push all except last
    for s in &v[0..v.len() - 1] {
        result.push_str(&s[..]);
        result.push_str(" ");
        println!("{} ", s);
    }
    // push last
    result.push_str(v.last().unwrap());

    let answer = "LDA #$01 STA $0200 LDA #$05 STA $0201 LDA #$08 STX $0202";
    assert_eq!(answer, result);
}

#[test]
fn every_mode_has_its_format() {
    let bytes = vec![
        0x69, 0xAB, // IMM
        0x90, 0xFE, // REL
        0x65, 0x12, // ZP0
        0x75, 0x12, // ZPX
        0xB6, 0x12, // ZPY
        0x6D, 0x34, 0x12, // ABS
        0x7D, 0x34, 0x12, // ABX
        0x79, 0x34, 0x12, // ABY
        0x6C, 0xFF, 0x10, // IND
        0x61, 0x0f, // IDX
        0x71, 0xf0, // IDY
        0x0A, // ACC
        0xEA, // IMP
    ];
    let v = disassemble_to_stream(&bytes).unwrap();
    let expected = vec![
        "ADC #$ab", "BCC $fe", "ADC $12", "ADC $12,X", "LDX $12,Y", "ADC $1234", "ADC $1234,X", "ADC $1234,Y",
        "JMP ($10ff)", "ADC ($0f,X)", "ADC ($f0),Y", "ASL A", "NOP",
    ];
    assert_eq!(v, expected);
}

#[test]
fn disassemble_with_addresses() {
    let v = disassemble_with_addr_line(&vec![0xa9, 0x01, 0xea, 0x4c, 0x00, 0x80], 0x8000).unwrap();
    assert_eq!(v, vec!["$8000: LDA #$01", "$8002: NOP", "$8003: JMP $8000"]);
    let v = disassemble_with_addr_line(&vec![0xea, 0xea], 0xFFFF).unwrap();
    assert_eq!(v, vec!["$ffff: NOP", "$0000: NOP"]);
}

#[test]
fn disassemble_unknown_opcode_is_an_error() {
    assert_eq!(
        disassemble_to_stream(&vec![0xea, 0x02, 0xea]),
        Err(DisassembleError::DisassembleCorrupt { index: 1, opcode: 0x02 })
    );
    assert_eq!(disassemble_to_stream(&vec![0xea, 0xad, 0x00]), Err(DisassembleError::Truncated { index: 1 }));
    assert_eq!(disassemble_to_stream(&vec![]), Ok(vec![]));
}

#[test]
fn unofficial_and_renamed_mnemonics_disassemble() {
    let v = disassemble_to_stream(&vec![0x1C, 0xE8, 0xC8]).unwrap();
    assert_eq!(v, vec!["IDK", "INX", "INY"]);
}

#[test]
fn next_instruction_at_pc() {
    let mut cpu = CPU6502::create_cpu_and_bus(0x8000);
    cpu.write(0x8000, 0xbd);
    cpu.write(0x8001, 0x34);
    cpu.write(0x8002, 0x12);
    assert_eq!(disassemble_next_instr(&cpu), "LDA $1234,X");
    cpu.pc = 0x9000;
    cpu.write(0x9000, 0x02);
    assert_eq!(disassemble_next_instr(&cpu), "???");
    cpu.pc = 0xFFFF;
    cpu.write(0xFFFF, 0xa9);
    cpu.write(0x0000, 0x7f);
    assert_eq!(disassemble_next_instr(&cpu), "LDA #$7f");
}

#[test]
fn hex_input_rejects_bad_text() {
    assert_eq!(htb_option("abc"), None);
    assert_eq!(htb_option("zz"), None);
    assert_eq!(htb_option(" 0A\tff\n"), Some(vec![0x0a, 0xff]));
    assert_eq!(htb_option(""), Some(vec![]));
    assert_eq!(htb_option("\u{a0}12"), Some(vec![0x12]));
    assert_eq!(htb_option("\u{3000}80\u{2028}00\u{85}"), Some(vec![0x80, 0x00]));
    assert_eq!(htb_option("80\u{200b}00"), None);
    assert_eq!(decode_hex_chars(&vec!['F', 'f', '0', '9']), Some(vec![0xff, 0x09]));
    assert_eq!(decode_hex_chars(&vec!['f', ' ']), None);
    assert_eq!(strip_whitespace(" a b\n"), vec!['a', 'b']);
}

#[test]
fn extract_address_from_bytes() {
    assert_eq!(extract_from_hex(vec![0x80, 0x00]), 0x8000);
    assert_eq!(extract_from_hex(vec![0x12]), 0x12);
    assert_eq!(extract_from_hex(vec![]), 0);
}

#[test]
fn ensure_input_pads_or_resets() {
    let mut s = String::from("80");
    assert!(ensure_input(&mut s, 4));
    assert_eq!(s, "0080");
    let mut s = String::from("12345");
    assert!(!ensure_input(&mut s, 4));
    assert_eq!(s, "0000");
    let mut s = String::from("zz");
    assert!(!ensure_input(&mut s, 4));
    assert_eq!(s, "0000");
    let mut s = String::from("ff");
    assert!(ensure_input(&mut s, 2));
    assert_eq!(s, "ff");
    let mut s = String::from("");
    assert!(ensure_input(&mut s, 2));
    assert_eq!(s, "00");
}
