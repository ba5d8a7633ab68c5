use vstd::prelude::*;
use vstd::string::*;
use crate::text::string_from_chars;

verus! {

/// Whether `c` has the Unicode White_Space property: U+0009 to U+000D, U+0020, U+0085,
/// U+00A0, U+1680, U+2000 to U+200A, U+2028, U+2029, U+202F, U+205F and U+3000.
pub open spec fn is_white_space(c: char) -> bool {
    let u = c as int;
    (0x09 <= u <= 0x0D) || u == 0x20 || u == 0x85 || u == 0xA0 || u == 0x1680 || (0x2000 <= u
        <= 0x200A) || u == 0x2028 || u == 0x2029 || u == 0x202F || u == 0x205F || u == 0x3000
}

/// Relies on `char::is_whitespace`: true exactly for the characters with the Unicode
/// White_Space property.
#[verifier::external_body]
fn char_is_whitespace(c: char) -> (r: bool)
    ensures
        r == is_white_space(c),
{
    c.is_whitespace()
}

/// `s` with its white space taken out.
pub open spec fn strip_ws(s: Seq<char>) -> Seq<char>
    decreases s.len(),
{
    if s.len() == 0 {
        s
    } else {
        let r = strip_ws(s.drop_last());
        if is_white_space(s.last()) {
            r
        } else {
            r.push(s.last())
        }
    }
}

/// The value of a hexadecimal digit of either case, or -1 for any other character.
pub open spec fn hex_val(c: char) -> int {
    if '0' <= c && c <= '9' {
        c as int - '0' as int
    } else if 'a' <= c && c <= 'f' {
        c as int - 'a' as int + 10
    } else if 'A' <= c && c <= 'F' {
        c as int - 'A' as int + 10
    } else {
        -1
    }
}

/// An even number of hexadecimal digits and nothing else.
pub open spec fn hex_text_ok(s: Seq<char>) -> bool {
    s.len() % 2 == 0 && forall|i: int| 0 <= i < s.len() ==> hex_val(#[trigger] s[i]) >= 0
}

/// The bytes that hexadecimal text stands for, two digits each, high digit first.
pub open spec fn hex_bytes(s: Seq<char>) -> Seq<u8> {
    Seq::new(s.len() / 2, |k: int| (hex_val(s[2 * k]) * 16 + hex_val(s[2 * k + 1])) as u8)
}

/// Relies on `hex::decode`: it succeeds exactly on an even number of hexadecimal
/// digits of either case, and gives one byte per pair, high digit first.
#[verifier::external_body]
fn decode_hex(s: &String) -> (r: Option<Vec<u8>>)
    ensures
        r is Some <==> hex_text_ok(s@),
        r matches Some(v) ==> v@ == hex_bytes(s@),
{
    hex::decode(s).ok()
}

/// Decodes hexadecimal text; `None` unless it is an even number of hexadecimal digits.
pub fn decode_hex_chars(cs: &Vec<char>) -> (r: Option<Vec<u8>>)
    ensures
        r is Some <==> hex_text_ok(cs@),
        r matches Some(v) ==> v@ == hex_bytes(cs@),
{
    let s = string_from_chars(cs);
    decode_hex(&s)
}

/// The characters of `input` without its white space.
pub fn strip_whitespace(input: &str) -> (r: Vec<char>)
    ensures
        r@ == strip_ws(input@),
{
    let n = input.unicode_len();
    let mut out: Vec<char> = Vec::new();
    let mut i: usize = 0;
    while i < n
        invariant
            n == input@.len(),
            i <= n,
            out@ == strip_ws(input@.subrange(0, i as int)),
        decreases n - i,
    {
        let c = input.get_char(i);
        if !char_is_whitespace(c) {
            out.push(c);
        }
        assert(input@.subrange(0, i + 1).drop_last() =~= input@.subrange(0, i as int));
        i = i + 1;
    }
    assert(input@.subrange(0, n as int) =~= input@);
    out
}

/// Decodes hexadecimal text after taking out its white space; the text must be valid.
pub fn hex_string_to_bytes(input: &str) -> (r: Vec<u8>)
    requires
        hex_text_ok(strip_ws(input@)),
    ensures
        r@ == hex_bytes(strip_ws(input@)),
{
    let cs = strip_whitespace(input);
    match decode_hex_chars(&cs) {
        Some(v) => v,
        // Not reached: the precondition makes the stripped text valid.
        None => Vec::new(),
    }
}

/// Decodes hexadecimal text after taking out its white space; `None` when what is
/// left is not an even number of hexadecimal digits.
pub fn htb_option(input: &str) -> (r: Option<Vec<u8>>)
    ensures
        r is Some <==> hex_text_ok(strip_ws(input@)),
        r matches Some(v) ==> v@ == hex_bytes(strip_ws(input@)),
{
    decode_hex_chars(&strip_whitespace(input))
}

/// The big-endian value of `bytes`.
pub open spec fn be_value(bytes: Seq<u8>) -> int
    decreases bytes.len(),
{
    if bytes.len() == 0 {
        0
    } else {
        be_value(bytes.drop_last()) * 256 + bytes.last()
    }
}

/// The address that one or two decoded bytes spell, high byte first.
pub fn extract_from_hex(hex_vec: Vec<u8>) -> (r: u16)
    requires
        hex_vec@.len() <= 2,
    ensures
        r as int == be_value(hex_vec@),
{
    let mut load_addr: u16 = 0;
    let mut i: usize = 0;
    while i < hex_vec.len()
        invariant
            hex_vec@.len() <= 2,
            i <= hex_vec@.len(),
            load_addr as int == be_value(hex_vec@.subrange(0, i as int)),
            i <= 1 ==> load_addr < 256,
        decreases hex_vec@.len() - i,
    {
        assert(hex_vec@.subrange(0, i + 1).drop_last() =~= hex_vec@.subrange(0, i as int));
        load_addr = load_addr * 256 + hex_vec[i] as u16;
        i = i + 1;
    }
    assert(hex_vec@.subrange(0, i as int) =~= hex_vec@);
    load_addr
}

/// `n` zero digits.
pub open spec fn zeros(n: nat) -> Seq<char> {
    Seq::new(n, |i: int| '0')
}

/// What an input field of `d` digits holds once checked, and whether it was valid:
/// text of `byte_len` bytes or fewer is padded with leading zeros to `d`, and kept if
/// it is then hexadecimal; anything else becomes `d` zeros.
pub open spec fn checked_field(s: Seq<char>, byte_len: nat, d: nat) -> (Seq<char>, bool) {
    if byte_len > d {
        (zeros(d), false)
    } else if hex_text_ok(strip_ws(zeros((d - byte_len) as nat) + s)) {
        (zeros((d - byte_len) as nat) + s, true)
    } else {
        (zeros(d), false)
    }
}

fn zero_chars(n: usize) -> (r: Vec<char>)
    ensures
        r@ == zeros(n as nat),
{
    let mut out: Vec<char> = Vec::new();
    let mut i: usize = 0;
    while i < n
        invariant
            i <= n,
            out@ == zeros(i as nat),
        decreases n - i,
    {
        out.push('0');
        i = i + 1;
        assert(out@ =~= zeros(i as nat));
    }
    out
}

/// Pads an input field with leading zeros to `desired_len` bytes; a field that is too
/// long or not hexadecimal becomes all zeros. Returns whether the field was valid.
pub fn ensure_input(input: &mut String, desired_len: usize) -> (r: bool)
    ensures
        (final(input)@, r) == checked_field(
            old(input)@,
            vstd::utf8::encode_utf8(old(input)@).len() as usize as nat,
            desired_len as nat,
        ),
{
    let len = input.as_str().len();
    assert(len == vstd::utf8::encode_utf8(old(input)@).len() as usize);
    if len > desired_len {
        *input = string_from_chars(&zero_chars(desired_len));
        return false;
    }
    let mut cs = zero_chars(desired_len - len);
    let text: &str = input.as_str();
    let n = text.unicode_len();
    let mut i: usize = 0;
    while i < n
        invariant
            n == text@.len(),
            text@ == old(input)@,
            i <= n,
            cs@ == zeros((desired_len - len) as nat) + text@.subrange(0, i as int),
        decreases n - i,
    {
        cs.push(text.get_char(i));
        i = i + 1;
        assert(cs@ =~= zeros((desired_len - len) as nat) + text@.subrange(0, i as int));
    }
    assert(text@.subrange(0, n as int) =~= text@);
    let padded = string_from_chars(&cs);
    if htb_option(padded.as_str()).is_none() {
        *input = string_from_chars(&zero_chars(desired_len));
        false
    } else {
        *input = padded;
        true
    }
}

} // verus!
