//! The assembler: from source text to the byte stream.
//!
//! Source is read line by line. What follows a semicolon is a comment. A
//! line that ends in a colon defines a label at the offset that the byte
//! stream has reached; any other line is an instruction, a mnemonic with
//! its operands, and a line that is no instruction is passed over. A first
//! pass over the lines finds the offset of every label, a second one
//! resolves the labels that the instructions name and emits their bytes.

use crate::ast::{Address, AddressView, Args, Instruction, InstructionView, Operands, Register};
use crate::op::{limit, OpCode, Shape};
use crate::text::{
    chars_of, clean, clean_line, digit, first_token, is_word, lemma_run, next_token, number_u32,
    parse_number, run, run_back, scan, scan_back, string_of, upper, upper_range, upper_text,
    Class,
};
use crate::u24::U24;
use vstd::hash_map::StringHashMap;
use vstd::prelude::*;
use vstd::slice::slice_subrange;

verus! {

/// Why a source text cannot be assembled.
#[derive(Debug)]
pub enum AsmError {
    /// An instruction names a label that no line defines.
    UnknownLabel(String),
}

/// The member of a family of operations for a width suffix: `1`, `2` or
/// `3`.
pub open spec fn by_width_spec(width: Seq<char>, one: OpCode, two: OpCode, three: OpCode) -> Option<
    OpCode,
> {
    if width == "1"@ {
        Some(one)
    } else if width == "2"@ {
        Some(two)
    } else if width == "3"@ {
        Some(three)
    } else {
        None
    }
}

/// The member of a family of operations for a width suffix.
pub fn by_width(width: &[char], one: OpCode, two: OpCode, three: OpCode) -> (r: Option<OpCode>)
    ensures
        r == by_width_spec(width@, one, two, three),
{
    if is_word(width, "1") {
        Some(one)
    } else if is_word(width, "2") {
        Some(two)
    } else if is_word(width, "3") {
        Some(three)
    } else {
        None
    }
}

/// The operation that a mnemonic in upper case and a width suffix name.
/// The width of a mnemonic that has no family is not looked at.
pub open spec fn mnemonic_spec(name: Seq<char>, width: Seq<char>) -> Option<OpCode> {
    if name == "ADD"@ {
        by_width_spec(width, OpCode::ADD1, OpCode::ADD2, OpCode::ADD3)
    }     else if name == "SUB"@ {
        by_width_spec(width, OpCode::SUB1, OpCode::SUB2, OpCode::SUB3)
    }     else if name == "AND"@ {
        by_width_spec(width, OpCode::AND1, OpCode::AND2, OpCode::AND3)
    }     else if name == "OR"@ {
        by_width_spec(width, OpCode::OR1, OpCode::OR2, OpCode::OR3)
    }     else if name == "XOR"@ {
        by_width_spec(width, OpCode::XOR1, OpCode::XOR2, OpCode::XOR3)
    }     else if name == "MOV"@ {
        by_width_spec(width, OpCode::MOV1, OpCode::MOV2, OpCode::MOV3)
    }     else if name == "CMP"@ {
        by_width_spec(width, OpCode::CMP1, OpCode::CMP2, OpCode::CMP3)
    }     else if name == "TST"@ {
        by_width_spec(width, OpCode::TST1, OpCode::TST2, OpCode::TST3)
    }     else if name == "NOT"@ {
        by_width_spec(width, OpCode::NOT1, OpCode::NOT2, OpCode::NOT3)
    }     else if name == "INC"@ {
        by_width_spec(width, OpCode::INC1, OpCode::INC2, OpCode::INC3)
    }     else if name == "DEC"@ {
        by_width_spec(width, OpCode::DEC1, OpCode::DEC2, OpCode::DEC3)
    }     else if name == "NEG"@ {
        by_width_spec(width, OpCode::NEG1, OpCode::NEG2, OpCode::NEG3)
    }     else if name == "SHL"@ {
        by_width_spec(width, OpCode::SHL1, OpCode::SHL2, OpCode::SHL3)
    }     else if name == "SHR"@ {
        by_width_spec(width, OpCode::SHR1, OpCode::SHR2, OpCode::SHR3)
    }     else if name == "ROL"@ {
        by_width_spec(width, OpCode::ROL1, OpCode::ROL2, OpCode::ROL3)
    }     else if name == "ROR"@ {
        by_width_spec(width, OpCode::ROR1, OpCode::ROR2, OpCode::ROR3)
    }     else if name == "POP"@ {
        by_width_spec(width, OpCode::POP1, OpCode::POP2, OpCode::POP3)
    }     else if name == "PUSH"@ {
        by_width_spec(width, OpCode::PUSH1, OpCode::PUSH2, OpCode::PUSH3)
    }     else if name == "LOAD"@ {
        by_width_spec(width, OpCode::LOAD1, OpCode::LOAD2, OpCode::LOAD3)
    }     else if name == "STORE"@ {
        by_width_spec(width, OpCode::STORE1, OpCode::STORE2, OpCode::STORE3)
    }     else if name == "LOADI"@ {
        by_width_spec(width, OpCode::LOADI1, OpCode::LOADI2, OpCode::LOADI3)
    }     else if name == "ADDI"@ {
        by_width_spec(width, OpCode::ADDI1, OpCode::ADDI2, OpCode::ADDI3)
    } else if name == "JMP"@ {
        Some(OpCode::JMP)
    } else if name == "JZ"@ {
        Some(OpCode::JZ)
    } else if name == "JC"@ {
        Some(OpCode::JC)
    } else if name == "JSR"@ {
        Some(OpCode::JSR)
    } else if name == "JNZ"@ {
        Some(OpCode::JNZ)
    } else if name == "JNC"@ {
        Some(OpCode::JNC)
    } else if name == "JMPA"@ {
        Some(OpCode::JMPA)
    } else if name == "JZA"@ {
        Some(OpCode::JZA)
    } else if name == "JCA"@ {
        Some(OpCode::JCA)
    } else if name == "JSRA"@ {
        Some(OpCode::JSRA)
    } else if name == "JNZA"@ {
        Some(OpCode::JNZA)
    } else if name == "JNCA"@ {
        Some(OpCode::JNCA)
    } else if name == "RTS"@ {
        Some(OpCode::RTS)
    } else if name == "HLT"@ {
        Some(OpCode::HLT)
    } else {
        None
    }
}

/// The operation that a mnemonic in upper case and a width suffix name.
pub fn mnemonic(name: &[char], width: &[char]) -> (r: Option<OpCode>)
    ensures
        r == mnemonic_spec(name@, width@),
        r != Some(OpCode::NOP),
{
    if is_word(name, "ADD") {
        by_width(width, OpCode::ADD1, OpCode::ADD2, OpCode::ADD3)
    }     else if is_word(name, "SUB") {
        by_width(width, OpCode::SUB1, OpCode::SUB2, OpCode::SUB3)
    }     else if is_word(name, "AND") {
        by_width(width, OpCode::AND1, OpCode::AND2, OpCode::AND3)
    }     else if is_word(name, "OR") {
        by_width(width, OpCode::OR1, OpCode::OR2, OpCode::OR3)
    }     else if is_word(name, "XOR") {
        by_width(width, OpCode::XOR1, OpCode::XOR2, OpCode::XOR3)
    }     else if is_word(name, "MOV") {
        by_width(width, OpCode::MOV1, OpCode::MOV2, OpCode::MOV3)
    }     else if is_word(name, "CMP") {
        by_width(width, OpCode::CMP1, OpCode::CMP2, OpCode::CMP3)
    }     else if is_word(name, "TST") {
        by_width(width, OpCode::TST1, OpCode::TST2, OpCode::TST3)
    }     else if is_word(name, "NOT") {
        by_width(width, OpCode::NOT1, OpCode::NOT2, OpCode::NOT3)
    }     else if is_word(name, "INC") {
        by_width(width, OpCode::INC1, OpCode::INC2, OpCode::INC3)
    }     else if is_word(name, "DEC") {
        by_width(width, OpCode::DEC1, OpCode::DEC2, OpCode::DEC3)
    }     else if is_word(name, "NEG") {
        by_width(width, OpCode::NEG1, OpCode::NEG2, OpCode::NEG3)
    }     else if is_word(name, "SHL") {
        by_width(width, OpCode::SHL1, OpCode::SHL2, OpCode::SHL3)
    }     else if is_word(name, "SHR") {
        by_width(width, OpCode::SHR1, OpCode::SHR2, OpCode::SHR3)
    }     else if is_word(name, "ROL") {
        by_width(width, OpCode::ROL1, OpCode::ROL2, OpCode::ROL3)
    }     else if is_word(name, "ROR") {
        by_width(width, OpCode::ROR1, OpCode::ROR2, OpCode::ROR3)
    }     else if is_word(name, "POP") {
        by_width(width, OpCode::POP1, OpCode::POP2, OpCode::POP3)
    }     else if is_word(name, "PUSH") {
        by_width(width, OpCode::PUSH1, OpCode::PUSH2, OpCode::PUSH3)
    }     else if is_word(name, "LOAD") {
        by_width(width, OpCode::LOAD1, OpCode::LOAD2, OpCode::LOAD3)
    }     else if is_word(name, "STORE") {
        by_width(width, OpCode::STORE1, OpCode::STORE2, OpCode::STORE3)
    }     else if is_word(name, "LOADI") {
        by_width(width, OpCode::LOADI1, OpCode::LOADI2, OpCode::LOADI3)
    }     else if is_word(name, "ADDI") {
        by_width(width, OpCode::ADDI1, OpCode::ADDI2, OpCode::ADDI3)
    } else if is_word(name, "JMP") {
        Some(OpCode::JMP)
    } else if is_word(name, "JZ") {
        Some(OpCode::JZ)
    } else if is_word(name, "JC") {
        Some(OpCode::JC)
    } else if is_word(name, "JSR") {
        Some(OpCode::JSR)
    } else if is_word(name, "JNZ") {
        Some(OpCode::JNZ)
    } else if is_word(name, "JNC") {
        Some(OpCode::JNC)
    } else if is_word(name, "JMPA") {
        Some(OpCode::JMPA)
    } else if is_word(name, "JZA") {
        Some(OpCode::JZA)
    } else if is_word(name, "JCA") {
        Some(OpCode::JCA)
    } else if is_word(name, "JSRA") {
        Some(OpCode::JSRA)
    } else if is_word(name, "JNZA") {
        Some(OpCode::JNZA)
    } else if is_word(name, "JNCA") {
        Some(OpCode::JNCA)
    } else if is_word(name, "RTS") {
        Some(OpCode::RTS)
    } else if is_word(name, "HLT") {
        Some(OpCode::HLT)
    } else {
        None
    }
}

/// The register that a token names: `R0` to `R8`, in either case.
pub open spec fn register_named(token: Seq<char>) -> Option<Register> {
    if token.len() == 2 && upper(token[0]) == 'R' {
        match digit(token[1]) {
            Some(d) => if d < 9 {
                Register::at(d as u8)
            } else {
                None
            },
            None => None,
        }
    } else {
        None
    }
}

/// The register that a token names.
pub fn register_of(token: &[char]) -> (r: Option<Register>)
    ensures
        r == register_named(token@),
{
    if token.len() == 2 && upper(token[0]) == 'R' {
        match digit(token[1]) {
            Some(d) => if d < 9 {
                Register::at(d as u8)
            } else {
                None
            },
            None => None,
        }
    } else {
        None
    }
}

/// The address that a token names. A token that begins with a digit must
/// be a number literal, whose low 24 bits are the address; a register is
/// no address; any other token is the name of a label.
pub open spec fn address_named(token: Seq<char>) -> Option<AddressView> {
    if token.len() == 0 || register_named(token) is Some {
        None
    } else if '0' <= token[0] && token[0] <= '9' {
        match number_u32(token) {
            Some(v) => Some(AddressView::Addr((v % 0x0100_0000) as nat)),
            None => None,
        }
    } else {
        Some(AddressView::Label(token))
    }
}

/// The address that a token names.
pub fn address_of(token: &[char]) -> (r: Option<Address>)
    ensures
        match address_named(token@) {
            Some(v) => r matches Some(a) && a@ == v,
            None => r is None,
        },
{
    if token.len() == 0 || register_of(token).is_some() {
        None
    } else if '0' <= token[0] && token[0] <= '9' {
        match parse_number(token) {
            Some(v) => Some(Address::Addr(U24::new(v))),
            None => None,
        }
    } else {
        Some(Address::Label(string_of(token)))
    }
}

/// The immediate of `width` bytes that a token names: a number literal
/// that fits one or two bytes, or the low 24 bits of one for three.
pub open spec fn immediate_named(token: Seq<char>, width: nat) -> Option<nat> {
    match number_u32(token) {
        None => None,
        Some(v) => if width == 3 {
            Some((v % 0x0100_0000) as nat)
        } else if v < limit(width) {
            Some(v as nat)
        } else {
            None
        },
    }
}

/// The operands of the operation `code` that the tokens `first` and
/// `second` name. A token that is missing is empty.
pub open spec fn operands_named(code: OpCode, first: Seq<char>, second: Seq<char>) -> Option<
    Operands,
> {
    match code.shape() {
        Shape::Implied => Some(Operands::Implied),
        Shape::Dest => match register_named(first) {
            Some(rd) => Some(Operands::Dest { rd }),
            None => None,
        },
        Shape::Src => match register_named(first) {
            Some(rs) => Some(Operands::Src { rs }),
            None => None,
        },
        Shape::Pair => match (register_named(first), register_named(second)) {
            (Some(rd), Some(rs)) => Some(Operands::Pair { rd, rs }),
            _ => None,
        },
        Shape::Imm => match (
            register_named(first),
            immediate_named(second, code.width() as nat),
        ) {
            (Some(rd), Some(imm)) => Some(Operands::Imm { rd, imm }),
            _ => None,
        },
        Shape::Load => match (register_named(first), address_named(second)) {
            (Some(rd), Some(addr)) => Some(Operands::Load { rd, addr }),
            _ => None,
        },
        Shape::Store => match (register_named(first), address_named(second)) {
            (Some(rs), Some(addr)) => Some(Operands::Store { rs, addr }),
            _ => None,
        },
        Shape::Jump => match address_named(first) {
            Some(addr) => Some(Operands::Jump { addr }),
            None => None,
        },
    }
}

/// A register and an immediate as operands of the operation `code`.
fn immediate_of(code: OpCode, rd: Register, token: &[char]) -> (r: Option<Args<Address>>)
    requires
        code.shape() == Shape::Imm,
    ensures
        match immediate_named(token@, code.width() as nat) {
            Some(imm) => r matches Some(a) && a@ == (Operands::Imm { rd, imm }) && a.fits(code),
            None => r is None,
        },
{
    proof {
        crate::op::lemma_operand_count(code);
    }
    let v = match parse_number(token) {
        Some(v) => v,
        None => {
            return None;
        },
    };
    let width = code.width();
    if width == 3 {
        Some(Args::Imm3 { rd, imm: U24::new(v) })
    } else if width == 2 {
        if v < 0x1_0000 {
            Some(Args::Imm2 { rd, imm: v as u16 })
        } else {
            None
        }
    } else {
        if v < 0x100 {
            Some(Args::Imm1 { rd, imm: v as u8 })
        } else {
            None
        }
    }
}

/// The operands of the operation `code` that the tokens `first` and
/// `second` name.
fn operands_of(code: OpCode, first: &[char], second: &[char]) -> (r: Option<Args<Address>>)
    requires
        code != OpCode::NOP,
    ensures
        match operands_named(code, first@, second@) {
            Some(operands) => r matches Some(a) && a@ == operands && a.fits(code),
            None => r is None,
        },
{
    match code.shape() {
        Shape::Implied => Some(Args::Implied),
        Shape::Dest => match register_of(first) {
            Some(rd) => Some(Args::Dest { rd }),
            None => None,
        },
        Shape::Src => match register_of(first) {
            Some(rs) => Some(Args::Src { rs }),
            None => None,
        },
        Shape::Pair => match register_of(first) {
            Some(rd) => match register_of(second) {
                Some(rs) => Some(Args::Pair { rd, rs }),
                None => None,
            },
            None => None,
        },
        Shape::Imm => match register_of(first) {
            Some(rd) => immediate_of(code, rd, second),
            None => None,
        },
        Shape::Load => match register_of(first) {
            Some(rd) => match address_of(second) {
                Some(addr) => Some(Args::Load { rd, addr }),
                None => None,
            },
            None => None,
        },
        Shape::Store => match register_of(first) {
            Some(rs) => match address_of(second) {
                Some(addr) => Some(Args::Store { rs, addr }),
                None => None,
            },
            None => None,
        },
        Shape::Jump => match address_of(first) {
            Some(addr) => Some(Args::Jump { addr }),
            None => None,
        },
    }
}

/// The instruction that a line of source says, if it says one. The first
/// token is the mnemonic, in either case, which a dot and a width may
/// follow; without them the width is 1. The next tokens are the operands;
/// tokens beyond those that the operation takes are not looked at.
pub open spec fn parse(line: Seq<char>) -> Option<InstructionView> {
    let (head, rest) = first_token(line);
    let (first, rest1) = first_token(rest);
    let (second, rest2) = first_token(rest1);
    let base = upper_text(head);
    let dot = run(base, Class::Name) as int;
    let name = base.take(dot);
    let width = if dot < base.len() {
        base.skip(dot + 1)
    } else {
        "1"@
    };
    if head.len() == 0 {
        None
    } else {
        match mnemonic_spec(name, width) {
            None => None,
            Some(code) => match operands_named(code, first, second) {
                None => None,
                Some(operands) => Some(InstructionView { code, operands }),
            },
        }
    }
}

/// The instruction that the characters of a line say, if they say one.
pub fn parse_chars(line: &[char]) -> (r: Option<Instruction>)
    ensures
        match parse(line@) {
            Some(v) => r matches Some(i) && i@ == v,
            None => r is None,
        },
{
    assert(line@.skip(0) =~= line@);
    let (head_from, head_to) = next_token(line, 0);
    let (first_from, first_to) = next_token(line, head_to);
    let (second_from, second_to) = next_token(line, first_to);
    if head_from == head_to {
        return None;
    }
    let base = upper_range(line, head_from, head_to);
    let dot = scan(base.as_slice(), 0, base.len(), Class::Name);
    assert(base@.subrange(0, base.len() as int) =~= base@);
    let name = slice_subrange(base.as_slice(), 0, dot);
    let one = chars_of("1");
    let width: &[char] = if dot < base.len() {
        slice_subrange(base.as_slice(), dot + 1, base.len())
    } else {
        one.as_slice()
    };
    let code = match mnemonic(name, width) {
        Some(code) => code,
        None => {
            return None;
        },
    };
    let first = slice_subrange(line, first_from, first_to);
    let second = slice_subrange(line, second_from, second_to);
    match operands_of(code, first, second) {
        Some(args) => Instruction::build(code, args),
        None => None,
    }
}

/// The instruction that a line of source says, if it says one.
pub fn parse_line(line: &str) -> (r: Option<Instruction>)
    ensures
        match parse(line@) {
            Some(v) => r matches Some(i) && i@ == v,
            None => r is None,
        },
{
    let chars = chars_of(line);
    parse_chars(chars.as_slice())
}

/// The register that a token names: `R0` to `R8`, in either case.
pub fn parse_register(s: &str) -> (r: Option<Register>)
    ensures
        r == register_named(s@),
{
    let chars = chars_of(s);
    register_of(chars.as_slice())
}

/// The address that a token names.
pub fn parse_address(addr: &str) -> (r: Option<Address>)
    ensures
        match address_named(addr@) {
            Some(v) => r matches Some(a) && a@ == v,
            None => r is None,
        },
{
    let chars = chars_of(addr);
    address_of(chars.as_slice())
}

/// The texts of lines.
pub open spec fn texts(lines: Seq<Vec<char>>) -> Seq<Seq<char>> {
    Seq::new(lines.len(), |i: int| lines[i]@)
}

/// What the lines of a source text say: for each line that says anything,
/// its text without the comment and without the white space around it. A
/// line ends at a line feed or at the end of the text.
pub open spec fn source_lines(text: Seq<char>) -> Seq<Seq<char>>
    decreases text.len(),
{
    if text.len() == 0 {
        Seq::empty()
    } else {
        let end = run(text, Class::Line) as int;
        let line = clean(text.take(end));
        proof {
            lemma_run(text, Class::Line);
        }
        let rest = source_lines(
            text.skip(
                if end < text.len() {
                    end + 1
                } else {
                    end
                },
            ),
        );
        if line.len() == 0 {
            rest
        } else {
            seq![line] + rest
        }
    }
}

/// What the lines of a source text say.
pub fn lines_of(text: &[char]) -> (lines: Vec<Vec<char>>)
    ensures
        texts(lines@) == source_lines(text@),
{
    let mut lines: Vec<Vec<char>> = Vec::new();
    let mut at: usize = 0;
    assert(text@.skip(0) =~= text@);
    assert(texts(lines@) =~= Seq::<Seq<char>>::empty());
    while at < text.len()
        invariant
            at <= text.len(),
            source_lines(text@) == texts(lines@) + source_lines(text@.skip(at as int)),
        decreases text.len() - at,
    {
        let ghost tail = text@.skip(at as int);
        let ghost before = texts(lines@);
        assert(tail =~= text@.subrange(at as int, text.len() as int));
        let end = scan(text, at, text.len(), Class::Line);
        assert(tail.take(end - at) =~= text@.subrange(at as int, end as int));
        let line = clean_line(text, at, end);
        let next = if end < text.len() {
            end + 1
        } else {
            end
        };
        assert(tail.skip(next - at) =~= text@.skip(next as int));
        if line.len() > 0 {
            let ghost said = line@;
            lines.push(line);
            assert(texts(lines@) =~= before + seq![said]);
            assert(before + (seq![said] + source_lines(text@.skip(next as int))) =~= (before
                + seq![said]) + source_lines(text@.skip(next as int)));
        }
        at = next;
    }
    assert(source_lines(text@.skip(at as int)) =~= Seq::<Seq<char>>::empty());
    assert(texts(lines@) + Seq::<Seq<char>>::empty() =~= texts(lines@));
    lines
}

/// Whether a line defines a label: it ends in a colon.
pub open spec fn is_label(line: Seq<char>) -> bool {
    line.len() > 0 && line.last() == ':'
}

/// The name of the label that a line defines: the line without the colons
/// at its end.
pub open spec fn label_name(line: Seq<char>) -> Seq<char> {
    line.take(line.len() - run_back(line, Class::Colon))
}

/// The offset of every label that the lines define, and the offset that
/// the byte stream has reached after them. A label stands for the offset
/// that was reached when its line was met, and when a name is defined
/// again the later line counts. Offsets wrap as every 24-bit number does.
pub open spec fn labels(lines: Seq<Seq<char>>) -> (Map<Seq<char>, U24>, U24)
    decreases lines.len(),
{
    if lines.len() == 0 {
        (Map::empty(), U24::wrap(0))
    } else {
        let (map, pc) = labels(lines.drop_last());
        let line = lines.last();
        if is_label(line) {
            (map.insert(label_name(line), pc), pc)
        } else {
            match parse(line) {
                Some(v) => (map, U24::wrap(pc@ + v.len() as int)),
                None => (map, pc),
            }
        }
    }
}

/// Whether a line defines a label.
fn defines_label(line: &[char]) -> (b: bool)
    ensures
        b == is_label(line@),
{
    line.len() > 0 && line[line.len() - 1] == ':'
}

/// The first pass: the offset of every label that the lines define.
pub fn create_label_map(lines: &Vec<Vec<char>>) -> (map: StringHashMap<U24>)
    ensures
        map@ == labels(texts(lines@)).0,
{
    let mut map: StringHashMap<U24> = StringHashMap::new();
    let mut pc = U24::new(0);
    let mut i: usize = 0;
    let ghost all = texts(lines@);
    assert(all.take(0) =~= Seq::<Seq<char>>::empty());
    while i < lines.len()
        invariant
            i <= lines.len(),
            all == texts(lines@),
            (map@, pc) == labels(all.take(i as int)),
        decreases lines.len() - i,
    {
        let line = lines[i].as_slice();
        assert(all.take(i + 1).drop_last() =~= all.take(i as int));
        assert(all.take(i + 1).last() == line@);
        if defines_label(line) {
            let end = scan_back(line, 0, line.len(), Class::Colon);
            assert(line@.subrange(0, line.len() as int) =~= line@);
            let name = slice_subrange(line, 0, end);
            assert(name@ =~= label_name(line@));
            map.insert(string_of(name), pc);
        } else {
            match parse_chars(line) {
                Some(instr) => {
                    pc = pc + instr.length() as u32;
                },
                None => {},
            }
        }
        i += 1;
    }
    assert(all.take(i as int) =~= all);
    map
}

/// The instruction with the offset of its label in place of the label, or
/// the name of the label if no line defines it. An instruction that names
/// no label is left as it is.
pub open spec fn resolve_spec(v: InstructionView, labels: Map<Seq<char>, U24>) -> Result<
    InstructionView,
    Seq<char>,
> {
    match v.operands.address() {
        Some(AddressView::Label(name)) => if labels.contains_key(name) {
            Ok(
                InstructionView {
                    code: v.code,
                    operands: v.operands.with_address(AddressView::Addr(labels[name]@)),
                },
            )
        } else {
            Err(name)
        },
        _ => Ok(v),
    }
}

/// The instruction with the offset of its label in place of the label.
pub fn resolve(instr: Instruction, labels: &StringHashMap<U24>) -> (r: Result<Instruction, AsmError>)
    ensures
        match resolve_spec(instr@, labels@) {
            Ok(v) => r matches Ok(i) && i@ == v && i@.resolved(),
            Err(name) => r matches Err(AsmError::UnknownLabel(n)) && n@ == name,
        },
{
    let found: Option<Result<U24, String>> = match instr.label() {
        None => None,
        Some(name) => match labels.get(name.as_str()) {
            Some(offset) => Some(Ok(*offset)),
            None => Some(Err(name.clone())),
        },
    };
    match found {
        None => Ok(instr),
        Some(Ok(offset)) => Ok(instr.with_address(offset)),
        Some(Err(name)) => Err(AsmError::UnknownLabel(name)),
    }
}

/// The bytes that the lines assemble to with the given labels, or the
/// name of the first label that an instruction names and no line defines.
/// Lines that define labels and lines that say no instruction give no
/// bytes.
pub open spec fn emit_spec(lines: Seq<Seq<char>>, labels: Map<Seq<char>, U24>) -> Result<
    Seq<u8>,
    Seq<char>,
>
    decreases lines.len(),
{
    if lines.len() == 0 {
        Ok(Seq::empty())
    } else {
        match emit_spec(lines.drop_last(), labels) {
            Err(name) => Err(name),
            Ok(bytes) => {
                let line = lines.last();
                if is_label(line) {
                    Ok(bytes)
                } else {
                    match parse(line) {
                        None => Ok(bytes),
                        Some(v) => match resolve_spec(v, labels) {
                            Err(name) => Err(name),
                            Ok(resolved) => Ok(bytes + resolved.encoding()),
                        },
                    }
                }
            },
        }
    }
}

/// The second pass: the bytes that the lines assemble to with the given
/// labels.
pub fn emit(lines: &Vec<Vec<char>>, labels: &StringHashMap<U24>) -> (r: Result<Vec<u8>, AsmError>)
    ensures
        match emit_spec(texts(lines@), labels@) {
            Ok(bytes) => r matches Ok(v) && v@ == bytes,
            Err(name) => r matches Err(AsmError::UnknownLabel(n)) && n@ == name,
        },
{
    let mut out: Vec<u8> = Vec::new();
    let mut i: usize = 0;
    let ghost all = texts(lines@);
    assert(all.take(0) =~= Seq::<Seq<char>>::empty());
    while i < lines.len()
        invariant
            i <= lines.len(),
            all == texts(lines@),
            emit_spec(all.take(i as int), labels@) == Ok::<Seq<u8>, Seq<char>>(out@),
        decreases lines.len() - i,
    {
        let line = lines[i].as_slice();
        assert(all.take(i + 1).drop_last() =~= all.take(i as int));
        assert(all.take(i + 1).last() == line@);
        if !defines_label(line) {
            match parse_chars(line) {
                None => {},
                Some(instr) => match resolve(instr, labels) {
                    Ok(resolved) => {
                        let mut bytes = resolved.encode();
                        out.append(&mut bytes);
                    },
                    Err(e) => {
                        proof {
                            lemma_emit_fails(all, labels@, i + 1);
                        }
                        return Err(e);
                    },
                },
            }
        }
        i += 1;
    }
    assert(all.take(i as int) =~= all);
    Ok(out)
}

/// Once a prefix of the lines fails on a label, so do all the lines, on
/// the same label.
pub proof fn lemma_emit_fails(lines: Seq<Seq<char>>, labels: Map<Seq<char>, U24>, k: int)
    requires
        0 <= k <= lines.len(),
        emit_spec(lines.take(k), labels) is Err,
    ensures
        emit_spec(lines, labels) == emit_spec(lines.take(k), labels),
    decreases lines.len(),
{
    if k == lines.len() {
        assert(lines.take(k) =~= lines);
    } else {
        assert(lines.drop_last().take(k) =~= lines.take(k));
        lemma_emit_fails(lines.drop_last(), labels, k);
    }
}

/// The byte stream that a source text assembles to, or the name of the
/// first label that an instruction names and no line defines.
pub open spec fn assemble_spec(text: Seq<char>) -> Result<Seq<u8>, Seq<char>> {
    let lines = source_lines(text);
    emit_spec(lines, labels(lines).0)
}

/// Assembles a source text to its byte stream. A label that an
/// instruction names and no line defines is an error, and no bytes are
/// given then.
pub fn assemble(text: &str) -> (r: Result<Vec<u8>, AsmError>)
    ensures
        match assemble_spec(text@) {
            Ok(bytes) => r matches Ok(v) && v@ == bytes,
            Err(name) => r matches Err(AsmError::UnknownLabel(n)) && n@ == name,
        },
{
    let chars = chars_of(text);
    let lines = lines_of(chars.as_slice());
    let labels = create_label_map(&lines);
    emit(&lines, &labels)
}

/// A label that any line defines is in the map of the first pass, whether
/// the line stands before or after the lines that name the label.
pub proof fn lemma_label_defined(lines: Seq<Seq<char>>, k: int)
    requires
        0 <= k < lines.len(),
        is_label(lines[k]),
    ensures
        labels(lines).0.contains_key(label_name(lines[k])),
    decreases lines.len(),
{
    if k < lines.len() - 1 {
        lemma_label_defined(lines.drop_last(), k);
    }
}

/// References resolve wherever the label is defined: an instruction that
/// names the label of any line of the source, an earlier or a later one,
/// is resolved by the map of the first pass.
pub proof fn lemma_reference_resolves(lines: Seq<Seq<char>>, k: int, v: InstructionView)
    requires
        0 <= k < lines.len(),
        is_label(lines[k]),
        v.operands.address() == Some(AddressView::Label(label_name(lines[k]))),
    ensures
        resolve_spec(v, labels(lines).0) is Ok,
{
    lemma_label_defined(lines, k);
}

/// What a line says as an instruction is well formed: the operands have
/// the layout of the operation, an immediate fits its width and an address
/// fits 24 bits.
pub proof fn lemma_parse_wf(line: Seq<char>)
    ensures
        parse(line) matches Some(v) ==> v.wf(),
{
    if let Some(v) = parse(line) {
        crate::op::lemma_operand_count(v.code);
    }
}

/// Resolving changes neither the operation nor the layout of an
/// instruction, and leaves no label behind.
pub proof fn lemma_resolve_keeps_layout(v: InstructionView, labels: Map<Seq<char>, U24>)
    ensures
        resolve_spec(v, labels) matches Ok(r) ==> r.code == v.code && r.operands.shape()
            == v.operands.shape() && r.resolved(),
{
}

/// The offsets of the first pass are the positions of the second. Where
/// the lines assemble, the offset that the first pass has reached after
/// them is the number of bytes that the second pass gives for them, modulo
/// `2^24`: a label stands for the place of the instruction that follows
/// it.
pub proof fn lemma_offset_is_position(lines: Seq<Seq<char>>, map: Map<Seq<char>, U24>)
    requires
        emit_spec(lines, map) is Ok,
    ensures
        labels(lines).1@ == emit_spec(lines, map)->Ok_0.len() % 0x0100_0000,
    decreases lines.len(),
{
    if lines.len() == 0 {
        U24::lemma_wrap(0);
    } else {
        let before = lines.drop_last();
        let line = lines.last();
        lemma_offset_is_position(before, map);
        let pc = labels(before).1;
        let bytes = emit_spec(before, map)->Ok_0;
        if !is_label(line) {
            if let Some(v) = parse(line) {
                lemma_parse_wf(line);
                lemma_resolve_keeps_layout(v, map);
                let resolved = resolve_spec(v, map)->Ok_0;
                resolved.lemma_encoding_len();
                U24::lemma_wrap(pc@ + v.len() as int);
                assert(resolved.encoding().len() == v.len());
                assert((bytes + resolved.encoding()).len() == bytes.len() + v.len());
                vstd::arithmetic::div_mod::lemma_add_mod_noop(
                    bytes.len() as int,
                    v.len() as int,
                    0x0100_0000,
                );
                vstd::arithmetic::div_mod::lemma_small_mod((v.len()) as nat, 0x0100_0000);
            }
        }
    }
}

/// Assembly is a function of the source text: the same text gives the
/// same bytes, or the same error, every time.
pub proof fn lemma_assemble_deterministic(first: Seq<char>, second: Seq<char>)
    requires
        first == second,
    ensures
        assemble_spec(first) == assemble_spec(second),
{
}

} // verus!
