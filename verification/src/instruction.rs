use vstd::prelude::*;
use rustc_serialize::hex::ToHex;

verus! {

/// Opcode of CLS: reset both colours and clear the screen.
pub const CLS: u8 = 0x01;

/// Opcode of VBLNK: wait for the vertical blank.
pub const VBLNK: u8 = 0x02;

/// Opcode of BGC: choose the background colour.
pub const BGC: u8 = 0x03;

/// Opcode of SPR: set the sprite size.
pub const SPR: u8 = 0x04;

/// Opcode of DRW: draw a sprite.
pub const DRW: u8 = 0x05;

/// Opcode of JMP: unconditional jump.
pub const JMP: u8 = 0x10;

/// Opcode of Jcc: jump on a condition flag.
pub const JCC: u8 = 0x12;

/// Opcode of JME: jump when two registers are equal.
pub const JME: u8 = 0x13;

/// Opcode of LDI: load an immediate into a register.
pub const LDI: u8 = 0x20;

/// Opcode of MOV: copy a register.
pub const MOV: u8 = 0x24;

/// Opcode of ADD: add a register to a register.
pub const ADD: u8 = 0x41;

/// Opcode of SUB with an immediate subtrahend.
pub const SUB_IMM: u8 = 0x50;

/// Opcode of SUB with a register subtrahend.
pub const SUB_REG: u8 = 0x51;

/// Opcode of SUB with a register subtrahend and a third register as
/// destination.
pub const SUB_TO: u8 = 0x52;

/// Condition selector of Jcc that tests the zero flag.
pub const COND_ZERO: u8 = 0x00;

/// Condition selector of Jcc that tests the carry flag.
pub const COND_CARRY: u8 = 0x09;

/// The lower-case hexadecimal digit of a value below 16.
pub open spec fn hex_digit(n: int) -> char {
    if n < 10 {
        (('0' as u32) + n) as char
    } else {
        (('a' as u32) + n - 10) as char
    }
}

/// The upper-case hexadecimal digit of a value below 16.
pub open spec fn hex_digit_upper(n: int) -> char {
    if n < 10 {
        (('0' as u32) + n) as char
    } else {
        (('A' as u32) + n - 10) as char
    }
}

/// The ASCII upper-case form of a character: the letters `a` to `z` move
/// to `A` to `Z` and every other character stays.
pub open spec fn ascii_upper(c: char) -> char {
    if ('a' as u32) <= (c as u32) <= ('z' as u32) {
        ((c as u32) - 32) as char
    } else {
        c
    }
}

/// Bytes written as lower-case hexadecimal text, two digits a byte, the
/// high nibble first.
pub open spec fn hex_lower(bytes: Seq<u8>) -> Seq<char> {
    Seq::new(
        2 * bytes.len(),
        |i: int|
            if i % 2 == 0 {
                hex_digit(bytes[i / 2] as int / 16)
            } else {
                hex_digit(bytes[i / 2] as int % 16)
            },
    )
}

/// Bytes written as upper-case hexadecimal text, two digits a byte, the
/// high nibble first.
pub open spec fn hex_upper(bytes: Seq<u8>) -> Seq<char> {
    Seq::new(
        2 * bytes.len(),
        |i: int|
            if i % 2 == 0 {
                hex_digit_upper(bytes[i / 2] as int / 16)
            } else {
                hex_digit_upper(bytes[i / 2] as int % 16)
            },
    )
}

/// `rustc_serialize::hex::ToHex::to_hex` on a byte slice. It writes each
/// byte as two lower-case hexadecimal digits, the high nibble first.
#[verifier::external_body]
fn to_hex(bytes: &[u8]) -> (text: String)
    ensures
        text@ == hex_lower(bytes@),
{
    bytes.to_hex()
}

/// `str::to_ascii_uppercase` of the standard library. It maps each
/// character to its ASCII upper-case form.
#[verifier::external_body]
fn to_ascii_uppercase(text: &str) -> (upper: String)
    ensures
        upper@ == text@.map_values(|c: char| ascii_upper(c)),
{
    text.to_ascii_uppercase()
}

/// The four bytes of one instruction, in memory order.
#[derive(Clone, Copy, Debug, PartialEq, Eq, Structural)]
pub struct Instruction {
    pub opcode: u8,
    pub operand: u8,
    pub ll: u8,
    pub hh: u8,
}

/// Why an instruction could not be executed.
#[derive(Clone, Copy, Debug, PartialEq, Eq, Structural)]
pub enum Fault {
    /// The opcode byte selects no operation.
    UnknownOpcode(Instruction),
    /// The opcode is Jcc and the condition selector names no condition.
    UnknownCondition(Instruction),
}

impl Instruction {
    /// Register index `x`: the low nibble of the operand byte.
    pub open spec fn x_spec(self) -> u8 {
        self.operand % 16
    }

    /// Register index `y`: the high nibble of the operand byte.
    pub open spec fn y_spec(self) -> u8 {
        self.operand / 16
    }

    /// Register index `z`: the low nibble of the third byte.
    pub open spec fn z_spec(self) -> u8 {
        self.ll % 16
    }

    /// The little-endian immediate made of the third and fourth bytes.
    pub open spec fn hhll_spec(self) -> u16 {
        (self.hh * 256 + self.ll) as u16
    }

    /// Register index `x`: the low nibble of the operand byte.
    #[verifier::when_used_as_spec(x_spec)]
    pub fn x(self) -> (r: u8)
        ensures
            r == self.x_spec(),
            r < 16,
    {
        let operand: u8 = self.operand;
        assert(operand & 0x0F == operand % 16) by (bit_vector);
        operand & 0x0F
    }

    /// Register index `y`: the high nibble of the operand byte.
    #[verifier::when_used_as_spec(y_spec)]
    pub fn y(self) -> (r: u8)
        ensures
            r == self.y_spec(),
            r < 16,
    {
        let operand: u8 = self.operand;
        assert((operand & 0xF0) >> 4 == operand / 16) by (bit_vector);
        (operand & 0xF0) >> 4
    }

    /// Register index `z`: the low nibble of the third byte.
    #[verifier::when_used_as_spec(z_spec)]
    pub fn z(self) -> (r: u8)
        ensures
            r == self.z_spec(),
            r < 16,
    {
        let ll: u8 = self.ll;
        assert(ll & 0x0F == ll % 16) by (bit_vector);
        ll & 0x0F
    }

    /// The little-endian immediate made of the third and fourth bytes.
    #[verifier::when_used_as_spec(hhll_spec)]
    pub fn hhll(self) -> (r: u16)
        ensures
            r == self.hhll_spec(),
            r == self.hh * 256 + self.ll,
    {
        let ll: u16 = self.ll as u16;
        let hh: u16 = self.hh as u16;
        assert(hh << 8 | ll == hh * 256 + ll) by (bit_vector)
            requires
                hh < 256,
                ll < 256,
        ;
        hh << 8 | ll
    }

    /// The four bytes as eight upper-case hexadecimal digits, as they are
    /// shown in diagnostics.
    pub fn hex(self) -> (text: String)
        ensures
            text@ == hex_upper(seq![self.opcode, self.operand, self.ll, self.hh]),
    {
        let bytes = self.bytes();
        let lower = to_hex(bytes.as_slice());
        let upper = to_ascii_uppercase(lower.as_str());
        proof {
            let b = seq![self.opcode, self.operand, self.ll, self.hh];
            assert(bytes@ == b);
            assert forall|n: int| 0 <= n < 16 implies ascii_upper(#[trigger] hex_digit(n))
                == hex_digit_upper(n) by {
                lemma_upper_digit(n);
            }
            assert(upper@ =~= hex_upper(b));
        }
        upper
    }

    /// The four bytes in memory order.
    pub fn bytes(self) -> (b: [u8; 4])
        ensures
            b@ == seq![self.opcode, self.operand, self.ll, self.hh],
    {
        [self.opcode, self.operand, self.ll, self.hh]
    }
}

/// The ASCII upper-case form of a lower-case hexadecimal digit is the
/// upper-case digit of the same value.
proof fn lemma_upper_digit(n: int)
    requires
        0 <= n < 16,
    ensures
        ascii_upper(hex_digit(n)) == hex_digit_upper(n),
{
}

} // verus!
