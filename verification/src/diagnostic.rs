//! The diagnostic for a byte that begins no instruction.

use vstd::prelude::*;
use vstd::string::*;

verus! {

/// What a step reports when it meets a byte that begins no instruction.
#[derive(Clone, Copy, Debug, PartialEq, Eq, Structural)]
pub struct UnknownOpcode {
    /// The byte that was fetched as an opcode.
    pub opcode: u8,
    /// The address that it was fetched from.
    pub addr: u16,
}

/// The hexadecimal digit for `d`, in upper case.
pub open spec fn hex_digit(d: int) -> char
    recommends
        0 <= d < 16,
{
    "0123456789ABCDEF"@[d]
}

/// The two hexadecimal digits of a byte.
pub open spec fn hex2(b: u8) -> Seq<char> {
    seq![hex_digit(b as int / 16), hex_digit(b as int % 16)]
}

/// The four hexadecimal digits of a 16-bit value.
pub open spec fn hex4(w: u16) -> Seq<char> {
    seq![
        hex_digit(w as int / 4096),
        hex_digit(w as int / 256 % 16),
        hex_digit(w as int / 16 % 16),
        hex_digit(w as int % 16),
    ]
}

/// The one-character string of the hexadecimal digit for `d`.
fn hex_digit_str(d: u16) -> (r: &'static str)
    requires
        d < 16,
    ensures
        r@ == seq![hex_digit(d as int)],
{
    let digits: &'static str = "0123456789ABCDEF";
    proof {
        reveal_strlit("0123456789ABCDEF");
    }
    let r = digits.substring_char(d as usize, d as usize + 1);
    assert(r@ =~= seq![hex_digit(d as int)]);
    r
}

impl UnknownOpcode {
    /// The text of the diagnostic: the opcode in two hexadecimal digits and
    /// its address in four.
    pub open spec fn message_text(self) -> Seq<char> {
        "Unknown opcode: 0x"@ + hex2(self.opcode) + " at IP: 0x"@ + hex4(self.addr)
    }

    /// The diagnostic as a line of text, such as
    /// `Unknown opcode: 0xFF at IP: 0x0200`.
    pub fn message(&self) -> (text: String)
        ensures
            text@ == self.message_text(),
    {
        let op: u16 = self.opcode as u16;
        let at: u16 = self.addr;
        let mut text = String::from_str("Unknown opcode: 0x");
        text.append(hex_digit_str(op / 16));
        text.append(hex_digit_str(op % 16));
        assert(text@ =~= "Unknown opcode: 0x"@ + hex2(self.opcode));
        text.append(" at IP: 0x");
        text.append(hex_digit_str(at / 4096));
        text.append(hex_digit_str(at / 256 % 16));
        text.append(hex_digit_str(at / 16 % 16));
        text.append(hex_digit_str(at % 16));
        assert(text@ =~= self.message_text());
        text
    }
}

} // verus!
