//! The instruction decoder used for tracing: one word in, one line of text
//! out. It looks at the word alone and knows nothing of what surrounds it.

use vstd::prelude::*;
use vstd::string::*;
use crate::opcode::Opcode;
use crate::operand::{is_register, REGISTER_BASE, REGISTER_COUNT};

verus! {

/// `String::push` of the standard library appends one character to the end
/// of the string and changes nothing else.
pub assume_specification[ String::push ](text: &mut String, ch: char)
    ensures
        final(text)@ == old(text)@.push(ch),
;

/// The character for the digit `d`: `0`..`9`, then `a`..`f`.
pub open spec fn digit_char(d: int) -> char {
    if d < 10 {
        (48 + d) as char
    } else {
        (87 + d) as char
    }
}

/// The digits of `n` in the given base, most significant first, without
/// leading zeros; zero is the single digit `0`.
pub open spec fn numeral(n: nat, base: nat) -> Seq<char>
    decreases n,
    via numeral_terminates
{
    if base < 2 || n < base {
        seq![digit_char(n as int)]
    } else {
        numeral(n / base, base).push(digit_char((n % base) as int))
    }
}

#[via_fn]
proof fn numeral_terminates(n: nat, base: nat) {
    if base >= 2 && n >= base {
        lemma_quotient_is_smaller(n, base);
    }
}

/// Dividing a number by a base of two or more makes it smaller, unless it
/// is zero.
proof fn lemma_quotient_is_smaller(n: nat, base: nat)
    requires
        base >= 2,
        n > 0,
    ensures
        n / base < n,
{
    assert(n / base < n) by (nonlinear_arith)
        requires
            base >= 2,
            n > 0,
    ;
}

/// The escaped form of the character with code `code`: a backslash escape
/// for tab, line feed, carriage return, both quotes and the backslash; the
/// character itself where it is printable ASCII; and `\u{..}` with its
/// hexadecimal code for every other.
pub open spec fn escaped(code: u8) -> Seq<char> {
    if code == 9 {
        seq!['\\', 't']
    } else if code == 10 {
        seq!['\\', 'n']
    } else if code == 13 {
        seq!['\\', 'r']
    } else if code == 34 || code == 39 || code == 92 {
        seq!['\\', code as char]
    } else if 32 <= code <= 126 {
        seq![code as char]
    } else {
        seq!['\\', 'u', '{'] + numeral(code as nat, 16) + seq!['}']
    }
}

/// The text that stands for `word` in a trace: the name of the instruction
/// for an opcode, the register for a register address, the code and the
/// escaped character for any other word below 128, and the number for the
/// rest.
pub open spec fn disassembly(word: u16) -> Seq<char> {
    match Opcode::of(word) {
        Some(op) => op.name(),
        None => if is_register(word) {
            "Register "@ + numeral((word - REGISTER_BASE) as nat, 10)
        } else if word < 128 {
            "printable "@ + numeral(word as nat, 10) + " ("@ + escaped(word as u8) + ")"@
        } else {
            "literal "@ + numeral(word as nat, 10)
        },
    }
}

/// Appends the character for the digit `d`.
fn push_digit(out: &mut String, d: u8)
    requires
        d < 16,
    ensures
        final(out)@ == old(out)@.push(digit_char(d as int)),
{
    let ch: char = if d < 10 {
        (48u8 + d) as char
    } else {
        (87u8 + d) as char
    };
    out.push(ch);
}

/// Appends the digits of `n` in the given base.
fn push_numeral(out: &mut String, n: u16, base: u16)
    requires
        2 <= base <= 16,
    ensures
        final(out)@ == old(out)@ + numeral(n as nat, base as nat),
    decreases n,
{
    if n < base {
        push_digit(out, n as u8);
        assert(old(out)@.push(digit_char(n as int)) =~= old(out)@ + numeral(n as nat, base as nat));
    } else {
        proof {
            lemma_quotient_is_smaller(n as nat, base as nat);
        }
        push_numeral(out, n / base, base);
        push_digit(out, (n % base) as u8);
        assert(out@ =~= old(out)@ + numeral(n as nat, base as nat));
    }
}

/// Appends the escaped form of the character with code `code`.
fn push_escaped(out: &mut String, code: u8)
    ensures
        final(out)@ == old(out)@ + escaped(code),
{
    if code == 9 {
        out.push('\\');
        out.push('t');
    } else if code == 10 {
        out.push('\\');
        out.push('n');
    } else if code == 13 {
        out.push('\\');
        out.push('r');
    } else if code == 34 || code == 39 || code == 92 {
        out.push('\\');
        out.push(code as char);
    } else if 32 <= code && code <= 126 {
        out.push(code as char);
    } else {
        out.push('\\');
        out.push('u');
        out.push('{');
        push_numeral(out, code as u16, 16);
        out.push('}');
    }
    assert(out@ =~= old(out)@ + escaped(code));
}

/// The escaped form of the character with code `code`, as it stands in the
/// annotation of a small word.
pub fn escape(code: u8) -> (text: String)
    ensures
        text@ == escaped(code),
{
    let mut text = String::new();
    push_escaped(&mut text, code);
    assert(Seq::<char>::empty() + escaped(code) =~= escaped(code));
    text
}

/// Decodes one word for a trace. An opcode gives its name, a register
/// address gives `Register` and the register's number, another word below
/// 128 gives `printable`, its number and its escaped character in brackets,
/// and every other word gives `literal` and its number.
pub fn dissasemble(word: u16) -> (text: String)
    ensures
        text@ == disassembly(word),
        Opcode::of(word) matches Some(op) ==> text@ == op.name(),
{
    match Opcode::from_word(word) {
        Some(op) => String::from_str(op.mnemonic()),
        None => {
            if REGISTER_BASE <= word && word < REGISTER_BASE + REGISTER_COUNT {
                let mut text = String::from_str("Register ");
                push_numeral(&mut text, word - REGISTER_BASE, 10);
                text
            } else if word < 128 {
                let mut text = String::from_str("printable ");
                push_numeral(&mut text, word, 10);
                text.append(" (");
                push_escaped(&mut text, word as u8);
                text.append(")");
                text
            } else {
                let mut text = String::from_str("literal ");
                push_numeral(&mut text, word, 10);
                text
            }
        },
    }
}

} // verus!
