//! Arithmetic and bitwise operations on words.
//!
//! Every result is cut to 15 bits. Sums and products first wrap at the
//! width of a word, which leaves their value modulo 32768 untouched.

use vstd::prelude::*;
use crate::fault::Fault;

verus! {

/// The mask that keeps the low 15 bits of a word.
pub const MASK: u16 = 0x7FFF;

/// The sum of two words modulo 32768.
pub open spec fn spec_add(x: u16, y: u16) -> u16 {
    ((x + y) % 32768) as u16
}

/// The product of two words modulo 32768.
pub open spec fn spec_mult(x: u16, y: u16) -> u16 {
    ((x * y) % 32768) as u16
}

/// The remainder of `x` divided by `y`, cut to 15 bits; there is none for
/// a zero divisor.
pub open spec fn spec_modulo(x: u16, y: u16) -> Result<u16, Fault> {
    if y == 0 {
        Err(Fault::DivisionByZero)
    } else {
        Ok(((x % y) % 32768) as u16)
    }
}

/// The bits set in both words, cut to 15 bits.
pub open spec fn spec_and(x: u16, y: u16) -> u16 {
    (x & y) & MASK
}

/// The bits set in either word, cut to 15 bits.
pub open spec fn spec_or(x: u16, y: u16) -> u16 {
    (x | y) & MASK
}

/// The 15-bit complement of a word.
pub open spec fn spec_not(x: u16) -> u16 {
    (32767 - x % 32768) as u16
}

/// Adds two words. The result is the sum modulo 32768, whatever the size
/// of the inputs.
pub fn add(x: u16, y: u16) -> (r: u16)
    ensures
        r == (x + y) % 32768,
        r == spec_add(x, y),
        0 <= r <= 32767,
{
    let r = x.wrapping_add(y) & MASK;
    assert(r == ((x as int + y as int) % 32768) as u16) by {
        let w = x.wrapping_add(y);
        assert(w as int == (x as int + y as int) % 65536) by {
            if x as int + y as int > u16::MAX as int {
                assert(w as int == x as int + y as int - 65536);
            }
        }
        assert(w & 0x7FFF == w % 32768) by (bit_vector);
    }
    r
}

/// Multiplies two words. The result is the product modulo 32768, whatever
/// the size of the inputs.
pub fn mult(x: u16, y: u16) -> (r: u16)
    ensures
        r == (x * y) % 32768,
        r == spec_mult(x, y),
        0 <= r <= 32767,
{
    let w = x.wrapping_mul(y);
    let r = w & MASK;
    proof {
        let p: int = x as int * y as int;
        assert(w as int == p % 65536) by {
            vstd::arithmetic::mul::lemma_mul_nonnegative(x as int, y as int);
        }
        assert(w & 0x7FFF == w % 32768) by (bit_vector);
        assert((p % 65536) % 32768 == p % 32768) by {
            vstd::arithmetic::div_mod::lemma_mod_mod(p, 32768, 2);
        }
    }
    r
}

/// The remainder of `x` divided by `y`, cut to 15 bits. A zero divisor is
/// refused.
pub fn modulo(x: u16, y: u16) -> (r: Result<u16, Fault>)
    ensures
        r == spec_modulo(x, y),
        y == 0 ==> r == Err::<u16, Fault>(Fault::DivisionByZero),
        y != 0 ==> r is Ok && r->Ok_0 == (x % y) % 32768 && 0 <= r->Ok_0 <= 32767,
{
    if y == 0 {
        return Err(Fault::DivisionByZero);
    }
    let q = x % y;
    assert(q & 0x7FFF == q % 32768) by (bit_vector);
    Ok(q & MASK)
}

/// The bits set in both words, cut to 15 bits.
pub fn and(x: u16, y: u16) -> (r: u16)
    ensures
        r == (x & y) & 0x7FFFu16,
        r == spec_and(x, y),
        0 <= r <= 32767,
{
    assert(((x & y) & 0x7FFFu16) <= 32767) by (bit_vector);
    (x & y) & MASK
}

/// The bits set in either word, cut to 15 bits.
pub fn or(x: u16, y: u16) -> (r: u16)
    ensures
        r == (x | y) & 0x7FFFu16,
        r == spec_or(x, y),
        0 <= r <= 32767,
{
    assert(((x | y) & 0x7FFFu16) <= 32767) by (bit_vector);
    (x | y) & MASK
}

/// The 15-bit complement: each of the low 15 bits is flipped and the top
/// bit is cleared. For a 15-bit word `x` this is `32767 - x`.
pub fn not(x: u16) -> (r: u16)
    ensures
        r == 32767 - x % 32768,
        x <= 32767 ==> r == 32767 - x,
        r == spec_not(x),
        0 <= r <= 32767,
{
    assert((!x) & 0x7FFFu16 == 32767 - x % 32768) by (bit_vector);
    (!x) & MASK
}

} // verus!
