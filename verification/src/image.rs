//! The binary form of a program: its words one after the other, each as
//! two bytes, the low byte first.

use vstd::prelude::*;

verus! {

/// The word whose low byte is `low` and whose high byte is `high`.
pub open spec fn word_of(low: u8, high: u8) -> u16 {
    (low + 256 * high) as u16
}

/// The words that `bytes` encode, two bytes to a word. A last byte without
/// a partner encodes nothing.
pub open spec fn words_of(bytes: Seq<u8>) -> Seq<u16> {
    Seq::new(bytes.len() / 2, |i: int| word_of(bytes[2 * i], bytes[2 * i + 1]))
}

/// Decodes a program image. An image of an odd number of bytes is cut off
/// in the middle of a word and gives `None`.
pub fn words_from_bytes(bytes: &[u8]) -> (words: Option<Vec<u16>>)
    ensures
        bytes@.len() % 2 == 0 ==> words is Some && words->Some_0@ == words_of(bytes@),
        bytes@.len() % 2 != 0 ==> words is None,
{
    let n = bytes.len();
    if n % 2 != 0 {
        return None;
    }
    let mut words: Vec<u16> = Vec::new();
    let mut i: usize = 0;
    while i < n / 2
        invariant
            n == bytes@.len(),
            n % 2 == 0,
            i <= n / 2,
            words@.len() == i,
            forall|k: int| 0 <= k < i ==> words@[k] == word_of(bytes@[2 * k], bytes@[2 * k + 1]),
        decreases n / 2 - i,
    {
        let low = bytes[2 * i] as u16;
        let high = bytes[2 * i + 1] as u16;
        words.push(low + high * 256);
        i += 1;
    }
    assert(words@ =~= words_of(bytes@));
    Some(words)
}

} // verus!
