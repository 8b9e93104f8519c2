//! Conversion of raw bitmap bytes into 32-bit pixel words.
use vstd::prelude::*;

verus! {

/// Number of bytes in one pixel word.
pub const PIXEL_BYTES: usize = 4;

/// The pixel word stored little-endian in `b[4 * i .. 4 * i + 4]`.
pub open spec fn word_at(b: Seq<u8>, i: int) -> u32 {
    (b[4 * i] as int + b[4 * i + 1] as int * 0x100 + b[4 * i + 2] as int * 0x1_0000
        + b[4 * i + 3] as int * 0x100_0000) as u32
}

/// The pixel words that the bytes `b` hold, four bytes to a word, little-endian.
pub open spec fn words_of(b: Seq<u8>) -> Seq<u32> {
    Seq::new((b.len() / 4) as nat, |i: int| word_at(b, i))
}

/// Whether `b` is a whole number of pixel words.
pub open spec fn is_word_aligned(b: Seq<u8>) -> bool {
    b.len() % 4 == 0
}

/// Reinterprets raw bitmap bytes as pixel words.
///
/// The byte count must be a whole multiple of the word size; otherwise the
/// bytes are refused and `None` is returned.
pub fn transmute_vec(vec: &Vec<u8>) -> (r: Option<Vec<u32>>)
    ensures
        r is Some <==> is_word_aligned(vec@),
        r is Some ==> r->0@ == words_of(vec@),
{
    let n = vec.len();
    if n % PIXEL_BYTES != 0 {
        return None;
    }
    let count = n / PIXEL_BYTES;
    let mut out: Vec<u32> = Vec::with_capacity(count);
    let mut i: usize = 0;
    while i < count
        invariant
            n == vec@.len(),
            count == n / 4,
            n % 4 == 0,
            i <= count,
            out@.len() == i,
            forall|k: int| 0 <= k < i ==> out@[k] == word_at(vec@, k),
        decreases count - i,
    {
        let base = i * PIXEL_BYTES;
        let w: u32 = vec[base] as u32 + vec[base + 1] as u32 * 0x100 + vec[base + 2] as u32
            * 0x1_0000 + vec[base + 3] as u32 * 0x100_0000;
        out.push(w);
        i = i + 1;
    }
    assert(out@ =~= words_of(vec@));
    Some(out)
}

} // verus!
