//! Bounds-validated merge of a bitmap update into a pixel buffer.
//!
//! Every field of an update comes from the network peer: nothing is copied
//! until all of its rows have been checked against both buffers.
use vstd::arithmetic::div_mod::{lemma_fundamental_div_mod, lemma_fundamental_div_mod_converse};
use vstd::prelude::*;

use crate::pixels::{is_word_aligned, transmute_vec, words_of};

verus! {

/// A rectangular update of the remote screen, with its pixel bytes decoded.
///
/// Row `top + i` of the rectangle, for `i` in `0 ..= bottom - top`, is taken
/// from the pixel words `i * width ..` of `data`; `right - left + 1` words
/// are copied for each row.
pub struct BitmapUpdate {
    /// Column of the rectangle's first pixel on the canvas.
    pub left: u16,
    /// Row of the rectangle's first line on the canvas.
    pub top: u16,
    /// Column of the rectangle's last pixel on the canvas (inclusive).
    pub right: u16,
    /// Row of the rectangle's last line on the canvas (inclusive).
    pub bottom: u16,
    /// Width in pixels of one line of `data`.
    pub width: u16,
    /// Decoded pixel bytes, four to a pixel.
    pub data: Vec<u8>,
}

/// Why an update was refused.
#[derive(Debug, Clone, Copy, PartialEq, Eq, Structural)]
pub enum UpdateError {
    /// The pixel bytes are not a whole number of pixel words.
    MisalignedPayload,
    /// `right < left` or `bottom < top`.
    InvertedRect,
    /// A row would read past the pixel data or write past the buffer.
    OutOfBounds,
}

/// Number of pixels copied for each row.
pub open spec fn run_len(u: &BitmapUpdate) -> int {
    u.right - u.left + 1
}

/// Number of rows of the update.
pub open spec fn row_count(u: &BitmapUpdate) -> int {
    u.bottom - u.top + 1
}

/// Buffer index where row `i` of the update starts, on a canvas `cw` wide.
pub open spec fn dest_start(cw: int, u: &BitmapUpdate, i: int) -> int {
    (u.top + i) * cw + u.left
}

/// Index in the pixel words where row `i` of the update starts.
pub open spec fn src_start(u: &BitmapUpdate, i: int) -> int {
    i * u.width
}

/// Row `i` stays inside a buffer of `len` words and pixel data of `n` words.
pub open spec fn row_fits(len: int, cw: int, u: &BitmapUpdate, n: int, i: int) -> bool {
    &&& dest_start(cw, u, i) + run_len(u) <= len
    &&& src_start(u, i) + run_len(u) <= n
}

/// Every row of the update stays inside both buffers.
pub open spec fn rows_fit(len: int, cw: int, u: &BitmapUpdate, n: int) -> bool {
    forall|i: int| 0 <= i < row_count(u) ==> #[trigger] row_fits(len, cw, u, n, i)
}

/// `buf` with its words `dest .. dest + count` replaced by `src[from ..]`.
pub open spec fn copy_run(buf: Seq<u32>, dest: int, src: Seq<u32>, from: int, count: int) -> Seq<
    u32,
> {
    Seq::new(
        buf.len(),
        |k: int|
            if dest <= k < dest + count {
                src[from + k - dest]
            } else {
                buf[k]
            },
    )
}

/// `buf` after the first `rows` rows of the update were copied, in order.
pub open spec fn blit(buf: Seq<u32>, cw: int, u: &BitmapUpdate, src: Seq<u32>, rows: nat) -> Seq<
    u32,
>
    decreases rows,
{
    if rows == 0 {
        buf
    } else {
        let i = rows - 1;
        copy_run(blit(buf, cw, u, src, i as nat), dest_start(cw, u, i), src, src_start(u, i), run_len(u))
    }
}

/// What merging `u` into `buf`, a canvas `cw` pixels wide, gives: the new
/// buffer, or the reason the update is refused.
pub open spec fn transfer_outcome(buf: Seq<u32>, cw: int, u: &BitmapUpdate) -> Result<
    Seq<u32>,
    UpdateError,
> {
    if !is_word_aligned(u.data@) {
        Err(UpdateError::MisalignedPayload)
    } else if u.right < u.left || u.bottom < u.top {
        Err(UpdateError::InvertedRect)
    } else if !rows_fit(buf.len() as int, cw, u, words_of(u.data@).len() as int) {
        Err(UpdateError::OutOfBounds)
    } else {
        Ok(blit(buf, cw, u, words_of(u.data@), row_count(u) as nat))
    }
}

/// Canvas index `k`, on a canvas `cw` wide, lies inside the update's rectangle.
pub open spec fn in_rect(cw: int, u: &BitmapUpdate, k: int) -> bool {
    &&& u.top <= k / cw <= u.bottom
    &&& u.left <= k % cw <= u.right
}

/// `buf` with each pixel of the update's rectangle taken from `src` and
/// every other pixel kept.
pub open spec fn painted(buf: Seq<u32>, cw: int, u: &BitmapUpdate, src: Seq<u32>) -> Seq<u32> {
    Seq::new(
        buf.len(),
        |k: int|
            if in_rect(cw, u, k) {
                src[src_start(u, k / cw - u.top) + k % cw - u.left]
            } else {
                buf[k]
            },
    )
}

/// The rows `top .. top + m` of the rectangle painted from `src`.
spec fn painted_rows(buf: Seq<u32>, cw: int, u: &BitmapUpdate, src: Seq<u32>, m: int) -> Seq<u32> {
    Seq::new(
        buf.len(),
        |k: int|
            if u.top <= k / cw < u.top + m && u.left <= k % cw <= u.right {
                src[src_start(u, k / cw - u.top) + k % cw - u.left]
            } else {
                buf[k]
            },
    )
}

proof fn lemma_blit_paints_rows(buf: Seq<u32>, cw: int, u: &BitmapUpdate, src: Seq<u32>, m: nat)
    requires
        cw > 0,
        u.left <= u.right < cw,
        m <= row_count(u),
    ensures
        blit(buf, cw, u, src, m) == painted_rows(buf, cw, u, src, m as int),
    decreases m,
{
    if m == 0 {
        assert(blit(buf, cw, u, src, m) =~= painted_rows(buf, cw, u, src, 0));
    } else {
        let i = m - 1;
        lemma_blit_paints_rows(buf, cw, u, src, i as nat);
        let prev = painted_rows(buf, cw, u, src, i);
        let dest = dest_start(cw, u, i);
        let from = src_start(u, i);
        let next = copy_run(prev, dest, src, from, run_len(u));
        assert forall|k: int| 0 <= k < buf.len() implies #[trigger] next[k] == painted_rows(
            buf,
            cw,
            u,
            src,
            m as int,
        )[k] by {
            lemma_fundamental_div_mod(k, cw);
            let q = k / cw;
            let c = k % cw;
            assert(k == q * cw + c) by (nonlinear_arith)
                requires
                    k == cw * q + c,
            ;
            if dest <= k < dest + run_len(u) {
                lemma_fundamental_div_mod_converse(k, cw, u.top + i, u.left + (k - dest));
            }
            if q == u.top + i && u.left <= c <= u.right {
                assert(k - dest == c - u.left);
            }
        }
        assert(next =~= painted_rows(buf, cw, u, src, m as int));
    }
}

/// A rectangle inside a canvas `cw` by `ch`, whose pixel bytes hold exactly
/// its rows of `width` pixels each, with `width` at least the rectangle's own
/// width: merging it succeeds, writes each pixel of the rectangle from the
/// pixel data and leaves every other pixel of the canvas as it was.
pub proof fn lemma_merge_writes_exactly_the_rectangle(
    buf: Seq<u32>,
    cw: int,
    ch: int,
    u: &BitmapUpdate,
)
    requires
        buf.len() == cw * ch,
        u.left <= u.right < cw,
        u.top <= u.bottom < ch,
        run_len(u) <= u.width,
        u.data@.len() == u.width * row_count(u) * 4,
    ensures
        transfer_outcome(buf, cw, u) == Ok::<Seq<u32>, UpdateError>(
            painted(buf, cw, u, words_of(u.data@)),
        ),
{
    let n = u.width * row_count(u);
    assert((n * 4) % 4 == 0 && (n * 4) / 4 == n) by (nonlinear_arith);
    let src = words_of(u.data@);
    assert(src.len() == n);
    assert forall|i: int| 0 <= i < row_count(u) implies #[trigger] row_fits(
        buf.len() as int,
        cw,
        u,
        n,
        i,
    ) by {
        let r = u.top + i;
        assert((r + 1) * cw <= ch * cw) by (nonlinear_arith)
            requires
                r + 1 <= ch,
                cw > 0,
        ;
        assert(r * cw + cw == (r + 1) * cw) by (nonlinear_arith);
        assert(cw * ch == ch * cw) by (nonlinear_arith);
        assert((i + 1) * u.width <= row_count(u) * u.width) by (nonlinear_arith)
            requires
                i + 1 <= row_count(u),
                u.width >= 0,
        ;
        assert(i * u.width + u.width == (i + 1) * u.width) by (nonlinear_arith);
        assert(n == row_count(u) * u.width) by (nonlinear_arith)
            requires
                n == u.width * row_count(u),
        ;
    }
    lemma_blit_paints_rows(buf, cw, u, src, row_count(u) as nat);
    assert(painted_rows(buf, cw, u, src, row_count(u)) =~= painted(buf, cw, u, src));
}

/// An update that is whole pixel words, not inverted, and has a row reading
/// past its pixel data or writing past the buffer is refused as out of
/// bounds; a refused update leaves the buffer as it was (see
/// `fast_bitmap_transfer`).
pub proof fn lemma_out_of_range_row_is_refused(buf: Seq<u32>, cw: int, u: &BitmapUpdate, i: int)
    requires
        is_word_aligned(u.data@),
        u.left <= u.right,
        u.top <= u.bottom,
        0 <= i < row_count(u),
        !row_fits(buf.len() as int, cw, u, words_of(u.data@).len() as int, i),
    ensures
        transfer_outcome(buf, cw, u) == Err::<Seq<u32>, UpdateError>(UpdateError::OutOfBounds),
{
}

/// Checks row `i` of the update against a buffer of `len` words and pixel
/// data of `n` words.
fn check_row(len: usize, width: usize, u: &BitmapUpdate, n: usize, i: u16) -> (r: bool)
    requires
        u.left <= u.right,
        u.top <= u.bottom,
        i as int <= u.bottom - u.top,
    ensures
        r == row_fits(len as int, width as int, u, n as int, i as int),
{
    let run = (u.right - u.left) as u128 + 1;
    let row = u.top as u128 + i as u128;
    assert(row * (width as u128) <= 0x1_0000 * 0x1_0000_0000_0000_0000u128) by (nonlinear_arith)
        requires
            row < 0x1_0000,
            width < 0x1_0000_0000_0000_0000u128,
    ;
    assert(i as u128 * (u.width as u128) <= 0x1_0000 * 0x1_0000) by (nonlinear_arith)
        requires
            i < 0x1_0000,
            u.width < 0x1_0000,
    ;
    let dest = row * width as u128 + u.left as u128;
    let src = i as u128 * u.width as u128;
    dest + run <= len as u128 && src + run <= n as u128
}

/// Checks every row of the update, before anything is written.
fn check_rows(len: usize, width: usize, u: &BitmapUpdate, n: usize) -> (r: bool)
    requires
        u.left <= u.right,
        u.top <= u.bottom,
    ensures
        r == rows_fit(len as int, width as int, u, n as int),
{
    let rows: u16 = u.bottom - u.top;
    let mut i: u16 = 0;
    loop
        invariant
            u.left <= u.right,
            u.top <= u.bottom,
            rows == u.bottom - u.top,
            i <= rows,
            forall|j: int| 0 <= j < i ==> #[trigger] row_fits(len as int, width as int, u, n as int, j),
        decreases rows - i,
    {
        if !check_row(len, width, u, n, i) {
            return false;
        }
        if i == rows {
            return true;
        }
        i = i + 1;
    }
}

/// Copies the bitmap `bitmap` into `buffer`, a canvas `width` pixels wide.
///
/// The update is refused, and `buffer` left as it was, when its bytes are not
/// whole pixel words, when its rectangle is inverted, or when any of its rows
/// would read past its pixel data or write past `buffer`. Otherwise each row
/// is copied in turn.
pub fn fast_bitmap_transfer(buffer: &mut Vec<u32>, width: usize, bitmap: &BitmapUpdate) -> (r:
    Result<(), UpdateError>)
    ensures
        final(buffer)@.len() == old(buffer)@.len(),
        match transfer_outcome(old(buffer)@, width as int, bitmap) {
            Ok(s) => r is Ok && final(buffer)@ == s,
            Err(e) => r == Err::<(), UpdateError>(e) && final(buffer)@ == old(buffer)@,
        },
{
    let words = match transmute_vec(&bitmap.data) {
        Some(w) => w,
        None => return Err(UpdateError::MisalignedPayload),
    };
    if bitmap.right < bitmap.left || bitmap.bottom < bitmap.top {
        return Err(UpdateError::InvertedRect);
    }
    let len = buffer.len();
    let n = words.len();
    let rows: u16 = bitmap.bottom - bitmap.top;
    if !check_rows(len, width, bitmap, n) {
        return Err(UpdateError::OutOfBounds);
    }
    let ghost orig = buffer@;
    let run: usize = (bitmap.right - bitmap.left) as usize + 1;
    let mut i: usize = 0;
    while i <= rows as usize
        invariant
            bitmap.left <= bitmap.right,
            bitmap.top <= bitmap.bottom,
            rows == bitmap.bottom - bitmap.top,
            run == run_len(bitmap),
            i <= rows + 1,
            len == orig.len(),
            len == buffer@.len(),
            n == words@.len(),
            words@ == words_of(bitmap.data@),
            rows_fit(len as int, width as int, bitmap, n as int),
            buffer@ == blit(orig, width as int, bitmap, words@, i as nat),
        decreases rows + 1 - i,
    {
        assert(row_fits(len as int, width as int, bitmap, n as int, i as int));
        let ghost before = buffer@;
        let dest: usize = (bitmap.top as usize + i) * width + bitmap.left as usize;
        let src: usize = i * bitmap.width as usize;
        let mut j: usize = 0;
        while j < run
            invariant
                run == run_len(bitmap),
                j <= run,
                dest + run <= len,
                src + run <= n,
                n == words@.len(),
                before.len() == len,
                buffer@ == copy_run(before, dest as int, words@, src as int, j as int),
            decreases run - j,
        {
            buffer.set(dest + j, words[src + j]);
            j = j + 1;
            assert(buffer@ =~= copy_run(before, dest as int, words@, src as int, j as int));
        }
        i = i + 1;
    }
    Ok(())
}

} // verus!
