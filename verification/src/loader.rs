//! The image loader: decodes a byte buffer into RGBA samples through the
//! `image` crate, then builds one two-cell block per pixel with non-zero
//! alpha, in row-major scan order.

use vstd::prelude::*;
use crate::cell::{Block, Rgb, ScreenPos};

verus! {

/// What `image::load_from_memory` decodes from the given bytes: `None`
/// when the bytes are not a supported image, otherwise the width, the
/// height and the row-major RGBA samples of the decoded image. In the
/// pinned `image` version this call depends on the bytes alone: the
/// format is guessed from a fixed magic-byte table, the decode runs
/// under compile-time default limits, and no process-global state is
/// consulted anywhere on the path.
pub uninterp spec fn decoded_rgba(bytes: Seq<u8>) -> Option<(u32, u32, Seq<u8>)>;

/// Declares `image::ImageError`, the error `image::load_from_memory`
/// returns, so that the decode wrapper can hand it through; nothing is
/// assumed of its contents.
#[verifier::external_type_specification]
#[verifier::external_body]
pub struct ExImageError(image::ImageError);

/// Relies on `image::load_from_memory` (with `DynamicImage::to_rgba8` and
/// `ImageBuffer::into_raw` turning the decoded image into plain values).
/// In the pinned `image` version, decoding a byte slice is a function of
/// those bytes alone (static format table, fixed default limits, no
/// global registry), and `to_rgba8` builds its buffer with
/// `ImageBuffer::new`, so the raw buffer of a `width x height` RGBA image
/// holds exactly `4 * width * height` samples in row-major order.
#[verifier::external_body]
fn decode_rgba(bytes: &Vec<u8>) -> (r: Result<(u32, u32, Vec<u8>), image::ImageError>)
    ensures
        match r {
            Ok(d) => {
                &&& decoded_rgba(bytes@) == Some((d.0, d.1, d.2@))
                &&& d.2@.len() == 4 * (d.0 as int) * (d.1 as int)
            },
            Err(_) => decoded_rgba(bytes@) is None,
        },
{
    match image::load_from_memory(bytes.as_slice()) {
        Ok(img) => {
            let rgba = img.to_rgba8();
            Ok((rgba.width(), rgba.height(), rgba.into_raw()))
        },
        Err(e) => Err(e),
    }
}

/// Why the loader failed.
#[derive(Clone, Copy, PartialEq, Eq, Structural, Debug)]
pub enum DecodeError {
    /// The bytes could not be decoded as a supported image format.
    Undecodable,
    /// The decoded image does not fit 16-bit cell coordinates once each
    /// source column becomes two terminal columns.
    TooLarge,
}

/// The decoded dimensions fit the cell grid: every left cell `2 * x` and
/// right cell `2 * x + 1` stays below 2^16 columns, every row below 2^16
/// rows.
pub open spec fn dims_fit(w: u32, h: u32) -> bool {
    &&& 2 * (w as int) <= 0x10000
    &&& (h as int) <= 0x10000
}

/// The alpha sample of the pixel with flat row-major index `i`.
pub open spec fn alpha_at(px: Seq<u8>, i: int) -> u8 {
    px[4 * i + 3]
}

/// The RGB samples of the pixel with flat row-major index `i`.
pub open spec fn rgb_at(px: Seq<u8>, i: int) -> Rgb {
    Rgb { r: px[4 * i], g: px[4 * i + 1], b: px[4 * i + 2] }
}

/// The block produced for the pixel with flat index `i` of an image
/// `w` pixels wide: anchored at column `2 * (i % w)`, row `i / w`, colored
/// with the pixel's RGB samples.
pub open spec fn block_at(w: int, px: Seq<u8>, i: int) -> Block {
    Block::at(
        ScreenPos { x: (2 * (i % w)) as u16, y: (i / w) as u16 },
        Some(rgb_at(px, i)),
    )
}

/// The blocks produced by the first `n` pixels, in scan order: one block
/// per pixel with non-zero alpha, none for fully transparent pixels.
pub open spec fn blocks_upto(w: int, px: Seq<u8>, n: int) -> Seq<Block>
    decreases n,
{
    if n <= 0 {
        Seq::empty()
    } else if alpha_at(px, n - 1) == 0 {
        blocks_upto(w, px, n - 1)
    } else {
        blocks_upto(w, px, n - 1).push(block_at(w, px, n - 1))
    }
}

/// The full block list of a `w x h` image with RGBA samples `px`.
pub open spec fn image_blocks(w: u32, h: u32, px: Seq<u8>) -> Seq<Block> {
    blocks_upto(w as int, px, (w as int) * (h as int))
}

/// How many of the first `n` pixels have non-zero alpha.
pub open spec fn count_opaque(px: Seq<u8>, n: int) -> int
    decreases n,
{
    if n <= 0 {
        0
    } else {
        count_opaque(px, n - 1) + if alpha_at(px, n - 1) == 0 { 0int } else { 1int }
    }
}

/// Law: the loader emits exactly one block per pixel with non-zero alpha,
/// so the block list is as long as the count of such pixels.
pub proof fn lemma_block_count(w: int, px: Seq<u8>, n: int)
    ensures
        blocks_upto(w, px, n).len() == count_opaque(px, n),
    decreases n,
{
    if n > 0 {
        lemma_block_count(w, px, n - 1);
    }
}

/// Law: the block list is empty exactly when every pixel of the image is
/// fully transparent; one pixel with non-zero alpha makes it non-empty.
pub proof fn lemma_empty_iff_all_transparent(w: int, px: Seq<u8>, n: int)
    ensures
        blocks_upto(w, px, n).len() == 0 <==> (forall|i: int|
            0 <= i < n ==> alpha_at(px, i) == 0),
    decreases n,
{
    lemma_block_count(w, px, n);
    if n > 0 {
        lemma_empty_iff_all_transparent(w, px, n - 1);
        lemma_block_count(w, px, n - 1);
    }
}

/// Law: counting opaque pixels is monotone, and strictly so past a pixel
/// with non-zero alpha.
pub proof fn lemma_count_lt(px: Seq<u8>, i: int, m: int)
    requires
        0 <= i < m,
        alpha_at(px, i) != 0,
    ensures
        count_opaque(px, i) < count_opaque(px, m),
    decreases m,
{
    if i < m - 1 {
        lemma_count_lt(px, i, m - 1);
    }
}

/// Law: scan order is preserved. The pixel with flat index `i` and
/// non-zero alpha produces exactly one block, and it stands at position
/// `count_opaque(px, i)` of the list: the blocks come in the order of
/// their source pixels.
pub proof fn lemma_block_position(w: int, px: Seq<u8>, n: int, i: int)
    requires
        0 <= i < n,
        alpha_at(px, i) != 0,
    ensures
        0 <= count_opaque(px, i) < blocks_upto(w, px, n).len(),
        blocks_upto(w, px, n)[count_opaque(px, i)] == block_at(w, px, i),
    decreases n,
{
    lemma_block_count(w, px, n);
    lemma_count_lt(px, i, n);
    if i == n - 1 {
        lemma_block_count(w, px, i);
    } else {
        lemma_block_position(w, px, n - 1, i);
    }
}

/// Law: every entry of the block list is the block of some pixel with
/// non-zero alpha among the first `n`.
pub proof fn lemma_block_source(w: int, px: Seq<u8>, n: int, j: int)
    requires
        0 <= j < blocks_upto(w, px, n).len(),
    ensures
        exists|i: int|
            {
                &&& 0 <= i < n
                &&& alpha_at(px, i) != 0
                &&& blocks_upto(w, px, n)[j] == block_at(w, px, i)
            },
    decreases n,
{
    if n > 0 {
        if alpha_at(px, n - 1) != 0 && j == blocks_upto(w, px, n - 1).len() {
            assert(0 <= n - 1 < n && alpha_at(px, n - 1) != 0 && blocks_upto(w, px, n)[j]
                == block_at(w, px, n - 1));
        } else {
            lemma_block_source(w, px, n - 1, j);
            let i = choose|i: int|
                0 <= i < n - 1 && alpha_at(px, i) != 0 && blocks_upto(w, px, n - 1)[j] == block_at(
                    w,
                    px,
                    i,
                );
            assert(0 <= i < n && alpha_at(px, i) != 0 && blocks_upto(w, px, n)[j] == block_at(
                w,
                px,
                i,
            ));
        }
    }
}

/// Law: the block of the pixel with flat index `i` (source coordinates
/// `x = i % w`, `y = i / w`) sits with its left cell at column `2 * x`,
/// row `y`, its right cell one column further on the same row, and both
/// cells carry the pixel's RGB samples as their shared background.
pub proof fn lemma_block_shape(w: int, h: int, px: Seq<u8>, i: int)
    requires
        0 < w,
        0 <= i < w * h,
        2 * w <= 0x10000,
        h <= 0x10000,
    ensures
        block_at(w, px, i).wf(),
        block_at(w, px, i).left.pos.x == 2 * (i % w),
        block_at(w, px, i).left.pos.y == i / w,
        block_at(w, px, i).left.bg == Some(rgb_at(px, i)),
        block_at(w, px, i).right.pos.x == 2 * (i % w) + 1,
        block_at(w, px, i).right.pos.y == i / w,
        block_at(w, px, i).right.bg == Some(rgb_at(px, i)),
{
    assert(0 <= i % w < w && 0 <= i / w < h) by (nonlinear_arith)
        requires
            0 < w,
            0 <= i < w * h,
    ;
}

/// Builds the block list of a decoded `w x h` RGBA image: one block per
/// pixel with non-zero alpha, in row-major scan order.
pub fn blocks_from_rgba(w: u32, h: u32, px: &Vec<u8>) -> (blocks: Vec<Block>)
    requires
        px@.len() == 4 * (w as int) * (h as int),
        dims_fit(w, h),
    ensures
        blocks@ == image_blocks(w, h, px@),
{
    let n: usize = px.len() / 4;
    proof {
        assert(px@.len() == 4 * ((w as int) * (h as int)) && px@.len() / 4 == (w as int) * (
        h as int)) by (nonlinear_arith)
            requires
                px@.len() == 4 * (w as int) * (h as int),
        ;
    }
    let mut out: Vec<Block> = Vec::new();
    let mut i: usize = 0;
    while i < n
        invariant
            px@.len() == 4 * (w as int) * (h as int),
            dims_fit(w, h),
            n == (w as int) * (h as int),
            px@.len() == 4 * (n as int),
            px@.len() <= usize::MAX,
            i <= n,
            out@ == blocks_upto(w as int, px@, i as int),
        decreases n - i,
    {
        let a: u8 = px[4 * i + 3];
        if a != 0 {
            assert(0 < w as int && (i as int) % (w as int) < w as int && (i as int) / (w as int)
                < h as int) by (nonlinear_arith)
                requires
                    0 <= (i as int) < (w as int) * (h as int),
                    0 <= w as int,
            ;
            let x: usize = i % (w as usize);
            let y: usize = i / (w as usize);
            let color = Rgb { r: px[4 * i], g: px[4 * i + 1], b: px[4 * i + 2] };
            let pos = ScreenPos { x: (2 * x) as u16, y: y as u16 };
            out.push(Block::new(pos, Some(color)));
        }
        i = i + 1;
    }
    out
}

/// What the loader's result says of the input bytes: success carries the
/// block list of the decoded image, and each error names exactly when it
/// comes.
pub open spec fn load_result_ok(bytes: Seq<u8>, r: Result<Seq<Block>, DecodeError>) -> bool {
    match decoded_rgba(bytes) {
        Some(d) => match r {
            Ok(blocks) => dims_fit(d.0, d.1) && blocks == image_blocks(d.0, d.1, d.2),
            Err(e) => e == DecodeError::TooLarge && !dims_fit(d.0, d.1),
        },
        None => r == Err::<Seq<Block>, DecodeError>(DecodeError::Undecodable),
    }
}

/// Decodes an image from its raw file bytes and builds its block list.
/// Succeeds exactly on bytes that decode to an image whose dimensions fit
/// the cell grid.
pub fn load_blocks(bytes: &Vec<u8>) -> (r: Result<Vec<Block>, DecodeError>)
    ensures
        load_result_ok(
            bytes@,
            match r {
                Ok(blocks) => Ok(blocks@),
                Err(e) => Err(e),
            },
        ),
{
    match decode_rgba(bytes) {
        Ok((w, h, px)) => {
            if w <= 0x8000 && h <= 0x10000 {
                Ok(blocks_from_rgba(w, h, &px))
            } else {
                Err(DecodeError::TooLarge)
            }
        },
        Err(_) => Err(DecodeError::Undecodable),
    }
}

/// Law: the loader is deterministic. Two results that both describe the
/// same input bytes are equal, so loading one file twice yields
/// element-wise identical block lists.
pub proof fn lemma_load_deterministic(
    bytes: Seq<u8>,
    r1: Result<Seq<Block>, DecodeError>,
    r2: Result<Seq<Block>, DecodeError>,
)
    requires
        load_result_ok(bytes, r1),
        load_result_ok(bytes, r2),
    ensures
        r1 == r2,
{
}

} // verus!
