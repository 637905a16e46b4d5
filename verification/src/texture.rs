//! How a frame has to be laid out for upload to a texture: each row padded
//! to the alignment that buffer-to-texture copies demand.

use vstd::prelude::*;
use crate::frame::{packed_len, VideoFrame};

verus! {

/// Bytes that one pixel takes.
pub const BYTES_PER_PIXEL: u32 = 4;

/// The alignment of a row in a buffer that is copied to a texture.
pub const ROW_ALIGNMENT: u32 = 256;

/// The size of a texture.
#[derive(Clone, Copy, Debug, PartialEq, Eq, Structural)]
pub struct TextureSize {
    pub width: u32,
    pub height: u32,
}

/// Bytes of a row of `width` pixels, padded to the next multiple of the
/// alignment.
pub open spec fn aligned_row_len(width: u32) -> int {
    ((BYTES_PER_PIXEL * width + ROW_ALIGNMENT - 1) / (ROW_ALIGNMENT as int)) * ROW_ALIGNMENT
}

/// Row `row` of a packed picture, padded with zeros to `stride` bytes.
pub open spec fn padded_row(data: Seq<u8>, width: u32, row: int, stride: int) -> Seq<u8> {
    Seq::new(
        stride as nat,
        |col: int|
            if col < BYTES_PER_PIXEL * width {
                data[row * (BYTES_PER_PIXEL * width) + col]
            } else {
                0u8
            },
    )
}

/// The first `rows` rows of a packed picture, each padded to `stride` bytes.
pub open spec fn padded_rows(data: Seq<u8>, width: u32, rows: nat, stride: int) -> Seq<u8>
    decreases rows,
{
    if rows == 0 {
        Seq::empty()
    } else {
        padded_rows(data, width, (rows - 1) as nat, stride) + padded_row(
            data,
            width,
            rows - 1,
            stride,
        )
    }
}

/// The aligned row length is the least multiple of the alignment that holds
/// the row.
pub proof fn lemma_aligned_row_len(width: u32)
    ensures
        aligned_row_len(width) % (ROW_ALIGNMENT as int) == 0,
        BYTES_PER_PIXEL * width <= aligned_row_len(width) < BYTES_PER_PIXEL * width + ROW_ALIGNMENT,
{
    let x: int = 4 * width + 255;
    assert((x / 256) * 256 % 256 == 0 && x - 255 <= (x / 256) * 256 <= x) by (nonlinear_arith)
        requires
            x >= 0,
    ;
}

/// In padded rows, byte `col` of row `row` is the picture's where the row
/// has one there, and zero in the padding.
pub proof fn lemma_padded_rows_byte(
    data: Seq<u8>,
    width: u32,
    rows: nat,
    stride: int,
    row: int,
    col: int,
)
    requires
        0 <= row < rows,
        0 <= col < stride,
    ensures
        padded_rows(data, width, rows, stride).len() == rows * stride,
        padded_rows(data, width, rows, stride)[row * stride + col] == padded_row(
            data,
            width,
            row,
            stride,
        )[col],
    decreases rows,
{
    lemma_padded_rows_len(data, width, rows, stride);
    lemma_padded_rows_len(data, width, (rows - 1) as nat, stride);
    if row == rows - 1 {
    } else {
        lemma_padded_rows_byte(data, width, (rows - 1) as nat, stride, row, col);
        assert(row * stride + col < (rows - 1) * stride) by (nonlinear_arith)
            requires
                0 <= row < rows - 1,
                0 <= col < stride,
        ;
    }
}

/// Padded rows take `stride` bytes each.
pub proof fn lemma_padded_rows_len(data: Seq<u8>, width: u32, rows: nat, stride: int)
    requires
        stride >= 0,
    ensures
        padded_rows(data, width, rows, stride).len() == rows * stride,
    decreases rows,
{
    if rows > 0 {
        lemma_padded_rows_len(data, width, (rows - 1) as nat, stride);
        assert((rows - 1) * stride + stride == rows * stride) by (nonlinear_arith);
    } else {
        assert(rows * stride == 0) by (nonlinear_arith)
            requires
                rows == 0,
        ;
    }
}

/// Bytes of a row of `width` pixels in a buffer that is copied to a
/// texture; `None` where 32 bits do not hold them.
pub fn aligned_bytes_per_row(width: u32) -> (r: Option<u32>)
    ensures
        aligned_row_len(width) <= u32::MAX ==> r == Some(aligned_row_len(width) as u32),
        aligned_row_len(width) > u32::MAX ==> r is None,
{
    let bytes_per_row: u64 = (BYTES_PER_PIXEL as u64) * (width as u64);
    let aligned: u64 = (bytes_per_row + (ROW_ALIGNMENT as u64 - 1)) / (ROW_ALIGNMENT as u64)
        * (ROW_ALIGNMENT as u64);
    if aligned > u32::MAX as u64 {
        None
    } else {
        Some(aligned as u32)
    }
}

/// Whether a texture has to be made anew for a frame of `frame` size: there
/// is none yet, or the one there is has another size.
pub fn needs_new_texture(current: Option<TextureSize>, frame: TextureSize) -> (b: bool)
    ensures
        b == (current != Some(frame)),
{
    match current {
        None => true,
        Some(size) => size.width != frame.width || size.height != frame.height,
    }
}

impl VideoFrame {
    /// The size of the picture.
    pub fn size(&self) -> (s: TextureSize)
        ensures
            s.width == self.width,
            s.height == self.height,
    {
        TextureSize { width: self.width, height: self.height }
    }

    /// Whether the frame holds exactly the bytes of a picture of its size.
    pub fn holds_packed_picture(&self) -> (b: bool)
        ensures
            b == self.is_packed(),
    {
        let wide: u128 = self.width as u128;
        let high: u128 = self.height as u128;
        assert(4 * wide * high <= 4 * 0xffff_ffff * 0xffff_ffff) by (nonlinear_arith)
            requires
                wide <= 0xffff_ffff,
                high <= 0xffff_ffff,
        ;
        self.data.len() as u128 == 4 * wide * high
    }

    /// The picture with each row padded with zeros to the aligned row
    /// length, as a buffer-to-texture copy wants it. `None` for a frame that
    /// is not packed, or whose aligned rows 32 bits do not hold.
    pub fn aligned_rows(&self) -> (r: Option<Vec<u8>>)
        ensures
            r is Some <==> self.is_packed() && aligned_row_len(self.width) <= u32::MAX,
            r matches Some(bytes) ==> bytes@ == padded_rows(
                self.data@,
                self.width,
                self.height as nat,
                aligned_row_len(self.width),
            ),
    {
        if !self.holds_packed_picture() {
            return None;
        }
        let stride: u32 = match aligned_bytes_per_row(self.width) {
            Some(stride) => stride,
            None => { return None; },
        };
        proof {
            lemma_aligned_row_len(self.width);
        }
        let row_len: u32 = BYTES_PER_PIXEL * self.width;
        let ghost picture = self.data@;
        let total: usize = self.data.len();
        let mut out: Vec<u8> = Vec::new();
        let mut src: usize = 0;
        let mut row: u32 = 0;
        while row < self.height
            invariant
                row <= self.height,
                picture == self.data@,
                picture.len() == total,
                picture.len() == packed_len(self.width, self.height),
                row_len == BYTES_PER_PIXEL * self.width,
                row_len <= stride,
                stride == aligned_row_len(self.width),
                src == row * row_len,
                out@ == padded_rows(picture, self.width, row as nat, stride as int),
            decreases self.height - row,
        {
            let ghost before = out@;
            let ghost line = padded_row(picture, self.width, row as int, stride as int);
            assert((row + 1) * row_len <= self.height * row_len && (row + 1) * row_len == row
                * row_len + row_len && self.height * row_len == 4 * self.width * self.height)
                by (nonlinear_arith)
                requires
                    row < self.height,
                    row_len == 4 * self.width,
            ;
            let mut col: u32 = 0;
            while col < stride
                invariant
                    col <= stride,
                    row < self.height,
                    picture == self.data@,
                    picture.len() == total,
                    row_len <= stride,
                    row_len == BYTES_PER_PIXEL * self.width,
                    src == row * row_len + (if col < row_len { col } else { row_len }),
                    row * row_len + row_len <= picture.len(),
                    line == padded_row(picture, self.width, row as int, stride as int),
                    out@ == before + line.take(col as int),
                decreases stride - col,
            {
                if col < row_len {
                    out.push(self.data[src]);
                    src = src + 1;
                } else {
                    out.push(0u8);
                }
                col = col + 1;
                assert(out@ =~= before + line.take(col as int));
            }
            assert(line.take(stride as int) =~= line);
            row = row + 1;
        }
        Some(out)
    }
}

} // verus!
