//! Basic geometry types: points, images and located codes.
use vstd::prelude::*;
use libc::c_int;
use crate::error::{Error, DecodingErrorKind, kind_of_code};
use crate::info::Info;
use crate::quirc_sys::{quirc_point, quirc_code, quirc_data, quirc_decode_error_t, QUIRC_MAX_BITMAP};
use crate::util::int_to_usize;

verus! {

/// A size, offset, or point in the 2-dimensional plane.
#[derive(Debug, Clone, Copy, Default, PartialEq, Eq, Hash, Structural)]
pub struct Vec2D {
    /// X coordinate, horizontal position, or width.
    pub x: usize,
    /// Y coordinate, vertical position, or height.
    pub y: usize,
}

/// A raw point whose coordinates are both non-negative.
pub open spec fn point_valid(p: quirc_point) -> bool {
    p.x >= 0 && p.y >= 0
}

impl Vec2D {
    /// Attempts to convert a `quirc_point` to a `Vec2D` without over- or underflow.
    pub fn from_raw(p: quirc_point) -> (r: Result<Vec2D, Error>)
        ensures
            point_valid(p) ==> r == Ok::<Vec2D, Error>(Vec2D { x: p.x as usize, y: p.y as usize }),
            !point_valid(p) ==> r == Err::<Vec2D, Error>(Error::IntOverflow),
    {
        let x = int_to_usize(p.x)?;
        let y = int_to_usize(p.y)?;
        Ok(Vec2D { x, y })
    }
}

/// Raw image data to be decoded: grayscale bytes in row-major order.
#[derive(Debug, Clone, Copy, PartialEq, Eq, Hash)]
pub struct Image<'a> {
    /// The data itself as a contiguous slice.
    data: &'a [u8],
    /// The dimensions of the image.
    size: Vec2D,
}

impl<'a> Image<'a> {
    /// The buffer holds exactly one byte per pixel.
    #[verifier::type_invariant]
    spec fn well_formed(&self) -> bool {
        self.data@.len() == self.size.x * self.size.y
    }

    /// The pixel bytes of the image.
    pub closed spec fn pixels(&self) -> Seq<u8> {
        self.data@
    }

    /// The dimensions of the image.
    pub closed spec fn dims(&self) -> Vec2D {
        self.size
    }

    /// Creates an image out of a raw buffer of grayscale data and its
    /// dimensions; fails with `SizeMismatch` unless the buffer holds exactly
    /// `size.x * size.y` bytes.
    pub fn new(data: &'a [u8], size: Vec2D) -> (r: Result<Image<'a>, Error>)
        ensures
            r is Ok <==> data@.len() == size.x * size.y,
            r matches Ok(img) ==> img.pixels() == data@ && img.dims() == size,
            r is Err ==> r == Err::<Image<'a>, Error>(Error::SizeMismatch),
    {
        let len = data.len();
        match size.x.checked_mul(size.y) {
            Some(n) => {
                if len == n {
                    Ok(Image { data, size })
                } else {
                    Err(Error::SizeMismatch)
                }
            },
            None => Err(Error::SizeMismatch),
        }
    }

    /// Returns the raw data buffer.
    pub fn data(&self) -> (r: &'a [u8])
        ensures
            r@ == self.pixels(),
            r@.len() == self.dims().x * self.dims().y,
    {
        proof {
            use_type_invariant(self);
        }
        self.data
    }

    /// Returns the width of (number of columns in) the image.
    pub fn width(&self) -> (r: usize)
        ensures
            r == self.dims().x,
    {
        self.size.x
    }

    /// Returns the height of (number of rows in) the image.
    pub fn height(&self) -> (r: usize)
        ensures
            r == self.dims().y,
    {
        self.size.y
    }
}

/// Number of bytes that hold the bits of a `size` by `size` grid.
pub open spec fn bitmap_len(size: int) -> int {
    (size * size + 7) / 8
}

/// Bit `i` of a bitmap, counting from the least significant bit of the
/// first byte.
pub open spec fn cell_bit(bitmap: Seq<u8>, i: int) -> bool {
    (bitmap[i / 8] >> ((i % 8) as u8)) & 1u8 != 0u8
}

/// A raw code record whose size and corners are all non-negative and whose
/// grid fits in the record's bitmap.
pub open spec fn code_valid(raw: quirc_code) -> bool {
    &&& raw.size >= 0
    &&& raw.size * raw.size <= 8 * QUIRC_MAX_BITMAP
    &&& forall|i: int| 0 <= i < 4 ==> point_valid(#[trigger] raw.corners[i])
}

/// Information about the location and raw data of a QR code within an `Image`.
#[derive(Debug, Clone, Copy)]
pub struct QrCode {
    raw: quirc_code,
}

impl QrCode {
    #[verifier::type_invariant]
    spec fn well_formed(&self) -> bool {
        code_valid(self.raw)
    }

    /// The raw record this code was validated from.
    pub closed spec fn record(&self) -> quirc_code {
        self.raw
    }

    /// The number of cells across the code.
    pub closed spec fn side(&self) -> int {
        self.raw.size as int
    }

    /// The corner with index `i`, counting clockwise from the top left.
    pub closed spec fn corner(&self, i: int) -> Vec2D {
        Vec2D { x: self.raw.corners[i].x as usize, y: self.raw.corners[i].y as usize }
    }

    /// The meaningful prefix of the cell bitmap.
    pub closed spec fn cells(&self) -> Seq<u8> {
        self.raw.cell_bitmap@.subrange(0, bitmap_len(self.side()))
    }

    /// Attempts to create a `QrCode` from a raw record; fails with
    /// `IntOverflow` unless the size and all four corners are non-negative
    /// and the grid fits in the record's bitmap.
    pub fn from_raw(raw: quirc_code) -> (r: Result<QrCode, Error>)
        ensures
            r is Ok <==> code_valid(raw),
            r matches Ok(c) ==> c.record() == raw,
            r is Err ==> r == Err::<QrCode, Error>(Error::IntOverflow),
    {
        let size = int_to_usize(raw.size)?;
        let mut i: usize = 0;
        while i < 4
            invariant
                i <= 4,
                forall|j: int| 0 <= j < i ==> point_valid(#[trigger] raw.corners[j]),
            decreases 4 - i,
        {
            let _ = Vec2D::from_raw(raw.corners[i])?;
            i += 1;
        }
        if size > 8 * QUIRC_MAX_BITMAP {
            proof {
                assert(raw.size * raw.size > 8 * QUIRC_MAX_BITMAP) by (nonlinear_arith)
                    requires raw.size > 8 * QUIRC_MAX_BITMAP;
            }
            return Err(Error::IntOverflow);
        }
        proof {
            assert(size * size <= (8 * QUIRC_MAX_BITMAP) * (8 * QUIRC_MAX_BITMAP)) by (nonlinear_arith)
                requires size <= 8 * QUIRC_MAX_BITMAP;
        }
        if size * size > 8 * QUIRC_MAX_BITMAP {
            return Err(Error::IntOverflow);
        }
        Ok(QrCode { raw })
    }

    /// Extracts the corner at the given index as a `Vec2D`.
    fn corner_at(&self, i: usize) -> (r: Vec2D)
        requires
            i < 4,
        ensures
            r == self.corner(i as int),
    {
        proof {
            use_type_invariant(self);
            assert(point_valid(self.raw.corners[i as int]));
        }
        let p = self.raw.corners[i];
        Vec2D { x: p.x as usize, y: p.y as usize }
    }

    /// The coordinates of the top left corner of the QR code.
    pub fn top_left_corner(&self) -> (r: Vec2D)
        ensures
            r == self.corner(0),
    {
        self.corner_at(0)
    }

    /// The coordinates of the top right corner of the QR code.
    pub fn top_right_corner(&self) -> (r: Vec2D)
        ensures
            r == self.corner(1),
    {
        self.corner_at(1)
    }

    /// The coordinates of the bottom right corner of the QR code.
    pub fn bottom_right_corner(&self) -> (r: Vec2D)
        ensures
            r == self.corner(2),
    {
        self.corner_at(2)
    }

    /// The coordinates of the bottom left corner of the QR code.
    pub fn bottom_left_corner(&self) -> (r: Vec2D)
        ensures
            r == self.corner(3),
    {
        self.corner_at(3)
    }

    /// The size (`width == height`) of the QR code bitmap.
    pub fn size(&self) -> (r: usize)
        ensures
            r == self.side(),
            r * r <= 8 * QUIRC_MAX_BITMAP,
    {
        proof {
            use_type_invariant(self);
        }
        self.raw.size as usize
    }

    /// The meaningful bytes of the bitmap buffer: `ceil(size * size / 8)` of
    /// them. If `size * size % 8 != 0`, the high bits of the last byte
    /// belong to no cell.
    pub fn bitmap(&self) -> (r: &[u8])
        ensures
            r@ == self.cells(),
            r@.len() == bitmap_len(self.side()),
    {
        let size = self.size();
        let num_bits = size * size;
        let num_bytes = (num_bits + 7) / 8;
        let (head, _) = self.raw.cell_bitmap.as_slice().split_at(num_bytes);
        head
    }

    /// Gets the cell at `(coord.x, coord.y)`, or `None` when the coordinate
    /// lies outside the grid.
    pub fn get(&self, coord: Vec2D) -> (r: Option<bool>)
        ensures
            r is None <==> (coord.x >= self.side() || coord.y >= self.side()),
            r matches Some(b) ==> b == cell_bit(self.cells(), coord.y * self.side() + coord.x),
    {
        let size = self.size();
        if coord.x < size && coord.y < size {
            proof {
                assert(coord.y * size + coord.x < size * size) by (nonlinear_arith)
                    requires coord.x < size, coord.y < size;
            }
            let i = coord.y * size + coord.x;
            let byte = self.raw.cell_bitmap[i / 8];
            let bit = (byte >> ((i % 8) as u8)) & 1u8;
            Some(bit != 0)
        } else {
            None
        }
    }

    /// Gets the cell at `(coord.x, coord.y)`, which must lie inside the grid.
    pub fn bit_at(&self, coord: Vec2D) -> (r: bool)
        requires
            coord.x < self.side(),
            coord.y < self.side(),
        ensures
            r == cell_bit(self.cells(), coord.y * self.side() + coord.x),
    {
        self.get(coord).unwrap()
    }

    /// The raw record of this code, to hand to the engine's decode step.
    pub fn raw(&self) -> (r: &quirc_code)
        ensures
            *r == self.record(),
    {
        &self.raw
    }

    /// Turns the engine's answer to a decode request into high-level
    /// information: on the success status the record is read into an
    /// `Info`; any other status, known or not, is a `DecodingFailed` error
    /// of the kind that status stands for.
    pub fn decode(status: c_int, data: &quirc_data) -> (r: Result<Info, Error>)
        ensures
            status == 0 ==> (r matches Ok(info) && info.extracted_from(*data)),
            status != 0 ==> r == Err::<Info, Error>(Error::DecodingFailed(kind_of_code(status as int))),
    {
        match quirc_decode_error_t::from_raw(status) {
            Some(quirc_decode_error_t::QUIRC_SUCCESS) => Ok(Info::from_raw(data)),
            Some(code) => Err(Error::from(code)),
            None => Err(Error::DecodingFailed(DecodingErrorKind::Unknown)),
        }
    }
}

/// Validating a raw record and then asking for the size gives the number of
/// cells across that the bitmap's length is computed from:
/// `ceil(size * size / 8)` bytes.
pub proof fn lemma_bitmap_matches_size(raw: quirc_code, code: QrCode)
    requires
        code_valid(raw),
        code.record() == raw,
    ensures
        code.side() == raw.size,
        code.cells().len() == bitmap_len(raw.size as int),
{
    assert(bitmap_len(raw.size as int) <= QUIRC_MAX_BITMAP);
}

} // verus!
