//! From quantized pixels to a picture.
//!
//! The device leaves one element per grid cell. The picture shows the element
//! with flat index `x * width + y` at column `x` and row `y`: that is the
//! orientation of every picture this library writes. The bytes of the picture
//! file come from the `image` crate's PNG encoder.

use vstd::prelude::*;
use vstd::arithmetic::div_mod::lemma_fundamental_div_mod_converse;
use image::ImageEncoder;
use image::ExtendedColorType;
use image::codecs::png::PngEncoder;
use crate::buffers::{grid_cells, grid_size};

verus! {

/// One pixel, eight bits per channel.
#[derive(Clone, Copy, Debug, PartialEq, Eq, Structural)]
pub struct Pixel {
    pub r: u8,
    pub g: u8,
    pub b: u8,
}

/// Why no picture is made.
#[derive(Clone, Copy, Debug, PartialEq, Eq, Structural)]
pub enum RasterError {
    /// The source does not hold one pixel per grid cell.
    LengthMismatch { expected: u64, found: u64 },
    /// The grid is wider than it is high, so that some pixel would be
    /// fetched from beyond the end of the source.
    SourceOutOfRange,
    /// A row of the picture is longer than the encoder can count in 32 bits,
    /// or the picture has more bytes than a vector can hold.
    TooLarge,
    /// The picture has no pixel.
    EmptyPicture,
    /// The encoder refused the picture.
    EncodingFailed,
}

/// The flat index of the source element shown at column `x`, row `y`.
pub open spec fn source_index(x: int, y: int, width: int) -> int {
    x * width + y
}

/// Whether every position of a grid has its source element within the
/// `width * height` elements of the source.
pub open spec fn grid_in_range(width: int, height: int) -> bool {
    forall|x: int, y: int|
        0 <= x < width && 0 <= y < height ==> #[trigger] source_index(x, y, width) < width
            * height
}

/// A channel of a pixel: 0 is red, 1 is green, anything else is blue.
pub open spec fn channel_of(p: Pixel, c: int) -> u8 {
    if c == 0 {
        p.r
    } else if c == 1 {
        p.g
    } else {
        p.b
    }
}

/// The byte at position `i` of the picture: the rows follow one another, a
/// row holds its pixels from left to right, a pixel its three channels.
pub open spec fn raster_byte(source: Seq<Pixel>, width: int, i: int) -> u8 {
    let cell = i / 3;
    let x = cell % width;
    let y = cell / width;
    channel_of(source[source_index(x, y, width)], i % 3)
}

/// The bytes of the picture of a source.
pub open spec fn raster_of(source: Seq<Pixel>, width: u32, height: u32) -> Seq<u8> {
    Seq::new(
        3 * (width as nat) * (height as nat),
        |i: int| raster_byte(source, width as int, i),
    )
}

/// Whether the rows of a picture are short enough for the encoder, which
/// counts the bytes of a row, a leading filter byte among them, in 32 bits.
pub open spec fn row_fits(width: u32) -> bool {
    3 * (width as nat) + 1 <= u32::MAX
}

/// The reason for which a source of `found` pixels gives no raster on a grid,
/// if there is one. The length is examined first, then the shape of the grid,
/// then the size of the picture.
pub open spec fn raster_defect(found: nat, width: u32, height: u32) -> Option<RasterError> {
    let cells = grid_cells(width, height);
    if found != cells {
        Some(
            RasterError::LengthMismatch {
                expected: cells as u64,
                found: found as u64,
            },
        )
    } else if width > height && height > 0 {
        Some(RasterError::SourceOutOfRange)
    } else if !row_fits(width) || 3 * cells > isize::MAX {
        Some(RasterError::TooLarge)
    } else {
        None
    }
}

/// The bytes of the PNG file that the `image` crate's encoder makes of an
/// eight-bit RGB raster.
pub uninterp spec fn png_encoding(width: u32, height: u32, raster: Seq<u8>) -> Seq<u8>;

/// Proves that the source index stays within the source exactly on the
/// grids that are not wider than high, and on the empty ones.
pub proof fn lemma_grid_in_range(width: nat, height: nat)
    ensures
        grid_in_range(width as int, height as int) <==> (width <= height || height == 0),
{
    let w = width as int;
    let h = height as int;
    if width <= height || height == 0 {
        assert forall|x: int, y: int| 0 <= x < w && 0 <= y < h implies #[trigger] source_index(
            x,
            y,
            w,
        ) < w * h by {
            assert(x * w + y < w * h) by (nonlinear_arith)
                requires
                    0 <= x < w,
                    0 <= y < h,
                    w <= h,
            ;
        }
    } else {
        let x = w - 1;
        let y = h - 1;
        assert(x * w + y >= w * h) by (nonlinear_arith)
            requires
                x == w - 1,
                y == h - 1,
                w > h,
                h > 0,
        ;
        assert(!(source_index(x, y, w) < w * h));
    }
}

/// Proves that on a square grid the picture is the source turned over its
/// diagonal: every source element is shown, each at one position.
pub proof fn lemma_square_transposes(size: int, x: int, y: int)
    requires
        0 <= x < size,
        0 <= y < size,
    ensures
        0 <= source_index(x, y, size) < size * size,
        source_index(x, y, size) / size == x,
        source_index(x, y, size) % size == y,
        source_index(y, x, size) == (source_index(x, y, size) % size) * size + source_index(
            x,
            y,
            size,
        ) / size,
{
    lemma_fundamental_div_mod_converse(x * size + y, size, x, y);
    assert(x * size + y < size * size) by (nonlinear_arith)
        requires
            0 <= x < size,
            0 <= y < size,
    ;
    assert(0 <= x * size) by (nonlinear_arith)
        requires
            0 <= x,
            0 <= size,
    ;
}

/// Proves that the three bytes written for the cell at column `x` and row `y`
/// stand where the raster has the channels of that cell's source element.
proof fn lemma_cell_bytes(source: Seq<Pixel>, width: int, x: int, y: int, c: int)
    requires
        0 <= x < width,
        0 <= y,
        0 <= c < 3,
    ensures
        raster_byte(source, width, 3 * (y * width + x) + c) == channel_of(
            source[source_index(x, y, width)],
            c,
        ),
{
    let cell = y * width + x;
    assert(0 <= y * width) by (nonlinear_arith)
        requires
            0 <= y,
            0 <= width,
    ;
    assert((3 * cell + c) / 3 == cell && (3 * cell + c) % 3 == c);
    lemma_fundamental_div_mod_converse(cell, width, y, x);
}

/// Proves what the picture shows: the three bytes of the pixel at column `x`
/// and row `y` are the channels of the source element with flat index
/// `x * width + y`.
pub proof fn lemma_raster_shows_source(
    source: Seq<Pixel>,
    width: u32,
    height: u32,
    x: int,
    y: int,
    c: int,
)
    requires
        0 <= x < width,
        0 <= y < height,
        0 <= c < 3,
    ensures
        0 <= 3 * (y * width + x) + c < raster_of(source, width, height).len(),
        raster_of(source, width, height)[3 * (y * width + x) + c] == channel_of(
            source[source_index(x, y, width as int)],
            c,
        ),
{
    lemma_cell_bytes(source, width as int, x, y, c);
    assert(0 <= y * width && y * width + x < width * height) by (nonlinear_arith)
        requires
            0 <= x < width,
            0 <= y < height,
    ;
    assert(3 * (width as nat) * (height as nat) == 3 * (width * height)) by (nonlinear_arith);
}

/// Lays the pixels of a source out as the bytes of a picture, three per
/// pixel, row after row. The pixel at column `x` and row `y` is the source
/// element with flat index `x * width + y`.
pub fn rasterize(source: &Vec<Pixel>, width: u32, height: u32) -> (r: Result<Vec<u8>, RasterError>)
    ensures
        match raster_defect(source@.len(), width, height) {
            Some(e) => r == Err::<Vec<u8>, RasterError>(e),
            None => r is Ok && r->Ok_0@ == raster_of(source@, width, height),
        },
{
    let cells: u64 = grid_size(width, height);
    let found: u64 = source.len() as u64;
    if found != cells {
        return Err(RasterError::LengthMismatch { expected: cells, found });
    }
    if width > height && height > 0 {
        return Err(RasterError::SourceOutOfRange);
    }
    if width > (u32::MAX - 1) / 3 || cells > (isize::MAX as u64) / 3 {
        return Err(RasterError::TooLarge);
    }
    let w: usize = width as usize;
    let h: usize = height as usize;
    proof {
        lemma_grid_in_range(width as nat, height as nat);
    }
    let mut raster: Vec<u8> = Vec::new();
    let mut y: usize = 0;
    while y < h
        invariant
            y <= h,
            w == width,
            h == height,
            source@.len() == w * h,
            source@.len() <= usize::MAX,
            grid_in_range(w as int, h as int),
            raster@.len() == 3 * (y * w),
            forall|i: int|
                0 <= i < raster@.len() ==> raster@[i] == raster_byte(source@, w as int, i),
        decreases h - y,
    {
        let mut x: usize = 0;
        while x < w
            invariant
                x <= w,
                y < h,
                w == width,
                h == height,
                source@.len() == w * h,
                source@.len() <= usize::MAX,
                grid_in_range(w as int, h as int),
                raster@.len() == 3 * (y * w + x),
                forall|i: int|
                    0 <= i < raster@.len() ==> raster@[i] == raster_byte(source@, w as int, i),
            decreases w - x,
        {
            proof {
                assert(source_index(x as int, y as int, w as int) < w * h);
                assert(0 <= x * w) by (nonlinear_arith)
                    requires
                        0 <= x,
                        0 <= w,
                ;
                lemma_cell_bytes(source@, w as int, x as int, y as int, 0);
                lemma_cell_bytes(source@, w as int, x as int, y as int, 1);
                lemma_cell_bytes(source@, w as int, x as int, y as int, 2);
            }
            let p: Pixel = source[x * w + y];
            raster.push(p.r);
            raster.push(p.g);
            raster.push(p.b);
            x = x + 1;
        }
        proof {
            assert((y + 1) * w == y * w + w) by (nonlinear_arith);
        }
        y = y + 1;
    }
    proof {
        assert(3 * (h * w) == 3 * (width as nat) * (height as nat)) by (nonlinear_arith)
            requires
                w == width,
                h == height,
        ;
        assert(raster@ =~= raster_of(source@, width, height));
    }
    Ok(raster)
}

/// Whether the encoder can be run on a raster of `len` bytes for a grid: the
/// raster is three bytes per grid cell long, the picture has a pixel, a row
/// can be counted in 32 bits, and the raster is no longer than a vector can be.
pub open spec fn png_encodable(width: u32, height: u32, len: nat) -> bool {
    &&& len == 3 * grid_cells(width, height)
    &&& width >= 1
    &&& height >= 1
    &&& row_fits(width)
    &&& len <= isize::MAX
}

/// Runs the PNG encoder of the `image` crate, `PngEncoder::write_image`, on an
/// eight-bit RGB raster and an empty byte vector. The contract claims that the
/// encoder accepts every raster that `png_encodable` admits, and that the bytes it
/// leaves in the vector are a function of the dimensions and the raster alone.
/// It claims nothing about what the bytes are. Three limits of the encoder keep
/// other rasters out: it panics on a raster that is not three bytes per grid
/// cell long; it refuses a picture without width or height; and its compressor
/// counts the zero bytes of a row, a filter byte and three bytes per pixel, in
/// 32 bits, so that a row of more than `u32::MAX` bytes can overflow the count.
#[verifier::external_body]
fn png_encode(width: u32, height: u32, raster: &Vec<u8>) -> (r: Option<Vec<u8>>)
    requires
        png_encodable(width, height, raster@.len()),
    ensures
        r is Some,
        r->Some_0@ == png_encoding(width, height, raster@),
{
    let mut bytes: Vec<u8> = Vec::new();
    let encoder = PngEncoder::new(&mut bytes);
    match encoder.write_image(raster.as_slice(), width, height, ExtendedColorType::Rgb8) {
        Ok(()) => Some(bytes),
        Err(_) => None,
    }
}

/// Turns what the encoder handed back into the result of the library.
pub fn png_outcome(encoded: Option<Vec<u8>>) -> (r: Result<Vec<u8>, RasterError>)
    ensures
        match encoded {
            Some(bytes) => r == Ok::<Vec<u8>, RasterError>(bytes),
            None => r == Err::<Vec<u8>, RasterError>(RasterError::EncodingFailed),
        },
{
    match encoded {
        Some(bytes) => Ok(bytes),
        None => Err(RasterError::EncodingFailed),
    }
}

/// What `encode_png` returns, as the view of its result: the defect of the
/// source if it has one, a refusal if the picture has no pixel, and the bytes
/// of the encoder for the raster of the source in every other case.
pub open spec fn png_of(source: Seq<Pixel>, width: u32, height: u32) -> Result<
    Seq<u8>,
    RasterError,
> {
    match raster_defect(source.len(), width, height) {
        Some(e) => Err(e),
        None => if width == 0 || height == 0 {
            Err(RasterError::EmptyPicture)
        } else {
            Ok(png_encoding(width, height, raster_of(source, width, height)))
        },
    }
}

/// Whether `r` is what `encode_png` owes for a source on a grid.
pub open spec fn is_png_of(
    r: Result<Vec<u8>, RasterError>,
    source: Seq<Pixel>,
    width: u32,
    height: u32,
) -> bool {
    match png_of(source, width, height) {
        Ok(bytes) => r is Ok && r->Ok_0@ == bytes,
        Err(e) => r == Err::<Vec<u8>, RasterError>(e),
    }
}

/// Makes the PNG file of a source: the bytes that the encoder gives for the
/// raster of the source. A source that has no raster, and a picture without a
/// pixel, are refused before the encoder is asked.
pub fn encode_png(source: &Vec<Pixel>, width: u32, height: u32) -> (r: Result<
    Vec<u8>,
    RasterError,
>)
    ensures
        is_png_of(r, source@, width, height),
{
    match rasterize(source, width, height) {
        Ok(raster) => {
            if width == 0 || height == 0 {
                Err(RasterError::EmptyPicture)
            } else {
                proof {
                    assert(3 * (width as nat) * (height as nat) == 3 * ((width as nat) * (
                    height as nat))) by (nonlinear_arith);
                }
                png_outcome(png_encode(width, height, &raster))
            }
        },
        Err(e) => Err(e),
    }
}

/// Proves on which inputs a picture is made: the source holds one pixel per
/// grid cell, the grid is not wider than high and has a cell, a row can be
/// counted in 32 bits, and the picture fits a vector.
pub proof fn lemma_png_success(source: Seq<Pixel>, width: u32, height: u32)
    ensures
        png_of(source, width, height) is Ok <==> (source.len() == grid_cells(width, height) && 1
            <= width <= height && row_fits(width) && 3 * grid_cells(width, height)
            <= isize::MAX),
{
}

/// Proves that making a picture again gives the same file: two results that
/// `encode_png` owes for the same source on the same grid fail alike or hold
/// the same bytes.
pub proof fn lemma_png_repeatable(
    first: Result<Vec<u8>, RasterError>,
    second: Result<Vec<u8>, RasterError>,
    source: Seq<Pixel>,
    width: u32,
    height: u32,
)
    requires
        is_png_of(first, source, width, height),
        is_png_of(second, source, width, height),
    ensures
        first is Ok <==> second is Ok,
        first is Ok ==> first->Ok_0@ == second->Ok_0@,
        first is Err ==> first->Err_0 == second->Err_0,
{
}

} // verus!
