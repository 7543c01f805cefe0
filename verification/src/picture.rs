//! Laying the rendered pixels out in an image.
//!
//! The renderer produces one column of pixels per horizontal canvas bin, each
//! column running over the vertical bins. The columns are written into an RGB
//! image buffer of the `image` crate, one input column per buffer row, and the
//! buffer is then rotated by 270 degrees so that the columns stand upright.
use vstd::prelude::*;

verus! {

/// An RGB image buffer of the `image` crate.
#[verifier::external_body]
pub struct RgbFrame {
    buf: image::RgbImage,
}

/// An 8-bit RGB colour.
pub type Rgb8 = (u8, u8, u8);

/// The pixels an RGB image buffer holds, by `(x, y)` position.
pub uninterp spec fn rgb_pixels(img: RgbFrame) -> Map<(u32, u32), (u8, u8, u8)>;

/// The width and height an RGB image buffer was made with.
pub uninterp spec fn rgb_dimensions(img: RgbFrame) -> (u32, u32);

/// The pixels of a black image of the given size.
pub open spec fn black_pixels(width: u32, height: u32) -> Map<(u32, u32), Rgb8> {
    Map::new(|p: (u32, u32)| p.0 < width && p.1 < height, |p: (u32, u32)| (0u8, 0u8, 0u8))
}

/// The pixels of an image of the given size rotated by 270 degrees: the
/// pixel at `(x, y)` of the rotation is the pixel at `(width - 1 - y, x)` of
/// the original.
pub open spec fn rotated_pixels(
    pixels: Map<(u32, u32), Rgb8>,
    width: u32,
    height: u32,
) -> Map<(u32, u32), Rgb8> {
    Map::new(
        |p: (u32, u32)| p.0 < height && p.1 < width,
        |p: (u32, u32)| pixels[((width - 1 - p.1) as u32, p.0)],
    )
}

/// `ImageBuffer::new`: an RGB buffer of the given size whose pixels are all
/// black. The crate panics when the buffer length `3 * width * height`
/// overflows `usize`.
#[verifier::external_body]
fn black_image(width: u32, height: u32) -> (img: RgbFrame)
    requires
        3 * width * height <= usize::MAX,
    ensures
        rgb_dimensions(img) == (width, height),
        rgb_pixels(img) == black_pixels(width, height),
{
    RgbFrame { buf: image::ImageBuffer::new(width, height) }
}

/// `ImageBuffer::put_pixel`: sets the pixel at `(x, y)` and leaves every
/// other pixel and the size unchanged. The crate panics outside the bounds.
#[verifier::external_body]
fn put_pixel(img: &mut RgbFrame, x: u32, y: u32, rgb: Rgb8)
    requires
        x < rgb_dimensions(*old(img)).0,
        y < rgb_dimensions(*old(img)).1,
    ensures
        rgb_dimensions(*final(img)) == rgb_dimensions(*old(img)),
        rgb_pixels(*final(img)) == rgb_pixels(*old(img)).insert((x, y), rgb),
{
    img.buf.put_pixel(x, y, image::Rgb([rgb.0, rgb.1, rgb.2]));
}

/// `imageops::rotate270`: a new buffer with width and height swapped, whose
/// pixel at `(y, width - 1 - x)` is the pixel at `(x, y)` of `img`. The new
/// buffer is made with `ImageBuffer::new`, hence the bound on its length.
#[verifier::external_body]
fn rotate270(img: &RgbFrame) -> (out: RgbFrame)
    requires
        3 * rgb_dimensions(*img).0 * rgb_dimensions(*img).1 <= usize::MAX,
    ensures
        rgb_dimensions(out) == (rgb_dimensions(*img).1, rgb_dimensions(*img).0),
        rgb_pixels(out) == rotated_pixels(
            rgb_pixels(*img),
            rgb_dimensions(*img).0,
            rgb_dimensions(*img).1,
        ),
{
    RgbFrame { buf: image::imageops::rotate270(&img.buf) }
}

/// The samples of an image of the given size, laid out row by row from the
/// top-left pixel, three samples (red, green, blue) per pixel.
pub open spec fn raw_samples(pixels: Map<(u32, u32), Rgb8>, width: u32, height: u32) -> Seq<u8> {
    Seq::new(
        (3 * width * height) as nat,
        |i: int|
            {
                let p = i / 3;
                let c = pixels[((p % (width as int)) as u32, (p / (width as int)) as u32)];
                if i % 3 == 0 {
                    c.0
                } else if i % 3 == 1 {
                    c.1
                } else {
                    c.2
                }
            },
    )
}

/// `ImageBuffer::into_raw`: the sample buffer of the image. Every buffer of
/// this module is made by `ImageBuffer::new`, whose buffer holds exactly
/// `3 * width * height` samples, and the pixel at `(x, y)` occupies the three
/// samples from `3 * (y * width + x)` on.
#[verifier::external_body]
fn into_raw(img: RgbFrame) -> (samples: Vec<u8>)
    ensures
        samples@ == raw_samples(rgb_pixels(img), rgb_dimensions(img).0, rgb_dimensions(img).1),
{
    img.buf.into_raw()
}

/// A rendered image as a buffer of 8-bit RGB samples.
pub struct ImageSamples {
    /// The image width in pixels.
    pub width: u32,
    /// The image height in pixels.
    pub height: u32,
    /// The samples, row by row from the top-left pixel, three per pixel.
    pub samples: Vec<u8>,
}

/// The colour of the upright image at `(x, y)`: column `x`, counted from
/// the bottom. Positions past the end of a shorter column are black.
pub open spec fn upright_pixel(columns: Seq<Vec<Rgb8>>, x: u32, y: u32) -> Rgb8 {
    let j = columns[0].len() - 1 - y;
    if j < columns[x as int].len() {
        columns[x as int]@[j]
    } else {
        (0u8, 0u8, 0u8)
    }
}

/// The pixels of the upright image made of the given columns.
pub open spec fn upright_pixels(columns: Seq<Vec<Rgb8>>) -> Map<(u32, u32), Rgb8> {
    Map::new(
        |p: (u32, u32)| p.0 < columns.len() && p.1 < columns[0].len(),
        |p: (u32, u32)| upright_pixel(columns, p.0, p.1),
    )
}

/// The samples of the upright image hold the columns: with `w` columns of
/// height `h`, entry `h - 1 - y` of column `x` (counted from its start) is the
/// pixel in image column `x`, row `y` from the top, whose red, green and blue
/// samples are at `3 * (y * w + x)`, `+ 1` and `+ 2`; above a shorter column
/// those samples are zero. There are `3 * w * h` samples.
pub proof fn samples_hold_columns(columns: Seq<Vec<Rgb8>>, x: int, y: int)
    requires
        0 < columns.len() <= u32::MAX,
        columns[0].len() <= u32::MAX,
        0 <= x < columns.len(),
        0 <= y < columns[0].len(),
    ensures
        raw_samples(upright_pixels(columns), columns.len() as u32, columns[0].len() as u32).len()
            == 3 * columns.len() * columns[0].len(),
        ({
            let s = raw_samples(
                upright_pixels(columns),
                columns.len() as u32,
                columns[0].len() as u32,
            );
            let i = 3 * (y * columns.len() + x);
            let j = columns[0].len() - 1 - y;
            &&& j < columns[x].len() ==> s[i] == columns[x]@[j].0 && s[i + 1] == columns[x]@[j].1
                && s[i + 2] == columns[x]@[j].2
            &&& j >= columns[x].len() ==> s[i] == 0 && s[i + 1] == 0 && s[i + 2] == 0
        }),
{
    let w = columns.len() as int;
    let h = columns[0].len() as int;
    let p = y * w + x;
    assert(0 <= p && 3 * p + 2 < 3 * w * h) by (nonlinear_arith)
        requires
            0 <= x < w,
            0 <= y < h,
            p == y * w + x,
    ;
    vstd::arithmetic::div_mod::lemma_fundamental_div_mod_converse(p, w, y, x);
    vstd::arithmetic::div_mod::lemma_fundamental_div_mod_converse(3 * p, 3, p, 0);
    vstd::arithmetic::div_mod::lemma_fundamental_div_mod_converse(3 * p + 1, 3, p, 1);
    vstd::arithmetic::div_mod::lemma_fundamental_div_mod_converse(3 * p + 2, 3, p, 2);
    let px = upright_pixels(columns);
    assert(px.dom().contains((x as u32, y as u32)));
    let s = raw_samples(px, w as u32, h as u32);
    assert(s.len() == 3 * w * h);
    assert(s[3 * p] == px[(x as u32, y as u32)].0);
    assert(s[3 * p + 1] == px[(x as u32, y as u32)].1);
    assert(s[3 * p + 2] == px[(x as u32, y as u32)].2);
    assert(px[(x as u32, y as u32)] == upright_pixel(columns, x as u32, y as u32));
}

/// The buffer before rotation once the columns before `row` and the first
/// `col` pixels of column `row` are written into it, column `i` as row `i`.
spec fn written_pixels(columns: Seq<Vec<Rgb8>>, row: int, col: int) -> Map<(u32, u32), Rgb8> {
    Map::new(
        |p: (u32, u32)| p.0 < columns[0].len() && p.1 < columns.len(),
        |p: (u32, u32)|
            if (p.1 < row || (p.1 == row && p.0 < col)) && p.0 < columns[p.1 as int].len() {
                columns[p.1 as int]@[p.0 as int]
            } else {
                (0u8, 0u8, 0u8)
            },
    )
}

/// Lays the columns out upright in an RGB image buffer.
fn upright_frame(columns: &Vec<Vec<Rgb8>>) -> (img: RgbFrame)
    requires
        columns.len() > 0,
        columns.len() <= u32::MAX,
        columns@[0].len() <= u32::MAX,
        forall|i: int| 0 <= i < columns.len() ==> #[trigger] columns@[i].len() <= columns@[0].len(),
        3 * columns@[0].len() * columns.len() <= usize::MAX,
    ensures
        rgb_dimensions(img) == (columns.len() as u32, columns@[0].len() as u32),
        rgb_pixels(img) == upright_pixels(columns@),
{
    let sizey = columns.len() as u32;
    let sizex = columns[0].len() as u32;
    let mut imgbuf = black_image(sizex, sizey);
    assert(rgb_pixels(imgbuf) =~= written_pixels(columns@, 0, 0));
    let mut y: usize = 0;
    while y < columns.len()
        invariant
            0 <= y <= columns.len(),
            columns.len() == sizey,
            columns@[0].len() == sizex,
            forall|i: int| 0 <= i < columns.len() ==> #[trigger] columns@[i].len() <= sizex,
            rgb_dimensions(imgbuf) == (sizex, sizey),
            rgb_pixels(imgbuf) == written_pixels(columns@, y as int, 0),
        decreases columns.len() - y,
    {
        let row = &columns[y];
        let mut x: usize = 0;
        while x < row.len()
            invariant
                0 <= y < columns.len(),
                0 <= x <= row.len(),
                row == columns@[y as int],
                columns.len() == sizey,
                columns@[0].len() == sizex,
                row.len() <= sizex,
                rgb_dimensions(imgbuf) == (sizex, sizey),
                rgb_pixels(imgbuf) == written_pixels(columns@, y as int, x as int),
            decreases row.len() - x,
        {
            put_pixel(&mut imgbuf, x as u32, y as u32, row[x]);
            assert(rgb_pixels(imgbuf) =~= written_pixels(columns@, y as int, x + 1));
            x = x + 1;
        }
        assert(written_pixels(columns@, y as int, x as int) =~= written_pixels(
            columns@,
            y + 1,
            0,
        ));
        y = y + 1;
    }
    let img = rotate270(&imgbuf);
    assert(rgb_pixels(img) =~= upright_pixels(columns@));
    img
}

/// Lays the columns out upright in an RGB image and returns its samples: the
/// image is as wide as there are columns and as high as the first column;
/// column `x` fills image column `x` from the bottom up, and where a column is
/// shorter than the first one the pixels above it stay black. Columns longer
/// than the first one do not fit the image, and at least one column is needed.
pub fn columns_to_image(columns: &Vec<Vec<Rgb8>>) -> (image: ImageSamples)
    requires
        columns.len() > 0,
        columns.len() <= u32::MAX,
        columns@[0].len() <= u32::MAX,
        forall|i: int| 0 <= i < columns.len() ==> #[trigger] columns@[i].len() <= columns@[0].len(),
        3 * columns@[0].len() * columns.len() <= usize::MAX,
    ensures
        image.width == columns.len(),
        image.height == columns@[0].len(),
        image.samples@ == raw_samples(upright_pixels(columns@), image.width, image.height),
{
    let frame = upright_frame(columns);
    let width = columns.len() as u32;
    let height = columns[0].len() as u32;
    let samples = into_raw(frame);
    ImageSamples { width, height, samples }
}

} // verus!
