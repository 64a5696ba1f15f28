//! The raster presentation of a module grid: a square image of RGB pixels.

use vstd::prelude::*;
use crate::error::Error;
use crate::grid::{dark_at, ModuleGrid};

verus! {

/// An image of 8-bit RGB pixels, held by the `image` crate as an
/// `ImageBuffer<Rgb<u8>, Vec<u8>>`.
#[verifier::external_body]
pub struct RasterImage {
    buffer: image::RgbImage,
}

/// The pixels of an image, row by row from the top, each row from the left,
/// each pixel as its red, green and blue values.
pub uninterp spec fn image_rows(img: RasterImage) -> Seq<Seq<Seq<u8>>>;

/// Pixel rows that form an image `width` wide and `height` high.
pub open spec fn has_dimensions(rows: Seq<Seq<Seq<u8>>>, width: int, height: int) -> bool {
    &&& rows.len() == height
    &&& forall|y: int| 0 <= y < height ==> (#[trigger] rows[y]).len() == width
}

/// `image::ImageBuffer::new`. Makes an image of the given dimensions with
/// every channel of every pixel zero. The call panics where the buffer's
/// length, three bytes a pixel, is more than a vector can hold.
#[verifier::external_body]
fn blank_image(width: u32, height: u32) -> (img: RasterImage)
    requires
        3 * width * height <= isize::MAX,
    ensures
        has_dimensions(image_rows(img), width as int, height as int),
        forall|x: int, y: int|
            0 <= x < width && 0 <= y < height ==> #[trigger] image_rows(img)[y][x] == seq![
                0u8,
                0u8,
                0u8,
            ],
{
    RasterImage { buffer: image::ImageBuffer::new(width, height) }
}

/// `image::ImageBuffer::width`. Every row of the image is this long.
#[verifier::external_body]
fn image_width(img: &RasterImage) -> (width: u32)
    ensures
        forall|y: int|
            0 <= y < image_rows(*img).len() ==> (#[trigger] image_rows(*img)[y]).len() == width,
{
    img.buffer.width()
}

/// `image::ImageBuffer::height`: the number of rows.
#[verifier::external_body]
fn image_height(img: &RasterImage) -> (height: u32)
    ensures
        height == image_rows(*img).len(),
{
    img.buffer.height()
}

/// `image::ImageBuffer::get_pixel`, which panics outside the image.
#[verifier::external_body]
fn get_pixel(img: &RasterImage, x: u32, y: u32) -> (rgb: [u8; 3])
    requires
        y < image_rows(*img).len(),
        x < image_rows(*img)[y as int].len(),
    ensures
        rgb@ == image_rows(*img)[y as int][x as int],
{
    img.buffer.get_pixel(x, y).0
}

/// `image::ImageBuffer::put_pixel`, which panics outside the image. Replaces
/// the one pixel at `(x, y)` and leaves every other as it was.
#[verifier::external_body]
fn put_pixel(img: &mut RasterImage, x: u32, y: u32, rgb: [u8; 3])
    requires
        y < image_rows(*old(img)).len(),
        x < image_rows(*old(img))[y as int].len(),
    ensures
        image_rows(*final(img)) == image_rows(*old(img)).update(
            y as int,
            image_rows(*old(img))[y as int].update(x as int, rgb@),
        ),
{
    img.buffer.put_pixel(x, y, image::Rgb(rgb));
}

impl RasterImage {
    /// The width of the image in pixels, for an image that has rows.
    pub fn width(&self) -> (width: u32)
        ensures
            forall|y: int|
                0 <= y < image_rows(*self).len() ==> (#[trigger] image_rows(*self)[y]).len()
                    == width,
    {
        image_width(self)
    }

    /// The height of the image in pixels.
    pub fn height(&self) -> (height: u32)
        ensures
            height == image_rows(*self).len(),
    {
        image_height(self)
    }

    /// The pixel at column `x` of row `y`, or `None` outside the image.
    pub fn pixel(&self, x: u32, y: u32) -> (r: Option<[u8; 3]>)
        ensures
            match r {
                Some(rgb) => y < image_rows(*self).len() && x < image_rows(*self)[y as int].len()
                    && rgb@ == image_rows(*self)[y as int][x as int],
                None => !(y < image_rows(*self).len() && x < image_rows(*self)[y as int].len()),
            },
    {
        if y < image_height(self) && x < image_width(self) {
            Some(get_pixel(self, x, y))
        } else {
            None
        }
    }
}

/// The side, in pixels, of the image of a grid of `size` modules a side with
/// `border` modules of padding, at `scale` pixels a module.
pub open spec fn image_side(size: int, border: int, scale: int) -> int {
    size * scale + 2 * (scale * border)
}

/// Whether a square image of this side can be made: the side fits the
/// image's 32-bit dimensions, and its buffer of three bytes a pixel is no
/// longer than a vector can be.
pub open spec fn fits_image_limits(side: int) -> bool {
    side <= u32::MAX && 3 * side * side <= isize::MAX
}

/// Whether the pixel at `(px, py)` shows a dark module. Pixels up to and
/// including the scaled border's own index, on either axis, are background;
/// every other pixel shows the module that its offset behind the scaled
/// border falls in.
pub open spec fn pixel_is_dark(
    rows: Seq<Seq<bool>>,
    border: int,
    scale: int,
    px: int,
    py: int,
) -> bool {
    let scaled_border = scale * border;
    px > scaled_border && py > scaled_border && dark_at(
        rows,
        (px - scaled_border) / scale,
        (py - scaled_border) / scale,
    )
}

/// The colour of the pixel at `(px, py)`.
pub open spec fn pixel_color(
    rows: Seq<Seq<bool>>,
    border: int,
    scale: int,
    fg: Seq<u8>,
    bg: Seq<u8>,
    px: int,
    py: int,
) -> Seq<u8> {
    if pixel_is_dark(rows, border, scale, px, py) {
        fg
    } else {
        bg
    }
}

/// Pixel rows that are the raster presentation of a grid.
pub open spec fn is_raster_of(
    pixels: Seq<Seq<Seq<u8>>>,
    rows: Seq<Seq<bool>>,
    border: int,
    scale: int,
    fg: Seq<u8>,
    bg: Seq<u8>,
) -> bool {
    let side = image_side(rows.len() as int, border, scale);
    &&& has_dimensions(pixels, side, side)
    &&& forall|px: int, py: int|
        0 <= px < side && 0 <= py < side ==> #[trigger] pixels[py][px] == pixel_color(
            rows,
            border,
            scale,
            fg,
            bg,
            px,
            py,
        )
}

/// The side of the image is the side of the bordered grid, in modules, times
/// the scale: a whole number of pixels for every module, with nothing lost
/// to rounding.
pub proof fn lemma_image_side_is_scaled(size: int, border: int, scale: int)
    ensures
        image_side(size, border, scale) == scale * (size + 2 * border),
        scale > 0 ==> image_side(size, border, scale) / scale == size + 2 * border
            && image_side(size, border, scale) % scale == 0,
{
    assert(size * scale + 2 * (scale * border) == scale * (size + 2 * border))
        by (nonlinear_arith);
    if scale > 0 {
        vstd::arithmetic::div_mod::lemma_div_multiples_vanish(size + 2 * border, scale);
        vstd::arithmetic::div_mod::lemma_mod_multiples_basic(size + 2 * border, scale);
        assert(scale * (size + 2 * border) == (size + 2 * border) * scale) by (nonlinear_arith);
    }
}

/// Every pixel in the border is background: up to and including the scaled
/// border's own index at the top and the left, and from the grid's far edge
/// on at the bottom and the right.
pub proof fn lemma_border_pixels_are_background(
    rows: Seq<Seq<bool>>,
    border: int,
    scale: int,
    fg: Seq<u8>,
    bg: Seq<u8>,
    px: int,
    py: int,
)
    requires
        scale >= 1,
        border >= 0,
        px <= scale * border || py <= scale * border || px >= scale * border + scale * rows.len()
            || py >= scale * border + scale * rows.len(),
    ensures
        pixel_color(rows, border, scale, fg, bg, px, py) == bg,
{
    let sb = scale * border;
    let n = rows.len() as int;
    if px > sb && py > sb {
        if px >= sb + scale * n {
            assert((px - sb) / scale >= n) by (nonlinear_arith)
                requires
                    px - sb >= scale * n,
                    scale >= 1,
            ;
        } else {
            assert((py - sb) / scale >= n) by (nonlinear_arith)
                requires
                    py - sb >= scale * n,
                    scale >= 1,
            ;
        }
    }
}

/// A pixel strictly inside the scaled border shows the module that it lies
/// in, offset by the border.
pub proof fn lemma_inner_pixel_shows_module(
    rows: Seq<Seq<bool>>,
    border: int,
    scale: int,
    mx: int,
    my: int,
    dx: int,
    dy: int,
)
    requires
        scale >= 1,
        border >= 0,
        0 <= dx < scale,
        0 <= dy < scale,
        scale * mx + dx > 0,
        scale * my + dy > 0,
    ensures
        pixel_is_dark(
            rows,
            border,
            scale,
            scale * border + scale * mx + dx,
            scale * border + scale * my + dy,
        ) == dark_at(rows, mx, my),
{
    assert((scale * mx + dx) / scale == mx) by (nonlinear_arith)
        requires
            scale >= 1,
            0 <= dx < scale,
    ;
    assert((scale * my + dy) / scale == my) by (nonlinear_arith)
        requires
            scale >= 1,
            0 <= dy < scale,
    ;
}

/// The side of the image, if an image of that side can be made.
pub fn checked_image_side(size: usize, border: u32, scale: u32) -> (r: Option<u32>)
    ensures
        match r {
            Some(side) => side == image_side(size as int, border as int, scale as int)
                && fits_image_limits(side as int),
            None => !fits_image_limits(image_side(size as int, border as int, scale as int)),
        },
{
    assert(size * scale <= 0xffff_ffff_ffff_ffff * 0xffff_ffff) by (nonlinear_arith)
        requires
            size <= 0xffff_ffff_ffff_ffff,
            scale <= 0xffff_ffff,
    ;
    assert(scale * border <= 0xffff_ffff * 0xffff_ffff) by (nonlinear_arith)
        requires
            border <= 0xffff_ffff,
            scale <= 0xffff_ffff,
    ;
    let scaled_border: u128 = (scale as u128) * (border as u128);
    let side: u128 = (size as u128) * (scale as u128) + 2 * scaled_border;
    if side > u32::MAX as u128 {
        return None;
    }
    assert(side * side <= 0xffff_ffff * 0xffff_ffff) by (nonlinear_arith)
        requires
            side <= 0xffff_ffff,
    ;
    assert(3 * side * side == 3 * (side * side)) by (nonlinear_arith);
    if 3 * (side * side) > isize::MAX as u128 {
        return None;
    }
    Some(side as u32)
}

/// Draws the grid as a square image: `scale` pixels a module, `border`
/// modules of background on every side, dark modules in `fg` and everything
/// else in `bg`. A scale of 0 gives an image without pixels. Fails where the
/// image would be larger than an image can be.
pub fn render_raster(grid: &ModuleGrid, border: u32, scale: u32, fg: [u8; 3], bg: [u8; 3]) -> (r:
    Result<RasterImage, Error>)
    requires
        grid.wf(),
    ensures
        match r {
            Ok(img) => fits_image_limits(
                image_side(grid.spec_size(), border as int, scale as int),
            ) && is_raster_of(image_rows(img), grid@, border as int, scale as int, fg@, bg@),
            Err(e) => !fits_image_limits(
                image_side(grid.spec_size(), border as int, scale as int),
            ) && e == Error::RasterSizeOverflow,
        },
{
    let side = match checked_image_side(grid.size(), border, scale) {
        Some(side) => side,
        None => {
            return Err(Error::RasterSizeOverflow);
        },
    };
    let mut img = blank_image(side, side);
    let mut y: u32 = 0;
    while y < side
        invariant
            grid.wf(),
            y <= side,
            side == image_side(grid.spec_size(), border as int, scale as int),
            has_dimensions(image_rows(img), side as int, side as int),
            forall|px: int, py: int|
                0 <= px < side && 0 <= py < y ==> #[trigger] image_rows(img)[py][px] == pixel_color(
                    grid@,
                    border as int,
                    scale as int,
                    fg@,
                    bg@,
                    px,
                    py,
                ),
        decreases side - y,
    {
        let mut x: u32 = 0;
        while x < side
            invariant
                grid.wf(),
                y < side,
                x <= side,
                side == image_side(grid.spec_size(), border as int, scale as int),
                has_dimensions(image_rows(img), side as int, side as int),
                forall|px: int, py: int|
                    0 <= px < side && 0 <= py < y ==> #[trigger] image_rows(img)[py][px]
                        == pixel_color(grid@, border as int, scale as int, fg@, bg@, px, py),
                forall|px: int|
                    0 <= px < x ==> #[trigger] image_rows(img)[y as int][px] == pixel_color(
                        grid@,
                        border as int,
                        scale as int,
                        fg@,
                        bg@,
                        px,
                        y as int,
                    ),
            decreases side - x,
        {
            let dark = shows_dark_module(grid, border, scale, side, x, y);
            let ghost before = image_rows(img);
            put_pixel(
                &mut img,
                x,
                y,
                if dark {
                    fg
                } else {
                    bg
                },
            );
            assert(forall|py: int| 0 <= py < side && py != y ==> image_rows(img)[py] == before[py]);
            assert(forall|px: int|
                0 <= px < side && px != x ==> image_rows(img)[y as int][px] == before[y as int][px]);
            x += 1;
        }
        y += 1;
    }
    Ok(img)
}

/// Whether the pixel at `(px, py)` of the image shows a dark module.
fn shows_dark_module(grid: &ModuleGrid, border: u32, scale: u32, side: u32, px: u32, py: u32) -> (dark:
    bool)
    requires
        grid.wf(),
        side == image_side(grid.spec_size(), border as int, scale as int),
        px < side,
        py < side,
    ensures
        dark == pixel_is_dark(grid@, border as int, scale as int, px as int, py as int),
{
    assert(scale > 0 && 0 <= scale * border <= side) by (nonlinear_arith)
        requires
            side == grid.spec_size() * scale + 2 * (scale * border),
            grid.spec_size() >= 1,
            side > 0,
            scale >= 0,
            border >= 0,
    ;
    let scaled_border: u64 = (scale as u64) * (border as u64);
    if px as u64 <= scaled_border || py as u64 <= scaled_border {
        return false;
    }
    let mx: u64 = (px as u64 - scaled_border) / (scale as u64);
    let my: u64 = (py as u64 - scaled_border) / (scale as u64);
    grid.is_dark(mx as i64, my as i64)
}

} // verus!
