use vstd::prelude::*;

use crate::texel::{rgb_in, rgb_offset};

verus! {

/// Whether the three bytes of pixel `x` in `band` are an outcome that `shade` may give for
/// pixel `(x, y)`.
pub open spec fn shaded_at<F: Fn(usize, usize) -> (u8, u8, u8)>(
    band: Seq<u8>,
    shade: F,
    x: usize,
    y: usize,
) -> bool {
    shade.ensures((x, y), (band[3 * x], band[3 * x + 1], band[3 * x + 2]))
}

/// Whether `band` is a fully rendered scanline `y` of an image `width` pixels wide: three
/// bytes per pixel, left to right, each triple an outcome of `shade` for that pixel.
pub open spec fn is_rendered_line<F: Fn(usize, usize) -> (u8, u8, u8)>(
    band: Seq<u8>,
    width: usize,
    y: usize,
    shade: F,
) -> bool {
    &&& band.len() == 3 * width
    &&& forall|x: usize| x < width ==> #[trigger] shaded_at(band, shade, x, y)
}

/// Renders scanline `y` of an image `width` pixels wide: asks `shade` for the colour of each
/// pixel in turn and packs the answers as RGB8, left to right.
pub fn render_line<F: Fn(usize, usize) -> (u8, u8, u8)>(width: usize, y: usize, shade: &F) -> (r:
    Vec<u8>)
    requires
        3 * width <= usize::MAX,
        forall|x: usize| x < width ==> #[trigger] shade.requires((x, y)),
    ensures
        is_rendered_line(r@, width, y, *shade),
{
    let mut band: Vec<u8> = Vec::with_capacity(3 * width);
    let mut x: usize = 0;
    while x < width
        invariant
            x <= width,
            3 * width <= usize::MAX,
            forall|i: usize| i < width ==> #[trigger] shade.requires((i, y)),
            band@.len() == 3 * x,
            forall|i: usize| i < x ==> #[trigger] shaded_at(band@, *shade, i, y),
        decreases width - x,
    {
        let (red, green, blue) = shade(x, y);
        let ghost before = band@;
        band.push(red);
        band.push(green);
        band.push(blue);
        assert forall|i: usize| i < x + 1 implies #[trigger] shaded_at(band@, *shade, i, y) by {
            if i < x {
                assert(shaded_at(before, *shade, i, y));
                assert(band@[3 * i] == before[3 * i]);
                assert(band@[3 * i + 1] == before[3 * i + 1]);
                assert(band@[3 * i + 2] == before[3 * i + 2]);
            }
        }
        x += 1;
    }
    band
}

/// Whether `image` holds the scanlines `bands`, top row first, one after the other.
pub open spec fn is_joined(image: Seq<u8>, bands: Seq<Vec<u8>>, width: usize, height: usize) -> bool {
    &&& image.len() == 3 * width * height
    &&& forall|y: int, i: int|
        0 <= y < height && 0 <= i < 3 * width ==> image[3 * width * y + i] == #[trigger] bands[y]@[i]
}

/// Whether `image` is a fully rendered `width` by `height` RGB8 picture: row-major, top row
/// first, three bytes per pixel, each pixel an outcome of `shade` for its coordinates.
pub open spec fn is_rendered_image<F: Fn(usize, usize) -> (u8, u8, u8)>(
    image: Seq<u8>,
    width: usize,
    height: usize,
    shade: F,
) -> bool {
    &&& image.len() == 3 * width * height
    &&& forall|x: usize, y: usize|
        x < width && y < height ==> match #[trigger] rgb_in(image, width as int, x as int, y as int) {
            Some(p) => shade.ensures((x, y), p),
            None => false,
        }
}

/// Joins the scanlines of a `width` by `height` picture into one buffer, top row first.
pub fn join_bands(bands: &Vec<Vec<u8>>, width: usize, height: usize) -> (r: Vec<u8>)
    requires
        3 * width <= usize::MAX,
        3 * width * height <= usize::MAX,
        bands@.len() == height,
        forall|y: int| 0 <= y < height ==> (#[trigger] bands@[y])@.len() == 3 * width,
    ensures
        is_joined(r@, bands@, width, height),
{
    let row_len = 3 * width;
    let mut image: Vec<u8> = Vec::new();
    let mut y: usize = 0;
    while y < height
        invariant
            y <= height,
            bands@.len() == height,
            row_len == 3 * width,
            3 * width * height <= usize::MAX,
            forall|k: int| 0 <= k < height ==> (#[trigger] bands@[k])@.len() == 3 * width,
            image@.len() == 3 * width * y,
            forall|k: int, i: int|
                0 <= k < y && 0 <= i < 3 * width ==> image@[3 * width * k + i] == #[trigger] bands@[k]@[i],
        decreases height - y,
    {
        let band = &bands[y];
        let ghost start = image@.len();
        let ghost prev = image@;
        assert(3 * width * y + 3 * width <= 3 * width * height) by (nonlinear_arith)
            requires
                y < height,
        ;
        let mut i: usize = 0;
        while i < row_len
            invariant
                i <= row_len,
                row_len == 3 * width,
                band@.len() == row_len,
                band == bands@[y as int],
                start == 3 * width * y,
                3 * width * y + 3 * width <= usize::MAX,
                image@.len() == start + i,
                prev.len() == start,
                forall|j: int| 0 <= j < start ==> image@[j] == prev[j],
                forall|j: int| 0 <= j < i ==> image@[start + j] == band@[j],
            decreases row_len - i,
        {
            image.push(band[i]);
            i += 1;
        }
        assert forall|k: int, j: int|
            0 <= k < y + 1 && 0 <= j < 3 * width implies image@[3 * width * k + j] == #[trigger] bands@[k]@[j] by {
            if k == y {
                assert(image@[start + j] == band@[j]);
            } else {
                assert(3 * width * k + j < 3 * width * y) by (nonlinear_arith)
                    requires
                        0 <= k < y,
                        0 <= j < 3 * width,
                ;
                assert(image@[3 * width * k + j] == prev[3 * width * k + j]);
            }
        }
        assert(3 * width * (y + 1) == 3 * width * y + 3 * width) by (nonlinear_arith);
        y += 1;
    }
    image
}

/// Scanlines rendered one by one and joined in order make the whole picture: every pixel
/// `(x, y)` sits at `rgb_offset(width, x, y)` and holds what `shade` gave for it, and the
/// buffer holds `3 * width * height` bytes.
pub proof fn lemma_joined_lines_render_image<F: Fn(usize, usize) -> (u8, u8, u8)>(
    image: Seq<u8>,
    bands: Seq<Vec<u8>>,
    width: usize,
    height: usize,
    shade: F,
)
    requires
        bands.len() == height,
        forall|y: usize| y < height ==> is_rendered_line(#[trigger] bands[y as int]@, width, y, shade),
        is_joined(image, bands, width, height),
    ensures
        is_rendered_image(image, width, height, shade),
{
    assert forall|x: usize, y: usize| x < width && y < height implies match #[trigger] rgb_in(
        image,
        width as int,
        x as int,
        y as int,
    ) {
        Some(p) => shade.ensures((x, y), p),
        None => false,
    } by {
        let band = bands[y as int]@;
        assert(is_rendered_line(band, width, y, shade));
        assert(shaded_at(band, shade, x, y));
        let o = rgb_offset(width as int, x as int, y as int);
        assert(3 * (y * width + x) == 3 * width * y + 3 * x) by (nonlinear_arith);
        assert(3 * width * y + 3 * width <= 3 * width * height) by (nonlinear_arith)
            requires
                y < height,
        ;
        assert(image[o] == band[3 * x]);
        assert(image[o + 1] == band[3 * x + 1]);
        assert(image[o + 2] == band[3 * x + 2]);
    }
}

} // verus!
