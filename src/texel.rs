use vstd::prelude::*;

verus! {

/// Position of the red byte of pixel `(x, y)` in a row-major RGB8 buffer whose rows are
/// `width` pixels long; green and blue follow it.
pub open spec fn rgb_offset(width: int, x: int, y: int) -> int {
    3 * (y * width + x)
}

/// What a lookup of pixel `(x, y)` reads from `pixels`: the three bytes at its offset, or
/// nothing when they do not all lie inside the buffer.
pub open spec fn rgb_in(pixels: Seq<u8>, width: int, x: int, y: int) -> Option<(u8, u8, u8)> {
    let i = rgb_offset(width, x, y);
    if i + 2 < pixels.len() {
        Some((pixels[i], pixels[i + 1], pixels[i + 2]))
    } else {
        None
    }
}

/// Reads pixel `(x, y)` of a row-major RGB8 buffer with rows of `width` pixels.
///
/// Coordinates are not checked against the width: an `x` past the end of a row reads
/// into the next row, exactly as the offset formula says. Only a read past the end of the
/// buffer is refused, with `None`.
pub fn rgb_at(pixels: &Vec<u8>, width: usize, x: usize, y: usize) -> (r: Option<(u8, u8, u8)>)
    ensures
        r == rgb_in(pixels@, width as int, x as int, y as int),
{
    let n = pixels.len();
    let row = match y.checked_mul(width) {
        Some(v) => v,
        None => {
            assert(y * width <= rgb_offset(width as int, x as int, y as int)) by (nonlinear_arith);
            return None;
        },
    };
    let cell = match row.checked_add(x) {
        Some(v) => v,
        None => return None,
    };
    let i = match cell.checked_mul(3) {
        Some(v) => v,
        None => return None,
    };
    if i < n && n - i > 2 {
        Some((pixels[i], pixels[i + 1], pixels[i + 2]))
    } else {
        None
    }
}

} // verus!
