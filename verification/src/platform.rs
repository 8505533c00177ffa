use vstd::prelude::*;

verus! {

/// The Windows implementation of the platform services.
pub struct WindowsPlatform;

impl WindowsPlatform {
    pub fn new() -> (r: Self) {
        Self
    }
}

/// The macOS implementation of the platform services.
pub struct MacosPlatform;

/// The rectangle the cursor is held in during a screenshot, as left, top, right, bottom:
/// the virtual screen at `vx`, `vy` of size `vw` by `vh`, with its bottom two pixels above
/// the bottom of the monitor under the cursor when that is known (positive), else five
/// pixels above the bottom of the virtual screen.
pub fn cursor_clip_rect(vx: i32, vy: i32, vw: i32, vh: i32, monitor_bottom: i32) -> (r: (
    i32,
    i32,
    i32,
    i32,
))
    requires
        i32::MIN <= vx + vw <= i32::MAX,
        monitor_bottom <= 0 ==> i32::MIN <= vy + vh <= i32::MAX && i32::MIN <= vy + vh - 5,
    ensures
        r == (vx, vy, (vx + vw) as i32, if monitor_bottom > 0 {
            (monitor_bottom - 2) as i32
        } else {
            (vy + vh - 5) as i32
        }),
{
    let bottom_limit = if monitor_bottom > 0 {
        monitor_bottom - 2
    } else {
        vy + vh - 5
    };
    (vx, vy, vx + vw, bottom_limit)
}

/// The sizes of a device bitmap in bytes and pixels.
pub struct BitmapLayout {
    pub width: usize,
    pub height: usize,
    pub stride: usize,
    pub pixel_count: usize,
    pub bits_len: usize,
    pub row_bytes: usize,
}

/// The layout of a bitmap of `w` by `h` pixels whose rows are `stride` bytes apart, or the
/// reason it has none: a negative size comes first, then a product that does not fit.
pub fn bitmap_layout(w: i32, h: i32, stride: i32) -> (r: Result<BitmapLayout, String>)
    ensures
        w < 0 ==> (r matches Err(e) && e@ == "Bitmap width must be non-negative"@),
        w >= 0 && h < 0 ==> (r matches Err(e) && e@ == "Bitmap height must be non-negative"@),
        w >= 0 && h >= 0 && stride < 0 ==> (r matches Err(e) && e@ == "Bitmap stride must be non-negative"@),
        w >= 0 && h >= 0 && stride >= 0 && w * h > usize::MAX ==> (r matches Err(e) && e@ == "Bitmap dimensions overflowed"@),
        w >= 0 && h >= 0 && stride >= 0 && w * h <= usize::MAX && stride * h > usize::MAX ==> (r matches Err(e) && e@ == "Bitmap buffer length overflowed"@),
        w >= 0 && h >= 0 && stride >= 0 && w * h <= usize::MAX && stride * h <= usize::MAX && w * 4
            > usize::MAX ==> (r matches Err(e) && e@ == "Bitmap row width overflowed"@),
        r matches Ok(l) ==> {
            &&& w >= 0 && h >= 0 && stride >= 0
            &&& l.width == w && l.height == h && l.stride == stride
            &&& l.pixel_count == w * h && l.bits_len == stride * h && l.row_bytes == w * 4
        },
        (w >= 0 && h >= 0 && stride >= 0 && w * h <= usize::MAX && stride * h <= usize::MAX && w * 4
            <= usize::MAX) ==> r is Ok,
{
    if w < 0 {
        return Err(String::from_str("Bitmap width must be non-negative"));
    }
    if h < 0 {
        return Err(String::from_str("Bitmap height must be non-negative"));
    }
    if stride < 0 {
        return Err(String::from_str("Bitmap stride must be non-negative"));
    }
    let width = w as usize;
    let height = h as usize;
    let stride = stride as usize;
    let pixel_count = match width.checked_mul(height) {
        Some(n) => n,
        None => {
            return Err(String::from_str("Bitmap dimensions overflowed"));
        },
    };
    let bits_len = match stride.checked_mul(height) {
        Some(n) => n,
        None => {
            return Err(String::from_str("Bitmap buffer length overflowed"));
        },
    };
    let row_bytes = match width.checked_mul(4) {
        Some(n) => n,
        None => {
            return Err(String::from_str("Bitmap row width overflowed"));
        },
    };
    Ok(BitmapLayout { width, height, stride, pixel_count, bits_len, row_bytes })
}

/// The color of the 4-byte blue-green-red-alpha pixel at byte `o`, as red, green, blue,
/// alpha.
pub open spec fn bgra_at(bits: Seq<u8>, o: int) -> (u8, u8, u8, u8) {
    (bits[o + 2], bits[o + 1], bits[o], bits[o + 3])
}

/// `count` pixels read from byte `start` on.
pub open spec fn run_pixels(bits: Seq<u8>, start: int, count: nat) -> Seq<(u8, u8, u8, u8)> {
    Seq::new(count, |j: int| bgra_at(bits, start + 4 * j))
}

/// The first `per_row` pixels of each of the first `rows` rows, rows `stride` bytes apart.
pub open spec fn rows_pixels(bits: Seq<u8>, stride: nat, rows: nat, per_row: nat) -> Seq<
    (u8, u8, u8, u8),
>
    decreases rows,
{
    if rows == 0 {
        Seq::empty()
    } else {
        rows_pixels(bits, stride, (rows - 1) as nat, per_row) + run_pixels(
            bits,
            (rows - 1) * stride,
            per_row,
        )
    }
}

/// The pixels of a device bitmap: read straight through when rows have no padding,
/// otherwise row by row, as many whole pixels as fit in both the row and the image width.
pub open spec fn bitmap_pixels_spec(bits: Seq<u8>, width: nat, height: nat, stride: nat) -> Seq<
    (u8, u8, u8, u8),
> {
    if stride == width * 4 {
        run_pixels(bits, 0, bits.len() / 4)
    } else {
        let row_end = if width * 4 < stride { width * 4 } else { stride };
        rows_pixels(bits, stride, height, row_end / 4)
    }
}

proof fn lemma_row_offset(r: int, stride: int, j: int, per_row: int, height: int)
    requires
        0 <= r < height,
        0 <= j < per_row,
        4 * per_row <= stride,
    ensures
        r * stride + 4 * j + 3 < height * stride,
        0 <= r * stride,
{
    assert(r * stride + stride <= height * stride) by (nonlinear_arith)
        requires
            r < height,
            0 <= stride,
    ;
    assert(0 <= r * stride) by (nonlinear_arith)
        requires
            0 <= r,
            0 <= stride,
    ;
}

/// Converts the blue-green-red-alpha bytes of a device bitmap of `width` by `height`
/// pixels, rows `stride` bytes apart, to red-green-blue-alpha pixels.
pub fn bgra_pixels(bits: &[u8], width: usize, height: usize, stride: usize) -> (r: Vec<
    (u8, u8, u8, u8),
>)
    requires
        bits@.len() == stride * height,
        width * 4 <= usize::MAX,
        stride == width * 4 || stride > 0,
    ensures
        r@ == bitmap_pixels_spec(bits@, width as nat, height as nat, stride as nat),
{
    let row_bytes = width * 4;
    let blen = bits.len();
    let mut pixels: Vec<(u8, u8, u8, u8)> = Vec::new();
    if stride == row_bytes {
        let n = bits.len() / 4;
        let mut i: usize = 0;
        while i < n
            invariant
                n == bits@.len() / 4,
                blen == bits@.len(),
                i <= n,
                pixels@ == run_pixels(bits@, 0, i as nat),
            decreases n - i,
        {
            assert(4 * i + 3 < blen);
            let o = 4 * i;
            pixels.push((bits[o + 2], bits[o + 1], bits[o], bits[o + 3]));
            assert(pixels@ =~= run_pixels(bits@, 0, (i + 1) as nat));
            i = i + 1;
        }
        pixels
    } else {
        let row_end = if row_bytes < stride {
            row_bytes
        } else {
            stride
        };
        let per_row = row_end / 4;
        let mut y: usize = 0;
        while y < height
            invariant
                bits@.len() == stride * height,
                blen == bits@.len(),
                stride > 0,
                row_end == if width * 4 < stride { width * 4 } else { stride as int },
                per_row == row_end / 4,
                y <= height,
                pixels@ == rows_pixels(bits@, stride as nat, y as nat, per_row as nat),
            decreases height - y,
        {
            let ghost before = pixels@;
            let mut j: usize = 0;
            while j < per_row
                invariant
                    bits@.len() == stride * height,
                    blen == bits@.len(),
                    per_row * 4 <= stride,
                    y < height,
                    j <= per_row,
                    pixels@ == before + run_pixels(bits@, y * stride, j as nat),
                decreases per_row - j,
            {
                proof {
                    lemma_row_offset(y as int, stride as int, j as int, per_row as int, height as int);
                }
                let o = y * stride + 4 * j;
                pixels.push((bits[o + 2], bits[o + 1], bits[o], bits[o + 3]));
                assert(pixels@ =~= before + run_pixels(bits@, y * stride, (j + 1) as nat));
                j = j + 1;
            }
            assert(rows_pixels(bits@, stride as nat, (y + 1) as nat, per_row as nat) == before
                + run_pixels(bits@, y * stride, per_row as nat));
            y = y + 1;
        }
        pixels
    }
}

/// A pixel of a bitmap read from byte `o` on, black where the bytes run out.
pub open spec fn padded_at(bits: Seq<u8>, o: int) -> (u8, u8, u8, u8) {
    if o + 3 < bits.len() {
        bgra_at(bits, o)
    } else {
        (0u8, 0u8, 0u8, 255u8)
    }
}

/// `width` pixels of each of the first `rows` rows, rows `stride` bytes apart, black where
/// the bytes run out.
pub open spec fn padded_rows(bits: Seq<u8>, stride: nat, width: nat, rows: nat) -> Seq<
    (u8, u8, u8, u8),
>
    decreases rows,
{
    if rows == 0 {
        Seq::empty()
    } else {
        padded_rows(bits, stride, width, (rows - 1) as nat) + Seq::new(
            width,
            |x: int| padded_at(bits, (rows - 1) * stride + 4 * x),
        )
    }
}

/// Converts a device bitmap pixel by pixel, `width` pixels in each of `height` rows
/// `stride` bytes apart, to red-green-blue-alpha; pixels beyond the bytes are black.
pub fn bgra_pixels_padded(bits: &[u8], width: usize, height: usize, stride: usize) -> (r: Vec<
    (u8, u8, u8, u8),
>)
    requires
        height * stride + 4 * width + 3 <= usize::MAX,
    ensures
        r@ == padded_rows(bits@, stride as nat, width as nat, height as nat),
{
    let mut pixels: Vec<(u8, u8, u8, u8)> = Vec::new();
    let mut y: usize = 0;
    while y < height
        invariant
            height * stride + 4 * width + 3 <= usize::MAX,
            y <= height,
            pixels@ == padded_rows(bits@, stride as nat, width as nat, y as nat),
        decreases height - y,
    {
        let ghost before = pixels@;
        let mut x: usize = 0;
        proof {
            assert(y * stride <= height * stride) by (nonlinear_arith)
                requires
                    y <= height,
            ;
        }
        while x < width
            invariant
                height * stride + 4 * width + 3 <= usize::MAX,
                y < height,
                y * stride <= height * stride,
                x <= width,
                pixels@ == before + Seq::new(x as nat, |k: int| padded_at(bits@, y * stride + 4 * k)),
            decreases width - x,
        {
            let offset = y * stride + x * 4;
            if offset + 3 < bits.len() {
                pixels.push((bits[offset + 2], bits[offset + 1], bits[offset], bits[offset + 3]));
            } else {
                pixels.push((0, 0, 0, 255));
            }
            assert(pixels@ =~= before + Seq::new(
                (x + 1) as nat,
                |k: int| padded_at(bits@, y * stride + 4 * k),
            ));
            x = x + 1;
        }
        y = y + 1;
    }
    pixels
}

/// The entry at row `y` and column `x` of a sequence laid out row by row, `row_len` entries
/// to a row.
pub open spec fn cell<T>(s: Seq<T>, row_len: int, y: int, x: int) -> T {
    s[y * row_len + x]
}

/// Where row `y`, column `x` of a row-major layout falls relative to the rows before row
/// `rows - 1` and within that last row.
proof fn lemma_row_major_split(y: int, x: int, rows: int, row_len: int)
    requires
        0 <= y < rows,
        0 <= x < row_len,
    ensures
        0 <= y * row_len + x < rows * row_len,
        y < rows - 1 ==> y * row_len + x < (rows - 1) * row_len,
        y == rows - 1 ==> y * row_len + x - (rows - 1) * row_len == x,
        (rows - 1) * row_len + row_len == rows * row_len,
{
    assert(0 <= y * row_len) by (nonlinear_arith)
        requires
            0 <= y,
            0 <= row_len,
    ;
    assert(y * row_len + row_len <= rows * row_len) by (nonlinear_arith)
        requires
            y < rows,
            0 <= row_len,
    ;
    assert(y < rows - 1 ==> y * row_len + row_len <= (rows - 1) * row_len) by (nonlinear_arith)
        requires
            0 <= row_len,
    ;
    assert((rows - 1) * row_len + row_len == rows * row_len) by (nonlinear_arith);
}

/// The pixels read row by row are laid out row-major, rows in memory order: the pixel at row
/// `y`, column `x` is the blue-green-red-alpha pixel stored at byte `y * stride + 4 * x`,
/// given as red, green, blue, alpha.
proof fn lemma_rows_pixels_layout(bits: Seq<u8>, stride: nat, rows: nat, per_row: nat)
    ensures
        rows_pixels(bits, stride, rows, per_row).len() == rows * per_row,
        forall|y: int, x: int|
            0 <= y < rows && 0 <= x < per_row ==> #[trigger] cell(
                rows_pixels(bits, stride, rows, per_row),
                per_row as int,
                y,
                x,
            ) == (
                bits[y * stride + 4 * x + 2],
                bits[y * stride + 4 * x + 1],
                bits[y * stride + 4 * x],
                bits[y * stride + 4 * x + 3],
            ),
    decreases rows,
{
    if rows == 0 {
        assert(rows * per_row == 0) by (nonlinear_arith)
            requires
                rows == 0,
        ;
    }
    if rows > 0 {
        lemma_rows_pixels_layout(bits, stride, (rows - 1) as nat, per_row);
        let all = rows_pixels(bits, stride, rows, per_row);
        let prev = rows_pixels(bits, stride, (rows - 1) as nat, per_row);
        assert((rows - 1) * per_row + per_row == rows * per_row) by (nonlinear_arith);
        assert(all == prev + run_pixels(bits, (rows - 1) * stride, per_row));
        assert(all.len() == prev.len() + per_row);
        assert forall|y: int, x: int| 0 <= y < rows && 0 <= x < per_row implies #[trigger] cell(
            all,
            per_row as int,
            y,
            x,
        ) == (
            bits[y * stride + 4 * x + 2],
            bits[y * stride + 4 * x + 1],
            bits[y * stride + 4 * x],
            bits[y * stride + 4 * x + 3],
        ) by {
            lemma_row_major_split(y, x, rows as int, per_row as int);
            if y < rows - 1 {
                assert(all[y * per_row + x] == prev[y * per_row + x]);
                assert(cell(prev, per_row as int, y, x) == prev[y * per_row + x]);
            } else {
                assert(all[y * per_row + x] == run_pixels(bits, (rows - 1) * stride, per_row)[x]);
            }
        }
    }
}

/// The pixels read row by row, black past the end of the bytes, are laid out row-major,
/// rows in memory order: the pixel at row `y`, column `x` is the blue-green-red-alpha pixel
/// stored at byte `y * stride + 4 * x`, given as red, green, blue, alpha, or opaque black
/// where those bytes run past the end.
pub proof fn lemma_padded_rows_layout(bits: Seq<u8>, stride: nat, width: nat, rows: nat)
    ensures
        padded_rows(bits, stride, width, rows).len() == rows * width,
        forall|y: int, x: int|
            0 <= y < rows && 0 <= x < width ==> #[trigger] cell(
                padded_rows(bits, stride, width, rows),
                width as int,
                y,
                x,
            ) == if y * stride + 4 * x + 3 < bits.len() {
                (
                    bits[y * stride + 4 * x + 2],
                    bits[y * stride + 4 * x + 1],
                    bits[y * stride + 4 * x],
                    bits[y * stride + 4 * x + 3],
                )
            } else {
                (0u8, 0u8, 0u8, 255u8)
            },
    decreases rows,
{
    if rows > 0 {
        lemma_padded_rows_layout(bits, stride, width, (rows - 1) as nat);
        let all = padded_rows(bits, stride, width, rows);
        let prev = padded_rows(bits, stride, width, (rows - 1) as nat);
        assert((rows - 1) * width + width == rows * width) by (nonlinear_arith);
        assert forall|y: int, x: int| 0 <= y < rows && 0 <= x < width implies #[trigger] cell(
            all,
            width as int,
            y,
            x,
        ) == if y * stride + 4 * x + 3 < bits.len() {
            (
                bits[y * stride + 4 * x + 2],
                bits[y * stride + 4 * x + 1],
                bits[y * stride + 4 * x],
                bits[y * stride + 4 * x + 3],
            )
        } else {
            (0u8, 0u8, 0u8, 255u8)
        } by {
            lemma_row_major_split(y, x, rows as int, width as int);
            if y < rows - 1 {
                assert(all[y * width + x] == prev[y * width + x]);
                assert(cell(prev, width as int, y, x) == prev[y * width + x]);
            } else {
                assert(all[y * width + x] == padded_at(bits, (rows - 1) * stride + 4 * x));
            }
        }
    }
}

/// How many pixels each row of a bitmap holds: `width` when a row has room for them, else as
/// many whole pixels as fit in the `stride` bytes of a row.
pub open spec fn pixels_per_row(width: nat, stride: nat) -> nat {
    if width * 4 <= stride {
        width
    } else {
        stride / 4
    }
}

/// The pixels of a device bitmap of `height` rows `stride` bytes apart are laid out
/// row-major, rows in memory order: the pixel at row `y`, column `x` is the
/// blue-green-red-alpha pixel stored at byte `y * stride + 4 * x`, given as red, green, blue,
/// alpha. Without row padding a row holds `width` pixels; with padding, as many whole pixels
/// as fit in both the row and the image width.
pub proof fn lemma_bitmap_pixels_layout(bits: Seq<u8>, width: nat, height: nat, stride: nat)
    requires
        bits.len() == stride * height,
    ensures
        ({
            let r = bitmap_pixels_spec(bits, width, height, stride);
            &&& r.len() == height * pixels_per_row(width, stride)
            &&& forall|y: int, x: int|
                0 <= y < height && 0 <= x < pixels_per_row(width, stride) ==> #[trigger] cell(
                    r,
                    pixels_per_row(width, stride) as int,
                    y,
                    x,
                )
                    == (
                    bits[y * stride + 4 * x + 2],
                    bits[y * stride + 4 * x + 1],
                    bits[y * stride + 4 * x],
                    bits[y * stride + 4 * x + 3],
                )
        }),
{
    if stride == width * 4 {
        let r = bitmap_pixels_spec(bits, width, height, stride);
        assert(bits.len() / 4 == height * width) by (nonlinear_arith)
            requires
                bits.len() == stride * height,
                stride == width * 4,
        ;
        assert forall|y: int, x: int| 0 <= y < height && 0 <= x < width implies #[trigger] cell(
            r,
            width as int,
            y,
            x,
        ) == (
            bits[y * stride + 4 * x + 2],
            bits[y * stride + 4 * x + 1],
            bits[y * stride + 4 * x],
            bits[y * stride + 4 * x + 3],
        ) by {
            lemma_row_major_split(y, x, height as int, width as int);
            assert(4 * (y * width + x) == y * stride + 4 * x) by (nonlinear_arith)
                requires
                    stride == width * 4,
            ;
        }
    } else {
        let row_end = if width * 4 < stride { width * 4 } else { stride };
        assert(width * 4 < stride ==> row_end / 4 == width);
        lemma_rows_pixels_layout(bits, stride, height, row_end / 4);
    }
}

} // verus!
