use vstd::prelude::*;

verus! {

/// The index in a `width` by `height` image, stored row by row, of the pixel at `x`, `y`;
/// none outside the image.
pub open spec fn sample_spec(x: int, y: int, width: nat, height: nat) -> Option<int> {
    if 0 <= x < width && 0 <= y < height {
        Some(y * width + x)
    } else {
        None
    }
}

/// Where the pixel at `x`, `y` of a `width` by `height` image stands in its pixel list, if
/// it lies in the image. Outside the image the magnifier shows black.
pub fn sample_index(x: isize, y: isize, width: usize, height: usize) -> (r: Option<usize>)
    requires
        width * height <= usize::MAX,
    ensures
        r matches Some(i) ==> sample_spec(x as int, y as int, width as nat, height as nat) == Some(
            i as int,
        ),
        r is None ==> sample_spec(x as int, y as int, width as nat, height as nat) is None,
        r is Some <==> (0 <= x < width && 0 <= y < height),
        r matches Some(i) ==> i == y * width + x,
{
    if x < 0 || y < 0 {
        return None;
    }
    let ux = x as usize;
    let uy = y as usize;
    if ux >= width || uy >= height {
        return None;
    }
    proof {
        assert(uy * width + ux < width * height) by (nonlinear_arith)
            requires
                uy < height,
                ux < width,
        ;
    }
    Some(uy * width + ux)
}

/// A pixel index that may be missing, as an integer.
pub open spec fn index_view(o: Option<usize>) -> Option<int> {
    match o {
        Some(i) => Some(i as int),
        None => None,
    }
}

/// The samples of the rows above `rows` of the magnifier grid around `cx`, `cy`: each row
/// has `2 * half + 1` samples, from left to right.
pub open spec fn grid_rows(cx: int, cy: int, width: nat, height: nat, half: int, rows: nat) -> Seq<
    Option<int>,
>
    decreases rows,
{
    if rows == 0 {
        Seq::empty()
    } else {
        grid_rows(cx, cy, width, height, half, (rows - 1) as nat) + Seq::new(
            (2 * half + 1) as nat,
            |k: int| sample_spec(cx + k - half, cy + (rows - 1) - half, width, height),
        )
    }
}

/// The pixels the magnifier shows: a square of `2 * half_grid + 1` pixels on each side
/// centred on `cx`, `cy`, row by row from the top left, each as its index in the image or
/// none where it lies outside.
pub fn magnifier_grid(cx: isize, cy: isize, width: usize, height: usize, half_grid: i32) -> (r:
    Vec<Option<usize>>)
    requires
        width * height <= usize::MAX,
        0 <= half_grid,
        2 * half_grid + 1 <= isize::MAX,
        isize::MIN <= cx - half_grid && cx + half_grid <= isize::MAX,
        isize::MIN <= cy - half_grid && cy + half_grid <= isize::MAX,
    ensures
        r@.len() == (2 * half_grid + 1) * (2 * half_grid + 1),
        r@.map_values(|o: Option<usize>| index_view(o)) == grid_rows(
            cx as int,
            cy as int,
            width as nat,
            height as nat,
            half_grid as int,
            (2 * half_grid + 1) as nat,
        ),
{
    let side: isize = 2 * (half_grid as isize) + 1;
    let half = half_grid as isize;
    let mut r: Vec<Option<usize>> = Vec::new();
    let mut row: isize = 0;
    while row < side
        invariant
            side == 2 * half_grid + 1,
            half == half_grid,
            0 <= row <= side,
            width * height <= usize::MAX,
            isize::MIN <= cx - half_grid && cx + half_grid <= isize::MAX,
            isize::MIN <= cy - half_grid && cy + half_grid <= isize::MAX,
            r@.len() == row * side,
            r@.map_values(|o: Option<usize>| index_view(o)) == grid_rows(
                cx as int,
                cy as int,
                width as nat,
                height as nat,
                half as int,
                row as nat,
            ),
        decreases side - row,
    {
        let ghost before = r@;
        let mut col: isize = 0;
        while col < side
            invariant
                side == 2 * half_grid + 1,
                half == half_grid,
                0 <= row < side,
                0 <= col <= side,
                width * height <= usize::MAX,
                isize::MIN <= cx - half_grid && cx + half_grid <= isize::MAX,
                isize::MIN <= cy - half_grid && cy + half_grid <= isize::MAX,
                r@.len() == before.len() + col,
                r@.subrange(0, before.len() as int) == before,
                r@.subrange(before.len() as int, r@.len() as int).map_values(|o: Option<usize>| index_view(o)) == Seq::new(
                    col as nat,
                    |k: int| sample_spec(cx + k - half, cy + row - half, width as nat, height as nat),
                ),
            decreases side - col,
        {
            let s = sample_index(cx - half + col, cy - half + row, width, height);
            let ghost mid = r@;
            r.push(s);
            assert(r@.subrange(0, before.len() as int) =~= before);
            assert(r@.subrange(before.len() as int, r@.len() as int) =~= mid.subrange(
                before.len() as int,
                mid.len() as int,
            ).push(s));
            let ghost seg0 = mid.subrange(before.len() as int, mid.len() as int);
            assert(seg0.push(s).map_values(|o: Option<usize>| index_view(o)) =~= seg0.map_values(|o: Option<usize>| index_view(o)).push(index_view(s)));
            assert(index_view(s) == sample_spec(cx + col - half, cy + row - half, width as nat, height as nat));
            assert(r@.subrange(before.len() as int, r@.len() as int).map_values(|o: Option<usize>| index_view(o)) =~= Seq::new(
                (col + 1) as nat,
                |k: int| sample_spec(cx + k - half, cy + row - half, width as nat, height as nat),
            ));
            col = col + 1;
        }
        assert(r@ =~= before + r@.subrange(before.len() as int, r@.len() as int));
        assert(r@.map_values(|o: Option<usize>| index_view(o)) =~= before.map_values(|o: Option<usize>| index_view(o)) + r@.subrange(
            before.len() as int,
            r@.len() as int,
        ).map_values(|o: Option<usize>| index_view(o)));
        proof {
            assert(row * side + side == (row + 1) * side) by (nonlinear_arith);
        }
        row = row + 1;
    }
    r
}

/// The sample at row `row`, column `col` of a grid laid out row by row with `side` samples
/// to a row.
pub open spec fn grid_cell(g: Seq<Option<int>>, side: int, row: int, col: int) -> Option<int> {
    g[row * side + col]
}

/// The magnifier grid around `cx`, `cy` is laid out row by row from the top left: the cell at
/// row `row`, column `col` shows the image pixel at `x = cx + col - half`,
/// `y = cy + row - half`, which in a `width` by `height` image stored row by row stands at
/// index `y * width + x`; cells off the image show nothing.
pub proof fn lemma_magnifier_cells(cx: int, cy: int, width: nat, height: nat, half: int, rows: nat)
    requires
        0 <= half,
    ensures
        grid_rows(cx, cy, width, height, half, rows).len() == rows * (2 * half + 1),
        forall|row: int, col: int|
            0 <= row < rows && 0 <= col < 2 * half + 1 ==> #[trigger] grid_cell(
                grid_rows(cx, cy, width, height, half, rows),
                2 * half + 1,
                row,
                col,
            ) == if 0 <= cx + col - half < width && 0 <= cy + row - half < height {
                Some((cy + row - half) * width + (cx + col - half))
            } else {
                None::<int>
            },
    decreases rows,
{
    let side = 2 * half + 1;
    if rows == 0 {
        assert(rows * side == 0) by (nonlinear_arith)
            requires
                rows == 0,
        ;
    } else {
        lemma_magnifier_cells(cx, cy, width, height, half, (rows - 1) as nat);
        let all = grid_rows(cx, cy, width, height, half, rows);
        let prev = grid_rows(cx, cy, width, height, half, (rows - 1) as nat);
        assert((rows - 1) * side + side == rows * side) by (nonlinear_arith);
        assert(all.len() == prev.len() + side);
        assert forall|row: int, col: int| 0 <= row < rows && 0 <= col < side implies #[trigger] grid_cell(
            all,
            side,
            row,
            col,
        ) == if 0 <= cx + col - half < width && 0 <= cy + row - half < height {
            Some((cy + row - half) * width + (cx + col - half))
        } else {
            None::<int>
        } by {
            assert(0 <= row * side + col) by (nonlinear_arith)
                requires
                    0 <= row,
                    0 <= col,
                    0 < side,
            ;
            if row < rows - 1 {
                assert(row * side + col < (rows - 1) * side) by (nonlinear_arith)
                    requires
                        row < rows - 1,
                        col < side,
                        0 < side,
                ;
                assert(all[row * side + col] == prev[row * side + col]);
                assert(grid_cell(prev, side, row, col) == prev[row * side + col]);
            } else {
                assert(row * side + col - (rows - 1) * side == col) by (nonlinear_arith)
                    requires
                        row == rows - 1,
                ;
                assert(all[row * side + col] == sample_spec(cx + col - half, cy + (rows - 1) - half, width, height));
            }
        }
    }
}

} // verus!
