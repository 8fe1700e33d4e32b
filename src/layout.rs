//! Where the pegs of each board stand, in whole pixels.

use vstd::prelude::*;

verus! {

/// Columns of the evening item grid.
pub const FOOD_GRID_COLUMNS: i64 = 19;

/// Rows of the evening item grid.
pub const FOOD_GRID_ROWS: i64 = 13;

/// The five pegs of a shallow triangle with its apex at `(x, y)`.
pub open spec fn spec_shallow_triangle(x: int, y: int) -> Seq<(i64, i64)> {
    seq![
        (x as i64, y as i64),
        ((x - 25) as i64, (y - 20) as i64),
        ((x - 50) as i64, (y - 40) as i64),
        ((x + 25) as i64, (y - 20) as i64),
        ((x + 50) as i64, (y - 40) as i64),
    ]
}

/// An apex from which every peg of its shallow triangle has `i64`
/// coordinates.
pub open spec fn apex_ok(x: int, y: int) -> bool {
    i64::MIN + 50 <= x <= i64::MAX - 50 && i64::MIN + 40 <= y
}

/// The five pegs of a shallow triangle with its apex at `(top_x, top_y)`:
/// the apex, then two steps of 25 across and 20 down on each side.
pub fn shallow_triangle(top_x: i64, top_y: i64) -> (r: Vec<(i64, i64)>)
    requires
        apex_ok(top_x as int, top_y as int),
    ensures
        r@ == spec_shallow_triangle(top_x as int, top_y as int),
{
    let r = vec![
        (top_x, top_y),
        (top_x - 25, top_y - 20),
        (top_x - 50, top_y - 40),
        (top_x + 25, top_y - 20),
        (top_x + 50, top_y - 40),
    ];
    assert(r@ =~= spec_shallow_triangle(top_x as int, top_y as int));
    r
}

/// The pegs of shallow triangles with their apexes at `tops`, five per
/// triangle, in order.
pub fn shallow_triangles(tops: &Vec<(i64, i64)>) -> (r: Vec<(i64, i64)>)
    requires
        forall|k: int| 0 <= k < tops@.len() ==> apex_ok(#[trigger] tops@[k].0 as int, tops@[k].1 as int),
    ensures
        r@.len() == 5 * tops@.len(),
        forall|k: int, m: int|
            0 <= k < tops@.len() && 0 <= m < 5 ==> #[trigger] r@[5 * k + m] == spec_shallow_triangle(
                tops@[k].0 as int,
                tops@[k].1 as int,
            )[m],
{
    let mut r: Vec<(i64, i64)> = Vec::new();
    let mut i: usize = 0;
    while i < tops.len()
        invariant
            0 <= i <= tops.len(),
            forall|k: int| 0 <= k < tops@.len() ==> apex_ok(#[trigger] tops@[k].0 as int, tops@[k].1 as int),
            r@.len() == 5 * i,
            forall|k: int, m: int|
                0 <= k < i && 0 <= m < 5 ==> #[trigger] r@[5 * k + m] == spec_shallow_triangle(
                    tops@[k].0 as int,
                    tops@[k].1 as int,
                )[m],
        decreases tops.len() - i,
    {
        let (x, y) = tops[i];
        let ghost before = r@;
        let mut t = shallow_triangle(x, y);
        r.append(&mut t);
        assert forall|k: int, m: int|
            0 <= k < i + 1 && 0 <= m < 5 implies #[trigger] r@[5 * k + m] == spec_shallow_triangle(
                tops@[k].0 as int,
                tops@[k].1 as int,
            )[m] by {
            if k < i {
                assert(r@[5 * k + m] == before[5 * k + m]);
            }
        }
        i = i + 1;
    }
    r
}

/// `n` pegs in a column at `x`, the first at height `y0` and each next one 48
/// higher, in order.
pub fn wall_column(x: i64, y0: i64, n: i64) -> (r: Vec<(i64, i64)>)
    requires
        0 <= n,
        n > 0 ==> y0 + 48 * (n - 1) <= i64::MAX,
    ensures
        r@.len() == n,
        forall|k: int| 0 <= k < n ==> #[trigger] r@[k] == (x, (y0 + 48 * k) as i64),
{
    let mut r: Vec<(i64, i64)> = Vec::new();
    let mut i: i64 = 0;
    let mut y: i64 = y0;
    while i < n
        invariant
            0 <= i <= n,
            n > 0 ==> y0 + 48 * (n - 1) <= i64::MAX,
            i < n ==> y == y0 + 48 * i,
            r@.len() == i,
            forall|k: int| 0 <= k < i ==> #[trigger] r@[k] == (x, (y0 + 48 * k) as i64),
        decreases n - i,
    {
        r.push((x, y));
        i = i + 1;
        if i < n {
            y = y + 48;
        }
    }
    r
}

/// The gap in the evening item grid where the drug peg sits.
pub open spec fn spec_food_grid_gap(i: int, j: int) -> bool {
    (8 <= i <= 10 && 5 <= j <= 7) || (i == 11 && j == 6)
}

/// The position of the item peg in column `i` and row `j`: odd rows shift
/// half a step right.
pub open spec fn spec_food_grid_point(i: int, j: int) -> (i64, i64) {
    ((i * 48 + 56 + (j % 2) * 24) as i64, (j * 48 + 48) as i64)
}

/// `p` is the position of an item peg of the evening grid.
pub open spec fn in_food_grid(p: (i64, i64)) -> bool {
    exists|i: int, j: int|
        0 <= i < FOOD_GRID_COLUMNS && 0 <= j < FOOD_GRID_ROWS && !spec_food_grid_gap(i, j) && p
            == #[trigger] spec_food_grid_point(i, j)
}

/// The positions of the evening item pegs: a grid of 19 columns and 13 rows,
/// 48 apart, odd rows shifted, with a gap around the drug peg in the middle.
pub fn food_item_grid() -> (r: Vec<(i64, i64)>)
    ensures
        forall|p: (i64, i64)| r@.contains(p) <==> in_food_grid(p),
{
    let mut r: Vec<(i64, i64)> = Vec::new();
    let mut i: i64 = 0;
    while i < FOOD_GRID_COLUMNS
        invariant
            0 <= i <= FOOD_GRID_COLUMNS,
            forall|p: (i64, i64)|
                r@.contains(p) <==> exists|a: int, b: int|
                    0 <= a < i && 0 <= b < FOOD_GRID_ROWS && !spec_food_grid_gap(a, b) && p
                        == #[trigger] spec_food_grid_point(a, b),
        decreases FOOD_GRID_COLUMNS - i,
    {
        let mut j: i64 = 0;
        while j < FOOD_GRID_ROWS
            invariant
                0 <= i < FOOD_GRID_COLUMNS,
                0 <= j <= FOOD_GRID_ROWS,
                forall|p: (i64, i64)|
                    r@.contains(p) <==> exists|a: int, b: int|
                        0 <= a <= i && 0 <= b < FOOD_GRID_ROWS && (a < i || b < j) && !spec_food_grid_gap(
                            a,
                            b,
                        ) && p == #[trigger] spec_food_grid_point(a, b),
            decreases FOOD_GRID_ROWS - j,
        {
            let ghost before = r@;
            let gap = (i == 8 || i == 9 || i == 10) && (j == 5 || j == 6 || j == 7) || (i == 11 && j
                == 6);
            if !gap {
                let point: (i64, i64) = (i * 48 + 56 + (j % 2) * 24, j * 48 + 48);
                assert(point == spec_food_grid_point(i as int, j as int));
                r.push(point);
            }
            assert forall|p: (i64, i64)|
                r@.contains(p) <==> exists|a: int, b: int|
                    0 <= a <= i && 0 <= b < FOOD_GRID_ROWS && (a < i || b < j + 1) && !spec_food_grid_gap(
                        a,
                        b,
                    ) && p == #[trigger] spec_food_grid_point(a, b) by {
                if r@.contains(p) && !before.contains(p) {
                    assert(p == spec_food_grid_point(i as int, j as int));
                }
                if before.contains(p) {
                    let k = choose|k: int| 0 <= k < before.len() && before[k] == p;
                    assert(r@[k] == p);
                }
                if exists|a: int, b: int|
                    0 <= a <= i && 0 <= b < FOOD_GRID_ROWS && (a < i || b < j + 1) && !spec_food_grid_gap(
                        a,
                        b,
                    ) && p == #[trigger] spec_food_grid_point(a, b) {
                    let (a, b) = choose|a: int, b: int|
                        0 <= a <= i && 0 <= b < FOOD_GRID_ROWS && (a < i || b < j + 1) && !spec_food_grid_gap(
                            a,
                            b,
                        ) && p == #[trigger] spec_food_grid_point(a, b);
                    if a == i && b == j {
                        assert(r@[r@.len() - 1] == p);
                    } else {
                        assert(before.contains(p));
                        let k = choose|k: int| 0 <= k < before.len() && before[k] == p;
                        assert(r@[k] == p);
                    }
                }
            }
            j = j + 1;
        }
        i = i + 1;
    }
    r
}

} // verus!
