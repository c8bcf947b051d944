use crate::field::Point;
use vstd::prelude::*;

verus! {

/// Where the crossing of column `i` with row `j` stands in a grid that has
/// `rows` rows.
pub open spec fn cell(rows: int, i: int, j: int) -> int {
    i * rows + j
}

/// `points` is the grid over `columns` and `rows`: every column paired with
/// every row, column by column and within a column row by row.
pub open spec fn is_grid<S>(columns: Seq<S>, rows: Seq<S>, points: Seq<Point<S>>) -> bool {
    &&& points.len() == columns.len() * rows.len()
    &&& forall|i: int, j: int|
        0 <= i < columns.len() && 0 <= j < rows.len() ==> 0 <= #[trigger] cell(
            rows.len() as int,
            i,
            j,
        ) < points.len() && points[cell(rows.len() as int, i, j)] == (Point {
            x: columns[i],
            y: rows[j],
        })
}

/// Lays start points on a grid: one at each crossing of a column at
/// `columns[i]` with a row at `rows[j]`.
pub fn grid<S: Copy>(columns: &Vec<S>, rows: &Vec<S>) -> (points: Vec<Point<S>>)
    ensures
        is_grid(columns@, rows@, points@),
{
    let mut points: Vec<Point<S>> = Vec::new();
    let ghost n = rows@.len() as int;
    let mut i: usize = 0;
    assert(0 * n == 0);
    while i < columns.len()
        invariant
            n == rows@.len(),
            i <= columns@.len(),
            points@.len() == i * n,
            forall|a: int, b: int|
                0 <= a < i && 0 <= b < n ==> 0 <= #[trigger] cell(n, a, b) < points@.len()
                    && points@[cell(n, a, b)] == (Point { x: columns@[a], y: rows@[b] }),
        decreases columns@.len() - i,
    {
        let mut j: usize = 0;
        while j < rows.len()
            invariant
                n == rows@.len(),
                i < columns@.len(),
                j <= n,
                points@.len() == i * n + j,
                0 <= i * n,
                forall|a: int, b: int|
                    0 <= a < i && 0 <= b < n ==> 0 <= #[trigger] cell(n, a, b) < i * n
                        && points@[cell(n, a, b)] == (Point { x: columns@[a], y: rows@[b] }),
                forall|b: int|
                    0 <= b < j ==> #[trigger] points@[cell(n, i as int, b)] == (Point {
                        x: columns@[i as int],
                        y: rows@[b],
                    }),
            decreases n - j,
        {
            points.push(Point { x: columns[i], y: rows[j] });
            j += 1;
        }
        proof {
            assert((i + 1) * n == i * n + n) by (nonlinear_arith);
        }
        i += 1;
    }
    points
}

/// The ways of placing the points that curves start from.
#[derive(Clone, Copy, Debug, PartialEq, Eq, Hash, Structural)]
pub enum Location {
    Grid,
    Rand,
    Halton,
    Poisson,
    Circle,
    Lissajous,
}

impl Location {
    /// The name shown for the placement.
    pub open spec fn label(self) -> Seq<char> {
        match self {
            Location::Grid => "Grid"@,
            Location::Rand => "Rand"@,
            Location::Halton => "Halton"@,
            Location::Poisson => "Poisson"@,
            Location::Circle => "Circle"@,
            Location::Lissajous => "Lissajous"@,
        }
    }

    pub fn to_string(&self) -> (s: String)
        ensures
            s@ == self.label(),
    {
        match self {
            Location::Grid => "Grid".to_owned(),
            Location::Rand => "Rand".to_owned(),
            Location::Halton => "Halton".to_owned(),
            Location::Poisson => "Poisson".to_owned(),
            Location::Circle => "Circle".to_owned(),
            Location::Lissajous => "Lissajous".to_owned(),
        }
    }
}

} // verus!
