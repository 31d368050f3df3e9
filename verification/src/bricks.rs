//! The brick layout: how many rows and columns of bricks fit the arena, and
//! where each brick stands.

use vstd::prelude::*;
use vstd::arithmetic::div_mod::{
    lemma_fundamental_div_mod, lemma_fundamental_div_mod_converse, lemma_mod_pos_bound,
};
use crate::collision::overlaps;
use crate::components::{Body, Brick};
use crate::math::Vec2;
use crate::walls::{compute_bounds, half_height, half_width, Viewport, Y_OFFSET};

verus! {

pub const BRICK_WIDTH: i64 = 100_000;

pub const BRICK_HEIGHT: i64 = 30_000;

/// From the bottom of the viewport up to the lowest row of bricks.
pub const GAP_BETWEEN_PADDLE_AND_BRICKS: i64 = 300_000;

/// Between two neighbouring bricks, on both axes. This gap is exact.
pub const GAP_BETWEEN_BRICKS: i64 = 5_000;

/// Between the bricks and a side of the arena. A lower bound: the block of
/// bricks is centred, so what the columns leave over is added to it.
pub const GAP_BETWEEN_BRICKS_AND_SIDES: i64 = 20_000;

/// Between the bricks and the top of the arena. A lower bound as well.
pub const GAP_BETWEEN_BRICKS_AND_CEILING: i64 = 20_000;

/// Why no brick layout exists for an arena.
#[derive(Clone, Copy, Debug, PartialEq, Eq, Structural)]
pub enum ConfigError {
    /// The side gaps leave no width for bricks.
    NoUsableWidth,
    /// The space kept for the paddle and the ceiling gap leave no height.
    NoUsableHeight,
}

/// The width that bricks may take.
pub open spec fn usable_width(arena_width: int) -> int {
    arena_width - 2 * GAP_BETWEEN_BRICKS_AND_SIDES
}

/// The `y` of the bottom edge of the lowest row of bricks.
pub open spec fn bottom_edge_of_bricks(arena_height: int) -> int {
    -(arena_height / 2 - Y_OFFSET) + GAP_BETWEEN_PADDLE_AND_BRICKS
}

/// The height that bricks may take: from the bottom edge of the lowest row
/// up to the ceiling gap below the top of the arena.
pub open spec fn usable_height(arena_height: int) -> int {
    arena_height / 2 - bottom_edge_of_bricks(arena_height) - GAP_BETWEEN_BRICKS_AND_CEILING
}

pub open spec fn brick_columns(arena_width: int) -> int {
    usable_width(arena_width) / (BRICK_WIDTH + GAP_BETWEEN_BRICKS)
}

pub open spec fn brick_rows(arena_height: int) -> int {
    usable_height(arena_height) / (BRICK_HEIGHT + GAP_BETWEEN_BRICKS)
}

/// The `x` of the left edge of the leftmost brick: the block of `columns`
/// bricks and the gaps between them is centred on `x = 0`.
pub open spec fn left_edge_of_bricks(columns: int) -> int {
    -((columns * BRICK_WIDTH + (columns - 1) * GAP_BETWEEN_BRICKS) / 2)
}

/// The `x` of the centre of a brick in `column`, counted from zero at the
/// left.
pub open spec fn brick_x(arena_width: int, column: int) -> int {
    left_edge_of_bricks(brick_columns(arena_width)) + BRICK_WIDTH / 2 + column * (BRICK_WIDTH
        + GAP_BETWEEN_BRICKS)
}

/// The `y` of the centre of a brick in `row`, counted from zero at the
/// bottom.
pub open spec fn brick_y(arena_height: int, row: int) -> int {
    bottom_edge_of_bricks(arena_height) + BRICK_HEIGHT / 2 + row * (BRICK_HEIGHT
        + GAP_BETWEEN_BRICKS)
}

/// The centre of the brick in `row` and `column`.
pub open spec fn brick_center(arena_width: int, arena_height: int, row: int, column: int) -> Vec2 {
    Vec2 { x: brick_x(arena_width, column) as i64, y: brick_y(arena_height, row) as i64 }
}

/// The body of a brick with the given centre.
pub open spec fn brick_body(center: Vec2) -> Body {
    Body { position: center, size: Vec2 { x: BRICK_WIDTH, y: BRICK_HEIGHT } }
}

/// How many bricks the layout holds.
pub open spec fn brick_count(arena_width: int, arena_height: int) -> int {
    brick_rows(arena_height) * brick_columns(arena_width)
}

/// The first `count` brick centres of the layout, row by row from the
/// bottom, each row from the left.
pub open spec fn layout_prefix(arena_width: int, arena_height: int, count: nat) -> Seq<Vec2> {
    Seq::new(
        count,
        |k: int|
            brick_center(
                arena_width,
                arena_height,
                k / brick_columns(arena_width),
                k % brick_columns(arena_width),
            ),
    )
}

/// The brick centres of an arena with usable space.
pub open spec fn layout_spec(arena_width: int, arena_height: int) -> Seq<Vec2> {
    layout_prefix(arena_width, arena_height, brick_count(arena_width, arena_height) as nat)
}

/// What `layout_bricks` returns: an error where the arena has no usable
/// width or, failing that, no usable height, else the layout.
pub open spec fn layout_result(arena_width: int, arena_height: int) -> Result<
    Seq<Vec2>,
    ConfigError,
> {
    if usable_width(arena_width) <= 0 {
        Err(ConfigError::NoUsableWidth)
    } else if usable_height(arena_height) <= 0 {
        Err(ConfigError::NoUsableHeight)
    } else {
        Ok(layout_spec(arena_width, arena_height))
    }
}

/// Packs rows and columns of bricks into the arena. An arena without
/// usable width or height is refused rather than left empty.
pub fn layout_bricks(arena_width: i64, arena_height: i64) -> (layout: Result<
    Vec<Vec2>,
    ConfigError,
>)
    ensures
        match layout {
            Ok(centers) => layout_result(arena_width as int, arena_height as int) == Ok::<
                Seq<Vec2>,
                ConfigError,
            >(centers@),
            Err(e) => layout_result(arena_width as int, arena_height as int) == Err::<
                Seq<Vec2>,
                ConfigError,
            >(e),
        },
{
    if arena_width <= 2 * GAP_BETWEEN_BRICKS_AND_SIDES {
        return Err(ConfigError::NoUsableWidth);
    }
    if arena_height <= 0 {
        return Err(ConfigError::NoUsableHeight);
    }
    let half: i64 = arena_height / 2;
    let bottom_edge: i64 = -(half - Y_OFFSET) + GAP_BETWEEN_PADDLE_AND_BRICKS;
    let total_width: i64 = arena_width - 2 * GAP_BETWEEN_BRICKS_AND_SIDES;
    let total_height: i64 = half - bottom_edge - GAP_BETWEEN_BRICKS_AND_CEILING;
    if total_height <= 0 {
        return Err(ConfigError::NoUsableHeight);
    }
    let n_columns: i64 = total_width / (BRICK_WIDTH + GAP_BETWEEN_BRICKS);
    let n_rows: i64 = total_height / (BRICK_HEIGHT + GAP_BETWEEN_BRICKS);
    let mut centers: Vec<Vec2> = Vec::new();
    if n_columns == 0 {
        assert(n_rows * n_columns == 0) by (nonlinear_arith)
            requires
                n_columns == 0,
        ;
        assert(centers@ =~= layout_spec(arena_width as int, arena_height as int));
        return Ok(centers);
    }
    let left_edge: i64 = -((n_columns * BRICK_WIDTH + (n_columns - 1) * GAP_BETWEEN_BRICKS) / 2);
    let offset_x: i64 = left_edge + BRICK_WIDTH / 2;
    let offset_y: i64 = bottom_edge + BRICK_HEIGHT / 2;
    let mut row: i64 = 0;
    while row < n_rows
        invariant
            0 <= row <= n_rows,
            n_columns > 0,
            n_columns == brick_columns(arena_width as int),
            n_rows == brick_rows(arena_height as int),
            offset_x == left_edge_of_bricks(n_columns as int) + BRICK_WIDTH / 2,
            offset_y == bottom_edge_of_bricks(arena_height as int) + BRICK_HEIGHT / 2,
            n_columns * (BRICK_WIDTH + GAP_BETWEEN_BRICKS) <= i64::MAX,
            n_rows * (BRICK_HEIGHT + GAP_BETWEEN_BRICKS) <= i64::MAX,
            offset_x + n_columns * (BRICK_WIDTH + GAP_BETWEEN_BRICKS) <= i64::MAX,
            offset_y + n_rows * (BRICK_HEIGHT + GAP_BETWEEN_BRICKS) <= i64::MAX,
            centers@ =~= layout_prefix(
                arena_width as int,
                arena_height as int,
                (row * n_columns) as nat,
            ),
            row * n_columns >= 0,
        decreases n_rows - row,
    {
        let mut column: i64 = 0;
        while column < n_columns
            invariant
                0 <= row < n_rows,
                0 <= column <= n_columns,
                n_columns > 0,
                n_columns == brick_columns(arena_width as int),
                offset_x == left_edge_of_bricks(n_columns as int) + BRICK_WIDTH / 2,
                offset_y == bottom_edge_of_bricks(arena_height as int) + BRICK_HEIGHT / 2,
                n_columns * (BRICK_WIDTH + GAP_BETWEEN_BRICKS) <= i64::MAX,
            n_rows * (BRICK_HEIGHT + GAP_BETWEEN_BRICKS) <= i64::MAX,
            offset_x + n_columns * (BRICK_WIDTH + GAP_BETWEEN_BRICKS) <= i64::MAX,
                offset_y + n_rows * (BRICK_HEIGHT + GAP_BETWEEN_BRICKS) <= i64::MAX,
                centers@ =~= layout_prefix(
                    arena_width as int,
                    arena_height as int,
                    (row * n_columns + column) as nat,
                ),
                row * n_columns >= 0,
            decreases n_columns - column,
        {
            assert(0 <= column * (BRICK_WIDTH + GAP_BETWEEN_BRICKS) <= n_columns * (BRICK_WIDTH
                + GAP_BETWEEN_BRICKS)) by (nonlinear_arith)
                requires
                    0 <= column <= n_columns,
            ;
            assert(0 <= row * (BRICK_HEIGHT + GAP_BETWEEN_BRICKS) <= n_rows * (BRICK_HEIGHT
                + GAP_BETWEEN_BRICKS)) by (nonlinear_arith)
                requires
                    0 <= row <= n_rows,
            ;
            let center = Vec2 {
                x: offset_x + column * (BRICK_WIDTH + GAP_BETWEEN_BRICKS),
                y: offset_y + row * (BRICK_HEIGHT + GAP_BETWEEN_BRICKS),
            };
            proof {
                let k = row * n_columns + column;
                lemma_fundamental_div_mod_converse(k, n_columns as int, row as int, column as int);
                assert(center == brick_center(
                    arena_width as int,
                    arena_height as int,
                    k / (n_columns as int),
                    k % (n_columns as int),
                ));
            }
            centers.push(center);
            column = column + 1;
        }
        proof {
            assert((row + 1) * n_columns == row * n_columns + n_columns) by (nonlinear_arith);
        }
        row = row + 1;
    }
    Ok(centers)
}

/// The body lies within the usable region: no further left or right than
/// half the usable width from the centre line, no lower than the bottom edge
/// of the bricks, and no higher than the usable height above it. Edges are
/// compared doubled.
pub open spec fn inside_usable_region(body: Body, arena_width: int, arena_height: int) -> bool {
    &&& -usable_width(arena_width) <= body.left2()
    &&& body.right2() <= usable_width(arena_width)
    &&& 2 * bottom_edge_of_bricks(arena_height) <= body.bottom2()
    &&& body.top2() <= 2 * (bottom_edge_of_bricks(arena_height) + usable_height(arena_height))
}

/// The brick at index `k` of the layout stands in row `k / columns` and
/// column `k % columns`, both within the grid, and its centre is exactly
/// `brick_x` and `brick_y` of that cell.
proof fn lemma_cell(arena_width: i64, arena_height: i64, k: int)
    requires
        usable_width(arena_width as int) > 0,
        usable_height(arena_height as int) > 0,
        0 <= k < brick_count(arena_width as int, arena_height as int),
    ensures
        brick_columns(arena_width as int) > 0,
        0 <= k / brick_columns(arena_width as int) < brick_rows(arena_height as int),
        0 <= k % brick_columns(arena_width as int) < brick_columns(arena_width as int),
        k == (k / brick_columns(arena_width as int)) * brick_columns(arena_width as int) + k
            % brick_columns(arena_width as int),
        layout_spec(arena_width as int, arena_height as int)[k].x == brick_x(
            arena_width as int,
            k % brick_columns(arena_width as int),
        ),
        layout_spec(arena_width as int, arena_height as int)[k].y == brick_y(
            arena_height as int,
            k / brick_columns(arena_width as int),
        ),
{
    let cols = brick_columns(arena_width as int);
    let rows = brick_rows(arena_height as int);
    assert(cols > 0 && rows > 0) by (nonlinear_arith)
        requires
            cols >= 0,
            rows >= 0,
            0 <= k < rows * cols,
    ;
    lemma_fundamental_div_mod(k, cols);
    lemma_mod_pos_bound(k, cols);
    let row = k / cols;
    let col = k % cols;
    assert(0 <= row < rows) by (nonlinear_arith)
        requires
            k == cols * row + col,
            0 <= col < cols,
            0 <= k < rows * cols,
    ;
    assert(k == row * cols + col) by (nonlinear_arith)
        requires
            k == cols * row + col,
    ;
    assert(0 <= col * (BRICK_WIDTH + GAP_BETWEEN_BRICKS) <= (cols - 1) * (BRICK_WIDTH
        + GAP_BETWEEN_BRICKS)) by (nonlinear_arith)
        requires
            0 <= col <= cols - 1,
    ;
    assert(0 <= row * (BRICK_HEIGHT + GAP_BETWEEN_BRICKS) <= (rows - 1) * (BRICK_HEIGHT
        + GAP_BETWEEN_BRICKS)) by (nonlinear_arith)
        requires
            0 <= row <= rows - 1,
    ;
}

/// The layout holds one brick for each cell of the grid of rows and
/// columns.
pub proof fn lemma_layout_count(arena_width: i64, arena_height: i64)
    requires
        usable_width(arena_width as int) > 0,
        usable_height(arena_height as int) > 0,
    ensures
        layout_spec(arena_width as int, arena_height as int).len() == brick_rows(
            arena_height as int,
        ) * brick_columns(arena_width as int),
        brick_rows(arena_height as int) >= 0,
        brick_columns(arena_width as int) >= 0,
{
    let cols = brick_columns(arena_width as int);
    let rows = brick_rows(arena_height as int);
    assert(rows * cols >= 0) by (nonlinear_arith)
        requires
            cols >= 0,
            rows >= 0,
    ;
}

/// Every brick of the layout lies fully inside the usable region.
pub proof fn lemma_layout_inside(arena_width: i64, arena_height: i64, k: int)
    requires
        usable_width(arena_width as int) > 0,
        usable_height(arena_height as int) > 0,
        0 <= k < layout_spec(arena_width as int, arena_height as int).len(),
    ensures
        inside_usable_region(
            brick_body(layout_spec(arena_width as int, arena_height as int)[k]),
            arena_width as int,
            arena_height as int,
        ),
{
    lemma_layout_count(arena_width, arena_height);
    lemma_cell(arena_width, arena_height, k);
    let cols = brick_columns(arena_width as int);
    let rows = brick_rows(arena_height as int);
    let row = k / cols;
    let col = k % cols;
    assert(0 <= col * (BRICK_WIDTH + GAP_BETWEEN_BRICKS) <= (cols - 1) * (BRICK_WIDTH
        + GAP_BETWEEN_BRICKS)) by (nonlinear_arith)
        requires
            0 <= col <= cols - 1,
    ;
    assert(0 <= row * (BRICK_HEIGHT + GAP_BETWEEN_BRICKS) <= (rows - 1) * (BRICK_HEIGHT
        + GAP_BETWEEN_BRICKS)) by (nonlinear_arith)
        requires
            0 <= row <= rows - 1,
    ;
}

/// No two bricks of the layout overlap.
pub proof fn lemma_layout_disjoint(arena_width: i64, arena_height: i64, j: int, k: int)
    requires
        usable_width(arena_width as int) > 0,
        usable_height(arena_height as int) > 0,
        0 <= j < layout_spec(arena_width as int, arena_height as int).len(),
        0 <= k < layout_spec(arena_width as int, arena_height as int).len(),
        j != k,
    ensures
        !overlaps(
            brick_body(layout_spec(arena_width as int, arena_height as int)[j]),
            brick_body(layout_spec(arena_width as int, arena_height as int)[k]),
        ),
{
    lemma_layout_count(arena_width, arena_height);
    lemma_cell(arena_width, arena_height, j);
    lemma_cell(arena_width, arena_height, k);
    let cols = brick_columns(arena_width as int);
    let (row_j, col_j) = (j / cols, j % cols);
    let (row_k, col_k) = (k / cols, k % cols);
    if row_j < row_k {
        assert(row_k * (BRICK_HEIGHT + GAP_BETWEEN_BRICKS) >= row_j * (BRICK_HEIGHT
            + GAP_BETWEEN_BRICKS) + (BRICK_HEIGHT + GAP_BETWEEN_BRICKS)) by (nonlinear_arith)
            requires
                row_j + 1 <= row_k,
        ;
    } else if row_k < row_j {
        assert(row_j * (BRICK_HEIGHT + GAP_BETWEEN_BRICKS) >= row_k * (BRICK_HEIGHT
            + GAP_BETWEEN_BRICKS) + (BRICK_HEIGHT + GAP_BETWEEN_BRICKS)) by (nonlinear_arith)
            requires
                row_k + 1 <= row_j,
        ;
    } else if col_j < col_k {
        assert(col_k * (BRICK_WIDTH + GAP_BETWEEN_BRICKS) >= col_j * (BRICK_WIDTH
            + GAP_BETWEEN_BRICKS) + (BRICK_WIDTH + GAP_BETWEEN_BRICKS)) by (nonlinear_arith)
            requires
                col_j + 1 <= col_k,
        ;
    } else {
        assert(col_k < col_j);
        assert(col_j * (BRICK_WIDTH + GAP_BETWEEN_BRICKS) >= col_k * (BRICK_WIDTH
            + GAP_BETWEEN_BRICKS) + (BRICK_WIDTH + GAP_BETWEEN_BRICKS)) by (nonlinear_arith)
            requires
                col_k + 1 <= col_j,
        ;
    }
}

/// Neighbouring bricks are exactly one gap apart. The brick at `k + 1`,
/// where it stands in the same row, has the same height range and starts
/// one gap to the right of where the brick at `k` ends. The brick one row
/// up, at `k + columns`, has the same width range and starts one gap above.
/// With doubled edges one gap is `2 * GAP_BETWEEN_BRICKS`.
pub proof fn lemma_layout_gaps(arena_width: i64, arena_height: i64, k: int)
    requires
        usable_width(arena_width as int) > 0,
        usable_height(arena_height as int) > 0,
        0 <= k < layout_spec(arena_width as int, arena_height as int).len(),
    ensures
        ({
            let layout = layout_spec(arena_width as int, arena_height as int);
            let cols = brick_columns(arena_width as int);
            &&& k % cols + 1 < cols ==> {
                &&& k + 1 < layout.len()
                &&& brick_body(layout[k + 1]).left2() - brick_body(layout[k]).right2() == 2
                    * GAP_BETWEEN_BRICKS
                &&& brick_body(layout[k + 1]).bottom2() == brick_body(layout[k]).bottom2()
                &&& brick_body(layout[k + 1]).top2() == brick_body(layout[k]).top2()
            }
            &&& k + cols < layout.len() ==> {
                &&& brick_body(layout[k + cols]).bottom2() - brick_body(layout[k]).top2() == 2
                    * GAP_BETWEEN_BRICKS
                &&& brick_body(layout[k + cols]).left2() == brick_body(layout[k]).left2()
                &&& brick_body(layout[k + cols]).right2() == brick_body(layout[k]).right2()
            }
        }),
{
    lemma_layout_count(arena_width, arena_height);
    lemma_cell(arena_width, arena_height, k);
    let cols = brick_columns(arena_width as int);
    let rows = brick_rows(arena_height as int);
    let row = k / cols;
    let col = k % cols;
    if col + 1 < cols {
        assert(row * cols + cols <= rows * cols) by (nonlinear_arith)
            requires
                row + 1 <= rows,
                cols >= 0,
        ;
        lemma_cell(arena_width, arena_height, k + 1);
        lemma_fundamental_div_mod_converse(k + 1, cols, row, col + 1);
        assert((col + 1) * (BRICK_WIDTH + GAP_BETWEEN_BRICKS) == col * (BRICK_WIDTH
            + GAP_BETWEEN_BRICKS) + (BRICK_WIDTH + GAP_BETWEEN_BRICKS)) by (nonlinear_arith);
    }
    if k + cols < rows * cols {
        lemma_cell(arena_width, arena_height, k + cols);
        assert(k + cols == (row + 1) * cols + col) by (nonlinear_arith)
            requires
                k == row * cols + col,
        ;
        lemma_fundamental_div_mod_converse(k + cols, cols, row + 1, col);
        assert((row + 1) * (BRICK_HEIGHT + GAP_BETWEEN_BRICKS) == row * (BRICK_HEIGHT
            + GAP_BETWEEN_BRICKS) + (BRICK_HEIGHT + GAP_BETWEEN_BRICKS)) by (nonlinear_arith);
    }
}

/// The width of the arena of a viewport, wall centre to wall centre.
pub open spec fn arena_width(viewport: Viewport) -> int {
    2 * half_width(viewport.width as int)
}

/// The height of the arena of a viewport, wall centre to wall centre.
pub open spec fn arena_height(viewport: Viewport) -> int {
    2 * half_height(viewport.height as int)
}

/// The bricks that stand at the given centres, one for each, in order.
pub open spec fn bricks_at(centers: Seq<Vec2>) -> Seq<Brick> {
    Seq::new(centers.len(), |k: int| Brick { body: brick_body(centers[k]) })
}

/// What `render_bricks` returns for a viewport.
pub open spec fn bricks_result(viewport: Viewport) -> Result<Seq<Brick>, ConfigError> {
    match layout_result(arena_width(viewport), arena_height(viewport)) {
        Ok(centers) => Ok(bricks_at(centers)),
        Err(e) => Err(e),
    }
}

/// Why the arena of a viewport has no brick layout, if it has none.
pub open spec fn config_error(viewport: Viewport) -> Option<ConfigError> {
    match bricks_result(viewport) {
        Ok(_) => None,
        Err(e) => Some(e),
    }
}

/// The bricks of the arena of a viewport; none where it has no layout.
pub open spec fn bricks_of(viewport: Viewport) -> Seq<Brick> {
    match bricks_result(viewport) {
        Ok(bricks) => bricks,
        Err(_) => Seq::empty(),
    }
}

/// A viewport is too small for its layout to hold more bricks than this.
pub proof fn lemma_brick_count_bounded(viewport: Viewport)
    ensures
        bricks_of(viewport).len() <= 0x2_0000_0000,
{
    let width = arena_width(viewport);
    let height = arena_height(viewport);
    if bricks_result(viewport).is_ok() {
        let cols = brick_columns(width);
        let rows = brick_rows(height);
        assert(0 <= cols <= 40_904);
        assert(0 <= rows <= 122_713);
        assert(0 <= rows * cols <= 122_713 * 40_904) by (nonlinear_arith)
            requires
                0 <= cols <= 40_904,
                0 <= rows <= 122_713,
        ;
    }
}

/// Lays out the bricks for the arena of a viewport.
pub fn render_bricks(viewport: &Viewport) -> (bricks: Result<Vec<Brick>, ConfigError>)
    ensures
        match bricks {
            Ok(b) => bricks_result(*viewport) == Ok::<Seq<Brick>, ConfigError>(b@),
            Err(e) => bricks_result(*viewport) == Err::<Seq<Brick>, ConfigError>(e),
        },
{
    let bounds = compute_bounds(viewport.width, viewport.height);
    let centers = match layout_bricks(2 * bounds.right, 2 * bounds.top) {
        Ok(centers) => centers,
        Err(e) => {
            return Err(e);
        },
    };
    let mut bricks: Vec<Brick> = Vec::new();
    let n = centers.len();
    let mut k: usize = 0;
    while k < n
        invariant
            0 <= k <= n,
            n == centers@.len(),
            bricks@ =~= bricks_at(centers@.take(k as int)),
        decreases n - k,
    {
        let center = centers[k];
        bricks.push(
            Brick { body: Body { position: center, size: Vec2 { x: BRICK_WIDTH, y: BRICK_HEIGHT } } },
        );
        k = k + 1;
    }
    assert(centers@.take(n as int) =~= centers@);
    Ok(bricks)
}

} // verus!
