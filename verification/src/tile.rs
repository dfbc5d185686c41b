//! The static tiles of the dungeon and the generator that lays them out.

use vstd::prelude::*;
use vstd::arithmetic::div_mod::{lemma_fundamental_div_mod, lemma_fundamental_div_mod_converse};
use crate::grid::{Color, Point};

verus! {

/// Glyph of a wall tile.
pub const WALL: char = '#';

/// Glyph of a floor tile.
pub const FLOOR: char = '.';

/// One static cell of the dungeon.
#[derive(Clone, Copy, Debug, PartialEq, Eq, Structural)]
pub struct Tile {
    pub pos: Point,
    pub glyph: char,
    pub color: Color,
}

/// Whether cell `(x, y)` lies on the outer border of a `width` by `height` grid.
pub open spec fn on_border(x: int, y: int, width: int, height: int) -> bool {
    x == 0 || x == width - 1 || y == 0 || y == height - 1
}

/// The tile that belongs at cell `(x, y)` of a `width` by `height` map: a
/// wall on the border, floor inside, always black.
pub open spec fn tile_at(x: int, y: int, width: int, height: int) -> Tile {
    Tile {
        pos: Point { x: x as i32, y: y as i32 },
        glyph: if on_border(x, y, width, height) { WALL } else { FLOOR },
        color: Color::Black,
    }
}

/// The whole map, column after column: cell `(x, y)` is stored at index
/// `x * height + y`. A size that is not positive in both directions has no
/// cells.
pub open spec fn map_tiles(width: int, height: int) -> Seq<Tile> {
    if width <= 0 || height <= 0 {
        Seq::empty()
    } else {
        Seq::new((width * height) as nat, |i: int| tile_at(i / height, i % height, width, height))
    }
}

/// Lays out the map of the given size: one tile per cell, column after
/// column, walls along the border and floor inside.
pub fn generate_map(size: Point) -> (map: Vec<Tile>)
    ensures
        map@ == map_tiles(size.x as int, size.y as int),
        size.x >= 1 && size.y >= 1 ==> map@.len() == size.x * size.y,
        size.x <= 0 || size.y <= 0 ==> map@.len() == 0,
        forall|i: int|
            0 <= i < map@.len() ==> (#[trigger] map@[i].glyph == WALL <==> on_border(
                map@[i].pos.x as int,
                map@[i].pos.y as int,
                size.x as int,
                size.y as int,
            )),
        size.x >= 2 && size.y >= 2 ==> count_walls(map@) == 2 * size.x + 2 * size.y - 4,
{
    let mut map: Vec<Tile> = Vec::new();
    if size.x <= 0 || size.y <= 0 {
        return map;
    }
    let width: i32 = size.x;
    let height: i32 = size.y;
    let mut x: i32 = 0;
    while x < width
        invariant
            0 < width,
            0 < height,
            0 <= x <= width,
            map@.len() == x * height,
            forall|i: int|
                0 <= i < map@.len() ==> map@[i] == tile_at(
                    i / (height as int),
                    i % (height as int),
                    width as int,
                    height as int,
                ),
        decreases width - x,
    {
        let mut y: i32 = 0;
        while y < height
            invariant
                0 < width,
                0 < height,
                0 <= x < width,
                0 <= y <= height,
                map@.len() == x * height + y,
                forall|i: int|
                    0 <= i < map@.len() ==> map@[i] == tile_at(
                        i / (height as int),
                        i % (height as int),
                        width as int,
                        height as int,
                    ),
            decreases height - y,
        {
            let mut tile = Tile { pos: Point { x, y }, glyph: FLOOR, color: Color::Black };
            if x == 0 || x == width - 1 || y == 0 || y == height - 1 {
                tile.glyph = WALL;
            }
            proof {
                lemma_fundamental_div_mod_converse(
                    x * height + y,
                    height as int,
                    x as int,
                    y as int,
                );
            }
            map.push(tile);
            y = y + 1;
        }
        assert(x * height + height == (x + 1) * height) by (nonlinear_arith);
        x = x + 1;
    }
    assert(map@ =~= map_tiles(width as int, height as int));
    proof {
        lemma_map_tiles_are_cells(size);
        if width >= 2 && height >= 2 {
            lemma_wall_count(size);
        }
    }
    map
}

/// How many of the given tiles are walls.
pub open spec fn count_walls(tiles: Seq<Tile>) -> nat
    decreases tiles.len(),
{
    if tiles.len() == 0 {
        0
    } else {
        count_walls(tiles.drop_last()) + if tiles.last().glyph == WALL {
            1nat
        } else {
            0nat
        }
    }
}

/// A map holds one tile for every cell of its grid and nothing else: there
/// are `width * height` tiles, the tile of cell `(x, y)` is found at index
/// `x * height + y`, and it is a wall exactly when the cell lies on the
/// outer border.
pub proof fn lemma_map_cell(size: Point, x: int, y: int)
    requires
        0 <= x < size.x,
        0 <= y < size.y,
    ensures
        map_tiles(size.x as int, size.y as int).len() == size.x * size.y,
        0 <= x * size.y + y < size.x * size.y,
        map_tiles(size.x as int, size.y as int)[x * size.y + y].pos == (Point {
            x: x as i32,
            y: y as i32,
        }),
        map_tiles(size.x as int, size.y as int)[x * size.y + y].glyph == WALL <==> on_border(
            x,
            y,
            size.x as int,
            size.y as int,
        ),
{
    let w = size.x as int;
    let h = size.y as int;
    assert(0 <= x * h + y < w * h) by (nonlinear_arith)
        requires
            0 <= x < w,
            0 <= y < h,
    ;
    assert(w * h >= 0) by (nonlinear_arith)
        requires
            w > 0,
            h > 0,
    ;
    lemma_fundamental_div_mod_converse(x * h + y, h, x, y);
}

/// Every tile of a map sits inside the grid, at the index that its own
/// position gives, is black, and is a wall exactly when its position lies on
/// the outer border.
pub proof fn lemma_map_tiles_are_cells(size: Point)
    requires
        size.x >= 1,
        size.y >= 1,
    ensures
        map_tiles(size.x as int, size.y as int).len() == size.x * size.y,
        forall|i: int|
            0 <= i < size.x * size.y ==> {
                let t = #[trigger] map_tiles(size.x as int, size.y as int)[i];
                &&& 0 <= t.pos.x < size.x
                &&& 0 <= t.pos.y < size.y
                &&& i == t.pos.x * size.y + t.pos.y
                &&& t.color == Color::Black
                &&& (t.glyph == WALL || t.glyph == FLOOR)
                &&& (t.glyph == WALL <==> on_border(
                    t.pos.x as int,
                    t.pos.y as int,
                    size.x as int,
                    size.y as int,
                ))
            },
{
    let w = size.x as int;
    let h = size.y as int;
    assert(w * h >= 0) by (nonlinear_arith)
        requires
            w > 0,
            h > 0,
    ;
    assert forall|i: int| 0 <= i < w * h implies {
        let t = #[trigger] map_tiles(w, h)[i];
        &&& 0 <= t.pos.x < w
        &&& 0 <= t.pos.y < h
        &&& i == t.pos.x * h + t.pos.y
        &&& t.color == Color::Black
        &&& (t.glyph == WALL || t.glyph == FLOOR)
        &&& (t.glyph == WALL <==> on_border(t.pos.x as int, t.pos.y as int, w, h))
    } by {
        lemma_cell_of_index(w, h, i);
    }
}

/// Index `i` of a `width` by `height` map belongs to column `i / height` and
/// row `i % height`, both inside the grid.
proof fn lemma_cell_of_index(width: int, height: int, i: int)
    requires
        width > 0,
        height > 0,
        0 <= i < width * height,
    ensures
        0 <= i / height < width,
        0 <= i % height < height,
        i == (i / height) * height + i % height,
{
    lemma_fundamental_div_mod(i, height);
    let q = i / height;
    let r = i % height;
    assert(i == height * q + r);
    assert(q < width) by (nonlinear_arith)
        requires
            height * q + r < width * height,
            r >= 0,
            height > 0,
    ;
    assert(q >= 0) by (nonlinear_arith)
        requires
            height * q + r >= 0,
            r < height,
            height > 0,
    ;
    assert(height * q == q * height) by (nonlinear_arith);
}

/// Walls of two runs of tiles add up.
proof fn lemma_count_walls_add(a: Seq<Tile>, b: Seq<Tile>)
    ensures
        count_walls(a + b) == count_walls(a) + count_walls(b),
    decreases b.len(),
{
    if b.len() == 0 {
        assert(a + b =~= a);
    } else {
        assert((a + b).drop_last() =~= a + b.drop_last());
        lemma_count_walls_add(a, b.drop_last());
    }
}

/// Column `x` of the map, top to bottom.
spec fn column(x: int, width: int, height: int) -> Seq<Tile> {
    Seq::new(height as nat, |y: int| tile_at(x, y, width, height))
}

/// Walls among the first `k` tiles of a column: all of them in the first and
/// the last column, the two ends elsewhere.
spec fn column_prefix_walls(x: int, width: int, height: int, k: int) -> int {
    if x == 0 || x == width - 1 {
        k
    } else {
        (if k >= 1 { 1int } else { 0int }) + (if k == height { 1int } else { 0int })
    }
}

proof fn lemma_column_prefix(x: int, width: int, height: int, k: int)
    requires
        height >= 2,
        0 <= k <= height,
    ensures
        count_walls(column(x, width, height).take(k)) == column_prefix_walls(x, width, height, k),
    decreases k,
{
    let col = column(x, width, height);
    if k > 0 {
        assert(col.take(k).drop_last() =~= col.take(k - 1));
        assert(col.take(k).last() == tile_at(x, k - 1, width, height));
        lemma_column_prefix(x, width, height, k - 1);
    }
}

/// Walls in the first `n` columns of the map.
spec fn columns_walls(width: int, height: int, n: int) -> int {
    if n <= 0 {
        0
    } else if n < width {
        height + 2 * (n - 1)
    } else {
        2 * height + 2 * (width - 2)
    }
}

proof fn lemma_columns(width: int, height: int, n: int)
    requires
        width >= 2,
        height >= 2,
        0 <= n <= width,
    ensures
        0 <= n * height <= width * height,
        count_walls(map_tiles(width, height).take(n * height)) == columns_walls(width, height, n),
    decreases n,
{
    let tiles = map_tiles(width, height);
    assert(0 <= n * height <= width * height) by (nonlinear_arith)
        requires
            0 <= n <= width,
            height >= 2,
    ;
    if n > 0 {
        let m = n - 1;
        lemma_columns(width, height, m);
        assert(n * height == m * height + height) by (nonlinear_arith)
            requires
                n == m + 1,
        ;
        let col = column(m, width, height);
        assert(tiles.take(n * height) =~= tiles.take(m * height) + col) by {
            assert forall|i: int| m * height <= i < n * height implies tiles[i] == col[i - m
                * height] by {
                lemma_fundamental_div_mod_converse(i, height, m, i - m * height);
            }
        }
        lemma_count_walls_add(tiles.take(m * height), col);
        assert(col.take(height) =~= col);
        lemma_column_prefix(m, width, height, height);
    } else {
        assert(n * height == 0) by (nonlinear_arith)
            requires
                n == 0,
        ;
    }
}

/// A map at least two cells wide and two cells high has exactly
/// `2 * width + 2 * height - 4` walls.
pub proof fn lemma_wall_count(size: Point)
    requires
        size.x >= 2,
        size.y >= 2,
    ensures
        count_walls(map_tiles(size.x as int, size.y as int)) == 2 * size.x + 2 * size.y - 4,
{
    let w = size.x as int;
    let h = size.y as int;
    let tiles = map_tiles(w, h);
    lemma_columns(w, h, w);
    assert(tiles.take(w * h) =~= tiles);
}

} // verus!
