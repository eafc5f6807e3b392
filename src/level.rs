//! Levels: which one is played, and how a grid of tiles becomes blocks.
use vstd::prelude::*;
use crate::block::{Block, BlockType};
use crate::geometry::{div_toward_zero, trunc_div, Point, Vec2i, COORD_LIMIT};
use crate::GameState;

verus! {

/// Space between neighbouring blocks: ten pixels.
pub const BLOCK_GAP: i64 = 10_000;

/// Most rows in a level, and most tiles in a row.
pub const MAX_GRID: usize = 65536;

/// Index of the level being played.
#[derive(Clone, Copy, Debug, PartialEq, Eq, Structural, Default)]
pub struct CurrentLevel(pub usize);

#[derive(Debug)]
pub enum LevelError {
    /// A tile names no kind of block.
    InvalidBlockType(String),
}

/// A block of a level, where it stands.
#[derive(Clone, Copy, Debug, PartialEq, Eq, Structural)]
pub struct PlacedBlock {
    pub block: Block,
    pub position: Vec2i,
    pub half_extents: Vec2i,
}

/// What a tile holds: `Some(Some(t))` a block, `Some(None)` a gap, `None` an
/// unknown tile.
pub open spec fn tile_kind(tile: Seq<char>) -> Option<Option<BlockType>> {
    if tile == "silver"@ {
        Some(Some(BlockType::Silver { hits_taken: 0 }))
    } else if tile == "gold"@ {
        Some(Some(BlockType::Gold))
    } else if tile == "orange"@ {
        Some(Some(BlockType::Orange))
    } else if tile == "lightblue"@ {
        Some(Some(BlockType::LightBlue))
    } else if tile == "green"@ {
        Some(Some(BlockType::Green))
    } else if tile == "red"@ {
        Some(Some(BlockType::Red))
    } else if tile == "blue"@ {
        Some(Some(BlockType::Blue))
    } else if tile == "pink"@ {
        Some(Some(BlockType::Pink))
    } else if tile == "blank"@ {
        Some(None)
    } else {
        None
    }
}

/// The kind of block a tile names.
pub fn block_type_of_tile(tile: &String) -> (r: Result<Option<BlockType>, LevelError>)
    ensures
        match tile_kind(tile@) {
            Some(k) => r == Ok::<Option<BlockType>, LevelError>(k),
            None => match r {
                Err(LevelError::InvalidBlockType(s)) => s@ == tile@,
                Ok(_) => false,
            },
        },
{
    if *tile == "silver".to_owned() {
        Ok(Some(BlockType::Silver { hits_taken: 0 }))
    } else if *tile == "gold".to_owned() {
        Ok(Some(BlockType::Gold))
    } else if *tile == "orange".to_owned() {
        Ok(Some(BlockType::Orange))
    } else if *tile == "lightblue".to_owned() {
        Ok(Some(BlockType::LightBlue))
    } else if *tile == "green".to_owned() {
        Ok(Some(BlockType::Green))
    } else if *tile == "red".to_owned() {
        Ok(Some(BlockType::Red))
    } else if *tile == "blue".to_owned() {
        Ok(Some(BlockType::Blue))
    } else if *tile == "pink".to_owned() {
        Ok(Some(BlockType::Pink))
    } else if *tile == "blank".to_owned() {
        Ok(None)
    } else {
        Err(LevelError::InvalidBlockType(tile.clone()))
    }
}

/// Extent of `n` blocks of size `size` in a line, with their gaps.
pub open spec fn line_extent(n: int, size: int) -> int {
    n * size + (n - 1) * BLOCK_GAP
}

/// The grid is centered on the origin, one block size per step plus a gap,
/// and the whole of it is drawn at half scale.
pub open spec fn block_position_of(rows: int, cols: int, i: int, j: int, size: Vec2i) -> Point {
    Point {
        x: trunc_div(-line_extent(cols, size.x as int) + size.x + 2 * j * (size.x + BLOCK_GAP), 4),
        y: trunc_div(line_extent(rows, size.y as int) - size.y - 2 * i * (size.y + BLOCK_GAP), 4),
    }
}

pub open spec fn placed_at(t: BlockType, rows: int, cols: int, i: int, j: int, size: Vec2i) -> PlacedBlock {
    let p = block_position_of(rows, cols, i, j, size);
    PlacedBlock {
        block: Block { block_type: t },
        position: Vec2i { x: p.x as i64, y: p.y as i64 },
        half_extents: size,
    }
}

/// The blocks of the first `j` tiles of row `i`, left to right.
pub open spec fn row_blocks(tiles: Seq<Vec<String>>, i: int, j: int, size: Vec2i) -> Seq<PlacedBlock>
    decreases j,
{
    if j <= 0 {
        Seq::empty()
    } else {
        let before = row_blocks(tiles, i, j - 1, size);
        match tile_kind(tiles[i]@[j - 1]@) {
            Some(Some(t)) => before.push(
                placed_at(t, tiles.len() as int, tiles[i].len() as int, i, j - 1, size),
            ),
            _ => before,
        }
    }
}

/// The blocks of the first `i` rows, row by row.
pub open spec fn grid_blocks(tiles: Seq<Vec<String>>, i: int, size: Vec2i) -> Seq<PlacedBlock>
    decreases i,
{
    if i <= 0 {
        Seq::empty()
    } else {
        grid_blocks(tiles, i - 1, size) + row_blocks(tiles, i - 1, tiles[i - 1].len() as int, size)
    }
}

/// Every tile names a block or a gap.
pub open spec fn grid_valid(tiles: Seq<Vec<String>>) -> bool {
    forall|i: int, j: int|
        0 <= i < tiles.len() && 0 <= j < tiles[i].len() ==> #[trigger] tile_kind(tiles[i]@[j]@)
            is Some
}

/// Sizes the layout arithmetic holds for.
pub open spec fn grid_fits(tiles: Seq<Vec<String>>, size: Vec2i) -> bool {
    &&& tiles.len() <= MAX_GRID
    &&& forall|i: int| 0 <= i < tiles.len() ==> #[trigger] tiles[i].len() <= MAX_GRID
    &&& 0 <= size.x <= COORD_LIMIT
    &&& 0 <= size.y <= COORD_LIMIT
}

/// Position of the block at row `i`, column `j` of a `rows` by `cols` grid.
fn block_position(rows: usize, cols: usize, i: usize, j: usize, size: Vec2i) -> (r: Vec2i)
    requires
        1 <= rows <= MAX_GRID,
        1 <= cols <= MAX_GRID,
        i < rows,
        j < cols,
        0 <= size.x <= COORD_LIMIT,
        0 <= size.y <= COORD_LIMIT,
    ensures
        r.x == block_position_of(rows as int, cols as int, i as int, j as int, size).x,
        r.y == block_position_of(rows as int, cols as int, i as int, j as int, size).y,
{
    let w = size.x as i128;
    let h = size.y as i128;
    let n = cols as i128;
    let m = rows as i128;
    let a = i as i128;
    let b = j as i128;
    let g: i128 = 10_000;
    let lim: i128 = 0x400_0000_0000_0000;
    assert(0 <= n * w <= lim && 0 <= (n - 1) * g <= lim && 0 <= 2 * b * (w + g) <= lim)
        by (nonlinear_arith)
        requires
            1 <= n <= 65536,
            0 <= b < 65536,
            0 <= w <= 0x100_0000_0000,
            g == 10_000,
            lim == 0x400_0000_0000_0000,
    ;
    assert(0 <= m * h <= lim && 0 <= (m - 1) * g <= lim && 0 <= 2 * a * (h + g) <= lim)
        by (nonlinear_arith)
        requires
            1 <= m <= 65536,
            0 <= a < 65536,
            0 <= h <= 0x100_0000_0000,
            g == 10_000,
            lim == 0x400_0000_0000_0000,
    ;
    let x = div_toward_zero(-(n * w + (n - 1) * g) + w + 2 * b * (w + g), 4);
    let y = div_toward_zero((m * h + (m - 1) * g) - h - 2 * a * (h + g), 4);
    Vec2i { x: x as i64, y: y as i64 }
}

/// Turns a level's grid of tiles into its blocks, row by row, left to right.
/// A tile that names no kind of block is an error.
pub fn load_current_level(tiles: &Vec<Vec<String>>, block_size: Vec2i) -> (r: Result<
    Vec<PlacedBlock>,
    LevelError,
>)
    requires
        grid_fits(tiles@, block_size),
    ensures
        match r {
            Ok(blocks) => grid_valid(tiles@) && blocks@ == grid_blocks(
                tiles@,
                tiles@.len() as int,
                block_size,
            ),
            Err(LevelError::InvalidBlockType(s)) => !grid_valid(tiles@) && exists|i: int, j: int|
                0 <= i < tiles@.len() && 0 <= j < tiles@[i]@.len() && s@ == tiles@[i]@[j]@
                    && #[trigger] tile_kind(tiles@[i]@[j]@) is None,
        },
{
    let mut out: Vec<PlacedBlock> = Vec::new();
    let rows = tiles.len();
    let mut i: usize = 0;
    while i < rows
        invariant
            rows == tiles@.len(),
            grid_fits(tiles@, block_size),
            0 <= i <= rows,
            out@ == grid_blocks(tiles@, i as int, block_size),
            forall|a: int, b: int|
                0 <= a < i && 0 <= b < tiles@[a].len() ==> #[trigger] tile_kind(tiles@[a]@[b]@)
                    is Some,
        decreases rows - i,
    {
        let row = &tiles[i];
        let cols = row.len();
        let ghost base = out@;
        let mut j: usize = 0;
        while j < cols
            invariant
                rows == tiles@.len(),
                grid_fits(tiles@, block_size),
                0 <= i < rows,
                *row == tiles@[i as int],
                cols == row@.len(),
                0 <= j <= cols,
                base == grid_blocks(tiles@, i as int, block_size),
                out@ == base + row_blocks(tiles@, i as int, j as int, block_size),
                forall|a: int, b: int|
                    0 <= a < i && 0 <= b < tiles@[a].len() ==> #[trigger] tile_kind(
                        tiles@[a]@[b]@,
                    ) is Some,
                forall|b: int| 0 <= b < j ==> #[trigger] tile_kind(tiles@[i as int]@[b]@) is Some,
            decreases cols - j,
        {
            let kind = block_type_of_tile(&row[j]);
            match kind {
                Err(e) => {
                    assert(tile_kind(tiles@[i as int]@[j as int]@) is None);
                    return Err(e);
                },
                Ok(None) => {},
                Ok(Some(t)) => {
                    let position = block_position(rows, cols, i, j, block_size);
                    out.push(PlacedBlock { block: Block { block_type: t }, position, half_extents: block_size });
                    assert(out@ == base + row_blocks(tiles@, i as int, j + 1, block_size));
                },
            }
            j += 1;
        }
        assert(grid_blocks(tiles@, i + 1, block_size) == base + row_blocks(
            tiles@,
            i as int,
            cols as int,
            block_size,
        ));
        i += 1;
    }
    Ok(out)
}

/// Back to the first level.
pub fn reset_current_level(current_level: &mut CurrentLevel)
    ensures
        final(current_level).0 == 0,
{
    current_level.0 = 0;
}

/// Whether a level follows the current one.
pub fn has_next_level(level_count: usize, current_level: &CurrentLevel) -> (r: bool)
    ensures
        r == (level_count > current_level.0 + 1),
{
    current_level.0 < level_count && level_count - current_level.0 > 1
}

/// A released "next level" button moves on to the next level and plays it.
pub fn go_to_next_level(just_released: bool, current_level: &mut CurrentLevel, state: &mut GameState)
    requires
        old(current_level).0 < usize::MAX,
    ensures
        just_released ==> final(current_level).0 == old(current_level).0 + 1 && *final(state)
            == GameState::Playing,
        !just_released ==> *final(current_level) == *old(current_level) && *final(state) == *old(
            state,
        ),
{
    if just_released {
        current_level.0 = current_level.0 + 1;
        *state = GameState::Playing;
    }
}

} // verus!
