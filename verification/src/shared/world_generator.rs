//! Procedural world layout: a land/water grid, the 8-neighbour "blob" mask of
//! every cell, and the tile that each mask selects in a 7x7 tileset.
use std::collections::HashMap;
use vstd::prelude::*;

verus! {

/// The rows of a grid, each as a sequence.
pub open spec fn grid_view(m: &Vec<Vec<bool>>) -> Seq<Seq<bool>> {
    m@.map_values(|row: Vec<bool>| row@)
}

/// The value in column `x` of row `y`; `false` outside the grid (which may be ragged).
pub open spec fn cell(g: Seq<Seq<bool>>, x: int, y: int) -> bool {
    0 <= x && 0 <= y && y < g.len() && x < g[y].len() && g[y][x]
}

/// Reads `data[y][x]`, treating every position outside the grid as water.
fn get_value_safe(data: &Vec<Vec<bool>>, x: i32, y: i32) -> (r: bool)
    ensures
        r == cell(grid_view(data), x as int, y as int),
{
    if x < 0 || y < 0 {
        return false;
    }
    let yu = y as usize;
    let xu = x as usize;
    if yu < data.len() {
        let row = &data[yu];
        if xu < row.len() {
            row[xu]
        } else {
            false
        }
    } else {
        false
    }
}

/// `v` when `b` holds, else 0.
pub open spec fn bit(b: bool, v: int) -> int {
    if b {
        v
    } else {
        0
    }
}

/// The blob-tileset mask of a cell from its eight neighbours: edges weigh
/// N=1, E=4, S=16, W=64; a corner (NE=2, SE=8, SW=32, NW=128) only counts
/// when both edges next to it are set.
pub open spec fn blob_mask_of(
    n: bool,
    ne: bool,
    e: bool,
    se: bool,
    s: bool,
    sw: bool,
    w: bool,
    nw: bool,
) -> int {
    bit(n, 1) + bit(ne && n && e, 2) + bit(e, 4) + bit(se && s && e, 8) + bit(s, 16) + bit(
        sw && s && w,
        32,
    ) + bit(w, 64) + bit(nw && n && w, 128)
}

/// The mask of position (`r`, `c`): its neighbours are read through `cell`
/// with `r` as the column and `c` as the row, north being `r + 1`.
pub open spec fn tile_mask(g: Seq<Seq<bool>>, r: int, c: int) -> int {
    blob_mask_of(
        cell(g, r + 1, c),
        cell(g, r + 1, c + 1),
        cell(g, r, c + 1),
        cell(g, r - 1, c + 1),
        cell(g, r - 1, c),
        cell(g, r - 1, c - 1),
        cell(g, r, c - 1),
        cell(g, r + 1, c - 1),
    )
}

/// The mask of every position `i` of a `world_size` by `world_size` world,
/// in row-major order: position `i` is row `i / world_size`, column
/// `i % world_size`.
pub fn generate_terrain_mask(terrain_matrix: &Vec<Vec<bool>>, world_size: u64) -> (r: Vec<u8>)
    requires
        world_size * world_size <= i32::MAX,
    ensures
        r@.len() == world_size * world_size,
        forall|i: int|
            0 <= i < r@.len() ==> r@[i] as int == tile_mask(
                grid_view(terrain_matrix),
                i / world_size as int,
                i % world_size as int,
            ),
        forall|i: int| 0 <= i < r@.len() ==> corner_consistent(#[trigger] r@[i]),
{
    assert(world_size <= i32::MAX) by (nonlinear_arith)
        requires
            world_size * world_size <= i32::MAX,
    ;
    let total: u64 = world_size * world_size;
    let n: usize = total as usize;
    let ws: usize = world_size as usize;
    let ghost g = grid_view(terrain_matrix);
    let mut data: Vec<u8> = Vec::new();
    let mut i: usize = 0;
    while i < n
        invariant
            n == world_size * world_size,
            ws == world_size,
            n <= i32::MAX,
            i <= n,
            g == grid_view(terrain_matrix),
            data@.len() == i,
            forall|j: int|
                0 <= j < i ==> data@[j] as int == tile_mask(g, j / ws as int, j % ws as int),
        decreases n - i,
    {
        assert(ws > 0 && ws <= n) by (nonlinear_arith)
            requires
                i < n,
                n == ws * ws,
        ;
        let row: usize = i / ws;
        let col: usize = i % ws;
        assert(row < ws) by (nonlinear_arith)
            requires
                row == i / ws,
                i < n,
                n == ws * ws,
                ws > 0,
        ;
        let r: i32 = row as i32;
        let c: i32 = col as i32;
        let north = get_value_safe(terrain_matrix, r + 1, c);
        let south = get_value_safe(terrain_matrix, r - 1, c);
        let west = get_value_safe(terrain_matrix, r, c - 1);
        let east = get_value_safe(terrain_matrix, r, c + 1);
        let north_west = get_value_safe(terrain_matrix, r + 1, c - 1);
        let north_east = get_value_safe(terrain_matrix, r + 1, c + 1);
        let south_west = get_value_safe(terrain_matrix, r - 1, c - 1);
        let south_east = get_value_safe(terrain_matrix, r - 1, c + 1);

        let ne_bit: u8 = if north_east && north && east {
            2
        } else {
            0
        };
        let se_bit: u8 = if south_east && south && east {
            8
        } else {
            0
        };
        let sw_bit: u8 = if south_west && south && west {
            32
        } else {
            0
        };
        let nw_bit: u8 = if north_west && north && west {
            128
        } else {
            0
        };
        let n_bit: u8 = if north {
            1
        } else {
            0
        };
        let e_bit: u8 = if east {
            4
        } else {
            0
        };
        let s_bit: u8 = if south {
            16
        } else {
            0
        };
        let w_bit: u8 = if west {
            64
        } else {
            0
        };
        let mask: u8 = n_bit + ne_bit + e_bit + se_bit + s_bit + sw_bit + w_bit + nw_bit;
        data.push(mask);
        i = i + 1;
    }
    assert forall|j: int| 0 <= j < data@.len() implies corner_consistent(#[trigger] data@[j]) by {
        let row = j / ws as int;
        let col = j % ws as int;
        lemma_blob_mask_corner_consistent(
            cell(g, row + 1, col),
            cell(g, row + 1, col + 1),
            cell(g, row, col + 1),
            cell(g, row - 1, col + 1),
            cell(g, row - 1, col),
            cell(g, row - 1, col - 1),
            cell(g, row, col - 1),
            cell(g, row + 1, col - 1),
        );
    }
    data
}

/// Column `x` and row `y` of a tile in the 7x7 blob tileset.
#[derive(Clone, Copy, Debug, PartialEq, Eq, Structural)]
pub struct TileInfo {
    pub x: u32,
    pub y: u32,
}

/// The tileset entry of each blob mask; masks with no entry have no tile.
pub open spec fn tile_for_mask(m: u8) -> Option<TileInfo> {
    match m {
        0u8 => Some(TileInfo { x: 0, y: 0 }),
        4u8 => Some(TileInfo { x: 1, y: 0 }),
        92u8 => Some(TileInfo { x: 2, y: 0 }),
        124u8 => Some(TileInfo { x: 3, y: 0 }),
        116u8 => Some(TileInfo { x: 4, y: 0 }),
        80u8 => Some(TileInfo { x: 5, y: 0 }),
        16u8 => Some(TileInfo { x: 0, y: 1 }),
        20u8 => Some(TileInfo { x: 1, y: 1 }),
        87u8 => Some(TileInfo { x: 2, y: 1 }),
        223u8 => Some(TileInfo { x: 3, y: 1 }),
        241u8 => Some(TileInfo { x: 4, y: 1 }),
        21u8 => Some(TileInfo { x: 5, y: 1 }),
        64u8 => Some(TileInfo { x: 6, y: 1 }),
        29u8 => Some(TileInfo { x: 0, y: 2 }),
        117u8 => Some(TileInfo { x: 1, y: 2 }),
        85u8 => Some(TileInfo { x: 2, y: 2 }),
        71u8 => Some(TileInfo { x: 3, y: 2 }),
        221u8 => Some(TileInfo { x: 4, y: 2 }),
        125u8 => Some(TileInfo { x: 5, y: 2 }),
        112u8 => Some(TileInfo { x: 6, y: 2 }),
        31u8 => Some(TileInfo { x: 0, y: 3 }),
        253u8 => Some(TileInfo { x: 1, y: 3 }),
        113u8 => Some(TileInfo { x: 2, y: 3 }),
        28u8 => Some(TileInfo { x: 3, y: 3 }),
        127u8 => Some(TileInfo { x: 4, y: 3 }),
        247u8 => Some(TileInfo { x: 5, y: 3 }),
        209u8 => Some(TileInfo { x: 6, y: 3 }),
        23u8 => Some(TileInfo { x: 0, y: 4 }),
        199u8 => Some(TileInfo { x: 1, y: 4 }),
        213u8 => Some(TileInfo { x: 2, y: 4 }),
        95u8 => Some(TileInfo { x: 3, y: 4 }),
        255u8 => Some(TileInfo { x: 4, y: 4 }),
        245u8 => Some(TileInfo { x: 5, y: 4 }),
        81u8 => Some(TileInfo { x: 6, y: 4 }),
        5u8 => Some(TileInfo { x: 0, y: 5 }),
        84u8 => Some(TileInfo { x: 1, y: 5 }),
        93u8 => Some(TileInfo { x: 2, y: 5 }),
        119u8 => Some(TileInfo { x: 3, y: 5 }),
        215u8 => Some(TileInfo { x: 4, y: 5 }),
        193u8 => Some(TileInfo { x: 5, y: 5 }),
        17u8 => Some(TileInfo { x: 6, y: 5 }),
        1u8 => Some(TileInfo { x: 1, y: 6 }),
        7u8 => Some(TileInfo { x: 2, y: 6 }),
        197u8 => Some(TileInfo { x: 3, y: 6 }),
        69u8 => Some(TileInfo { x: 4, y: 6 }),
        68u8 => Some(TileInfo { x: 5, y: 6 }),
        65u8 => Some(TileInfo { x: 6, y: 6 }),
        _ => None,
    }
}

/// The tile table as a map from mask to tileset position.
pub open spec fn tile_table() -> Map<u8, TileInfo> {
    Map::new(|m: u8| tile_for_mask(m) is Some, |m: u8| tile_for_mask(m)->0)
}

/// Builds the table from blob masks to tileset positions.
pub fn tile_masks() -> (r: HashMap<u8, TileInfo>)
    ensures
        r@ == tile_table(),
        forall|k: u8|
            #[trigger] r@.contains_key(k) ==> r@[k].x < 7 && r@[k].y < 7 && tileset_slot(
                r@[k].x as int,
                r@[k].y as int,
            ) == k as int,
{
    broadcast use vstd::std_specs::hash::group_hash_axioms;

    let mut m: HashMap<u8, TileInfo> = HashMap::new();
    m.insert(0, TileInfo { x: 0, y: 0 });
    m.insert(4, TileInfo { x: 1, y: 0 });
    m.insert(92, TileInfo { x: 2, y: 0 });
    m.insert(124, TileInfo { x: 3, y: 0 });
    m.insert(116, TileInfo { x: 4, y: 0 });
    m.insert(80, TileInfo { x: 5, y: 0 });
    m.insert(16, TileInfo { x: 0, y: 1 });
    m.insert(20, TileInfo { x: 1, y: 1 });
    m.insert(87, TileInfo { x: 2, y: 1 });
    m.insert(223, TileInfo { x: 3, y: 1 });
    m.insert(241, TileInfo { x: 4, y: 1 });
    m.insert(21, TileInfo { x: 5, y: 1 });
    m.insert(64, TileInfo { x: 6, y: 1 });
    m.insert(29, TileInfo { x: 0, y: 2 });
    m.insert(117, TileInfo { x: 1, y: 2 });
    m.insert(85, TileInfo { x: 2, y: 2 });
    m.insert(71, TileInfo { x: 3, y: 2 });
    m.insert(221, TileInfo { x: 4, y: 2 });
    m.insert(125, TileInfo { x: 5, y: 2 });
    m.insert(112, TileInfo { x: 6, y: 2 });
    m.insert(31, TileInfo { x: 0, y: 3 });
    m.insert(253, TileInfo { x: 1, y: 3 });
    m.insert(113, TileInfo { x: 2, y: 3 });
    m.insert(28, TileInfo { x: 3, y: 3 });
    m.insert(127, TileInfo { x: 4, y: 3 });
    m.insert(247, TileInfo { x: 5, y: 3 });
    m.insert(209, TileInfo { x: 6, y: 3 });
    m.insert(23, TileInfo { x: 0, y: 4 });
    m.insert(199, TileInfo { x: 1, y: 4 });
    m.insert(213, TileInfo { x: 2, y: 4 });
    m.insert(95, TileInfo { x: 3, y: 4 });
    m.insert(255, TileInfo { x: 4, y: 4 });
    m.insert(245, TileInfo { x: 5, y: 4 });
    m.insert(81, TileInfo { x: 6, y: 4 });
    m.insert(5, TileInfo { x: 0, y: 5 });
    m.insert(84, TileInfo { x: 1, y: 5 });
    m.insert(93, TileInfo { x: 2, y: 5 });
    m.insert(119, TileInfo { x: 3, y: 5 });
    m.insert(215, TileInfo { x: 4, y: 5 });
    m.insert(193, TileInfo { x: 5, y: 5 });
    m.insert(17, TileInfo { x: 6, y: 5 });
    m.insert(1, TileInfo { x: 1, y: 6 });
    m.insert(7, TileInfo { x: 2, y: 6 });
    m.insert(197, TileInfo { x: 3, y: 6 });
    m.insert(69, TileInfo { x: 4, y: 6 });
    m.insert(68, TileInfo { x: 5, y: 6 });
    m.insert(65, TileInfo { x: 6, y: 6 });
    assert(m@ =~= tile_table());
    assert forall|k: u8| #[trigger] m@.contains_key(k) implies m@[k].x < 7 && m@[k].y < 7
        && tileset_slot(m@[k].x as int, m@[k].y as int) == k as int by {
        lemma_tile_of_mask_shows_it(k);
    }
    m
}

/// Whether every corner bit of `m` comes with both edge bits next to it
/// (NE with N and E, SE with S and E, SW with S and W, NW with N and W).
pub open spec fn corner_consistent(m: u8) -> bool {
    &&& (m & 2 == 0 || m & 5 == 5)
    &&& (m & 8 == 0 || m & 20 == 20)
    &&& (m & 32 == 0 || m & 80 == 80)
    &&& (m & 128 == 0 || m & 65 == 65)
}

/// The masks that have an entry in the tile table, listed.
pub open spec fn listed_mask(m: u8) -> bool {
    m == 0 || m == 4 || m == 92 || m == 124 || m == 116 || m == 80 || m == 16 || m == 20 || m == 87 || m == 223 || m == 241 || m == 21 || m == 64 || m == 29 || m == 117 || m == 85 || m == 71 || m == 221 || m == 125 || m == 112 || m == 31 || m == 253 || m == 113 || m == 28 || m == 127 || m == 247 || m == 209 || m == 23 || m == 199 || m == 213 || m == 95 || m == 255 || m == 245 || m == 81 || m == 5 || m == 84 || m == 93 || m == 119 || m == 215 || m == 193 || m == 17 || m == 1 || m == 7 || m == 197 || m == 69 || m == 68 || m == 65
}

/// The tile table has an entry for a mask exactly when the mask is corner
/// consistent: it covers the 47 blob masks and nothing else.
pub proof fn lemma_tile_table_domain(m: u8)
    ensures
        tile_table().contains_key(m) <==> corner_consistent(m),
{
    assert(tile_for_mask(m) is Some <==> listed_mask(m));
    assert(listed_mask(m) <==> corner_consistent(m)) by (bit_vector);
}

/// Every mask built from eight neighbours has a tile.
pub proof fn lemma_blob_mask_has_tile(
    n: bool,
    ne: bool,
    e: bool,
    se: bool,
    s: bool,
    sw: bool,
    w: bool,
    nw: bool,
)
    ensures
        0 <= blob_mask_of(n, ne, e, se, s, sw, w, nw) < 256,
        tile_table().contains_key(blob_mask_of(n, ne, e, se, s, sw, w, nw) as u8),
{
    assert(listed_mask(blob_mask_of(n, ne, e, se, s, sw, w, nw) as u8));
}

/// Every mask built from eight neighbours is corner consistent.
pub proof fn lemma_blob_mask_corner_consistent(
    n: bool,
    ne: bool,
    e: bool,
    se: bool,
    s: bool,
    sw: bool,
    w: bool,
    nw: bool,
)
    ensures
        corner_consistent(blob_mask_of(n, ne, e, se, s, sw, w, nw) as u8),
{
    lemma_blob_mask_has_tile(n, ne, e, se, s, sw, w, nw);
    lemma_tile_table_domain(blob_mask_of(n, ne, e, se, s, sw, w, nw) as u8);
}

/// Different masks select different tiles, each inside the 49-tile texture.
pub proof fn lemma_tile_textures_distinct(a: u8, b: u8)
    requires
        tile_table().contains_key(a),
        tile_table().contains_key(b),
        a != b,
    ensures
        texture_index_of(tile_table()[a]) != texture_index_of(tile_table()[b]),
        texture_index_of(tile_table()[a]) < 49,
{
}


/// A tile to place: column `x`, row `y`, and its index in the tileset texture.
#[derive(Clone, Copy, Debug, PartialEq, Eq, Structural)]
pub struct TilePlacement {
    pub x: u32,
    pub y: u32,
    pub texture_index: u32,
}

/// Index of a tileset entry in the texture, read row by row with 7 tiles per row.
pub open spec fn texture_index_of(t: TileInfo) -> u32 {
    (t.y * 7 + t.x) as u32
}

/// The tile for mask position `i`, if its mask has one: position `i` is row
/// `i / world_size` and column `i % world_size` (computed in `u32`); a
/// position whose grid cell (read with the row as `x` and the column as `y`)
/// is water gets mask 0.
pub open spec fn placement_at(g: Seq<Seq<bool>>, masks: Seq<u8>, world_size: u64, i: int) -> Option<
    TilePlacement,
> {
    let ws = world_size as u32;
    let iu = i as u32;
    let r = iu / ws;
    let c = iu % ws;
    let is_land = cell(g, r as i32 as int, c as i32 as int);
    let m: u8 = if is_land {
        masks[i]
    } else {
        0u8
    };
    if tile_table().contains_key(m) {
        Some(TilePlacement { x: c, y: r, texture_index: texture_index_of(tile_table()[m]) })
    } else {
        None
    }
}

/// The placements of the first `n` mask positions, in order, skipping those without a tile.
pub open spec fn planned_tiles(g: Seq<Seq<bool>>, masks: Seq<u8>, world_size: u64, n: nat) -> Seq<
    TilePlacement,
>
    decreases n,
{
    if n == 0 {
        Seq::empty()
    } else {
        let prev = planned_tiles(g, masks, world_size, (n - 1) as nat);
        match placement_at(g, masks, world_size, n - 1) {
            Some(p) => prev.push(p),
            None => prev,
        }
    }
}

/// The tiles that fill the tilemap: one per mask position that has a tile in the table.
pub fn fill_tilemap_render(world_size: u64, terrain_matrix: &Vec<Vec<bool>>, tilemap_masks: &Vec<u8>) -> (r:
    Vec<TilePlacement>)
    requires
        tilemap_masks@.len() == 0 || world_size as u32 != 0,
    ensures
        r@ == planned_tiles(
            grid_view(terrain_matrix),
            tilemap_masks@,
            world_size,
            tilemap_masks@.len(),
        ),
{
    broadcast use vstd::std_specs::hash::group_hash_axioms;

    let tiles = tile_masks();
    let ghost g = grid_view(terrain_matrix);
    #[verifier::truncate]
    let ws: u32 = world_size as u32;
    let mut out: Vec<TilePlacement> = Vec::new();
    let mut i: usize = 0;
    while i < tilemap_masks.len()
        invariant
            tiles@ == tile_table(),
            g == grid_view(terrain_matrix),
            ws == world_size as u32,
            tilemap_masks@.len() == 0 || ws != 0,
            i <= tilemap_masks@.len(),
            out@ == planned_tiles(g, tilemap_masks@, world_size, i as nat),
        decreases tilemap_masks@.len() - i,
    {
        #[verifier::truncate]
        let iu: u32 = i as u32;
        let r: u32 = iu / ws;
        let c: u32 = iu % ws;
        #[verifier::truncate]
        let ri: i32 = r as i32;
        #[verifier::truncate]
        let ci: i32 = c as i32;
        let is_land = get_value_safe(terrain_matrix, ri, ci);
        let mut mask: u8 = tilemap_masks[i];
        if !is_land {
            mask = 0u8;
        }
        match tiles.get(&mask) {
            Some(tile_info) => {
                proof {
                    lemma_tile_positions_small(mask);
                }
                let texture_index: u32 = tile_info.y * 7 + tile_info.x;
                out.push(TilePlacement { x: c, y: r, texture_index });
            },
            None => {},
        }
        i = i + 1;
    }
    out
}

/// Every tileset position in the table lies in the 7x7 grid.
pub proof fn lemma_tile_positions_small(m: u8)
    ensures
        tile_table().contains_key(m) ==> tile_table()[m].x < 7 && tile_table()[m].y < 7,
{
}

/// The square grid of side `world_size` whose cell in row `row`, column `col`
/// is `land[row * world_size + col]`, and water past the end of `land`.
pub open spec fn land_grid(land: Seq<bool>, world_size: nat) -> Seq<Seq<bool>> {
    Seq::new(
        world_size,
        |row: int|
            Seq::new(
                world_size,
                |col: int| row * world_size + col < land.len() && land[row * world_size + col],
            ),
    )
}

/// Lays the land flags of the world out row by row into a square grid.
pub fn generate_terrain_matrix(land: &Vec<bool>, world_size: u64) -> (r: Vec<Vec<bool>>)
    requires
        world_size * world_size <= usize::MAX,
        land@.len() <= world_size * world_size,
    ensures
        grid_view(&r) == land_grid(land@, world_size as nat),
        r@.len() == world_size,
        forall|row: int| 0 <= row < world_size ==> #[trigger] r@[row]@.len() == world_size,
        forall|row: int, col: int|
            0 <= row < world_size && 0 <= col < world_size ==> #[trigger] r@[row]@[col] == (row
                * world_size + col < land@.len() && land@[row * world_size + col]),
{
    assert(world_size <= usize::MAX) by (nonlinear_arith)
        requires
            world_size * world_size <= usize::MAX,
    ;
    let ws: usize = world_size as usize;
    let ghost target = land_grid(land@, world_size as nat);
    let mut data: Vec<Vec<bool>> = Vec::new();
    let mut row: usize = 0;
    while row < ws
        invariant
            ws == world_size,
            ws * ws <= usize::MAX,
            target == land_grid(land@, world_size as nat),
            row <= ws,
            data@.len() == row,
            forall|k: int| 0 <= k < row ==> #[trigger] data@[k]@ == target[k],
        decreases ws - row,
    {
        let mut line: Vec<bool> = Vec::new();
        let mut col: usize = 0;
        while col < ws
            invariant
                ws == world_size,
                ws * ws <= usize::MAX,
                target == land_grid(land@, world_size as nat),
                row < ws,
                col <= ws,
                line@.len() == col,
                forall|k: int| 0 <= k < col ==> #[trigger] line@[k] == target[row as int][k],
            decreases ws - col,
        {
            assert(row * ws + col < ws * ws) by (nonlinear_arith)
                requires
                    row < ws,
                    col < ws,
            ;
            let idx: usize = row * ws + col;
            let v: bool = idx < land.len() && land[idx];
            line.push(v);
            col = col + 1;
        }
        assert(line@ =~= target[row as int]);
        data.push(line);
        row = row + 1;
    }
    assert(grid_view(&data) =~= target);
    proof {
        lemma_land_grid_layout(land@, world_size as nat);
        assert forall|row: int| 0 <= row < world_size implies #[trigger] data@[row]@.len()
            == world_size by {
            assert(data@[row]@ == grid_view(&data)[row]);
        }
        assert forall|row: int, col: int|
            0 <= row < world_size && 0 <= col < world_size implies #[trigger] data@[row]@[col] == (
        row * world_size + col < land@.len() && land@[row * world_size + col]) by {
            assert(data@[row]@ == grid_view(&data)[row]);
        }
    }
    data
}

/// Flag `k` is the cell in row `k / world_size`, column `k % world_size`.
pub proof fn lemma_flag_cell(land: Seq<bool>, world_size: nat, k: int)
    requires
        land.len() <= world_size * world_size,
        0 <= k < land.len(),
    ensures
        world_size > 0,
        0 <= k / world_size as int,
        k / world_size as int <= world_size - 1,
        0 <= k % world_size as int,
        k % world_size as int <= world_size - 1,
        (k / world_size as int) * world_size + k % world_size as int == k,
        land_grid(land, world_size)[k / world_size as int][k % world_size as int] == land[k],
{
    let w = world_size as int;
    let row = k / w;
    let col = k % w;
    assert(w > 0 && 0 <= row < w && 0 <= col < w && row * w + col == k) by (nonlinear_arith)
        requires
            0 <= k < land.len(),
            land.len() <= w * w,
            row == k / w,
            col == k % w,
            w >= 0,
    ;
    assert(land_grid(land, world_size)[row][col] == (row * w + col < land.len() && land[row * w
        + col]));
}

/// Distinct cells of a `world_size` by `world_size` grid read distinct
/// flags: no flag is shown twice.
pub proof fn lemma_cells_read_distinct_flags(world_size: nat, r1: int, c1: int, r2: int, c2: int)
    requires
        0 <= r1 < world_size,
        0 <= c1 < world_size,
        0 <= r2 < world_size,
        0 <= c2 < world_size,
        r1 != r2 || c1 != c2,
    ensures
        r1 * world_size + c1 != r2 * world_size + c2,
{
    let w = world_size as int;
    assert(r1 * w + c1 != r2 * w + c2) by (nonlinear_arith)
        requires
            0 <= r1 < w,
            0 <= c1 < w,
            0 <= r2 < w,
            0 <= c2 < w,
            r1 != r2 || c1 != c2,
    ;
}

/// The land grid lays the flags out row by row: the grid is `world_size` by
/// `world_size`; its cell in row `row`, column `col` is flag
/// `row * world_size + col` (water past the last flag).
pub proof fn lemma_land_grid_layout(land: Seq<bool>, world_size: nat)
    requires
        land.len() <= world_size * world_size,
    ensures
        land_grid(land, world_size).len() == world_size,
        forall|row: int|
            0 <= row < world_size ==> #[trigger] land_grid(land, world_size)[row].len()
                == world_size,
        forall|row: int, col: int|
            0 <= row < world_size && 0 <= col < world_size ==> #[trigger] land_grid(
                land,
                world_size,
            )[row][col] == (row * world_size + col < land.len() && land[row * world_size + col]),
{
}

/// The mask used for the tile of world position (`r`, `c`): the blob mask of
/// the position when the grid cell read at (`r`, `c`) is land, else 0.
pub open spec fn effective_mask(g: Seq<Seq<bool>>, r: int, c: int) -> u8 {
    if cell(g, r, c) {
        tile_mask(g, r, c) as u8
    } else {
        0u8
    }
}

/// When every one of the first `n` positions has a tile, the plan holds
/// exactly those `n` tiles, in order.
proof fn lemma_planned_all(g: Seq<Seq<bool>>, masks: Seq<u8>, world_size: u64, n: nat)
    requires
        forall|i: int| 0 <= i < n ==> #[trigger] placement_at(g, masks, world_size, i) is Some,
    ensures
        planned_tiles(g, masks, world_size, n).len() == n,
        forall|i: int|
            0 <= i < n ==> planned_tiles(g, masks, world_size, n)[i] == placement_at(
                g,
                masks,
                world_size,
                i,
            )->0,
    decreases n,
{
    if n > 0 {
        lemma_planned_all(g, masks, world_size, (n - 1) as nat);
        assert(placement_at(g, masks, world_size, n - 1) is Some);
    }
}

/// Builds the tile layout of a `world_size` by `world_size` world from its land
/// flags (row by row): the land grid, the blob mask of every position, and
/// the tiles those masks select.
pub fn shared_world_generator(land: &Vec<bool>, world_size: u64) -> (r: Vec<TilePlacement>)
    requires
        world_size * world_size <= i32::MAX,
        land@.len() <= world_size * world_size,
    ensures
        r@.len() == world_size * world_size,
        forall|i: int|
            0 <= i < r@.len() ==> #[trigger] r@[i] == ({
                let row = i / world_size as int;
                let col = i % world_size as int;
                TilePlacement {
                    x: col as u32,
                    y: row as u32,
                    texture_index: texture_index_of(
                        tile_table()[effective_mask(
                            land_grid(land@, world_size as nat),
                            row,
                            col,
                        )],
                    ),
                }
            }),
{
    let terrain_matrix = generate_terrain_matrix(land, world_size);
    let tileset_mask = generate_terrain_mask(&terrain_matrix, world_size);
    assert(tileset_mask@.len() == 0 || world_size as u32 != 0) by (nonlinear_arith)
        requires
            tileset_mask@.len() == world_size * world_size,
            world_size * world_size <= i32::MAX,
    ;
    let tiles = fill_tilemap_render(world_size, &terrain_matrix, &tileset_mask);
    proof {
        let g = grid_view(&terrain_matrix);
        let masks = tileset_mask@;
        let n = masks.len();
        assert forall|i: int| 0 <= i < n implies #[trigger] placement_at(
            g,
            masks,
            world_size,
            i,
        ) == Some(
            TilePlacement {
                x: (i % world_size as int) as u32,
                y: (i / world_size as int) as u32,
                texture_index: texture_index_of(
                    tile_table()[effective_mask(g, i / world_size as int, i % world_size as int)],
                ),
            },
        ) by {
            let row = i / world_size as int;
            let col = i % world_size as int;
            assert(0 <= row < world_size && 0 <= col < world_size) by (nonlinear_arith)
                requires
                    0 <= i < world_size * world_size,
                    row == i / world_size as int,
                    col == i % world_size as int,
            ;
            assert(world_size <= i32::MAX) by (nonlinear_arith)
                requires
                    0 <= i < world_size * world_size,
                    world_size * world_size <= i32::MAX,
            ;
            lemma_blob_mask_has_tile(
                cell(g, row + 1, col),
                cell(g, row + 1, col + 1),
                cell(g, row, col + 1),
                cell(g, row - 1, col + 1),
                cell(g, row - 1, col),
                cell(g, row - 1, col - 1),
                cell(g, row, col - 1),
                cell(g, row + 1, col - 1),
            );
            assert(tile_table().contains_key(0u8));
        }
        lemma_planned_all(g, masks, world_size, n);
    }
    tiles
}

/// The two characters drawn for a land cell or a water cell.
pub open spec fn land_symbol(b: bool) -> Seq<char> {
    if b {
        "\u{2588}\u{2588}"@
    } else {
        "  "@
    }
}

/// The drawing of one grid row.
pub open spec fn row_text(row: Seq<bool>) -> Seq<char>
    decreases row.len(),
{
    if row.len() == 0 {
        Seq::empty()
    } else {
        row_text(row.drop_last()) + land_symbol(row.last())
    }
}

/// The drawing of the grid rows, each followed by a line break.
pub open spec fn rows_text(g: Seq<Seq<bool>>) -> Seq<char>
    decreases g.len(),
{
    if g.len() == 0 {
        Seq::empty()
    } else {
        rows_text(g.drop_last()) + row_text(g.last()) + "\n"@
    }
}

/// The framed drawing of a land grid.
pub open spec fn terrain_text(g: Seq<Seq<bool>>) -> Seq<char> {
    "\n--- World Map ---\n"@ + rows_text(g) + "------------------\n"@
}

/// Draws the land grid as text, two characters per cell and one line per row.
pub fn terrain_matrix_text(data: &Vec<Vec<bool>>) -> (r: String)
    ensures
        r@ == terrain_text(grid_view(data)),
{
    let ghost g = grid_view(data);
    let mut output = String::new();
    output.append("\n--- World Map ---\n");
    let mut i: usize = 0;
    while i < data.len()
        invariant
            g == grid_view(data),
            i <= data@.len(),
            output@ == "\n--- World Map ---\n"@ + rows_text(g.take(i as int)),
        decreases data@.len() - i,
    {
        let row = &data[i];
        let ghost before = output@;
        let mut j: usize = 0;
        while j < row.len()
            invariant
                i < data@.len(),
                row@ == g[i as int],
                j <= row@.len(),
                output@ == before + row_text(row@.take(j as int)),
            decreases row@.len() - j,
        {
            if row[j] {
                output.append("\u{2588}\u{2588}");
            } else {
                output.append("  ");
            }
            assert(row@.take(j + 1).drop_last() =~= row@.take(j as int));
            j = j + 1;
        }
        assert(row@.take(row@.len() as int) =~= row@);
        output.append("\n");
        assert(g.take(i + 1).drop_last() =~= g.take(i as int));
        i = i + 1;
    }
    assert(g.take(data@.len() as int) =~= g);
    output.append("------------------\n");
    output
}

/// The decimal digit `d` as text.
pub open spec fn digit_text(d: int) -> Seq<char> {
    if d == 0 {
        "0"@
    } else if d == 1 {
        "1"@
    } else if d == 2 {
        "2"@
    } else if d == 3 {
        "3"@
    } else if d == 4 {
        "4"@
    } else if d == 5 {
        "5"@
    } else if d == 6 {
        "6"@
    } else if d == 7 {
        "7"@
    } else if d == 8 {
        "8"@
    } else {
        "9"@
    }
}

/// The decimal representation of `n`, without leading zeros.
pub open spec fn decimal_text(n: nat) -> Seq<char>
    decreases n,
{
    if n < 10 {
        digit_text(n as int)
    } else {
        decimal_text(n / 10) + digit_text((n % 10) as int)
    }
}

/// A mask right-aligned in a field of two characters, then a space.
pub open spec fn mask_cell_text(m: u8) -> Seq<char> {
    (if m < 10 {
        " "@
    } else {
        Seq::empty()
    }) + decimal_text(m as nat) + " "@
}

pub(crate) fn digit_str(d: u8) -> (r: &'static str)
    requires
        d < 10,
    ensures
        r@ == digit_text(d as int),
{
    if d == 0 {
        "0"
    } else if d == 1 {
        "1"
    } else if d == 2 {
        "2"
    } else if d == 3 {
        "3"
    } else if d == 4 {
        "4"
    } else if d == 5 {
        "5"
    } else if d == 6 {
        "6"
    } else if d == 7 {
        "7"
    } else if d == 8 {
        "8"
    } else {
        "9"
    }
}

fn append_mask_cell(output: &mut String, m: u8)
    ensures
        final(output)@ == old(output)@ + mask_cell_text(m),
{
    proof {
        reveal_with_fuel(decimal_text, 3);
    }
    if m < 10 {
        output.append(" ");
        output.append(digit_str(m));
    } else if m < 100 {
        output.append(digit_str(m / 10));
        output.append(digit_str(m % 10));
    } else {
        assert(m / 10 / 10 == m / 100);
        output.append(digit_str(m / 100));
        output.append(digit_str((m / 10) % 10));
        output.append(digit_str(m % 10));
    }
    output.append(" ");
}

/// The cells of row `y` of a `size`-wide mask grid, up to column `cols`.
pub open spec fn mask_row_text(masks: Seq<u8>, size: int, y: int, cols: nat) -> Seq<char>
    decreases cols,
{
    if cols == 0 {
        Seq::empty()
    } else {
        mask_row_text(masks, size, y, (cols - 1) as nat) + mask_cell_text(
            masks[y * size + cols - 1],
        )
    }
}

/// The first `rows` rows of a `size` by `size` mask grid, each followed by a line break.
pub open spec fn mask_rows_text(masks: Seq<u8>, size: int, rows: nat) -> Seq<char>
    decreases rows,
{
    if rows == 0 {
        Seq::empty()
    } else {
        mask_rows_text(masks, size, (rows - 1) as nat) + mask_row_text(
            masks,
            size,
            rows - 1,
            size as nat,
        ) + "\n"@
    }
}

/// The framed table of the masks of a `size` by `size` world.
pub open spec fn mask_matrix_spec(masks: Seq<u8>, size: int) -> Seq<char> {
    "\n--- Tileset Masks (Hex/Dec) ---\n"@ + mask_rows_text(masks, size, size as nat)
        + "-------------------------------\n"@
}

/// Writes the masks of the world as a table, one row of the world per line.
pub fn mask_matrix_text(masks: &Vec<u8>, world_size: u64) -> (r: String)
    requires
        masks@.len() >= world_size * world_size,
    ensures
        r@ == mask_matrix_spec(masks@, world_size as int),
{
    let masks_len = masks.len();
    assert(world_size * world_size <= usize::MAX);
    assert(world_size <= usize::MAX) by (nonlinear_arith)
        requires
            world_size * world_size <= usize::MAX,
    ;
    let size: usize = world_size as usize;
    let mut output = String::new();
    output.append("\n--- Tileset Masks (Hex/Dec) ---\n");
    let mut y: usize = 0;
    while y < size
        invariant
            size == world_size,
            masks@.len() >= size * size,
            size * size <= usize::MAX,
            y <= size,
            output@ == "\n--- Tileset Masks (Hex/Dec) ---\n"@ + mask_rows_text(
                masks@,
                size as int,
                y as nat,
            ),
        decreases size - y,
    {
        let ghost before = output@;
        let mut x: usize = 0;
        while x < size
            invariant
                size == world_size,
                masks@.len() >= size * size,
                size * size <= usize::MAX,
                y < size,
                x <= size,
                output@ == before + mask_row_text(masks@, size as int, y as int, x as nat),
            decreases size - x,
        {
            assert(y * size + x < size * size) by (nonlinear_arith)
                requires
                    y < size,
                    x < size,
            ;
            let index: usize = y * size + x;
            append_mask_cell(&mut output, masks[index]);
            x = x + 1;
        }
        output.append("\n");
        y = y + 1;
    }
    output.append("-------------------------------\n");
    output
}

/// Whether `m` is a mask with every bit set but one of NE, SW, NW or W.
pub open spec fn all_but_one_of_ne_sw_nw_w(m: u8) -> bool {
    m != 255 && (m | 2 == 255 || m | 32 == 255 || m | 128 == 255 || m | 64 == 255)
}

/// The dense map draws a full block for the full mask 255, a dark shade for
/// a mask missing exactly one of the NE, SW, NW or W bits, a medium shade
/// for any other mask above 100, a light shade for masks 1 to 100 and
/// blanks for 0.
pub proof fn lemma_dense_symbol_classes(m: u8)
    ensures
        m == 255 ==> dense_symbol(m) == "\u{2588}\u{2588}"@,
        all_but_one_of_ne_sw_nw_w(m) ==> dense_symbol(m) == "\u{2593}\u{2593}"@,
        m != 255 && !all_but_one_of_ne_sw_nw_w(m) && m > 100 ==> dense_symbol(m)
            == "\u{2592}\u{2592}"@,
        1 <= m <= 100 ==> dense_symbol(m) == "\u{2591}\u{2591}"@,
        m == 0 ==> dense_symbol(m) == "  "@,
{
    assert(all_but_one_of_ne_sw_nw_w(m) <==> (m == 127 || m == 253 || m == 223 || m == 191))
        by (bit_vector);
}

/// The two characters drawn for a mask in the dense map: full, nearly full,
/// medium, edge or empty.
pub open spec fn dense_symbol(m: u8) -> Seq<char> {
    if m == 255 {
        "\u{2588}\u{2588}"@
    } else if m == 127 || m == 253 || m == 223 || m == 191 {
        "\u{2593}\u{2593}"@
    } else if m > 100 {
        "\u{2592}\u{2592}"@
    } else if m > 0 {
        "\u{2591}\u{2591}"@
    } else {
        "  "@
    }
}

/// The dense drawing of a run of masks.
pub open spec fn dense_line(ms: Seq<u8>) -> Seq<char>
    decreases ms.len(),
{
    if ms.len() == 0 {
        Seq::empty()
    } else {
        dense_line(ms.drop_last()) + dense_symbol(ms.last())
    }
}

/// The number of runs of `width` masks (the last one possibly shorter) in `len` masks.
pub open spec fn chunk_count(len: int, width: int) -> int {
    (len + width - 1) / width
}

/// The first line printed before the dense map.
pub open spec fn dense_header() -> Seq<char> {
    "\n--- \u{1F5FA}\u{FE0F}  Visual World Map (8-bit masks) ---"@
}

/// The last line printed after the dense map.
pub open spec fn dense_footer() -> Seq<char> {
    "--- End of Map ---\n"@
}

/// The lines of the dense drawing of the masks: a header, one line per run
/// of `world_size` masks, and a footer.
pub fn dense_mask_lines(masks: &[u8], world_size: usize) -> (r: Vec<String>)
    requires
        world_size > 0,
    ensures
        r@.len() == chunk_count(masks@.len() as int, world_size as int) + 2,
        r@[0]@ == dense_header(),
        r@[r@.len() - 1]@ == dense_footer(),
        forall|k: int|
            0 <= k < r@.len() - 2 ==> #[trigger] r@[k + 1]@ == dense_line(
                masks@.subrange(
                    k * world_size,
                    if (k + 1) * world_size <= masks@.len() {
                        (k + 1) * world_size
                    } else {
                        masks@.len() as int
                    },
                ),
            ),
{
    let mut lines: Vec<String> = Vec::new();
    let mut header = String::new();
    header.append("\n--- \u{1F5FA}\u{FE0F}  Visual World Map (8-bit masks) ---");
    lines.push(header);
    let len = masks.len();
    let mut start: usize = 0;
    let ghost mut k: int = 0;
    while start < len
        invariant
            len == masks@.len(),
            world_size > 0,
            start == (if k * world_size <= len {
                k * world_size
            } else {
                len as int
            }),
            0 <= k,
            k == 0 || (k - 1) * world_size < len,
            start <= len,
            lines@.len() == k + 1,
            lines@[0]@ == dense_header(),
            forall|j: int|
                0 <= j < k ==> #[trigger] lines@[j + 1]@ == dense_line(
                    masks@.subrange(
                        j * world_size,
                        if (j + 1) * world_size <= masks@.len() {
                            (j + 1) * world_size
                        } else {
                            masks@.len() as int
                        },
                    ),
                ),
        decreases len - start,
    {
        assert(start == k * world_size);
        let end: usize = if len - start < world_size {
            len
        } else {
            start + world_size
        };
        assert(end == (if (k + 1) * world_size <= len {
            (k + 1) * world_size
        } else {
            len as int
        })) by (nonlinear_arith)
            requires
                start == k * world_size,
                start < len,
                end == (if len - start < world_size {
                    len as int
                } else {
                    start + world_size
                }),
        ;
        let mut line = String::new();
        let mut i: usize = start;
        while i < end
            invariant
                start <= i <= end,
                end <= len,
                len == masks@.len(),
                line@ == dense_line(masks@.subrange(start as int, i as int)),
            decreases end - i,
        {
            let m = masks[i];
            if m == 255 {
                line.append("\u{2588}\u{2588}");
            } else if m == 127 || m == 253 || m == 223 || m == 191 {
                line.append("\u{2593}\u{2593}");
            } else if m > 100 {
                line.append("\u{2592}\u{2592}");
            } else if m > 0 {
                line.append("\u{2591}\u{2591}");
            } else {
                line.append("  ");
            }
            assert(masks@.subrange(start as int, i + 1).drop_last() =~= masks@.subrange(
                start as int,
                i as int,
            ));
            i = i + 1;
        }
        lines.push(line);
        proof {
            assert((k + 1) * world_size == k * world_size + world_size) by (nonlinear_arith);
            assert(k * world_size < len);
            k = k + 1;
        }
        start = end;
    }
    assert(k == chunk_count(len as int, world_size as int)) by (nonlinear_arith)
        requires
            start == (if k * world_size <= len {
                k * world_size
            } else {
                len as int
            }),
            start >= len,
            k == 0 || (k - 1) * world_size < len,
            world_size > 0,
            0 <= k,
    ;
    let mut footer = String::new();
    footer.append("--- End of Map ---\n");
    lines.push(footer);
    lines
}

/// The picture of the 7x7 blob tileset, row by row: the mask whose tile is
/// drawn in column `x` of row `y`, or -1 for an unused slot.
pub open spec fn tileset_slot(x: int, y: int) -> int {
    let row: Seq<int> = if y == 0 {
        seq![0, 4, 92, 124, 116, 80, -1]
    } else if y == 1 {
        seq![16, 20, 87, 223, 241, 21, 64]
    } else if y == 2 {
        seq![29, 117, 85, 71, 221, 125, 112]
    } else if y == 3 {
        seq![31, 253, 113, 28, 127, 247, 209]
    } else if y == 4 {
        seq![23, 199, 213, 95, 255, 245, 81]
    } else if y == 5 {
        seq![5, 84, 93, 119, 215, 193, 17]
    } else {
        seq![-1, 1, 7, 197, 69, 68, 65]
    };
    row[x]
}

/// The table agrees with the tileset picture: the tile of every mask in the
/// table is a slot of the 7x7 tileset that shows that mask.
pub proof fn lemma_tile_of_mask_shows_it(m: u8)
    requires
        tile_table().contains_key(m),
    ensures
        tile_table()[m].x < 7,
        tile_table()[m].y < 7,
        tileset_slot(tile_table()[m].x as int, tile_table()[m].y as int) == m as int,
{
}

/// Every used slot of the tileset picture is the tile of the mask it shows.
pub proof fn lemma_tileset_slot_is_tile_of_its_mask(x: int, y: int)
    requires
        0 <= x < 7,
        0 <= y < 7,
        tileset_slot(x, y) >= 0,
    ensures
        0 <= tileset_slot(x, y) < 256,
        tile_table().contains_key(tileset_slot(x, y) as u8),
        tile_table()[tileset_slot(x, y) as u8] == (TileInfo { x: x as u32, y: y as u32 }),
{
    assert(0 <= tileset_slot(x, y) < 256);
}

} // verus!
