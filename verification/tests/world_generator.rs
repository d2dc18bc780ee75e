use game_core::shared::world_generator::{
    dense_mask_lines, fill_tilemap_render, generate_terrain_mask, generate_terrain_matrix,
    mask_matrix_text, shared_world_generator, terrain_matrix_text, tile_masks, TileInfo,
    TilePlacement,
};

fn corner_consistent(m: u8) -> bool {
    (m & 2 == 0 || m & 5 == 5)
        && (m & 8 == 0 || m & 20 == 20)
        && (m & 32 == 0 || m & 80 == 80)
        && (m & 128 == 0 || m & 65 == 65)
}

fn grid_a() -> Vec<Vec<bool>> {
    vec![
        vec![true, true, false],
        vec![false, true, true],
        vec![false, false, true],
    ]
}

#[test]
fn mask_of_full_three_by_three_grid() {
    let grid = vec![vec![true; 3]; 3];
    let masks = generate_terrain_mask(&grid, 3);
    assert_eq!(masks, vec![7, 199, 193, 31, 255, 241, 28, 124, 112]);
}

#[test]
fn mask_reads_grid_with_row_as_column() {
    // Position i is (r, c) = (i / 3, i % 3); its north neighbour is grid[c][r + 1].
    let masks = generate_terrain_mask(&grid_a(), 3);
    assert_eq!(masks, vec![1, 193, 0, 20, 65, 193, 28, 20, 64]);
}

#[test]
fn mask_of_ragged_grid_treats_missing_cells_as_water() {
    let grid = vec![vec![true], vec![true, true, true]];
    assert_eq!(generate_terrain_mask(&grid, 2), vec![4, 65, 28, 17]);
}

#[test]
fn mask_of_empty_world() {
    assert_eq!(generate_terrain_mask(&grid_a(), 0), Vec::<u8>::new());
}

#[test]
fn mask_of_single_cell_world_has_no_neighbours() {
    assert_eq!(generate_terrain_mask(&vec![vec![true]], 1), vec![0]);
}

#[test]
fn masks_are_corner_consistent() {
    // Corner bits only appear together with both neighbouring edge bits.
    let mut grid = Vec::new();
    for r in 0..9u32 {
        let mut row = Vec::new();
        for c in 0..9u32 {
            row.push((r * 7 + c * 3 + r * c) % 5 < 3);
        }
        grid.push(row);
    }
    let masks = generate_terrain_mask(&grid, 9);
    assert_eq!(masks.len(), 81);
    let table = tile_masks();
    for m in masks {
        assert!(corner_consistent(m), "mask {m}");
        assert!(table.contains_key(&m), "mask {m}");
    }
}

#[test]
fn terrain_matrix_lays_out_rows() {
    let land = vec![
        true, false, true, true, true, false, false, true, true, true, true, true, false, false,
        true, true,
    ];
    let m = generate_terrain_matrix(&land, 4);
    assert_eq!(
        m,
        vec![
            vec![true, false, true, true],
            vec![true, false, false, true],
            vec![true, true, true, true],
            vec![false, false, true, true],
        ]
    );
}

#[test]
fn terrain_matrix_pads_short_input_with_water() {
    let m = generate_terrain_matrix(&vec![true, true, true], 2);
    assert_eq!(m, vec![vec![true, true], vec![true, false]]);
    let empty = generate_terrain_matrix(&vec![], 0);
    assert!(empty.is_empty());
}

#[test]
fn tile_table_has_the_47_blob_masks() {
    let table = tile_masks();
    assert_eq!(table.len(), 47);
    assert_eq!(table.get(&0), Some(&TileInfo { x: 0, y: 0 }));
    assert_eq!(table.get(&255), Some(&TileInfo { x: 4, y: 4 }));
    assert_eq!(table.get(&65), Some(&TileInfo { x: 6, y: 6 }));
    assert_eq!(table.get(&3), None);
    for m in 0..=255u8 {
        assert_eq!(table.contains_key(&m), corner_consistent(m), "mask {m}");
    }
    // distinct masks use distinct tiles of the 7x7 tileset
    let mut seen = std::collections::HashSet::new();
    for info in table.values() {
        assert!(info.x < 7 && info.y < 7);
        assert!(seen.insert(info.y * 7 + info.x));
    }
}

#[test]
fn fill_places_tiles_for_masks_with_entries() {
    let grid = grid_a();
    let masks = generate_terrain_mask(&grid, 3);
    let tiles = fill_tilemap_render(3, &grid, &masks);
    let expected: Vec<TilePlacement> = [
        (0, 0, 43),
        (1, 0, 0),
        (2, 0, 0),
        (0, 1, 8),
        (1, 1, 48),
        (2, 1, 0),
        (0, 2, 0),
        (1, 2, 8),
        (2, 2, 13),
    ]
    .iter()
    .map(|&(x, y, t)| TilePlacement { x, y, texture_index: t })
    .collect();
    assert_eq!(tiles, expected);
}

#[test]
fn fill_skips_masks_without_a_tile() {
    // Mask 3 (N and NE without E) has no tile; water cells always use mask 0.
    let grid = vec![vec![true, true], vec![true, false]];
    let tiles = fill_tilemap_render(2, &grid, &vec![3, 3, 3, 3]);
    assert_eq!(
        tiles,
        vec![TilePlacement { x: 1, y: 1, texture_index: 0 }]
    );
}

#[test]
fn world_generator_places_one_tile_per_cell() {
    let land = vec![
        true, false, true, true, true, false, false, true, true, true, true, true, false, false,
        true, true,
    ];
    let tiles = shared_world_generator(&land, 4);
    let expected = [
        (0, 0, 1),
        (1, 0, 47),
        (2, 0, 48),
        (3, 0, 0),
        (0, 1, 0),
        (1, 1, 0),
        (2, 1, 41),
        (3, 1, 0),
        (0, 2, 43),
        (1, 2, 0),
        (2, 2, 28),
        (3, 2, 40),
        (0, 3, 8),
        (1, 3, 47),
        (2, 3, 2),
        (3, 3, 20),
    ];
    assert_eq!(tiles.len(), 16);
    for (i, (x, y, t)) in expected.iter().enumerate() {
        assert_eq!(tiles[i], TilePlacement { x: *x, y: *y, texture_index: *t });
    }
}

#[test]
fn world_generator_covers_a_large_world() {
    let ws: u64 = 64;
    let land: Vec<bool> = (0..(ws * ws)).map(|i| (i * 2654435761u64) % 7 < 4).collect();
    let tiles = shared_world_generator(&land, ws);
    assert_eq!(tiles.len() as u64, ws * ws);
    for (i, t) in tiles.iter().enumerate() {
        assert_eq!(t.x as u64, i as u64 % ws);
        assert_eq!(t.y as u64, i as u64 / ws);
        assert!(t.texture_index < 49);
    }
}

#[test]
fn terrain_text_draws_cells_and_rows() {
    let text = terrain_matrix_text(&vec![vec![true, false], vec![false, true]]);
    assert_eq!(
        text,
        "\n--- World Map ---\n\u{2588}\u{2588}  \n  \u{2588}\u{2588}\n------------------\n"
    );
    assert_eq!(
        terrain_matrix_text(&vec![]),
        "\n--- World Map ---\n------------------\n"
    );
}

#[test]
fn mask_text_pads_to_two_characters() {
    let text = mask_matrix_text(&vec![0, 7, 255, 16], 2);
    assert_eq!(
        text,
        "\n--- Tileset Masks (Hex/Dec) ---\n 0  7 \n255 16 \n-------------------------------\n"
    );
    assert_eq!(text, {
        let mut s = String::from("\n--- Tileset Masks (Hex/Dec) ---\n");
        for y in 0..2 {
            for x in 0..2 {
                s.push_str(&format!("{:2} ", [0u8, 7, 255, 16][y * 2 + x]));
            }
            s.push('\n');
        }
        s.push_str("-------------------------------\n");
        s
    });
}

#[test]
fn mask_text_uses_only_the_first_rows() {
    let text = mask_matrix_text(&vec![99, 100, 101, 5, 42], 1);
    assert_eq!(
        text,
        "\n--- Tileset Masks (Hex/Dec) ---\n99 \n-------------------------------\n"
    );
}

#[test]
fn dense_lines_chunk_and_classify_masks() {
    let lines = dense_mask_lines(&[255, 127, 150, 50, 0, 253, 1], 3);
    assert_eq!(
        lines,
        vec![
            "\n--- \u{1F5FA}\u{FE0F}  Visual World Map (8-bit masks) ---".to_string(),
            "\u{2588}\u{2588}\u{2593}\u{2593}\u{2592}\u{2592}".to_string(),
            "\u{2591}\u{2591}  \u{2593}\u{2593}".to_string(),
            "\u{2591}\u{2591}".to_string(),
            "--- End of Map ---\n".to_string(),
        ]
    );
    let empty = dense_mask_lines(&[], 4);
    assert_eq!(empty.len(), 2);
}
