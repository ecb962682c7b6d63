use seq_vis_rs::errors::VisError;
use seq_vis_rs::layout::{plan_layout, tile_rects, GridLayout, TileRect};

fn overlaps(a: &TileRect, b: &TileRect) -> bool {
    a.x0 < b.x1 && b.x0 < a.x1 && a.y0 < b.y1 && b.y0 < a.y1
}

#[test]
fn layout_zero_channels_rejected() {
    assert_eq!(plan_layout(0), Err(VisError::InvalidInputError));
}

#[test]
fn layout_matches_min_and_ceil() {
    for c in 1usize..=20 {
        let g = plan_layout(c).unwrap();
        let cols = c.min(3);
        let rows = (c + cols - 1) / cols;
        assert_eq!(g, GridLayout { rows, cols });
        assert!(g.rows * g.cols >= c);
        assert!((g.rows - 1) * g.cols < c);
    }
}

#[test]
fn layout_small_counts() {
    assert_eq!(plan_layout(1).unwrap(), GridLayout { rows: 1, cols: 1 });
    assert_eq!(plan_layout(2).unwrap(), GridLayout { rows: 1, cols: 2 });
    assert_eq!(plan_layout(3).unwrap(), GridLayout { rows: 1, cols: 3 });
    assert_eq!(plan_layout(4).unwrap(), GridLayout { rows: 2, cols: 3 });
    assert_eq!(plan_layout(6).unwrap(), GridLayout { rows: 2, cols: 3 });
    assert_eq!(plan_layout(7).unwrap(), GridLayout { rows: 3, cols: 3 });
}

#[test]
fn tiles_four_channels_high_res() {
    let g = plan_layout(4).unwrap();
    let tiles = tile_rects(g, 4, 3840, 2160);
    assert_eq!(tiles.len(), 4);
    let expected = vec![
        TileRect { x0: 0, y0: 0, x1: 1280, y1: 1080 },
        TileRect { x0: 1280, y0: 0, x1: 2560, y1: 1080 },
        TileRect { x0: 2560, y0: 0, x1: 3840, y1: 1080 },
        TileRect { x0: 0, y0: 1080, x1: 1280, y1: 2160 },
    ];
    assert_eq!(tiles, expected);
}

#[test]
fn tiles_row_major_and_disjoint() {
    for c in 1usize..=12 {
        let g = plan_layout(c).unwrap();
        let tiles = tile_rects(g, c, 1920, 1080);
        assert_eq!(tiles.len(), c);
        for i in 0..c {
            let row = i / g.cols;
            let col = i % g.cols;
            // row-major: a later channel never sits on an earlier row,
            // and within one row columns grow left to right
            assert_eq!(tiles[i].y0, tile_rects(g, c, 1920, 1080)[row * g.cols].y0);
            assert_eq!(tiles[i].x0, tile_rects(g, c, 1920, 1080)[col].x0);
            for j in 0..i {
                assert!(!overlaps(&tiles[i], &tiles[j]));
                assert_ne!(tiles[i], tiles[j]);
            }
        }
    }
}

#[test]
fn tiles_uneven_split_spreads_remainder() {
    // a span of 10 pixels in 3 columns: 4 + 3 + 3
    let g = plan_layout(3).unwrap();
    let tiles = tile_rects(g, 3, 10, 7);
    assert_eq!(tiles[0], TileRect { x0: 0, y0: 0, x1: 4, y1: 7 });
    assert_eq!(tiles[1], TileRect { x0: 4, y0: 0, x1: 7, y1: 7 });
    assert_eq!(tiles[2], TileRect { x0: 7, y0: 0, x1: 10, y1: 7 });
}
