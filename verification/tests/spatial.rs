use riv::coordinate::{coordinate_from_bits, Coordinate};
use riv::manga_spatial::{MangaSpatialIndex, SpatialRect, STRIP_QUERY_HALF_WIDTH};

fn at(value: f32) -> Coordinate {
    coordinate_from_bits(value.to_bits()).unwrap()
}

fn build_strip_bounds(count: usize) -> Vec<(f32, f32)> {
    let mut bounds = Vec::with_capacity(count);
    let mut y = 0.0;

    for idx in 0..count {
        let h = 96.0 + ((idx.saturating_mul(37) % 280) as f32);
        let start = y;
        y += h;
        bounds.push((start, y));
    }

    bounds
}

fn strip_rects(bounds: &[(f32, f32)]) -> Vec<SpatialRect> {
    bounds
        .iter()
        .enumerate()
        .map(|(idx, (start, end))| {
            SpatialRect::new(
                idx,
                -STRIP_QUERY_HALF_WIDTH,
                at(*start),
                STRIP_QUERY_HALF_WIDTH,
                at(*end),
            )
        })
        .collect()
}

fn linear_vertical_band(bounds: &[(f32, f32)], min_y: f32, max_y: f32) -> Vec<usize> {
    let (min_y, max_y) = if min_y <= max_y {
        (min_y, max_y)
    } else {
        (max_y, min_y)
    };

    bounds
        .iter()
        .enumerate()
        .filter_map(|(idx, (start, end))| {
            if *start < max_y && *end > min_y {
                Some(idx)
            } else {
                None
            }
        })
        .collect()
}

fn build_masonry_bounds(count: usize, columns: usize) -> Vec<(f32, f32, f32, f32)> {
    let columns = columns.max(1);
    let mut column_heights = vec![8.0f32; columns];
    let mut bounds = Vec::with_capacity(count);

    let col_width = 220.0f32;
    let gutter = 12.0f32;

    for idx in 0..count {
        let col = idx % columns;
        let x = col as f32 * (col_width + gutter);
        let y = column_heights[col];
        let h = 80.0 + ((idx.saturating_mul(53) % 260) as f32);
        let max_x = x + col_width;
        let max_y = y + h;

        bounds.push((x, y, max_x, max_y));
        column_heights[col] = max_y + gutter;
    }

    bounds
}

fn masonry_rects(bounds: &[(f32, f32, f32, f32)]) -> Vec<SpatialRect> {
    bounds
        .iter()
        .enumerate()
        .map(|(idx, (min_x, min_y, max_x, max_y))| {
            SpatialRect::new(idx, at(*min_x), at(*min_y), at(*max_x), at(*max_y))
        })
        .collect()
}

fn linear_query_indices(
    bounds: &[(f32, f32, f32, f32)],
    min_x: f32,
    min_y: f32,
    max_x: f32,
    max_y: f32,
) -> Vec<usize> {
    let (min_x, max_x) = if min_x <= max_x {
        (min_x, max_x)
    } else {
        (max_x, min_x)
    };
    let (min_y, max_y) = if min_y <= max_y {
        (min_y, max_y)
    } else {
        (max_y, min_y)
    };

    bounds
        .iter()
        .enumerate()
        .filter_map(|(idx, (item_min_x, item_min_y, item_max_x, item_max_y))| {
            let intersects_x = *item_min_x < max_x && *item_max_x > min_x;
            let intersects_y = *item_min_y < max_y && *item_max_y > min_y;

            if intersects_x && intersects_y {
                Some(idx)
            } else {
                None
            }
        })
        .collect()
}

#[test]
fn strip_visibility_matches_linear_scan() {
    let bounds = build_strip_bounds(4096);
    let total_height = bounds.last().map(|(_, end)| *end).unwrap_or(0.0);
    let index = MangaSpatialIndex::from_rects(strip_rects(&bounds));

    for viewport_h in [180.0f32, 720.0, 1600.0] {
        let mut y = 0.0f32;
        while y <= total_height {
            let expected = linear_vertical_band(&bounds, y, y + viewport_h);
            let actual = index.query_vertical_band(at(y), at(y + viewport_h));
            assert_eq!(actual, expected, "mismatch at y={y}, h={viewport_h}");
            y += 257.0;
        }
    }
}

#[test]
fn masonry_vertical_band_matches_linear_scan() {
    let bounds = build_masonry_bounds(6000, 8);
    let index = MangaSpatialIndex::from_rects(masonry_rects(&bounds));

    let max_y = bounds
        .iter()
        .fold(0.0f32, |acc, (_, _, _, item_max_y)| acc.max(*item_max_y));

    for viewport_h in [320.0f32, 900.0, 1800.0] {
        let mut y = 0.0f32;
        while y <= max_y {
            let expected: Vec<usize> = bounds
                .iter()
                .enumerate()
                .filter_map(|(idx, (_, item_min_y, _, item_max_y))| {
                    if *item_min_y < y + viewport_h && *item_max_y > y {
                        Some(idx)
                    } else {
                        None
                    }
                })
                .collect();

            let actual = index.query_vertical_band(at(y), at(y + viewport_h));
            assert_eq!(actual, expected, "mismatch at y={y}, h={viewport_h}");
            y += 411.0;
        }
    }
}

#[test]
fn masonry_point_query_matches_linear_scan() {
    let bounds = build_masonry_bounds(5000, 7);
    let index = MangaSpatialIndex::from_rects(masonry_rects(&bounds));

    let eps = 0.0001f32;
    for i in 0usize..250 {
        let x = (i.saturating_mul(97) % 2200) as f32;
        let y = (i.saturating_mul(131) % 120000) as f32;

        let expected = linear_query_indices(&bounds, x - eps, y - eps, x + eps, y + eps);
        let actual = index.query_indices(at(x - eps), at(y - eps), at(x + eps), at(y + eps));

        assert_eq!(actual, expected, "point mismatch at ({x}, {y})");
    }
}

#[test]
fn positions_are_ordered_as_numbers() {
    let numbers = [
        f32::NEG_INFINITY,
        -1.0e9,
        -1.5,
        -1.0,
        -1.0e-40,
        0.0,
        1.0e-40,
        0.35,
        1.0,
        1.5,
        1.0e9,
        f32::MAX,
        f32::INFINITY,
    ];
    for (i, a) in numbers.iter().enumerate() {
        for b in &numbers[i + 1..] {
            assert!(at(*a) < at(*b), "{a} {b}");
        }
    }
    assert_eq!(at(0.0), at(-0.0));
    assert_eq!(at(1.0), 1_065_353_216);
    assert_eq!(at(-1.0), -1_065_353_216);
    assert!(coordinate_from_bits(f32::NAN.to_bits()).is_none());
    assert!(coordinate_from_bits((-f32::NAN).to_bits()).is_none());
}

#[test]
fn query_corners_may_come_in_any_order() {
    let rects = vec![SpatialRect::new(4, at(10.0), at(10.0), at(0.0), at(0.0))];
    let index = MangaSpatialIndex::from_rects(rects);
    assert_eq!(index.len(), 1);
    assert!(!index.is_empty());
    assert_eq!(index.query_indices(at(12.0), at(12.0), at(5.0), at(5.0)), vec![4]);
    // Touching edges do not overlap.
    assert_eq!(
        index.query_indices(at(10.0), at(0.0), at(20.0), at(10.0)),
        Vec::<usize>::new()
    );
}

#[test]
fn empty_index_answers_nothing() {
    let index = MangaSpatialIndex::default();
    assert!(index.is_empty());
    assert_eq!(index.len(), 0);
    assert_eq!(index.query_vertical_band(at(0.0), at(100.0)), Vec::<usize>::new());
}

#[test]
fn pages_are_reported_once_and_in_order() {
    let rects = vec![
        SpatialRect::new(7, at(0.0), at(0.0), at(10.0), at(10.0)),
        SpatialRect::new(2, at(0.0), at(5.0), at(10.0), at(15.0)),
        SpatialRect::new(7, at(0.0), at(8.0), at(10.0), at(18.0)),
    ];
    let index = MangaSpatialIndex::from_rects(rects);
    assert_eq!(index.query_vertical_band(at(0.0), at(20.0)), vec![2, 7]);
}
