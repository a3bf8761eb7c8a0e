use particle_field::field::{cell_coords, field_cell_coords, FIELD_CHARGE_COUNT, FIELD_GRID_SIDE};

#[test]
fn decode_examples() {
    assert_eq!(cell_coords(0, 2, 3, 4), (0, 0, 0));
    assert_eq!(cell_coords(1, 2, 3, 4), (1, 0, 0));
    assert_eq!(cell_coords(2, 2, 3, 4), (0, 1, 0));
    assert_eq!(cell_coords(5, 2, 3, 4), (1, 2, 0));
    assert_eq!(cell_coords(6, 2, 3, 4), (0, 0, 1));
    assert_eq!(cell_coords(23, 2, 3, 4), (1, 2, 3));
}

#[test]
fn decode_recombines() {
    let (w, h, d) = (5u32, 7u32, 3u32);
    for i in 0..(w * h * d) {
        let (x, y, z) = cell_coords(i, w, h, d);
        assert!(x < w && y < h && z < d);
        assert_eq!(i, x + w * (y + h * z));
    }
}

#[test]
fn bake_enumerates_every_cell_once() {
    let (w, h, d) = (2u32, 3u32, 4u32);
    let cells = field_cell_coords(w, h, d);
    assert_eq!(cells.len(), (w * h * d) as usize);
    for (i, &c) in cells.iter().enumerate() {
        assert_eq!(c, cell_coords(i as u32, w, h, d));
    }
}

#[test]
fn bake_has_no_duplicate_cells() {
    let cells = field_cell_coords(3, 4, 5);
    let unique: std::collections::HashSet<_> = cells.iter().copied().collect();
    assert_eq!(unique.len(), cells.len());
}

#[test]
fn bake_of_single_cell() {
    let cells = field_cell_coords(1, 1, 1);
    assert_eq!(cells, vec![(0, 0, 0)]);
}

#[test]
fn default_volume_size() {
    assert_eq!(FIELD_GRID_SIDE, 64);
    assert_eq!(FIELD_CHARGE_COUNT, 6);
    let s = FIELD_GRID_SIDE;
    let cells = field_cell_coords(s, s, s);
    assert_eq!(cells.len(), (s * s * s) as usize);
}
