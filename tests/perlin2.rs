use perlin2::lattice::{lattice_slot, INVERSE_TABLE, PERMUTATION_TABLE, TABLE_SIZE};
use perlin2::{CellDirections, Perlin2};
use rand::rngs::StdRng;
use rand::SeedableRng;

fn seeded(seed: u64) -> Perlin2 {
    let mut rng = StdRng::seed_from_u64(seed);
    Perlin2::new(&mut rng)
}

fn table_of(p: &Perlin2) -> Vec<u8> {
    (0..=255u8).map(|s| p.direction(s)).collect()
}

#[test]
fn permutation_table_is_a_permutation() {
    let mut sorted = PERMUTATION_TABLE.to_vec();
    sorted.sort();
    assert_eq!(sorted, (0..=255u8).collect::<Vec<u8>>());
    assert_eq!(TABLE_SIZE, 256);
    for v in 0..256usize {
        assert_eq!(PERMUTATION_TABLE[INVERSE_TABLE[v] as usize] as usize, v);
    }
}

#[test]
fn slot_at_origin_and_known_points() {
    assert_eq!(lattice_slot(0, 0), 17);
    assert_eq!(lattice_slot(-3, 5), 194);
    assert_eq!(lattice_slot(7, -7), 144);
}

#[test]
fn slot_of_negative_point_wraps() {
    assert_eq!(lattice_slot(-1, -1), 253);
    assert_eq!(lattice_slot(-1, -1), lattice_slot(255, 255));
    assert_eq!(lattice_slot(-256, 0), lattice_slot(0, 0));
}

#[test]
fn slot_at_extreme_coordinates() {
    assert_eq!(lattice_slot(i32::MAX, i32::MIN), 58);
    assert_eq!(lattice_slot(i32::MIN, i32::MIN), 17);
}

#[test]
fn slot_is_periodic_on_both_axes() {
    for x in -600..600 {
        for y in [-300, -1, 0, 1, 77] {
            assert_eq!(lattice_slot(x, y), lattice_slot(x + 256, y));
            assert_eq!(lattice_slot(x, y), lattice_slot(x, y + 256));
        }
    }
}

#[test]
fn new_holds_every_direction_once() {
    let mut t = table_of(&seeded(7));
    t.sort();
    assert_eq!(t, (0..=255u8).collect::<Vec<u8>>());
}

#[test]
fn new_shuffles_the_directions() {
    let t = table_of(&seeded(7));
    assert_ne!(t, (0..=255u8).collect::<Vec<u8>>());
}

#[test]
fn same_seed_gives_same_generator() {
    let a = seeded(42);
    let b = seeded(42);
    assert_eq!(table_of(&a), table_of(&b));
    assert_eq!(a.corner_direction(3, -9), a.corner_direction(3, -9));
    assert_eq!(a.cell_directions(-5, 12), b.cell_directions(-5, 12));
}

#[test]
fn different_shuffles_differ_on_row_zero() {
    let a = seeded(1);
    let b = seeded(2);
    assert_ne!(table_of(&a), table_of(&b));
    let differs = (0..256).any(|x| a.corner_direction(x, 0) != b.corner_direction(x, 0));
    assert!(differs);
}

#[test]
fn corner_direction_reads_hashed_slot() {
    let p = seeded(3);
    for (x, y) in [(0, 0), (-1, -1), (-3, 5), (7, -7), (i32::MAX, i32::MIN)] {
        assert_eq!(p.corner_direction(x, y), p.direction(lattice_slot(x, y)));
    }
}

#[test]
fn cell_directions_at_negative_cell() {
    let p = seeded(11);
    let c = p.cell_directions(-1, -1);
    let expected = CellDirections {
        top_left: p.corner_direction(-1, -1),
        top_right: p.corner_direction(0, -1),
        bottom_left: p.corner_direction(-1, 0),
        bottom_right: p.corner_direction(0, 0),
    };
    assert_eq!(c, expected);
    assert_eq!(c.top_left, p.direction(253));
}

#[test]
fn cell_directions_wrap_past_largest_coordinate() {
    let p = seeded(5);
    let c = p.cell_directions(i32::MAX, i32::MAX);
    assert_eq!(c.top_left, p.corner_direction(i32::MAX, i32::MAX));
    assert_eq!(c.top_right, p.corner_direction(i32::MIN, i32::MAX));
    assert_eq!(c.bottom_left, p.corner_direction(i32::MAX, i32::MIN));
    assert_eq!(c.bottom_right, p.corner_direction(i32::MIN, i32::MIN));
}
