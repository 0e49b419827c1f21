use sandlife::ground::{CellType, Ground};
use sandlife::rng::Rng;

#[test]
fn init_ground() {
    let g = Ground::new(2, 2);
    let c = g.get_cell(0, 0);
    assert_eq!(c, CellType::Empty);
}

#[test]
fn fall_sand_down() {
    let mut g = Ground::new(1, 2);
    g.set_cell(0, 0, CellType::Sand);
    g.update();
    assert_eq!(g.get_cell(0, 0), CellType::Empty);
    assert_eq!(g.get_cell(0, 1), CellType::Sand);
}

#[test]
fn fall_sand_right() {
    let mut g = Ground::new(2, 2);
    g.set_cell(0, 0, CellType::Sand);
    g.set_cell(0, 1, CellType::Sand);
    g.update();
    assert_eq!(g.get_cell(0, 0), CellType::Empty);
    assert_eq!(g.get_cell(0, 1), CellType::Sand);
    assert_eq!(g.get_cell(1, 1), CellType::Sand);
}

#[test]
fn fall_sand_left() {
    let mut g = Ground::new(2, 2);
    g.set_cell(1, 0, CellType::Sand);
    g.set_cell(1, 1, CellType::Sand);
    g.update();
    assert_eq!(g.get_cell(1, 0), CellType::Empty);
    assert_eq!(g.get_cell(0, 1), CellType::Sand);
    assert_eq!(g.get_cell(1, 1), CellType::Sand);
}

#[test]
fn fall_sand_either_right() {
    let mut g = Ground::new(4, 2);
    g.set_cell(1, 0, CellType::Sand);
    g.set_cell(1, 1, CellType::Sand);
    g.update();
    assert_eq!(g.get_cell(1, 0), CellType::Empty);
    assert_eq!(g.get_cell(1, 1), CellType::Sand);
    assert_eq!(g.get_cell(2, 1), CellType::Sand);
}

#[test]
fn fall_sand_either_left() {
    let mut g = Ground::new(4, 2);
    g.set_cell(2, 0, CellType::Sand);
    g.set_cell(2, 1, CellType::Sand);
    g.update();
    assert_eq!(g.get_cell(2, 0), CellType::Empty);
    assert_eq!(g.get_cell(2, 1), CellType::Sand);
    assert_eq!(g.get_cell(1, 1), CellType::Sand);
}

#[test]
fn fall_sand_either_tower() {
    let mut g = Ground::new(3, 3);
    g.set_cell(1, 0, CellType::Sand);
    g.set_cell(1, 1, CellType::Sand);
    g.update();

    assert_eq!(g.get_cell(1, 0), CellType::Empty);
    assert_eq!(g.get_cell(1, 1), CellType::Sand);
    assert_eq!(g.get_cell(1, 2), CellType::Sand);

    g.update();
    assert_eq!(g.get_cell(1, 2), CellType::Sand);
    assert_eq!(g.get_cell(0, 2), CellType::Sand);
}

#[test]
fn fall_sand_3_x_2() {
    // .SSS.
    // .SSS.
    let mut g = Ground::new(5, 2);
    // ground
    g.set_cell(1, 1, CellType::Sand);
    g.set_cell(2, 1, CellType::Sand);
    g.set_cell(3, 1, CellType::Sand);
    // falling
    g.set_cell(1, 0, CellType::Sand);
    g.set_cell(2, 0, CellType::Sand);
    g.set_cell(3, 0, CellType::Sand);

    g.update();

    assert_eq!(g.get_cell(0, 1), CellType::Sand);
    assert_eq!(g.get_cell(4, 1), CellType::Sand);
    g.update();

    assert_eq!(g.get_cell(0, 1), CellType::Sand);
    assert_eq!(g.get_cell(4, 1), CellType::Sand);
}

#[test]
fn fall_sand_3_x_3() {
    // ..SSS..
    // ..SSS..
    // ..SSS..
    let mut g = Ground::new(7, 3);
    for i in 0..3 {
        g.set_cell(2, i, CellType::Sand);
        g.set_cell(3, i, CellType::Sand);
        g.set_cell(4, i, CellType::Sand);
    }
    g.update();

    // Should be:
    // ...S...
    // ..SSS..
    // .SSSSS.

    // Bottom layer
    assert_eq!(g.get_cell(1, 2), CellType::Sand);
    assert_eq!(g.get_cell(5, 2), CellType::Sand);
    // mid layer
    assert_eq!(g.get_cell(2, 1), CellType::Sand);
    assert_eq!(g.get_cell(4, 2), CellType::Sand);
    // top layer
    assert_eq!(g.get_cell(3, 0), CellType::Sand);
}

#[test]
fn bedrock_outside_every_edge() {
    let g = Ground::new(3, 4);
    assert_eq!(g.get_cell(-1, 0), CellType::Bedrock);
    assert_eq!(g.get_cell(0, -1), CellType::Bedrock);
    assert_eq!(g.get_cell(3, 0), CellType::Bedrock);
    assert_eq!(g.get_cell(0, 4), CellType::Bedrock);
    assert_eq!(g.get_cell(-100, -100), CellType::Bedrock);
    assert_eq!(g.get_cell(1000, 1000), CellType::Bedrock);
    // Inside stays Empty.
    assert_eq!(g.get_cell(2, 3), CellType::Empty);
}

#[test]
fn set_cell_rejects_out_of_range_and_moved() {
    let mut g = Ground::new(2, 2);
    assert!(!g.set_cell(-1, 0, CellType::Sand));
    assert!(!g.set_cell(0, 2, CellType::Sand));
    // First write is accepted and marks the cell moved.
    assert!(g.set_cell(0, 0, CellType::Sand));
    // A second write to the same cell this tick is rejected.
    assert!(!g.set_cell(0, 0, CellType::Wood));
    assert_eq!(g.get_cell(0, 0), CellType::Sand);
    // After the markers are reset the cell accepts writes again.
    g.reset_moved();
    assert!(g.set_cell(0, 0, CellType::Wood));
    assert_eq!(g.get_cell(0, 0), CellType::Wood);
}

#[test]
fn anti_sand_annihilates_sand_below() {
    let mut g = Ground::new(1, 2);
    g.set_cell(0, 0, CellType::AntiSand);
    g.set_cell(0, 1, CellType::Sand);
    g.update();
    assert_eq!(g.get_cell(0, 0), CellType::Empty);
    assert_eq!(g.get_cell(0, 1), CellType::Empty);
}

#[test]
fn anti_sand_falls_through_empty() {
    let mut g = Ground::new(1, 3);
    g.set_cell(0, 0, CellType::AntiSand);
    g.update();
    assert_eq!(g.get_cell(0, 0), CellType::Empty);
    assert_eq!(g.get_cell(0, 1), CellType::AntiSand);
}

#[test]
fn anti_sand_dissolves_against_the_floor() {
    // The cell below the bottom row reads as bedrock: an anti-sand grain
    // there annihilates with the boundary (whose own cell is out of range
    // and untouchable), and a grain above it follows one tick later. An
    // anti-sand grain never annihilates with another anti-sand grain: the
    // upper one settles in the tick its neighbour vanishes, because the
    // vacated cell's moved marker blocks a second write.
    let mut g = Ground::new(1, 2);
    g.set_cell(0, 0, CellType::AntiSand);
    g.set_cell(0, 1, CellType::AntiSand);
    g.update();
    assert_eq!(g.get_cell(0, 0), CellType::AntiSand);
    assert_eq!(g.get_cell(0, 1), CellType::Empty);
    g.update();
    assert_eq!(g.get_cell(0, 0), CellType::Empty);
    assert_eq!(g.get_cell(0, 1), CellType::AntiSand);
    g.update();
    assert_eq!(g.get_cell(0, 0), CellType::Empty);
    assert_eq!(g.get_cell(0, 1), CellType::Empty);
}

#[test]
fn water_spreads_into_empty_left() {
    // Width three, height one: the floor below is the bedrock boundary,
    // both diagonals are out of range and blocked, the right neighbour is
    // wood, the left is empty — the water must spread left.
    let mut g = Ground::new(3, 1);
    g.set_cell(1, 0, CellType::Water);
    g.set_cell(2, 0, CellType::Wood);
    g.update();
    assert_eq!(g.get_cell(0, 0), CellType::Water);
    assert_eq!(g.get_cell(1, 0), CellType::Empty);
    assert_eq!(g.get_cell(2, 0), CellType::Wood);
}

#[test]
fn water_settles_when_all_neighbours_blocked() {
    let mut g = Ground::new(3, 1);
    g.set_cell(0, 0, CellType::Wood);
    g.set_cell(1, 0, CellType::Water);
    g.set_cell(2, 0, CellType::Wood);
    g.update();
    assert_eq!(g.get_cell(0, 0), CellType::Wood);
    assert_eq!(g.get_cell(1, 0), CellType::Water);
    assert_eq!(g.get_cell(2, 0), CellType::Wood);
}

#[test]
fn sand_settles_where_water_would_spread() {
    // Same shape as the water-spread test, but sand has no horizontal
    // move: it settles.
    let mut g = Ground::new(3, 1);
    g.set_cell(1, 0, CellType::Sand);
    g.set_cell(2, 0, CellType::Wood);
    g.update();
    assert_eq!(g.get_cell(0, 0), CellType::Empty);
    assert_eq!(g.get_cell(1, 0), CellType::Sand);
}

#[test]
fn wood_and_tree_never_move() {
    let mut g = Ground::new(1, 3);
    g.set_cell(0, 0, CellType::Wood);
    g.update();
    assert_eq!(g.get_cell(0, 0), CellType::Wood);
    assert_eq!(g.get_cell(0, 1), CellType::Empty);

    let mut g2 = Ground::new(1, 3);
    g2.set_cell(0, 0, CellType::Tree);
    g2.update();
    assert_eq!(g2.get_cell(0, 0), CellType::Tree);
    assert_eq!(g2.get_cell(0, 1), CellType::Empty);
}

#[test]
fn solid_corner_blocks_diagonal_flow() {
    // A solid side neighbour keeps sand from slipping through a wall
    // corner even when the diagonal cell itself is empty.
    //  SW.
    //  .W.
    let mut g = Ground::new(3, 2);
    g.set_cell(0, 0, CellType::Sand);
    g.set_cell(1, 0, CellType::Wood);
    g.set_cell(0, 1, CellType::Sand);
    g.set_cell(1, 1, CellType::Wood);
    g.update();
    // Down is sand, down-left is outside, down-right is empty but behind
    // the wood wall: the grain settles.
    assert_eq!(g.get_cell(0, 0), CellType::Sand);
}

#[test]
fn generated_world_has_solid_floor() {
    let mut g = Ground::new(20, 8);
    let mut rng = Rng::new(7);
    g.init(&mut rng);
    // Rows strictly below the threshold h / 2 + h / 4 are fully solid.
    let threshold = 8 / 2 + 8 / 4;
    for y in 0..8i32 {
        for x in 0..20i32 {
            let c = g.get_cell(x, y);
            if y > threshold {
                assert_eq!(c, CellType::Wood);
            } else {
                assert!(c == CellType::Empty || c == CellType::Sand || c == CellType::Wood);
            }
        }
    }
}

#[test]
fn generation_is_deterministic_for_a_seed() {
    let mut a = Ground::new(30, 12);
    let mut b = Ground::new(30, 12);
    let mut ra = Rng::new(99);
    let mut rb = Rng::new(99);
    a.init(&mut ra);
    b.init(&mut rb);
    for y in 0..12i32 {
        for x in 0..30i32 {
            assert_eq!(a.get_cell(x, y), b.get_cell(x, y));
        }
    }
}

#[test]
fn rnd_rolls_stay_in_range() {
    let g = Ground::new(2, 2);
    let mut rng = Rng::new(5);
    for _ in 0..100 {
        let r = g.rnd(&mut rng);
        assert!((0..10).contains(&r));
    }
}
