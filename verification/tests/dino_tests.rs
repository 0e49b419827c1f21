use sandlife::dino::{Dino, Dir, Job};
use sandlife::ground::{CellType, Ground};
use sandlife::rng::Rng;

/// A world with a wood floor at row `floor_y`, wide and deep enough that an
/// agent standing on it is grounded: its foot row is empty, the row under
/// its feet is solid.
fn floored_world(w: usize, h: usize, floor_y: i32) -> Ground {
    let mut g = Ground::new(w, h);
    for x in 0..w as i32 {
        g.set_cell(x, floor_y, CellType::Wood);
    }
    g.reset_moved();
    g
}

#[test]
fn new_agent_defaults() {
    let d = Dino::new(3, 7, 2);
    assert_eq!(d.x, 15);
    assert_eq!(d.y, 35);
    assert_eq!(d.vy, 0);
    assert_eq!(d.sp, 2);
    assert_eq!(d.dir, Dir::East);
    assert_eq!(d.job, Job::Walk);
}

#[test]
fn opposite_facing() {
    assert_eq!(Dir::East.op(), Dir::West);
    assert_eq!(Dir::West.op(), Dir::East);
}

#[test]
fn free_fall_accelerates_and_cancels_the_step() {
    // Empty world: both footprint cells are free, and so is the cell one
    // row deeper, so the agent falls two cells with velocity five and the
    // horizontal step is cancelled, whatever its job rolls do.
    let g = Ground::new(60, 60);
    let mut d = Dino::new(10, 10, 1);
    let mut rng = Rng::new(1);
    d.update(&g, 60, 60, &mut rng);
    assert_eq!(d.x, 50);
    assert_eq!(d.vy, 5);
    assert_eq!(d.y, 60);
}

#[test]
fn grounded_agent_walks_east() {
    // Feet on the floor: mixed footprint, no climb, no fall; a walking
    // agent advances by its speed in the facing direction.
    let g = floored_world(60, 60, 27);
    let mut d = Dino::new(10, 10, 1);
    let mut rng = Rng::new(1);
    d.update(&g, 60, 60, &mut rng);
    assert_eq!(d.vy, 0);
    assert_eq!(d.y, 50);
    if d.job == Job::Walk && d.dir == Dir::East {
        assert_eq!(d.x, 51);
    }
}

#[test]
fn climbing_wood_cancels_the_step() {
    // Both footprint cells solid wood: the agent climbs one cell and,
    // because it is scaling wood, never slides horizontally.
    let mut g = Ground::new(60, 60);
    g.set_cell(18, 26, CellType::Wood);
    g.set_cell(18, 27, CellType::Wood);
    g.reset_moved();
    let mut d = Dino::new(10, 10, 1);
    let mut rng = Rng::new(1);
    d.update(&g, 60, 60, &mut rng);
    assert_eq!(d.x, 50);
    assert_eq!(d.y, 45);
    assert_eq!(d.vy, 0);
}

#[test]
fn climbing_sand_keeps_the_step() {
    let mut g = Ground::new(60, 60);
    g.set_cell(18, 26, CellType::Sand);
    g.set_cell(18, 27, CellType::Sand);
    g.reset_moved();
    let mut d = Dino::new(10, 10, 1);
    let mut rng = Rng::new(1);
    d.update(&g, 60, 60, &mut rng);
    assert_eq!(d.y, 45);
    assert_eq!(d.vy, 0);
    if d.job == Job::Walk && d.dir == Dir::East {
        assert_eq!(d.x, 51);
    }
}

#[test]
fn build_emits_the_wood_block() {
    // A building agent emits exactly six wood changes filling the
    // two-wide, three-tall block offset ahead of its facing. The position
    // and facing after the tick are exactly those the emissions used, so
    // the expected block follows from them.
    let mut stayed = 0;
    for seed in 1..=10u64 {
        let g = floored_world(60, 60, 27);
        let mut d = Dino::new(10, 10, 1);
        d.job = Job::Build;
        let mut rng = Rng::new(seed);
        let v = d.update(&g, 60, 60, &mut rng);
        if d.job == Job::Build {
            stayed += 1;
            let cx = d.x / 5;
            let cy = d.y / 5;
            let xoff = if d.dir == Dir::West { 4 } else { 10 };
            assert_eq!(v.len(), 6);
            let expected = [
                (cx + xoff, cy + 16),
                (cx + xoff, cy + 17),
                (cx + xoff, cy + 18),
                (cx + xoff + 1, cy + 16),
                (cx + xoff + 1, cy + 17),
                (cx + xoff + 1, cy + 18),
            ];
            for (k, gc) in v.iter().enumerate() {
                assert_eq!(gc.0, expected[k].0);
                assert_eq!(gc.1, expected[k].1);
                assert_eq!(gc.2, CellType::Wood);
            }
        } else {
            assert_eq!(v.len(), 0);
        }
    }
    assert!(stayed >= 5);
}

#[test]
fn bridge_emits_one_row_lower() {
    let mut stayed = 0;
    for seed in 1..=10u64 {
        let g = floored_world(60, 60, 27);
        let mut d = Dino::new(10, 10, 1);
        d.job = Job::Bridge;
        let mut rng = Rng::new(seed);
        let v = d.update(&g, 60, 60, &mut rng);
        if d.job == Job::Bridge {
            stayed += 1;
            let cx = d.x / 5;
            let cy = d.y / 5;
            let xoff = if d.dir == Dir::West { 4 } else { 10 };
            assert_eq!(v.len(), 6);
            let expected = [
                (cx + xoff, cy + 17),
                (cx + xoff, cy + 18),
                (cx + xoff, cy + 19),
                (cx + xoff + 1, cy + 17),
                (cx + xoff + 1, cy + 18),
                (cx + xoff + 1, cy + 19),
            ];
            for (k, gc) in v.iter().enumerate() {
                assert_eq!(gc.0, expected[k].0);
                assert_eq!(gc.1, expected[k].1);
                assert_eq!(gc.2, CellType::Wood);
            }
        } else {
            assert_eq!(v.len(), 0);
        }
    }
    assert!(stayed >= 5);
}

#[test]
fn dig_clears_rect_every_tick_then_plants_trees() {
    // A digging agent emits the five-by-two empty rectangle every tick
    // it stays in the job, keeps vertical velocity zero, and on the tick
    // it leaves the job emits exactly the one-by-three tree patch at the
    // rectangle it was digging.
    let g = floored_world(60, 60, 27);
    let mut d = Dino::new(10, 10, 1);
    d.job = Job::Dig;
    let mut rng = Rng::new(3);
    let mut exited = false;
    for _ in 0..100_000 {
        let px = d.x;
        let py = d.y;
        let v = d.update(&g, 60, 60, &mut rng);
        if d.job == Job::Dig {
            // Digging: position cannot move (no horizontal step, grounded).
            assert_eq!(d.x, px);
            assert_eq!(d.y, py);
            assert_eq!(d.vy, 0);
            let cx = d.x / 5;
            let cy = d.y / 5;
            assert_eq!(v.len(), 10);
            for (k, gc) in v.iter().enumerate() {
                let (ex, ey) = if k < 5 {
                    (cx + 6 + k as i32, cy + 16)
                } else {
                    (cx + 6 + (k as i32 - 5), cy + 17)
                };
                assert_eq!(gc.0, ex);
                assert_eq!(gc.1, ey);
                assert_eq!(gc.2, CellType::Empty);
            }
        } else {
            // The exit tick: idle, and exactly the tree patch, placed from
            // the position the agent dug at before this tick's movement.
            assert_eq!(d.job, Job::Idle);
            let cx = px / 5;
            let cy = py / 5;
            assert_eq!(v.len(), 3);
            for (k, gc) in v.iter().enumerate() {
                assert_eq!(gc.0, cx + 6 + k as i32);
                assert_eq!(gc.1, cy + 17);
                assert_eq!(gc.2, CellType::Tree);
            }
            exited = true;
            break;
        }
    }
    assert!(exited);
}

#[test]
fn horizontal_wrap_both_directions() {
    // Falling off the right edge puts the agent at the left margin.
    let g = Ground::new(50, 50);
    let mut d = Dino::new(70, 5, 1);
    let mut rng = Rng::new(1);
    d.update(&g, 50, 50, &mut rng);
    assert_eq!(d.x, -80);

    // Past the left margin (by more than one climb step can recover) the
    // agent reappears at the right edge.
    let mut d2 = Dino::new(0, 5, 1);
    d2.x = -85;
    let mut rng2 = Rng::new(1);
    d2.update(&g, 50, 50, &mut rng2);
    assert_eq!(d2.x, (50 - 1) * 5);
}

#[test]
fn vertical_wrap_at_the_top() {
    // Above the top edge every footprint cell reads bedrock, so the agent
    // climbs; past the margin it reappears near the bottom.
    let g = Ground::new(50, 50);
    let mut d = Dino::new(10, 0, 1);
    d.y = -200;
    let mut rng = Rng::new(1);
    d.update(&g, 50, 50, &mut rng);
    assert_eq!(d.y, (50 - 16) * 5);
}

#[test]
fn a_digging_agent_changes_the_ground_through_the_driver() {
    // One whole tick in the driver's order: automaton pass, marker reset,
    // agent pass, then the agent's deferred changes applied.
    let mut g = floored_world(60, 60, 27);
    let mut d = Dino::new(10, 10, 1);
    d.job = Job::Dig;
    let mut rng = Rng::new(3);
    g.update();
    g.reset_moved();
    let v = d.update(&g, 60, 60, &mut rng);
    for gc in &v {
        g.set_cell(gc.0, gc.1, gc.2);
    }
    if d.job == Job::Dig {
        // The dig rectangle covers (16..=20, 26..=27); row 27 was wood.
        assert_eq!(g.get_cell(16, 27), CellType::Empty);
        assert_eq!(g.get_cell(20, 27), CellType::Empty);
        assert_eq!(g.get_cell(15, 27), CellType::Wood);
        assert_eq!(g.get_cell(21, 27), CellType::Wood);
    }
}
