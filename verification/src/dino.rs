//! Agents that walk, climb, fall, dig and build on the grid.
//!
//! A `Dino` has a position in fifths of a cell (so the default walking step
//! of one fifth per tick needs no fractions), a vertical velocity, a facing
//! and a job state machine. Its per-tick `update` reads the grid, never
//! writes it, and returns the list of deferred `GroundChange` writes for
//! the tick driver to apply. Every probabilistic choice draws from the
//! injected `Rng`, so the whole step is the pure function `update_step` of
//! the old agent, the grid and the generator state.

use vstd::prelude::*;

use crate::ground::cell_at;
use crate::ground::spec_solid;
use crate::ground::CellType;
use crate::ground::Ground;
use crate::ground::GroundChange;
use crate::ground::GridModel;
use crate::ground::is_solid;
use crate::rng::next_state;
use crate::rng::one_in_hit;
use crate::rng::Rng;

verus! {

/// An agent's horizontal facing.
#[derive(Copy, Clone, Debug, PartialEq, Eq, Structural)]
pub enum Dir {
    East,
    West,
}

/// An agent's current job.
#[derive(Copy, Clone, Debug, PartialEq, Eq, Structural)]
pub enum Job {
    Idle,
    Walk,
    Build,
    Bridge,
    Dig,
}

pub open spec fn spec_op(d: Dir) -> Dir {
    match d {
        Dir::East => Dir::West,
        Dir::West => Dir::East,
    }
}

impl Dir {
    /// The opposite facing.
    pub fn op(&self) -> (r: Dir)
        ensures
            r == spec_op(*self),
    {
        match self {
            Dir::East => Dir::West,
            Dir::West => Dir::East,
        }
    }
}

/// The mathematical state of a `Dino`: position and velocity in fifths of a
/// cell, facing, job and horizontal speed magnitude.
pub ghost struct DinoModel {
    pub x: int,
    pub y: int,
    pub vy: int,
    pub dir: Dir,
    pub job: Job,
    pub sp: int,
}

/// Coordinates and velocity bounded far from the `i32` edges, so one tick
/// of arithmetic cannot overflow.
pub open spec fn dm_ok(d: DinoModel) -> bool {
    &&& -1_000_000_000 <= d.x <= 1_000_000_000
    &&& -1_000_000_000 <= d.y <= 1_000_000_000
    &&& -1_000_000_000 <= d.vy <= 1_000_000_000
    &&& 0 <= d.sp <= 1_000_000_000
}

/// The grid cell a sub-cell coordinate lies in: division by five truncating
/// toward zero, so the sub-cell offset is discarded symmetrically on both
/// sides of zero.
pub open spec fn cell_of(s: int) -> int {
    if s >= 0 {
        s / 5
    } else {
        -((-s) / 5)
    }
}

/// One possible facing flip: chance one in a thousand per tick.
pub open spec fn flip_dir(d: DinoModel, s: u64) -> (DinoModel, u64) {
    let hit = one_in_hit(s, 1000);
    let s1 = next_state(s);
    (DinoModel { dir: if hit { spec_op(d.dir) } else { d.dir }, ..d }, s1)
}

/// The three `Tree` cells planted when a dig ends: the lower row of the
/// dig rectangle, at its left edge.
pub open spec fn tree_changes(cx: int, cy: int) -> Seq<GroundChange> {
    seq![
        ((cx + 6) as i32, (cy + 17) as i32, CellType::Tree),
        ((cx + 7) as i32, (cy + 17) as i32, CellType::Tree),
        ((cx + 8) as i32, (cy + 17) as i32, CellType::Tree),
    ]
}

/// One job-transition roll. Every transition is chance one in five hundred
/// per tick, except leaving `Dig`, which is one in fifty and plants the
/// tree patch at the agent's position before it moves this tick.
pub open spec fn job_transition(d: DinoModel, s: u64) -> (DinoModel, Seq<GroundChange>, u64) {
    match d.job {
        Job::Idle => {
            let hit = one_in_hit(s, 500);
            let s1 = next_state(s);
            if hit {
                let dig = one_in_hit(s1, 5);
                let s2 = next_state(s1);
                (DinoModel { job: if dig { Job::Dig } else { Job::Walk }, ..d }, Seq::empty(), s2)
            } else {
                (d, Seq::empty(), s1)
            }
        },
        Job::Walk => {
            let hit = one_in_hit(s, 500);
            let s1 = next_state(s);
            if hit {
                let idle = one_in_hit(s1, 2);
                let s2 = next_state(s1);
                if idle {
                    (DinoModel { job: Job::Idle, ..d }, Seq::empty(), s2)
                } else {
                    let build = one_in_hit(s2, 2);
                    let s3 = next_state(s2);
                    (
                        DinoModel { job: if build { Job::Build } else { Job::Bridge }, ..d },
                        Seq::empty(),
                        s3,
                    )
                }
            } else {
                (d, Seq::empty(), s1)
            }
        },
        Job::Build => {
            let hit = one_in_hit(s, 500);
            let s1 = next_state(s);
            (if hit { DinoModel { job: Job::Idle, ..d } } else { d }, Seq::empty(), s1)
        },
        Job::Bridge => {
            let hit = one_in_hit(s, 500);
            let s1 = next_state(s);
            (if hit { DinoModel { job: Job::Idle, ..d } } else { d }, Seq::empty(), s1)
        },
        Job::Dig => {
            let hit = one_in_hit(s, 50);
            let s1 = next_state(s);
            if hit {
                (
                    DinoModel { job: Job::Idle, ..d },
                    tree_changes(cell_of(d.x), cell_of(d.y)),
                    s1,
                )
            } else {
                (d, Seq::empty(), s1)
            }
        },
    }
}

/// One tick of movement. The horizontal step is the signed speed in the
/// facing direction, zero while idle or digging. The two footprint cells
/// under the feet decide: both solid climbs one cell (and standing on wood
/// cancels the step); both free falls with gravity, and a free cell one row
/// deeper cancels the step and adds one extra cell of fall; anything else
/// grounds the agent, resetting vertical velocity.
pub open spec fn physics(d: DinoModel, g: GridModel) -> DinoModel {
    let sp_signed = if d.dir == Dir::West {
        -d.sp
    } else {
        d.sp
    };
    let xo = if d.job == Job::Idle || d.job == Job::Dig {
        0
    } else {
        sp_signed
    };
    let foot = cell_at(g, cell_of(d.x) + 8, cell_of(d.y) + 16);
    let under = cell_at(g, cell_of(d.x) + 8, cell_of(d.y) + 17);
    if spec_solid(foot) && spec_solid(under) {
        let xo2 = if foot == CellType::Wood {
            0
        } else {
            xo
        };
        DinoModel { x: d.x + xo2, y: d.y - 5, vy: 0, ..d }
    } else if !spec_solid(foot) && !spec_solid(under) {
        let vy = d.vy + 5;
        let y1 = d.y + vy;
        let deeper = cell_at(g, cell_of(d.x) + 8, cell_of(y1) + 18);
        if !spec_solid(deeper) {
            DinoModel { y: y1 + 5, vy, ..d }
        } else {
            DinoModel { x: d.x + xo, y: y1, vy, ..d }
        }
    } else {
        DinoModel { x: d.x + xo, vy: 0, ..d }
    }
}

/// The ten `Empty` cells of the five-wide, two-tall dig rectangle ahead of
/// an agent whose feet cells start at `(cx, cy)`.
pub open spec fn dig_changes(cx: int, cy: int) -> Seq<GroundChange> {
    seq![
        ((cx + 6) as i32, (cy + 16) as i32, CellType::Empty),
        ((cx + 7) as i32, (cy + 16) as i32, CellType::Empty),
        ((cx + 8) as i32, (cy + 16) as i32, CellType::Empty),
        ((cx + 9) as i32, (cy + 16) as i32, CellType::Empty),
        ((cx + 10) as i32, (cy + 16) as i32, CellType::Empty),
        ((cx + 6) as i32, (cy + 17) as i32, CellType::Empty),
        ((cx + 7) as i32, (cy + 17) as i32, CellType::Empty),
        ((cx + 8) as i32, (cy + 17) as i32, CellType::Empty),
        ((cx + 9) as i32, (cy + 17) as i32, CellType::Empty),
        ((cx + 10) as i32, (cy + 17) as i32, CellType::Empty),
    ]
}

/// The six `Wood` cells of the two-wide, three-tall block offset ahead of
/// the facing: a pillar for `Build` (rows 16 to 18 below the agent's top),
/// one row lower for `Bridge` (rows 17 to 19), making a traversable span.
pub open spec fn block_changes(cx: int, cy: int, dir: Dir, rows_from: int) -> Seq<GroundChange> {
    let xoff: int = if dir == Dir::West {
        4
    } else {
        10
    };
    seq![
        ((cx + xoff) as i32, (cy + rows_from) as i32, CellType::Wood),
        ((cx + xoff) as i32, (cy + rows_from + 1) as i32, CellType::Wood),
        ((cx + xoff) as i32, (cy + rows_from + 2) as i32, CellType::Wood),
        ((cx + xoff + 1) as i32, (cy + rows_from) as i32, CellType::Wood),
        ((cx + xoff + 1) as i32, (cy + rows_from + 1) as i32, CellType::Wood),
        ((cx + xoff + 1) as i32, (cy + rows_from + 2) as i32, CellType::Wood),
    ]
}

/// The job side effects after movement: digging clears its rectangle and
/// ignores gravity; building and bridging emit their wood blocks.
pub open spec fn job_effects(d: DinoModel) -> (DinoModel, Seq<GroundChange>) {
    if d.job == Job::Dig {
        (DinoModel { vy: 0, ..d }, dig_changes(cell_of(d.x), cell_of(d.y)))
    } else if d.job == Job::Build {
        (d, block_changes(cell_of(d.x), cell_of(d.y), d.dir, 16))
    } else if d.job == Job::Bridge {
        (d, block_changes(cell_of(d.x), cell_of(d.y), d.dir, 17))
    } else {
        (d, Seq::empty())
    }
}

/// Horizontal wrap in both directions (off one edge, back at the other,
/// passing through a sixteen-cell margin for the sprite's width); vertical
/// wrap at the top edge only.
pub open spec fn wrap(d: DinoModel, w: int, h: int) -> DinoModel {
    let x1 = if cell_of(d.x) > w {
        -80
    } else {
        d.x
    };
    let x2 = if x1 < -80 {
        (w - 1) * 5
    } else {
        x1
    };
    let y2 = if d.y < -80 {
        (h - 16) * 5
    } else {
        d.y
    };
    DinoModel { x: x2, y: y2, ..d }
}

/// The result of one whole agent tick.
pub ghost struct StepResult {
    pub dino: DinoModel,
    pub changes: Seq<GroundChange>,
    pub rng: u64,
}

/// One whole `update` call: facing flip, job transition, movement, job
/// side effects, wrap — in that order, the tree patch of a finished dig
/// coming before the movement-relative emissions.
pub open spec fn update_step(d: DinoModel, g: GridModel, w: int, h: int, s: u64) -> StepResult {
    let (d1, s1) = flip_dir(d, s);
    let (d2, tree, s2) = job_transition(d1, s1);
    let d3 = physics(d2, g);
    let (d4, effects) = job_effects(d3);
    let d5 = wrap(d4, w, h);
    StepResult { dino: d5, changes: tree + effects, rng: s2 }
}

/// Build law: on any tick that an agent ends in the `Build` job, it emits
/// exactly six `GroundChange` records, all `Wood`, and they exactly fill
/// the two-wide, three-tall block offset ahead of its facing (columns
/// `xoff` and `xoff + 1`, rows sixteen to eighteen below its top, with
/// `xoff` four when facing west and ten when facing east), measured from
/// the cell position the agent moved to this tick.
pub proof fn lemma_build_emits_block(d: DinoModel, g: GridModel, w: int, h: int, s: u64)
    requires
        dm_ok(d),
    ensures
        ({
            let d2 = job_transition(flip_dir(d, s).0, flip_dir(d, s).1).0;
            let d3 = physics(d2, g);
            let cx = cell_of(d3.x);
            let cy = cell_of(d3.y);
            let xoff: int = if d3.dir == Dir::West {
                4
            } else {
                10
            };
            let r = update_step(d, g, w, h, s);
            r.dino.job == Job::Build ==> {
                &&& r.changes == block_changes(cx, cy, d3.dir, 16)
                &&& r.changes.len() == 6
                &&& forall|k: int|
                    0 <= k < 6 ==> (#[trigger] r.changes[k]).2 == CellType::Wood
                &&& forall|k: int|
                    0 <= k < 6 ==> cx + xoff <= (#[trigger] r.changes[k]).0 as int <= cx + xoff
                        + 1
                &&& forall|k: int|
                    0 <= k < 6 ==> cy + 16 <= (#[trigger] r.changes[k]).1 as int <= cy + 18
            }
        }),
{
    let d2 = job_transition(flip_dir(d, s).0, flip_dir(d, s).1).0;
    let d3 = physics(d2, g);
    let cx = cell_of(d3.x);
    let cy = cell_of(d3.y);
    let r = update_step(d, g, w, h, s);
    if r.dino.job == Job::Build {
        assert(-2_000_000_000 <= d3.x <= 2_000_000_000);
        assert(-400_000_001 <= cx <= 400_000_001);
        assert(-2_000_000_000 <= d3.y <= 2_000_000_010);
        assert(-400_000_001 <= cy <= 400_000_003);
        assert(r.changes =~= block_changes(cx, cy, d3.dir, 16));
    }
}

/// Dig law, first half: on any tick that an agent ends in the `Dig` job,
/// it emits exactly ten `GroundChange` records, all `Empty`, exactly
/// clearing the five-wide, two-tall rectangle ahead of it (columns six to
/// ten, rows sixteen and seventeen below its top), and its vertical
/// velocity is reset — digging ignores gravity.
pub proof fn lemma_dig_clears_rect(d: DinoModel, g: GridModel, w: int, h: int, s: u64)
    requires
        dm_ok(d),
    ensures
        ({
            let d2 = job_transition(flip_dir(d, s).0, flip_dir(d, s).1).0;
            let d3 = physics(d2, g);
            let cx = cell_of(d3.x);
            let cy = cell_of(d3.y);
            let r = update_step(d, g, w, h, s);
            r.dino.job == Job::Dig ==> {
                &&& r.changes == dig_changes(cx, cy)
                &&& r.changes.len() == 10
                &&& forall|k: int|
                    0 <= k < 10 ==> (#[trigger] r.changes[k]).2 == CellType::Empty
                &&& forall|k: int|
                    0 <= k < 10 ==> cx + 6 <= (#[trigger] r.changes[k]).0 as int <= cx + 10
                &&& forall|k: int|
                    0 <= k < 10 ==> cy + 16 <= (#[trigger] r.changes[k]).1 as int <= cy + 17
                &&& r.dino.vy == 0
            }
        }),
{
    let d2 = job_transition(flip_dir(d, s).0, flip_dir(d, s).1).0;
    let d3 = physics(d2, g);
    let cx = cell_of(d3.x);
    let cy = cell_of(d3.y);
    let r = update_step(d, g, w, h, s);
    if r.dino.job == Job::Dig {
        assert(-2_000_000_000 <= d3.x <= 2_000_000_000);
        assert(-400_000_001 <= cx <= 400_000_001);
        assert(-2_000_000_000 <= d3.y <= 2_000_000_010);
        assert(-400_000_001 <= cy <= 400_000_003);
        assert(r.changes =~= dig_changes(cx, cy));
    }
}

/// Dig law, second half: on the tick an agent leaves the `Dig` job, it
/// goes to `Idle` and emits exactly three `Tree` records — the planted
/// patch — in the dig rectangle's lower row, at columns six to eight from
/// the position it was digging at.
pub proof fn lemma_dig_exit_plants_trees(d: DinoModel, g: GridModel, w: int, h: int, s: u64)
    requires
        dm_ok(d),
        d.job == Job::Dig,
    ensures
        ({
            let cx = cell_of(d.x);
            let cy = cell_of(d.y);
            let r = update_step(d, g, w, h, s);
            r.dino.job != Job::Dig ==> {
                &&& r.dino.job == Job::Idle
                &&& r.changes == tree_changes(cx, cy)
                &&& r.changes.len() == 3
                &&& forall|k: int|
                    0 <= k < 3 ==> (#[trigger] r.changes[k]).2 == CellType::Tree
                &&& forall|k: int|
                    0 <= k < 3 ==> (#[trigger] r.changes[k]).0 as int == cx + 6 + k
                &&& forall|k: int|
                    0 <= k < 3 ==> (#[trigger] r.changes[k]).1 as int == cy + 17
            }
        }),
{
    let cx = cell_of(d.x);
    let cy = cell_of(d.y);
    let r = update_step(d, g, w, h, s);
    if r.dino.job != Job::Dig {
        assert(-400_000_001 <= cx <= 400_000_001);
        assert(-400_000_001 <= cy <= 400_000_001);
        assert(r.changes =~= tree_changes(cx, cy));
    }
}

/// An agent.
pub struct Dino {
    pub x: i32,
    pub y: i32,
    pub vy: i32,
    pub dir: Dir,
    pub job: Job,
    pub sp: i32,
}

impl View for Dino {
    type V = DinoModel;

    open spec fn view(&self) -> DinoModel {
        DinoModel {
            x: self.x as int,
            y: self.y as int,
            vy: self.vy as int,
            dir: self.dir,
            job: self.job,
            sp: self.sp as int,
        }
    }
}

/// The grid cell a sub-cell coordinate lies in; see `cell_of`.
fn cell_coord(s: i32) -> (r: i32)
    requires
        -2_000_000_000 <= s,
    ensures
        r == cell_of(s as int),
        -400_000_000 <= r,
        5 * r <= s < 5 * r + 5 || 5 * r - 5 < s <= 5 * r,
{
    if s >= 0 {
        ((s as u32) / 5) as i32
    } else {
        -((((-s) as u32) / 5) as i32)
    }
}

impl Dino {
    pub open spec fn ok(&self) -> bool {
        dm_ok(self@)
    }

    /// A new agent at cell `(x, y)` with horizontal speed `sp` in fifths of
    /// a cell per tick, walking east.
    pub fn new(x: i32, y: i32, sp: i32) -> (d: Dino)
        requires
            -200_000_000 <= x <= 200_000_000,
            -200_000_000 <= y <= 200_000_000,
            0 <= sp <= 1_000_000_000,
        ensures
            d.ok(),
            d@.x == x as int * 5,
            d@.y == y as int * 5,
            d@.vy == 0,
            d@.dir == Dir::East,
            d@.job == Job::Walk,
            d@.sp == sp as int,
    {
        Dino { x: x * 5, y: y * 5, vy: 0, dir: Dir::East, job: Job::Walk, sp }
    }

    /// The facing-flip roll.
    fn flip_step(&mut self, rng: &mut Rng)
        ensures
            final(self)@ == flip_dir(old(self)@, old(rng)@).0,
            final(rng)@ == flip_dir(old(self)@, old(rng)@).1,
    {
        if rng.one_in(1000) {
            self.dir = self.dir.op();
        }
    }

    /// The job-transition roll, appending a finished dig's tree patch.
    fn job_step(&mut self, rng: &mut Rng, v: &mut Vec<GroundChange>)
        requires
            old(self).ok(),
        ensures
            final(self)@ == job_transition(old(self)@, old(rng)@).0,
            final(v)@ == old(v)@ + job_transition(old(self)@, old(rng)@).1,
            final(rng)@ == job_transition(old(self)@, old(rng)@).2,
    {
        match self.job {
            Job::Idle => {
                if rng.one_in(500) {
                    if rng.one_in(5) {
                        self.job = Job::Dig;
                    } else {
                        self.job = Job::Walk;
                    }
                }
            },
            Job::Walk => {
                if rng.one_in(500) {
                    if rng.one_in(2) {
                        self.job = Job::Idle;
                    } else {
                        if rng.one_in(2) {
                            self.job = Job::Build;
                        } else {
                            self.job = Job::Bridge;
                        }
                    }
                }
            },
            Job::Build => {
                if rng.one_in(500) {
                    self.job = Job::Idle;
                }
            },
            Job::Bridge => {
                if rng.one_in(500) {
                    self.job = Job::Idle;
                }
            },
            Job::Dig => {
                if rng.one_in(50) {
                    self.job = Job::Idle;
                    let bx = cell_coord(self.x);
                    let by = cell_coord(self.y);
                    v.push((bx + 6, by + 17, CellType::Tree));
                    v.push((bx + 7, by + 17, CellType::Tree));
                    v.push((bx + 8, by + 17, CellType::Tree));
                }
            },
        }
    }

    /// The movement stage.
    fn physics_step(&mut self, ground: &Ground)
        requires
            old(self).ok(),
            ground.wf(),
        ensures
            final(self)@ == physics(old(self)@, ground@),
    {
        let sp_signed = if self.dir == Dir::West {
            -self.sp
        } else {
            self.sp
        };
        let mut xo = sp_signed;
        if self.job == Job::Idle || self.job == Job::Dig {
            xo = 0;
        }
        let cx = cell_coord(self.x);
        let cy = cell_coord(self.y);
        let foot = ground.get_cell(cx + 8, cy + 16);
        let under = ground.get_cell(cx + 8, cy + 17);
        if is_solid(foot) && is_solid(under) {
            self.y = self.y - 5;
            if foot == CellType::Wood {
                xo = 0;
            }
            self.vy = 0;
            self.x = self.x + xo;
        } else if !is_solid(foot) && !is_solid(under) {
            self.vy = self.vy + 5;
            self.y = self.y + self.vy;
            let deeper = ground.get_cell(cx + 8, cell_coord(self.y) + 18);
            if !is_solid(deeper) {
                self.y = self.y + 5;
            } else {
                self.x = self.x + xo;
            }
        } else {
            self.vy = 0;
            self.x = self.x + xo;
        }
    }

    /// The job-side-effect stage.
    fn effects_step(&mut self, v: &mut Vec<GroundChange>)
        requires
            -2_000_000_000 <= old(self)@.x <= 2_000_000_000,
            -2_000_000_000 <= old(self)@.y <= 2_000_000_010,
        ensures
            final(self)@ == job_effects(old(self)@).0,
            final(v)@ == old(v)@ + job_effects(old(self)@).1,
    {
        if self.job == Job::Dig {
            self.vy = 0;
            let bx = cell_coord(self.x);
            let by = cell_coord(self.y);
            v.push((bx + 6, by + 16, CellType::Empty));
            v.push((bx + 7, by + 16, CellType::Empty));
            v.push((bx + 8, by + 16, CellType::Empty));
            v.push((bx + 9, by + 16, CellType::Empty));
            v.push((bx + 10, by + 16, CellType::Empty));
            v.push((bx + 6, by + 17, CellType::Empty));
            v.push((bx + 7, by + 17, CellType::Empty));
            v.push((bx + 8, by + 17, CellType::Empty));
            v.push((bx + 9, by + 17, CellType::Empty));
            v.push((bx + 10, by + 17, CellType::Empty));
        } else if self.job == Job::Build {
            let xoff: i32 = if self.dir == Dir::West {
                4
            } else {
                10
            };
            let bx = cell_coord(self.x);
            let by = cell_coord(self.y);
            v.push((bx + xoff, by + 16, CellType::Wood));
            v.push((bx + xoff, by + 17, CellType::Wood));
            v.push((bx + xoff, by + 18, CellType::Wood));
            v.push((bx + xoff + 1, by + 16, CellType::Wood));
            v.push((bx + xoff + 1, by + 17, CellType::Wood));
            v.push((bx + xoff + 1, by + 18, CellType::Wood));
        } else if self.job == Job::Bridge {
            let xoff: i32 = if self.dir == Dir::West {
                4
            } else {
                10
            };
            let bx = cell_coord(self.x);
            let by = cell_coord(self.y);
            v.push((bx + xoff, by + 17, CellType::Wood));
            v.push((bx + xoff, by + 18, CellType::Wood));
            v.push((bx + xoff, by + 19, CellType::Wood));
            v.push((bx + xoff + 1, by + 17, CellType::Wood));
            v.push((bx + xoff + 1, by + 18, CellType::Wood));
            v.push((bx + xoff + 1, by + 19, CellType::Wood));
        }
    }

    /// The wrap stage.
    fn wrap_step(&mut self, w: usize, h: usize)
        requires
            -2_000_000_000 <= old(self)@.x <= 2_000_000_000,
            w <= 100_000_000,
            h <= 100_000_000,
        ensures
            final(self)@ == wrap(old(self)@, w as int, h as int),
    {
        if cell_coord(self.x) > w as i32 {
            self.x = -80;
        }
        if self.x < -80 {
            self.x = (w as i32 - 1) * 5;
        }
        if self.y < -80 {
            self.y = (h as i32 - 16) * 5;
        }
    }

    /// One agent tick against the grid left by this tick's automaton pass:
    /// exactly `update_step` of the old agent, the grid and the generator
    /// state. The agent only reads the grid; the returned list holds its
    /// intended writes, in emission order, for the driver to apply after
    /// the whole agent pass.
    pub fn update(&mut self, ground: &Ground, w: usize, h: usize, rng: &mut Rng) -> (v: Vec<
        GroundChange,
    >)
        requires
            old(self).ok(),
            ground.wf(),
            w <= 100_000_000,
            h <= 100_000_000,
        ensures
            final(self)@ == update_step(old(self)@, ground@, w as int, h as int, old(rng)@).dino,
            v@ == update_step(old(self)@, ground@, w as int, h as int, old(rng)@).changes,
            final(rng)@ == update_step(old(self)@, ground@, w as int, h as int, old(rng)@).rng,
    {
        let mut v: Vec<GroundChange> = Vec::new();
        self.flip_step(rng);
        self.job_step(rng, &mut v);
        self.physics_step(ground);
        self.effects_step(&mut v);
        self.wrap_step(w, h);
        v
    }
}

} // verus!
