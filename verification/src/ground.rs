//! The material grid and its falling-sand automaton.
//!
//! A `Ground` is a `w` by `h` field of `CellType` cells in row-major order,
//! with a parallel per-tick "moved" marker array. Every coordinate outside
//! the field reads as `Bedrock`, the immutable boundary sentinel. One
//! `update` call runs a single automaton pass in place: rows bottom to top,
//! cells left to right, each movable cell trying to fall, annihilate, slide
//! diagonally or (water only) spread sideways. The pass is specified exactly
//! by `update_spec`, a fold of the per-cell step function `step_cell` over
//! the whole field.

use vstd::prelude::*;

use crate::rng::next_state;
use crate::rng::range_value;
use crate::rng::Rng;

verus! {

/// A cell's substance tag.
#[derive(Copy, Clone, Debug, PartialEq, Eq, Structural)]
pub enum CellType {
    AntiSand,
    Bedrock,
    Empty,
    Sand,
    Water,
    Wood,
    Tree,
}

/// Solid materials block agent passage and diagonal sand flow.
pub open spec fn spec_solid(t: CellType) -> bool {
    t == CellType::Wood || t == CellType::Sand || t == CellType::Bedrock
}

/// Movable materials take part in the automaton pass; everything else
/// (empty space, the boundary sentinel, built wood and planted trees)
/// stays where it is.
pub open spec fn spec_movable(t: CellType) -> bool {
    t == CellType::Sand || t == CellType::AntiSand || t == CellType::Water
}

pub fn is_solid(t: CellType) -> (r: bool)
    ensures
        r == spec_solid(t),
{
    match t {
        CellType::Wood => true,
        CellType::Sand => true,
        CellType::Bedrock => true,
        _ => false,
    }
}

pub fn is_free(t: CellType) -> (r: bool)
    ensures
        r == !spec_solid(t),
{
    !is_solid(t)
}

/// A deferred grid write `(x, y, material)`, produced by an agent and
/// applied by the tick driver after the whole agent pass.
pub type GroundChange = (i32, i32, CellType);

/// The mathematical state of a `Ground`: dimensions, the cell field and the
/// per-tick moved markers.
#[verifier::ext_equal]
pub ghost struct GridModel {
    pub w: int,
    pub h: int,
    pub cells: Seq<CellType>,
    pub moved: Seq<bool>,
}

/// Well-formed grid model: positive dimensions small enough for `i32`
/// coordinates, and both arrays of length `w * h`.
pub open spec fn gm_wf(g: GridModel) -> bool {
    &&& 0 < g.w
    &&& 0 < g.h
    &&& g.w <= i32::MAX as int
    &&& g.h <= i32::MAX as int
    &&& g.w * g.h <= usize::MAX as int
    &&& g.cells.len() == g.w * g.h
    &&& g.moved.len() == g.w * g.h
}

pub open spec fn in_bounds(g: GridModel, x: int, y: int) -> bool {
    0 <= x < g.w && 0 <= y < g.h
}

/// Row-major linear index of an in-bounds coordinate.
pub open spec fn cell_index(g: GridModel, x: int, y: int) -> int {
    y * g.w + x
}

/// What a read of `(x, y)` yields: the stored cell in bounds, the
/// `Bedrock` sentinel everywhere outside.
pub open spec fn cell_at(g: GridModel, x: int, y: int) -> CellType {
    if in_bounds(g, x, y) {
        g.cells[cell_index(g, x, y)]
    } else {
        CellType::Bedrock
    }
}

/// A write to `(x, y)` is accepted only in bounds and only while the cell's
/// moved marker is clear.
pub open spec fn write_allowed(g: GridModel, x: int, y: int) -> bool {
    in_bounds(g, x, y) && !g.moved[cell_index(g, x, y)]
}

/// Effect of `set_cell`: an accepted write stores the material and sets the
/// moved marker; a rejected write leaves the grid untouched.
pub open spec fn write_at(g: GridModel, x: int, y: int, v: CellType) -> GridModel {
    if write_allowed(g, x, y) {
        GridModel {
            cells: g.cells.update(cell_index(g, x, y), v),
            moved: g.moved.update(cell_index(g, x, y), true),
            ..g
        }
    } else {
        g
    }
}

proof fn lemma_row_index_bound(g: GridModel, x: int, y: int)
    requires
        gm_wf(g),
        in_bounds(g, x, y),
    ensures
        0 <= cell_index(g, x, y) < g.w * g.h,
{
    assert(y * g.w + x < g.w * g.h && 0 <= y * g.w) by (nonlinear_arith)
        requires
            0 <= x < g.w,
            0 <= y < g.h,
    ;
}

/// Effect of the swap primitive moving the cell at `(x, y)` by `(xo, yo)`:
/// if the destination accepts the write (in bounds, marker clear), the
/// destination takes the source material and is marked moved, and the source
/// cell takes the old destination material with its own marker untouched; if
/// the destination rejects the write, nothing changes.
pub open spec fn swap_at(g: GridModel, x: int, y: int, xo: int, yo: int) -> GridModel {
    let src = cell_at(g, x, y);
    let dst = cell_at(g, x + xo, y + yo);
    if write_allowed(g, x + xo, y + yo) {
        let g1 = write_at(g, x + xo, y + yo, src);
        GridModel { cells: g1.cells.update(cell_index(g, x, y), dst), ..g1 }
    } else {
        g
    }
}

/// One automaton step for the cell at `(x, y)`.
///
/// Fixed materials and cells already moved this tick settle. A movable cell
/// falls straight down into empty space; `AntiSand` annihilates with
/// whatever non-empty material other than `AntiSand` sits directly below
/// it, the boundary included; otherwise the cell tries the two
/// diagonals, a diagonal being reachable only when its horizontal neighbour
/// is free and the diagonal itself is empty, with ties broken by the parity
/// of the cell's linear index; water that cannot fall diagonally spreads
/// into an empty side neighbour, tie-broken the same way. A cell with no
/// legal move settles.
pub open spec fn step_cell(g: GridModel, x: int, y: int) -> GridModel {
    let c = cell_at(g, x, y);
    if !spec_movable(c) {
        g
    } else if g.moved[cell_index(g, x, y)] {
        g
    } else {
        let below = cell_at(g, x, y + 1);
        if below == CellType::Empty {
            swap_at(g, x, y, 0, 1)
        } else if c == CellType::AntiSand && below != CellType::AntiSand {
            write_at(write_at(g, x, y, CellType::Empty), x, y + 1, CellType::Empty)
        } else {
            let dir: int = if cell_index(g, x, y) % 2 == 0 {
                -1
            } else {
                1
            };
            let left = cell_at(g, x - 1, y);
            let right = cell_at(g, x + 1, y);
            let down_left = if !spec_solid(left) {
                cell_at(g, x - 1, y + 1)
            } else {
                CellType::Bedrock
            };
            let down_right = if !spec_solid(right) {
                cell_at(g, x + 1, y + 1)
            } else {
                CellType::Bedrock
            };
            if down_left == CellType::Empty && down_right == CellType::Empty {
                swap_at(g, x, y, dir, 1)
            } else if down_right == CellType::Empty {
                swap_at(g, x, y, 1, 1)
            } else if down_left == CellType::Empty {
                swap_at(g, x, y, -1, 1)
            } else if c == CellType::Water {
                if left == CellType::Empty && right == CellType::Empty {
                    swap_at(g, x, y, dir, 0)
                } else if left == CellType::Empty {
                    swap_at(g, x, y, -1, 0)
                } else if right == CellType::Empty {
                    swap_at(g, x, y, 1, 0)
                } else {
                    g
                }
            } else {
                g
            }
        }
    }
}

/// `n` automaton steps along row `y`, starting at column `x` and moving
/// right.
pub open spec fn pass_cells(g: GridModel, y: int, x: int, n: nat) -> GridModel
    decreases n,
{
    if n == 0 {
        g
    } else {
        pass_cells(step_cell(g, x, y), y, x + 1, (n - 1) as nat)
    }
}

/// The automaton pass over rows `n - 1` down to `0`, bottommost row first,
/// each row left to right.
pub open spec fn pass_rows(g: GridModel, n: nat) -> GridModel
    decreases n,
{
    if n == 0 {
        g
    } else {
        pass_rows(pass_cells(g, n - 1, 0, g.w as nat), (n - 1) as nat)
    }
}

/// The grid with every moved marker cleared, as at the start of a tick.
pub open spec fn clear_marks(g: GridModel) -> GridModel {
    GridModel { moved: Seq::new(g.moved.len(), |i: int| false), ..g }
}

/// One whole `update` call: clear the markers, then fold `step_cell` over
/// the field, rows bottom to top, cells left to right.
pub open spec fn update_spec(g: GridModel) -> GridModel {
    pass_rows(clear_marks(g), g.h as nat)
}

/// A raw generator write: stores the material in bounds, ignores the write
/// out of bounds, and never reads or touches the moved markers — world
/// generation does not need move-tracking.
pub open spec fn put_at(g: GridModel, x: int, y: int, v: CellType) -> GridModel {
    if in_bounds(g, x, y) {
        GridModel { cells: g.cells.update(cell_index(g, x, y), v), ..g }
    } else {
        g
    }
}

/// A column of `n` raw `Wood` writes downward from `(x, y)`.
pub open spec fn fill_rect_col(g: GridModel, x: int, y: int, n: nat) -> GridModel
    decreases n,
{
    if n == 0 {
        g
    } else {
        fill_rect_col(put_at(g, x, y, CellType::Wood), x, y + 1, (n - 1) as nat)
    }
}

/// A `Wood` rectangle of `n` columns of height `hr`, filled left to right.
pub open spec fn fill_rect(g: GridModel, x: int, y: int, hr: nat, n: nat) -> GridModel
    decreases n,
{
    if n == 0 {
        g
    } else {
        fill_rect(fill_rect_col(g, x, y, hr), x + 1, y, hr, (n - 1) as nat)
    }
}

/// One randomly placed solid rectangle, exactly as `rnd_line` draws it:
/// four `gen_range` draws for position and size, then a `Wood` fill.
pub open spec fn rnd_line_spec(g: GridModel, s: u64) -> (GridModel, u64) {
    let x1 = range_value(s, 0, g.w);
    let s1 = next_state(s);
    let wr = range_value(s1, 20, 130);
    let s2 = next_state(s1);
    let y1 = range_value(s2, 40, g.h / 2 + 100);
    let s3 = next_state(s2);
    let hr = range_value(s3, 5, 10);
    let s4 = next_state(s3);
    (fill_rect(g, x1, y1, hr as nat, wr as nat), s4)
}

/// One generation step for the cell at `(x, y)`: rows below the threshold
/// height become solid `Wood`; rows above it scatter `Sand` with chance one
/// in five, drawing one roll per cell.
pub open spec fn scatter_cell(g: GridModel, s: u64, x: int, y: int) -> (GridModel, u64) {
    if y > g.h / 2 + g.h / 4 {
        (put_at(g, x, y, CellType::Wood), s)
    } else {
        let roll = range_value(s, 0, 5);
        let s1 = next_state(s);
        if roll == 0 {
            (put_at(g, x, y, CellType::Sand), s1)
        } else {
            (g, s1)
        }
    }
}

/// `n` generation steps along row `y` from column `x`, left to right.
pub open spec fn scatter_row(g: GridModel, s: u64, y: int, x: int, n: nat) -> (GridModel, u64)
    decreases n,
{
    if n == 0 {
        (g, s)
    } else {
        let (g1, s1) = scatter_cell(g, s, x, y);
        scatter_row(g1, s1, y, x + 1, (n - 1) as nat)
    }
}

/// Generation over `n` rows from row `y` downward.
pub open spec fn scatter_rows(g: GridModel, s: u64, y: int, n: nat) -> (GridModel, u64)
    decreases n,
{
    if n == 0 {
        (g, s)
    } else {
        let (g1, s1) = scatter_row(g, s, y, 0, g.w as nat);
        scatter_rows(g1, s1, y + 1, (n - 1) as nat)
    }
}

/// `n` random solid rectangles in sequence.
pub open spec fn rnd_lines(g: GridModel, s: u64, n: nat) -> (GridModel, u64)
    decreases n,
{
    if n == 0 {
        (g, s)
    } else {
        let (g1, s1) = rnd_line_spec(g, s);
        rnd_lines(g1, s1, (n - 1) as nat)
    }
}

/// One whole `init` call: the threshold-and-scatter sweep over every row,
/// then thirty random solid rectangles.
pub open spec fn init_spec(g: GridModel, s: u64) -> (GridModel, u64) {
    let (g1, s1) = scatter_rows(g, s, 0, g.h as nat);
    rnd_lines(g1, s1, 30)
}

proof fn lemma_step_cell_wf(g: GridModel, x: int, y: int)
    requires
        gm_wf(g),
    ensures
        gm_wf(step_cell(g, x, y)),
        step_cell(g, x, y).w == g.w,
        step_cell(g, x, y).h == g.h,
{
    if spec_movable(cell_at(g, x, y)) {
        lemma_row_index_bound(g, x, y);
        if in_bounds(g, x, y + 1) {
            lemma_row_index_bound(g, x, y + 1);
        }
        if in_bounds(g, x - 1, y + 1) {
            lemma_row_index_bound(g, x - 1, y + 1);
        }
        if in_bounds(g, x + 1, y + 1) {
            lemma_row_index_bound(g, x + 1, y + 1);
        }
        if in_bounds(g, x - 1, y) {
            lemma_row_index_bound(g, x - 1, y);
        }
        if in_bounds(g, x + 1, y) {
            lemma_row_index_bound(g, x + 1, y);
        }
    }
}

proof fn lemma_step_cell_frozen(g: GridModel, x: int, y: int, j: int)
    requires
        gm_wf(g),
        0 <= j < g.cells.len(),
        g.moved[j],
    ensures
        step_cell(g, x, y).cells[j] == g.cells[j],
        step_cell(g, x, y).moved[j],
{
    if spec_movable(cell_at(g, x, y)) {
        lemma_row_index_bound(g, x, y);
        if in_bounds(g, x, y + 1) {
            lemma_row_index_bound(g, x, y + 1);
        }
        if in_bounds(g, x - 1, y + 1) {
            lemma_row_index_bound(g, x - 1, y + 1);
        }
        if in_bounds(g, x + 1, y + 1) {
            lemma_row_index_bound(g, x + 1, y + 1);
        }
        if in_bounds(g, x - 1, y) {
            lemma_row_index_bound(g, x - 1, y);
        }
        if in_bounds(g, x + 1, y) {
            lemma_row_index_bound(g, x + 1, y);
        }
    }
}

proof fn lemma_pass_cells_frozen(g: GridModel, y: int, x: int, n: nat, j: int)
    requires
        gm_wf(g),
        0 <= j < g.cells.len(),
        g.moved[j],
    ensures
        pass_cells(g, y, x, n).cells[j] == g.cells[j],
        pass_cells(g, y, x, n).moved[j],
        gm_wf(pass_cells(g, y, x, n)),
        pass_cells(g, y, x, n).w == g.w,
        pass_cells(g, y, x, n).h == g.h,
    decreases n,
{
    if n > 0 {
        lemma_step_cell_wf(g, x, y);
        lemma_step_cell_frozen(g, x, y, j);
        lemma_pass_cells_frozen(step_cell(g, x, y), y, x + 1, (n - 1) as nat, j);
    }
}

proof fn lemma_pass_cells_wf(g: GridModel, y: int, x: int, n: nat)
    requires
        gm_wf(g),
    ensures
        gm_wf(pass_cells(g, y, x, n)),
        pass_cells(g, y, x, n).w == g.w,
        pass_cells(g, y, x, n).h == g.h,
    decreases n,
{
    if n > 0 {
        lemma_step_cell_wf(g, x, y);
        lemma_pass_cells_wf(step_cell(g, x, y), y, x + 1, (n - 1) as nat);
    }
}

proof fn lemma_step_cell_marks(g: GridModel, x: int, y: int, j: int)
    requires
        gm_wf(g),
        0 <= j < g.cells.len(),
    ensures
        step_cell(g, x, y).cells[j] != g.cells[j] ==> step_cell(g, x, y).moved[j] || step_cell(
            g,
            x,
            y,
        ).cells[j] == CellType::Empty,
{
    if spec_movable(cell_at(g, x, y)) {
        lemma_row_index_bound(g, x, y);
        if in_bounds(g, x, y + 1) {
            lemma_row_index_bound(g, x, y + 1);
        }
        if in_bounds(g, x - 1, y + 1) {
            lemma_row_index_bound(g, x - 1, y + 1);
        }
        if in_bounds(g, x + 1, y + 1) {
            lemma_row_index_bound(g, x + 1, y + 1);
        }
        if in_bounds(g, x - 1, y) {
            lemma_row_index_bound(g, x - 1, y);
        }
        if in_bounds(g, x + 1, y) {
            lemma_row_index_bound(g, x + 1, y);
        }
    }
}

proof fn lemma_pass_cells_marks(g: GridModel, y: int, x: int, n: nat, j: int)
    requires
        gm_wf(g),
        0 <= j < g.cells.len(),
    ensures
        ({
            let r = pass_cells(g, y, x, n);
            r.cells[j] != g.cells[j] && r.cells[j] != CellType::Empty ==> r.moved[j]
        }),
    decreases n,
{
    if n > 0 {
        let g1 = step_cell(g, x, y);
        lemma_step_cell_wf(g, x, y);
        lemma_step_cell_marks(g, x, y, j);
        lemma_pass_cells_marks(g1, y, x + 1, (n - 1) as nat, j);
        if g1.moved[j] {
            lemma_pass_cells_frozen(g1, y, x + 1, (n - 1) as nat, j);
        }
    }
}

/// No double step: once a cell has been moved into during an automaton
/// pass — that is, once its moved marker is set — no later step of the same
/// pass can change that cell again: its material stays exactly what was
/// written, and its marker stays set. `pass_rows(g, n)` is the remainder of
/// a pass run from any intermediate state `g`, so this holds at every point
/// within one `update` call.
pub proof fn lemma_moved_cell_frozen(g: GridModel, n: nat, j: int)
    requires
        gm_wf(g),
        0 <= j < g.cells.len(),
        g.moved[j],
    ensures
        pass_rows(g, n).cells[j] == g.cells[j],
        pass_rows(g, n).moved[j],
    decreases n,
{
    if n > 0 {
        lemma_pass_cells_frozen(g, n - 1, 0, g.w as nat, j);
        lemma_moved_cell_frozen(pass_cells(g, n - 1, 0, g.w as nat), (n - 1) as nat, j);
    }
}

/// The companion half of the no-double-step law: within a pass, the only
/// writes that leave a cell holding a material are moves into it, and
/// every move into a cell sets its moved marker. So whenever the rest of a
/// pass changes a cell to anything non-empty, the cell ends the pass
/// marked — and `lemma_moved_cell_frozen` then says it was written exactly
/// once. (A cell a grain vacated is only ever written back to empty, and
/// stays open for one later arrival.)
pub proof fn lemma_nonempty_write_marks(g: GridModel, n: nat, j: int)
    requires
        gm_wf(g),
        0 <= j < g.cells.len(),
    ensures
        ({
            let r = pass_rows(g, n);
            r.cells[j] != g.cells[j] && r.cells[j] != CellType::Empty ==> r.moved[j]
        }),
    decreases n,
{
    if n > 0 {
        let g1 = pass_cells(g, n - 1, 0, g.w as nat);
        lemma_pass_cells_marks(g, n - 1, 0, g.w as nat, j);
        lemma_pass_cells_wf(g, n - 1, 0, g.w as nat);
        lemma_nonempty_write_marks(g1, (n - 1) as nat, j);
        if g1.moved[j] {
            lemma_moved_cell_frozen(g1, (n - 1) as nat, j);
        }
    }
}

/// The material grid. The fields are public so that a renderer can read the
/// whole cell array; all mutation goes through the methods, whose contracts
/// are stated over the `GridModel` view.
pub struct Ground {
    pub w: usize,
    pub h: usize,
    pub cells: Vec<CellType>,
    pub moved: Vec<bool>,
}

impl View for Ground {
    type V = GridModel;

    open spec fn view(&self) -> GridModel {
        GridModel { w: self.w as int, h: self.h as int, cells: self.cells@, moved: self.moved@ }
    }
}

impl Ground {
    pub open spec fn wf(&self) -> bool {
        gm_wf(self@)
    }

    /// An all-empty field of `w * h` cells with every moved marker clear.
    pub fn new(w: usize, h: usize) -> (g: Ground)
        requires
            0 < w,
            0 < h,
            w <= i32::MAX as usize,
            h <= i32::MAX as usize,
            w * h <= usize::MAX,
        ensures
            g.wf(),
            g@.w == w as int,
            g@.h == h as int,
            forall|i: int| 0 <= i < w * h ==> g@.cells[i] == CellType::Empty,
            forall|i: int| 0 <= i < w * h ==> !g@.moved[i],
    {
        let n = w * h;
        let mut cells: Vec<CellType> = Vec::new();
        let mut moved: Vec<bool> = Vec::new();
        let mut i: usize = 0;
        while i < n
            invariant
                i <= n,
                cells.len() == i,
                moved.len() == i,
                forall|j: int| 0 <= j < i ==> cells@[j] == CellType::Empty,
                forall|j: int| 0 <= j < i ==> !moved@[j],
            decreases n - i,
        {
            cells.push(CellType::Empty);
            moved.push(false);
            i += 1;
        }
        Ground { w, h, cells, moved }
    }

    /// Bounded read: every out-of-range coordinate reads as `Bedrock`, so
    /// the boundary behaves as infinite solid rock.
    pub fn get_cell(&self, x: i32, y: i32) -> (r: CellType)
        requires
            self.wf(),
        ensures
            r == cell_at(self@, x as int, y as int),
            !in_bounds(self@, x as int, y as int) ==> r == CellType::Bedrock,
    {
        if x < 0 || y < 0 {
            return CellType::Bedrock;
        }
        let xu = x as usize;
        let yu = y as usize;
        if xu >= self.w || yu >= self.h {
            return CellType::Bedrock;
        }
        proof {
            lemma_row_index_bound(self@, x as int, y as int);
        }
        self.cells[yu * self.w + xu]
    }

    /// Bounded, move-checked write: rejected (returning `false`, grid
    /// untouched) out of range or when the target's moved marker is already
    /// set this tick; otherwise stores the material, marks the cell moved
    /// and returns `true`.
    pub fn set_cell(&mut self, x: i32, y: i32, val: CellType) -> (r: bool)
        requires
            old(self).wf(),
        ensures
            final(self).wf(),
            final(self)@ == write_at(old(self)@, x as int, y as int, val),
            r == write_allowed(old(self)@, x as int, y as int),
            !r ==> final(self)@ == old(self)@,
    {
        if x < 0 || y < 0 {
            return false;
        }
        let xu = x as usize;
        let yu = y as usize;
        if xu >= self.w || yu >= self.h {
            return false;
        }
        proof {
            lemma_row_index_bound(self@, x as int, y as int);
        }
        let i = yu * self.w + xu;
        if self.moved[i] {
            return false;
        }
        self.cells.set(i, val);
        self.moved.set(i, true);
        true
    }

    /// The swap primitive behind every automaton move; see `swap_at`.
    fn swap(&mut self, x: i32, y: i32, xo: i32, yo: i32)
        requires
            old(self).wf(),
            in_bounds(old(self)@, x as int, y as int),
            -1 <= xo <= 1,
            0 <= yo <= 1,
        ensures
            final(self).wf(),
            final(self)@ == swap_at(old(self)@, x as int, y as int, xo as int, yo as int),
    {
        let src = self.get_cell(x, y);
        let dst = self.get_cell(x + xo, y + yo);
        if self.set_cell(x + xo, y + yo, src) {
            proof {
                lemma_row_index_bound(old(self)@, x as int, y as int);
            }
            let i = (y as usize) * self.w + (x as usize);
            self.cells.set(i, dst);
        }
    }

    /// One automaton pass in place, exactly `update_spec` of the old state:
    /// markers cleared, then every cell stepped, rows bottom to top, cells
    /// left to right.
    pub fn update(&mut self)
        requires
            old(self).wf(),
        ensures
            final(self).wf(),
            final(self)@ == update_spec(old(self)@),
            final(self)@.w == old(self)@.w,
            final(self)@.h == old(self)@.h,
    {
        let n = self.moved.len();
        let mut i: usize = 0;
        while i < n
            invariant
                i <= n,
                self.w == old(self).w,
                self.h == old(self).h,
                self.cells@ == old(self).cells@,
                self.moved.len() == n,
                n == old(self).moved.len(),
                forall|j: int| 0 <= j < i ==> !self.moved@[j],
                forall|j: int| i <= j < n ==> self.moved@[j] == old(self).moved@[j],
            decreases n - i,
        {
            self.moved.set(i, false);
            i += 1;
        }
        proof {
            assert(self@ =~= clear_marks(old(self)@));
        }

        let w = self.w;
        let h = self.h;
        let ghost goal = update_spec(old(self)@);
        assert(pass_rows(self@, h as nat) == goal);

        let mut yy: usize = h;
        while yy > 0
            invariant
                self.wf(),
                self.w == w,
                self.h == h,
                yy <= h,
                0 < w <= i32::MAX as usize,
                0 < h <= i32::MAX as usize,
                pass_rows(self@, yy as nat) == goal,
            decreases yy,
        {
            let y = yy - 1;
            let mut x: usize = 0;
            while x < w
                invariant
                    self.wf(),
                    self.w == w,
                    self.h == h,
                    x <= w,
                    y < h,
                    0 < w <= i32::MAX as usize,
                    0 < h <= i32::MAX as usize,
                    pass_rows(pass_cells(self@, y as int, x as int, (w - x) as nat), y as nat)
                        == goal,
                decreases w - x,
            {
                let ghost pre = self@;
                let cx = x as i32;
                let cy = y as i32;
                let cell = self.get_cell(cx, cy);
                if cell == CellType::Sand || cell == CellType::AntiSand || cell
                    == CellType::Water {
                    proof {
                        lemma_row_index_bound(pre, cx as int, cy as int);
                        assert((y * w + x) as int == cell_index(pre, cx as int, cy as int))
                            by (nonlinear_arith)
                            requires
                                pre.w == w as int,
                                cx as int == x as int,
                                cy as int == y as int,
                                x < w,
                                y < h,
                        ;
                    }
                    let i = y * w + x;
                    if !self.moved[i] {
                        let below = self.get_cell(cx, cy + 1);
                        if below == CellType::Empty {
                            self.swap(cx, cy, 0, 1);
                        } else if cell == CellType::AntiSand && below != CellType::AntiSand {
                            self.set_cell(cx, cy, CellType::Empty);
                            self.set_cell(cx, cy + 1, CellType::Empty);
                        } else {
                            let dir: i32 = if i % 2 == 0 {
                                -1
                            } else {
                                1
                            };
                            let left = self.get_cell(cx - 1, cy);
                            let right = self.get_cell(cx + 1, cy);
                            let down_left = if is_free(left) {
                                self.get_cell(cx - 1, cy + 1)
                            } else {
                                CellType::Bedrock
                            };
                            let down_right = if is_free(right) {
                                self.get_cell(cx + 1, cy + 1)
                            } else {
                                CellType::Bedrock
                            };
                            if down_left == CellType::Empty && down_right == CellType::Empty {
                                self.swap(cx, cy, dir, 1);
                            } else if down_right == CellType::Empty {
                                self.swap(cx, cy, 1, 1);
                            } else if down_left == CellType::Empty {
                                self.swap(cx, cy, -1, 1);
                            } else if cell == CellType::Water {
                                if left == CellType::Empty && right == CellType::Empty {
                                    self.swap(cx, cy, dir, 0);
                                } else if left == CellType::Empty {
                                    self.swap(cx, cy, -1, 0);
                                } else if right == CellType::Empty {
                                    self.swap(cx, cy, 1, 0);
                                }
                            }
                        }
                    }
                }
                proof {
                    assert(self@ == step_cell(pre, x as int, y as int));
                }
                x += 1;
            }
            yy -= 1;
        }
    }

    /// Raw write used only by world generation; see `put_at`.
    fn put(&mut self, x: usize, y: usize, v: CellType)
        requires
            old(self).wf(),
        ensures
            final(self).wf(),
            final(self)@ == put_at(old(self)@, x as int, y as int, v),
    {
        if x < self.w && y < self.h {
            proof {
                lemma_row_index_bound(old(self)@, x as int, y as int);
            }
            let i = y * self.w + x;
            self.cells.set(i, v);
        }
    }

    /// Scatters one randomly placed, randomly sized `Wood` rectangle; see
    /// `rnd_line_spec`.
    fn rnd_line(&mut self, rng: &mut Rng)
        requires
            old(self).wf(),
        ensures
            final(self).wf(),
            final(self)@ == rnd_line_spec(old(self)@, old(rng)@).0,
            final(rng)@ == rnd_line_spec(old(self)@, old(rng)@).1,
    {
        let x1 = rng.gen_range(0, self.w as u64) as usize;
        let wr = rng.gen_range(20, 130) as usize;
        let y1 = rng.gen_range(40, (self.h / 2 + 100) as u64) as usize;
        let hr = rng.gen_range(5, 10) as usize;
        let ghost target = fill_rect(self@, x1 as int, y1 as int, hr as nat, wr as nat);
        assert(target == rnd_line_spec(old(self)@, old(rng)@).0);
        let mut dx: usize = 0;
        while dx < wr
            invariant
                self.wf(),
                dx <= wr,
                x1 <= i32::MAX as usize,
                wr <= 129,
                hr <= 9,
                y1 <= i32::MAX as usize,
                fill_rect(self@, (x1 + dx) as int, y1 as int, hr as nat, (wr - dx) as nat)
                    == target,
            decreases wr - dx,
        {
            let x = x1 + dx;
            let ghost col_target = fill_rect_col(self@, x as int, y1 as int, hr as nat);
            let mut dy: usize = 0;
            while dy < hr
                invariant
                    self.wf(),
                    dy <= hr,
                    hr <= 9,
                    x <= i32::MAX as usize + 129,
                    y1 <= i32::MAX as usize,
                    fill_rect_col(self@, x as int, (y1 + dy) as int, (hr - dy) as nat)
                        == col_target,
                decreases hr - dy,
            {
                self.put(x, y1 + dy, CellType::Wood);
                dy += 1;
            }
            dx += 1;
        }
    }

    /// Procedural world generation: rows below the threshold height become
    /// fully solid, rows above scatter solid material with chance one in
    /// five, and thirty random solid rectangles are laid on top — exactly
    /// `init_spec` of the old grid and generator states, so a fixed seed
    /// always generates the same world.
    pub fn init(&mut self, rng: &mut Rng)
        requires
            old(self).wf(),
        ensures
            final(self).wf(),
            final(self)@ == init_spec(old(self)@, old(rng)@).0,
            final(rng)@ == init_spec(old(self)@, old(rng)@).1,
    {
        let w = self.w;
        let h = self.h;
        let ghost sgoal = scatter_rows(old(self)@, old(rng)@, 0, h as nat);
        let mut y: usize = 0;
        while y < h
            invariant
                self.wf(),
                self.w == w,
                self.h == h,
                y <= h,
                scatter_rows(self@, rng@, y as int, (h - y) as nat) == sgoal,
            decreases h - y,
        {
            let mut x: usize = 0;
            while x < w
                invariant
                    self.wf(),
                    self.w == w,
                    self.h == h,
                    x <= w,
                    y < h,
                    scatter_rows(
                        scatter_row(self@, rng@, y as int, x as int, (w - x) as nat).0,
                        scatter_row(self@, rng@, y as int, x as int, (w - x) as nat).1,
                        y as int + 1,
                        (h - y - 1) as nat,
                    ) == sgoal,
                decreases w - x,
            {
                let ghost pre_g = self@;
                let ghost pre_s = rng@;
                if y > h / 2 + h / 4 {
                    self.put(x, y, CellType::Wood);
                } else {
                    let roll = rng.gen_range(0, 5);
                    if roll == 0 {
                        self.put(x, y, CellType::Sand);
                    }
                }
                proof {
                    assert((self@, rng@) == scatter_cell(pre_g, pre_s, x as int, y as int));
                }
                x += 1;
            }
            y += 1;
        }
        let ghost lgoal = rnd_lines(sgoal.0, sgoal.1, 30);
        assert(lgoal == init_spec(old(self)@, old(rng)@));
        let mut k: usize = 0;
        while k < 30
            invariant
                self.wf(),
                k <= 30,
                rnd_lines(self@, rng@, (30 - k) as nat) == rnd_lines(sgoal.0, sgoal.1, 30),
            decreases 30 - k,
        {
            self.rnd_line(rng);
            k += 1;
        }
    }

    /// One roll in `[0, 10)` from the injected generator.
    pub fn rnd(&self, rng: &mut Rng) -> (r: i32)
        ensures
            final(rng)@ == next_state(old(rng)@),
            r == range_value(old(rng)@, 0, 10),
            0 <= r < 10,
    {
        rng.gen_range(0, 10) as i32
    }

    /// Clears every moved marker; the tick driver calls this after the
    /// automaton pass so that the agents' deferred changes can be applied.
    pub fn reset_moved(&mut self)
        requires
            old(self).wf(),
        ensures
            final(self).wf(),
            final(self)@.w == old(self)@.w,
            final(self)@.h == old(self)@.h,
            final(self)@.cells == old(self)@.cells,
            forall|i: int| 0 <= i < final(self)@.moved.len() ==> !final(self)@.moved[i],
    {
        let n = self.moved.len();
        let mut i: usize = 0;
        while i < n
            invariant
                i <= n,
                self.w == old(self).w,
                self.h == old(self).h,
                self.cells@ == old(self).cells@,
                self.moved.len() == n,
                forall|j: int| 0 <= j < i ==> !self.moved@[j],
            decreases n - i,
        {
            self.moved.set(i, false);
            i += 1;
        }
    }
}

} // verus!
