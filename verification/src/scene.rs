//! The scene model: a fixed grid of placed entities.
//!
//! The grid covers the canvas with square cells of `CELL_SIZE` pixels. Every
//! coordinate holds at most one entity, which the representation makes true
//! by construction: one slot per cell. The model also counts how many
//! discrete simulation steps have been requested; what a step does to the
//! entities belongs to the lighting-propagation collaborator and is outside
//! this core, so the count is all this model records of it.

use vstd::prelude::*;

verus! {

/// One placeable entity kind.
#[derive(Clone, Copy, PartialEq, Eq, Structural, Debug)]
pub enum Entity {
    SolidBlock,
    LightBlock,
    PointLight,
}

/// Mathematical model of a scene: grid contents, dimensions, and the number
/// of simulation steps requested so far.
pub struct SceneView {
    pub grid: Seq<Option<Entity>>,
    pub cols: int,
    pub rows: int,
    pub steps: int,
}

/// Slot index of the cell at column `x`, row `y`.
pub open spec fn cell_index(v: SceneView, x: int, y: int) -> int {
    y * v.cols + x
}

/// The cell coordinates lie inside the grid.
pub open spec fn cell_in_bounds(v: SceneView, x: int, y: int) -> bool {
    0 <= x < v.cols && 0 <= y < v.rows
}

/// No cell of the grid holds an entity.
pub open spec fn grid_empty(g: Seq<Option<Entity>>) -> bool {
    forall|i: int| 0 <= i < g.len() ==> (#[trigger] g[i]) is None
}

/// The scene after placing `e` at in-bounds cell `(x, y)`.
pub open spec fn scene_place(v: SceneView, x: int, y: int, e: Entity) -> SceneView {
    SceneView { grid: v.grid.update(cell_index(v, x, y), Some(e)), ..v }
}

/// The scene after erasing the in-bounds cell `(x, y)`.
pub open spec fn scene_remove(v: SceneView, x: int, y: int) -> SceneView {
    SceneView { grid: v.grid.update(cell_index(v, x, y), None), ..v }
}

/// The scene with every cell emptied; dimensions, steps unchanged.
pub open spec fn scene_cleared(v: SceneView) -> SceneView {
    SceneView { grid: Seq::new(v.grid.len(), |i: int| None), ..v }
}

/// The scene with one more simulation step requested.
pub open spec fn scene_advanced(v: SceneView) -> SceneView {
    SceneView { steps: v.steps + 1, ..v }
}

/// The scene restored to its state right after construction.
pub open spec fn scene_reset(v: SceneView) -> SceneView {
    SceneView { grid: Seq::new(v.grid.len(), |i: int| None), steps: 0, ..v }
}

/// The authoritative grid of placed entities.
pub struct SceneModel {
    cells: Vec<Option<Entity>>,
    cols: usize,
    rows: usize,
    steps: u64,
}

impl View for SceneModel {
    type V = SceneView;

    closed spec fn view(&self) -> SceneView {
        SceneView {
            grid: self.cells@,
            cols: self.cols as int,
            rows: self.rows as int,
            steps: self.steps as int,
        }
    }
}

impl SceneModel {
    /// One slot per cell, and dimensions small enough that every derived
    /// quantity (slot indices, vertex counts) fits its machine type.
    pub open spec fn wf(&self) -> bool {
        &&& self@.grid.len() == self@.cols * self@.rows
        &&& 0 <= self@.cols <= 4096
        &&& 0 <= self@.rows <= 4096
    }

    /// Builds an empty scene of `cols` by `rows` cells.
    pub fn new(cols: usize, rows: usize) -> (s: SceneModel)
        requires
            cols <= 4096,
            rows <= 4096,
        ensures
            s.wf(),
            s@.cols == cols,
            s@.rows == rows,
            s@.steps == 0,
            grid_empty(s@.grid),
    {
        proof {
            assert(cols * rows <= 4096 * 4096) by (nonlinear_arith)
                requires
                    cols <= 4096,
                    rows <= 4096,
            ;
        }
        let total: usize = cols * rows;
        let mut cells: Vec<Option<Entity>> = Vec::new();
        let mut k: usize = 0;
        while k < total
            invariant
                k <= total,
                cells@.len() == k,
                forall|i: int| 0 <= i < k ==> (#[trigger] cells@[i]) is None,
            decreases total - k,
        {
            cells.push(None);
            k = k + 1;
        }
        SceneModel { cells, cols, rows, steps: 0 }
    }

    /// Number of grid columns.
    pub fn cols(&self) -> (r: usize)
        ensures
            r == self@.cols,
    {
        self.cols
    }

    /// Number of grid rows.
    pub fn rows(&self) -> (r: usize)
        ensures
            r == self@.rows,
    {
        self.rows
    }

    /// Total number of grid slots.
    pub fn grid_len(&self) -> (r: usize)
        ensures
            r == self@.grid.len(),
    {
        self.cells.len()
    }

    /// Reads the entity in grid slot `i`.
    pub fn entity_at_slot(&self, i: usize) -> (r: Option<Entity>)
        requires
            i < self@.grid.len(),
        ensures
            r == self@.grid[i as int],
    {
        self.cells[i]
    }

    /// Number of simulation steps requested so far.
    pub fn steps(&self) -> (r: u64)
        ensures
            r == self@.steps,
    {
        self.steps
    }

    /// Reads the entity at cell `(x, y)`.
    pub fn get(&self, x: usize, y: usize) -> (r: Option<Entity>)
        requires
            self.wf(),
            cell_in_bounds(self@, x as int, y as int),
        ensures
            r == self@.grid[cell_index(self@, x as int, y as int)],
    {
        let total: usize = self.cells.len();
        proof {
            lemma_cell_index_in_range(self@, x as int, y as int);
        }
        let i: usize = y * self.cols + x;
        self.cells[i]
    }

    /// Places `e` at cell `(x, y)`, replacing whatever stood there.
    pub fn place(&mut self, x: usize, y: usize, e: Entity)
        requires
            old(self).wf(),
            cell_in_bounds(old(self)@, x as int, y as int),
        ensures
            final(self).wf(),
            final(self)@ == scene_place(old(self)@, x as int, y as int, e),
    {
        let total: usize = self.cells.len();
        proof {
            lemma_cell_index_in_range(self@, x as int, y as int);
        }
        let i: usize = y * self.cols + x;
        self.cells[i] = Some(e);
    }

    /// Removes any entity at cell `(x, y)`.
    pub fn remove(&mut self, x: usize, y: usize)
        requires
            old(self).wf(),
            cell_in_bounds(old(self)@, x as int, y as int),
        ensures
            final(self).wf(),
            final(self)@ == scene_remove(old(self)@, x as int, y as int),
    {
        let total: usize = self.cells.len();
        proof {
            lemma_cell_index_in_range(self@, x as int, y as int);
        }
        let i: usize = y * self.cols + x;
        self.cells[i] = None;
    }

    /// Empties the grid; dimensions and the step count stay.
    pub fn clear(&mut self)
        requires
            old(self).wf(),
        ensures
            final(self).wf(),
            final(self)@ == scene_cleared(old(self)@),
            grid_empty(final(self)@.grid),
    {
        let total: usize = self.cells.len();
        let mut k: usize = 0;
        while k < total
            invariant
                k <= total,
                total == self.cells@.len(),
                self.cols == old(self).cols,
                self.rows == old(self).rows,
                self.steps == old(self).steps,
                forall|i: int| 0 <= i < k ==> (#[trigger] self.cells@[i]) is None,
            decreases total - k,
        {
            self.cells[k] = None;
            k = k + 1;
        }
        proof {
            assert(self.cells@ =~= Seq::new(old(self)@.grid.len(), |i: int| None));
        }
    }

    /// Requests one discrete simulation step; the grid itself is untouched
    /// here, since the step's semantics belong to the collaborator.
    pub fn advance_step(&mut self)
        requires
            old(self).wf(),
            old(self)@.steps < u64::MAX,
        ensures
            final(self).wf(),
            final(self)@ == scene_advanced(old(self)@),
    {
        self.steps = self.steps + 1;
    }

    /// Restores the scene to its just-built state: empty grid, zero steps.
    pub fn reset(&mut self)
        requires
            old(self).wf(),
        ensures
            final(self).wf(),
            final(self)@ == scene_reset(old(self)@),
            grid_empty(final(self)@.grid),
    {
        self.clear();
        self.steps = 0;
        proof {
            assert(self@ =~= scene_reset(old(self)@)) by {
                assert(self.cells@ =~= Seq::new(old(self)@.grid.len(), |i: int| None));
            }
        }
    }
}

/// Distinct in-bounds cells occupy distinct grid slots, so every
/// coordinate maps to at most one entity and an edit to one cell can touch
/// no other.
pub proof fn lemma_cell_index_injective(v: SceneView, x1: int, y1: int, x2: int, y2: int)
    requires
        cell_in_bounds(v, x1, y1),
        cell_in_bounds(v, x2, y2),
        (x1, y1) != (x2, y2),
    ensures
        cell_index(v, x1, y1) != cell_index(v, x2, y2),
{
    if y1 == y2 {
    } else {
        assert(y1 * v.cols + x1 != y2 * v.cols + x2) by (nonlinear_arith)
            requires
                0 <= x1 < v.cols,
                0 <= x2 < v.cols,
                0 <= y1,
                0 <= y2,
                y1 != y2,
        ;
    }
}

/// An in-bounds cell's slot index lies inside the grid vector.
pub proof fn lemma_cell_index_in_range(v: SceneView, x: int, y: int)
    requires
        cell_in_bounds(v, x, y),
        v.grid.len() == v.cols * v.rows,
    ensures
        0 <= cell_index(v, x, y) < v.grid.len(),
{
    assert(y * v.cols + x < v.rows * v.cols) by (nonlinear_arith)
        requires
            0 <= x < v.cols,
            0 <= y < v.rows,
    ;
    assert(v.rows * v.cols == v.cols * v.rows) by (nonlinear_arith);
    assert(y * v.cols + x >= 0) by (nonlinear_arith)
        requires
            0 <= x,
            0 <= y,
            0 <= v.cols,
    ;
}

} // verus!
