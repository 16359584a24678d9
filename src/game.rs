use vstd::arithmetic::div_mod::{lemma_fundamental_div_mod, lemma_fundamental_div_mod_converse};
use vstd::prelude::*;

verus! {

// ---------------------------------------------------------------------------
// The mathematical model: a grid of `w` columns and `h` rows is a sequence of
// `w * h` flags in row-major order, the cell (x, y) standing at `x + y * w`.
// ---------------------------------------------------------------------------

/// Whether (x, y) names a cell of a `w` by `h` grid.
pub open spec fn in_grid(w: int, h: int, x: int, y: int) -> bool {
    0 <= x < w && 0 <= y < h
}

/// The flat position of the cell (x, y) in a grid of `w` columns.
pub open spec fn flat_index(w: int, x: int, y: int) -> int {
    x + y * w
}

/// Whether (x, y) is a living cell. Coordinates off the grid hold no cell
/// and count as dead: the grid does not wrap around.
pub open spec fn alive_in(w: int, h: int, s: Seq<bool>, x: int, y: int) -> bool {
    in_grid(w, h, x, y) && s[flat_index(w, x, y)]
}

/// 1 for a living cell, 0 otherwise.
pub open spec fn alive_count(w: int, h: int, s: Seq<bool>, x: int, y: int) -> int {
    if alive_in(w, h, s, x, y) {
        1
    } else {
        0
    }
}

/// How many of the eight cells around (x, y) are alive.
pub open spec fn live_neighbors(w: int, h: int, s: Seq<bool>, x: int, y: int) -> int {
    alive_count(w, h, s, x - 1, y - 1) + alive_count(w, h, s, x - 1, y) + alive_count(
        w,
        h,
        s,
        x - 1,
        y + 1,
    ) + alive_count(w, h, s, x, y - 1) + alive_count(w, h, s, x, y + 1) + alive_count(
        w,
        h,
        s,
        x + 1,
        y - 1,
    ) + alive_count(w, h, s, x + 1, y) + alive_count(w, h, s, x + 1, y + 1)
}

/// The rule of life: a living cell survives with two or three living
/// neighbours; a dead cell comes alive with exactly three.
pub open spec fn next_state(alive: bool, neighbors: int) -> bool {
    if alive {
        neighbors == 2 || neighbors == 3
    } else {
        neighbors == 3
    }
}

/// The next generation of a grid, every cell computed from the previous one.
pub open spec fn next_generation(w: int, h: int, s: Seq<bool>) -> Seq<bool> {
    Seq::new(s.len(), |i: int| next_state(s[i], live_neighbors(w, h, s, i % w, i / w)))
}

/// The grid after `n` generations.
pub open spec fn generations(w: int, h: int, s: Seq<bool>, n: nat) -> Seq<bool>
    decreases n,
{
    if n == 0 {
        s
    } else {
        next_generation(w, h, generations(w, h, s, (n - 1) as nat))
    }
}

/// The grid with the cell (x, y) set to `v`; unchanged when (x, y) is off the grid.
pub open spec fn with_cell(w: int, h: int, s: Seq<bool>, x: int, y: int, v: bool) -> Seq<bool> {
    if in_grid(w, h, x, y) {
        s.update(flat_index(w, x, y), v)
    } else {
        s
    }
}

/// The grid with the cell (x, y) flipped; unchanged when (x, y) is off the grid.
pub open spec fn with_toggled(w: int, h: int, s: Seq<bool>, x: int, y: int) -> Seq<bool> {
    if in_grid(w, h, x, y) {
        s.update(flat_index(w, x, y), !s[flat_index(w, x, y)])
    } else {
        s
    }
}

/// A well-shaped grid: positive sides and one flag per cell.
pub open spec fn grid_shape(w: int, h: int, s: Seq<bool>) -> bool {
    w > 0 && h > 0 && s.len() == w * h
}

/// A cell of the grid sits at a flat position inside the sequence, and that
/// position gives the coordinates back.
pub proof fn lemma_flat_index(w: int, h: int, x: int, y: int)
    requires
        w > 0,
        h > 0,
        in_grid(w, h, x, y),
    ensures
        0 <= flat_index(w, x, y) < w * h,
        flat_index(w, x, y) % w == x,
        flat_index(w, x, y) / w == y,
{
    lemma_fundamental_div_mod_converse(x + y * w, w, y, x);
    assert(x + y * w < w * h) by (nonlinear_arith)
        requires
            0 <= x < w,
            0 <= y < h,
    ;
    assert(0 <= x + y * w) by (nonlinear_arith)
        requires
            0 <= x,
            0 <= y,
            w > 0,
    ;
}

/// Every flat position of the sequence is the position of a cell of the grid.
pub proof fn lemma_coords(w: int, h: int, i: int)
    requires
        w > 0,
        h > 0,
        0 <= i < w * h,
    ensures
        in_grid(w, h, i % w, i / w),
        flat_index(w, i % w, i / w) == i,
{
    lemma_fundamental_div_mod(i, w);
    let q = i / w;
    let r = i % w;
    assert(0 <= r < w);
    assert(i == q * w + r) by (nonlinear_arith)
        requires
            i == w * q + r,
    ;
    assert(0 <= q < h) by (nonlinear_arith)
        requires
            i == q * w + r,
            0 <= r < w,
            0 <= i < w * h,
            w > 0,
    ;
}

/// One square of the board: alive or dead. Its coordinates are those of its
/// place on the board, computed from that place when needed.
#[derive(Clone, Copy, Debug, PartialEq, Eq, Structural)]
pub struct Cell {
    value: bool,
}

impl Cell {
    /// Whether the cell is alive, in specifications.
    pub closed spec fn alive(&self) -> bool {
        self.value
    }

    pub fn is_alive(&self) -> (r: bool)
        ensures
            r == self.alive(),
    {
        self.value
    }
}

/// A rectangular, non-wrapping grid of cells, stored row by row.
pub struct Board {
    width: i32,
    height: i32,
    cells: Vec<Cell>,
}

impl View for Board {
    type V = Seq<bool>;

    /// The living flags of the cells, in row-major order.
    closed spec fn view(&self) -> Seq<bool> {
        Seq::new(self.cells@.len(), |i: int| self.cells@[i].value)
    }
}

impl Board {
    /// Number of columns.
    pub closed spec fn cols(&self) -> int {
        self.width as int
    }

    /// Number of rows.
    pub closed spec fn rows(&self) -> int {
        self.height as int
    }

    /// Positive sides, one cell per position, and a cell count that fits in `usize`.
    pub open spec fn wf(&self) -> bool {
        &&& grid_shape(self.cols(), self.rows(), self@)
        &&& self.cols() <= i32::MAX
        &&& self.rows() <= i32::MAX
        &&& self.cols() * self.rows() <= usize::MAX
    }

    /// Whether (x, y) is a living cell of this board.
    pub open spec fn alive_at(&self, x: int, y: int) -> bool {
        alive_in(self.cols(), self.rows(), self@, x, y)
    }

    /// A board of `width` by `height` dead cells.
    pub fn new(width: i32, height: i32) -> (b: Board)
        requires
            width > 0,
            height > 0,
            width as int * height as int <= usize::MAX,
        ensures
            b.wf(),
            b.cols() == width,
            b.rows() == height,
            b@ == Seq::new((width * height) as nat, |i: int| false),
    {
        let n: usize = (width as usize) * (height as usize);
        let mut cells: Vec<Cell> = Vec::new();
        let mut i: usize = 0;
        while i < n
            invariant
                i <= n,
                cells@.len() == i,
                forall|j: int| 0 <= j < i ==> !(#[trigger] cells@[j]).value,
            decreases n - i,
        {
            cells.push(Cell { value: false });
            i = i + 1;
        }
        let b = Board { width, height, cells };
        assert(b@ =~= Seq::new((width * height) as nat, |i: int| false));
        b
    }

    /// The number of columns and of rows.
    pub fn get_size(&self) -> (r: (i32, i32))
        ensures
            r.0 as int == self.cols(),
            r.1 as int == self.rows(),
    {
        (self.width, self.height)
    }

    /// The cell at (x, y), or `None` where (x, y) is off the board.
    pub fn get_cell(&self, x: i32, y: i32) -> (r: Option<&Cell>)
        requires
            self.wf(),
        ensures
            r.is_some() == in_grid(self.cols(), self.rows(), x as int, y as int),
            r.is_some() ==> r.unwrap().alive() == self.alive_at(x as int, y as int),
    {
        if x < 0 || x >= self.width || y < 0 || y >= self.height {
            return None;
        }
        proof {
            lemma_flat_index(self.cols(), self.rows(), x as int, y as int);
        }
        let idx: usize = x as usize + (y as usize) * (self.width as usize);
        Some(&self.cells[idx])
    }

    /// Sets the cell at (x, y) alive or dead; off the board nothing changes.
    pub fn set_cell(&mut self, x: i32, y: i32, value: bool)
        requires
            old(self).wf(),
        ensures
            final(self).wf(),
            final(self).cols() == old(self).cols(),
            final(self).rows() == old(self).rows(),
            final(self)@ == with_cell(old(self).cols(), old(self).rows(), old(self)@, x as int, y as int, value),
    {
        if x < 0 || x >= self.width || y < 0 || y >= self.height {
            return;
        }
        proof {
            lemma_flat_index(self.cols(), self.rows(), x as int, y as int);
        }
        let idx: usize = x as usize + (y as usize) * (self.width as usize);
        self.cells.set(idx, Cell { value });
        assert(self@ =~= with_cell(old(self).cols(), old(self).rows(), old(self)@, x as int, y as int, value));
    }

    /// Flips the cell at (x, y); off the board nothing changes.
    pub fn toggle_cell(&mut self, x: i32, y: i32)
        requires
            old(self).wf(),
        ensures
            final(self).wf(),
            final(self).cols() == old(self).cols(),
            final(self).rows() == old(self).rows(),
            final(self)@ == with_toggled(old(self).cols(), old(self).rows(), old(self)@, x as int, y as int),
    {
        if x < 0 || x >= self.width || y < 0 || y >= self.height {
            return;
        }
        proof {
            lemma_flat_index(self.cols(), self.rows(), x as int, y as int);
        }
        let idx: usize = x as usize + (y as usize) * (self.width as usize);
        let flipped = !self.cells[idx].value;
        self.cells.set(idx, Cell { value: flipped });
        assert(self@ =~= with_toggled(old(self).cols(), old(self).rows(), old(self)@, x as int, y as int));
    }

    /// 1 where (x, y) is a living cell, 0 where it is dead or off the board.
    fn live_at(&self, x: i32, y: i32) -> (r: u8)
        requires
            self.wf(),
        ensures
            r as int == alive_count(self.cols(), self.rows(), self@, x as int, y as int),
    {
        match self.get_cell(x, y) {
            Some(cell) => {
                if cell.is_alive() {
                    1
                } else {
                    0
                }
            },
            None => 0,
        }
    }

    /// How many of the eight cells around (x, y) are alive.
    fn count_live_neighbors(&self, x: i32, y: i32) -> (r: u8)
        requires
            self.wf(),
            in_grid(self.cols(), self.rows(), x as int, y as int),
        ensures
            r as int == live_neighbors(self.cols(), self.rows(), self@, x as int, y as int),
    {
        self.live_at(x - 1, y - 1) + self.live_at(x - 1, y) + self.live_at(x - 1, y + 1)
            + self.live_at(x, y - 1) + self.live_at(x, y + 1) + self.live_at(x + 1, y - 1)
            + self.live_at(x + 1, y) + self.live_at(x + 1, y + 1)
    }

    /// Advances the board by one generation. Every next state is computed
    /// from the previous generation and written to a fresh buffer, which then
    /// replaces the grid.
    pub fn step(&mut self)
        requires
            old(self).wf(),
        ensures
            final(self).wf(),
            final(self).cols() == old(self).cols(),
            final(self).rows() == old(self).rows(),
            final(self)@ == next_generation(old(self).cols(), old(self).rows(), old(self)@),
    {
        let n: usize = self.cells.len();
        let w: usize = self.width as usize;
        let mut after: Vec<Cell> = Vec::new();
        let mut i: usize = 0;
        while i < n
            invariant
                self.wf(),
                self == old(self),
                n == self@.len(),
                w == self.cols(),
                i <= n,
                after@.len() == i,
                forall|j: int|
                    0 <= j < i ==> (#[trigger] after@[j]).value == next_state(
                        self@[j],
                        live_neighbors(self.cols(), self.rows(), self@, j % self.cols(), j / self.cols()),
                    ),
            decreases n - i,
        {
            proof {
                lemma_coords(self.cols(), self.rows(), i as int);
            }
            let x: i32 = (i % w) as i32;
            let y: i32 = (i / w) as i32;
            let count: u8 = self.count_live_neighbors(x, y);
            let alive: bool = self.cells[i].value;
            let next: bool = if (alive && (count < 2 || count > 3)) || (!alive && count == 3) {
                !alive
            } else {
                alive
            };
            after.push(Cell { value: next });
            i = i + 1;
        }
        self.cells = after;
        assert(self@ =~= next_generation(old(self).cols(), old(self).rows(), old(self)@));
    }
}

} // verus!
