use vstd::prelude::*;

verus! {

/// Number of columns of the display.
pub const WIDTH: usize = 320;

/// Number of rows of the display.
pub const HEIGHT: usize = 240;

/// Number of cells of the display.
pub const CELLS: usize = WIDTH * HEIGHT;

/// The display's pixel grid: `CELLS` packed 32-bit colour values, row by
/// row from the top, each row from the left.
pub struct Framebuffer {
    cells: Vec<u32>,
}

impl View for Framebuffer {
    type V = Seq<u32>;

    closed spec fn view(&self) -> Seq<u32> {
        self.cells@
    }
}

impl Framebuffer {
    #[verifier::type_invariant]
    spec fn inv(self) -> bool {
        self.cells@.len() == CELLS
    }

    /// A grid whose cells all hold 0.
    pub fn new() -> (fb: Framebuffer)
        ensures
            fb@ == Seq::new(CELLS as nat, |k: int| 0u32),
    {
        let mut cells: Vec<u32> = Vec::new();
        let mut k: usize = 0;
        while k < CELLS
            invariant
                k <= CELLS,
                cells@ == Seq::new(k as nat, |k: int| 0u32),
            decreases CELLS - k,
        {
            cells.push(0);
            k = k + 1;
        }
        Framebuffer { cells }
    }

    /// The number of cells, which never changes.
    pub fn len(&self) -> (n: usize)
        ensures
            n == CELLS,
            self@.len() == CELLS,
    {
        proof {
            use_type_invariant(self);
        }
        self.cells.len()
    }

    /// The value of cell `k`.
    pub fn get(&self, k: usize) -> (v: u32)
        requires
            k < CELLS,
        ensures
            v == self@[k as int],
            self@.len() == CELLS,
    {
        proof {
            use_type_invariant(self);
        }
        self.cells[k]
    }

    /// Writes `v` into cell `k` and keeps every other cell.
    pub fn set(&mut self, k: usize, v: u32)
        requires
            k < CELLS,
        ensures
            final(self)@ == old(self)@.update(k as int, v),
            final(self)@.len() == CELLS,
    {
        proof {
            use_type_invariant(&*self);
        }
        self.cells[k] = v;
    }

    /// Writes `v` into every cell.
    pub fn fill(&mut self, v: u32)
        ensures
            final(self)@ == Seq::new(old(self)@.len(), |k: int| v),
            final(self)@.len() == CELLS,
    {
        proof {
            use_type_invariant(&*self);
        }
        let mut k: usize = 0;
        while k < CELLS
            invariant
                k <= CELLS,
                self.cells@.len() == CELLS,
                forall|j: int| 0 <= j < k ==> self.cells@[j] == v,
            decreases CELLS - k,
        {
            self.cells[k] = v;
            k = k + 1;
        }
    }

    /// The value at column `x` of row `y`, or `None` outside the grid.
    pub fn pixel(&self, x: usize, y: usize) -> (r: Option<u32>)
        ensures
            r == (if x < WIDTH && y < HEIGHT {
                Some(self@[y * WIDTH + x])
            } else {
                None
            }),
    {
        if x < WIDTH && y < HEIGHT {
            Some(self.get(y * WIDTH + x))
        } else {
            None
        }
    }

    /// The cells as one slice, in grid order.
    pub fn as_slice(&self) -> (s: &[u32])
        ensures
            s@ == self@,
    {
        self.cells.as_slice()
    }
}

} // verus!
