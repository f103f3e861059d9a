use vstd::prelude::*;

verus! {

/// A grid cell, given by its column and row.
#[derive(Clone, Copy, Debug, PartialEq, Eq, Hash, Structural)]
pub struct Cell(pub i32, pub i32);

/// A rectangular grid level whose cells are stored row by row.
#[derive(Clone, Debug)]
pub struct Level {
    pub width: usize,
    pub height: usize,
    pub cells: Vec<Cell>,
}

/// A weapon kind and the damage it deals.
#[derive(Clone, Copy, Debug)]
pub struct Weapon {
    pub name: &'static str,
    pub damage: i32,
}

/// A monster kind and its starting health.
#[derive(Clone, Copy, Debug)]
pub struct Monster {
    pub name: &'static str,
    pub health: i32,
}

impl Level {
    /// Row `y`, column `x` of the grid lies at index `y * width + x`.
    pub open spec fn cell_at(self, x: int, y: int) -> Cell {
        self.cells@[y * self.width + x]
    }

    pub fn new(width: usize, height: usize) -> (r: Self)
        requires
            width * height <= usize::MAX,
        ensures
            r.width == width,
            r.height == height,
            r.cells@.len() == width * height,
            forall|x: int, y: int|
                0 <= x < width && 0 <= y < height ==> #[trigger] r.cell_at(x, y) == Cell(
                    x as i32,
                    y as i32,
                ),
    {
        let mut cells: Vec<Cell> = Vec::new();
        let mut y: usize = 0;
        while y < height
            invariant
                y <= height,
                width * height <= usize::MAX,
                cells@.len() == y * width,
                forall|i: int, j: int|
                    0 <= i < width && 0 <= j < y ==> #[trigger] cells@[j * width + i] == Cell(
                        i as i32,
                        j as i32,
                    ),
            decreases height - y,
        {
            proof {
                assert((y + 1) * width <= width * height) by (nonlinear_arith)
                    requires
                        y < height,
                ;
            }
            let mut x: usize = 0;
            while x < width
                invariant
                    x <= width,
                    y < height,
                    (y + 1) * width <= usize::MAX,
                    cells@.len() == y * width + x,
                    forall|i: int, j: int|
                        0 <= i < width && 0 <= j < y ==> #[trigger] cells@[j * width + i] == Cell(
                            i as i32,
                            j as i32,
                        ),
                    forall|i: int| 0 <= i < x ==> #[trigger] cells@[y * width + i] == Cell(i as i32, y as i32),
                decreases width - x,
            {
                proof {
                    assert(y * width + x < (y + 1) * width) by (nonlinear_arith)
                        requires
                            x < width,
                    ;
                }
                cells.push(Cell(x as i32, y as i32));
                proof {
                    assert forall|i: int, j: int|
                        0 <= i < width && 0 <= j < y implies #[trigger] cells@[j * width + i] == Cell(
                            i as i32,
                            j as i32,
                        ) by {
                        assert(j * width + i < y * width) by (nonlinear_arith)
                            requires
                                i < width,
                                j < y,
                        ;
                    }
                }
                x = x + 1;
            }
            proof {
                assert forall|i: int, j: int|
                    0 <= i < width && 0 <= j < y + 1 implies #[trigger] cells@[j * width + i] == Cell(
                        i as i32,
                        j as i32,
                    ) by {
                    if j == y {
                        assert(cells@[y * width + i] == Cell(i as i32, y as i32));
                    }
                }
                assert((y + 1) * width == y * width + width) by (nonlinear_arith);
            }
            y = y + 1;
        }
        proof {
            assert(height * width == width * height) by (nonlinear_arith);
        }
        let r = Level { width, height, cells };
        assert forall|x: int, y: int|
            0 <= x < width && 0 <= y < height implies #[trigger] r.cell_at(x, y) == Cell(
                x as i32,
                y as i32,
            ) by {
            assert(r.cells@[y * width + x] == Cell(x as i32, y as i32));
        }
        r
    }
}

} // verus!
