//! The derived ground-occupancy grid of the overworld: a 300 by 300 cell
//! grid filled from the raw ground records, with the band at the goal
//! position and the band at the stage start forced occupied. It is cached,
//! derived data — a pure function of the ground records and three header
//! fields — not part of the raw format.

use vstd::prelude::*;

use crate::level_parser::MapGround;

verus! {

/// The leftmost column of the goal band: the goal x-position, less 5, scaled
/// down by 10 with rounding to nearest — which is the goal x-position scaled
/// down by 10 with rounding toward minus infinity.
pub open spec fn goal_band_left(goal_x: i16) -> int {
    (goal_x as int) / 10
}

/// Whether cell `(x, y)` of the grid is occupied: a ground record sits there
/// (shifted by one in both axes), or it lies in the 10-column goal band over
/// the first `goal_y` rows, or in the 7-column start band over the first
/// `start_y` rows.
pub open spec fn grid_occupied(
    ground: Seq<MapGround>,
    start_y: u8,
    goal_y: u8,
    goal_x: i16,
    x: int,
    y: int,
) -> bool {
    ||| (exists|i: int|
        0 <= i < ground.len() && (#[trigger] ground[i]).x + 1 == x && ground[i].y + 1 == y)
    ||| (goal_band_left(goal_x) <= x < goal_band_left(goal_x) + 10 && 0 <= y < goal_y)
    ||| (0 <= x < 7 && 0 <= y < start_y)
}


/// Cell `(x, y)` of a flat 300 by 300 cell store.
pub open spec fn cell_of(cs: Seq<u8>, x: int, y: int) -> u8
    recommends
        0 <= x < 300,
        0 <= y < 300,
{
    cs[x * 300 + y]
}

/// A 300 by 300 occupancy grid, stored row-major by column index.
pub struct OccupancyGrid {
    cells: Vec<u8>,
}

impl OccupancyGrid {
    pub closed spec fn wf(&self) -> bool {
        self.cells@.len() == 90000
    }

    /// The stored value of cell `(x, y)`.
    pub closed spec fn cell(&self, x: int, y: int) -> u8
        recommends
            0 <= x < 300,
            0 <= y < 300,
    {
        cell_of(self.cells@, x, y)
    }

    pub fn get(&self, x: usize, y: usize) -> (r: u8)
        requires
            self.wf(),
            x < 300,
            y < 300,
        ensures
            r == self.cell(x as int, y as int),
    {
        self.cells[x * 300 + y]
    }
}

/// Computes the occupancy grid for a map's ground records and the level
/// header's start and goal geometry: a cell holds 1 exactly when
/// `grid_occupied` says so, and 0 otherwise.
pub fn ground_occupancy(ground: &Vec<MapGround>, start_y: u8, goal_y: u8, goal_x: i16) -> (r:
    OccupancyGrid)
    ensures
        r.wf(),
        forall|x: int, y: int|
            0 <= x < 300 && 0 <= y < 300 ==> #[trigger] r.cell(x, y) == (if grid_occupied(
                ground@,
                start_y,
                goal_y,
                goal_x,
                x,
                y,
            ) {
                1u8
            } else {
                0u8
            }),
{
    let mut cells: Vec<u8> = Vec::new();
    let mut i: usize = 0;
    while i < 90000
        invariant
            i <= 90000,
            cells@.len() == i,
            forall|k: int| 0 <= k < i ==> cells@[k] == 0,
        decreases 90000 - i,
    {
        cells.push(0);
        i = i + 1;
    }

    // ground records: cell (gx + 1, gy + 1) is occupied
    let mut gi: usize = 0;
    while gi < ground.len()
        invariant
            gi <= ground@.len(),
            cells@.len() == 90000,
            forall|x: int, y: int|
                0 <= x < 300 && 0 <= y < 300 ==> cell_of(cells@, x, y) == (if (exists|j: int|
                    0 <= j < gi && (#[trigger] ground@[j]).x + 1 == x && ground@[j].y + 1 == y) {
                    1u8
                } else {
                    0u8
                }),
        decreases ground@.len() - gi,
    {
        let cx = ground[gi].x as usize + 1;
        let cy = ground[gi].y as usize + 1;
        let ghost before = cells@;
        cells[cx * 300 + cy] = 1;
        gi = gi + 1;
        proof {
            assert forall|x: int, y: int| 0 <= x < 300 && 0 <= y < 300 implies cell_of(cells@, x, y)
                == (if (exists|j: int|
                0 <= j < gi && (#[trigger] ground@[j]).x + 1 == x && ground@[j].y + 1 == y) {
                1u8
            } else {
                0u8
            }) by {
                if x == cx && y == cy {
                    assert(ground@[gi - 1].x + 1 == x && ground@[gi - 1].y + 1 == y);
                } else {
                    assert(x * 300 + y != cx * 300 + cy);
                    assert(cell_of(cells@, x, y) == cell_of(before, x, y));
                }
            }
        }
    }

    // goal band: 10 columns starting at the rounded goal position, rows
    // 0 .. goal_y; columns outside the grid are skipped
    let band_left: i32 = {
        let h: u32 = (goal_x as i32 + 32768) as u32;
        let q: u32 = (h + 2) / 10;
        q as i32 - 3277
    };
    proof {
        assert(band_left as int == goal_band_left(goal_x)) by {
            let g = goal_x as int;
            assert((g + 32770) / 10 == g / 10 + 3277);
        }
    }
    let mut yy: usize = 0;
    while yy < goal_y as usize
        invariant
            yy <= goal_y,
            cells@.len() == 90000,
            band_left as int == goal_band_left(goal_x),
            forall|x: int, y: int|
                0 <= x < 300 && 0 <= y < 300 ==> cell_of(cells@, x, y) == (if ((exists|j: int|
                    0 <= j < ground@.len() && (#[trigger] ground@[j]).x + 1 == x && ground@[j].y
                        + 1 == y) || (goal_band_left(goal_x) <= x < goal_band_left(goal_x) + 10 && 0
                    <= y < yy)) {
                    1u8
                } else {
                    0u8
                }),
        decreases goal_y - yy,
    {
        let mut col: usize = 0;
        while col < 10
            invariant
                col <= 10,
                yy < goal_y,
                cells@.len() == 90000,
                band_left as int == goal_band_left(goal_x),
                forall|x: int, y: int|
                    0 <= x < 300 && 0 <= y < 300 ==> cell_of(cells@, x, y) == (if ((exists|j: int|
                        0 <= j < ground@.len() && (#[trigger] ground@[j]).x + 1 == x && ground@[j].y
                            + 1 == y) || (goal_band_left(goal_x) <= x < goal_band_left(goal_x) + 10
                        && 0 <= y < yy) || (goal_band_left(goal_x) <= x < goal_band_left(goal_x)
                        + col && y == yy)) {
                        1u8
                    } else {
                        0u8
                    }),
            decreases 10 - col,
        {
            let ghost prev = cells@;
            let x32: i32 = band_left + col as i32;
            if 0 <= x32 && x32 < 300 {
                let cx = x32 as usize;
                cells[cx * 300 + yy] = 1;
            }
            proof {
                assert forall|x: int, y: int| 0 <= x < 300 && 0 <= y < 300 implies cell_of(
                    cells@,
                    x,
                    y,
                ) == (if ((exists|j: int|
                    0 <= j < ground@.len() && (#[trigger] ground@[j]).x + 1 == x && ground@[j].y
                        + 1 == y) || (goal_band_left(goal_x) <= x < goal_band_left(goal_x) + 10 && 0
                    <= y < yy) || (goal_band_left(goal_x) <= x < goal_band_left(goal_x) + col + 1
                    && y == yy)) {
                    1u8
                } else {
                    0u8
                }) by {
                    if x == x32 as int && y == yy as int {
                        assert(cell_of(cells@, x, y) == 1);
                    } else {
                        assert(x * 300 + y != (x32 as int) * 300 + (yy as int));
                        assert(cell_of(cells@, x, y) == cell_of(prev, x, y));
                    }
                }
            }
            col = col + 1;
        }
        yy = yy + 1;
    }

    // start band: 7 columns at the stage start, rows 0 .. start_y
    let mut yy: usize = 0;
    while yy < start_y as usize
        invariant
            yy <= start_y,
            cells@.len() == 90000,
            forall|x: int, y: int|
                0 <= x < 300 && 0 <= y < 300 ==> cell_of(cells@, x, y) == (if ((exists|j: int|
                    0 <= j < ground@.len() && (#[trigger] ground@[j]).x + 1 == x && ground@[j].y
                        + 1 == y) || (goal_band_left(goal_x) <= x < goal_band_left(goal_x) + 10 && 0
                    <= y < goal_y) || (0 <= x < 7 && 0 <= y < yy)) {
                    1u8
                } else {
                    0u8
                }),
        decreases start_y - yy,
    {
        let mut col: usize = 0;
        while col < 7
            invariant
                col <= 7,
                yy < start_y,
                cells@.len() == 90000,
                forall|x: int, y: int|
                    0 <= x < 300 && 0 <= y < 300 ==> cell_of(cells@, x, y) == (if ((exists|j: int|
                        0 <= j < ground@.len() && (#[trigger] ground@[j]).x + 1 == x && ground@[j].y
                            + 1 == y) || (goal_band_left(goal_x) <= x < goal_band_left(goal_x) + 10
                        && 0 <= y < goal_y) || (0 <= x < 7 && 0 <= y < yy) || (0 <= x < col && y
                        == yy)) {
                        1u8
                    } else {
                        0u8
                    }),
            decreases 7 - col,
        {
            let ghost prev = cells@;
            cells[col * 300 + yy] = 1;
            proof {
                assert forall|x: int, y: int| 0 <= x < 300 && 0 <= y < 300 implies cell_of(
                    cells@,
                    x,
                    y,
                ) == (if ((exists|j: int|
                    0 <= j < ground@.len() && (#[trigger] ground@[j]).x + 1 == x && ground@[j].y
                        + 1 == y) || (goal_band_left(goal_x) <= x < goal_band_left(goal_x) + 10 && 0
                    <= y < goal_y) || (0 <= x < 7 && 0 <= y < yy) || (0 <= x < col + 1 && y == yy)) {
                    1u8
                } else {
                    0u8
                }) by {
                    if x == col as int && y == yy as int {
                        assert(cell_of(cells@, x, y) == 1);
                    } else {
                        assert(x * 300 + y != (col as int) * 300 + (yy as int));
                        assert(cell_of(cells@, x, y) == cell_of(prev, x, y));
                    }
                }
            }
            col = col + 1;
        }
        yy = yy + 1;
    }

    OccupancyGrid { cells }
}

} // verus!
