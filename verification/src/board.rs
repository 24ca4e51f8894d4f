use vstd::prelude::*;

verus! {

/// The occupant of one grid cell: every cell holds exactly one of these.
#[derive(Clone, Copy, Debug, PartialEq, Eq, Structural)]
pub enum Entity {
    Snake,
    Food,
    Empty,
}

/// The game grid: a flat, row-major vector of cells, `width * height` long.
#[derive(Debug)]
pub struct Board {
    pub board: Vec<Entity>,
    pub width: u8,
    pub height: u8,
}

/// Whether some cell of the grid `g` is empty.
pub open spec fn has_empty_cell(g: Seq<Entity>) -> bool {
    exists|i: int| 0 <= i < g.len() && g[i] == Entity::Empty
}

/// A row-major index for an in-bounds cell is itself in bounds of the grid.
pub proof fn lemma_cell_index_in_range(w: int, h: int, col: int, row: int)
    requires
        0 <= col < w,
        0 <= row < h,
    ensures
        0 <= row * w + col < w * h,
{
    assert(0 <= row * w + col < w * h) by (nonlinear_arith)
        requires
            0 <= col < w,
            0 <= row < h,
    ;
}

impl Board {
    /// The grid stores exactly one cell per (column, row) pair.
    pub open spec fn wf(self) -> bool {
        self.board@.len() == self.width as int * self.height as int
    }

    /// The row-major position of the cell (col, row) in the flat grid.
    pub open spec fn cell_index(self, col: int, row: int) -> int {
        row * self.width as int + col
    }

    /// Returns the flat grid index of (col, row), or -1 when the pair lies
    /// outside the board; never panics, whatever the input.
    pub fn get_index(&self, col: u8, row: u8) -> (r: isize)
        ensures
            col < self.width && row < self.height ==> r == self.cell_index(
                col as int,
                row as int,
            ),
            !(col < self.width && row < self.height) ==> r == -1,
    {
        if col >= self.width || row >= self.height {
            -1
        } else {
            proof {
                assert(0 <= (row as int) * (self.width as int) <= 255 * 255) by (nonlinear_arith)
                    requires
                        0 <= row as int <= 255,
                        0 <= self.width as int <= 255,
                ;
            }
            (row as u16 * self.width as u16 + col as u16) as isize
        }
    }

    /// Returns the entity in the cell at (col, row), or `None` when the pair
    /// lies outside the board. Never mutates the grid.
    pub fn get_entity_at(&self, col: u8, row: u8) -> (r: Option<Entity>)
        requires
            self.wf(),
        ensures
            col < self.width && row < self.height ==> r == Some(
                self.board@[self.cell_index(col as int, row as int)],
            ),
            !(col < self.width && row < self.height) ==> r is None,
    {
        let idx = self.get_index(col, row);
        if idx == -1 {
            None
        } else {
            proof {
                lemma_cell_index_in_range(
                    self.width as int,
                    self.height as int,
                    col as int,
                    row as int,
                );
            }
            Some(self.board[idx as usize])
        }
    }

    /// Scans the grid for empty cells and, provided there is at least one,
    /// turns one of them — chosen uniformly at random — into food. On a board
    /// with no empty cell this is a no-op, never a crash.
    pub fn place_random_food(&mut self)
        ensures
            final(self).width == old(self).width,
            final(self).height == old(self).height,
            has_empty_cell(old(self).board@) ==> exists|i: int|
                0 <= i < old(self).board@.len() && old(self).board@[i] == Entity::Empty
                    && final(self).board@ == old(self).board@.update(i, Entity::Food),
            !has_empty_cell(old(self).board@) ==> final(self).board@ == old(self).board@,
    {
        let mut available_spots: Vec<usize> = Vec::new();
        let mut i: usize = 0;
        while i < self.board.len()
            invariant
                i <= self.board@.len(),
                self.board@ == old(self).board@,
                self.width == old(self).width,
                self.height == old(self).height,
                forall|k: int|
                    0 <= k < available_spots@.len() ==> (#[trigger] available_spots@[k]) < i
                        && self.board@[available_spots@[k] as int] == Entity::Empty,
                forall|j: int|
                    0 <= j < i && self.board@[j] == Entity::Empty ==> exists|k: int|
                        0 <= k < available_spots@.len() && available_spots@[k] as int == j,
            decreases self.board@.len() - i,
        {
            let ghost prev = available_spots@;
            match self.board[i] {
                Entity::Empty => available_spots.push(i),
                _ => {},
            }
            proof {
                assert forall|j: int|
                    0 <= j < i as int + 1 && self.board@[j] == Entity::Empty implies exists|k: int|
                    0 <= k < available_spots@.len() && available_spots@[k] as int == j by {
                    if j == i as int {
                        assert(available_spots@[prev.len() as int] as int == j);
                    } else {
                        let k = choose|k: int| 0 <= k < prev.len() && prev[k] as int == j;
                        assert(available_spots@[k] as int == j);
                    }
                }
            }
            i += 1;
        }

        if available_spots.len() == 0 {
            proof {
                assert(!has_empty_cell(self.board@)) by {
                    if has_empty_cell(self.board@) {
                        let j = choose|j: int|
                            0 <= j < self.board@.len() && self.board@[j] == Entity::Empty;
                        assert(exists|k: int|
                            0 <= k < available_spots@.len() && available_spots@[k] as int == j);
                    }
                }
            }
            return ;
        }

        let choice = available_spots[crate::rng::random_below(available_spots.len())];
        self.board[choice] = Entity::Food;
    }
}

/// The number of cells of the grid `g` that hold food.
pub open spec fn food_count(g: Seq<Entity>) -> nat
    decreases g.len(),
{
    if g.len() == 0 {
        0
    } else {
        food_count(g.drop_last()) + if g.last() == Entity::Food {
            1nat
        } else {
            0nat
        }
    }
}

proof fn lemma_food_count_update(g: Seq<Entity>, i: int)
    requires
        0 <= i < g.len(),
        g[i] != Entity::Food,
    ensures
        food_count(g.update(i, Entity::Food)) == food_count(g) + 1,
    decreases g.len(),
{
    let g2 = g.update(i, Entity::Food);
    if i == g.len() - 1 {
        assert(g2.drop_last() =~= g.drop_last());
    } else {
        assert(g2.drop_last() =~= g.drop_last().update(i, Entity::Food));
        lemma_food_count_update(g.drop_last(), i);
    }
}

/// Food uniqueness: turning one empty cell of a foodless grid into food
/// leaves exactly one food cell — that cell, which was empty just before —
/// and every other cell untouched.
pub proof fn lemma_food_uniqueness(pre: Seq<Entity>, post: Seq<Entity>, i: int)
    requires
        0 <= i < pre.len(),
        pre[i] == Entity::Empty,
        post == pre.update(i, Entity::Food),
        food_count(pre) == 0,
    ensures
        food_count(post) == 1,
        post[i] == Entity::Food,
        forall|j: int| 0 <= j < pre.len() && j != i ==> post[j] == pre[j],
{
    lemma_food_count_update(pre, i);
}

} // verus!
