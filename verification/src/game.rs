use vstd::prelude::*;

use crate::board::{has_empty_cell, lemma_cell_index_in_range, Board, Entity};
use crate::snake::{
    blocked_by_edge, resolve_direction, spec_resolve_direction, step, Direction, Snake,
};

verus! {

/// Width used when the requested width lies outside the supported range.
pub const DEFAULT_WIDTH: u8 = 17;

/// Height used when the requested height lies outside the supported range.
pub const DEFAULT_HEIGHT: u8 = 15;

/// The board width actually used for a requested width: the request where it
/// is supported, the fixed default otherwise.
pub open spec fn clamp_width(w: u8) -> u8 {
    if 10 > w || w >= 49 {
        DEFAULT_WIDTH
    } else {
        w
    }
}

/// The board height actually used for a requested height.
pub open spec fn clamp_height(h: u8) -> u8 {
    if 10 > h || h > 50 {
        DEFAULT_HEIGHT
    } else {
        h
    }
}

/// The grid of a freshly built game before food is placed: all cells empty
/// except the three initial snake cells straddling the middle column of the
/// middle row.
pub open spec fn initial_grid(w: u8, h: u8) -> Seq<Entity> {
    let center = (h as int / 2) * (w as int) + (w as int / 2);
    Seq::new(
        (w as int * h as int) as nat,
        |i: int|
            if center - 1 <= i <= center + 1 {
                Entity::Snake
            } else {
                Entity::Empty
            },
    )
}

/// The initial snake body: three cells on the middle row, head (index 0)
/// rightmost.
pub open spec fn initial_body(w: u8, h: u8) -> Seq<(u8, u8)> {
    let cx = w as int / 2;
    let cy = h as int / 2;
    seq![(((cx + 1) as u8), (cy as u8)), ((cx as u8), (cy as u8)), (((cx - 1) as u8), (cy as u8))]
}

/// The whole game: one board, one snake, the last committed direction, and
/// the score, which stays zero until food consumption is implemented.
#[derive(Debug)]
pub struct Game {
    pub board: Board,
    pub snake_direction: Direction,
    pub snake: Snake,
    pub score: u8,
}

/// The two values are the same game state: same grid, same dimensions, same
/// body, same committed direction, same score.
pub open spec fn same_state(pre: Game, post: Game) -> bool {
    &&& post.board.board@ == pre.board.board@
    &&& post.board.width == pre.board.width
    &&& post.board.height == pre.board.height
    &&& post.snake.body@ == pre.snake.body@
    &&& post.snake_direction == pre.snake_direction
    &&& post.score == pre.score
}

impl Game {
    /// The game invariant: the grid has one cell per position, the snake has
    /// at least one segment, and every segment lies on the board.
    pub open spec fn wf(self) -> bool {
        &&& self.board.wf()
        &&& self.snake.body@.len() >= 1
        &&& forall|i: int|
            0 <= i < self.snake.body@.len() ==> (#[trigger] self.snake.body@[i]).0
                < self.board.width && self.snake.body@[i].1 < self.board.height
    }

    /// Runtime check of the game invariant, for unverified callers.
    pub fn is_well_formed(&self) -> (r: bool)
        ensures
            r == self.wf(),
    {
        proof {
            assert((self.board.width as int) * (self.board.height as int) <= 255 * 255)
                by (nonlinear_arith)
                requires
                    0 <= self.board.width as int <= 255,
                    0 <= self.board.height as int <= 255,
            ;
        }
        if self.board.board.len() != (self.board.width as usize) * (self.board.height as usize) {
            return false;
        }
        if self.snake.body.len() == 0 {
            return false;
        }
        let mut i: usize = 0;
        while i < self.snake.body.len()
            invariant
                i <= self.snake.body@.len(),
                forall|k: int|
                    0 <= k < i ==> (#[trigger] self.snake.body@[k]).0 < self.board.width
                        && self.snake.body@[k].1 < self.board.height,
            decreases self.snake.body@.len() - i,
        {
            let seg = self.snake.body[i];
            if seg.0 >= self.board.width || seg.1 >= self.board.height {
                return false;
            }
            i += 1;
        }
        true
    }

    /// Builds a game: clamps the dimensions into the supported range, lays an
    /// all-empty grid, seeds the three-segment snake on the middle row facing
    /// right, and places one food cell at random.
    pub fn new(width: u8, height: u8) -> (g: Game)
        ensures
            g.board.width == clamp_width(width),
            g.board.height == clamp_height(height),
            g.snake_direction == Direction::Right,
            g.snake.body@ == initial_body(clamp_width(width), clamp_height(height)),
            exists|i: int|
                0 <= i < initial_grid(clamp_width(width), clamp_height(height)).len()
                    && initial_grid(clamp_width(width), clamp_height(height))[i] == Entity::Empty
                    && g.board.board@ == initial_grid(
                    clamp_width(width),
                    clamp_height(height),
                ).update(i, Entity::Food),
            g.score == 0,
            g.wf(),
    {
        let mut w = width;
        let mut h = height;
        if 10 > w || w >= 49 {
            w = DEFAULT_WIDTH;
        }
        if 10 > h || h > 50 {
            h = DEFAULT_HEIGHT;
        }
        proof {
            assert(w == clamp_width(width));
            assert(h == clamp_height(height));
        }

        proof {
            assert((w as int) * (h as int) <= 48 * 50) by (nonlinear_arith)
                requires
                    0 <= w as int <= 48,
                    0 <= h as int <= 50,
            ;
        }
        let total: usize = (w as usize) * (h as usize);
        let mut b: Vec<Entity> = Vec::new();
        let mut i: usize = 0;
        while i < total
            invariant
                i <= total,
                b@.len() == i,
                forall|j: int| 0 <= j < i ==> b@[j] == Entity::Empty,
            decreases total - i,
        {
            b.push(Entity::Empty);
            i += 1;
        }

        let cx = w / 2;
        let cy = h / 2;
        proof {
            assert(50 <= (cy as int) * (w as int) && (cy as int) * (w as int) + (
            w as int) <= (w as int) * (h as int)) by (nonlinear_arith)
                requires
                    5 <= cy as int,
                    (cy as int) < (h as int),
                    10 <= w as int,
            ;
        }
        let center: usize = (cy as usize) * (w as usize) + (cx as usize);
        b[center - 1] = Entity::Snake;
        b[center] = Entity::Snake;
        b[center + 1] = Entity::Snake;
        proof {
            assert(b@ =~= initial_grid(w, h));
        }

        let mut snake_body: Vec<(u8, u8)> = Vec::new();
        snake_body.push((cx + 1, cy));
        snake_body.push((cx, cy));
        snake_body.push((cx - 1, cy));
        proof {
            assert(snake_body@ =~= initial_body(w, h));
        }

        let mut myboard = Board { board: b, height: h, width: w };
        proof {
            assert(has_empty_cell(myboard.board@)) by {
                assert(myboard.board@.len() >= 50);
                assert(myboard.board@[0] == Entity::Empty);
            }
        }
        let ghost grid_before = myboard.board@;
        myboard.place_random_food();
        proof {
            let i = choose|i: int|
                0 <= i < grid_before.len() && grid_before[i] == Entity::Empty
                    && myboard.board@ == grid_before.update(i, Entity::Food);
            assert(grid_before == initial_grid(w, h));
            assert(initial_grid(w, h)[i] == Entity::Empty && myboard.board@
                == initial_grid(w, h).update(i, Entity::Food));
        }

        Game {
            board: myboard,
            snake_direction: Direction::Right,
            snake: Snake { body: snake_body },
            score: 0,
        }
    }

    /// One tick: resolve the requested direction (or reuse the committed one)
    /// against the reversal guard, move the snake, validate the new head
    /// against the board, and either commit the move to the grid and the
    /// direction, or discard the tick leaving the whole game unchanged.
    pub fn tick(&mut self, snake_direction: Option<Direction>)
        requires
            old(self).wf(),
        ensures
            final(self).wf(),
            final(self).score == old(self).score,
            ({
                let req = match snake_direction {
                    Some(d) => d,
                    None => old(self).snake_direction,
                };
                let eff = spec_resolve_direction(old(self).snake_direction, req);
                let head = old(self).snake.body@[0];
                let new_head = step(head, eff);
                if blocked_by_edge(head, eff) || new_head.0 >= old(self).board.width || new_head.1
                    >= old(self).board.height {
                    same_state(*old(self), *final(self))
                } else {
                    let tail = old(self).snake.body@.last();
                    &&& final(self).snake.body@ == seq![new_head] + old(
                        self,
                    ).snake.body@.drop_last()
                    &&& final(self).snake_direction == eff
                    &&& final(self).board.board@ == old(self).board.board@.update(
                        old(self).board.cell_index(tail.0 as int, tail.1 as int),
                        Entity::Empty,
                    ).update(
                        old(self).board.cell_index(new_head.0 as int, new_head.1 as int),
                        Entity::Snake,
                    )
                    &&& final(self).board.width == old(self).board.width
                    &&& final(self).board.height == old(self).board.height
                }
            }),
    {
        let snake_direction = match snake_direction {
            Some(direction) => direction,
            None => self.snake_direction,
        };

        let effective = resolve_direction(self.snake_direction, snake_direction);
        let r = self.snake.move_snake(self.snake_direction, snake_direction);
        match r {
            Err(_) => {},
            Ok(tup) => {
                let ((new_col, new_row), (tail_col, tail_row)) = tup;
                if new_col >= self.board.width || new_row >= self.board.height {
                    // the head would pass the right or bottom edge: discard
                    // the tick by putting the body back as it was
                    self.snake.body.remove(0);
                    self.snake.body.push((tail_col, tail_row));
                    proof {
                        assert(self.snake.body@ =~= old(self).snake.body@);
                    }
                } else {
                    let new_pos = self.board.get_index(new_col, new_row);
                    let old_pos = self.board.get_index(tail_col, tail_row);

                    if new_pos != -1 && old_pos != -1 {
                        proof {
                            lemma_cell_index_in_range(
                                self.board.width as int,
                                self.board.height as int,
                                new_col as int,
                                new_row as int,
                            );
                            lemma_cell_index_in_range(
                                self.board.width as int,
                                self.board.height as int,
                                tail_col as int,
                                tail_row as int,
                            );
                        }
                        self.board.board[old_pos as usize] = Entity::Empty;
                        self.board.board[new_pos as usize] = Entity::Snake;
                        self.snake_direction = effective;
                    }
                }
            },
        }
    }
}

} // verus!

