use vstd::prelude::*;

verus! {

/// A movement command: one of the four grid directions.
#[derive(Clone, Copy, Debug, PartialEq, Eq, Structural)]
pub enum Direction {
    Up,
    Down,
    Right,
    Left,
}

/// Discriminant reported when a move is blocked at the top edge.
pub const EDGE_TOP: u8 = 2;

/// Discriminant reported when a move is blocked at the left edge.
pub const EDGE_LEFT: u8 = 3;

/// The direction exactly opposite to `d`.
pub open spec fn opposite(d: Direction) -> Direction {
    match d {
        Direction::Up => Direction::Down,
        Direction::Down => Direction::Up,
        Direction::Right => Direction::Left,
        Direction::Left => Direction::Right,
    }
}

/// The 180-degree-reversal guard: a request for the exact opposite of the
/// current direction is ignored and the current direction kept; any other
/// request is taken verbatim.
pub open spec fn spec_resolve_direction(current: Direction, requested: Direction) -> Direction {
    if requested == opposite(current) {
        current
    } else {
        requested
    }
}

/// Applies the reversal guard to a requested direction.
pub fn resolve_direction(current: Direction, requested: Direction) -> (effective: Direction)
    ensures
        effective == spec_resolve_direction(current, requested),
{
    match (requested, current) {
        (Direction::Up, Direction::Down) => current,
        (Direction::Down, Direction::Up) => current,
        (Direction::Left, Direction::Right) => current,
        (Direction::Right, Direction::Left) => current,
        (_, _) => requested,
    }
}

/// Whether a step from `head` in direction `d` would leave the unsigned
/// coordinate space: up from row 0 or left from column 0.
pub open spec fn blocked_by_edge(head: (u8, u8), d: Direction) -> bool {
    match d {
        Direction::Up => head.1 == 0,
        Direction::Left => head.0 == 0,
        _ => false,
    }
}

/// The cell one step from `head` in direction `d`.
pub open spec fn step(head: (u8, u8), d: Direction) -> (u8, u8) {
    match d {
        Direction::Up => (head.0, (head.1 - 1) as u8),
        Direction::Down => (head.0, (head.1 + 1) as u8),
        Direction::Left => (((head.0 - 1) as u8), head.1),
        Direction::Right => (((head.0 + 1) as u8), head.1),
    }
}

/// The error discriminant for a move blocked in direction `d`.
pub open spec fn edge_code(d: Direction) -> u8 {
    if d == Direction::Up {
        EDGE_TOP
    } else {
        EDGE_LEFT
    }
}

/// One movement step at the level of the body sequence: the pair of the
/// result that `move_snake` returns and the body it leaves behind.
pub open spec fn spec_move(body: Seq<(u8, u8)>, current: Direction, requested: Direction) -> (Result<
    ((u8, u8), (u8, u8)),
    u8,
>, Seq<(u8, u8)>) {
    let eff = spec_resolve_direction(current, requested);
    if blocked_by_edge(body[0], eff) {
        (Err(edge_code(eff)), body)
    } else {
        let new_head = step(body[0], eff);
        (Ok((new_head, body.last())), seq![new_head] + body.drop_last())
    }
}

/// The snake: an ordered sequence of (column, row) cells, head first,
/// tail last.
#[derive(Clone, Debug, PartialEq, Eq)]
pub struct Snake {
    pub body: Vec<(u8, u8)>,
}

impl Snake {
    /// Hook for the food-consumption growth extension; the engine does not
    /// consume food yet, so this does nothing.
    #[allow(unused_variables)]
    pub fn eat(food_position: Vec<usize>) {
    }

    /// Moves the snake one cell in a direction (after the reversal guard) and
    /// returns the new head together with the vacated tail cell, or the edge
    /// discriminant when the step would leave the unsigned coordinate space.
    pub fn move_snake(
        &mut self,
        current_direction: Direction,
        new_direction: Direction,
    ) -> (r: Result<((u8, u8), (u8, u8)), u8>)
        requires
            old(self).body@.len() >= 1,
            spec_resolve_direction(current_direction, new_direction) == Direction::Right ==> old(
                self,
            ).body@[0].0 < u8::MAX,
            spec_resolve_direction(current_direction, new_direction) == Direction::Down ==> old(
                self,
            ).body@[0].1 < u8::MAX,
        ensures
            r == spec_move(old(self).body@, current_direction, new_direction).0,
            final(self).body@ == spec_move(old(self).body@, current_direction, new_direction).1,
    {
        let new_direction = resolve_direction(current_direction, new_direction);

        let new_pos: (u8, u8);
        match new_direction {
            Direction::Up => {
                if self.body[0].1 == 0 {
                    return Err(EDGE_TOP);
                }
                new_pos = (self.body[0].0, self.body[0].1 - 1);
            },
            Direction::Down => {
                new_pos = (self.body[0].0, self.body[0].1 + 1);
            },
            Direction::Left => {
                if self.body[0].0 == 0 {
                    return Err(EDGE_LEFT);
                }
                new_pos = (self.body[0].0 - 1, self.body[0].1);
            },
            Direction::Right => {
                new_pos = (self.body[0].0 + 1, self.body[0].1);
            },
        }

        let old_pos = self.body.pop().unwrap();
        self.body.insert(0, new_pos);
        proof {
            assert(self.body@ =~= seq![new_pos] + old(self).body@.drop_last());
        }
        Ok((new_pos, old_pos))
    }
}

/// Anti-reversal: for a snake moving right, a requested left turn is ignored,
/// so the move is the same as requesting right again — same result, same
/// new head, same body.
pub proof fn lemma_anti_reversal(body: Seq<(u8, u8)>)
    ensures
        spec_move(body, Direction::Right, Direction::Left) == spec_move(
            body,
            Direction::Right,
            Direction::Right,
        ),
{
}

/// Wall underflow: a single-cell snake at the origin whose effective
/// direction is up or left is blocked with the matching edge discriminant and
/// keeps its body unchanged.
pub proof fn lemma_origin_underflow(current: Direction, requested: Direction)
    requires
        spec_resolve_direction(current, requested) == Direction::Up || spec_resolve_direction(
            current,
            requested,
        ) == Direction::Left,
    ensures
        spec_move(seq![(0u8, 0u8)], current, requested).0 == Err::<((u8, u8), (u8, u8)), u8>(
            edge_code(spec_resolve_direction(current, requested)),
        ),
        spec_move(seq![(0u8, 0u8)], current, requested).1 == seq![(0u8, 0u8)],
{
}

} // verus!
