//! The body chain: a head plus an ordered, growable sequence of tail
//! segments, advanced once per simulation tick.

pub mod controller;
pub mod head;
pub mod tail;

use vstd::prelude::*;

verus! {

use crate::board::Desc;
use crate::grid::GridPosition;
use crate::movement::spec_move;
use crate::snake::head::SnakeHead;
use crate::snake::tail::{SnakeTail, spec_node_after};

/// The whole chain. Tail segment `i` trails segment `i - 1`; segment 0
/// trails the head.
#[derive(Debug)]
pub struct Snake {
    pub head: SnakeHead,
    pub tail: Vec<SnakeTail>,
}

/// The tail sequence after one tick of propagation, in increasing index
/// order: the first segment reads the lead cell (the head's new position),
/// and every later segment reads the already-updated cell of the segment
/// before it.
pub open spec fn spec_propagate(tail: Seq<SnakeTail>, lead: GridPosition) -> Seq<SnakeTail>
    decreases tail.len(),
{
    if tail.len() == 0 {
        tail
    } else {
        seq![spec_node_after(tail[0], lead)] + spec_propagate(
            tail.drop_first(),
            spec_node_after(tail[0], lead).position,
        )
    }
}

/// Element-for-element reading of `spec_propagate`: segment `i` of the
/// result is segment `i` stepped with the updated cell of segment `i - 1`
/// (the lead cell for segment 0).
pub proof fn lemma_propagate_form(tail: Seq<SnakeTail>, lead: GridPosition)
    ensures
        spec_propagate(tail, lead).len() == tail.len(),
        forall|i: int|
            0 <= i < tail.len() ==> spec_propagate(tail, lead)[i] == spec_node_after(
                #[trigger] tail[i],
                if i == 0 {
                    lead
                } else {
                    spec_propagate(tail, lead)[i - 1].position
                },
            ),
    decreases tail.len(),
{
    if tail.len() > 0 {
        let first = spec_node_after(tail[0], lead);
        lemma_propagate_form(tail.drop_first(), first.position);
        let rest = spec_propagate(tail.drop_first(), first.position);
        assert forall|i: int| 0 <= i < tail.len() implies spec_propagate(tail, lead)[i]
            == spec_node_after(
            #[trigger] tail[i],
            if i == 0 {
                lead
            } else {
                spec_propagate(tail, lead)[i - 1].position
            },
        ) by {
            if i > 0 {
                assert(spec_propagate(tail, lead)[i] == rest[i - 1]);
                assert(tail.drop_first()[i - 1] == tail[i]);
                if i == 1 {
                    assert(rest[0] == spec_node_after(tail.drop_first()[0], first.position));
                } else {
                    assert(rest[i - 1] == spec_node_after(tail.drop_first()[i - 1], rest[i - 2].position));
                }
            }
        }
    }
}

/// The exact trailing law of the chain. `hist` is the head's trajectory:
/// `hist[k]` is the cell the head occupied after tick `k`, with `hist[0]`
/// the start cell. The chain trails it with fixed lags: at the end of tick
/// `n` (so `hist.len() == n + 1`), segment `i` caches the head's tick
/// `n - i` cell as its `next_position` once `n >= i + 1`, and occupies the
/// head's tick `n - 1 - i` cell once `n >= i + 2`; before those ticks the
/// respective field still holds the off-board sentinel.
pub open spec fn spec_lag_ok(tail: Seq<SnakeTail>, hist: Seq<GridPosition>) -> bool {
    forall|i: int|
        0 <= i < tail.len() ==> {
            &&& (#[trigger] tail[i]).next_position == (if hist.len() >= i + 2 {
                hist[hist.len() - 1 - i]
            } else {
                GridPosition::sentinel()
            })
            &&& tail[i].position == (if hist.len() >= i + 3 {
                hist[hist.len() - 2 - i]
            } else {
                GridPosition::sentinel()
            })
        }
}

/// A freshly reset chain trails the one-point trajectory consisting of the
/// start cell: every segment still sits on the sentinel.
pub proof fn lemma_reset_lag(s: Snake, start: GridPosition, n: int)
    requires
        spec_is_reset_snake(s, start, n),
    ensures
        spec_lag_ok(s.tail@, seq![start]),
{
}

/// One tick keeps the trailing law: if the chain trails the trajectory
/// `hist` and the head moves to a fresh on-board cell `new_head` (the head
/// never stands still on a move, and never moves onto the sentinel), then
/// the propagated chain trails `hist.push(new_head)`. Together with
/// `lemma_reset_lag` this shows that after `n` ticks segment `i` occupies
/// exactly the cell the head occupied at tick `n - 1 - i`: segment 0 lags
/// the head by one tick, segment 1 by two, and so on.
pub proof fn lemma_advance_preserves_lag(tail: Seq<SnakeTail>, hist: Seq<GridPosition>, new_head: GridPosition)
    requires
        hist.len() >= 1,
        forall|k: int| 0 <= k < hist.len() ==> #[trigger] hist[k] != GridPosition::sentinel(),
        forall|k: int| 0 <= k < hist.len() - 1 ==> #[trigger] hist[k + 1] != hist[k],
        new_head != hist.last(),
        new_head != GridPosition::sentinel(),
        spec_lag_ok(tail, hist),
    ensures
        spec_lag_ok(spec_propagate(tail, new_head), hist.push(new_head)),
    decreases tail.len(),
{
    lemma_propagate_form(tail, new_head);
    let new_tail = spec_propagate(tail, new_head);
    let len = hist.len() as int;
    let newhist = hist.push(new_head);
    if tail.len() == 0 {
    } else if len == 1 {
        assert forall|i: int| 0 <= i < new_tail.len() implies {
            &&& (#[trigger] new_tail[i]).next_position == (if newhist.len() >= i + 2 {
                newhist[newhist.len() - 1 - i]
            } else {
                GridPosition::sentinel()
            })
            &&& new_tail[i].position == (if newhist.len() >= i + 3 {
                newhist[newhist.len() - 2 - i]
            } else {
                GridPosition::sentinel()
            })
        } by {
            assert(tail[i].next_position == GridPosition::sentinel());
            assert(tail[i].position == GridPosition::sentinel());
            if i > 0 {
                assert(tail[i - 1].next_position == GridPosition::sentinel());
                assert(tail[i - 1].position == GridPosition::sentinel());
                assert(new_tail[i - 1].position == GridPosition::sentinel());
            }
        }
    } else {
        let first = spec_node_after(tail[0], new_head);
        assert(tail[0].next_position == hist[len - 1]);
        assert(first.next_position == new_head);
        assert(first.position == hist[len - 1]);
        let rest_tail = tail.drop_first();
        let rest_hist = hist.drop_last();
        assert(rest_hist.len() == len - 1);
        assert forall|k: int| 0 <= k < rest_hist.len() - 1 implies #[trigger] rest_hist[k + 1] != rest_hist[k] by {
            assert(hist[k + 1] != hist[k]);
        }
        assert(spec_lag_ok(rest_tail, rest_hist)) by {
            assert forall|i: int| 0 <= i < rest_tail.len() implies {
                &&& (#[trigger] rest_tail[i]).next_position == (if rest_hist.len() >= i + 2 {
                    rest_hist[rest_hist.len() - 1 - i]
                } else {
                    GridPosition::sentinel()
                })
                &&& rest_tail[i].position == (if rest_hist.len() >= i + 3 {
                    rest_hist[rest_hist.len() - 2 - i]
                } else {
                    GridPosition::sentinel()
                })
            } by {
                assert(rest_tail[i] == tail[i + 1]);
            }
        }
        assert(hist[len - 1] != rest_hist.last()) by {
            assert(hist[(len - 2) + 1] != hist[len - 2]);
        }
        lemma_advance_preserves_lag(rest_tail, rest_hist, hist[len - 1]);
        let rest_new = spec_propagate(rest_tail, hist[len - 1]);
        assert(rest_hist.push(hist[len - 1]) =~= hist);
        assert(spec_lag_ok(rest_new, hist));
        assert(new_tail == seq![first] + spec_propagate(rest_tail, first.position));
        assert(first.position == hist[len - 1]);
        assert forall|i: int| 0 <= i < new_tail.len() implies {
            &&& (#[trigger] new_tail[i]).next_position == (if newhist.len() >= i + 2 {
                newhist[newhist.len() - 1 - i]
            } else {
                GridPosition::sentinel()
            })
            &&& new_tail[i].position == (if newhist.len() >= i + 3 {
                newhist[newhist.len() - 2 - i]
            } else {
                GridPosition::sentinel()
            })
        } by {
            if i == 0 {
                assert(new_tail[0] == first);
            } else {
                assert(new_tail[i] == rest_new[i - 1]);
                assert(rest_new[i - 1].next_position == (if hist.len() >= i + 1 {
                    hist[hist.len() - i]
                } else {
                    GridPosition::sentinel()
                }));
                assert(rest_new[i - 1].position == (if hist.len() >= i + 2 {
                    hist[hist.len() - 1 - i]
                } else {
                    GridPosition::sentinel()
                }));
            }
        }
    }
}

impl Snake {
    /// Chain indices are dense: segment `i` of the tail vector carries
    /// index `i`.
    pub open spec fn wf(self) -> bool {
        forall|i: int| 0 <= i < self.tail@.len() ==> #[trigger] self.tail@[i].index == i
    }

    /// True when some tail segment (the head excluded) occupies `pos`.
    pub open spec fn occupies_spec(self, pos: GridPosition) -> bool {
        exists|i: int| 0 <= i < self.tail@.len() && self.tail@[i].position == pos
    }

    /// Whether any tail segment currently occupies the given cell. The head
    /// does not count.
    pub fn occupies(&self, pos: &GridPosition) -> (r: bool)
        ensures
            r == self.occupies_spec(*pos),
    {
        let mut i: usize = 0;
        while i < self.tail.len()
            invariant
                i <= self.tail@.len(),
                forall|j: int| 0 <= j < i ==> self.tail@[j].position != *pos,
            decreases self.tail@.len() - i,
        {
            if self.tail[i].position.x == pos.x && self.tail[i].position.y == pos.y {
                return true;
            }
            i = i + 1;
        }
        false
    }

    /// Advances the chain one tick: the head moves one cell in its current
    /// direction (wrapping around the board) and the tail propagates in
    /// index order, each segment trailing the one ahead by one tick.
    #[verifier::rlimit(50)]
    pub fn advance(&mut self, game_board: &Desc)
        requires
            old(self).wf(),
            game_board.wf(),
        ensures
            final(self).head.position == spec_move(
                old(self).head.position,
                old(self).head.controller.direction,
                game_board.grid_size,
            ),
            final(self).head.position.in_range(game_board.grid_size),
            final(self).head.controller.previous_position == old(self).head.position,
            final(self).head.controller.direction == old(self).head.controller.direction,
            final(self).tail@ == spec_propagate(old(self).tail@, final(self).head.position),
            final(self).wf(),
    {
        controller::move_head(game_board, &mut self.head.position, &mut self.head.controller);
        let ghost head_after = self.head;
        let ghost target_tail = spec_propagate(self.tail@, self.head.position);
        proof {
            lemma_propagate_form(self.tail@, self.head.position);
        }
        let mut lead: GridPosition = self.head.position;
        let mut i: usize = 0;
        while i < self.tail.len()
            invariant
                i <= self.tail@.len(),
                self.tail@.len() == old(self).tail@.len(),
                self.head == head_after,
                target_tail == spec_propagate(old(self).tail@, head_after.position),
                target_tail.len() == old(self).tail@.len(),
                forall|j: int| 0 <= j < i ==> self.tail@[j] == target_tail[j],
                forall|j: int| i <= j < self.tail@.len() ==> self.tail@[j] == old(self).tail@[j],
                lead == if i == 0 {
                    head_after.position
                } else {
                    target_tail[i - 1].position
                },
                forall|j: int|
                    0 <= j < target_tail.len() ==> target_tail[j] == spec_node_after(
                        #[trigger] old(self).tail@[j],
                        if j == 0 {
                            head_after.position
                        } else {
                            target_tail[j - 1].position
                        },
                    ),
            decreases self.tail@.len() - i,
        {
            proof {
                assert(target_tail[i as int] == spec_node_after(
                    old(self).tail@[i as int],
                    if i == 0 {
                        head_after.position
                    } else {
                        target_tail[i as int - 1].position
                    },
                ));
            }
            tail::tick_position(&mut self.tail[i], &lead);
            proof {
                assert(self.tail@[i as int] == target_tail[i as int]);
            }
            lead = self.tail[i].position;
            i = i + 1;
        }
        proof {
            assert(self.tail@ =~= target_tail);
            assert forall|j: int| 0 <= j < self.tail@.len() implies #[trigger] self.tail@[j].index == j by {
                assert(old(self).tail@[j].index == j);
            }
        }
    }
}

/// What a freshly reset chain looks like: the head at the start cell facing
/// right with no move behind it, and `n` tail segments that all sit on the
/// off-board sentinel cell.
pub open spec fn spec_is_reset_snake(s: Snake, start: GridPosition, n: int) -> bool {
    &&& s.head.position == start
    &&& s.head.controller.direction == crate::direction::Direction::Right
    &&& s.head.controller.previous_position == start
    &&& s.tail@.len() == n
    &&& forall|i: int|
        0 <= i < n ==> #[trigger] s.tail@[i] == (SnakeTail {
            index: i as usize,
            next_position: GridPosition::sentinel(),
            position: GridPosition::sentinel(),
        })
}

/// Builds a fresh chain: the head at the start position facing right, and
/// `initial_tail_length` tail segments, all off-board until the head has
/// moved often enough to pull them onto the grid.
pub fn add_snake(start_position: GridPosition, initial_tail_length: usize) -> (r: Snake)
    ensures
        spec_is_reset_snake(r, start_position, initial_tail_length as int),
        r.wf(),
{
    let head = head::spawn(start_position);
    let mut tail_nodes: Vec<SnakeTail> = Vec::new();
    let tail_default_pos = GridPosition { x: -1, y: -1 };
    let mut tail_index: usize = 0;
    while tail_index < initial_tail_length
        invariant
            tail_index <= initial_tail_length,
            tail_nodes@.len() == tail_index,
            forall|i: int|
                0 <= i < tail_index ==> #[trigger] tail_nodes@[i] == (SnakeTail {
                    index: i as usize,
                    next_position: GridPosition::sentinel(),
                    position: GridPosition::sentinel(),
                }),
            tail_default_pos == GridPosition::sentinel(),
        decreases initial_tail_length - tail_index,
    {
        let node = tail::spawn_node(tail_index, tail_default_pos);
        tail_nodes.push(node);
        tail_index = tail_index + 1;
    }
    Snake { head, tail: tail_nodes }
}

} // verus!
