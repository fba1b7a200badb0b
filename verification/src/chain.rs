//! Mathematical model of one movement tick on the segment chain, and the
//! follow-the-leader law it obeys.

use vstd::prelude::*;
use crate::direction::Direction;
use crate::position::{dx, dy};

verus! {

/// One movement tick on a chain of cell coordinates, head first: the head
/// advances by the direction's displacement, and every trailing entry takes
/// the cell its predecessor held before the tick.
pub open spec fn shift_chain(cells: Seq<(int, int)>, d: Direction) -> Seq<(int, int)> {
    Seq::new(
        cells.len(),
        |i: int|
            if i == 0 {
                (cells[0].0 + dx(d), cells[0].1 + dy(d))
            } else {
                cells[i - 1]
            },
    )
}

/// `n` movement ticks in a row with the constant direction `d`.
pub open spec fn shift_chain_n(cells: Seq<(int, int)>, d: Direction, n: nat) -> Seq<(int, int)>
    decreases n,
{
    if n == 0 {
        cells
    } else {
        shift_chain(shift_chain_n(cells, d, (n - 1) as nat), d)
    }
}

/// Ticking never changes the length of the chain.
pub proof fn lemma_shift_chain_n_len(cells: Seq<(int, int)>, d: Direction, n: nat)
    ensures
        shift_chain_n(cells, d, n).len() == cells.len(),
    decreases n,
{
    if n > 0 {
        lemma_shift_chain_n_len(cells, d, (n - 1) as nat);
    }
}

/// The follow-the-leader law: at any tick `t >= 1`, the entry at chain index
/// `i >= 1` sits exactly where its predecessor sat at tick `t - 1`.
pub proof fn lemma_follows_leader(cells: Seq<(int, int)>, d: Direction, t: nat, i: int)
    requires
        t >= 1,
        1 <= i < cells.len(),
    ensures
        shift_chain_n(cells, d, t)[i] == shift_chain_n(cells, d, (t - 1) as nat)[i - 1],
{
    lemma_shift_chain_n_len(cells, d, (t - 1) as nat);
}

/// Under a constant direction, after `t` ticks every entry whose index `i`
/// satisfies `i <= t` has moved to the starting head cell displaced by the
/// per-tick delta taken `t - i` times: the cumulative delta is the same for
/// every segment, offset by its chain index.
pub proof fn lemma_constant_direction_offset(cells: Seq<(int, int)>, d: Direction, t: nat, i: int)
    requires
        0 <= i <= t,
        i < cells.len(),
    ensures
        shift_chain_n(cells, d, t)[i].0 == cells[0].0 + (t - i) * dx(d),
        shift_chain_n(cells, d, t)[i].1 == cells[0].1 + (t - i) * dy(d),
    decreases t,
{
    if t == 0 {
        assert(i == 0);
    } else {
        lemma_shift_chain_n_len(cells, d, (t - 1) as nat);
        if i == 0 {
            lemma_constant_direction_offset(cells, d, (t - 1) as nat, 0);
            assert((t - 1) * dx(d) + dx(d) == t * dx(d)) by (nonlinear_arith);
            assert((t - 1) * dy(d) + dy(d) == t * dy(d)) by (nonlinear_arith);
        } else {
            lemma_constant_direction_offset(cells, d, (t - 1) as nat, i - 1);
        }
    }
}

} // verus!
