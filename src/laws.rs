use vstd::arithmetic::div_mod::lemma_div_is_ordered;
use vstd::prelude::*;
use vstd::seq_lib::{to_multiset_build, to_multiset_insert};

use crate::farm::{PlantView, SlotType};
use crate::state::{
    field_slot, first_below, in_grid, project, ranked, till_spec, FarmProfileDtoView, Grid,
};

verus! {

/// A plant's growth stage never decreases as time passes, and it is stage 1
/// at the moment it is created.
pub proof fn stage_never_decreases(p: PlantView, earlier: int, later: int)
    requires
        p.growth_period > 0,
        p.created_at <= earlier <= later,
    ensures
        p.current_stage(earlier) <= p.current_stage(later),
        p.current_stage(p.created_at as int) == 1,
{
    lemma_div_is_ordered(
        earlier - p.created_at,
        later - p.created_at,
        p.growth_period as int,
    );
}

/// At any moment at most one of "can be watered", "can be harvested" and
/// "is dead" holds of a plant.
pub proof fn plant_states_exclusive(p: PlantView, now: int)
    ensures
        !(p.can_water(now) && p.can_harvest(now)),
        !(p.can_water(now) && p.is_dead(now)),
        !(p.can_harvest(now) && p.is_dead(now)),
{
}

/// The read view is a function of the stored grid and the time alone: two
/// projections of the same grid at the same time are identical.
pub proof fn projection_is_pure(g: Grid, now: u64, first: FarmProfileDtoView, second: FarmProfileDtoView)
    requires
        first == project(g, now),
        second == project(g, now),
    ensures
        first == second,
{
}

/// Right after a successful till, the slot reads as an empty field created
/// at the time of tilling.
pub proof fn till_then_read(g: Grid, x: usize, y: usize, now: u64, tilled: Grid)
    requires
        till_spec(g, x, y, now) == Ok::<Grid, crate::error::ContractError>(tilled),
    ensures
        in_grid(tilled, x as int, y as int),
        tilled[x as int][y as int] == field_slot(now),
        tilled[x as int][y as int].declared_type == SlotType::Field,
        tilled[x as int][y as int].plant is None,
        tilled[x as int][y as int].created_at == now,
{
}

proof fn lemma_first_below_bounds(s: Seq<(String, u64)>, t: u64)
    ensures
        0 <= first_below(s, t) <= s.len(),
        forall|j: int| 0 <= j < first_below(s, t) ==> s[j].1 >= t,
        first_below(s, t) < s.len() ==> s[first_below(s, t)].1 < t,
    decreases s.len(),
{
    if s.len() > 0 && s[0].1 >= t {
        let d = s.drop_first();
        lemma_first_below_bounds(d, t);
        assert forall|j: int| 0 <= j < first_below(s, t) implies s[j].1 >= t by {
            if j > 0 {
                assert(s[j] == d[j - 1]);
            }
        }
        if first_below(s, t) < s.len() {
            assert(s[first_below(s, t)] == d[first_below(d, t)]);
        }
    }
}

/// The ranking behind the leaderboard holds every entry exactly once and
/// lists them by total, highest first.
pub proof fn ranking_is_sorted_permutation(s: Seq<(String, u64)>)
    ensures
        ranked(s).len() == s.len(),
        ranked(s).to_multiset() == s.to_multiset(),
        forall|i: int, j: int| 0 <= i < j < ranked(s).len() ==> ranked(s)[i].1 >= ranked(s)[j].1,
    decreases s.len(),
{
    if s.len() > 0 {
        let rest = s.drop_last();
        let e = s.last();
        let r = ranked(rest);
        ranking_is_sorted_permutation(rest);
        let p = first_below(r, e.1);
        lemma_first_below_bounds(r, e.1);
        let q = r.insert(p, e);
        assert(ranked(s) == q);
        to_multiset_insert(r, p, e);
        to_multiset_build(rest, e);
        assert(rest.push(e) =~= s);
        assert forall|i: int, j: int| 0 <= i < j < q.len() implies q[i].1 >= q[j].1 by {
            if j < p {
                assert(q[i] == r[i] && q[j] == r[j]);
            } else if j == p {
                assert(q[i] == r[i]);
            } else if i < p {
                assert(q[i] == r[i] && q[j] == r[j - 1]);
                if i < j - 1 {
                    assert(r[i].1 >= r[j - 1].1);
                }
            } else if i == p {
                assert(q[j] == r[j - 1]);
                if p < j - 1 {
                    assert(r[p].1 >= r[j - 1].1);
                }
            } else {
                assert(q[i] == r[i - 1] && q[j] == r[j - 1]);
            }
        }
    }
}

} // verus!
