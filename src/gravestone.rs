//! Gravestones: the pushable blocks that stand for the four controls.
use rand::distributions::{Distribution, WeightedIndex};
use vstd::prelude::*;

verus! {

/// The control a gravestone stands for, and the action of the matching buttons.
#[derive(Clone, Copy, Debug, PartialEq, Eq, Hash, Structural)]
pub enum GraveId {
    /// "Northy" buttons such as W.
    North,
    /// "Westy" buttons such as A.
    West,
    /// "Southy" buttons such as S.
    South,
    /// "Easty" buttons such as D.
    East,
}

/// The gravestone that a level's entity identifier names.
pub open spec fn grave_id_of(identifier: Seq<char>) -> Option<GraveId> {
    if identifier == seq!['W'] {
        Some(GraveId::North)
    } else if identifier == seq!['A'] {
        Some(GraveId::West)
    } else if identifier == seq!['S'] {
        Some(GraveId::South)
    } else if identifier == seq!['D'] {
        Some(GraveId::East)
    } else {
        None
    }
}

/// The controls in display order.
pub open spec fn spec_grave_order(k: int) -> GraveId {
    if k == 0 {
        GraveId::North
    } else if k == 1 {
        GraveId::West
    } else if k == 2 {
        GraveId::South
    } else {
        GraveId::East
    }
}

impl GraveId {
    /// The gravestone named by a level entity identifier: "W", "A", "S" or "D".
    pub fn from_identifier(identifier: &str) -> (r: Option<GraveId>)
        ensures
            r == grave_id_of(identifier@),
    {
        if identifier.unicode_len() != 1 {
            return None;
        }
        let c = identifier.get_char(0);
        assert(identifier@ =~= seq![c]);
        if c == 'W' {
            Some(GraveId::North)
        } else if c == 'A' {
            Some(GraveId::West)
        } else if c == 'S' {
            Some(GraveId::South)
        } else if c == 'D' {
            Some(GraveId::East)
        } else {
            assert(identifier@ != seq!['W']) by {
                assert(seq!['W'][0] == 'W');
            }
            assert(identifier@ != seq!['A']) by {
                assert(seq!['A'][0] == 'A');
            }
            assert(identifier@ != seq!['S']) by {
                assert(seq!['S'][0] == 'S');
            }
            assert(identifier@ != seq!['D']) by {
                assert(seq!['D'][0] == 'D');
            }
            None
        }
    }
}

/// The sum of `w`.
pub open spec fn weight_sum(w: Seq<usize>) -> int
    decreases w.len(),
{
    if w.len() == 0 {
        0
    } else {
        weight_sum(w.drop_last()) + w.last()
    }
}

/// Relies on rand's `WeightedIndex::new` and its `sample` on the thread's generator: a list
/// of weights that is not empty and has a positive total (which fits in `usize`) gives a
/// distribution, and a draw from it is an index into the list.
#[verifier::external_body]
fn draw_weighted_index(weights: &Vec<usize>) -> (r: Option<usize>)
    requires
        weight_sum(weights@) <= usize::MAX,
    ensures
        r matches Some(i) ==> i < weights@.len(),
        weights@.len() > 0 && weight_sum(weights@) > 0 ==> r.is_some(),
{
    match WeightedIndex::<usize>::new(weights) {
        Ok(dist) => Some(dist.sample(&mut rand::thread_rng())),
        Err(_) => None,
    }
}

/// First sprite of the gravestone bodies in the sheet.
pub const BODY_FIRST_INDEX: usize = 11;

/// Number of gravestone body sprites.
pub const BODY_COUNT: usize = 11;

/// The weight of each gravestone body sprite: the square of its distance from the end of
/// the run, so that the first sprites are the most common.
pub fn gravestone_body_weights() -> (w: Vec<usize>)
    ensures
        w@.len() == BODY_COUNT,
        forall|k: int| 0 <= k < BODY_COUNT ==> #[trigger] w@[k] == (BODY_COUNT - k) * (BODY_COUNT - k),
        121 <= weight_sum(w@) <= 121 * BODY_COUNT,
{
    let mut w: Vec<usize> = Vec::new();
    let mut k: usize = 0;
    let mut sum: usize = 0;
    while k < BODY_COUNT
        invariant
            k <= BODY_COUNT,
            w@.len() == k,
            forall|i: int| 0 <= i < k ==> #[trigger] w@[i] == (BODY_COUNT - i) * (BODY_COUNT - i),
            sum == weight_sum(w@),
            sum <= 121 * k,
            k > 0 ==> sum >= 121,
        decreases BODY_COUNT - k,
    {
        let d = BODY_COUNT - k;
        assert(d * d <= 121) by (nonlinear_arith)
            requires
                d <= 11,
        ;
        assert(k == 0 ==> d * d == 121) by (nonlinear_arith)
            requires
                d == BODY_COUNT - k,
        ;
        let ghost before = w@;
        w.push(d * d);
        assert(w@.drop_last() =~= before);
        sum = sum + d * d;
        k = k + 1;
    }
    w
}

/// Picks the sprite of a new gravestone's body at random, by the weights of
/// `gravestone_body_weights`.
pub fn spawn_gravestone_body() -> (index: usize)
    ensures
        BODY_FIRST_INDEX <= index < BODY_FIRST_INDEX + BODY_COUNT,
{
    let weights = gravestone_body_weights();
    let drawn = draw_weighted_index(&weights);
    let i = drawn.unwrap();
    BODY_FIRST_INDEX + i
}

} // verus!
