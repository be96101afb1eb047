//! Selection policies: the rule that picks the destination stream of one
//! publish attempt.
//!
//! Randomness is an injected capability: every random variant takes the raw
//! draw as an argument and reduces it modulo the number of equally likely
//! outcomes. This keeps the mapping from draw to stream a pure, verified
//! function; the statistical selection-frequency properties then reduce to
//! the size of each stream's preimage under that mapping, which is proved
//! below.

use vstd::prelude::*;
use crate::config::StreamSpec;
use crate::errors::GenError;

verus! {

/// The rule that chooses a destination stream for one publish attempt.
pub enum SelectionPolicy {
    /// Always the one configured name.
    Fixed { name: String },
    /// One name uniformly at random from the configured set, per call.
    UniformRandom { names: Vec<String> },
    /// One name with probability proportional to its weight, per call.
    WeightedRandom { specs: Vec<StreamSpec> },
    /// The caller supplies the exact target name per invocation.
    RequestSpecified,
}

/// The weights of a list of specs, in order.
pub open spec fn weights_of(specs: Seq<StreamSpec>) -> Seq<u64> {
    specs.map_values(|s: StreamSpec| s.weight)
}

/// The sum of a list of weights.
pub open spec fn total_weight(ws: Seq<u64>) -> int
    decreases ws.len(),
{
    if ws.len() == 0 {
        0
    } else {
        ws[0] + total_weight(ws.drop_first())
    }
}

/// The sum of the first `i` weights.
pub open spec fn prefix_weight(ws: Seq<u64>, i: int) -> int {
    total_weight(ws.subrange(0, i))
}

/// The index selected by a weighted draw `t`: the first index whose
/// cumulative weight exceeds `t`.
pub open spec fn weighted_pick(ws: Seq<u64>, t: int) -> int
    decreases ws.len(),
{
    if ws.len() == 0 {
        0
    } else if t < ws[0] {
        0
    } else {
        1 + weighted_pick(ws.drop_first(), t - ws[0])
    }
}

/// A weight sum is never negative.
pub proof fn lemma_total_weight_nonneg(ws: Seq<u64>)
    ensures
        total_weight(ws) >= 0,
    decreases ws.len(),
{
    if ws.len() > 0 {
        lemma_total_weight_nonneg(ws.drop_first());
    }
}

/// Unfolds one step of a prefix sum: the first weight plus the shortened
/// prefix of the remaining weights.
pub proof fn lemma_prefix_weight_unfold(ws: Seq<u64>, i: int)
    requires
        1 <= i <= ws.len(),
        ws.len() > 0,
    ensures
        prefix_weight(ws, i) == ws[0] + prefix_weight(ws.drop_first(), i - 1),
{
    assert(ws.subrange(0, i).drop_first() =~= ws.drop_first().subrange(0, i - 1));
    assert(ws.subrange(0, i)[0] == ws[0]);
}

/// A prefix sum plus the sum of the rest is the whole sum.
pub proof fn lemma_total_weight_split(ws: Seq<u64>, i: int)
    requires
        0 <= i <= ws.len(),
    ensures
        total_weight(ws) == prefix_weight(ws, i) + total_weight(
            ws.subrange(i, ws.len() as int),
        ),
    decreases i,
{
    if i == 0 {
        assert(ws.subrange(0, 0) =~= Seq::<u64>::empty());
        assert(ws.subrange(0, ws.len() as int) =~= ws);
    } else {
        lemma_prefix_weight_unfold(ws, i);
        lemma_total_weight_split(ws.drop_first(), i - 1);
        assert(ws.drop_first().subrange(i - 1, ws.drop_first().len() as int) =~= ws.subrange(
            i,
            ws.len() as int,
        ));
    }
}

/// A weighted draw below the total always lands on a real index.
pub proof fn lemma_weighted_pick_in_range(ws: Seq<u64>, t: int)
    requires
        0 <= t < total_weight(ws),
    ensures
        0 <= weighted_pick(ws, t) < ws.len(),
    decreases ws.len(),
{
    if ws.len() > 0 && t >= ws[0] {
        lemma_weighted_pick_in_range(ws.drop_first(), t - ws[0]);
    }
}

/// The draws that select index `i` are exactly the interval of size
/// `ws[i]` starting at the cumulative weight before `i`. Over draws made
/// uniformly below the total weight, each index is therefore selected with
/// frequency `ws[i]` out of `total_weight(ws)`.
pub proof fn lemma_weighted_pick_interval(ws: Seq<u64>, i: int, t: int)
    requires
        0 <= i < ws.len(),
        0 <= t < total_weight(ws),
    ensures
        weighted_pick(ws, t) == i <==> prefix_weight(ws, i) <= t < prefix_weight(ws, i) + ws[i],
    decreases ws.len(),
{
    assert(ws.subrange(0, 0) =~= Seq::<u64>::empty());
    if i == 0 {
        lemma_total_weight_nonneg(ws.drop_first());
        if t >= ws[0] {
            lemma_weighted_pick_in_range(ws.drop_first(), t - ws[0]);
        }
    } else {
        lemma_prefix_weight_unfold(ws, i);
        if t < ws[0] {
            lemma_total_weight_nonneg(ws.drop_first().subrange(0, i - 1));
            assert(prefix_weight(ws.drop_first(), i - 1) >= 0);
        } else {
            lemma_weighted_pick_interval(ws.drop_first(), i - 1, t - ws[0]);
            assert(ws.drop_first()[i - 1] == ws[i]);
        }
    }
}

/// Over the `n` equally likely reduced draws, each index is selected by
/// exactly one: uniform selection gives each of `n` names frequency `1/n`.
pub proof fn lemma_uniform_pick_exact(n: int, i: int, t: int)
    requires
        0 <= i < n,
        0 <= t < n,
    ensures
        t % n == i <==> t == i,
{
    vstd::arithmetic::div_mod::lemma_small_mod(t as nat, n as nat);
}

/// With every weight equal to 1, a weighted draw degenerates to the
/// uniform one: draw `t` selects index `t`.
pub proof fn lemma_weighted_pick_all_ones(ws: Seq<u64>, t: int)
    requires
        forall|k: int| 0 <= k < ws.len() ==> ws[k] == 1,
        0 <= t < total_weight(ws),
    ensures
        weighted_pick(ws, t) == t,
    decreases ws.len(),
{
    if ws.len() > 0 && t >= 1 {
        lemma_weighted_pick_all_ones(ws.drop_first(), t - 1);
    }
}

/// Sums the weights of `specs`, or fails when the sum leaves `u64`.
pub fn sum_weights(specs: &Vec<StreamSpec>) -> (r: Option<u64>)
    ensures
        r is Some ==> r->0 == total_weight(weights_of(specs@)),
        r is None ==> total_weight(weights_of(specs@)) > u64::MAX,
{
    let ghost ws = weights_of(specs@);
    let mut acc: u64 = 0;
    let mut i: usize = 0;
    proof {
        assert(ws.subrange(0, 0) =~= Seq::<u64>::empty());
    }
    while i < specs.len()
        invariant
            i <= specs@.len(),
            ws == weights_of(specs@),
            acc == prefix_weight(ws, i as int),
        decreases specs@.len() - i,
    {
        proof {
            assert(ws.subrange(0, i + 1).drop_last() =~= ws.subrange(0, i as int));
            lemma_total_weight_last(ws.subrange(0, i + 1));
        }
        acc = match acc.checked_add(specs[i].weight) {
            Some(v) => v,
            None => {
                proof {
                    lemma_total_weight_split(ws, i + 1);
                    lemma_total_weight_nonneg(ws.subrange(i + 1, ws.len() as int));
                }
                return None;
            },
        };
        i += 1;
    }
    proof {
        assert(ws.subrange(0, ws.len() as int) =~= ws);
    }
    Some(acc)
}

/// The sum of a non-empty weight list is the sum of all but the last,
/// plus the last.
pub proof fn lemma_total_weight_last(ws: Seq<u64>)
    requires
        ws.len() > 0,
    ensures
        total_weight(ws) == total_weight(ws.drop_last()) + ws[ws.len() - 1],
    decreases ws.len(),
{
    if ws.len() == 1 {
        assert(ws.drop_last() =~= Seq::<u64>::empty());
        assert(ws.drop_first() =~= Seq::<u64>::empty());
    } else {
        lemma_total_weight_last(ws.drop_first());
        assert(ws.drop_first().drop_last() =~= ws.drop_last().drop_first());
        assert(ws.drop_last()[0] == ws[0]);
    }
}

/// What `select` returns: the name selected by the policy for a given raw
/// draw and, for the request-driven variant, the caller-supplied target.
pub open spec fn selection_spec(
    policy: SelectionPolicy,
    draw: u64,
    requested: Option<Seq<char>>,
) -> Result<Seq<char>, GenError> {
    match policy {
        SelectionPolicy::Fixed { name } => Ok(name@),
        SelectionPolicy::UniformRandom { names } => {
            if names@.len() == 0 {
                Err(GenError::NoTargetsConfigured)
            } else {
                Ok(names@[draw as int % names@.len() as int]@)
            }
        },
        SelectionPolicy::WeightedRandom { specs } => {
            let ws = weights_of(specs@);
            if total_weight(ws) == 0 {
                Err(GenError::NoTargetsConfigured)
            } else {
                Ok(specs@[weighted_pick(ws, draw as int % total_weight(ws))].name@)
            }
        },
        SelectionPolicy::RequestSpecified => {
            match requested {
                Some(name) => Ok(name),
                None => Err(GenError::NoTargetsConfigured),
            }
        },
    }
}

/// A policy is well formed when its weight sum fits the machine word, so a
/// draw can be reduced modulo it.
pub open spec fn policy_wf(policy: SelectionPolicy) -> bool {
    match policy {
        SelectionPolicy::WeightedRandom { specs } => total_weight(weights_of(specs@))
            <= u64::MAX,
        _ => true,
    }
}

impl SelectionPolicy {
    /// Builds the weighted variant, rejecting a zero weight and a weight
    /// sum beyond the machine word.
    pub fn weighted(specs: Vec<StreamSpec>) -> (r: Result<SelectionPolicy, GenError>)
        ensures
            r is Ok ==> r->Ok_0 == (SelectionPolicy::WeightedRandom { specs }) && policy_wf(
                r->Ok_0,
            ),
            r is Ok <==> ((forall|i: int| 0 <= i < specs@.len() ==> #[trigger] specs@[i].weight
                >= 1) && total_weight(weights_of(specs@)) <= u64::MAX),
            r is Err ==> r->Err_0 == GenError::InvalidWeight,
    {
        let mut i: usize = 0;
        while i < specs.len()
            invariant
                i <= specs@.len(),
                forall|k: int| 0 <= k < i ==> #[trigger] specs@[k].weight >= 1,
            decreases specs@.len() - i,
        {
            if specs[i].weight < 1 {
                return Err(GenError::InvalidWeight);
            }
            i += 1;
        }
        match sum_weights(&specs) {
            Some(_) => Ok(SelectionPolicy::WeightedRandom { specs }),
            None => Err(GenError::InvalidWeight),
        }
    }

    /// Chooses the destination stream for one attempt. `draw` is the raw
    /// random draw; `requested` is the caller-supplied target of the
    /// request-driven variant. Fails exactly when the policy has nothing
    /// to choose from.
    pub fn select(&self, draw: u64, requested: Option<&String>) -> (r: Result<String, GenError>)
        requires
            policy_wf(*self),
        ensures
            (match selection_spec(*self, draw, match requested {
                Some(s) => Some(s@),
                None => None,
            }) {
                Ok(name) => r is Ok && r->Ok_0@ == name,
                Err(e) => r is Err && r->Err_0 == e,
            }),
    {
        match self {
            SelectionPolicy::Fixed { name } => Ok(name.clone()),
            SelectionPolicy::UniformRandom { names } => {
                if names.len() == 0 {
                    Err(GenError::NoTargetsConfigured)
                } else {
                    let idx = (draw % (names.len() as u64)) as usize;
                    Ok(names[idx].clone())
                }
            },
            SelectionPolicy::WeightedRandom { specs } => {
                let total = match sum_weights(specs) {
                    Some(t) => t,
                    None => {
                        // Unreachable: a well-formed policy's weight sum
                        // fits the machine word.
                        proof {
                            assert(false);
                        }
                        return Err(GenError::NoTargetsConfigured);
                    },
                };
                if total == 0 {
                    Err(GenError::NoTargetsConfigured)
                } else {
                    let t = draw % total;
                    let idx = pick_index(specs, t);
                    Ok(specs[idx].name.clone())
                }
            },
            SelectionPolicy::RequestSpecified => {
                match requested {
                    Some(name) => Ok(name.clone()),
                    None => Err(GenError::NoTargetsConfigured),
                }
            },
        }
    }
}

/// Walks the cumulative weights to find the index a reduced draw selects.
fn pick_index(specs: &Vec<StreamSpec>, t: u64) -> (idx: usize)
    requires
        t < total_weight(weights_of(specs@)),
        total_weight(weights_of(specs@)) <= u64::MAX,
    ensures
        idx == weighted_pick(weights_of(specs@), t as int),
        idx < specs@.len(),
{
    let ghost ws = weights_of(specs@);
    proof {
        lemma_weighted_pick_in_range(ws, t as int);
    }
    let mut acc: u64 = 0;
    let mut i: usize = 0;
    proof {
        assert(ws.subrange(0, 0) =~= Seq::<u64>::empty());
    }
    while i < specs.len()
        invariant
            i <= specs@.len(),
            ws == weights_of(specs@),
            t < total_weight(ws) <= u64::MAX,
            acc == prefix_weight(ws, i as int),
            acc <= t,
        decreases specs@.len() - i,
    {
        proof {
            lemma_total_weight_split(ws, i as int);
            lemma_total_weight_nonneg(ws.subrange(i as int, ws.len() as int));
            assert(ws.subrange(0, i + 1).drop_last() =~= ws.subrange(0, i as int));
            lemma_total_weight_last(ws.subrange(0, i + 1));
            lemma_total_weight_split(ws, i + 1);
            lemma_total_weight_nonneg(ws.subrange(i + 1, ws.len() as int));
        }
        let w = specs[i].weight;
        if t < acc + w {
            proof {
                lemma_weighted_pick_interval(ws, i as int, t as int);
            }
            return i;
        }
        acc = acc + w;
        i += 1;
    }
    proof {
        assert(ws.subrange(0, ws.len() as int) =~= ws);
        assert(false);
    }
    0
}

} // verus!
