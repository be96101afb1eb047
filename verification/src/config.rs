//! Stream configuration: named streams with positive integer weights.
//!
//! The set of streams is read once at startup from a comma-separated list of
//! names and is immutable for the process lifetime. The first name receives a
//! higher default weight than the rest, mirroring the skew the generator
//! applies when no explicit weights are given.

use vstd::prelude::*;
use crate::errors::GenError;

verus! {

/// Default weight of the first configured stream.
pub const FIRST_STREAM_WEIGHT: u64 = 4;

/// Default weight of every stream after the first.
pub const LATER_STREAM_WEIGHT: u64 = 1;

/// One named stream together with its selection weight.
///
/// Invariant: the weight is at least 1; a zero weight is a configuration
/// error detected at setup.
#[derive(Clone)]
pub struct StreamSpec {
    pub name: String,
    pub weight: u64,
}

impl StreamSpec {
    /// The weight invariant of a single spec.
    pub open spec fn wf(&self) -> bool {
        self.weight >= 1
    }

    /// Builds a spec, rejecting a weight of zero.
    pub fn new(name: String, weight: u64) -> (r: Result<StreamSpec, GenError>)
        ensures
            weight >= 1 <==> r is Ok,
            r is Err ==> r->Err_0 == GenError::InvalidWeight,
            r is Ok ==> r->Ok_0.name@ == name@ && r->Ok_0.weight == weight && r->Ok_0.wf(),
    {
        if weight >= 1 {
            Ok(StreamSpec { name, weight })
        } else {
            Err(GenError::InvalidWeight)
        }
    }
}

/// The position of the first comma of `s`, or a negative value if none.
pub open spec fn find_comma(s: Seq<char>) -> int
    decreases s.len(),
{
    if s.len() == 0 {
        -1
    } else if s[0] == ',' {
        0
    } else {
        let r = find_comma(s.drop_first());
        if r < 0 {
            -1
        } else {
            r + 1
        }
    }
}

/// The segments of `s` between commas, in order, empty segments included.
pub open spec fn split_names(s: Seq<char>) -> Seq<Seq<char>>
    decreases s.len(),
{
    let i = find_comma(s);
    if 0 <= i < s.len() {
        seq![s.subrange(0, i)] + split_names(s.subrange(i + 1, s.len() as int))
    } else {
        seq![s]
    }
}

/// `find_comma` points at the first comma and is within bounds.
proof fn lemma_find_comma(s: Seq<char>)
    ensures
        find_comma(s) < s.len(),
        find_comma(s) >= 0 ==> s[find_comma(s)] == ','
            && (forall|k: int| 0 <= k < find_comma(s) ==> s[k] != ','),
        find_comma(s) < 0 ==> forall|k: int| 0 <= k < s.len() ==> s[k] != ',',
    decreases s.len(),
{
    if s.len() == 0 {
    } else if s[0] == ',' {
    } else {
        lemma_find_comma(s.drop_first());
        let r = find_comma(s.drop_first());
        if r >= 0 {
            assert forall|k: int| 0 <= k < r + 1 implies s[k] != ',' by {
                if k > 0 {
                    assert(s.drop_first()[k - 1] != ',');
                }
            }
        } else {
            assert forall|k: int| 0 <= k < s.len() implies s[k] != ',' by {
                if k > 0 {
                    assert(s.drop_first()[k - 1] != ',');
                }
            }
        }
    }
}

/// If the first comma of `s` is at `k`, `find_comma` returns `k`.
proof fn lemma_find_comma_is(s: Seq<char>, k: int)
    requires
        0 <= k < s.len(),
        s[k] == ',',
        forall|j: int| 0 <= j < k ==> s[j] != ',',
    ensures
        find_comma(s) == k,
    decreases s.len(),
{
    if k == 0 {
    } else {
        assert(s[0] != ',');
        assert forall|j: int| 0 <= j < k - 1 implies s.drop_first()[j] != ',' by {
            assert(s[j + 1] != ',');
        }
        assert(s.drop_first()[k - 1] == ',');
        lemma_find_comma_is(s.drop_first(), k - 1);
    }
}

/// If `s` has no comma, it is a single segment.
proof fn lemma_split_whole(s: Seq<char>)
    requires
        forall|k: int| 0 <= k < s.len() ==> s[k] != ',',
    ensures
        split_names(s) == seq![s],
{
    lemma_find_comma(s);
    if find_comma(s) >= 0 {
        assert(s[find_comma(s)] == ',');
    }
}

/// Splitting at the first comma peels off one segment.
proof fn lemma_split_step(s: Seq<char>, k: int)
    requires
        0 <= k < s.len(),
        s[k] == ',',
        forall|j: int| 0 <= j < k ==> s[j] != ',',
    ensures
        split_names(s) == seq![s.subrange(0, k)] + split_names(
            s.subrange(k + 1, s.len() as int),
        ),
{
    lemma_find_comma_is(s, k);
}

/// Splits a comma-separated list of stream names into its segments.
pub fn split_queue_names(s: &str) -> (r: Vec<String>)
    ensures
        r@.map_values(|t: String| t@) == split_names(s@),
{
    let n = s.unicode_len();
    let mut out: Vec<String> = Vec::new();
    let mut start: usize = 0;
    let mut i: usize = 0;
    proof {
        assert(s@.subrange(0, n as int) =~= s@);
        assert(out@.map_values(|t: String| t@) + split_names(s@) =~= split_names(s@));
    }
    while i < n
        invariant
            start <= i <= n,
            n == s@.len(),
            split_names(s@) == out@.map_values(|t: String| t@) + split_names(
                s@.subrange(start as int, n as int),
            ),
            forall|k: int| start <= k < i ==> s@[k] != ',',
        decreases n - i,
    {
        if s.get_char(i) == ',' {
            let piece = s.substring_char(start, i);
            let ghost old_out = out@;
            out.push(piece.to_owned());
            proof {
                let rest = s@.subrange(start as int, n as int);
                lemma_split_step(rest, i - start);
                assert(rest.subrange(0, i - start) =~= s@.subrange(start as int, i as int));
                assert(rest.subrange(i - start + 1, rest.len() as int) =~= s@.subrange(
                    i + 1,
                    n as int,
                ));
                assert(out@.map_values(|t: String| t@) =~= old_out.map_values(|t: String| t@)
                    + seq![piece@]);
                assert(out@.map_values(|t: String| t@) + split_names(
                    s@.subrange(i + 1, n as int),
                ) =~= old_out.map_values(|t: String| t@) + (seq![s@.subrange(
                    start as int,
                    i as int,
                )] + split_names(s@.subrange(i + 1, n as int))));
            }
            start = i + 1;
        }
        i += 1;
    }
    let piece = s.substring_char(start, n);
    let ghost old_out = out@;
    out.push(piece.to_owned());
    proof {
        let rest = s@.subrange(start as int, n as int);
        lemma_split_whole(rest);
        assert(out@.map_values(|t: String| t@) =~= old_out.map_values(|t: String| t@) + seq![
            piece@,
        ]);
        assert(out@.map_values(|t: String| t@) =~= old_out.map_values(|t: String| t@)
            + split_names(rest));
    }
    out
}

/// The default weight of the stream at position `i` of the configured list.
pub open spec fn default_weight_at(i: int) -> u64 {
    if i == 0 {
        FIRST_STREAM_WEIGHT
    } else {
        LATER_STREAM_WEIGHT
    }
}

/// Pairs each configured name with its default weight: the first stream is
/// favoured, every later one gets the base weight.
pub fn weighted_specs(names: Vec<String>) -> (r: Vec<StreamSpec>)
    ensures
        r@.len() == names@.len(),
        forall|i: int|
            0 <= i < r@.len() ==> #[trigger] r@[i].name@ == names@[i]@ && r@[i].weight
                == default_weight_at(i) && r@[i].wf(),
{
    let mut out: Vec<StreamSpec> = Vec::new();
    let n = names.len();
    let mut idx: usize = 0;
    while idx < n
        invariant
            idx <= n,
            n == names@.len(),
            out@.len() == idx,
            forall|i: int|
                0 <= i < out@.len() ==> #[trigger] out@[i].name@ == names@[i]@ && out@[i].weight
                    == default_weight_at(i) && out@[i].wf(),
        decreases n - idx,
    {
        let weight: u64 = if idx == 0 {
            FIRST_STREAM_WEIGHT
        } else {
            LATER_STREAM_WEIGHT
        };
        let name = names[idx].clone();
        proof {
            assert(name@ == names@[idx as int]@);
        }
        out.push(StreamSpec { name, weight });
        idx += 1;
    }
    out
}

/// Assembles the broker connection URL from its configured parts.
pub fn amqp_url(user: &str, pass: &str, host: &str, port: &str) -> (r: String)
    ensures
        r@ == "amqp://"@ + user@ + ":"@ + pass@ + "@"@ + host@ + ":"@ + port@ + "/%2f"@,
{
    let mut r = String::from_str("amqp://");
    r.append(user);
    r.append(":");
    r.append(pass);
    r.append("@");
    r.append(host);
    r.append(":");
    r.append(port);
    r.append("/%2f");
    proof {
        assert(r@ =~= "amqp://"@ + user@ + ":"@ + pass@ + "@"@ + host@ + ":"@ + port@ + "/%2f"@);
    }
    r
}

} // verus!
