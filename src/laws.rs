use vstd::prelude::*;

use crate::model::{absent_in, distinct, first_match, search_result, sorted};

verus! {

/// A first match from the start is a correct search result.
pub proof fn lemma_first_match_is_search_result(s: Seq<int>, t: int, r: Option<usize>)
    requires
        first_match(s, t, 0, r),
    ensures
        search_result(s, t, r),
{
}

/// Equivalence: on sorted input the dispatcher, the linear scan, the binary search
/// and the scalar scan from index 0 agree on whether the target is present, and
/// where no value repeats they return the same index.
pub proof fn lemma_searches_agree(
    s: Seq<int>,
    t: int,
    auto_r: Option<usize>,
    linear_r: Option<usize>,
    binary_r: Option<usize>,
    scalar_r: Option<usize>,
)
    requires
        sorted(s),
        search_result(s, t, auto_r),
        first_match(s, t, 0, linear_r),
        search_result(s, t, binary_r),
        first_match(s, t, 0, scalar_r),
    ensures
        auto_r is None <==> linear_r is None,
        binary_r is None <==> linear_r is None,
        scalar_r is None <==> linear_r is None,
        distinct(s) ==> auto_r == linear_r && binary_r == linear_r && scalar_r == linear_r,
{
    lemma_first_match_is_search_result(s, t, linear_r);
    lemma_first_match_is_search_result(s, t, scalar_r);
    if distinct(s) {
        lemma_same_index(s, t, auto_r, linear_r);
        lemma_same_index(s, t, binary_r, linear_r);
        lemma_same_index(s, t, scalar_r, linear_r);
    } else {
        lemma_same_presence(s, t, auto_r, linear_r);
        lemma_same_presence(s, t, binary_r, linear_r);
        lemma_same_presence(s, t, scalar_r, linear_r);
    }
}

proof fn lemma_same_presence(s: Seq<int>, t: int, a: Option<usize>, b: Option<usize>)
    requires
        sorted(s),
        search_result(s, t, a),
        search_result(s, t, b),
    ensures
        a is None <==> b is None,
{
    if let Some(i) = a {
        assert(s[i as int] == t);
    }
    if let Some(i) = b {
        assert(s[i as int] == t);
    }
}

proof fn lemma_same_index(s: Seq<int>, t: int, a: Option<usize>, b: Option<usize>)
    requires
        sorted(s),
        distinct(s),
        search_result(s, t, a),
        search_result(s, t, b),
    ensures
        a == b,
{
    lemma_same_presence(s, t, a, b);
    if let Some(i) = a {
        if let Some(j) = b {
            assert(s[i as int] == s[j as int]);
        }
    }
}

/// Totality over present elements: on sorted input a search for any element
/// finds an index that holds an equal value.
pub proof fn lemma_present_always_found(s: Seq<int>, i: int, r: Option<usize>)
    requires
        sorted(s),
        0 <= i < s.len(),
        search_result(s, s[i], r),
    ensures
        r is Some,
        s[r->0 as int] == s[i],
{
    if r is None {
        assert(absent_in(s, s[i], 0, s.len() as int));
        assert(s[i] != s[i]);
    }
}

/// Absence: on sorted input a target below the first element, above the last, or
/// strictly between two neighbouring elements is reported absent.
pub proof fn lemma_absent_never_found(s: Seq<int>, t: int, r: Option<usize>)
    requires
        sorted(s),
        search_result(s, t, r),
        s.len() == 0 || t < s[0] || t > s[s.len() - 1] || exists|k: int|
            0 <= k < s.len() - 1 && s[k] < t < #[trigger] s[k + 1],
    ensures
        r is None,
{
    if let Some(j) = r {
        let j = j as int;
        assert(s[j] == t);
        if s.len() > 0 && t < s[0] {
            assert(s[0] <= s[j]);
        } else if s.len() > 0 && t > s[s.len() - 1] {
            assert(s[j] <= s[s.len() - 1]);
        } else {
            let k = choose|k: int| 0 <= k < s.len() - 1 && s[k] < t < #[trigger] s[k + 1];
            if j <= k {
                assert(s[j] <= s[k]);
            } else {
                assert(s[k + 1] <= s[j]);
            }
        }
    }
}

} // verus!
