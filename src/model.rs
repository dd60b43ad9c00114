use vstd::prelude::*;

use crate::field::SIMDField;

verus! {

/// The integers that a slice of elements stands for.
pub open spec fn values<T: SIMDField>(s: Seq<T>) -> Seq<int> {
    s.map_values(|x: T| x.value())
}

/// Ascending order, equal neighbours allowed.
pub open spec fn sorted(s: Seq<int>) -> bool {
    forall|i: int, j: int| 0 <= i <= j < s.len() ==> s[i] <= s[j]
}

/// No value occurs twice.
pub open spec fn distinct(s: Seq<int>) -> bool {
    forall|i: int, j: int| 0 <= i < s.len() && 0 <= j < s.len() && i != j ==> s[i] != s[j]
}

/// No element of `s[lo..hi]` equals `t`.
pub open spec fn absent_in(s: Seq<int>, t: int, lo: int, hi: int) -> bool {
    forall|j: int| lo <= j < hi && 0 <= j < s.len() ==> s[j] != t
}

/// `r` is the first index of `s[lo..hi]` that holds `t`, or `None` where none does.
pub open spec fn first_match_in(s: Seq<int>, t: int, lo: int, hi: int, r: Option<usize>) -> bool {
    match r {
        Some(i) => lo <= i < hi && i < s.len() && s[i as int] == t && absent_in(s, t, lo, i as int),
        None => absent_in(s, t, lo, hi),
    }
}

/// `r` is the first index at or after `from` that holds `t`, or `None` where none does.
pub open spec fn first_match(s: Seq<int>, t: int, from: int, r: Option<usize>) -> bool {
    first_match_in(s, t, from, s.len() as int, r)
}

/// `r` is an index that holds `t`; `None` is a correct answer only on sorted input
/// that does not hold `t` at all.
pub open spec fn search_result(s: Seq<int>, t: int, r: Option<usize>) -> bool {
    match r {
        Some(i) => i < s.len() && s[i as int] == t,
        None => sorted(s) ==> absent_in(s, t, 0, s.len() as int),
    }
}

} // verus!
