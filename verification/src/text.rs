use vstd::prelude::*;

verus! {

/// The index of the first occurrence of `c` in `s`, or `s.len()` if `c`
/// does not occur.
pub open spec fn first_index_of(s: Seq<char>, c: char) -> nat
    decreases s.len(),
{
    if s.len() == 0 {
        0
    } else if s[0] == c {
        0
    } else {
        1 + first_index_of(s.skip(1), c)
    }
}

/// The number of occurrences of `c` in `s`.
pub open spec fn count_char(s: Seq<char>, c: char) -> nat
    decreases s.len(),
{
    if s.len() == 0 {
        0
    } else {
        (if s[0] == c {
            1nat
        } else {
            0nat
        }) + count_char(s.skip(1), c)
    }
}

/// If the first `k` characters of `s` are not `c` and `s[k]` is, then `k`
/// is the first index of `c`.
pub proof fn lemma_first_index_at(s: Seq<char>, c: char, k: int)
    requires
        0 <= k < s.len(),
        s[k] == c,
        forall|j: int| 0 <= j < k ==> s[j] != c,
    ensures
        first_index_of(s, c) == k,
    decreases k,
{
    if k > 0 {
        assert(s[0] != c);
        assert(s.skip(1)[k - 1] == c);
        assert(forall|j: int| 0 <= j < k - 1 ==> s.skip(1)[j] != c);
        lemma_first_index_at(s.skip(1), c, k - 1);
    }
}

/// If `c` does not occur in `s`, its first index is `s.len()`.
pub proof fn lemma_first_index_none(s: Seq<char>, c: char)
    requires
        forall|j: int| 0 <= j < s.len() ==> s[j] != c,
    ensures
        first_index_of(s, c) == s.len(),
    decreases s.len(),
{
    if s.len() > 0 {
        assert(forall|j: int| 0 <= j < s.skip(1).len() ==> s.skip(1)[j] != c);
        lemma_first_index_none(s.skip(1), c);
    }
}

/// Appending one character adds its occurrences to the count.
pub proof fn lemma_count_push(s: Seq<char>, c: char, x: char)
    ensures
        count_char(s.push(x), c) == count_char(s, c) + (if x == c {
            1nat
        } else {
            0nat
        }),
    decreases s.len(),
{
    if s.len() == 0 {
        assert(s.push(x).len() == 1);
        assert(s.push(x)[0] == x);
        assert(s.push(x).skip(1) =~= Seq::<char>::empty());
        assert(count_char(s.push(x).skip(1), c) == 0);
        assert(count_char(s.push(x), c) == (if x == c {
            1nat
        } else {
            0nat
        }));
    } else {
        assert(s.push(x)[0] == s[0]);
        assert(s.push(x).skip(1) =~= s.skip(1).push(x));
        lemma_count_push(s.skip(1), c, x);
        assert(count_char(s.push(x), c) == (if s[0] == c {
            1nat
        } else {
            0nat
        }) + count_char(s.skip(1).push(x), c));
    }
}

} // verus!
