//! A small association list from language codes to coefficient sets.
//!
//! The per-language overrides are few, read-mostly and replaced wholesale,
//! so they are kept as a vector of pairs with unique keys. A lookup returns
//! the first pair whose key matches; any code that is absent — the sentinel
//! `"unknown"` among them, which is never a key — falls back to the default
//! coefficient set held beside the list.

use vstd::prelude::*;

verus! {

/// The spec-level image of an association list: each key as its character
/// sequence, beside the value it maps to.
pub open spec fn pairs_view<P>(v: Seq<(String, P)>) -> Seq<(Seq<char>, P)> {
    v.map_values(|pr: (String, P)| (pr.0@, pr.1))
}

/// The value stored under `code`: the first pair with that key, if any.
pub open spec fn spec_lookup<P>(pairs: Seq<(Seq<char>, P)>, code: Seq<char>) -> Option<P>
    decreases pairs.len(),
{
    if pairs.len() == 0 {
        None
    } else if pairs[0].0 == code {
        Some(pairs[0].1)
    } else {
        spec_lookup(pairs.drop_first(), code)
    }
}

/// Whether some pair holds `code` as its key.
pub open spec fn has_code<P>(pairs: Seq<(Seq<char>, P)>, code: Seq<char>) -> bool {
    exists|i: int| 0 <= i < pairs.len() && pairs[i].0 == code
}

/// Whether no two pairs hold the same key: the invariant of a mapping.
pub open spec fn unique_codes<P>(pairs: Seq<(Seq<char>, P)>) -> bool {
    forall|i: int, j: int|
        #![trigger pairs[i], pairs[j]]
        0 <= i < j < pairs.len() ==> pairs[i].0 != pairs[j].0
}

/// A three-letter code packed into one number, so that distinct codes give
/// distinct numbers and a sorted table can be seen to have unique keys by
/// comparing neighbours alone. Anything but three characters packs to a
/// number no three-letter code has.
pub open spec fn code_key(s: Seq<char>) -> int {
    if s.len() == 3 {
        (s[0] as u32) * 0x10000 + (s[1] as u32) * 0x100 + (s[2] as u32)
    } else {
        -1
    }
}

/// Whether the pairs are strictly sorted by their packed keys.
pub open spec fn sorted_codes<P>(pairs: Seq<(Seq<char>, P)>) -> bool {
    forall|i: int|
        0 <= i < pairs.len() - 1 ==> code_key((#[trigger] pairs[i]).0) < code_key(pairs[i + 1].0)
}

/// In a strictly sorted table the packed keys grow with the position.
proof fn lemma_sorted_codes_key_grows<P>(pairs: Seq<(Seq<char>, P)>, i: int, j: int)
    requires
        sorted_codes(pairs),
        0 <= i < j < pairs.len(),
    ensures
        code_key(pairs[i].0) < code_key(pairs[j].0),
    decreases j - i,
{
    if j > i + 1 {
        lemma_sorted_codes_key_grows(pairs, i, j - 1);
    }
}

/// A table strictly sorted by packed keys holds each key once.
pub proof fn lemma_sorted_codes_unique<P>(pairs: Seq<(Seq<char>, P)>)
    requires
        sorted_codes(pairs),
    ensures
        unique_codes(pairs),
{
    assert forall|i: int, j: int|
        #![trigger pairs[i], pairs[j]]
        0 <= i < j < pairs.len() implies pairs[i].0 != pairs[j].0 by {
        lemma_sorted_codes_key_grows(pairs, i, j);
    }
}

/// A lookup succeeds exactly when some pair holds the code.
pub proof fn lemma_lookup_some_iff_has_code<P>(pairs: Seq<(Seq<char>, P)>, code: Seq<char>)
    ensures
        spec_lookup(pairs, code) is Some <==> has_code(pairs, code),
    decreases pairs.len(),
{
    if pairs.len() > 0 {
        lemma_lookup_some_iff_has_code(pairs.drop_first(), code);
        if pairs[0].0 == code {
            assert(has_code(pairs, code));
        } else {
            if has_code(pairs.drop_first(), code) {
                let i = choose|i: int|
                    0 <= i < pairs.drop_first().len() && pairs.drop_first()[i].0 == code;
                assert(pairs[i + 1].0 == code);
            }
            if has_code(pairs, code) {
                let i = choose|i: int| 0 <= i < pairs.len() && pairs[i].0 == code;
                assert(pairs.drop_first()[i - 1].0 == code);
            }
        }
    }
}

/// A code that no pair holds falls through to a failed lookup.
pub proof fn lemma_absent_code_lookup_none<P>(pairs: Seq<(Seq<char>, P)>, code: Seq<char>)
    requires
        !has_code(pairs, code),
    ensures
        spec_lookup(pairs, code) is None,
{
    lemma_lookup_some_iff_has_code(pairs, code);
}

/// What a successful lookup returns is the value of some pair that holds
/// the code.
pub proof fn lemma_lookup_some_is_entry<P>(pairs: Seq<(Seq<char>, P)>, code: Seq<char>)
    requires
        spec_lookup(pairs, code) is Some,
    ensures
        exists|i: int|
            0 <= i < pairs.len() && pairs[i] == (code, spec_lookup(pairs, code).unwrap()),
    decreases pairs.len(),
{
    if pairs[0].0 == code {
        assert(pairs[0] == (code, spec_lookup(pairs, code).unwrap()));
    } else {
        lemma_lookup_some_is_entry(pairs.drop_first(), code);
        let i = choose|i: int|
            0 <= i < pairs.drop_first().len() && pairs.drop_first()[i] == (
                code,
                spec_lookup(pairs.drop_first(), code).unwrap(),
            );
        assert(pairs[i + 1] == (code, spec_lookup(pairs, code).unwrap()));
    }
}

/// Pairs that do not hold the code at their front can be passed over
/// without changing what a lookup finds.
proof fn lemma_lookup_skip<P>(pairs: Seq<(Seq<char>, P)>, code: Seq<char>, i: int)
    requires
        0 <= i <= pairs.len(),
        forall|j: int| 0 <= j < i ==> #[trigger] pairs[j].0 != code,
    ensures
        spec_lookup(pairs, code) == spec_lookup(pairs.skip(i), code),
    decreases i,
{
    if i == 0 {
        assert(pairs.skip(0) =~= pairs);
    } else {
        assert(pairs[0].0 != code);
        assert(forall|j: int|
            0 <= j < i - 1 ==> #[trigger] pairs.drop_first()[j].0 == pairs[j + 1].0);
        lemma_lookup_skip(pairs.drop_first(), code, i - 1);
        assert(pairs.skip(i) =~= pairs.drop_first().skip(i - 1));
    }
}

/// Finds the value stored under `code`: the first pair whose key is `code`.
pub fn lookup_code<'a, P>(pairs: &'a Vec<(String, P)>, code: &String) -> (r: Option<&'a P>)
    ensures
        (match r {
            Some(p) => spec_lookup(pairs_view(pairs@), code@) == Some(*p),
            None => spec_lookup(pairs_view(pairs@), code@) is None,
        }),
{
    let n = pairs.len();
    let mut i: usize = 0;
    while i < n
        invariant
            n == pairs.len(),
            0 <= i <= n,
            forall|j: int| 0 <= j < i ==> #[trigger] pairs_view(pairs@)[j].0 != code@,
        decreases n - i,
    {
        if pairs[i].0 == *code {
            proof {
                lemma_lookup_skip(pairs_view(pairs@), code@, i as int);
                assert(pairs_view(pairs@).skip(i as int)[0] == pairs_view(pairs@)[i as int]);
                assert(pairs_view(pairs@)[i as int] == (pairs@[i as int].0@, pairs@[i as int].1));
            }
            return Some(&pairs[i].1);
        }
        proof {
            assert(pairs_view(pairs@)[i as int] == (pairs@[i as int].0@, pairs@[i as int].1));
        }
        i = i + 1;
    }
    proof {
        lemma_lookup_skip(pairs_view(pairs@), code@, n as int);
        assert(pairs_view(pairs@).skip(n as int) =~= Seq::<(Seq<char>, P)>::empty());
    }
    None
}

} // verus!
