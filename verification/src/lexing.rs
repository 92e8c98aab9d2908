//! Splitting a parameter source into tokens.
//!
//! A token is a maximal run of non-whitespace characters, the same
//! segmentation rule that the word count uses.

use vstd::prelude::*;
use crate::text::is_ws;

verus! {

/// The length of the run of non-whitespace characters at the front of `s`.
pub open spec fn word_prefix_len(s: Seq<char>) -> nat
    decreases s.len(),
{
    if s.len() == 0 || is_ws(s[0]) {
        0
    } else {
        1 + word_prefix_len(s.drop_first())
    }
}

/// The front run of non-whitespace characters never reaches past the end.
pub proof fn lemma_word_prefix_len_le_len(s: Seq<char>)
    ensures
        word_prefix_len(s) <= s.len(),
    decreases s.len(),
{
    if s.len() > 0 && !is_ws(s[0]) {
        lemma_word_prefix_len_le_len(s.drop_first());
    }
}

/// The tokens of `s`: its maximal runs of non-whitespace characters, in
/// order.
pub open spec fn spec_tokens(s: Seq<char>) -> Seq<Seq<char>>
    decreases s.len(),
    via spec_tokens_decreases
{
    if s.len() == 0 {
        Seq::empty()
    } else if is_ws(s[0]) {
        spec_tokens(s.drop_first())
    } else {
        Seq::empty().push(s.take(word_prefix_len(s) as int)) + spec_tokens(
            s.skip(word_prefix_len(s) as int),
        )
    }
}

#[via_fn]
proof fn spec_tokens_decreases(s: Seq<char>) {
    if s.len() > 0 && !is_ws(s[0]) {
        lemma_word_prefix_len_le_len(s);
        assert(word_prefix_len(s) >= 1);
    }
}

/// The views of a vector of tokens.
pub open spec fn tokens_view(v: Seq<String>) -> Seq<Seq<char>> {
    v.map_values(|t: String| t@)
}

/// The front run of `s` ends exactly where whitespace (or the end of the
/// text) first appears.
proof fn lemma_word_prefix_len_at(s: Seq<char>, k: int)
    requires
        0 <= k <= s.len(),
        forall|x: int| 0 <= x < k ==> !is_ws(#[trigger] s[x]),
        k == s.len() || is_ws(s[k]),
    ensures
        word_prefix_len(s) == k,
    decreases k,
{
    if k == 0 {
    } else {
        assert(!is_ws(s[0]));
        assert(forall|x: int| 0 <= x < k - 1 ==> !is_ws(#[trigger] s.drop_first()[x]));
        lemma_word_prefix_len_at(s.drop_first(), k - 1);
    }
}

/// Whether the character at position `i` of `text` is not whitespace.
fn nonspace_at(text: &str, i: usize) -> (r: bool)
    requires
        i < text@.len(),
    ensures
        r == !is_ws(text@[i as int]),
{
    let c = text.get_char(i);
    let u = c as u32;
    !(u == 0x20 || (0x09 <= u && u <= 0x0D) || u == 0x85 || u == 0xA0 || u == 0x1680 || (0x2000
        <= u && u <= 0x200A) || u == 0x2028 || u == 0x2029 || u == 0x202F || u == 0x205F || u
        == 0x3000)
}

/// Splits `text` into its maximal runs of non-whitespace characters.
pub fn tokenize(text: &str) -> (r: Vec<String>)
    ensures
        tokens_view(r@) == spec_tokens(text@),
{
    let n = text.unicode_len();
    let mut out: Vec<String> = Vec::new();
    let mut i: usize = 0;
    proof {
        assert(text@.skip(0) =~= text@);
        assert(tokens_view(out@) + spec_tokens(text@) =~= spec_tokens(text@));
    }
    while i < n
        invariant
            n == text@.len(),
            0 <= i <= n,
            tokens_view(out@) + spec_tokens(text@.skip(i as int)) == spec_tokens(text@),
        decreases n - i,
    {
        if !nonspace_at(text, i) {
            proof {
                assert(text@.skip(i as int)[0] == text@[i as int]);
                assert(text@.skip(i as int).drop_first() =~= text@.skip(i + 1));
            }
            i = i + 1;
        } else {
            let start = i;
            i = i + 1;
            while i < n && nonspace_at(text, i)
                invariant
                    n == text@.len(),
                    start < i <= n,
                    forall|x: int| start <= x < i ==> !is_ws(#[trigger] text@[x]),
                decreases n - i,
            {
                i = i + 1;
            }
            let tok = text.substring_char(start, i).to_owned();
            proof {
                let rest = text@.skip(start as int);
                assert(forall|x: int| 0 <= x < i - start ==> rest[x] == text@[x + start]);
                lemma_word_prefix_len_at(rest, i - start);
                assert(rest.take(i - start) =~= text@.subrange(start as int, i as int));
                assert(rest.skip(i - start) =~= text@.skip(i as int));
                assert(spec_tokens(rest) == Seq::empty().push(tok@) + spec_tokens(
                    text@.skip(i as int),
                ));
                assert(tokens_view(out@.push(tok)) =~= tokens_view(out@).push(tok@));
                assert(tokens_view(out@.push(tok)) + spec_tokens(text@.skip(i as int))
                    =~= tokens_view(out@) + spec_tokens(text@.skip(start as int)));
            }
            out.push(tok);
        }
    }
    proof {
        assert(text@.skip(n as int) =~= Seq::<char>::empty());
        assert(spec_tokens(text@.skip(n as int)) =~= Seq::<Seq<char>>::empty());
        assert(tokens_view(out@) + spec_tokens(text@.skip(n as int)) =~= tokens_view(out@));
    }
    out
}

} // verus!
