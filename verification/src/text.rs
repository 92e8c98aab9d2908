//! Surface features of a text: character count, whitespace count, word count
//! and average word length.
//!
//! A word is a maximal run of non-whitespace characters, so the characters
//! that belong to words are exactly the non-whitespace characters. The
//! average word length is carried as a fixed-point number in millionths
//! (micro units), saturated at `u64::MAX`; it is zero when there are no
//! words, so an empty or all-whitespace text never divides by zero.

use vstd::prelude::*;

verus! {

/// Scale of the fixed-point average word length: one unit is a millionth
/// of a character.
pub const AVG_SCALE: u64 = 1_000_000;

/// Whether `c` has the Unicode `White_Space` property, the set that words
/// are split on.
pub open spec fn is_ws(c: char) -> bool {
    ||| c as u32 == 0x20
    ||| (0x09 <= c as u32 && c as u32 <= 0x0D)
    ||| c as u32 == 0x85
    ||| c as u32 == 0xA0
    ||| c as u32 == 0x1680
    ||| (0x2000 <= c as u32 && c as u32 <= 0x200A)
    ||| c as u32 == 0x2028
    ||| c as u32 == 0x2029
    ||| c as u32 == 0x202F
    ||| c as u32 == 0x205F
    ||| c as u32 == 0x3000
}

/// How many characters of `s` are whitespace.
pub open spec fn count_ws(s: Seq<char>) -> nat
    decreases s.len(),
{
    if s.len() == 0 {
        0
    } else {
        count_ws(s.drop_last()) + if is_ws(s.last()) {
            1nat
        } else {
            0nat
        }
    }
}

/// Whether the last character of `s` starts a word: it is not whitespace
/// and what precedes it, if anything, is whitespace.
pub open spec fn word_starts_at_last(s: Seq<char>) -> bool {
    &&& s.len() > 0
    &&& !is_ws(s.last())
    &&& (s.len() == 1 || is_ws(s[s.len() - 2]))
}

/// How many words (maximal runs of non-whitespace characters) `s` holds.
pub open spec fn count_words(s: Seq<char>) -> nat
    decreases s.len(),
{
    if s.len() == 0 {
        0
    } else {
        count_words(s.drop_last()) + if word_starts_at_last(s) {
            1nat
        } else {
            0nat
        }
    }
}

/// How many characters of `s` belong to words: the non-whitespace ones.
pub open spec fn word_chars(s: Seq<char>) -> nat {
    (s.len() - count_ws(s)) as nat
}

/// The fixed-point average word length of a text with `t` word characters
/// and `w` words: `t / w` in micro units, saturated at `u64::MAX`, and zero
/// when there are no words.
pub open spec fn avg_word_len_micros(t: nat, w: nat) -> nat {
    if w == 0 {
        0
    } else if t * (AVG_SCALE as nat) / w > u64::MAX as nat {
        u64::MAX as nat
    } else {
        t * (AVG_SCALE as nat) / w
    }
}

/// The whitespace count of a sequence never exceeds its length.
pub proof fn lemma_count_ws_le_len(s: Seq<char>)
    ensures
        count_ws(s) <= s.len(),
    decreases s.len(),
{
    if s.len() > 0 {
        lemma_count_ws_le_len(s.drop_last());
    }
}

/// The word count of a sequence never exceeds its length.
pub proof fn lemma_count_words_le_len(s: Seq<char>)
    ensures
        count_words(s) <= s.len(),
    decreases s.len(),
{
    if s.len() > 0 {
        lemma_count_words_le_len(s.drop_last());
    }
}

/// A text whose characters are all whitespace holds no words, so its
/// average word length is zero and no division is ever attempted.
pub proof fn lemma_all_whitespace_no_words(s: Seq<char>)
    requires
        forall|i: int| 0 <= i < s.len() ==> is_ws(#[trigger] s[i]),
    ensures
        count_words(s) == 0,
        avg_word_len_micros(word_chars(s), count_words(s)) == 0,
    decreases s.len(),
{
    if s.len() > 0 {
        assert(forall|i: int|
            0 <= i < s.drop_last().len() ==> is_ws(#[trigger] s.drop_last()[i]));
        lemma_all_whitespace_no_words(s.drop_last());
    }
}

/// Whether `c` has the Unicode `White_Space` property; the same set that
/// `char::is_whitespace` documents.
fn is_space(c: char) -> (r: bool)
    ensures
        r == is_ws(c),
{
    let u = c as u32;
    u == 0x20 || (0x09 <= u && u <= 0x0D) || u == 0x85 || u == 0xA0 || u == 0x1680 || (0x2000 <= u
        && u <= 0x200A) || u == 0x2028 || u == 0x2029 || u == 0x202F || u == 0x205F || u == 0x3000
}

/// The features of a text that the linear models read: counts of
/// characters, words and whitespace, and the fixed-point average word
/// length in micro units (millionths of a character).
#[derive(Clone, Copy, Debug)]
pub struct BasicFeatures {
    /// Unicode scalar values in the text.
    pub char_count: usize,
    /// Maximal whitespace-delimited substrings.
    pub word_count: usize,
    /// Characters per word, in millionths; zero when there are no words.
    pub avg_word_length: u64,
    /// Characters with the Unicode `White_Space` property.
    pub space_count: usize,
}

impl BasicFeatures {
    /// Whether these are exactly the features of `s`.
    pub open spec fn is_features_of(self, s: Seq<char>) -> bool {
        &&& self.char_count == s.len()
        &&& self.word_count == count_words(s)
        &&& self.space_count == count_ws(s)
        &&& self.avg_word_length == avg_word_len_micros(word_chars(s), count_words(s))
    }

    /// Extracts the features of `text`: every string, including the empty
    /// one, yields a well-defined record.
    pub fn extract(text: &str) -> (r: BasicFeatures)
        ensures
            r.is_features_of(text@),
    {
        let n = text.unicode_len();
        let mut spaces: usize = 0;
        let mut words: usize = 0;
        let mut i: usize = 0;
        while i < n
            invariant
                n == text@.len(),
                0 <= i <= n,
                spaces == count_ws(text@.take(i as int)),
                words == count_words(text@.take(i as int)),
            decreases n - i,
        {
            let c = text.get_char(i);
            let prev_ws = if i == 0 {
                true
            } else {
                is_space(text.get_char(i - 1))
            };
            proof {
                assert(text@.take(i + 1).drop_last() =~= text@.take(i as int));
                assert(text@.take(i + 1).last() == text@[i as int]);
                lemma_count_ws_le_len(text@.take(i as int));
                lemma_count_words_le_len(text@.take(i as int));
            }
            if is_space(c) {
                spaces = spaces + 1;
            } else {
                if prev_ws {
                    proof {
                        if i > 0 {
                            assert(text@.take(i + 1)[i - 1] == text@[i - 1]);
                        }
                    }
                    words = words + 1;
                }
            }
            proof {
                if i > 0 {
                    assert(text@.take(i + 1)[i - 1] == text@[i - 1]);
                }
            }
            i = i + 1;
        }
        proof {
            assert(text@.take(n as int) =~= text@);
            lemma_count_ws_le_len(text@);
        }
        let word_char_count = n - spaces;
        let avg = average_micros(word_char_count, words);
        BasicFeatures { char_count: n, word_count: words, avg_word_length: avg, space_count: spaces }
    }
}

/// `t / w` in micro units, saturated at `u64::MAX`; zero when `w` is zero.
fn average_micros(t: usize, w: usize) -> (r: u64)
    ensures
        r == avg_word_len_micros(t as nat, w as nat),
{
    if w == 0 {
        0
    } else {
        proof {
            crate::scaled::lemma_mul_bound(
                t as int,
                AVG_SCALE as int,
                u64::MAX as int,
                AVG_SCALE as int,
            );
        }
        let num = (t as u128) * (AVG_SCALE as u128);
        let q = num / (w as u128);
        if q > u64::MAX as u128 {
            u64::MAX
        } else {
            q as u64
        }
    }
}

} // verus!
