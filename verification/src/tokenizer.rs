//! Word tokenization: counting maximal runs of word characters.
//!
//! A word character is a letter, a digit or an underscore; the policy is
//! frozen here so that every consumer of the counts agrees on it. A newline
//! is never a word character, which is what makes per-line counts add up to
//! the count of the whole document (`lemma_line_disjoint`).

use vstd::prelude::*;

verus! {

/// Whether `char::is_alphanumeric` holds of `c`: a Unicode letter or a
/// character of a numeric general category. The full classification table is
/// not restated here; `char_is_alphanumeric` below ties the name to the one
/// library call that computes it.
pub uninterp spec fn unicode_alphanumeric(c: char) -> bool;

/// Relies on char::is_alphanumeric: a pure classification, a function of the
/// character alone.
#[verifier::external_body]
fn char_is_alphanumeric(c: char) -> (r: bool)
    ensures
        r == unicode_alphanumeric(c),
{
    c.is_alphanumeric()
}

/// A word character under the frozen tokenization policy: a letter, a digit
/// or an underscore. The newline exclusion is written out even though a
/// newline is not alphanumeric anyway, so that line-local tokenization
/// provably composes.
pub open spec fn is_word_char(c: char) -> bool {
    c == '_' || (c != '\n' && unicode_alphanumeric(c))
}

fn word_char(c: char) -> (r: bool)
    ensures
        r == is_word_char(c),
{
    c == '_' || (c != '\n' && char_is_alphanumeric(c))
}

/// A word starts at position `i` of `s` when a word character stands there
/// with no word character immediately before it.
pub open spec fn word_start_at(s: Seq<char>, i: int) -> bool {
    is_word_char(s[i]) && (i == 0 || !is_word_char(s[i - 1]))
}

/// The number of words in `s`: the number of maximal, non-overlapping runs
/// of word characters, counted by their start positions.
pub open spec fn word_count(s: Seq<char>) -> nat
    decreases s.len(),
{
    if s.len() == 0 {
        0
    } else {
        word_count(s.drop_last()) + (if word_start_at(s, s.len() - 1) {
            1nat
        } else {
            0nat
        })
    }
}

/// There are never more words than characters.
pub proof fn lemma_word_count_le_len(s: Seq<char>)
    ensures
        word_count(s) <= s.len(),
    decreases s.len(),
{
    if s.len() > 0 {
        lemma_word_count_le_len(s.drop_last());
    }
}

/// Counting one more character from `s` adds a word exactly when a word
/// starts there.
proof fn lemma_word_count_take_step(s: Seq<char>, i: int)
    requires
        0 <= i < s.len(),
    ensures
        word_count(s.take(i + 1)) == word_count(s.take(i)) + (if word_start_at(s, i) {
            1nat
        } else {
            0nat
        }),
{
    let t = s.take(i + 1);
    assert(t.drop_last() =~= s.take(i));
    assert(t[i] == s[i]);
    if i > 0 {
        assert(t[i - 1] == s[i - 1]);
    }
}

/// Appending text to a text that does not end inside a word changes the
/// word count by exactly the words of the appended part.
pub proof fn lemma_word_count_concat(a: Seq<char>, b: Seq<char>)
    requires
        a.len() > 0 ==> !is_word_char(a.last()),
    ensures
        word_count(a + b) == word_count(a) + word_count(b),
    decreases b.len(),
{
    if b.len() == 0 {
        assert(a + b =~= a);
    } else {
        lemma_word_count_concat(a, b.drop_last());
        let ab = a + b;
        let n = ab.len() - 1;
        assert(ab.drop_last() =~= a + b.drop_last());
        assert(ab[n] == b[b.len() - 1]);
        if b.len() >= 2 {
            assert(ab[n - 1] == b[b.len() - 2]);
            assert(word_start_at(ab, n) == word_start_at(b, b.len() - 1));
        } else {
            if a.len() > 0 {
                assert(ab[n - 1] == a.last());
            }
            assert(word_start_at(ab, n) == word_start_at(b, b.len() - 1));
        }
    }
}

/// A separator that is not a word character adds no word.
pub proof fn lemma_word_count_push_sep(a: Seq<char>, c: char)
    requires
        !is_word_char(c),
    ensures
        word_count(a.push(c)) == word_count(a),
{
    assert(a.push(c).drop_last() =~= a);
    assert(a.push(c).last() == c);
}

/// The words of `s` from `start` on are the words of `[start, i)` of the
/// current line plus the words of the lines after it, walking `i` to the
/// right and closing a line at each newline. `line_word_sum` below starts
/// this walk at the beginning of the text.
pub open spec fn line_word_sum_from(s: Seq<char>, start: int, i: int) -> nat
    decreases s.len() - i,
{
    if i < 0 || i >= s.len() {
        word_count(s.subrange(start, s.len() as int))
    } else if s[i] == '\n' {
        word_count(s.subrange(start, i)) + line_word_sum_from(s, i + 1, i + 1)
    } else {
        line_word_sum_from(s, start, i + 1)
    }
}

/// The word counts of the physical lines of `s` (separated by `'\n'`,
/// counting the trailing unterminated line), summed line by line.
pub open spec fn line_word_sum(s: Seq<char>) -> nat {
    line_word_sum_from(s, 0, 0)
}

/// Cutting a text at a newline splits its word count cleanly: the newline
/// itself belongs to no word.
proof fn lemma_word_count_split_at_newline(s: Seq<char>, start: int, i: int)
    requires
        0 <= start <= i < s.len(),
        s[i] == '\n',
    ensures
        word_count(s.subrange(start, s.len() as int)) == word_count(s.subrange(start, i))
            + word_count(s.subrange(i + 1, s.len() as int)),
{
    let a = s.subrange(start, i);
    let b = s.subrange(i + 1, s.len() as int);
    let asep = a.push('\n');
    lemma_word_count_push_sep(a, '\n');
    lemma_word_count_concat(asep, b);
    assert(asep + b =~= s.subrange(start, s.len() as int));
}

proof fn lemma_line_word_sum_from(s: Seq<char>, start: int, i: int)
    requires
        0 <= start <= i <= s.len(),
    ensures
        line_word_sum_from(s, start, i) == word_count(s.subrange(start, s.len() as int)),
    decreases s.len() - i,
{
    if i >= s.len() {
    } else if s[i] == '\n' {
        lemma_line_word_sum_from(s, i + 1, i + 1);
        lemma_word_count_split_at_newline(s, start, i);
    } else {
        lemma_line_word_sum_from(s, start, i + 1);
    }
}

/// Line-disjointness of tokenization: summing the word counts of the
/// physical lines of a text gives exactly the word count of the whole text.
pub proof fn lemma_line_disjoint(s: Seq<char>)
    ensures
        line_word_sum(s) == word_count(s),
{
    lemma_line_word_sum_from(s, 0, 0);
    assert(s.subrange(0, s.len() as int) =~= s);
}

/// Counts the words of `text`: the maximal runs of word characters.
pub fn count_words(text: &str) -> (n: usize)
    ensures
        n == word_count(text@),
{
    let len = text.unicode_len();
    let mut n: usize = 0;
    let mut i: usize = 0;
    let mut prev_word = false;
    while i < len
        invariant
            i <= len,
            len == text@.len(),
            n == word_count(text@.take(i as int)),
            n <= i,
            prev_word == (i > 0 && is_word_char(text@[i as int - 1])),
        decreases len - i,
    {
        let c = text.get_char(i);
        let w = word_char(c);
        proof {
            lemma_word_count_take_step(text@, i as int);
        }
        if w && !prev_word {
            n = n + 1;
        }
        prev_word = w;
        i = i + 1;
    }
    proof {
        assert(text@.take(len as int) =~= text@);
    }
    n
}

} // verus!
