//! The statistics engine: a per-view session that recomputes the full
//! {words, lines, characters} snapshot on every notification and decides
//! whether the host's status entries must be created or updated in place.
//!
//! Sizes and counts are in Unicode scalar values. A document's line count is
//! the number of newline separators plus one: the trailing unterminated line
//! counts, so the empty document has one line.

use vstd::prelude::*;

use crate::tokenizer::count_words;
use crate::tokenizer::is_word_char;
use crate::tokenizer::lemma_word_count_concat;
use crate::tokenizer::lemma_word_count_le_len;
use crate::tokenizer::lemma_word_count_push_sep;
use crate::tokenizer::word_count;

verus! {

/// The number of newline separators in `s`.
pub open spec fn newline_count(s: Seq<char>) -> nat
    decreases s.len(),
{
    if s.len() == 0 {
        0
    } else {
        newline_count(s.drop_last()) + (if s.last() == '\n' {
            1nat
        } else {
            0nat
        })
    }
}

/// The number of physical lines of `s`: every separator opens a further
/// line, and the trailing unterminated line counts too.
pub open spec fn line_count(s: Seq<char>) -> nat {
    newline_count(s) + 1
}

proof fn lemma_newline_count_take_step(s: Seq<char>, i: int)
    requires
        0 <= i < s.len(),
    ensures
        newline_count(s.take(i + 1)) == newline_count(s.take(i)) + (if s[i] == '\n' {
            1nat
        } else {
            0nat
        }),
{
    let t = s.take(i + 1);
    assert(t.drop_last() =~= s.take(i));
    assert(t.last() == s[i]);
}

/// A text without a newline holds no separator.
proof fn lemma_newline_count_zero(s: Seq<char>)
    requires
        forall|j: int| 0 <= j < s.len() ==> s[j] != '\n',
    ensures
        newline_count(s) == 0,
    decreases s.len(),
{
    if s.len() > 0 {
        lemma_newline_count_zero(s.drop_last());
    }
}

/// Newline separators add up over concatenation.
proof fn lemma_newline_count_concat(a: Seq<char>, b: Seq<char>)
    ensures
        newline_count(a + b) == newline_count(a) + newline_count(b),
    decreases b.len(),
{
    if b.len() == 0 {
        assert(a + b =~= a);
    } else {
        lemma_newline_count_concat(a, b.drop_last());
        assert((a + b).drop_last() =~= a + b.drop_last());
        assert((a + b).last() == b.last());
    }
}

/// Counts the physical lines of `text`.
pub fn count_lines(text: &str) -> (n: usize)
    requires
        text@.len() < usize::MAX,
    ensures
        n == line_count(text@),
{
    let len = text.unicode_len();
    let mut seps: usize = 0;
    let mut i: usize = 0;
    while i < len
        invariant
            i <= len,
            len == text@.len(),
            seps == newline_count(text@.take(i as int)),
            seps <= i,
        decreases len - i,
    {
        let c = text.get_char(i);
        proof {
            lemma_newline_count_take_step(text@, i as int);
        }
        if c == '\n' {
            seps = seps + 1;
        }
        i = i + 1;
    }
    proof {
        assert(text@.take(len as int) =~= text@);
    }
    seps + 1
}

/// Measures `text` in the fixed unit: Unicode scalar values.
pub fn count_characters(text: &str) -> (n: usize)
    ensures
        n == text@.len(),
{
    text.unicode_len()
}

/// One published snapshot of a document's statistics.
#[derive(Clone, Copy, PartialEq, Eq, Structural, Debug)]
pub struct WordCountState {
    pub words: usize,
    pub lines: usize,
    pub chars: usize,
}

/// How a refresh reaches the host's status entries: by creating the three
/// entries, on the first refresh of a view, or by updating them in place.
#[derive(Clone, Copy, PartialEq, Eq, Structural, Debug)]
pub enum StatusMode {
    Create,
    Update,
}

/// The status-entry decision for a session whose entries exist iff
/// `created`.
pub open spec fn mode_for(created: bool) -> StatusMode {
    if created {
        StatusMode::Update
    } else {
        StatusMode::Create
    }
}

/// A failed host query, seen while a refresh gathers its inputs. None of
/// these is ever raised to the host: the running refresh is abandoned and
/// the next notification brings the authoritative state.
#[derive(Clone, Copy, PartialEq, Eq, Structural, Debug)]
pub enum HostError {
    OffsetOutOfRange,
    LineOutOfRange,
    IoFailure,
}

/// One view's statistics session: the last published snapshot, and whether
/// the status entries for the view exist yet.
pub struct Session {
    pub state: WordCountState,
    pub status_created: bool,
}

impl Session {
    /// A fresh session for a newly opened view: nothing published yet.
    pub fn new() -> (s: Session)
        ensures
            !s.status_created,
            s.state == (WordCountState { words: 0, lines: 0, chars: 0 }),
    {
        Session { state: WordCountState { words: 0, lines: 0, chars: 0 }, status_created: false }
    }

    /// Publishes a snapshot computed elsewhere and reports how the status
    /// entries must be reached: created exactly once, updated ever after.
    pub fn publish(&mut self, st: WordCountState) -> (m: StatusMode)
        ensures
            final(self).state == st,
            final(self).status_created,
            m == mode_for(old(self).status_created),
    {
        self.state = st;
        let m = if self.status_created {
            StatusMode::Update
        } else {
            StatusMode::Create
        };
        self.status_created = true;
        m
    }

    /// Recomputes the whole snapshot from the document text and publishes
    /// it. Nothing is carried over from the previous snapshot: the new state
    /// matches the text exactly.
    pub fn refresh(&mut self, text: &str) -> (m: StatusMode)
        requires
            text@.len() < usize::MAX,
        ensures
            final(self).state.words == word_count(text@),
            final(self).state.lines == line_count(text@),
            final(self).state.chars == text@.len(),
            final(self).status_created,
            m == mode_for(old(self).status_created),
    {
        proof {
            lemma_word_count_le_len(text@);
        }
        let words = count_words(text);
        let lines = count_lines(text);
        let chars = count_characters(text);
        self.publish(WordCountState { words, lines, chars })
    }

    /// Abandons a refresh after a failed query: nothing is published, and
    /// the previously published snapshot and status entries stand exactly
    /// as they were — stale but consistent, never partially updated.
    pub fn abort_refresh(&mut self, _failure: HostError)
        ensures
            *final(self) == *old(self),
    {
    }
}

/// Builds one snapshot from physical lines fetched one at a time through
/// the host's buffer interface, so the whole document never has to be
/// materialized at once.
pub struct StatsAccumulator {
    words: usize,
    chars: usize,
    fed: usize,
    seen: Ghost<Seq<char>>,
}

impl StatsAccumulator {
    /// The document text assembled so far: the fed lines joined with
    /// newline separators.
    pub closed spec fn text(self) -> Seq<char> {
        self.seen@
    }

    /// The number of lines fed so far.
    pub closed spec fn lines_fed(self) -> nat {
        self.fed as nat
    }

    /// The counters match the assembled text.
    pub closed spec fn wf(self) -> bool {
        &&& self.words == word_count(self.seen@)
        &&& self.chars == self.seen@.len()
        &&& self.words <= self.chars
        &&& self.fed <= self.chars + 1
        &&& (self.fed == 0 ==> self.seen@ == Seq::<char>::empty())
        &&& (self.fed > 0 ==> newline_count(self.seen@) == self.fed - 1)
    }

    /// An empty accumulator: no line seen yet.
    pub fn new() -> (a: StatsAccumulator)
        ensures
            a.wf(),
            a.lines_fed() == 0,
            a.text() == Seq::<char>::empty(),
    {
        StatsAccumulator { words: 0, chars: 0, fed: 0, seen: Ghost(Seq::empty()) }
    }

    /// The characters accumulated so far; the host consults it before
    /// feeding a further line, to keep the totals within machine range.
    pub fn chars_so_far(&self) -> (n: usize)
        requires
            self.wf(),
        ensures
            n == self.text().len(),
    {
        self.chars
    }

    /// Takes in the next physical line, given without its terminator.
    pub fn feed_line(&mut self, line: &str)
        requires
            old(self).wf(),
            forall|j: int| 0 <= j < line@.len() ==> line@[j] != '\n',
            old(self).text().len() + 1 + line@.len() < usize::MAX,
        ensures
            final(self).wf(),
            final(self).lines_fed() == old(self).lines_fed() + 1,
            final(self).text() == (if old(self).lines_fed() == 0 {
                line@
            } else {
                old(self).text() + seq!['\n'] + line@
            }),
    {
        let lw: usize = count_words(line);
        let ll: usize = line.unicode_len();
        proof {
            lemma_word_count_le_len(line@);
            lemma_newline_count_zero(line@);
        }
        if self.fed == 0 {
            self.words = lw;
            self.chars = ll;
            self.fed = 1;
            self.seen = Ghost(line@);
        } else {
            proof {
                let a = self.seen@;
                let asep = a.push('\n');
                assert(!is_word_char('\n'));
                lemma_word_count_push_sep(a, '\n');
                lemma_word_count_concat(asep, line@);
                lemma_newline_count_concat(asep, line@);
                assert(asep.drop_last() =~= a);
                assert(asep + line@ =~= a + seq!['\n'] + line@);
            }
            self.words = self.words + lw;
            self.chars = self.chars + 1 + ll;
            self.fed = self.fed + 1;
            self.seen = Ghost(self.seen@ + seq!['\n'] + line@);
        }
    }

    /// The finished snapshot. With no line fed the document is empty, and
    /// the empty document still has its one unterminated line.
    pub fn finish(&self) -> (st: WordCountState)
        requires
            self.wf(),
        ensures
            st.words == word_count(self.text()),
            st.lines == line_count(self.text()),
            st.chars == self.text().len(),
    {
        let lines: usize = if self.fed == 0 {
            1
        } else {
            self.fed
        };
        WordCountState { words: self.words, lines, chars: self.chars }
    }
}

/// Status entries are upserted by key, never duplicated: whatever two
/// consecutive refreshes on one session do, the first leaves the session
/// marked as created (`s1.status_created`), and a refresh on a created
/// session resolves to `Update` — so the second refresh never creates the
/// entries again.
pub proof fn lemma_status_upsert(s1: Session, m2: StatusMode)
    requires
        s1.status_created,
        m2 == mode_for(s1.status_created),
    ensures
        m2 == StatusMode::Update,
{
}

} // verus!
