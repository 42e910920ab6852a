//! The capitalization transform: when the host reports that a lone `"!"`
//! was typed, the word standing before it is uppercased.
//!
//! The trigger is frozen to an exact single-character insertion: a paste
//! that merely contains a `"!"`, a deletion or a replacement never fires it.
//! The targeted span runs from the last word start before the insertion's
//! end to the end itself, so it takes in the inserted `"!"`; uppercasing
//! leaves the `"!"` as it is, which makes the lone-bang line a no-op.
//! All positions are in Unicode scalar values.

use vstd::prelude::*;

verus! {

/// One replaced region of a mutation: the interval `[start, end)` of the
/// old document is removed and `inserted` takes its place. A pure insertion
/// has `start == end`.
pub struct DeltaRegion {
    pub start: usize,
    pub end: usize,
    pub inserted: String,
}

/// One atomic mutation as the host reports it: the replaced regions, and
/// the resolved end offset — the document position immediately after the
/// inserted text.
pub struct EditDelta {
    pub regions: Vec<DeltaRegion>,
    pub end_offset: usize,
}

/// A simple insertion: exactly one contiguous span of text inserted, with
/// nothing deleted.
pub open spec fn is_simple_insert(d: EditDelta) -> bool {
    &&& d.regions@.len() == 1
    &&& d.regions@[0].start == d.regions@[0].end
    &&& d.regions@[0].inserted@.len() > 0
}

/// The transform's trigger: a simple insertion whose inserted text is
/// exactly the single character `'!'`.
pub open spec fn is_bang_insert(d: EditDelta) -> bool {
    is_simple_insert(d) && d.regions@[0].inserted@ == seq!['!']
}

/// Decides whether `d` fires the transform: true exactly on a
/// single-character `"!"` insertion.
pub fn triggers_transform(d: &EditDelta) -> (r: bool)
    ensures
        r == is_bang_insert(*d),
{
    if d.regions.len() != 1 {
        return false;
    }
    let reg = &d.regions[0];
    if reg.start != reg.end {
        return false;
    }
    let ins = reg.inserted.as_str();
    if ins.unicode_len() != 1 {
        return false;
    }
    let c = ins.get_char(0);
    proof {
        if c == '!' {
            assert(ins@ =~= seq!['!']);
        }
    }
    c == '!'
}

/// Whether `char::is_whitespace` holds of `c`: the Unicode `White_Space`
/// property. The table is not restated here; `char_is_whitespace` below
/// ties the name to the one library call that computes it.
pub uninterp spec fn unicode_whitespace(c: char) -> bool;

/// Relies on char::is_whitespace: a pure classification, a function of the
/// character alone.
#[verifier::external_body]
fn char_is_whitespace(c: char) -> (r: bool)
    ensures
        r == unicode_whitespace(c),
{
    c.is_whitespace()
}

/// The word start the transform targets: the position immediately after
/// the last whitespace character strictly before `end`, or the line start
/// when no whitespace precedes it. `end` and the result are char positions
/// within the line.
pub open spec fn word_start_before(line: Seq<char>, end: int) -> int
    decreases end,
{
    if end <= 0 {
        0
    } else if unicode_whitespace(line[end - 1]) {
        end
    } else {
        word_start_before(line, end - 1)
    }
}

/// Scans the line from its start, as the host walks offsets: each
/// whitespace seen before `end` moves the candidate word start to just
/// after it.
fn find_word_start(line: &str, end: usize) -> (ws: usize)
    requires
        end <= line@.len(),
    ensures
        ws == word_start_before(line@, end as int),
        ws <= end,
{
    let mut i: usize = 0;
    let mut ws: usize = 0;
    while i < end
        invariant
            i <= end,
            end <= line@.len(),
            ws == word_start_before(line@, i as int),
            ws <= i,
        decreases end - i,
    {
        let c = line.get_char(i);
        if char_is_whitespace(c) {
            ws = i + 1;
        }
        i = i + 1;
    }
    ws
}

/// What `str::to_uppercase` returns for a text: the Unicode uppercase
/// mapping, locale-independent, a function of the characters alone.
pub uninterp spec fn upper_of(s: Seq<char>) -> Seq<char>;

/// Relies on str::to_uppercase: Unicode uppercasing, depending on the
/// characters alone; the empty text stays empty.
#[verifier::external_body]
fn to_upper(s: &str) -> (r: String)
    ensures
        r@ == upper_of(s@),
        s@.len() == 0 ==> r@.len() == 0,
{
    s.to_uppercase()
}

/// The corrective edit the transform submits: replace `[start, end)` of the
/// document with `text`, tagged with the host's opaque priority and author,
/// which pass through the transform unchanged.
pub struct Edit {
    pub start: usize,
    pub end: usize,
    pub text: String,
    pub priority: u64,
    pub author: String,
}

/// Computes the corrective edit for a bang insertion whose end lies in the
/// given line. `line` is the line's text without its terminator, fetched
/// after the insertion was applied; `line_start` is the line's document
/// position and `end_offset` the insertion's resolved end. The replaced
/// span runs from the last word start before the end to the end itself,
/// and the replacement is that span's text uppercased.
pub fn capitalize_edit(line: &str, line_start: usize, end_offset: usize, priority: u64, author: &str) -> (e: Edit)
    requires
        line_start <= end_offset,
        end_offset - line_start <= line@.len(),
    ensures
        e.start == line_start + word_start_before(line@, end_offset - line_start),
        e.start <= e.end,
        e.end == end_offset,
        e.text@ == upper_of(line@.subrange(
            word_start_before(line@, end_offset - line_start),
            end_offset - line_start,
        )),
        e.priority == priority,
        e.author@ == author@,
{
    let rel_end: usize = end_offset - line_start;
    let ws = find_word_start(line, rel_end);
    let span = line.substring_char(ws, rel_end);
    let text = to_upper(span);
    Edit {
        start: line_start + ws,
        end: end_offset,
        text,
        priority,
        author: String::from_str(author),
    }
}

} // verus!
