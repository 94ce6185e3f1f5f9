//! Line diffs between the reviewed state and the current content of a file,
//! grouped into hunks, and the application of one hunk to the reviewed state.
use vstd::prelude::*;
use crate::text::{chars_of, push_chars, string_from_chars};

verus! {

broadcast use vstd::seq::Seq::group_seq_flatten;

/// Lines of unchanged context kept around each change when grouping a diff.
pub const HUNK_CONTEXT_LINES: usize = 3;

/// One line of a hunk: kept, removed from the reviewed state, or added by the
/// current content. The text keeps its line terminator.
#[derive(Debug, Clone, PartialEq, Eq)]
pub enum DiffLine {
    Equal(String),
    Delete(String),
    Insert(String),
}

/// The mathematical value of a [`DiffLine`].
pub enum LineChange {
    Equal(Seq<char>),
    Delete(Seq<char>),
    Insert(Seq<char>),
}

impl View for DiffLine {
    type V = LineChange;

    open spec fn view(&self) -> LineChange {
        match self {
            DiffLine::Equal(t) => LineChange::Equal(t@),
            DiffLine::Delete(t) => LineChange::Delete(t@),
            DiffLine::Insert(t) => LineChange::Insert(t@),
        }
    }
}

/// A group of changed lines with their surrounding context, and the line of
/// the old text (counted from zero) where its unchanged and removed lines
/// begin.
#[derive(Debug, Clone, PartialEq, Eq)]
pub struct Hunk {
    pub old_start: usize,
    pub lines: Vec<DiffLine>,
}

/// The values of a sequence of diff lines.
pub open spec fn changes_view(lines: Seq<DiffLine>) -> Seq<LineChange> {
    lines.map_values(|l: DiffLine| l@)
}

/// The mathematical value of a [`Hunk`].
pub struct HunkView {
    pub old_start: nat,
    pub changes: Seq<LineChange>,
}

impl View for Hunk {
    type V = HunkView;

    open spec fn view(&self) -> HunkView {
        HunkView { old_start: self.old_start as nat, changes: changes_view(self.lines@) }
    }
}

/// The values of a sequence of hunks.
pub open spec fn hunks_view(hunks: Seq<Hunk>) -> Seq<HunkView> {
    hunks.map_values(|h: Hunk| h@)
}

// ---------------------------------------------------------------------------
// Lines of a text
// ---------------------------------------------------------------------------

/// The length of the first line of `s`, its terminating `'\n'` included.
pub open spec fn first_line_len(s: Seq<char>) -> nat
    decreases s.len(),
{
    if s.len() == 0 {
        0
    } else if s[0] == '\n' {
        1
    } else {
        1 + first_line_len(s.drop_first())
    }
}

/// A nonempty text has a nonempty first line that fits in it.
pub proof fn lemma_first_line_len_bounds(s: Seq<char>)
    ensures
        s.len() > 0 ==> 1 <= first_line_len(s) <= s.len(),
        s.len() == 0 ==> first_line_len(s) == 0,
    decreases s.len(),
{
    if s.len() > 0 && s[0] != '\n' {
        lemma_first_line_len_bounds(s.drop_first());
    }
}

/// The lines of `s`, each ending with its `'\n'` but possibly the last, as
/// `str::split_inclusive('\n')` yields them; no lines for empty text.
pub open spec fn text_lines(s: Seq<char>) -> Seq<Seq<char>>
    decreases s.len(),
{
    if s.len() == 0 {
        seq![]
    } else {
        let n = first_line_len(s) as int;
        proof {
            lemma_first_line_len_bounds(s);
        }
        seq![s.take(n)] + text_lines(s.skip(n))
    }
}

/// The first line ends after the first `'\n'`, or at the end of the text.
proof fn lemma_first_line_len_is(s: Seq<char>, m: int)
    requires
        0 <= m <= s.len(),
        forall|j: int| 0 <= j < m ==> s[j] != '\n',
        m == s.len() || s[m] == '\n',
    ensures
        first_line_len(s) == if m == s.len() { m } else { m + 1 },
    decreases m,
{
    if m > 0 {
        lemma_first_line_len_is(s.drop_first(), m - 1);
    }
}

/// Joining the lines of a text gives the text back.
pub proof fn lemma_text_lines_flatten(s: Seq<char>)
    ensures
        text_lines(s).flatten() == s,
    decreases s.len(),
{
    if s.len() > 0 {
        let n = first_line_len(s) as int;
        lemma_first_line_len_bounds(s);
        lemma_text_lines_flatten(s.skip(n));
        vstd::seq_lib::lemma_flatten_concat(seq![s.take(n)], text_lines(s.skip(n)));
        assert(s.take(n) + s.skip(n) =~= s);
    }
}

/// The values of a sequence of character vectors.
pub open spec fn lines_view(lines: Seq<Vec<char>>) -> Seq<Seq<char>> {
    lines.map_values(|l: Vec<char>| l@)
}

/// Splits a text into its lines.
fn split_lines(text: &Vec<char>) -> (lines: Vec<Vec<char>>)
    ensures
        lines_view(lines@) == text_lines(text@),
{
    let mut lines: Vec<Vec<char>> = Vec::new();
    let mut cur: Vec<char> = Vec::new();
    let mut start: usize = 0;
    let mut i: usize = 0;
    let n = text.len();
    assert(text@.skip(0) =~= text@);
    assert(lines_view(lines@) =~= Seq::<Seq<char>>::empty());
    while i < n
        invariant
            n == text@.len(),
            start <= i <= n,
            cur@ == text@.subrange(start as int, i as int),
            forall|j: int| start <= j < i ==> text@[j] != '\n',
            lines_view(lines@) + text_lines(text@.skip(start as int)) == text_lines(text@),
        decreases n - i,
    {
        let c = text[i];
        cur.push(c);
        i += 1;
        if c == '\n' {
            proof {
                let s = text@.skip(start as int);
                lemma_first_line_len_is(s, i - 1 - start);
                assert(s.take(i - start) =~= cur@);
                assert(s.skip(i - start) =~= text@.skip(i as int));
                assert(lines_view(lines@.push(cur)) =~= lines_view(lines@).push(cur@));
                assert(lines_view(lines@).push(cur@) + text_lines(text@.skip(i as int))
                    =~= lines_view(lines@) + text_lines(s));
            }
            lines.push(cur);
            cur = Vec::new();
            start = i;
        }
    }
    if cur.len() > 0 {
        proof {
            let s = text@.skip(start as int);
            lemma_first_line_len_is(s, n - start);
            assert(s.take(n - start) =~= cur@);
            assert(s.skip(n - start).len() == 0);
            assert(text_lines(s.skip(n - start)) =~= Seq::<Seq<char>>::empty());
            assert(text_lines(s) == seq![s.take(n - start)] + text_lines(s.skip(n - start)));
            assert(lines_view(lines@.push(cur)) =~= lines_view(lines@).push(cur@));
            assert(lines_view(lines@).push(cur@) =~= lines_view(lines@) + text_lines(s));
        }
        lines.push(cur);
    } else {
        assert(text@.skip(start as int).len() == 0);
        assert(lines_view(lines@) =~= lines_view(lines@) + text_lines(text@.skip(start as int)));
    }
    lines
}

// ---------------------------------------------------------------------------
// Hunks between two texts
// ---------------------------------------------------------------------------

/// The groups of changes that `similar` reports for a line diff of `old`
/// against `new`, each change with up to `context` unchanged lines around it,
/// each group with the old-text line where its first operation begins.
pub uninterp spec fn line_diff_groups(old: Seq<char>, new: Seq<char>, context: nat) -> Seq<HunkView>;

/// Calls `similar::TextDiff::from_lines`, `TextDiff::grouped_ops`,
/// `DiffOp::old_range` on each group's first operation (`grouped_ops` yields
/// no empty group) and `TextDiff::iter_changes`, turning each change into a
/// [`DiffLine`] of the same kind whose text is the change's `Display` form.
/// The contract only names the result: the grouped line diff that `similar`
/// computes for these two texts and this amount of context, which depends on
/// them alone.
#[verifier::external_body]
fn grouped_line_changes(reviewed: &str, current: &str, context: usize) -> (groups: Vec<Hunk>)
    ensures
        hunks_view(groups@) == line_diff_groups(reviewed@, current@, context as nat),
{
    let diff = similar::TextDiff::from_lines(reviewed, current);
    let mut groups = Vec::new();
    for group in diff.grouped_ops(context) {
        let mut lines = Vec::new();
        for change in group.iter().flat_map(|op| diff.iter_changes(op)) {
            lines.push(match change.tag() {
                similar::ChangeTag::Equal => DiffLine::Equal(change.to_string()),
                similar::ChangeTag::Delete => DiffLine::Delete(change.to_string()),
                similar::ChangeTag::Insert => DiffLine::Insert(change.to_string()),
            });
        }
        groups.push(Hunk { old_start: group[0].old_range().start, lines });
    }
    groups
}

/// Whether a group holds a removed or an added line.
pub open spec fn has_change(group: Seq<LineChange>) -> bool {
    exists|i: int| 0 <= i < group.len() && !(group[i] is Equal)
}

/// The hunks from the reviewed text to the current one: the groups of the
/// line diff, with three lines of context, that change something, in order.
pub open spec fn review_hunks(reviewed: Seq<char>, current: Seq<char>) -> Seq<HunkView> {
    line_diff_groups(reviewed, current, HUNK_CONTEXT_LINES as nat).filter(
        |h: HunkView| has_change(h.changes),
    )
}

fn group_has_change(lines: &Vec<DiffLine>) -> (changed: bool)
    ensures
        changed == has_change(changes_view(lines@)),
{
    let n = lines.len();
    let mut i: usize = 0;
    while i < n
        invariant
            n == lines@.len(),
            i <= n,
            forall|j: int| 0 <= j < i ==> changes_view(lines@)[j] is Equal,
        decreases n - i,
    {
        match &lines[i] {
            DiffLine::Equal(_) => {},
            _ => {
                assert(!(changes_view(lines@)[i as int] is Equal));
                return true;
            },
        }
        i += 1;
    }
    false
}

/// The hunks that turn `reviewed` into `current`.
pub fn hunks(reviewed: &str, current: &str) -> (result: Vec<Hunk>)
    ensures
        hunks_view(result@) == review_hunks(reviewed@, current@),
{
    let groups = grouped_line_changes(reviewed, current, HUNK_CONTEXT_LINES);
    let ghost gv = hunks_view(groups@);
    let ghost pred = |h: HunkView| has_change(h.changes);
    let mut result: Vec<Hunk> = Vec::new();
    for group in it: groups.into_iter()
        invariant
            it.seq() == groups@,
            gv == hunks_view(it.seq()),
            pred == (|h: HunkView| has_change(h.changes)),
            hunks_view(result@) == gv.take(it.index() as int).filter(pred),
    {
        let ghost k = it.index() as int;
        proof {
            reveal(Seq::filter);
            assert(gv.take(k + 1).drop_last() =~= gv.take(k));
            assert(gv.take(k + 1).last() == group@);
        }
        if group_has_change(&group.lines) {
            let ghost before = result@;
            result.push(group);
            assert(hunks_view(result@) =~= hunks_view(before).push(group@));
        }
    }
    assert(gv.take(gv.len() as int) =~= gv);
    result
}

// ---------------------------------------------------------------------------
// Applying a hunk
// ---------------------------------------------------------------------------

/// The lines a hunk expects in the reviewed text: its unchanged and removed
/// lines, in order.
pub open spec fn old_side(changes: Seq<LineChange>) -> Seq<Seq<char>>
    decreases changes.len(),
{
    if changes.len() == 0 {
        seq![]
    } else {
        let rest = old_side(changes.drop_last());
        match changes.last() {
            LineChange::Equal(t) => rest.push(t),
            LineChange::Delete(t) => rest.push(t),
            LineChange::Insert(_) => rest,
        }
    }
}

/// The lines a hunk puts in their place: its unchanged and added lines, in
/// order.
pub open spec fn new_side(changes: Seq<LineChange>) -> Seq<Seq<char>>
    decreases changes.len(),
{
    if changes.len() == 0 {
        seq![]
    } else {
        let rest = new_side(changes.drop_last());
        match changes.last() {
            LineChange::Equal(t) => rest.push(t),
            LineChange::Delete(_) => rest,
            LineChange::Insert(t) => rest.push(t),
        }
    }
}

/// Where the hunk's old side begins among `line_count` lines: its start, or
/// the end of the text when the start lies past it.
pub open spec fn hunk_begin(hunk: HunkView, line_count: nat) -> int {
    if hunk.old_start <= line_count {
        hunk.old_start as int
    } else {
        line_count as int
    }
}

/// Where the hunk's old side ends among `line_count` lines: after as many
/// lines as the old side has, or at the end of the text.
pub open spec fn hunk_end(hunk: HunkView, line_count: nat) -> int {
    let e = hunk_begin(hunk, line_count) + old_side(hunk.changes).len();
    if e <= line_count {
        e
    } else {
        line_count as int
    }
}

/// The reviewed text after applying a hunk at the hunk's own place: the lines
/// before the hunk's start, then the hunk's new side, then the lines after
/// its old side.
pub open spec fn applied_text(reviewed: Seq<char>, hunk: HunkView) -> Seq<char> {
    let lines = text_lines(reviewed);
    lines.take(hunk_begin(hunk, lines.len())).flatten() + new_side(hunk.changes).flatten()
        + lines.skip(hunk_end(hunk, lines.len())).flatten()
}

/// Appends the lines from `from` up to `to`.
fn copy_lines(lines: &Vec<Vec<char>>, from: usize, to: usize, out: &mut Vec<char>)
    requires
        from <= to <= lines@.len(),
    ensures
        final(out)@ == old(out)@ + lines_view(lines@).subrange(from as int, to as int).flatten(),
{
    let ghost lv = lines_view(lines@);
    let mut j = from;
    while j < to
        invariant
            lv == lines_view(lines@),
            from <= j <= to <= lines@.len(),
            out@ == old(out)@ + lv.subrange(from as int, j as int).flatten(),
        decreases to - j,
    {
        assert(lv.subrange(from as int, j + 1) =~= lv.subrange(from as int, j as int).push(
            lv[j as int],
        ));
        push_chars(out, lines[j].as_slice());
        j += 1;
    }
}

/// The number of unchanged and removed lines of a hunk.
fn old_side_len(lines: &Vec<DiffLine>) -> (n: usize)
    ensures
        n == old_side(changes_view(lines@)).len(),
{
    let ghost cv = changes_view(lines@);
    let mut n: usize = 0;
    let mut k: usize = 0;
    while k < lines.len()
        invariant
            cv == changes_view(lines@),
            k <= lines@.len(),
            n == old_side(cv.take(k as int)).len(),
            n <= k,
        decreases lines@.len() - k,
    {
        assert(cv.take(k + 1).drop_last() =~= cv.take(k as int));
        match &lines[k] {
            DiffLine::Insert(_) => {},
            _ => {
                n += 1;
            },
        }
        k += 1;
    }
    assert(cv.take(lines@.len() as int) =~= cv);
    n
}

/// Appends the unchanged and added lines of a hunk.
fn push_new_side(lines: &Vec<DiffLine>, out: &mut Vec<char>)
    ensures
        final(out)@ == old(out)@ + new_side(changes_view(lines@)).flatten(),
{
    let ghost cv = changes_view(lines@);
    let mut k: usize = 0;
    while k < lines.len()
        invariant
            cv == changes_view(lines@),
            k <= lines@.len(),
            out@ == old(out)@ + new_side(cv.take(k as int)).flatten(),
        decreases lines@.len() - k,
    {
        assert(cv.take(k + 1).drop_last() =~= cv.take(k as int));
        match &lines[k] {
            DiffLine::Delete(_) => {},
            DiffLine::Equal(t) => {
                let tc = chars_of(t.as_str());
                push_chars(out, tc.as_slice());
            },
            DiffLine::Insert(t) => {
                let tc = chars_of(t.as_str());
                push_chars(out, tc.as_slice());
            },
        }
        k += 1;
    }
    assert(cv.take(lines@.len() as int) =~= cv);
}

/// Applies `hunk` to the reviewed text at the hunk's own place: the lines of
/// its old side, counted from its start, give way to its new side.
pub fn apply_hunk(reviewed: &str, hunk: &Hunk) -> (applied: String)
    ensures
        applied@ == applied_text(reviewed@, hunk@),
{
    let text = chars_of(reviewed);
    let old_lines = split_lines(&text);
    let ghost lv = lines_view(old_lines@);
    let count = old_lines.len();
    let begin = if hunk.old_start <= count {
        hunk.old_start
    } else {
        count
    };
    let span = old_side_len(&hunk.lines);
    let end = if span <= count - begin {
        begin + span
    } else {
        count
    };
    let mut out: Vec<char> = Vec::new();
    copy_lines(&old_lines, 0, begin, &mut out);
    push_new_side(&hunk.lines, &mut out);
    copy_lines(&old_lines, end, count, &mut out);
    proof {
        assert(lv.subrange(0, begin as int) =~= lv.take(begin as int));
        assert(lv.subrange(end as int, count as int) =~= lv.skip(end as int));
        assert(Seq::<char>::empty() + lv.take(begin as int).flatten() =~= lv.take(
            begin as int,
        ).flatten());
    }
    string_from_chars(out.as_slice())
}

/// The text of a diff line, whatever its kind.
pub open spec fn change_text(change: LineChange) -> Seq<char> {
    match change {
        LineChange::Equal(t) => t,
        LineChange::Delete(t) => t,
        LineChange::Insert(t) => t,
    }
}

/// A hunk's new side is the texts of its lines that are not removed, in
/// order, so no removed line's text is in it; its old side is the texts of
/// its lines that are not added, in order.
pub proof fn lemma_sides_keep_their_lines(changes: Seq<LineChange>)
    ensures
        new_side(changes) == changes.filter(|c: LineChange| !(c is Delete)).map_values(
            |c: LineChange| change_text(c),
        ),
        old_side(changes) == changes.filter(|c: LineChange| !(c is Insert)).map_values(
            |c: LineChange| change_text(c),
        ),
    decreases changes.len(),
{
    reveal(Seq::filter);
    if changes.len() > 0 {
        lemma_sides_keep_their_lines(changes.drop_last());
        let kept_new = changes.drop_last().filter(|c: LineChange| !(c is Delete));
        let kept_old = changes.drop_last().filter(|c: LineChange| !(c is Insert));
        assert(kept_new.push(changes.last()).map_values(|c: LineChange| change_text(c))
            =~= kept_new.map_values(|c: LineChange| change_text(c)).push(
            change_text(changes.last()),
        ));
        assert(kept_old.push(changes.last()).map_values(|c: LineChange| change_text(c))
            =~= kept_old.map_values(|c: LineChange| change_text(c)).push(
            change_text(changes.last()),
        ));
    } else {
        assert(changes.filter(|c: LineChange| !(c is Delete)).map_values(
            |c: LineChange| change_text(c),
        ) =~= Seq::<Seq<char>>::empty());
        assert(changes.filter(|c: LineChange| !(c is Insert)).map_values(
            |c: LineChange| change_text(c),
        ) =~= Seq::<Seq<char>>::empty());
    }
}

/// A group of the line diff counts as a change exactly when one of its lines,
/// at any position, is removed or added; the hunks are the groups of the diff,
/// in order, that are not made of unchanged lines only.
pub proof fn lemma_hunks_are_the_changing_groups(reviewed: Seq<char>, current: Seq<char>)
    ensures
        forall|g: Seq<LineChange>|
            #![trigger has_change(g)]
            has_change(g) <==> !(forall|i: int| 0 <= i < g.len() ==> g[i] is Equal),
        review_hunks(reviewed, current) == line_diff_groups(
            reviewed,
            current,
            HUNK_CONTEXT_LINES as nat,
        ).filter(
            |h: HunkView|
                exists|i: int|
                    0 <= i < h.changes.len() && (h.changes[i] is Delete || h.changes[i] is Insert),
        ),
{
    let p1 = |h: HunkView| has_change(h.changes);
    let p2 = |h: HunkView|
        exists|i: int|
            0 <= i < h.changes.len() && (h.changes[i] is Delete || h.changes[i] is Insert);
    assert forall|h: HunkView| #[trigger] p1(h) == p2(h) by {
        if p1(h) {
            let i = choose|i: int| 0 <= i < h.changes.len() && !(h.changes[i] is Equal);
            assert(h.changes[i] is Delete || h.changes[i] is Insert);
        }
        if p2(h) {
            let i = choose|i: int|
                0 <= i < h.changes.len() && (h.changes[i] is Delete || h.changes[i] is Insert);
            assert(!(h.changes[i] is Equal));
        }
    }
    assert(p1 =~= p2);
}

/// Applying a hunk replaces its old side by its new side: where the hunk's
/// old side stands in the reviewed lines at the hunk's start, the reviewed
/// text is the lines before it, the old side and the lines after it, and the
/// result has the new side in the old side's place.
pub proof fn lemma_apply_hunk_replaces_old_side(reviewed: Seq<char>, hunk: HunkView)
    requires
        hunk.old_start + old_side(hunk.changes).len() <= text_lines(reviewed).len(),
        text_lines(reviewed).subrange(
            hunk.old_start as int,
            (hunk.old_start + old_side(hunk.changes).len()) as int,
        ) == old_side(hunk.changes),
    ensures
        ({
            let lines = text_lines(reviewed);
            let s = hunk.old_start as int;
            let e = (hunk.old_start + old_side(hunk.changes).len()) as int;
            &&& reviewed == lines.take(s).flatten() + old_side(hunk.changes).flatten() + lines.skip(
                e,
            ).flatten()
            &&& applied_text(reviewed, hunk) == lines.take(s).flatten() + new_side(
                hunk.changes,
            ).flatten() + lines.skip(e).flatten()
            &&& applied_text(reviewed, hunk) == lines.take(s).flatten() + hunk.changes.filter(
                |c: LineChange| !(c is Delete),
            ).map_values(|c: LineChange| change_text(c)).flatten() + lines.skip(e).flatten()
        }),
{
    lemma_sides_keep_their_lines(hunk.changes);
    let lines = text_lines(reviewed);
    let s = hunk.old_start as int;
    let e = (hunk.old_start + old_side(hunk.changes).len()) as int;
    lemma_text_lines_flatten(reviewed);
    assert(lines =~= lines.take(s) + old_side(hunk.changes) + lines.skip(e));
    vstd::seq_lib::lemma_flatten_concat(lines.take(s) + old_side(hunk.changes), lines.skip(e));
    vstd::seq_lib::lemma_flatten_concat(lines.take(s), old_side(hunk.changes));
}

} // verus!
