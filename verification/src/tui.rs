//! The decisions of the terminal review interface: what each key and each
//! worker report does to the view and the session, which outside work follows
//! from it, and the text that the interface shows.
use vstd::prelude::*;
use crate::diff_model::{
    applied_text, apply_hunk, changes_view, hunks, hunks_view, review_hunks, DiffLine, Hunk, HunkView,
    LineChange,
};
use crate::jobs::JobEvent;
use crate::log_buffer::{ring_push, LogBuffer};
use crate::prefs::{toggled, DiffViewMode, Preferences};
use crate::state::{
    accepted_content, reviewed_path_of, AcceptedFileOutcome, ReviewFile, ReviewSession,
};
use crate::text::{
    chars_from, chars_of, concat, decimal, push_decimal, push_str, str_eq, string_from_chars, strings_view,
};

verus! {

/// Lines the diff pane moves for one step of vertical scrolling.
pub const DIFF_VERTICAL_SCROLL_STEP: u16 = 3;

/// Characters the diff pane moves for one step of sideways scrolling.
pub const DIFF_HORIZONTAL_SCROLL_STEP: usize = 4;

/// How many of the latest log entries the log pane shows.
pub const VISIBLE_LOG_LINES: usize = 4;

/// The state of the review interface besides the session: which file and
/// hunk are selected, how far the diff pane is scrolled, the status message,
/// the display preferences, the log, and the work waiting on the worker.
pub struct App {
    pub file_index: usize,
    pub hunk_index: usize,
    pub diff_vertical_offset: u16,
    pub message: String,
    pub prefs: Preferences,
    pub logs: LogBuffer,
    pub refresh_pending: bool,
    pub pending_marks: usize,
}

impl App {
    /// The interface at start: first file and hunk, no scrolling, no message,
    /// nothing waiting.
    pub fn new(prefs: Preferences, logs: LogBuffer) -> (app: App)
        ensures
            app.file_index == 0,
            app.hunk_index == 0,
            app.diff_vertical_offset == 0,
            app.message@ == Seq::<char>::empty(),
            app.prefs == prefs,
            app.logs == logs,
            !app.refresh_pending,
            app.pending_marks == 0,
    {
        App {
            file_index: 0,
            hunk_index: 0,
            diff_vertical_offset: 0,
            message: String::new(),
            prefs,
            logs,
            refresh_pending: false,
            pending_marks: 0,
        }
    }
}

// ---------------------------------------------------------------------------
// Scrolling and the selected hunk
// ---------------------------------------------------------------------------

/// Scrolls the diff pane back to its top.
pub fn reset_diff_scroll(app: &mut App)
    ensures
        *final(app) == (App { diff_vertical_offset: 0, ..*old(app) }),
{
    app.diff_vertical_offset = 0;
}

/// The vertical offset one step further down, stopping at the largest offset.
pub open spec fn scrolled_down(offset: u16) -> u16 {
    if offset + DIFF_VERTICAL_SCROLL_STEP > u16::MAX {
        u16::MAX
    } else {
        (offset + DIFF_VERTICAL_SCROLL_STEP) as u16
    }
}

/// The vertical offset one step further up, stopping at the top.
pub open spec fn scrolled_up(offset: u16) -> u16 {
    if offset < DIFF_VERTICAL_SCROLL_STEP {
        0
    } else {
        (offset - DIFF_VERTICAL_SCROLL_STEP) as u16
    }
}

/// Scrolls the diff pane one step down.
pub fn scroll_diff_down(app: &mut App)
    ensures
        *final(app) == (App {
            diff_vertical_offset: scrolled_down(old(app).diff_vertical_offset),
            ..*old(app)
        }),
{
    app.diff_vertical_offset = app.diff_vertical_offset.saturating_add(DIFF_VERTICAL_SCROLL_STEP);
}

/// Scrolls the diff pane one step up.
pub fn scroll_diff_up(app: &mut App)
    ensures
        *final(app) == (App {
            diff_vertical_offset: scrolled_up(old(app).diff_vertical_offset),
            ..*old(app)
        }),
{
    app.diff_vertical_offset = app.diff_vertical_offset.saturating_sub(DIFF_VERTICAL_SCROLL_STEP);
}

/// The hunk index kept when `remaining` hunks are left: the last one when the
/// index is past them, the first when none is left.
pub open spec fn clamped_hunk_index(index: usize, remaining: nat) -> usize {
    if remaining == 0 {
        0
    } else if index >= remaining {
        (remaining - 1) as usize
    } else {
        index
    }
}

/// Keeps the selected hunk among the `remaining_count` hunks left.
pub fn clamp_hunk_index(app: &mut App, remaining_count: usize)
    ensures
        *final(app) == (App {
            hunk_index: clamped_hunk_index(old(app).hunk_index, remaining_count as nat),
            ..*old(app)
        }),
{
    if remaining_count == 0 {
        app.hunk_index = 0;
    } else if app.hunk_index >= remaining_count {
        app.hunk_index = remaining_count - 1;
    }
}

/// A clamped index selects one of the remaining hunks whenever one is left,
/// and an index that already did is kept.
pub proof fn lemma_clamped_index_in_range(index: usize, remaining: nat)
    ensures
        remaining > 0 ==> clamped_hunk_index(index, remaining) < remaining,
        index < remaining ==> clamped_hunk_index(index, remaining) == index,
        clamped_hunk_index(clamped_hunk_index(index, remaining), remaining)
            == clamped_hunk_index(index, remaining),
{
}

/// Scrolling down and then up again comes back to the same offset, unless the
/// first step stopped at the largest offset.
pub proof fn lemma_scroll_down_then_up(offset: u16)
    requires
        offset + DIFF_VERTICAL_SCROLL_STEP <= u16::MAX,
    ensures
        scrolled_up(scrolled_down(offset)) == offset,
{
}

// ---------------------------------------------------------------------------
// Labels
// ---------------------------------------------------------------------------

/// The status message after a hunk was accepted and `remaining` are left.
pub open spec fn accepted_hunk_text(remaining: nat) -> Seq<char> {
    if remaining == 0 {
        "accepted hunk, file caught up"@
    } else if remaining == 1 {
        "accepted hunk, 1 left"@
    } else {
        "accepted hunk, "@ + decimal(remaining) + " left"@
    }
}

/// The status message after a hunk was accepted.
pub fn accepted_hunk_message(remaining_count: usize) -> (message: String)
    ensures
        message@ == accepted_hunk_text(remaining_count as nat),
{
    if remaining_count == 0 {
        return String::from_str("accepted hunk, file caught up");
    }
    if remaining_count == 1 {
        return String::from_str("accepted hunk, 1 left");
    }
    let mut out = chars_of("accepted hunk, ");
    push_decimal(&mut out, remaining_count as u64);
    push_str(&mut out, " left");
    string_from_chars(out.as_slice())
}

/// What the file list shows after a file's path for `count` hunks left.
pub open spec fn hunk_count_text(count: nat) -> Seq<char> {
    if count == 0 {
        Seq::empty()
    } else if count == 1 {
        " (1 hunk)"@
    } else {
        " ("@ + decimal(count) + " hunks)"@
    }
}

/// What the file list shows after a file's path for `count` hunks left.
pub fn hunk_count_label(count: usize) -> (label: String)
    ensures
        label@ == hunk_count_text(count as nat),
{
    if count == 0 {
        return String::new();
    }
    if count == 1 {
        return String::from_str(" (1 hunk)");
    }
    let mut out = chars_of(" (");
    push_decimal(&mut out, count as u64);
    push_str(&mut out, " hunks)");
    string_from_chars(out.as_slice())
}

/// The heading of the diff pane for `count` hunks left.
pub open spec fn remaining_hunks_text(count: nat) -> Seq<char> {
    if count == 1 {
        "1 hunk remaining"@
    } else {
        decimal(count) + " hunks remaining"@
    }
}

/// The heading of the diff pane for `count` hunks left.
pub fn remaining_hunks_label(count: usize) -> (label: String)
    ensures
        label@ == remaining_hunks_text(count as nat),
{
    if count == 1 {
        return String::from_str("1 hunk remaining");
    }
    let mut out: Vec<char> = Vec::new();
    push_decimal(&mut out, count as u64);
    push_str(&mut out, " hunks remaining");
    string_from_chars(out.as_slice())
}

/// The display mode as the key help shows it.
pub open spec fn mode_text(prefs: Preferences) -> Seq<char> {
    match prefs.diff_view_mode {
        DiffViewMode::Wrap => "mode=wrap"@,
        DiffViewMode::Scroll => "mode=scroll x="@ + decimal(prefs.diff_horizontal_offset as nat),
    }
}

/// The display mode as the key help shows it.
pub fn mode_label(prefs: &Preferences) -> (label: String)
    ensures
        label@ == mode_text(*prefs),
{
    match prefs.diff_view_mode {
        DiffViewMode::Wrap => String::from_str("mode=wrap"),
        DiffViewMode::Scroll => {
            let mut out = chars_of("mode=scroll x=");
            push_decimal(&mut out, prefs.diff_horizontal_offset as u64);
            string_from_chars(out.as_slice())
        },
    }
}

/// The work waiting on the worker as the key help shows it.
pub open spec fn job_text(refresh_pending: bool, pending_marks: usize) -> Seq<char> {
    (if refresh_pending {
        "refresh=pending"@
    } else {
        "refresh=idle"@
    }) + " marks="@ + decimal(pending_marks as nat)
}

/// The work waiting on the worker as the key help shows it.
pub fn job_label(app: &App) -> (label: String)
    ensures
        label@ == job_text(app.refresh_pending, app.pending_marks),
{
    let mut out = if app.refresh_pending {
        chars_of("refresh=pending")
    } else {
        chars_of("refresh=idle")
    };
    push_str(&mut out, " marks=");
    push_decimal(&mut out, app.pending_marks as u64);
    string_from_chars(out.as_slice())
}

/// How the file list names a file: `OLD -> NEW` for a file whose previous
/// path differs from its path, else its path.
pub open spec fn path_label_text(file: ReviewFile) -> Seq<char> {
    match file.meta.previous_path {
        Some(p) => if p@ != file.meta.path@ {
            p@ + " -> "@ + file.meta.path@
        } else {
            file.meta.path@
        },
        None => file.meta.path@,
    }
}

/// How the file list names a file.
pub fn file_list_path_label(file: &ReviewFile) -> (label: String)
    ensures
        label@ == path_label_text(*file),
{
    match &file.meta.previous_path {
        Some(p) => {
            if !str_eq(p.as_str(), file.meta.path.as_str()) {
                let mut out = chars_of(p.as_str());
                push_str(&mut out, " -> ");
                push_str(&mut out, file.meta.path.as_str());
                return string_from_chars(out.as_slice());
            }
            file.meta.path.clone()
        },
        None => file.meta.path.clone(),
    }
}

// ---------------------------------------------------------------------------
// Diff text
// ---------------------------------------------------------------------------

/// `text` without the carriage returns and line feeds at its end.
pub open spec fn trim_line_end(text: Seq<char>) -> Seq<char>
    decreases text.len(),
{
    if text.len() > 0 && (text.last() == '\r' || text.last() == '\n') {
        trim_line_end(text.drop_last())
    } else {
        text
    }
}

/// A diff line as shown: without its line terminators.
pub fn display_line_text(text: &str) -> (shown: String)
    ensures
        shown@ == trim_line_end(text@),
{
    let cs = chars_of(text);
    let mut end: usize = cs.len();
    assert(cs@.take(end as int) =~= cs@);
    while end > 0 && (cs[end - 1] == '\r' || cs[end - 1] == '\n')
        invariant
            end <= cs@.len(),
            cs@ == text@,
            trim_line_end(text@) == trim_line_end(cs@.take(end as int)),
        decreases end,
    {
        let ghost pre = cs@.take(end as int);
        assert(pre.drop_last() =~= cs@.take(end - 1));
        end -= 1;
    }
    let mut out: Vec<char> = Vec::new();
    let mut i: usize = 0;
    while i < end
        invariant
            end <= cs@.len(),
            i <= end,
            out@ == cs@.take(i as int),
        decreases end - i,
    {
        out.push(cs[i]);
        i += 1;
    }
    string_from_chars(out.as_slice())
}

/// Stripping line endings removes line endings only: what is left ends in
/// neither a carriage return nor a line feed, and the text is what is left
/// followed by carriage returns and line feeds alone.
pub proof fn lemma_trim_line_end_strips_endings_only(text: Seq<char>)
    ensures
        trim_line_end(text).len() == 0 || (trim_line_end(text).last() != '\r'
            && trim_line_end(text).last() != '\n'),
        trim_line_end(text).len() <= text.len(),
        text.take(trim_line_end(text).len() as int) == trim_line_end(text),
        forall|i: int|
            trim_line_end(text).len() <= i < text.len() ==> text[i] == '\r' || text[i] == '\n',
    decreases text.len(),
{
    if text.len() > 0 && (text.last() == '\r' || text.last() == '\n') {
        let rest = text.drop_last();
        lemma_trim_line_end_strips_endings_only(rest);
        let t = trim_line_end(rest);
        assert(text.take(t.len() as int) =~= rest.take(t.len() as int));
        assert forall|i: int| t.len() <= i < text.len() implies text[i] == '\r' || text[i] == '\n' by {
            if i < rest.len() {
                assert(rest[i] == text[i]);
            }
        }
    } else {
        assert(text.take(text.len() as int) =~= text);
    }
}

/// The characters of `text` from position `offset` on; nothing when `text`
/// is shorter.
pub open spec fn chars_after(text: Seq<char>, offset: nat) -> Seq<char> {
    if offset >= text.len() {
        Seq::empty()
    } else {
        text.skip(offset as int)
    }
}

/// The characters of `text` from position `offset` on.
pub fn slice_from_char_offset(text: &str, offset: usize) -> (rest: String)
    ensures
        rest@ == chars_after(text@, offset as nat),
{
    let cs = chars_of(text);
    if offset >= cs.len() {
        return String::new();
    }
    let tail = chars_from(cs.as_slice(), offset);
    string_from_chars(tail.as_slice())
}

/// A line of the diff pane as the display mode shows it: whole when lines
/// wrap, from the sideways offset on when the pane scrolls.
pub open spec fn scrolled_text(text: Seq<char>, prefs: Preferences) -> Seq<char> {
    match prefs.diff_view_mode {
        DiffViewMode::Wrap => text,
        DiffViewMode::Scroll => chars_after(text, prefs.diff_horizontal_offset as nat),
    }
}

/// A line of the diff pane as the display mode shows it.
pub fn scroll_text(text: &str, app: &App) -> (shown: String)
    ensures
        shown@ == scrolled_text(text@, app.prefs),
{
    match app.prefs.diff_view_mode {
        DiffViewMode::Wrap => String::from_str(text),
        DiffViewMode::Scroll => slice_from_char_offset(text, app.prefs.diff_horizontal_offset),
    }
}

/// A line of a hunk as the diff pane shows it: its mark, then its text
/// without line terminators, as the display mode shows that.
pub open spec fn diff_line_text(prefix: Seq<char>, text: Seq<char>, prefs: Preferences) -> Seq<char> {
    scrolled_text(prefix + trim_line_end(text), prefs)
}

/// A line of a hunk as the diff pane shows it.
pub fn diff_line(prefix: &str, text: &str, app: &App) -> (shown: String)
    ensures
        shown@ == diff_line_text(prefix@, text@, app.prefs),
{
    let trimmed = display_line_text(text);
    let mut out = chars_of(prefix);
    push_str(&mut out, trimmed.as_str());
    let line = string_from_chars(out.as_slice());
    scroll_text(line.as_str(), app)
}

/// The latest entries of the log, oldest first, as many as the log pane
/// shows.
pub open spec fn latest_entries(entries: Seq<Seq<char>>) -> Seq<Seq<char>> {
    if entries.len() > VISIBLE_LOG_LINES {
        entries.skip(entries.len() - VISIBLE_LOG_LINES)
    } else {
        entries
    }
}

/// What the log pane shows.
pub fn log_lines(app: &App) -> (lines: Vec<String>)
    ensures
        strings_view(lines@) == latest_entries(app.logs.entry_texts()),
{
    let all = app.logs.entries();
    let n = all.len();
    let start: usize = if n > VISIBLE_LOG_LINES {
        n - VISIBLE_LOG_LINES
    } else {
        0
    };
    let mut lines: Vec<String> = Vec::new();
    let mut i: usize = start;
    while i < n
        invariant
            n == all@.len(),
            start <= i <= n,
            strings_view(lines@) == strings_view(all@).subrange(start as int, i as int),
        decreases n - i,
    {
        let ghost before = lines@;
        let line = all[i].clone();
        lines.push(line);
        proof {
            assert(strings_view(all@).subrange(start as int, i + 1) =~= strings_view(all@).subrange(
                start as int,
                i as int,
            ).push(all@[i as int]@));
        }
        i += 1;
    }
    assert(strings_view(all@).subrange(start as int, n as int) =~= latest_entries(
        app.logs.entry_texts(),
    ));
    lines
}

// ---------------------------------------------------------------------------
// Outside work and log echoes
// ---------------------------------------------------------------------------

/// Outside work that follows from a key or a worker report, to be done in
/// this order by the program around the interface.
#[derive(Debug)]
pub enum Effect {
    /// Leave the interface.
    Quit,
    /// Write `content` as the reviewed state stored at `path`.
    WriteReviewed { path: String, content: String },
    /// Store the session's manifest.
    SaveManifest,
    /// Store the display preferences.
    SavePreferences,
    /// Ask the worker to reload the files of the pull request.
    QueueRefresh,
    /// Ask the worker to mark `path` viewed in the pull request
    /// `pull_request_id`.
    QueueMarkViewed { pull_request_id: String, path: String },
}

/// The value of an [`Effect`].
pub enum EffectView {
    Quit,
    WriteReviewed(Seq<char>, Seq<char>),
    SaveManifest,
    SavePreferences,
    QueueRefresh,
    QueueMarkViewed(Seq<char>, Seq<char>),
}

impl View for Effect {
    type V = EffectView;

    open spec fn view(&self) -> EffectView {
        match self {
            Effect::Quit => EffectView::Quit,
            Effect::WriteReviewed { path, content } => EffectView::WriteReviewed(path@, content@),
            Effect::SaveManifest => EffectView::SaveManifest,
            Effect::SavePreferences => EffectView::SavePreferences,
            Effect::QueueRefresh => EffectView::QueueRefresh,
            Effect::QueueMarkViewed { pull_request_id, path } => EffectView::QueueMarkViewed(
                pull_request_id@,
                path@,
            ),
        }
    }
}

/// The values of a sequence of effects.
pub open spec fn effects_view(effects: Seq<Effect>) -> Seq<EffectView> {
    effects.map_values(|e: Effect| e@)
}

/// What the interface asks of the program around it after a key or a
/// worker report: outside work, and the log messages to echo to the terminal.
pub struct Reaction {
    pub effects: Vec<Effect>,
    pub echoed: Vec<String>,
}

/// The entries of a log after recording `messages` in order.
pub open spec fn record_all(entries: Seq<Seq<char>>, capacity: nat, messages: Seq<Seq<char>>) -> Seq<
    Seq<char>,
>
    decreases messages.len(),
{
    if messages.len() == 0 {
        entries
    } else {
        ring_push(record_all(entries, capacity, messages.drop_last()), capacity, messages.last())
    }
}

/// `after` is the log `before` once `messages` were recorded in order.
pub open spec fn logged(before: LogBuffer, after: LogBuffer, messages: Seq<Seq<char>>) -> bool {
    &&& after.entry_texts() == record_all(
        before.entry_texts(),
        before.capacity_limit(),
        messages,
    )
    &&& after.capacity_limit() == before.capacity_limit()
    &&& after.echoes() == before.echoes()
}

/// The messages that recording `messages` into `logs` echoes: all of them
/// when the log echoes, none when it does not.
pub open spec fn echoes_of(logs: LogBuffer, messages: Seq<Seq<char>>) -> Seq<Seq<char>> {
    if logs.echoes() {
        messages
    } else {
        Seq::empty()
    }
}

/// The reaction with these effects and these echoed messages.
pub open spec fn reacts(r: Reaction, effects: Seq<EffectView>, echoed: Seq<Seq<char>>) -> bool {
    effects_view(r.effects@) == effects && strings_view(r.echoed@) == echoed
}

fn no_reaction() -> (r: Reaction)
    ensures
        reacts(r, Seq::empty(), Seq::empty()),
{
    let r = Reaction { effects: Vec::new(), echoed: Vec::new() };
    assert(effects_view(r.effects@) =~= Seq::<EffectView>::empty());
    assert(strings_view(r.echoed@) =~= Seq::<Seq<char>>::empty());
    r
}

/// Records `message` in the log of `app`, noting it for the terminal when the
/// log echoes.
fn note(app: &mut App, message: String, echoed: &mut Vec<String>)
    ensures
        *final(app) == (App { logs: final(app).logs, ..*old(app) }),
        logged(old(app).logs, final(app).logs, seq![message@]),
        strings_view(final(echoed)@) == strings_view(old(echoed)@) + echoes_of(
            old(app).logs,
            seq![message@],
        ),
{
    let ghost before = echoed@;
    let echo = app.logs.record(message.as_str());
    proof {
        lemma_record_one(old(app).logs.entry_texts(), old(app).logs.capacity_limit(), message@);
    }
    if echo {
        echoed.push(message);
    }
}

proof fn lemma_record_one(entries: Seq<Seq<char>>, capacity: nat, a: Seq<char>)
    ensures
        record_all(entries, capacity, seq![a]) == ring_push(entries, capacity, a),
{
    assert(seq![a].drop_last() =~= Seq::<Seq<char>>::empty());
    assert(record_all(entries, capacity, Seq::<Seq<char>>::empty()) == entries);
}

proof fn lemma_record_two(entries: Seq<Seq<char>>, capacity: nat, a: Seq<char>, b: Seq<char>)
    ensures
        record_all(record_all(entries, capacity, seq![a]), capacity, seq![b]) == record_all(
            entries,
            capacity,
            seq![a, b],
        ),
{
    lemma_record_one(entries, capacity, a);
    lemma_record_one(record_all(entries, capacity, seq![a]), capacity, b);
    assert(seq![a, b].drop_last() =~= seq![a]);
}

fn concat3(a: &str, b: &str, c: &str) -> (r: String)
    ensures
        r@ == a@ + b@ + c@,
{
    let mut out = chars_of(a);
    push_str(&mut out, b);
    push_str(&mut out, c);
    string_from_chars(out.as_slice())
}

// ---------------------------------------------------------------------------
// Accepting hunks
// ---------------------------------------------------------------------------

/// The hunks left in the file at `index` of `session`; none when there is
/// no such file.
pub open spec fn current_hunks_of(session: ReviewSession, index: usize) -> Seq<HunkView> {
    if index < session.files@.len() {
        review_hunks(session.files@[index as int].reviewed@, session.files@[index as int].current@)
    } else {
        Seq::empty()
    }
}

/// The hunks left in the selected file.
pub fn current_hunks(session: &ReviewSession, app: &App) -> (h: Vec<Hunk>)
    ensures
        hunks_view(h@) == current_hunks_of(*session, app.file_index),
{
    if app.file_index < session.files.len() {
        let file = &session.files[app.file_index];
        hunks(file.reviewed.as_str(), file.current.as_str())
    } else {
        let h: Vec<Hunk> = Vec::new();
        h
    }
}

/// The message logged when a file is queued to be marked viewed.
pub open spec fn mark_queued_text(path: Seq<char>) -> Seq<char> {
    "queued GitHub viewed mark for "@ + path
}

/// Where the reviewed state of the file at `path` of the session is stored.
pub open spec fn reviewed_file_of(session: ReviewSession, path: Seq<char>) -> Seq<char> {
    reviewed_path_of(session.root@, session.manifest.pr.url@, session.manifest.pr.number, path)
}

/// Queues marking the file of `outcome` viewed, when it caught up.
fn enqueue_mark_viewed_if_needed(
    session: &ReviewSession,
    app: &mut App,
    outcome: AcceptedFileOutcome,
    reaction: &mut Reaction,
)
    requires
        old(app).pending_marks < usize::MAX,
    ensures
        outcome.should_mark_viewed ==> {
            &&& *final(app) == (App {
                pending_marks: (old(app).pending_marks + 1) as usize,
                logs: final(app).logs,
                ..*old(app)
            })
            &&& logged(old(app).logs, final(app).logs, seq![mark_queued_text(outcome.path@)])
            &&& reacts(
                *final(reaction),
                effects_view(old(reaction).effects@) + seq![
                    EffectView::QueueMarkViewed(session.manifest.pr.id@, outcome.path@),
                ],
                strings_view(old(reaction).echoed@) + echoes_of(
                    old(app).logs,
                    seq![mark_queued_text(outcome.path@)],
                ),
            )
        },
        !outcome.should_mark_viewed ==> *final(app) == *old(app) && *final(reaction) == *old(
            reaction,
        ),
{
    if outcome.should_mark_viewed {
        let ghost before = reaction.effects@;
        let effect = Effect::QueueMarkViewed {
            pull_request_id: session.manifest.pr.id.clone(),
            path: outcome.path.clone(),
        };
        reaction.effects.push(effect);
        assert(effects_view(reaction.effects@) =~= effects_view(before) + seq![effect@]);
        app.pending_marks = app.pending_marks + 1;
        let message = concat("queued GitHub viewed mark for ", outcome.path.as_str());
        note(app, message, &mut reaction.echoed);
    }
}

/// The message logged when a hunk of the file at `path` was accepted.
pub open spec fn hunk_accepted_text(path: Seq<char>) -> Seq<char> {
    "accepted hunk in "@ + path
}

/// What accepting the selected hunk does. With no files nothing happens.
/// With no hunk left in the selected file the message says the file is
/// caught up. Else the selected hunk, or the last one when the selection is
/// past them, is applied to the reviewed state, which is accepted into the
/// session, written out and recorded; the selection stays among the hunks
/// left, the diff pane goes back to its top, the message says how many are
/// left, and a file that caught up is queued to be marked viewed.
pub open spec fn hunk_acceptance(
    a0: App,
    s0: ReviewSession,
    a1: App,
    s1: ReviewSession,
    r: Reaction,
) -> bool {
    let hs = current_hunks_of(s0, a0.file_index);
    if s0.files@.len() == 0 {
        a1 == a0 && s1 == s0 && reacts(r, Seq::empty(), Seq::empty())
    } else if hs.len() == 0 {
        &&& a1 == (App { message: a1.message, ..a0 })
        &&& a1.message@ == "file is already caught up"@
        &&& s1 == s0
        &&& reacts(r, Seq::empty(), Seq::empty())
    } else {
        let i = a0.file_index as int;
        let k = if a0.hunk_index < hs.len() {
            a0.hunk_index as int
        } else {
            hs.len() - 1
        };
        let file = s0.files@[i];
        let next = applied_text(file.reviewed@, hs[k]);
        let remaining = review_hunks(next, file.current@).len();
        let path = file.meta.path@;
        let caught_up = next == file.current@;
        let messages = if caught_up {
            seq![hunk_accepted_text(path), mark_queued_text(path)]
        } else {
            seq![hunk_accepted_text(path)]
        };
        &&& accepted_content(s0, s1, i, next)
        &&& a1 == (App {
            hunk_index: clamped_hunk_index(a0.hunk_index, remaining),
            diff_vertical_offset: 0,
            message: a1.message,
            logs: a1.logs,
            pending_marks: if caught_up {
                (a0.pending_marks + 1) as usize
            } else {
                a0.pending_marks
            },
            ..a0
        })
        &&& a1.message@ == accepted_hunk_text(remaining)
        &&& logged(a0.logs, a1.logs, messages)
        &&& reacts(
            r,
            seq![EffectView::WriteReviewed(reviewed_file_of(s0, path), next), EffectView::SaveManifest]
                + if caught_up {
                seq![EffectView::QueueMarkViewed(s0.manifest.pr.id@, path)]
            } else {
                Seq::empty()
            },
            echoes_of(a0.logs, messages),
        )
    }
}

/// Accepts the selected hunk into the reviewed state of the selected file.
pub fn accept_selected_hunk(session: &mut ReviewSession, app: &mut App) -> (r: Reaction)
    requires
        old(app).pending_marks < usize::MAX,
    ensures
        hunk_acceptance(*old(app), *old(session), *final(app), *final(session), r),
{
    let mut reaction = no_reaction();
    if session.files.len() == 0 {
        return reaction;
    }
    let h = current_hunks(session, app);
    if h.len() == 0 {
        app.message = String::from_str("file is already caught up");
        return reaction;
    }
    let index = if app.hunk_index < h.len() {
        app.hunk_index
    } else {
        h.len() - 1
    };
    let fi = app.file_index;
    let path = session.files[fi].meta.path.clone();
    let next = apply_hunk(session.files[fi].reviewed.as_str(), &h[index]);
    let target = session.reviewed_path(path.as_str());
    let ghost s0 = *session;
    let ghost a0 = *app;
    let written = next.clone();
    let outcome = session.accept_file_content_local(fi, next);
    let ghost e0 = reaction.effects@;
    let write = Effect::WriteReviewed { path: target, content: written };
    let ghost wv = write@;
    reaction.effects.push(write);
    reaction.effects.push(Effect::SaveManifest);
    proof {
        assert(effects_view(e0).len() == e0.len());
        assert(effects_view(reaction.effects@) =~= seq![wv, EffectView::SaveManifest]);
    }
    let remaining = current_hunks(session, app).len();
    clamp_hunk_index(app, remaining);
    reset_diff_scroll(app);
    app.message = accepted_hunk_message(remaining);
    let logged_message = concat("accepted hunk in ", path.as_str());
    note(app, logged_message, &mut reaction.echoed);
    enqueue_mark_viewed_if_needed(session, app, outcome, &mut reaction);
    proof {
        let p = s0.files@[fi as int].meta.path@;
        if outcome.should_mark_viewed {
            lemma_record_two(a0.logs.entry_texts(), a0.logs.capacity_limit(), hunk_accepted_text(p), mark_queued_text(p));
            assert(echoes_of(a0.logs, seq![hunk_accepted_text(p)]) + echoes_of(a0.logs, seq![mark_queued_text(p)]) =~= echoes_of(a0.logs, seq![hunk_accepted_text(p), mark_queued_text(p)]));
        }
    }
    reaction
}

/// The message logged when a whole file was accepted.
pub open spec fn file_accepted_text(path: Seq<char>) -> Seq<char> {
    "accepted file "@ + path
}

/// What accepting the whole selected file does. With no files nothing
/// happens. Else the latest content becomes the reviewed state, which is
/// written out and recorded; the first hunk is selected, the diff pane goes
/// back to its top, and the file, now caught up, is queued to be marked
/// viewed.
pub open spec fn file_acceptance(
    a0: App,
    s0: ReviewSession,
    a1: App,
    s1: ReviewSession,
    r: Reaction,
) -> bool {
    if s0.files@.len() == 0 {
        a1 == a0 && s1 == s0 && reacts(r, Seq::empty(), Seq::empty())
    } else {
        let i = a0.file_index as int;
        let file = s0.files@[i];
        let path = file.meta.path@;
        let messages = seq![file_accepted_text(path), mark_queued_text(path)];
        &&& accepted_content(s0, s1, i, file.current@)
        &&& a1 == (App {
            hunk_index: 0,
            diff_vertical_offset: 0,
            message: a1.message,
            logs: a1.logs,
            pending_marks: (a0.pending_marks + 1) as usize,
            ..a0
        })
        &&& a1.message@ == "accepted file"@
        &&& logged(a0.logs, a1.logs, messages)
        &&& reacts(
            r,
            seq![
                EffectView::WriteReviewed(reviewed_file_of(s0, path), file.current@),
                EffectView::SaveManifest,
                EffectView::QueueMarkViewed(s0.manifest.pr.id@, path),
            ],
            echoes_of(a0.logs, messages),
        )
    }
}

/// Accepts the latest content of the selected file as its reviewed state.
pub fn accept_all_hunks(session: &mut ReviewSession, app: &mut App) -> (r: Reaction)
    requires
        old(app).pending_marks < usize::MAX,
        old(session).files@.len() == 0 || old(app).file_index < old(session).files@.len(),
    ensures
        file_acceptance(*old(app), *old(session), *final(app), *final(session), r),
{
    let mut reaction = no_reaction();
    if session.files.len() == 0 {
        return reaction;
    }
    let fi = app.file_index;
    let path = session.files[fi].meta.path.clone();
    let current = session.files[fi].current.clone();
    let target = session.reviewed_path(path.as_str());
    let ghost s0 = *session;
    let ghost a0 = *app;
    let written = current.clone();
    let outcome = session.accept_file_content_local(fi, current);
    let ghost e0 = reaction.effects@;
    let write = Effect::WriteReviewed { path: target, content: written };
    let ghost wv = write@;
    reaction.effects.push(write);
    reaction.effects.push(Effect::SaveManifest);
    proof {
        assert(effects_view(e0).len() == e0.len());
        assert(effects_view(reaction.effects@) =~= seq![wv, EffectView::SaveManifest]);
    }
    app.hunk_index = 0;
    reset_diff_scroll(app);
    app.message = String::from_str("accepted file");
    let logged_message = concat("accepted file ", path.as_str());
    note(app, logged_message, &mut reaction.echoed);
    enqueue_mark_viewed_if_needed(session, app, outcome, &mut reaction);
    proof {
        let p = s0.files@[fi as int].meta.path@;
        lemma_record_two(a0.logs.entry_texts(), a0.logs.capacity_limit(), file_accepted_text(p), mark_queued_text(p));
        assert(echoes_of(a0.logs, seq![file_accepted_text(p)]) + echoes_of(a0.logs, seq![mark_queued_text(p)]) =~= echoes_of(a0.logs, seq![file_accepted_text(p), mark_queued_text(p)]));
        assert(seq![wv, EffectView::SaveManifest] + seq![EffectView::QueueMarkViewed(s0.manifest.pr.id@, p)] =~= seq![wv, EffectView::SaveManifest, EffectView::QueueMarkViewed(s0.manifest.pr.id@, p)]);
    }
    reaction
}

/// Accepting a whole file catches it up: when there is a file, its reviewed
/// state afterwards equals its latest content, the file is queued to be
/// marked viewed, and nothing waits on a hunk of it.
pub proof fn lemma_accepting_file_catches_up(a0: App, s0: ReviewSession, a1: App, s1: ReviewSession, r: Reaction)
    requires
        file_acceptance(a0, s0, a1, s1, r),
        s0.files@.len() > 0,
        a0.pending_marks < usize::MAX,
    ensures
        s1.files@[a0.file_index as int].reviewed@ == s1.files@[a0.file_index as int].current@,
        effects_view(r.effects@).last() == EffectView::QueueMarkViewed(
            s0.manifest.pr.id@,
            s0.files@[a0.file_index as int].meta.path@,
        ),
        a1.pending_marks == a0.pending_marks + 1,
        a1.hunk_index == 0,
        s1.files@[a0.file_index as int].reviewed@ == s0.files@[a0.file_index as int].current@,
        effects_view(r.effects@)[0] == EffectView::WriteReviewed(
            reviewed_file_of(s0, s0.files@[a0.file_index as int].meta.path@),
            s1.files@[a0.file_index as int].reviewed@,
        ),
{
}

/// Accepting a hunk applies the selected hunk (the last one left when the
/// selection is past them) to the file's reviewed state, and what is written
/// out is exactly the reviewed state the session then holds.
pub proof fn lemma_hunk_acceptance_applies_selected_hunk(
    a0: App,
    s0: ReviewSession,
    a1: App,
    s1: ReviewSession,
    r: Reaction,
)
    requires
        hunk_acceptance(a0, s0, a1, s1, r),
        current_hunks_of(s0, a0.file_index).len() > 0,
    ensures
        ({
            let hs = current_hunks_of(s0, a0.file_index);
            let i = a0.file_index as int;
            &&& a0.hunk_index < hs.len() ==> s1.files@[i].reviewed@ == applied_text(
                s0.files@[i].reviewed@,
                hs[a0.hunk_index as int],
            )
            &&& a0.hunk_index >= hs.len() ==> s1.files@[i].reviewed@ == applied_text(
                s0.files@[i].reviewed@,
                hs.last(),
            )
            &&& effects_view(r.effects@)[0] == EffectView::WriteReviewed(
                reviewed_file_of(s0, s0.files@[i].meta.path@),
                s1.files@[i].reviewed@,
            )
            &&& effects_view(r.effects@)[1] == EffectView::SaveManifest
        }),
{
}

/// Accepting a hunk queues the file to be marked viewed exactly when the
/// reviewed state then equals the latest content.
pub proof fn lemma_hunk_acceptance_marks_caught_up_files(
    a0: App,
    s0: ReviewSession,
    a1: App,
    s1: ReviewSession,
    r: Reaction,
)
    requires
        hunk_acceptance(a0, s0, a1, s1, r),
        current_hunks_of(s0, a0.file_index).len() > 0,
        a0.pending_marks < usize::MAX,
    ensures
        (a1.pending_marks == a0.pending_marks + 1) == (s1.files@[a0.file_index as int].reviewed@
            == s1.files@[a0.file_index as int].current@),
        (effects_view(r.effects@).len() == 3) == (s1.files@[a0.file_index as int].reviewed@
            == s1.files@[a0.file_index as int].current@),
{
}

// ---------------------------------------------------------------------------
// Keys
// ---------------------------------------------------------------------------

/// A key the interface reacts to.
#[derive(Debug, Clone, Copy, PartialEq, Eq, Structural)]
pub enum Key {
    Char(char),
    Up,
    Down,
    Left,
    Right,
    PageUp,
    PageDown,
    Home,
    End,
    Other,
}

/// What a key asks for.
#[derive(Debug, Clone, Copy, PartialEq, Eq, Structural)]
pub enum Command {
    Quit,
    NextFile,
    PreviousFile,
    NextHunk,
    PreviousHunk,
    ScrollDown,
    ScrollUp,
    ScrollTop,
    ScrollBottom,
    AcceptHunk,
    AcceptFile,
    Refresh,
    ToggleMode,
    ScrollRight,
    ScrollLeft,
    Nothing,
}

/// What each key asks for: `q` quits; `j`, `k` and the down and up arrows
/// choose the file; `n`, `p`, `]` and `[` choose the hunk; `d`, page down,
/// `u`, page up, home and end scroll the diff pane; `a` accepts the selected
/// hunk and `A` the whole file; `r` refreshes; `w` switches between wrapping
/// and sideways scrolling; the left and right arrows, `h` and `l` scroll
/// sideways, or vertically when lines wrap.
pub open spec fn command_for(key: Key) -> Command {
    match key {
        Key::Char(c) => if c == 'q' {
            Command::Quit
        } else if c == ']' || c == 'n' {
            Command::NextHunk
        } else if c == '[' || c == 'p' {
            Command::PreviousHunk
        } else if c == 'j' {
            Command::NextFile
        } else if c == 'k' {
            Command::PreviousFile
        } else if c == 'd' {
            Command::ScrollDown
        } else if c == 'u' {
            Command::ScrollUp
        } else if c == 'a' {
            Command::AcceptHunk
        } else if c == 'A' {
            Command::AcceptFile
        } else if c == 'r' {
            Command::Refresh
        } else if c == 'w' {
            Command::ToggleMode
        } else if c == 'l' {
            Command::ScrollRight
        } else if c == 'h' {
            Command::ScrollLeft
        } else {
            Command::Nothing
        },
        Key::Up => Command::PreviousFile,
        Key::Down => Command::NextFile,
        Key::Left => Command::ScrollLeft,
        Key::Right => Command::ScrollRight,
        Key::PageUp => Command::ScrollUp,
        Key::PageDown => Command::ScrollDown,
        Key::Home => Command::ScrollTop,
        Key::End => Command::ScrollBottom,
        Key::Other => Command::Nothing,
    }
}

/// What `key` asks for.
pub fn command_of(key: Key) -> (command: Command)
    ensures
        command == command_for(key),
{
    match key {
        Key::Char(c) => {
            if c == 'q' {
                Command::Quit
            } else if c == ']' || c == 'n' {
                Command::NextHunk
            } else if c == '[' || c == 'p' {
                Command::PreviousHunk
            } else if c == 'j' {
                Command::NextFile
            } else if c == 'k' {
                Command::PreviousFile
            } else if c == 'd' {
                Command::ScrollDown
            } else if c == 'u' {
                Command::ScrollUp
            } else if c == 'a' {
                Command::AcceptHunk
            } else if c == 'A' {
                Command::AcceptFile
            } else if c == 'r' {
                Command::Refresh
            } else if c == 'w' {
                Command::ToggleMode
            } else if c == 'l' {
                Command::ScrollRight
            } else if c == 'h' {
                Command::ScrollLeft
            } else {
                Command::Nothing
            }
        },
        Key::Up => Command::PreviousFile,
        Key::Down => Command::NextFile,
        Key::Left => Command::ScrollLeft,
        Key::Right => Command::ScrollRight,
        Key::PageUp => Command::ScrollUp,
        Key::PageDown => Command::ScrollDown,
        Key::Home => Command::ScrollTop,
        Key::End => Command::ScrollBottom,
        Key::Other => Command::Nothing,
    }
}

/// The sideways offset one step further right, stopping at the largest.
pub open spec fn shifted_right(offset: usize) -> usize {
    if offset + DIFF_HORIZONTAL_SCROLL_STEP > usize::MAX {
        usize::MAX
    } else {
        (offset + DIFF_HORIZONTAL_SCROLL_STEP) as usize
    }
}

/// The sideways offset one step further left, stopping at the start.
pub open spec fn shifted_left(offset: usize) -> usize {
    if offset < DIFF_HORIZONTAL_SCROLL_STEP {
        0
    } else {
        (offset - DIFF_HORIZONTAL_SCROLL_STEP) as usize
    }
}

/// The message logged after the display mode changed.
pub open spec fn mode_changed_text(prefs: Preferences) -> Seq<char> {
    "diff mode: "@ + mode_text(prefs)
}

/// What a key does to the interface `a0` and the session `s0`, giving `a1`,
/// `s1` and the reaction `r`. Only accepting changes the session; only
/// quitting, accepting, refreshing and changing the preferences ask for
/// outside work.
pub open spec fn key_handled(key: Key, a0: App, s0: ReviewSession, a1: App, s1: ReviewSession, r: Reaction) -> bool {
    let files = s0.files@.len();
    let quiet = s1 == s0 && reacts(r, Seq::empty(), Seq::empty());
    match command_for(key) {
        Command::Quit => a1 == a0 && s1 == s0 && reacts(r, seq![EffectView::Quit], Seq::empty()),
        Command::NextFile => quiet && a1 == if a0.file_index + 1 < files {
            App { file_index: (a0.file_index + 1) as usize, hunk_index: 0, diff_vertical_offset: 0, ..a0 }
        } else {
            a0
        },
        Command::PreviousFile => quiet && a1 == if a0.file_index > 0 {
            App { file_index: (a0.file_index - 1) as usize, hunk_index: 0, diff_vertical_offset: 0, ..a0 }
        } else {
            a0
        },
        Command::NextHunk => quiet && a1 == if a0.hunk_index + 1 < current_hunks_of(s0, a0.file_index).len() {
            App { hunk_index: (a0.hunk_index + 1) as usize, diff_vertical_offset: 0, ..a0 }
        } else {
            a0
        },
        Command::PreviousHunk => quiet && a1 == if a0.hunk_index > 0 {
            App { hunk_index: (a0.hunk_index - 1) as usize, diff_vertical_offset: 0, ..a0 }
        } else {
            a0
        },
        Command::ScrollDown => quiet && a1 == (App {
            diff_vertical_offset: scrolled_down(a0.diff_vertical_offset),
            ..a0
        }),
        Command::ScrollUp => quiet && a1 == (App {
            diff_vertical_offset: scrolled_up(a0.diff_vertical_offset),
            ..a0
        }),
        Command::ScrollTop => quiet && a1 == (App { diff_vertical_offset: 0, ..a0 }),
        Command::ScrollBottom => quiet && a1 == (App { diff_vertical_offset: u16::MAX, ..a0 }),
        Command::AcceptHunk => hunk_acceptance(a0, s0, a1, s1, r),
        Command::AcceptFile => file_acceptance(a0, s0, a1, s1, r),
        Command::Refresh => if a0.refresh_pending {
            let messages = seq!["refresh already in progress"@];
            &&& a1 == (App { message: a1.message, logs: a1.logs, ..a0 })
            &&& a1.message@ == "refresh already in progress"@
            &&& logged(a0.logs, a1.logs, messages)
            &&& s1 == s0
            &&& reacts(r, Seq::empty(), echoes_of(a0.logs, messages))
        } else {
            let messages = seq!["refresh queued"@];
            &&& a1 == (App { refresh_pending: true, message: a1.message, logs: a1.logs, ..a0 })
            &&& a1.message@ == "refresh queued"@
            &&& logged(a0.logs, a1.logs, messages)
            &&& s1 == s0
            &&& reacts(r, seq![EffectView::QueueRefresh], echoes_of(a0.logs, messages))
        },
        Command::ToggleMode => {
            let messages = seq!["changed "@ + mode_changed_text(toggled(a0.prefs))];
            &&& a1 == (App { prefs: toggled(a0.prefs), message: a1.message, logs: a1.logs, ..a0 })
            &&& a1.message@ == mode_changed_text(toggled(a0.prefs))
            &&& logged(a0.logs, a1.logs, messages)
            &&& s1 == s0
            &&& reacts(r, seq![EffectView::SavePreferences], echoes_of(a0.logs, messages))
        },
        Command::ScrollRight => if a0.prefs.diff_view_mode == DiffViewMode::Scroll {
            &&& a1 == (App {
                prefs: Preferences {
                    diff_horizontal_offset: shifted_right(a0.prefs.diff_horizontal_offset),
                    ..a0.prefs
                },
                ..a0
            })
            &&& s1 == s0
            &&& reacts(r, seq![EffectView::SavePreferences], Seq::empty())
        } else {
            quiet && a1 == (App { diff_vertical_offset: scrolled_down(a0.diff_vertical_offset), ..a0 })
        },
        Command::ScrollLeft => if a0.prefs.diff_view_mode == DiffViewMode::Scroll {
            &&& a1 == (App {
                prefs: Preferences {
                    diff_horizontal_offset: shifted_left(a0.prefs.diff_horizontal_offset),
                    ..a0.prefs
                },
                ..a0
            })
            &&& s1 == s0
            &&& reacts(r, seq![EffectView::SavePreferences], Seq::empty())
        } else {
            quiet && a1 == (App { diff_vertical_offset: scrolled_up(a0.diff_vertical_offset), ..a0 })
        },
        Command::Nothing => quiet && a1 == a0,
    }
}

/// Whatever key is pressed, each reviewed state it writes out is the one the
/// session then holds for the selected file, at that file's place.
pub proof fn lemma_written_state_is_held(
    key: Key,
    a0: App,
    s0: ReviewSession,
    a1: App,
    s1: ReviewSession,
    r: Reaction,
)
    requires
        key_handled(key, a0, s0, a1, s1, r),
    ensures
        forall|j: int|
            #![trigger effects_view(r.effects@)[j]]
            0 <= j < effects_view(r.effects@).len() ==> (effects_view(r.effects@)[j] matches EffectView::WriteReviewed(
                path,
                content,
            ) ==> {
                &&& a0.file_index < s1.files@.len()
                &&& content == s1.files@[a0.file_index as int].reviewed@
                &&& path == reviewed_file_of(s1, s1.files@[a0.file_index as int].meta.path@)
            }),
{
}

fn single_effect(effect: Effect) -> (r: Reaction)
    ensures
        reacts(r, seq![effect@], Seq::empty()),
{
    let mut r = no_reaction();
    r.effects.push(effect);
    proof {
        assert(effects_view(r.effects@) =~= seq![effect@]);
    }
    r
}

/// Reacts to `key`.
pub fn handle_key(session: &mut ReviewSession, app: &mut App, key: Key) -> (r: Reaction)
    requires
        command_for(key) is AcceptHunk || command_for(key) is AcceptFile ==> old(app).pending_marks
            < usize::MAX,
        command_for(key) is AcceptFile ==> old(session).files@.len() == 0 || old(app).file_index
            < old(session).files@.len(),
    ensures
        key_handled(key, *old(app), *old(session), *final(app), *final(session), r),
{
    let command = command_of(key);
    match command {
        Command::Quit => single_effect(Effect::Quit),
        Command::NextFile => {
            let n = session.files.len();
            if n > 0 && app.file_index < n - 1 {
                app.file_index = app.file_index + 1;
                app.hunk_index = 0;
                reset_diff_scroll(app);
            }
            no_reaction()
        },
        Command::PreviousFile => {
            if app.file_index > 0 {
                app.file_index = app.file_index - 1;
                app.hunk_index = 0;
                reset_diff_scroll(app);
            }
            no_reaction()
        },
        Command::NextHunk => {
            let count = current_hunks(session, app).len();
            if count > 0 && app.hunk_index < count - 1 {
                app.hunk_index = app.hunk_index + 1;
                reset_diff_scroll(app);
            }
            no_reaction()
        },
        Command::PreviousHunk => {
            if app.hunk_index > 0 {
                app.hunk_index = app.hunk_index - 1;
                reset_diff_scroll(app);
            }
            no_reaction()
        },
        Command::ScrollDown => {
            scroll_diff_down(app);
            no_reaction()
        },
        Command::ScrollUp => {
            scroll_diff_up(app);
            no_reaction()
        },
        Command::ScrollTop => {
            reset_diff_scroll(app);
            no_reaction()
        },
        Command::ScrollBottom => {
            app.diff_vertical_offset = u16::MAX;
            no_reaction()
        },
        Command::AcceptHunk => accept_selected_hunk(session, app),
        Command::AcceptFile => accept_all_hunks(session, app),
        Command::Refresh => {
            if app.refresh_pending {
                let mut r = no_reaction();
                app.message = String::from_str("refresh already in progress");
                note(app, String::from_str("refresh already in progress"), &mut r.echoed);
                r
            } else {
                let mut r = single_effect(Effect::QueueRefresh);
                app.refresh_pending = true;
                app.message = String::from_str("refresh queued");
                note(app, String::from_str("refresh queued"), &mut r.echoed);
                r
            }
        },
        Command::ToggleMode => {
            let mut r = single_effect(Effect::SavePreferences);
            app.prefs.toggle_diff_mode();
            let label = mode_label(&app.prefs);
            app.message = concat("diff mode: ", label.as_str());
            let logged_message = concat("changed ", app.message.as_str());
            note(app, logged_message, &mut r.echoed);
            r
        },
        Command::ScrollRight => {
            if app.prefs.diff_view_mode == DiffViewMode::Scroll {
                app.prefs.diff_horizontal_offset = app.prefs.diff_horizontal_offset.saturating_add(
                    DIFF_HORIZONTAL_SCROLL_STEP,
                );
                single_effect(Effect::SavePreferences)
            } else {
                scroll_diff_down(app);
                no_reaction()
            }
        },
        Command::ScrollLeft => {
            if app.prefs.diff_view_mode == DiffViewMode::Scroll {
                app.prefs.diff_horizontal_offset = app.prefs.diff_horizontal_offset.saturating_sub(
                    DIFF_HORIZONTAL_SCROLL_STEP,
                );
                single_effect(Effect::SavePreferences)
            } else {
                scroll_diff_up(app);
                no_reaction()
            }
        },
        Command::Nothing => no_reaction(),
    }
}

// ---------------------------------------------------------------------------
// Worker reports
// ---------------------------------------------------------------------------

/// What a worker report does to the interface `a0` and the session `s0`: a
/// progress message is logged; a finished refresh puts the loaded files under
/// review, records them and selects the first hunk; a failed refresh is
/// reported; a finished or failed viewed mark is logged and no longer
/// waited for.
pub open spec fn event_handled(event: JobEvent, a0: App, s0: ReviewSession, a1: App, s1: ReviewSession, r: Reaction) -> bool {
    match event {
        JobEvent::Progress(message) => {
            &&& a1 == (App { logs: a1.logs, ..a0 })
            &&& logged(a0.logs, a1.logs, seq![message@])
            &&& s1 == s0
            &&& reacts(r, Seq::empty(), echoes_of(a0.logs, seq![message@]))
        },
        JobEvent::RefreshFinished(Ok(files)) => {
            let messages = seq!["refresh complete"@];
            &&& s1.files == files
            &&& s1.manifest.files@ == crate::state::metas_of(files@)
            &&& s1.manifest.pr == s0.manifest.pr
            &&& s1.root == s0.root
            &&& a1 == (App {
                refresh_pending: false,
                hunk_index: 0,
                diff_vertical_offset: 0,
                message: a1.message,
                logs: a1.logs,
                ..a0
            })
            &&& a1.message@ == "refresh complete"@
            &&& logged(a0.logs, a1.logs, messages)
            &&& reacts(r, seq![EffectView::SaveManifest], echoes_of(a0.logs, messages))
        },
        JobEvent::RefreshFinished(Err(error)) => {
            let messages = seq!["refresh failed: "@ + error@];
            &&& a1 == (App { refresh_pending: false, message: a1.message, logs: a1.logs, ..a0 })
            &&& a1.message@ == "refresh failed"@
            &&& logged(a0.logs, a1.logs, messages)
            &&& s1 == s0
            &&& reacts(r, Seq::empty(), echoes_of(a0.logs, messages))
        },
        JobEvent::MarkFileViewedFinished { path, result } => {
            let messages = match result {
                Ok(_) => seq!["marked viewed in GitHub: "@ + path@],
                Err(error) => seq!["failed to mark viewed in GitHub for "@ + path@ + ": "@ + error@],
            };
            &&& a1 == (App {
                pending_marks: if a0.pending_marks > 0 {
                    (a0.pending_marks - 1) as usize
                } else {
                    0
                },
                logs: a1.logs,
                ..a0
            })
            &&& logged(a0.logs, a1.logs, messages)
            &&& s1 == s0
            &&& reacts(r, Seq::empty(), echoes_of(a0.logs, messages))
        },
    }
}

/// Reacts to a report of the worker.
pub fn apply_job_event(session: &mut ReviewSession, app: &mut App, event: JobEvent) -> (r: Reaction)
    ensures
        event_handled(event, *old(app), *old(session), *final(app), *final(session), r),
{
    let mut r = no_reaction();
    match event {
        JobEvent::Progress(message) => {
            let ghost m = message@;
            note(app, message, &mut r.echoed);
        },
        JobEvent::RefreshFinished(Ok(files)) => {
            session.apply_refreshed_files(files);
            r.effects.push(Effect::SaveManifest);
            proof {
                assert(effects_view(r.effects@) =~= seq![EffectView::SaveManifest]);
            }
            app.refresh_pending = false;
            app.hunk_index = 0;
            reset_diff_scroll(app);
            app.message = String::from_str("refresh complete");
            note(app, String::from_str("refresh complete"), &mut r.echoed);
        },
        JobEvent::RefreshFinished(Err(error)) => {
            app.refresh_pending = false;
            app.message = String::from_str("refresh failed");
            let m = concat("refresh failed: ", error.as_str());
            note(app, m, &mut r.echoed);
        },
        JobEvent::MarkFileViewedFinished { path, result } => {
            app.pending_marks = app.pending_marks.saturating_sub(1);
            let m = match result {
                Ok(()) => concat("marked viewed in GitHub: ", path.as_str()),
                Err(error) => {
                    let head = concat3("failed to mark viewed in GitHub for ", path.as_str(), ": ");
                    concat(head.as_str(), error.as_str())
                },
            };
            note(app, m, &mut r.echoed);
        },
    }
    r
}

// ---------------------------------------------------------------------------
// What the panes show
// ---------------------------------------------------------------------------

/// How many hunks are left in `file`.
pub fn remaining_hunk_count(file: &ReviewFile) -> (count: usize)
    ensures
        count == review_hunks(file.reviewed@, file.current@).len(),
{
    let h = hunks(file.reviewed.as_str(), file.current.as_str());
    h.len()
}

/// The row of the file list for `file`: `[x]` for a file whose reviewed
/// state equals its latest content, `[ ]` else, then its name and how many
/// hunks are left.
pub open spec fn file_row_text(file: ReviewFile) -> Seq<char> {
    (if file.reviewed@ == file.current@ {
        "[x]"@
    } else {
        "[ ]"@
    }) + " "@ + path_label_text(file) + hunk_count_text(
        review_hunks(file.reviewed@, file.current@).len(),
    )
}

/// The row of the file list for `file`.
pub fn file_row_label(file: &ReviewFile) -> (row: String)
    ensures
        row@ == file_row_text(*file),
{
    let caught_up = file.reviewed == file.current;
    let mut out = if caught_up {
        chars_of("[x]")
    } else {
        chars_of("[ ]")
    };
    push_str(&mut out, " ");
    let label = file_list_path_label(file);
    push_str(&mut out, label.as_str());
    let count = hunk_count_label(remaining_hunk_count(file));
    push_str(&mut out, count.as_str());
    string_from_chars(out.as_slice())
}

/// What a row of the diff pane shows.
#[derive(Debug, Clone, Copy, PartialEq, Eq, Structural)]
pub enum RowKind {
    /// A note in place of a diff.
    Note,
    /// How many hunks are left.
    Heading,
    /// An unchanged line.
    Equal,
    /// A line the current content removes.
    Delete,
    /// A line the current content adds.
    Insert,
}

/// A row of the diff pane.
pub struct DiffRow {
    pub kind: RowKind,
    pub text: String,
}

/// The kind and text of the row for one line of a hunk.
pub open spec fn line_row(line: LineChange, prefs: Preferences) -> (RowKind, Seq<char>) {
    match line {
        LineChange::Equal(t) => (RowKind::Equal, diff_line_text(" "@, t, prefs)),
        LineChange::Delete(t) => (RowKind::Delete, diff_line_text("-"@, t, prefs)),
        LineChange::Insert(t) => (RowKind::Insert, diff_line_text("+"@, t, prefs)),
    }
}

/// The kinds and texts of rows.
pub open spec fn rows_view(rows: Seq<DiffRow>) -> Seq<(RowKind, Seq<char>)> {
    rows.map_values(|r: DiffRow| (r.kind, r.text@))
}

/// What the diff pane shows: a note when there is no file or the selected
/// file has caught up; else how many hunks are left, then the lines of the
/// selected hunk (the last one when the selection is past them).
pub open spec fn diff_rows_of(session: ReviewSession, app: App) -> Seq<(RowKind, Seq<char>)> {
    let hs = current_hunks_of(session, app.file_index);
    if app.file_index >= session.files@.len() {
        seq![(RowKind::Note, "No files"@)]
    } else if hs.len() == 0 {
        seq![(RowKind::Note, "File caught up to latest PR content"@)]
    } else {
        let k = if app.hunk_index < hs.len() {
            app.hunk_index as int
        } else {
            hs.len() - 1
        };
        seq![(RowKind::Heading, remaining_hunks_text(hs.len()))] + hs[k].changes.map_values(
            |l: LineChange| line_row(l, app.prefs),
        )
    }
}

/// The diff pane shows the selected hunk: after the heading come the lines of
/// the hunk at the selection (the last one left when the selection is past
/// them), one row each and in order, each row of the kind of its line.
pub proof fn lemma_diff_rows_show_selected_hunk(session: ReviewSession, app: App)
    requires
        current_hunks_of(session, app.file_index).len() > 0,
    ensures
        ({
            let hs = current_hunks_of(session, app.file_index);
            let rows = diff_rows_of(session, app);
            let shown = if app.hunk_index < hs.len() {
                hs[app.hunk_index as int]
            } else {
                hs.last()
            };
            &&& rows.len() == shown.changes.len() + 1
            &&& rows[0] == (RowKind::Heading, remaining_hunks_text(hs.len()))
            &&& forall|j: int|
                #![trigger rows[j + 1]]
                0 <= j < shown.changes.len() ==> rows[j + 1] == line_row(shown.changes[j], app.prefs)
            &&& forall|j: int|
                #![trigger rows[j + 1]]
                0 <= j < shown.changes.len() ==> (shown.changes[j] is Equal <==> rows[j + 1].0
                    == RowKind::Equal) && (shown.changes[j] is Delete <==> rows[j + 1].0
                    == RowKind::Delete) && (shown.changes[j] is Insert <==> rows[j + 1].0
                    == RowKind::Insert)
        }),
{
    let hs = current_hunks_of(session, app.file_index);
    let rows = diff_rows_of(session, app);
    let shown = if app.hunk_index < hs.len() {
        hs[app.hunk_index as int]
    } else {
        hs.last()
    };
    assert forall|j: int| 0 <= j < shown.changes.len() implies #[trigger] rows[j + 1] == line_row(
        shown.changes[j],
        app.prefs,
    ) by {
        assert(rows[j + 1] == shown.changes.map_values(|l: LineChange| line_row(l, app.prefs))[j]);
    }
}

fn row(kind: RowKind, text: String) -> (r: DiffRow)
    ensures
        r.kind == kind,
        r.text == text,
{
    DiffRow { kind, text }
}

/// What the diff pane shows.
pub fn diff_rows(session: &ReviewSession, app: &App) -> (rows: Vec<DiffRow>)
    ensures
        rows_view(rows@) == diff_rows_of(*session, *app),
{
    let mut rows: Vec<DiffRow> = Vec::new();
    if app.file_index >= session.files.len() {
        rows.push(row(RowKind::Note, String::from_str("No files")));
        return rows;
    }
    let h = current_hunks(session, app);
    if h.len() == 0 {
        rows.push(row(RowKind::Note, String::from_str("File caught up to latest PR content")));
        return rows;
    }
    let total = h.len();
    let index = if app.hunk_index < total {
        app.hunk_index
    } else {
        total - 1
    };
    rows.push(row(RowKind::Heading, remaining_hunks_label(total)));
    let lines = &h[index].lines;
    let ghost hv = hunks_view(h@)[index as int].changes;
    let n = lines.len();
    let mut i: usize = 0;
    while i < n
        invariant
            n == lines@.len(),
            i <= n,
            hv == changes_view(lines@),
            rows_view(rows@) == seq![(RowKind::Heading, remaining_hunks_text(total as nat))]
                + hv.take(i as int).map_values(|l: LineChange| line_row(l, app.prefs)),
        decreases n - i,
    {
        let ghost before = rows@;
        let r = match &lines[i] {
            DiffLine::Equal(t) => row(RowKind::Equal, diff_line(" ", t.as_str(), app)),
            DiffLine::Delete(t) => row(RowKind::Delete, diff_line("-", t.as_str(), app)),
            DiffLine::Insert(t) => row(RowKind::Insert, diff_line("+", t.as_str(), app)),
        };
        rows.push(r);
        i += 1;
        proof {
            assert(rows_view(rows@) =~= rows_view(before).push((r.kind, r.text@)));
            assert(hv.take(i as int).map_values(|l: LineChange| line_row(l, app.prefs)) =~= hv.take(
                i - 1,
            ).map_values(|l: LineChange| line_row(l, app.prefs)).push(line_row(hv[i - 1], app.prefs)));
        }
    }
    rows
}

/// The title of the diff pane: the reviewed state against the latest
/// content, and how far down the pane is scrolled.
pub fn diff_title(app: &App) -> (title: String)
    ensures
        title@ == "Reviewed -> Current y="@ + decimal(app.diff_vertical_offset as nat),
{
    let mut out = chars_of("Reviewed -> Current y=");
    push_decimal(&mut out, app.diff_vertical_offset as u64);
    string_from_chars(out.as_slice())
}

/// The keys the help line lists.
pub const KEY_HELP: &'static str = "j/k/Up/Down file  [/]/n/p hunk  d/u/h/l diff scroll  a accept  A accept file  w wrap/scroll  r refresh  q quit";

/// The help line: the keys, the display mode, the work waiting on the
/// worker and the status message, two spaces apart.
pub fn help_text(app: &App) -> (help: String)
    ensures
        help@ == KEY_HELP@ + "  "@ + mode_text(app.prefs) + "  "@ + job_text(
            app.refresh_pending,
            app.pending_marks,
        ) + "  "@ + app.message@,
{
    let mut out = chars_of(KEY_HELP);
    push_str(&mut out, "  ");
    let mode = mode_label(&app.prefs);
    push_str(&mut out, mode.as_str());
    push_str(&mut out, "  ");
    let job = job_label(app);
    push_str(&mut out, job.as_str());
    push_str(&mut out, "  ");
    push_str(&mut out, app.message.as_str());
    string_from_chars(out.as_slice())
}

} // verus!
