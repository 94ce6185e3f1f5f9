use better_review::github::{hash_content, PrMeta, RepoRef};
use better_review::jobs::JobEvent;
use better_review::log_buffer::LogBuffer;
use better_review::prefs::{DiffViewMode, Preferences};
use better_review::state::{FileState, ReviewFile, ReviewSession};
use better_review::tui::{
    accepted_hunk_message, apply_job_event, clamp_hunk_index, diff_line, diff_rows, diff_title,
    display_line_text, file_list_path_label, file_row_label, handle_key, help_text,
    hunk_count_label, job_label, log_lines, mode_label, remaining_hunks_label, reset_diff_scroll,
    scroll_diff_down, scroll_diff_up, slice_from_char_offset, App, Effect, Key, RowKind,
    DIFF_VERTICAL_SCROLL_STEP,
};

#[test]
fn slicing_past_end_returns_empty_string() {
    assert_eq!(slice_from_char_offset("abc", 99), "");
}

#[test]
fn slicing_uses_character_offsets() {
    assert_eq!(slice_from_char_offset("abcdef", 2), "cdef");
}

#[test]
fn display_line_text_strips_line_endings_only() {
    assert_eq!(display_line_text("abc\n"), "abc");
    assert_eq!(display_line_text("abc\r\n"), "abc");
    assert_eq!(display_line_text("abc"), "abc");
    assert_eq!(display_line_text("\n"), "");
    assert_eq!(display_line_text("abc  \n"), "abc  ");
}

#[test]
fn diff_line_has_no_embedded_line_terminators() {
    let logs = LogBuffer::new(5);
    let app = App::new(Preferences::default(), logs);
    let rendered = diff_line("+", "abc\r\n", &app);

    assert_eq!(rendered, "+abc");
    assert!(!rendered.contains('\n'));
    assert!(!rendered.contains('\r'));
}

#[test]
fn mode_label_reports_scroll_offset() {
    let prefs = Preferences {
        diff_view_mode: DiffViewMode::Scroll,
        diff_horizontal_offset: 8,
    };

    assert_eq!(mode_label(&prefs), "mode=scroll x=8");
}

#[test]
fn job_label_reports_pending_counts() {
    let logs = LogBuffer::new(5);
    let mut app = App::new(Preferences::default(), logs);
    app.refresh_pending = true;
    app.pending_marks = 2;

    assert_eq!(job_label(&app), "refresh=pending marks=2");
}

#[test]
fn hunk_count_label_formats_counts() {
    assert_eq!(hunk_count_label(0), "");
    assert_eq!(hunk_count_label(1), " (1 hunk)");
    assert_eq!(hunk_count_label(2), " (2 hunks)");
}

#[test]
fn remaining_hunks_label_formats_counts() {
    assert_eq!(remaining_hunks_label(1), "1 hunk remaining");
    assert_eq!(remaining_hunks_label(2), "2 hunks remaining");
}

#[test]
fn clamp_hunk_index_keeps_valid_index() {
    let logs = LogBuffer::new(5);
    let mut app = App::new(Preferences::default(), logs);
    app.hunk_index = 1;

    clamp_hunk_index(&mut app, 3);

    assert_eq!(app.hunk_index, 1);
}

#[test]
fn clamp_hunk_index_moves_to_last_remaining_hunk() {
    let logs = LogBuffer::new(5);
    let mut app = App::new(Preferences::default(), logs);
    app.hunk_index = 3;

    clamp_hunk_index(&mut app, 2);

    assert_eq!(app.hunk_index, 1);
}

#[test]
fn clamp_hunk_index_resets_when_no_hunks_remain() {
    let logs = LogBuffer::new(5);
    let mut app = App::new(Preferences::default(), logs);
    app.hunk_index = 3;

    clamp_hunk_index(&mut app, 0);

    assert_eq!(app.hunk_index, 0);
}

#[test]
fn accepted_hunk_message_reports_remaining_work() {
    assert_eq!(accepted_hunk_message(0), "accepted hunk, file caught up");
    assert_eq!(accepted_hunk_message(1), "accepted hunk, 1 left");
    assert_eq!(accepted_hunk_message(2), "accepted hunk, 2 left");
}

#[test]
fn file_list_label_formats_renamed_files() {
    let file = ReviewFile {
        meta: FileState {
            path: "new/path.rs".into(),
            previous_path: Some("old/path.rs".into()),
            change_type: "RENAMED".into(),
            reviewed_hash: String::new(),
            current_hash: None,
            base_path_used: Some("old/path.rs".into()),
            base_ref_oid_used: Some("base".into()),
            initial_reviewed_hash: Some(String::new()),
            unsupported: false,
        },
        reviewed: String::new(),
        current: String::new(),
    };

    assert_eq!(file_list_path_label(&file), "old/path.rs -> new/path.rs");
}

#[test]
fn scroll_diff_down_increases_vertical_offset() {
    let logs = LogBuffer::new(5);
    let mut app = App::new(Preferences::default(), logs);

    scroll_diff_down(&mut app);

    assert_eq!(app.diff_vertical_offset, DIFF_VERTICAL_SCROLL_STEP);
}

#[test]
fn scroll_diff_up_saturates_at_zero() {
    let logs = LogBuffer::new(5);
    let mut app = App::new(Preferences::default(), logs);

    scroll_diff_up(&mut app);

    assert_eq!(app.diff_vertical_offset, 0);
}

#[test]
fn reset_diff_scroll_clears_vertical_offset() {
    let logs = LogBuffer::new(5);
    let mut app = App::new(Preferences::default(), logs);
    app.diff_vertical_offset = 42;

    reset_diff_scroll(&mut app);

    assert_eq!(app.diff_vertical_offset, 0);
}

fn session_with(reviewed: &str, current: &str) -> ReviewSession {
    let pr = PrMeta {
        id: "PR_kw".into(),
        number: 7,
        url: "https://github.com/acme/widgets/pull/7".into(),
        base_ref_oid: "base".into(),
        head_ref_oid: "head".into(),
        files: Vec::new(),
        head_repository: Some(RepoRef { name_with_owner: "acme/widgets".into() }),
    };
    let mut session = ReviewSession::load("/s".into(), pr, None);
    session.apply_refreshed_files(vec![ReviewFile {
        meta: FileState {
            path: "f.txt".into(),
            previous_path: None,
            change_type: "MODIFIED".into(),
            reviewed_hash: hash_content(reviewed),
            current_hash: Some(hash_content(current)),
            base_path_used: Some("f.txt".into()),
            base_ref_oid_used: Some("base".into()),
            initial_reviewed_hash: Some(hash_content(reviewed)),
            unsupported: false,
        },
        reviewed: reviewed.into(),
        current: current.into(),
    }]);
    session
}

const OLD: &str = "a\nb\nc\nd\ne\nf\ng\nh\ni\nj\nk\nl\nm\nn\no\n";
const NEW: &str = "a\nB\nc\nd\ne\nf\ng\nh\ni\nj\nk\nl\nm\nn\nO\n";

#[test]
fn accepting_hunks_one_by_one_catches_the_file_up() {
    let mut session = session_with(OLD, NEW);
    let mut app = App::new(Preferences::default(), LogBuffer::new(10));

    let first = handle_key(&mut session, &mut app, Key::Char('a'));
    assert_eq!(first.effects.len(), 2);
    match &first.effects[0] {
        Effect::WriteReviewed { path, content } => {
            assert_eq!(path, "/s/github.com/acme/widgets/pr-7/reviewed/f.txt");
            assert_eq!(content, "a\nB\nc\nd\ne\nf\ng\nh\ni\nj\nk\nl\nm\nn\no\n");
        }
        other => panic!("unexpected effect {other:?}"),
    }
    assert!(matches!(first.effects[1], Effect::SaveManifest));
    assert_eq!(app.message, "accepted hunk, 1 left");
    assert_eq!(app.pending_marks, 0);

    let second = handle_key(&mut session, &mut app, Key::Char('a'));
    assert_eq!(second.effects.len(), 3);
    match &second.effects[2] {
        Effect::QueueMarkViewed { pull_request_id, path } => {
            assert_eq!(pull_request_id, "PR_kw");
            assert_eq!(path, "f.txt");
        }
        other => panic!("unexpected effect {other:?}"),
    }
    assert_eq!(app.message, "accepted hunk, file caught up");
    assert_eq!(app.pending_marks, 1);
    assert_eq!(session.files[0].reviewed, NEW);
    assert_eq!(
        app.logs.entries(),
        vec![
            "accepted hunk in f.txt",
            "accepted hunk in f.txt",
            "queued GitHub viewed mark for f.txt"
        ]
    );

    let third = handle_key(&mut session, &mut app, Key::Char('a'));
    assert!(third.effects.is_empty());
    assert_eq!(app.message, "file is already caught up");
}

#[test]
fn accepting_the_file_queues_the_viewed_mark() {
    let mut session = session_with(OLD, NEW);
    let mut app = App::new(Preferences::default(), LogBuffer::new(10));
    app.hunk_index = 1;
    let reaction = handle_key(&mut session, &mut app, Key::Char('A'));
    assert_eq!(reaction.effects.len(), 3);
    assert!(matches!(reaction.effects[2], Effect::QueueMarkViewed { .. }));
    assert_eq!(app.message, "accepted file");
    assert_eq!(app.hunk_index, 0);
    assert_eq!(session.files[0].reviewed, NEW);
    assert_eq!(session.manifest.files[0].reviewed_hash, hash_content(NEW));
}

#[test]
fn navigating_hunks_and_files_stays_in_range() {
    let mut session = session_with(OLD, NEW);
    let mut app = App::new(Preferences::default(), LogBuffer::new(10));
    handle_key(&mut session, &mut app, Key::Char('n'));
    assert_eq!(app.hunk_index, 1);
    handle_key(&mut session, &mut app, Key::Char(']'));
    assert_eq!(app.hunk_index, 1);
    handle_key(&mut session, &mut app, Key::Char('p'));
    assert_eq!(app.hunk_index, 0);
    handle_key(&mut session, &mut app, Key::Char('['));
    assert_eq!(app.hunk_index, 0);
    handle_key(&mut session, &mut app, Key::Down);
    assert_eq!(app.file_index, 0);
    handle_key(&mut session, &mut app, Key::Up);
    assert_eq!(app.file_index, 0);
}

#[test]
fn scrolling_keys_move_the_diff_pane() {
    let mut session = session_with(OLD, NEW);
    let mut app = App::new(Preferences::default(), LogBuffer::new(10));
    handle_key(&mut session, &mut app, Key::Char('d'));
    handle_key(&mut session, &mut app, Key::PageDown);
    assert_eq!(app.diff_vertical_offset, 6);
    handle_key(&mut session, &mut app, Key::Char('u'));
    assert_eq!(app.diff_vertical_offset, 3);
    handle_key(&mut session, &mut app, Key::End);
    assert_eq!(app.diff_vertical_offset, u16::MAX);
    handle_key(&mut session, &mut app, Key::Char('d'));
    assert_eq!(app.diff_vertical_offset, u16::MAX);
    handle_key(&mut session, &mut app, Key::Home);
    assert_eq!(app.diff_vertical_offset, 0);
    handle_key(&mut session, &mut app, Key::Right);
    assert_eq!(app.diff_vertical_offset, 3);
}

#[test]
fn sideways_scrolling_saves_preferences() {
    let mut session = session_with(OLD, NEW);
    let mut app = App::new(Preferences::default(), LogBuffer::new(10));
    let toggle = handle_key(&mut session, &mut app, Key::Char('w'));
    assert!(matches!(toggle.effects[0], Effect::SavePreferences));
    assert_eq!(app.message, "diff mode: mode=scroll x=0");
    assert_eq!(app.logs.entries(), vec!["changed diff mode: mode=scroll x=0"]);
    let right = handle_key(&mut session, &mut app, Key::Char('l'));
    assert!(matches!(right.effects[0], Effect::SavePreferences));
    assert_eq!(app.prefs.diff_horizontal_offset, 4);
    handle_key(&mut session, &mut app, Key::Left);
    handle_key(&mut session, &mut app, Key::Char('h'));
    assert_eq!(app.prefs.diff_horizontal_offset, 0);
    assert_eq!(app.diff_vertical_offset, 0);
}

#[test]
fn refresh_is_queued_once() {
    let mut session = session_with(OLD, NEW);
    let mut app = App::new(Preferences::default(), LogBuffer::new(10));
    let first = handle_key(&mut session, &mut app, Key::Char('r'));
    assert!(matches!(first.effects[0], Effect::QueueRefresh));
    assert!(app.refresh_pending);
    assert_eq!(app.message, "refresh queued");
    let second = handle_key(&mut session, &mut app, Key::Char('r'));
    assert!(second.effects.is_empty());
    assert_eq!(app.message, "refresh already in progress");
}

#[test]
fn quit_and_other_keys() {
    let mut session = session_with(OLD, NEW);
    let mut app = App::new(Preferences::default(), LogBuffer::new(10));
    let quit = handle_key(&mut session, &mut app, Key::Char('q'));
    assert!(matches!(quit.effects[0], Effect::Quit));
    let other = handle_key(&mut session, &mut app, Key::Char('z'));
    assert!(other.effects.is_empty());
    let other = handle_key(&mut session, &mut app, Key::Other);
    assert!(other.effects.is_empty());
}

#[test]
fn echoes_follow_the_log_flag() {
    let mut session = session_with(OLD, NEW);
    let mut logs = LogBuffer::new(10);
    logs.set_terminal_logging_enabled(true);
    let mut app = App::new(Preferences::default(), logs);
    let reaction = handle_key(&mut session, &mut app, Key::Char('r'));
    assert_eq!(reaction.echoed, vec!["refresh queued"]);
}

#[test]
fn worker_reports_update_the_interface() {
    let mut session = session_with(OLD, NEW);
    let mut app = App::new(Preferences::default(), LogBuffer::new(10));
    app.refresh_pending = true;
    app.pending_marks = 1;
    apply_job_event(&mut session, &mut app, JobEvent::Progress("loading".into()));
    let failed = apply_job_event(
        &mut session,
        &mut app,
        JobEvent::RefreshFinished(Err("boom".into())),
    );
    assert!(failed.effects.is_empty());
    assert!(!app.refresh_pending);
    assert_eq!(app.message, "refresh failed");
    apply_job_event(
        &mut session,
        &mut app,
        JobEvent::MarkFileViewedFinished { path: "f.txt".into(), result: Ok(()) },
    );
    assert_eq!(app.pending_marks, 0);
    apply_job_event(
        &mut session,
        &mut app,
        JobEvent::MarkFileViewedFinished { path: "g.txt".into(), result: Err("nope".into()) },
    );
    assert_eq!(app.pending_marks, 0);
    let done = apply_job_event(&mut session, &mut app, JobEvent::RefreshFinished(Ok(Vec::new())));
    assert!(matches!(done.effects[0], Effect::SaveManifest));
    assert!(session.files.is_empty());
    assert_eq!(app.message, "refresh complete");
    assert_eq!(
        app.logs.entries(),
        vec![
            "loading",
            "refresh failed: boom",
            "marked viewed in GitHub: f.txt",
            "failed to mark viewed in GitHub for g.txt: nope",
            "refresh complete"
        ]
    );
    assert_eq!(
        log_lines(&app),
        vec![
            "refresh failed: boom",
            "marked viewed in GitHub: f.txt",
            "failed to mark viewed in GitHub for g.txt: nope",
            "refresh complete"
        ]
    );
}

#[test]
fn panes_show_the_selected_hunk() {
    let session = session_with("a\nb\nc\n", "a\nx\nc\n");
    let app = App::new(Preferences::default(), LogBuffer::new(10));
    let rows = diff_rows(&session, &app);
    let shown: Vec<(RowKind, &str)> = rows.iter().map(|r| (r.kind, r.text.as_str())).collect();
    assert_eq!(
        shown,
        vec![
            (RowKind::Heading, "1 hunk remaining"),
            (RowKind::Equal, " a"),
            (RowKind::Delete, "-b"),
            (RowKind::Insert, "+x"),
            (RowKind::Equal, " c"),
        ]
    );
    assert_eq!(file_row_label(&session.files[0]), "[ ] f.txt (1 hunk)");
    assert_eq!(diff_title(&app), "Reviewed -> Current y=0");
    assert!(help_text(&app).ends_with("  mode=wrap  refresh=idle marks=0  "));
}

#[test]
fn panes_without_work() {
    let session = session_with("same\n", "same\n");
    let mut app = App::new(Preferences::default(), LogBuffer::new(10));
    let rows = diff_rows(&session, &app);
    assert_eq!(rows.len(), 1);
    assert_eq!(rows[0].kind, RowKind::Note);
    assert_eq!(rows[0].text, "File caught up to latest PR content");
    assert_eq!(file_row_label(&session.files[0]), "[x] f.txt");
    app.file_index = 3;
    let rows = diff_rows(&session, &app);
    assert_eq!(rows[0].text, "No files");
}

#[test]
fn scrolled_rows_start_at_the_offset() {
    let session = session_with("a\nbcdef\n", "a\nxyz\n");
    let app = App::new(
        Preferences { diff_view_mode: DiffViewMode::Scroll, diff_horizontal_offset: 2 },
        LogBuffer::new(10),
    );
    let rows = diff_rows(&session, &app);
    let texts: Vec<&str> = rows.iter().map(|r| r.text.as_str()).collect();
    assert_eq!(texts, vec!["1 hunk remaining", "", "cdef", "yz"]);
}

#[test]
fn scrolling_down_then_up_returns_to_the_same_offset() {
    let mut app = App::new(Preferences::default(), LogBuffer::new(5));
    app.diff_vertical_offset = 10;
    scroll_diff_down(&mut app);
    scroll_diff_up(&mut app);
    assert_eq!(app.diff_vertical_offset, 10);
    app.diff_vertical_offset = u16::MAX - 1;
    scroll_diff_down(&mut app);
    assert_eq!(app.diff_vertical_offset, u16::MAX);
    scroll_diff_up(&mut app);
    assert_eq!(app.diff_vertical_offset, u16::MAX - 3);
}

#[test]
fn clamped_index_is_idempotent() {
    let mut app = App::new(Preferences::default(), LogBuffer::new(5));
    app.hunk_index = 7;
    clamp_hunk_index(&mut app, 4);
    assert_eq!(app.hunk_index, 3);
    clamp_hunk_index(&mut app, 4);
    assert_eq!(app.hunk_index, 3);
}

#[test]
fn j_and_k_move_the_file_selection() {
    let mut session = session_with(OLD, NEW);
    let mut second = session.files[0].clone();
    second.meta.path = "g.txt".into();
    let mut files = vec![session.files[0].clone(), second];
    session.apply_refreshed_files(std::mem::take(&mut files));
    let mut app = App::new(Preferences::default(), LogBuffer::new(10));
    app.hunk_index = 1;
    app.diff_vertical_offset = 9;
    let moved = handle_key(&mut session, &mut app, Key::Char('j'));
    assert!(moved.effects.is_empty());
    assert_eq!(app.file_index, 1);
    assert_eq!(app.hunk_index, 0);
    assert_eq!(app.diff_vertical_offset, 0);
    handle_key(&mut session, &mut app, Key::Char('j'));
    assert_eq!(app.file_index, 1);
    handle_key(&mut session, &mut app, Key::Char('k'));
    assert_eq!(app.file_index, 0);
    handle_key(&mut session, &mut app, Key::Char('k'));
    assert_eq!(app.file_index, 0);
}

#[test]
fn help_lists_the_keys() {
    let app = App::new(Preferences::default(), LogBuffer::new(10));
    assert!(help_text(&app).starts_with("j/k/Up/Down file  [/]/n/p hunk  d/u/h/l diff scroll"));
}
