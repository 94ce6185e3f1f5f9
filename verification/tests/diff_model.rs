use better_review::diff_model::{apply_hunk, hunks, DiffLine, Hunk};

#[test]
fn apply_insert_hunk() {
    let old = "a\nc\n";
    let new = "a\nb\nc\n";
    let h = hunks(old, new);
    assert_eq!(apply_hunk(old, &h[0]), new);
}

#[test]
fn apply_delete_hunk() {
    let old = "a\nb\nc\n";
    let new = "a\nc\n";
    let h = hunks(old, new);
    assert_eq!(apply_hunk(old, &h[0]), new);
}

#[test]
fn apply_replace_hunk() {
    let old = "a\nb\nc\n";
    let new = "a\nx\nc\n";
    let h = hunks(old, new);
    assert_eq!(apply_hunk(old, &h[0]), new);
}

#[test]
fn accepting_one_hunk_leaves_other_delta() {
    let old = "a\nb\nc\nd\ne\nf\ng\nh\ni\nj\nk\nl\nm\nn\no\n";
    let new = "a\nB\nc\nd\ne\nf\ng\nh\ni\nj\nk\nl\nm\nn\nO\n";
    let h = hunks(old, new);
    assert_eq!(h.len(), 2);
    let partially = apply_hunk(old, &h[0]);
    assert_ne!(partially, new);
    assert_eq!(hunks(&partially, new).len(), 1);
}

#[test]
fn identical_texts_have_no_hunks() {
    assert!(hunks("a\nb\n", "a\nb\n").is_empty());
    assert!(hunks("", "").is_empty());
}

#[test]
fn hunk_lines_keep_context_and_terminators() {
    let h = hunks("a\nb\nc\n", "a\nx\nc\n");
    assert_eq!(h.len(), 1);
    assert_eq!(
        h[0],
        Hunk {
            old_start: 0,
            lines: vec![
                DiffLine::Equal("a\n".into()),
                DiffLine::Delete("b\n".into()),
                DiffLine::Insert("x\n".into()),
                DiffLine::Equal("c\n".into()),
            ],
        }
    );
}

#[test]
fn applying_a_hunk_by_hand_replaces_its_old_side() {
    let hunk = Hunk {
        old_start: 1,
        lines: vec![
            DiffLine::Equal("b\n".into()),
            DiffLine::Delete("c\n".into()),
            DiffLine::Insert("C\n".into()),
            DiffLine::Insert("D\n".into()),
        ],
    };
    assert_eq!(apply_hunk("a\nb\nc\nd\n", &hunk), "a\nb\nC\nD\nd\n");
}

#[test]
fn a_last_line_without_newline_gains_one_when_replaced() {
    // The diff reports each line with a line feed, also a last line that has
    // none, so the replaced last line comes out with one.
    let old = "a\nb";
    let new = "a\nc";
    let h = hunks(old, new);
    assert_eq!(apply_hunk(old, &h[0]), "a\nc\n");
}

#[test]
fn a_hunk_applies_at_its_own_place_when_its_lines_recur() {
    let old = "c\nc\nc\nX\nm\nc\nc\nc\nX\n";
    let new = "c\nc\nc\nX\nm\nc\nc\nc\n";
    let h = hunks(old, new);
    assert_eq!(h.len(), 1);
    assert_eq!(h[0].old_start, 5);
    assert_eq!(apply_hunk(old, &h[0]), new);
}

#[test]
fn a_hunk_starting_past_the_end_appends() {
    let hunk = Hunk {
        old_start: 9,
        lines: vec![DiffLine::Insert("z\n".into())],
    };
    assert_eq!(apply_hunk("a\n", &hunk), "a\nz\n");
}

#[test]
fn hunks_near_each_other_apply_one_at_a_time() {
    let old = "1\n2\n3\n4\n5\n6\n7\n8\n9\n10\n";
    let new = "1\nTWO\n3\n4\n5\n6\n7\n8\nNINE\n10\n";
    let h = hunks(old, new);
    let mut text = old.to_string();
    while let Some(first) = hunks(&text, new).into_iter().next() {
        text = apply_hunk(&text, &first);
    }
    assert_eq!(text, new);
    assert!(!h.is_empty());
}
