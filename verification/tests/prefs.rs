use better_review::prefs::{DiffViewMode, Preferences};

#[test]
fn default_preferences_wrap_without_offset() {
    let prefs = Preferences::default();
    assert_eq!(prefs.diff_view_mode, DiffViewMode::Wrap);
    assert_eq!(prefs.diff_horizontal_offset, 0);
}

#[test]
fn toggling_switches_mode_and_keeps_offset() {
    let mut prefs = Preferences {
        diff_view_mode: DiffViewMode::Wrap,
        diff_horizontal_offset: 12,
    };
    prefs.toggle_diff_mode();
    assert_eq!(prefs.diff_view_mode, DiffViewMode::Scroll);
    assert_eq!(prefs.diff_horizontal_offset, 12);
    prefs.toggle_diff_mode();
    assert_eq!(
        prefs,
        Preferences {
            diff_view_mode: DiffViewMode::Wrap,
            diff_horizontal_offset: 12,
        }
    );
}
