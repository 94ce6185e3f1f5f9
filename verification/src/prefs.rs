//! How the diff pane is shown: wrapped, or scrolled sideways by an offset.
use vstd::prelude::*;

verus! {

/// Whether long diff lines wrap or the pane scrolls sideways.
#[derive(Debug, Clone, Copy, PartialEq, Eq, Structural)]
pub enum DiffViewMode {
    Wrap,
    Scroll,
}

/// The viewer's saved display preferences.
#[derive(Debug, Clone, Copy, PartialEq, Eq, Structural)]
pub struct Preferences {
    pub diff_view_mode: DiffViewMode,
    pub diff_horizontal_offset: usize,
}

/// The other display mode.
pub open spec fn other_mode(mode: DiffViewMode) -> DiffViewMode {
    match mode {
        DiffViewMode::Wrap => DiffViewMode::Scroll,
        DiffViewMode::Scroll => DiffViewMode::Wrap,
    }
}

/// The preferences with the other display mode and the same offset.
pub open spec fn toggled(prefs: Preferences) -> Preferences {
    Preferences {
        diff_view_mode: other_mode(prefs.diff_view_mode),
        diff_horizontal_offset: prefs.diff_horizontal_offset,
    }
}

impl Default for Preferences {
    /// Wrapped lines, no sideways offset.
    fn default() -> (prefs: Self)
        ensures
            prefs.diff_view_mode == DiffViewMode::Wrap,
            prefs.diff_horizontal_offset == 0,
    {
        Preferences { diff_view_mode: DiffViewMode::Wrap, diff_horizontal_offset: 0 }
    }
}

impl Preferences {
    /// Switches between wrapping and sideways scrolling; the offset is kept.
    pub fn toggle_diff_mode(&mut self)
        ensures
            *final(self) == toggled(*old(self)),
    {
        self.diff_view_mode = match self.diff_view_mode {
            DiffViewMode::Wrap => DiffViewMode::Scroll,
            DiffViewMode::Scroll => DiffViewMode::Wrap,
        };
    }
}

/// Toggling the display mode twice gives back the preferences one started
/// with.
pub proof fn lemma_toggle_twice_restores(prefs: Preferences)
    ensures
        toggled(toggled(prefs)) == prefs,
        toggled(prefs) != prefs,
{
}

} // verus!
