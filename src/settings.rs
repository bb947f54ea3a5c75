use vstd::prelude::*;

use crate::shortcut::{default_bindings, has_duplicates, AllShortcuts, BindingView};

verus! {

/// Where an editing session of the shortcut table stands.
#[derive(Clone, Copy, Debug, PartialEq, Eq, Structural)]
pub enum EditState {
    /// No session: the candidate table is not shown.
    Idle,
    /// The candidate table is being edited.
    Editing,
    /// A save was refused because of conflicting combinations; the error is
    /// shown and editing goes on.
    Rejected,
}

/// The model of `ShortcutSettings`.
pub struct SettingsView {
    pub live: Seq<BindingView>,
    pub candidate: Seq<BindingView>,
    pub state: EditState,
}

/// The live shortcut table and the candidate copy that the user edits; the
/// live table changes only by a save of a conflict-free candidate.
pub struct ShortcutSettings {
    live: AllShortcuts,
    candidate: AllShortcuts,
    state: EditState,
}

impl View for ShortcutSettings {
    type V = SettingsView;

    closed spec fn view(&self) -> SettingsView {
        SettingsView {
            live: self.live.bindings(),
            candidate: self.candidate.bindings(),
            state: self.state,
        }
    }
}

impl ShortcutSettings {
    /// The default table, live, and no session.
    pub fn new() -> (r: ShortcutSettings)
        ensures
            r@ == (SettingsView {
                live: default_bindings(),
                candidate: default_bindings(),
                state: EditState::Idle,
            }),
    {
        ShortcutSettings {
            live: AllShortcuts::default(),
            candidate: AllShortcuts::default(),
            state: EditState::Idle,
        }
    }

    pub fn state(&self) -> (r: EditState)
        ensures
            r == self@.state,
    {
        self.state
    }

    /// The table that dispatch uses.
    pub fn live(&self) -> (r: &AllShortcuts)
        ensures
            r.bindings() == self@.live,
    {
        &self.live
    }

    /// The table being edited.
    pub fn candidate(&self) -> (r: &AllShortcuts)
        ensures
            r.bindings() == self@.candidate,
    {
        &self.candidate
    }

    /// Edits the candidate table; the live table is untouched.
    pub fn candidate_mut(&mut self) -> (r: &mut AllShortcuts)
        ensures
            r.bindings() == old(self)@.candidate,
            final(self)@ == (SettingsView { candidate: final(r).bindings(), ..old(self)@ }),
    {
        &mut self.candidate
    }

    /// Starts a session on a fresh copy of the live table.
    pub fn open(&mut self)
        ensures
            old(self)@.state == EditState::Idle ==> final(self)@ == (SettingsView {
                candidate: old(self)@.live,
                state: EditState::Editing,
                ..old(self)@
            }),
            old(self)@.state != EditState::Idle ==> final(self)@ == old(self)@,
    {
        if self.state == EditState::Idle {
            self.candidate = self.live.copy();
            self.state = EditState::Editing;
        }
    }

    /// Commits the candidate table if no two of its bindings share a
    /// combination, and ends the session; otherwise keeps the live table,
    /// shows the error and stays in the session. Returns whether it committed.
    pub fn save(&mut self) -> (r: bool)
        ensures
            old(self)@.state == EditState::Idle ==> !r && final(self)@ == old(self)@,
            old(self)@.state != EditState::Idle ==> r == !has_duplicates(old(self)@.candidate),
            old(self)@.state != EditState::Idle && r ==> final(self)@ == (SettingsView {
                live: old(self)@.candidate,
                state: EditState::Idle,
                ..old(self)@
            }),
            old(self)@.state != EditState::Idle && !r ==> final(self)@ == (SettingsView {
                state: EditState::Rejected,
                ..old(self)@
            }),
    {
        if self.state == EditState::Idle {
            return false;
        }
        if self.candidate.has_duplicate_shortcuts() {
            self.state = EditState::Rejected;
            false
        } else {
            self.live = self.candidate.copy();
            self.state = EditState::Idle;
            true
        }
    }

    /// Hides the conflict error and goes on editing.
    pub fn dismiss_error(&mut self)
        ensures
            old(self)@.state == EditState::Rejected ==> final(self)@ == (SettingsView {
                state: EditState::Editing,
                ..old(self)@
            }),
            old(self)@.state != EditState::Rejected ==> final(self)@ == old(self)@,
    {
        if self.state == EditState::Rejected {
            self.state = EditState::Editing;
        }
    }

    /// Ends the session without committing; the next session starts from the
    /// live table again.
    pub fn close(&mut self)
        ensures
            final(self)@ == (SettingsView { state: EditState::Idle, ..old(self)@ }),
    {
        self.state = EditState::Idle;
    }
}

} // verus!
