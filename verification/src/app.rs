//! The navigation state machine of the directory browser.
//!
//! [`App`] owns the current path, the ordered entry listing, the selection
//! cursor, the error overlay and the detail overlay. Every mutation funnels
//! through the command surface below. Directory reads happen outside the
//! library: a command that requires a re-read reports so through its return
//! value, and the caller hands the outcome back through
//! [`App::load_snapshot`].
//!
//! Each executable transition is pinned to a specification-level transition
//! over the abstract state [`StateV`]; the laws about the machine (invariant
//! preservation, idempotence, the descend/ascend round trip) are stated and
//! proved over those transitions in [`crate::laws`].

use vstd::math::{max, min};
use vstd::prelude::*;

use crate::file_types::FileType;

verus! {

/// One child of a directory: its kind and its name, decided at snapshot time.
///
/// Entries keep the order in which the filesystem yielded them; the displayed
/// order and the selection index always refer to this same ordering.
#[derive(Debug)]
pub struct Entry {
    pub kind: FileType,
    pub name: String,
}

/// The abstract value of an [`Entry`].
#[verifier::ext_equal]
pub ghost struct EntryV {
    pub kind: FileType,
    pub name: Seq<char>,
}

impl View for Entry {
    type V = EntryV;

    open spec fn view(&self) -> EntryV {
        EntryV { kind: self.kind, name: self.name@ }
    }
}

impl DeepView for Entry {
    type V = EntryV;

    open spec fn deep_view(&self) -> EntryV {
        self.view()
    }
}

/// The outcome of one directory read: either the ordered entry list, or the
/// platform's diagnostic message when the directory could not be opened at
/// all. A child that could not be decoded contributes no entry and is no
/// error; only a failure to enumerate the directory itself is one.
pub enum SnapshotResult {
    Listed(Vec<Entry>),
    Failed(String),
}

/// An abstract, already-decoded user intent, one per key press. Mapping of
/// physical keys to commands is the input collaborator's responsibility.
#[derive(Clone, Copy, Debug, PartialEq, Eq, Structural)]
pub enum Command {
    MoveSelectionDown,
    MoveSelectionUp,
    Descend,
    Ascend,
    Confirm,
    Quit,
}

/// The abstract state of the browser: the value of an [`App`].
///
/// `path` is the current absolute directory as its sequence of components
/// (empty at the filesystem root). `selected` is the cursor into `entries`,
/// absent exactly when `entries` is empty. A non-empty `error` or a true
/// `show_details` each denote an active overlay; at most one is active at a
/// time, error taking precedence.
#[verifier::ext_equal]
pub ghost struct StateV {
    pub running: bool,
    pub path: Seq<Seq<char>>,
    pub entries: Seq<EntryV>,
    pub selected: Option<int>,
    pub error: Seq<char>,
    pub show_details: bool,
}

/// The selection cursor is in bounds whenever entries exist, and absent
/// exactly when the listing is empty.
pub open spec fn selection_in_bounds(s: StateV) -> bool {
    match s.selected {
        Some(i) => s.entries.len() > 0 && 0 <= i < s.entries.len(),
        None => s.entries.len() == 0,
    }
}

/// The error overlay and the detail overlay never both hold: at most one
/// overlay is shown at a time, error taking precedence.
pub open spec fn overlays_exclusive(s: StateV) -> bool {
    !(s.error.len() > 0 && s.show_details)
}

/// An active error implies an empty listing: the machine never holds both a
/// populated entry list and an error.
pub open spec fn error_implies_empty(s: StateV) -> bool {
    s.error.len() > 0 ==> s.entries.len() == 0
}

/// The state invariant of the machine: every reachable state satisfies it.
pub open spec fn state_inv(s: StateV) -> bool {
    &&& selection_in_bounds(s)
    &&& overlays_exclusive(s)
    &&& error_implies_empty(s)
}

/// Navigation is frozen while an overlay (error or detail) is active.
pub open spec fn nav_locked(s: StateV) -> bool {
    s.error.len() > 0 || s.show_details
}

/// Moving the cursor down: increment clamped to the last entry; a no-op when
/// navigation is locked, the listing is empty, or no cursor is present.
pub open spec fn spec_select_next(s: StateV) -> StateV {
    if nav_locked(s) || s.entries.len() == 0 {
        s
    } else {
        match s.selected {
            Some(i) => StateV { selected: Some(min(i + 1, s.entries.len() - 1)), ..s },
            None => s,
        }
    }
}

/// Moving the cursor up: decrement floored at the first entry; a no-op when
/// navigation is locked or no cursor is present.
pub open spec fn spec_select_prev(s: StateV) -> StateV {
    if nav_locked(s) {
        s
    } else {
        match s.selected {
            Some(i) => StateV { selected: Some(max(i - 1, 0)), ..s },
            None => s,
        }
    }
}

/// The name of the directory a descend would enter: present exactly when
/// navigation is unlocked and the cursor rests on a directory entry.
pub open spec fn descend_target(s: StateV) -> Option<Seq<char>> {
    if nav_locked(s) {
        None
    } else {
        match s.selected {
            Some(i) => if 0 <= i < s.entries.len() && s.entries[i].kind == FileType::DIR {
                Some(s.entries[i].name)
            } else {
                None
            },
            None => None,
        }
    }
}

/// Descending: the selected directory's name is appended to the path and the
/// stale listing is dropped, pending a fresh snapshot; a no-op on a file,
/// symlink or other entry, on an absent cursor, or under an active overlay.
pub open spec fn spec_descend(s: StateV) -> StateV {
    match descend_target(s) {
        Some(name) => StateV {
            path: s.path.push(name),
            entries: Seq::empty(),
            selected: None,
            ..s
        },
        None => s,
    }
}

/// Whether an ascend performs a directory read: only when navigation is
/// unlocked and the current path has a parent.
pub open spec fn spec_ascend_reads(s: StateV) -> bool {
    !nav_locked(s) && s.path.len() > 0
}

/// Ascending: the last path component is removed and the stale listing is
/// dropped, pending a fresh snapshot; a no-op at the filesystem root or under
/// an active overlay.
pub open spec fn spec_ascend(s: StateV) -> StateV {
    if spec_ascend_reads(s) {
        StateV { path: s.path.drop_last(), entries: Seq::empty(), selected: None, ..s }
    } else {
        s
    }
}

/// Activating the detail overlay: only when the cursor rests on an entry.
pub open spec fn spec_activate_details(s: StateV) -> StateV {
    match s.selected {
        Some(i) => if 0 <= i < s.entries.len() {
            StateV { show_details: true, ..s }
        } else {
            s
        },
        None => s,
    }
}

/// Confirming, in priority order: an active error is cleared and the machine
/// ascends to a known-good parent; else an active detail overlay is
/// dismissed; else the detail overlay is activated for the selected entry.
pub open spec fn spec_confirm(s: StateV) -> StateV {
    if s.error.len() > 0 {
        spec_ascend(StateV { error: Seq::empty(), ..s })
    } else if s.show_details {
        StateV { show_details: false, ..s }
    } else {
        spec_activate_details(s)
    }
}

/// Whether a confirm performs a directory read: only when it clears an error
/// and the ascend that follows has a parent to go to.
pub open spec fn spec_confirm_reads(s: StateV) -> bool {
    s.error.len() > 0 && spec_ascend_reads(StateV { error: Seq::empty(), ..s })
}

/// Installing one snapshot outcome. A listing replaces the entries wholesale
/// and rests the cursor on the first entry (absent when empty). A failure
/// empties the listing, drops the cursor, records the diagnostic as the
/// active error and forces the detail overlay off.
pub open spec fn spec_load_listed(s: StateV, entries: Seq<EntryV>) -> StateV {
    StateV {
        entries: entries,
        selected: if entries.len() > 0 { Some(0int) } else { None },
        ..s
    }
}

/// See [`spec_load_listed`]: the failure half of installing a snapshot.
pub open spec fn spec_load_failed(s: StateV, message: Seq<char>) -> StateV {
    StateV {
        entries: Seq::empty(),
        selected: None,
        error: message,
        show_details: false,
        ..s
    }
}

/// Installing a [`SnapshotResult`], by its variant.
pub open spec fn spec_load(s: StateV, r: SnapshotResult) -> StateV {
    match r {
        SnapshotResult::Listed(v) => spec_load_listed(s, v.deep_view()),
        SnapshotResult::Failed(m) => spec_load_failed(s, m@),
    }
}

/// The state at startup: a fresh, running browser at `path` with the outcome
/// of the initial snapshot of that directory installed.
pub open spec fn spec_init(path: Seq<Seq<char>>, r: SnapshotResult) -> StateV {
    spec_load(
        StateV {
            running: true,
            path: path,
            entries: Seq::empty(),
            selected: None,
            error: Seq::empty(),
            show_details: false,
        },
        r,
    )
}

/// Applying one command to the abstract state.
pub open spec fn spec_apply(s: StateV, cmd: Command) -> StateV {
    match cmd {
        Command::MoveSelectionDown => spec_select_next(s),
        Command::MoveSelectionUp => spec_select_prev(s),
        Command::Descend => spec_descend(s),
        Command::Ascend => spec_ascend(s),
        Command::Confirm => spec_confirm(s),
        Command::Quit => StateV { running: false, ..s },
    }
}

/// Whether applying `cmd` leaves a directory read owed: the caller must then
/// snapshot the (new) current directory and install the outcome through
/// [`App::load_snapshot`].
pub open spec fn spec_needs_read(s: StateV, cmd: Command) -> bool {
    match cmd {
        Command::Descend => descend_target(s) is Some,
        Command::Ascend => spec_ascend_reads(s),
        Command::Confirm => spec_confirm_reads(s),
        _ => false,
    }
}

/// The browser: one value of this type models the whole session state.
pub struct App {
    /// Is the session still running? Cleared by [`Command::Quit`].
    pub running: bool,
    /// The current absolute directory, as its ordered components; empty at
    /// the filesystem root.
    pub path: Vec<String>,
    /// The active error diagnostic; empty when no error overlay is shown.
    pub error: String,
    /// The selection cursor into the entry listing; absent exactly when the
    /// listing is empty.
    pub selected: Option<usize>,
    items: Vec<Entry>,
    /// Is the detail overlay for the selected entry shown?
    pub show_details: bool,
}

impl View for App {
    type V = StateV;

    closed spec fn view(&self) -> StateV {
        StateV {
            running: self.running,
            path: self.path.deep_view(),
            entries: self.items.deep_view(),
            selected: match self.selected {
                Some(i) => Some(i as int),
                None => None,
            },
            error: self.error@,
            show_details: self.show_details,
        }
    }
}

impl App {
    /// The state invariant, at the concrete type.
    pub open spec fn wf(self) -> bool {
        state_inv(self@)
    }

    /// Constructs the browser at `path`, installing the outcome of the
    /// initial snapshot of that directory.
    pub fn new(path: Vec<String>, snapshot: SnapshotResult) -> (app: App)
        ensures
            app@ == spec_init(path.deep_view(), snapshot),
            app.wf(),
    {
        let mut app = App {
            running: true,
            path,
            error: String::new(),
            selected: None,
            items: Vec::new(),
            show_details: false,
        };
        app.load_snapshot(snapshot);
        app
    }

    /// Handles the tick event of the terminal.
    pub fn tick(&self) {
    }

    /// Ends the session: no further commands are applied after this.
    pub fn quit(&mut self)
        ensures
            final(self)@ == (StateV { running: false, ..old(self)@ }),
    {
        self.running = false;
    }

    /// The current absolute directory, as its ordered components.
    pub fn current_dir(&self) -> (p: &Vec<String>)
        ensures
            p.deep_view() == self@.path,
    {
        &self.path
    }

    /// The entry the cursor rests on, for the detail overlay's metadata
    /// query; an error when no such entry exists.
    pub fn details(&self) -> (r: Result<&Entry, ()>)
        ensures
            (match self@.selected {
                Some(i) => if 0 <= i < self@.entries.len() {
                    r matches Ok(e) && e@ == self@.entries[i]
                } else {
                    r is Err
                },
                None => r is Err,
            }),
    {
        match self.selected {
            Some(index) => {
                if index < self.items.len() {
                    Ok(&self.items[index])
                } else {
                    Err(())
                }
            },
            None => Err(()),
        }
    }

    /// The ordered listing as renderable pairs of kind and name.
    pub fn current_dir_items(&self) -> (items: Vec<(FileType, String)>)
        ensures
            items@.len() == self@.entries.len(),
            forall|i: int|
                0 <= i < items@.len() ==> (#[trigger] items@[i]).0 == self@.entries[i].kind
                    && items@[i].1@ == self@.entries[i].name,
    {
        let mut out: Vec<(FileType, String)> = Vec::new();
        let mut idx: usize = 0;
        while idx < self.items.len()
            invariant
                idx <= self.items.len(),
                out@.len() == idx,
                forall|i: int|
                    0 <= i < idx ==> (#[trigger] out@[i]).0 == self@.entries[i].kind
                        && out@[i].1@ == self@.entries[i].name,
            decreases self.items.len() - idx,
        {
            let e = &self.items[idx];
            out.push((e.kind, e.name.clone()));
            idx = idx + 1;
        }
        out
    }

    /// Is an error overlay active?
    pub fn has_error(&self) -> (b: bool)
        ensures
            b == (self@.error.len() > 0),
    {
        !self.error.as_str().is_empty()
    }

    /// Is navigation frozen by an active overlay?
    fn navigation_locked(&self) -> (b: bool)
        ensures
            b == nav_locked(self@),
    {
        self.has_error() || self.show_details
    }

    /// Moves the cursor one entry down, clamped to the last entry; a no-op
    /// under an active overlay or on an empty listing.
    pub fn select_next_item(&mut self)
        requires
            old(self).wf(),
        ensures
            final(self)@ == spec_select_next(old(self)@),
            final(self).wf(),
    {
        if self.navigation_locked() {
            return;
        }
        let total = self.items.len();
        if total == 0 {
            return;
        }
        match self.selected {
            Some(current) => {
                let new_index = if current + 1 < total {
                    current + 1
                } else {
                    total - 1
                };
                self.selected = Some(new_index);
            },
            None => {},
        }
    }

    /// Moves the cursor one entry up, floored at the first entry; a no-op
    /// under an active overlay or on an empty listing.
    pub fn select_previous_item(&mut self)
        requires
            old(self).wf(),
        ensures
            final(self)@ == spec_select_prev(old(self)@),
            final(self).wf(),
    {
        if self.navigation_locked() {
            return;
        }
        match self.selected {
            Some(current) => {
                let new_index = if current > 0 {
                    current - 1
                } else {
                    0
                };
                self.selected = Some(new_index);
            },
            None => {},
        }
    }

    /// Ascends to the parent directory; a no-op at the filesystem root or
    /// under an active overlay. Returns whether a directory read is owed for
    /// the new current path.
    pub fn go_back(&mut self) -> (needs_read: bool)
        requires
            old(self).wf(),
        ensures
            final(self)@ == spec_ascend(old(self)@),
            needs_read == spec_ascend_reads(old(self)@),
            final(self).wf(),
    {
        if self.navigation_locked() {
            return false;
        }
        if self.path.len() == 0 {
            return false;
        }
        let _ = self.path.pop();
        self.items = Vec::new();
        self.selected = None;
        proof {
            assert(self.path.deep_view() =~= old(self).path.deep_view().drop_last());
            assert(self@ =~= spec_ascend(old(self)@));
        }
        true
    }

    /// Descends into the selected entry when it is a directory; a no-op on
    /// any other kind of entry, on an absent cursor, or under an active
    /// overlay. Returns whether a directory read is owed for the new current
    /// path.
    pub fn go_into(&mut self) -> (needs_read: bool)
        requires
            old(self).wf(),
        ensures
            final(self)@ == spec_descend(old(self)@),
            needs_read == (descend_target(old(self)@) is Some),
            final(self).wf(),
    {
        if self.navigation_locked() {
            return false;
        }
        match self.selected {
            Some(index) => {
                if index < self.items.len() {
                    let is_dir = self.items[index].kind == FileType::DIR;
                    if is_dir {
                        let name = self.items[index].name.clone();
                        self.path.push(name);
                        self.items = Vec::new();
                        self.selected = None;
                        proof {
                            assert(self.path.deep_view() =~= old(self).path.deep_view().push(
                                old(self)@.entries[index as int].name,
                            ));
                            assert(self@ =~= spec_descend(old(self)@));
                        }
                        true
                    } else {
                        false
                    }
                } else {
                    false
                }
            },
            None => false,
        }
    }

    /// Acknowledges or requests an overlay, in priority order: an active
    /// error is cleared and the machine ascends to a known-good parent; else
    /// an active detail overlay is dismissed; else the detail overlay is
    /// activated for the selected entry. Returns whether a directory read is
    /// owed for the new current path.
    pub fn confirm(&mut self) -> (needs_read: bool)
        requires
            old(self).wf(),
        ensures
            final(self)@ == spec_confirm(old(self)@),
            needs_read == spec_confirm_reads(old(self)@),
            final(self).wf(),
    {
        if self.has_error() {
            self.clear_error()
        } else if self.show_details {
            self.hide_details();
            false
        } else {
            self.activate_details();
            false
        }
    }

    /// Clears the active error and ascends to a known-good parent.
    fn clear_error(&mut self) -> (needs_read: bool)
        requires
            old(self).wf(),
            old(self)@.error.len() > 0,
        ensures
            final(self)@ == spec_confirm(old(self)@),
            needs_read == spec_confirm_reads(old(self)@),
            final(self).wf(),
    {
        self.error = String::new();
        assert(self@ =~= (StateV { error: Seq::empty(), ..old(self)@ }));
        self.go_back()
    }

    /// Dismisses the detail overlay.
    fn hide_details(&mut self)
        ensures
            final(self)@ == (StateV { show_details: false, ..old(self)@ }),
    {
        self.show_details = false;
    }

    /// Activates the detail overlay when the cursor rests on an entry.
    fn activate_details(&mut self)
        ensures
            final(self)@ == spec_activate_details(old(self)@),
    {
        match self.selected {
            Some(index) => {
                if index < self.items.len() {
                    self.show_details = true;
                }
            },
            None => {},
        }
    }

    /// Installs the outcome of the directory read owed after a command
    /// reported one: a listing replaces the entries and rests the cursor on
    /// the first entry; a failure empties the listing and raises the error
    /// overlay. Reads are only owed while navigation is unlocked.
    pub fn load_snapshot(&mut self, snapshot: SnapshotResult)
        requires
            old(self).wf(),
            !nav_locked(old(self)@),
        ensures
            final(self)@ == spec_load(old(self)@, snapshot),
            final(self).wf(),
    {
        match snapshot {
            SnapshotResult::Listed(list) => {
                let has_entries = list.len() > 0;
                self.items = list;
                self.selected = if has_entries {
                    Some(0)
                } else {
                    None
                };
            },
            SnapshotResult::Failed(message) => {
                self.show_details = false;
                self.error = message;
                self.items = Vec::new();
                self.selected = None;
                proof {
                    assert(self@ =~= spec_load(old(self)@, snapshot));
                }
            },
        }
    }

    /// Applies one decoded command. Returns whether a directory read is owed
    /// for the (new) current path; the caller performs it and hands the
    /// outcome to [`App::load_snapshot`].
    pub fn apply(&mut self, cmd: Command) -> (needs_read: bool)
        requires
            old(self).wf(),
        ensures
            final(self)@ == spec_apply(old(self)@, cmd),
            needs_read == spec_needs_read(old(self)@, cmd),
            final(self).wf(),
    {
        match cmd {
            Command::MoveSelectionDown => {
                self.select_next_item();
                false
            },
            Command::MoveSelectionUp => {
                self.select_previous_item();
                false
            },
            Command::Descend => self.go_into(),
            Command::Ascend => self.go_back(),
            Command::Confirm => self.confirm(),
            Command::Quit => {
                self.quit();
                false
            },
        }
    }
}

} // verus!
