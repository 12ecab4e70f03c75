//! The File tab: the file commands and the log of recent file actions.

use vstd::prelude::*;
use crate::tui::communication::FileAction;

verus! {

/// State of the File tab.
#[derive(Debug, Clone)]
pub struct FileState {
    pub selected_index: usize,
    pub file_actions: Vec<FileAction>,
}

/// The most recent file actions kept: at most ten.
pub open spec fn keep_recent(actions: Seq<FileAction>) -> Seq<FileAction> {
    if actions.len() > 10 {
        actions.drop_first()
    } else {
        actions
    }
}

impl FileState {
    /// Nothing selected, no actions yet.
    pub fn new() -> (r: Self)
        ensures
            r.selected_index == 0,
            r.file_actions@ == Seq::<FileAction>::empty(),
    {
        FileState { selected_index: 0, file_actions: Vec::new() }
    }

    /// Record a file action, dropping the oldest beyond ten.
    pub fn add_file_action(&mut self, action: FileAction)
        ensures
            final(self).file_actions@ == keep_recent(old(self).file_actions@.push(action)),
            final(self).selected_index == old(self).selected_index,
            old(self).file_actions@.len() <= 10 ==> final(self).file_actions@.len() <= 10,
    {
        self.file_actions.push(action);
        if self.file_actions.len() > 10 {
            self.file_actions.remove(0);
            assert(self.file_actions@ =~= keep_recent(old(self).file_actions@.push(action)));
        }
    }
}

impl Default for FileState {
    fn default() -> (r: Self)
        ensures
            r.selected_index == 0,
            r.file_actions@ == Seq::<FileAction>::empty(),
    {
        FileState::new()
    }
}

/// The action log keeps the ten most recent actions: after any action, the
/// newest is last and at most ten remain.
pub proof fn action_log_keeps_ten_most_recent(actions: Seq<FileAction>, action: FileAction)
    requires
        actions.len() <= 10,
    ensures
        keep_recent(actions.push(action)).len() <= 10,
        keep_recent(actions.push(action)).last() == action,
        actions.len() < 10 ==> keep_recent(actions.push(action)) == actions.push(action),
{
}

} // verus!
