use vstd::prelude::*;

verus! {

/// The view state of the window: the chosen repository, the text of the
/// filter box and the status message.
#[derive(Debug)]
pub struct Storage {
    pub repo_path: String,
    pub filter_text: String,
    pub message: String,
}

/// The text that introduces the current repository in the menu bar.
pub open spec fn repo_label_prefix() -> Seq<char> {
    seq!['C', 'u', 'r', 'r', 'e', 'n', 't', ' ', 'R', 'e', 'p', 'o', ':', ' ']
}

impl Storage {
    /// A state with no repository chosen, an empty filter and no message.
    pub fn new() -> (r: Storage)
        ensures
            r.repo_path@.len() == 0,
            r.filter_text@.len() == 0,
            r.message@.len() == 0,
    {
        Storage { repo_path: String::new(), filter_text: String::new(), message: String::new() }
    }

    /// Records the outcome of the "Open" action: a chosen repository becomes
    /// the current one and clears the message; a rejection becomes the
    /// message and keeps the current repository; no selection changes nothing.
    pub fn apply_pick(&mut self, outcome: Result<Option<String>, String>)
        ensures
            match outcome {
                Ok(Some(p)) => final(self).repo_path@ == p@ && final(self).message@.len() == 0,
                Ok(None) => final(self).repo_path@ == old(self).repo_path@
                    && final(self).message@ == old(self).message@,
                Err(e) => final(self).repo_path@ == old(self).repo_path@
                    && final(self).message@ == e@,
            },
            final(self).filter_text@ == old(self).filter_text@,
    {
        match outcome {
            Ok(Some(p)) => {
                self.repo_path = p;
                self.message = String::new();
            },
            Ok(None) => {},
            Err(e) => {
                self.message = e;
            },
        }
    }

    /// The menu bar's text for the current repository: "Current Repo: "
    /// followed by its path.
    pub fn repo_label(&self) -> (r: String)
        ensures
            r@ == repo_label_prefix() + self.repo_path@,
    {
        let prefix = String::from_str("Current Repo: ");
        proof {
            reveal_strlit("Current Repo: ");
        }
        assert(prefix@ =~= repo_label_prefix());
        prefix.concat(self.repo_path.as_str())
    }
}

impl Default for Storage {
    fn default() -> (r: Storage)
        ensures
            r.repo_path@.len() == 0,
            r.filter_text@.len() == 0,
            r.message@.len() == 0,
    {
        Storage::new()
    }
}

} // verus!
