use vstd::prelude::*;

verus! {

/// The name of the entry whose presence marks a directory as a Git repository.
pub open spec fn git_marker() -> Seq<char> {
    seq!['.', 'g', 'i', 't']
}

/// Whether one of the entry names is the Git marker.
pub open spec fn has_git_entry(entries: Seq<Seq<char>>) -> bool {
    exists|i: int| 0 <= i < entries.len() && #[trigger] entries[i] == git_marker()
}

/// Whether any of the given directory entry names is `.git`.
pub fn contains_git_entry(entries: &Vec<String>) -> (r: bool)
    ensures
        r == has_git_entry(entries.deep_view()),
{
    let marker = String::from_str(".git");
    proof {
        reveal_strlit(".git");
    }
    assert(marker@ =~= git_marker());
    let mut i: usize = 0;
    while i < entries.len()
        invariant
            i <= entries.len(),
            marker@ == git_marker(),
            forall|j: int| 0 <= j < i ==> #[trigger] entries.deep_view()[j] != git_marker(),
        decreases entries.len() - i,
    {
        if entries[i] == marker {
            assert(entries.deep_view()[i as int] == git_marker());
            return true;
        }
        i = i + 1;
    }
    false
}

/// The message given when a chosen folder holds no `.git` entry.
pub open spec fn not_repo_message() -> Seq<char> {
    seq!['N', 'o', 't', ' ', 'a', ' ', 'G', 'i', 't', ' ', 'r', 'e', 'p', 'o']
}

/// Accepts `path` as a repository when its directory entries (`entries`, the
/// names of its direct children) include `.git`; otherwise rejects it with
/// the message "Not a Git repo".
pub fn check_git_repo_valid(path: String, entries: &Vec<String>) -> (r: Result<String, String>)
    ensures
        has_git_entry(entries.deep_view()) ==> r is Ok && r->Ok_0@ == path@,
        !has_git_entry(entries.deep_view()) ==> r is Err && r->Err_0@ == not_repo_message(),
{
    if contains_git_entry(entries) {
        Ok(path)
    } else {
        let msg = String::from_str("Not a Git repo");
        proof {
            reveal_strlit("Not a Git repo");
        }
        assert(msg@ =~= not_repo_message());
        Err(msg)
    }
}

/// What the folder dialog handed back.
pub enum FolderPick {
    /// One folder was chosen.
    Single(String),
    /// Several folders were chosen.
    Multiple(Vec<String>),
    /// The dialog was dismissed.
    Cancelled,
}

/// Decides the outcome of the "Open" action: a single chosen folder is checked
/// against its entry names, while several folders or a dismissed dialog mean
/// that nothing was selected, which is no error. `entries` is only read for
/// a single folder.
pub fn pick_outcome(pick: FolderPick, entries: &Vec<String>) -> (r: Result<Option<String>, String>)
    ensures
        match pick {
            FolderPick::Single(p) => {
                &&& has_git_entry(entries.deep_view()) ==> r is Ok && r->Ok_0 is Some
                    && r->Ok_0->Some_0@ == p@
                &&& !has_git_entry(entries.deep_view()) ==> r is Err && r->Err_0@
                    == not_repo_message()
            },
            FolderPick::Multiple(_) => r is Ok && r->Ok_0 is None,
            FolderPick::Cancelled => r is Ok && r->Ok_0 is None,
        },
{
    match pick {
        FolderPick::Single(p) => match check_git_repo_valid(p, entries) {
            Ok(p) => Ok(Some(p)),
            Err(e) => Err(e),
        },
        FolderPick::Multiple(_) => Ok(None),
        FolderPick::Cancelled => Ok(None),
    }
}

} // verus!
