//! View-state and repository logic for a desktop browser of Git LFS locks:
//! deciding whether a chosen folder is a Git repository, reading the list of
//! LFS files that `git lfs ls-files -n` prints, and the state the window shows.

pub mod listing;
pub mod repo;
pub mod storage;
pub mod window;
