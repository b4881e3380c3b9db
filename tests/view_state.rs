use lfs_locks::storage::Storage;
use lfs_locks::window::WindowSettings;

#[test]
fn new_state_is_empty() {
    let s = Storage::default();
    assert_eq!(s.repo_path, "");
    assert_eq!(s.filter_text, "");
    assert_eq!(s.message, "");
}

#[test]
fn chosen_repository_replaces_path_and_clears_message() {
    let mut s = Storage::new();
    s.message = "Not a Git repo".to_string();
    s.filter_text = "*.png".to_string();
    s.apply_pick(Ok(Some("/work/game".to_string())));
    assert_eq!(s.repo_path, "/work/game");
    assert_eq!(s.message, "");
    assert_eq!(s.filter_text, "*.png");
}

#[test]
fn rejection_sets_message_and_keeps_path() {
    let mut s = Storage::new();
    s.apply_pick(Ok(Some("/work/game".to_string())));
    s.apply_pick(Err("Not a Git repo".to_string()));
    assert_eq!(s.repo_path, "/work/game");
    assert_eq!(s.message, "Not a Git repo");
}

#[test]
fn no_selection_changes_nothing() {
    let mut s = Storage::new();
    s.apply_pick(Err("Not a Git repo".to_string()));
    s.apply_pick(Ok(None));
    assert_eq!(s.repo_path, "");
    assert_eq!(s.message, "Not a Git repo");
}

#[test]
fn repo_label_names_the_path() {
    let mut s = Storage::new();
    assert_eq!(s.repo_label(), "Current Repo: ");
    s.apply_pick(Ok(Some("/work/game".to_string())));
    assert_eq!(s.repo_label(), "Current Repo: /work/game");
}

#[test]
fn main_window_is_640_by_480_resizable_opaque() {
    let w = WindowSettings::main_window();
    assert_eq!((w.width, w.height), (640, 480));
    assert!(w.resizable);
    assert!(!w.transparent);
}
