use file_browser::app::{handle_input, handle_reply, AppState};
use file_browser::keys::Key;
use file_browser::modal::ModalMode;
use file_browser::protocol::{Awaiting, Reply, Request};
use std::collections::BTreeSet;
use std::path::Path;

const NONE: u8 = 0;
const SHIFT: u8 = 1;

/// A file system held in memory: the paths of its directories and files.
struct Disk {
    dirs: BTreeSet<String>,
    files: BTreeSet<String>,
    changes: Vec<Request>,
}

impl Disk {
    fn new(dirs: &[&str], files: &[&str]) -> Disk {
        Disk {
            dirs: dirs.iter().map(|d| d.to_string()).collect(),
            files: files.iter().map(|f| f.to_string()).collect(),
            changes: Vec::new(),
        }
    }

    fn has(&self, path: &str) -> bool {
        self.dirs.contains(path) || self.files.contains(path)
    }

    fn children(&self, dir: &str) -> Vec<String> {
        let mut names: Vec<String> = Vec::new();
        for path in self.files.iter().chain(self.dirs.iter()) {
            let path = Path::new(path);
            if path.parent() == Some(Path::new(dir)) {
                names.push(path.file_name().unwrap().to_string_lossy().into_owned());
            }
        }
        names.reverse();
        names
    }

    fn moved(path: &str, from: &str, to: &str) -> Option<String> {
        if path == from {
            Some(to.to_string())
        } else {
            path.strip_prefix(&format!("{}/", from)).map(|rest| format!("{}/{}", to, rest))
        }
    }

    fn perform(&mut self, request: Request) -> Reply {
        match &request {
            Request::NextKey => panic!("nothing to perform"),
            Request::IsDir(path) => return Reply::Flag(self.dirs.contains(path)),
            Request::Exists(path) => return Reply::Flag(self.has(path)),
            Request::List(path) => {
                assert!(self.dirs.contains(path), "no directory {}", path);
                return Reply::Listing(self.children(path));
            }
            Request::CreateFile(path) => {
                self.files.insert(path.clone());
            }
            Request::CreateDir(path) => {
                self.dirs.insert(path.clone());
            }
            Request::RemoveFile(path) => {
                assert!(self.files.remove(path), "no file {}", path);
            }
            Request::RemoveDirAll(path) => {
                assert!(self.dirs.contains(path), "no directory {}", path);
                self.dirs.retain(|d| Disk::moved(d, path, "").is_none());
                self.files.retain(|f| Disk::moved(f, path, "").is_none());
            }
            Request::Rename(from, to) => {
                assert!(self.has(from), "no entry {}", from);
                self.dirs = self.dirs.iter().map(|d| Disk::moved(d, from, to).unwrap_or(d.clone())).collect();
                self.files = self.files.iter().map(|f| Disk::moved(f, from, to).unwrap_or(f.clone())).collect();
            }
        }
        self.changes.push(request);
        Reply::Done
    }

    fn start(&self, dir: &str) -> AppState {
        AppState::new(dir.to_string(), self.children(dir))
    }

    /// Presses a key and serves the browser until it wants the next key.
    fn press(&mut self, app: &mut AppState, key: Key, modifiers: u8) {
        let mut request = handle_input(app, key, modifiers);
        while request != Request::NextKey {
            let reply = self.perform(request);
            request = handle_reply(app, reply);
        }
        assert_eq!(app.awaiting(), Awaiting::Key);
    }

    fn type_text(&mut self, app: &mut AppState, text: &str) {
        for c in text.chars() {
            self.press(app, Key::Char(c), NONE);
        }
    }
}

fn entries(app: &AppState) -> Vec<&str> {
    app.directory().entries().iter().map(|name| name.as_str()).collect()
}

fn sample() -> Disk {
    Disk::new(&["/", "/home", "/home/b", "/home/b/inner", "/home/docs"], &["/home/a.txt", "/home/b.txt", "/home/b/inner/deep", "/home/docs/x.txt"])
}

#[test]
fn starts_sorted_with_cursor_at_top() {
    let disk = sample();
    let app = disk.start("/home");
    assert_eq!(entries(&app), vec!["a.txt", "b", "b.txt", "docs"]);
    assert_eq!(app.directory().selected_index(), 0);
    assert_eq!(app.directory().focus_dir(), "/home");
    assert_eq!(app.popup_mode(), ModalMode::Closed);
    assert_eq!(app.input_buffer(), "");
    assert!(!app.break_now());
    assert_eq!(app.awaiting(), Awaiting::Key);
    assert_eq!(app.request(), Request::NextKey);
}

#[test]
fn down_then_right_enters_the_subdirectory() {
    let mut disk = Disk::new(&["/work", "/work/b"], &["/work/a.txt"]);
    let mut app = AppState::new("/work".to_string(), vec!["b".to_string(), "a.txt".to_string()]);
    assert_eq!(entries(&app), vec!["a.txt", "b"]);
    disk.press(&mut app, Key::Down, NONE);
    assert_eq!(app.directory().selected_index(), 1);
    disk.press(&mut app, Key::Right, NONE);
    assert_eq!(app.directory().focus_dir(), "/work/b");
    assert_eq!(app.directory().selected_index(), 0);
    assert!(entries(&app).is_empty());
    assert!(disk.changes.is_empty());
}

#[test]
fn right_on_a_file_changes_nothing() {
    let mut disk = sample();
    let mut app = disk.start("/home");
    assert_eq!(handle_input(&mut app, Key::Right, NONE), Request::IsDir("/home/a.txt".to_string()));
    assert_eq!(handle_reply(&mut app, Reply::Flag(false)), Request::NextKey);
    assert_eq!(app.directory().focus_dir(), "/home");
    assert_eq!(entries(&app), vec!["a.txt", "b", "b.txt", "docs"]);
    disk.press(&mut app, Key::Right, NONE);
    assert_eq!(app.directory().focus_dir(), "/home");
}

#[test]
fn right_in_an_empty_directory_asks_nothing() {
    let mut app = AppState::new("/empty".to_string(), Vec::new());
    assert_eq!(handle_input(&mut app, Key::Right, NONE), Request::NextKey);
    assert_eq!(app.directory().selected_index(), 0);
    assert_eq!(app.get_selected_path(), None);
}

#[test]
fn right_asks_for_kind_then_listing() {
    let mut app = AppState::new("/home".to_string(), vec!["docs".to_string(), "a".to_string(), "z".to_string()]);
    handle_input(&mut app, Key::Down, NONE);
    assert_eq!(handle_input(&mut app, Key::Right, NONE), Request::IsDir("/home/docs".to_string()));
    assert_eq!(app.awaiting(), Awaiting::Kind);
    assert_eq!(handle_reply(&mut app, Reply::Flag(true)), Request::List("/home/docs".to_string()));
    assert_eq!(app.directory().focus_dir(), "/home");
    let next = handle_reply(&mut app, Reply::Listing(vec!["y".to_string(), "x".to_string()]));
    assert_eq!(next, Request::NextKey);
    assert_eq!(app.directory().focus_dir(), "/home/docs");
    assert_eq!(entries(&app), vec!["x", "y"]);
    assert_eq!(app.directory().selected_index(), 0);
}

#[test]
fn left_goes_to_the_parent_and_resets_the_cursor() {
    let mut disk = sample();
    let mut app = disk.start("/home/b");
    disk.press(&mut app, Key::Left, NONE);
    assert_eq!(app.directory().focus_dir(), "/home");
    assert_eq!(entries(&app), vec!["a.txt", "b", "b.txt", "docs"]);
    disk.press(&mut app, Key::Down, NONE);
    disk.press(&mut app, Key::Down, NONE);
    assert_eq!(app.directory().selected_index(), 2);
    disk.press(&mut app, Key::Left, NONE);
    assert_eq!(app.directory().focus_dir(), "/");
    assert_eq!(entries(&app), vec!["home"]);
    assert_eq!(app.directory().selected_index(), 0);
}

#[test]
fn left_at_the_root_stays_and_lists_again() {
    let mut disk = sample();
    let mut app = disk.start("/");
    assert_eq!(handle_input(&mut app, Key::Left, NONE), Request::List("/".to_string()));
    disk.files.insert("/new".to_string());
    let listing = disk.perform(Request::List("/".to_string()));
    assert_eq!(handle_reply(&mut app, listing), Request::NextKey);
    assert_eq!(app.directory().focus_dir(), "/");
    assert_eq!(entries(&app), vec!["home", "new"]);
    assert_eq!(app.directory().selected_index(), 0);
}

#[test]
fn up_and_down_are_clamped() {
    let mut disk = sample();
    let mut app = disk.start("/home");
    disk.press(&mut app, Key::Up, NONE);
    assert_eq!(app.directory().selected_index(), 0);
    for expected in [1, 2, 3, 3, 3] {
        disk.press(&mut app, Key::Down, NONE);
        assert_eq!(app.directory().selected_index(), expected);
    }
    for expected in [2, 1, 0, 0] {
        disk.press(&mut app, Key::Up, SHIFT);
        assert_eq!(app.directory().selected_index(), expected);
    }
    assert_eq!(entries(&app), vec!["a.txt", "b", "b.txt", "docs"]);
}

#[test]
fn up_and_down_in_an_empty_directory_keep_zero() {
    let mut app = AppState::new("/empty".to_string(), Vec::new());
    for key in [Key::Down, Key::Down, Key::Up, Key::Down, Key::Up, Key::Up] {
        assert_eq!(handle_input(&mut app, key, NONE), Request::NextKey);
        assert_eq!(app.directory().selected_index(), 0);
    }
}

#[test]
fn enter_and_esc_set_the_exit_flag() {
    for key in [Key::Enter, Key::Esc] {
        let mut app = sample().start("/home");
        assert_eq!(handle_input(&mut app, key, NONE), Request::NextKey);
        assert!(app.break_now());
        assert_eq!(app.directory().focus_dir(), "/home");
        assert_eq!(app.popup_mode(), ModalMode::Closed);
    }
}

#[test]
fn other_keys_change_nothing() {
    let mut app = sample().start("/home");
    for key in [Key::Other, Key::Backspace, Key::Char('x'), Key::Char('q')] {
        assert_eq!(handle_input(&mut app, key, NONE), Request::NextKey);
        assert!(!app.break_now());
        assert_eq!(app.popup_mode(), ModalMode::Closed);
        assert_eq!(app.input_buffer(), "");
        assert_eq!(app.directory().selected_index(), 0);
    }
}

#[test]
fn n_opens_create_file_and_shift_n_create_dir() {
    for (key, modifiers, mode) in [
        (Key::Char('n'), NONE, ModalMode::CreateFile),
        (Key::Char('N'), NONE, ModalMode::CreateFile),
        (Key::Char('n'), SHIFT, ModalMode::CreateDir),
        (Key::Char('N'), SHIFT, ModalMode::CreateDir),
        (Key::Char('N'), SHIFT | 2, ModalMode::CreateDir),
        (Key::Char('n'), 2, ModalMode::CreateFile),
        (Key::Char('n'), 4 | 8 | 32, ModalMode::CreateFile),
        (Key::Char('n'), 0xff, ModalMode::CreateDir),
        (Key::Char('n'), 0xfe, ModalMode::CreateFile),
    ] {
        let mut app = sample().start("/home");
        handle_input(&mut app, key, modifiers);
        assert_eq!(app.popup_mode(), mode);
        assert_eq!(app.input_buffer(), "");
    }
}

#[test]
fn d_and_r_need_an_entry() {
    for key in [Key::Char('d'), Key::Char('D'), Key::Char('r'), Key::Char('R')] {
        let mut app = AppState::new("/empty".to_string(), Vec::new());
        handle_input(&mut app, key, NONE);
        assert_eq!(app.popup_mode(), ModalMode::Closed);
    }
    let mut app = AppState::new("/empty".to_string(), Vec::new());
    handle_input(&mut app, Key::Char('n'), NONE);
    assert_eq!(app.popup_mode(), ModalMode::CreateFile);
}

#[test]
fn d_opens_delete_with_an_empty_buffer() {
    for key in [Key::Char('d'), Key::Char('D')] {
        let mut app = sample().start("/home");
        handle_input(&mut app, key, NONE);
        assert_eq!(app.popup_mode(), ModalMode::Delete);
        assert_eq!(app.input_buffer(), "");
    }
}

#[test]
fn r_opens_rename_with_the_selected_name() {
    for key in [Key::Char('r'), Key::Char('R')] {
        let mut app = sample().start("/home");
        handle_input(&mut app, Key::Down, NONE);
        handle_input(&mut app, Key::Down, NONE);
        handle_input(&mut app, key, NONE);
        assert_eq!(app.popup_mode(), ModalMode::Rename);
        assert_eq!(app.input_buffer(), "b.txt");
    }
}

#[test]
fn opening_then_esc_leaves_everything_as_it_was() {
    for (key, modifiers) in [(Key::Char('n'), NONE), (Key::Char('n'), SHIFT), (Key::Char('d'), NONE), (Key::Char('r'), NONE)] {
        let mut disk = sample();
        let mut app = disk.start("/home");
        disk.press(&mut app, Key::Down, NONE);
        disk.press(&mut app, key, modifiers);
        assert_ne!(app.popup_mode(), ModalMode::Closed);
        disk.press(&mut app, Key::Esc, NONE);
        assert_eq!(app.popup_mode(), ModalMode::Closed);
        assert_eq!(app.input_buffer(), "");
        assert_eq!(app.directory().focus_dir(), "/home");
        assert_eq!(entries(&app), vec!["a.txt", "b", "b.txt", "docs"]);
        assert_eq!(app.directory().selected_index(), 1);
        assert!(!app.break_now());
        assert!(disk.changes.is_empty());
    }
}

#[test]
fn typing_and_backspace_edit_the_buffer() {
    let mut disk = sample();
    let mut app = disk.start("/home");
    disk.press(&mut app, Key::Char('n'), NONE);
    disk.press(&mut app, Key::Backspace, NONE);
    assert_eq!(app.input_buffer(), "");
    disk.type_text(&mut app, "nd é");
    assert_eq!(app.input_buffer(), "nd é");
    disk.press(&mut app, Key::Backspace, NONE);
    assert_eq!(app.input_buffer(), "nd ");
    for key in [Key::Up, Key::Down, Key::Left, Key::Right, Key::Other] {
        disk.press(&mut app, key, NONE);
    }
    assert_eq!(app.input_buffer(), "nd ");
    assert_eq!(app.popup_mode(), ModalMode::CreateFile);
    assert_eq!(app.directory().selected_index(), 0);
    disk.press(&mut app, Key::Esc, NONE);
    assert_eq!(app.input_buffer(), "");
    assert!(!app.break_now());
}

#[test]
fn create_file_makes_an_empty_file_and_refreshes() {
    let mut disk = sample();
    let mut app = disk.start("/home");
    disk.press(&mut app, Key::Char('n'), NONE);
    disk.type_text(&mut app, "aa.txt");
    assert_eq!(handle_input(&mut app, Key::Enter, NONE), Request::Exists("/home/aa.txt".to_string()));
    assert_eq!(app.awaiting(), Awaiting::Presence);
    assert_eq!(handle_reply(&mut app, Reply::Flag(false)), Request::CreateFile("/home/aa.txt".to_string()));
    assert_eq!(app.awaiting(), Awaiting::Change { directory: false });
    disk.perform(Request::CreateFile("/home/aa.txt".to_string()));
    assert_eq!(handle_reply(&mut app, Reply::Done), Request::List("/home".to_string()));
    assert_eq!(app.popup_mode(), ModalMode::Closed);
    assert_eq!(app.input_buffer(), "");
    let listing = disk.perform(Request::List("/home".to_string()));
    assert_eq!(handle_reply(&mut app, listing), Request::NextKey);
    assert_eq!(entries(&app), vec!["a.txt", "aa.txt", "b", "b.txt", "docs"]);
    assert!(disk.files.contains("/home/aa.txt"));
}

#[test]
fn create_dir_makes_a_directory() {
    let mut disk = sample();
    let mut app = disk.start("/home");
    disk.press(&mut app, Key::Char('N'), SHIFT);
    disk.type_text(&mut app, "zoo");
    disk.press(&mut app, Key::Enter, NONE);
    assert_eq!(disk.changes, vec![Request::CreateDir("/home/zoo".to_string())]);
    assert_eq!(entries(&app), vec!["a.txt", "b", "b.txt", "docs", "zoo"]);
    assert_eq!(app.popup_mode(), ModalMode::Closed);
}

#[test]
fn create_on_an_existing_name_changes_nothing_and_closes() {
    let mut disk = Disk::new(&["/d"], &["/d/x.txt"]);
    let mut app = disk.start("/d");
    disk.press(&mut app, Key::Char('n'), NONE);
    disk.type_text(&mut app, "x.txt");
    assert_eq!(handle_input(&mut app, Key::Enter, NONE), Request::Exists("/d/x.txt".to_string()));
    assert_eq!(handle_reply(&mut app, Reply::Flag(true)), Request::List("/d".to_string()));
    assert_eq!(app.popup_mode(), ModalMode::Closed);
    assert_eq!(app.input_buffer(), "");
    let listing = disk.perform(Request::List("/d".to_string()));
    assert_eq!(handle_reply(&mut app, listing), Request::NextKey);
    assert!(disk.changes.is_empty());
    assert!(disk.files.contains("/d/x.txt"));
    assert_eq!(entries(&app), vec!["x.txt"]);
}

#[test]
fn create_dir_on_an_existing_name_changes_nothing() {
    let mut disk = sample();
    let mut app = disk.start("/home");
    disk.press(&mut app, Key::Char('n'), SHIFT);
    disk.type_text(&mut app, "docs");
    disk.press(&mut app, Key::Enter, NONE);
    assert!(disk.changes.is_empty());
    assert_eq!(app.popup_mode(), ModalMode::Closed);
    assert!(disk.files.contains("/home/docs/x.txt"));
}

#[test]
fn create_with_a_blank_name_only_refreshes() {
    for text in ["", " ", " \t ", "\u{a0}\u{2003}"] {
        let mut disk = sample();
        let mut app = disk.start("/home");
        disk.press(&mut app, Key::Char('n'), NONE);
        disk.type_text(&mut app, text);
        disk.files.insert("/home/late".to_string());
        assert_eq!(handle_input(&mut app, Key::Enter, NONE), Request::List("/home".to_string()));
        assert_eq!(app.popup_mode(), ModalMode::Closed);
        assert_eq!(app.input_buffer(), "");
        let listing = disk.perform(Request::List("/home".to_string()));
        handle_reply(&mut app, listing);
        assert!(disk.changes.is_empty());
        assert_eq!(entries(&app), vec!["a.txt", "b", "b.txt", "docs", "late"]);
    }
}

#[test]
fn create_keeps_the_name_untrimmed() {
    let mut disk = sample();
    let mut app = disk.start("/home");
    disk.press(&mut app, Key::Char('n'), NONE);
    disk.type_text(&mut app, " x ");
    disk.press(&mut app, Key::Enter, NONE);
    assert_eq!(disk.changes, vec![Request::CreateFile("/home/ x ".to_string())]);
}

#[test]
fn delete_needs_exactly_y_or_yes_in_any_case() {
    for (answer, deleted) in [
        ("y", true),
        ("Y", true),
        ("yes", true),
        ("Yes", true),
        ("YES", true),
        ("yEs", true),
        ("yes ", false),
        (" yes", false),
        (" y", false),
        ("", false),
        ("n", false),
        ("no", false),
        ("ye", false),
        ("yess", false),
        ("yy", false),
        ("ÿ", false),
    ] {
        let mut disk = sample();
        let mut app = disk.start("/home");
        disk.press(&mut app, Key::Char('d'), NONE);
        disk.type_text(&mut app, answer);
        assert_eq!(app.input_buffer(), answer);
        disk.press(&mut app, Key::Enter, NONE);
        assert_eq!(app.popup_mode(), ModalMode::Closed, "{:?}", answer);
        assert_eq!(app.input_buffer(), "");
        assert_eq!(disk.files.contains("/home/a.txt"), !deleted, "{:?}", answer);
        if deleted {
            assert_eq!(disk.changes, vec![Request::RemoveFile("/home/a.txt".to_string())]);
            assert_eq!(entries(&app), vec!["b", "b.txt", "docs"]);
        } else {
            assert!(disk.changes.is_empty());
            assert_eq!(entries(&app), vec!["a.txt", "b", "b.txt", "docs"]);
        }
    }
}

#[test]
fn delete_removes_a_directory_with_all_it_holds() {
    let mut disk = sample();
    let mut app = disk.start("/home");
    disk.press(&mut app, Key::Down, NONE);
    disk.press(&mut app, Key::Char('D'), NONE);
    disk.type_text(&mut app, "yes");
    assert_eq!(handle_input(&mut app, Key::Enter, NONE), Request::IsDir("/home/b".to_string()));
    assert_eq!(handle_reply(&mut app, Reply::Flag(true)), Request::RemoveDirAll("/home/b".to_string()));
    assert_eq!(app.awaiting(), Awaiting::Change { directory: true });
    disk.perform(Request::RemoveDirAll("/home/b".to_string()));
    assert_eq!(handle_reply(&mut app, Reply::Done), Request::List("/home".to_string()));
    let listing = disk.perform(Request::List("/home".to_string()));
    assert_eq!(handle_reply(&mut app, listing), Request::NextKey);
    assert_eq!(entries(&app), vec!["a.txt", "b.txt", "docs"]);
    assert_eq!(app.directory().selected_index(), 1);
    assert!(!disk.has("/home/b/inner/deep"));
    assert!(disk.has("/home/b.txt"));
}

#[test]
fn deleting_the_last_entry_moves_the_cursor_up() {
    let mut disk = sample();
    let mut app = disk.start("/home");
    for _ in 0..3 {
        disk.press(&mut app, Key::Down, NONE);
    }
    disk.press(&mut app, Key::Char('d'), NONE);
    disk.type_text(&mut app, "y");
    disk.press(&mut app, Key::Enter, NONE);
    assert_eq!(disk.changes, vec![Request::RemoveDirAll("/home/docs".to_string())]);
    assert_eq!(entries(&app), vec!["a.txt", "b", "b.txt"]);
    assert_eq!(app.directory().selected_index(), 2);
}

#[test]
fn deleting_the_only_entry_leaves_the_cursor_at_zero() {
    let mut disk = Disk::new(&["/d"], &["/d/only"]);
    let mut app = disk.start("/d");
    disk.press(&mut app, Key::Char('d'), NONE);
    disk.type_text(&mut app, "y");
    disk.press(&mut app, Key::Enter, NONE);
    assert!(entries(&app).is_empty());
    assert_eq!(app.directory().selected_index(), 0);
    assert_eq!(app.get_selected_path(), None);
    disk.press(&mut app, Key::Char('d'), NONE);
    assert_eq!(app.popup_mode(), ModalMode::Closed);
}

#[test]
fn rename_moves_the_entry() {
    let mut disk = sample();
    let mut app = disk.start("/home");
    disk.press(&mut app, Key::Char('r'), NONE);
    assert_eq!(app.input_buffer(), "a.txt");
    for _ in 0..5 {
        disk.press(&mut app, Key::Backspace, NONE);
    }
    disk.type_text(&mut app, "z.txt");
    assert_eq!(handle_input(&mut app, Key::Enter, NONE), Request::Exists("/home/z.txt".to_string()));
    let next = handle_reply(&mut app, Reply::Flag(false));
    assert_eq!(next, Request::Rename("/home/a.txt".to_string(), "/home/z.txt".to_string()));
    disk.perform(next);
    assert_eq!(handle_reply(&mut app, Reply::Done), Request::List("/home".to_string()));
    let listing = disk.perform(Request::List("/home".to_string()));
    handle_reply(&mut app, listing);
    assert_eq!(entries(&app), vec!["b", "b.txt", "docs", "z.txt"]);
    assert_eq!(app.directory().selected_index(), 0);
    assert_eq!(app.popup_mode(), ModalMode::Closed);
}

#[test]
fn rename_onto_an_existing_name_leaves_both() {
    let mut disk = Disk::new(&["/d"], &["/d/a.txt", "/d/b.txt"]);
    let mut app = disk.start("/d");
    disk.press(&mut app, Key::Char('r'), NONE);
    for _ in 0..5 {
        disk.press(&mut app, Key::Backspace, NONE);
    }
    disk.type_text(&mut app, "b.txt");
    assert_eq!(handle_input(&mut app, Key::Enter, NONE), Request::Exists("/d/b.txt".to_string()));
    assert_eq!(handle_reply(&mut app, Reply::Flag(true)), Request::List("/d".to_string()));
    let listing = disk.perform(Request::List("/d".to_string()));
    handle_reply(&mut app, listing);
    assert!(disk.changes.is_empty());
    assert!(disk.files.contains("/d/a.txt") && disk.files.contains("/d/b.txt"));
    assert_eq!(entries(&app), vec!["a.txt", "b.txt"]);
    assert_eq!(app.popup_mode(), ModalMode::Closed);
}

#[test]
fn rename_to_the_same_path_asks_nothing() {
    for retyped in ["", "/", "/.", "/./"] {
        let mut disk = sample();
        let mut app = disk.start("/home");
        disk.press(&mut app, Key::Down, NONE);
        disk.press(&mut app, Key::Char('r'), NONE);
        disk.type_text(&mut app, retyped);
        assert_eq!(handle_input(&mut app, Key::Enter, NONE), Request::List("/home".to_string()));
        assert_eq!(app.popup_mode(), ModalMode::Closed);
        assert_eq!(app.input_buffer(), "");
    }
}

#[test]
fn rename_with_a_blank_name_only_refreshes() {
    let mut disk = sample();
    let mut app = disk.start("/home");
    disk.press(&mut app, Key::Char('r'), NONE);
    for _ in 0..5 {
        disk.press(&mut app, Key::Backspace, NONE);
    }
    disk.type_text(&mut app, "  ");
    disk.press(&mut app, Key::Enter, NONE);
    assert!(disk.changes.is_empty());
    assert_eq!(app.popup_mode(), ModalMode::Closed);
    assert_eq!(entries(&app), vec!["a.txt", "b", "b.txt", "docs"]);
}

#[test]
fn keys_in_a_prompt_do_not_navigate_or_exit() {
    let mut disk = sample();
    let mut app = disk.start("/home");
    disk.press(&mut app, Key::Char('d'), NONE);
    disk.type_text(&mut app, "ndr");
    assert_eq!(app.input_buffer(), "ndr");
    assert_eq!(app.popup_mode(), ModalMode::Delete);
    disk.press(&mut app, Key::Esc, NONE);
    assert!(!app.break_now());
    disk.press(&mut app, Key::Esc, NONE);
    assert!(app.break_now());
}

#[test]
fn events_out_of_turn_are_ignored() {
    let mut app = sample().start("/home");
    assert_eq!(handle_reply(&mut app, Reply::Flag(true)), Request::NextKey);
    assert_eq!(handle_reply(&mut app, Reply::Done), Request::NextKey);
    assert_eq!(handle_reply(&mut app, Reply::Listing(vec!["q".to_string()])), Request::NextKey);
    assert_eq!(entries(&app), vec!["a.txt", "b", "b.txt", "docs"]);
    let asked = handle_input(&mut app, Key::Right, NONE);
    assert_eq!(asked, Request::IsDir("/home/a.txt".to_string()));
    assert_eq!(handle_input(&mut app, Key::Down, NONE), asked);
    assert_eq!(handle_input(&mut app, Key::Esc, NONE), asked);
    assert_eq!(handle_reply(&mut app, Reply::Done), asked);
    assert_eq!(handle_reply(&mut app, Reply::Listing(Vec::new())), asked);
    assert_eq!(app.directory().selected_index(), 0);
    assert!(!app.break_now());
    assert_eq!(handle_reply(&mut app, Reply::Flag(true)), Request::List("/home/a.txt".to_string()));
    assert_eq!(handle_reply(&mut app, Reply::Flag(true)), Request::List("/home/a.txt".to_string()));
}
