//! The browser's state and its transitions: one key press, or one reply
//! to a request, at a time.

use crate::directory::{lemma_listing_wf, lemma_refreshed_wf, DirectoryModel, DirectoryView};
use crate::entries::names;
use crate::keys::{has_shift, shift_held, Key};
use crate::modal::ModalMode;
use crate::paths::{join, path_join, path_same, same};
use crate::protocol::{Awaiting, Reply, ReplyModel, Request, RequestModel, Target};
use crate::text::{blank, confirms, is_blank, is_confirmation, pop_char, push_char};
use vstd::prelude::*;

verus! {

/// What an `AppState` stands for.
pub struct AppModel {
    /// The directory on display.
    pub directory: DirectoryModel,
    /// The prompt that is open.
    pub mode: ModalMode,
    /// The text typed into the prompt.
    pub input_buffer: Seq<char>,
    /// Whether the browser is to exit.
    pub exit: bool,
    /// What the browser is waiting for.
    pub awaiting: Awaiting,
}

impl AppModel {
    /// The directory is well formed; the buffer is empty while no prompt is
    /// open; the prompts that act on the entry under the cursor are open
    /// only while there is one; and what is awaited fits the prompt.
    pub open spec fn wf(self) -> bool {
        &&& self.directory.wf()
        &&& (self.mode is Closed ==> self.input_buffer.len() == 0)
        &&& (self.mode is Delete || self.mode is Rename ==> self.directory.has_selection())
        &&& match self.awaiting {
            Awaiting::Key => true,
            Awaiting::Kind => (self.mode is Closed || self.mode is Delete)
                && self.directory.has_selection(),
            Awaiting::Presence => self.mode is CreateFile || self.mode is CreateDir
                || self.mode is Rename,
            Awaiting::Change { directory } => !(self.mode is Closed),
            Awaiting::Listing { target } => self.mode is Closed && (target is Child
                ==> self.directory.has_selection()),
        }
    }

    /// The browser as it starts in the directory `focus_dir`, whose
    /// immediate children are `children`.
    pub open spec fn start(focus_dir: Seq<char>, children: Seq<Seq<char>>) -> AppModel {
        AppModel {
            directory: DirectoryModel::listing(focus_dir, children),
            mode: ModalMode::Closed,
            input_buffer: Seq::empty(),
            exit: false,
            awaiting: Awaiting::Key,
        }
    }

    /// The path that the input buffer names inside the directory on display.
    pub open spec fn target_path(self) -> Seq<char> {
        path_join(self.directory.focus_dir, self.input_buffer)
    }

    /// What is to be done next for the browser.
    pub open spec fn request(self) -> RequestModel {
        match self.awaiting {
            Awaiting::Key => RequestModel::NextKey,
            Awaiting::Kind => RequestModel::IsDir(self.directory.selected_path()),
            Awaiting::Presence => RequestModel::Exists(self.target_path()),
            Awaiting::Change { directory } => match self.mode {
                ModalMode::Closed => RequestModel::NextKey,
                ModalMode::CreateFile => RequestModel::CreateFile(self.target_path()),
                ModalMode::CreateDir => RequestModel::CreateDir(self.target_path()),
                ModalMode::Delete => if directory {
                    RequestModel::RemoveDirAll(self.directory.selected_path())
                } else {
                    RequestModel::RemoveFile(self.directory.selected_path())
                },
                ModalMode::Rename => RequestModel::Rename(
                    self.directory.selected_path(),
                    self.target_path(),
                ),
            },
            Awaiting::Listing { target } => RequestModel::List(
                match target {
                    Target::Same => self.directory.focus_dir,
                    Target::Child => self.directory.selected_path(),
                    Target::Parent => self.directory.parent_path(),
                },
            ),
        }
    }

    /// The prompt closed and the buffer cleared, with a fresh listing of
    /// the directory on display asked for.
    pub open spec fn closed(self) -> AppModel {
        AppModel {
            mode: ModalMode::Closed,
            input_buffer: Seq::empty(),
            awaiting: Awaiting::Listing { target: Target::Same },
            ..self
        }
    }

    /// After a key press while no prompt is open. Enter and Esc set the
    /// exit flag; Right asks whether the entry under the cursor is a
    /// directory; Left asks for the parent's listing; Up and Down move the
    /// cursor; `n`, `d` and `r`, in either case, open a prompt.
    pub open spec fn on_main_key(self, key: Key, modifiers: u8) -> AppModel {
        if !(self.awaiting is Key && self.mode is Closed) {
            self
        } else {
            match key {
                Key::Enter | Key::Esc => AppModel { exit: true, ..self },
                Key::Right => if self.directory.has_selection() {
                    AppModel { awaiting: Awaiting::Kind, ..self }
                } else {
                    self
                },
                Key::Left => AppModel {
                    awaiting: Awaiting::Listing { target: Target::Parent },
                    ..self
                },
                Key::Up => AppModel { directory: self.directory.up(), ..self },
                Key::Down => AppModel { directory: self.directory.down(), ..self },
                Key::Char(c) => if c == 'n' || c == 'N' {
                    AppModel {
                        mode: if shift_held(modifiers) {
                            ModalMode::CreateDir
                        } else {
                            ModalMode::CreateFile
                        },
                        input_buffer: Seq::empty(),
                        ..self
                    }
                } else if (c == 'd' || c == 'D') && self.directory.entries.len() > 0 {
                    AppModel { mode: ModalMode::Delete, input_buffer: Seq::empty(), ..self }
                } else if (c == 'r' || c == 'R') && self.directory.entries.len() > 0 {
                    AppModel {
                        mode: ModalMode::Rename,
                        input_buffer: self.directory.selected_name(),
                        ..self
                    }
                } else {
                    self
                },
                _ => self,
            }
        }
    }

    /// After Enter in an open prompt. The prompt's action is attempted
    /// where its precondition holds: a create or a rename first asks
    /// whether the target exists, a delete whether the entry is a
    /// directory. Where it does not hold, the prompt just closes.
    pub open spec fn on_confirm(self) -> AppModel {
        if !(self.awaiting is Key) {
            self
        } else {
            match self.mode {
                ModalMode::Closed => self.closed(),
                ModalMode::CreateFile | ModalMode::CreateDir => if !blank(self.input_buffer) {
                    AppModel { awaiting: Awaiting::Presence, ..self }
                } else {
                    self.closed()
                },
                ModalMode::Delete => if confirms(self.input_buffer)
                    && self.directory.has_selection() {
                    AppModel { awaiting: Awaiting::Kind, ..self }
                } else {
                    self.closed()
                },
                ModalMode::Rename => if !blank(self.input_buffer)
                    && self.directory.has_selection() && !path_same(
                    self.directory.selected_path(),
                    self.target_path(),
                ) {
                    AppModel { awaiting: Awaiting::Presence, ..self }
                } else {
                    self.closed()
                },
            }
        }
    }

    /// After a key press while a prompt is open. Esc closes the prompt,
    /// Enter confirms it, Backspace removes the last character of the
    /// buffer and a character key appends its character.
    pub open spec fn on_popup_key(self, key: Key) -> AppModel {
        if !(self.awaiting is Key) || self.mode is Closed {
            self
        } else {
            match key {
                Key::Esc => AppModel {
                    mode: ModalMode::Closed,
                    input_buffer: Seq::empty(),
                    ..self
                },
                Key::Enter => self.on_confirm(),
                Key::Backspace => AppModel {
                    input_buffer: if self.input_buffer.len() > 0 {
                        self.input_buffer.drop_last()
                    } else {
                        self.input_buffer
                    },
                    ..self
                },
                Key::Char(c) => AppModel { input_buffer: self.input_buffer.push(c), ..self },
                _ => self,
            }
        }
    }

    /// After a key press: it goes to the prompt if one is open, and moves
    /// through the directories otherwise. It is ignored while a request is
    /// outstanding.
    pub open spec fn on_key(self, key: Key, modifiers: u8) -> AppModel {
        if self.mode is Closed {
            self.on_main_key(key, modifiers)
        } else {
            self.on_popup_key(key)
        }
    }

    /// After the reply to the outstanding request. A reply of another kind
    /// than the one awaited is ignored.
    pub open spec fn on_reply(self, reply: ReplyModel) -> AppModel {
        match (self.awaiting, reply) {
            (Awaiting::Kind, ReplyModel::Flag(is_dir)) => if self.mode is Delete {
                AppModel { awaiting: Awaiting::Change { directory: is_dir }, ..self }
            } else if is_dir {
                AppModel { awaiting: Awaiting::Listing { target: Target::Child }, ..self }
            } else {
                AppModel { awaiting: Awaiting::Key, ..self }
            },
            (Awaiting::Presence, ReplyModel::Flag(exists)) => if exists {
                self.closed()
            } else {
                AppModel { awaiting: Awaiting::Change { directory: false }, ..self }
            },
            (Awaiting::Change { directory }, ReplyModel::Done) => self.closed(),
            (Awaiting::Listing { target }, ReplyModel::Listing(children)) => AppModel {
                directory: match target {
                    Target::Same => self.directory.refreshed(children),
                    Target::Child => self.directory.entered(children),
                    Target::Parent => self.directory.left(children),
                },
                awaiting: Awaiting::Key,
                ..self
            },
            _ => self,
        }
    }
}

/// A key press leaves a well-formed browser well formed.
pub proof fn lemma_on_key_wf(state: AppModel, key: Key, modifiers: u8)
    requires
        state.wf(),
    ensures
        state.on_key(key, modifiers).wf(),
{
}

/// A reply leaves a well-formed browser well formed.
pub proof fn lemma_on_reply_wf(state: AppModel, reply: ReplyModel)
    requires
        state.wf(),
    ensures
        state.on_reply(reply).wf(),
{
    if let (Awaiting::Listing { target }, ReplyModel::Listing(children)) = (state.awaiting, reply) {
        lemma_listing_wf(state.directory.selected_path(), children);
        lemma_listing_wf(state.directory.parent_path(), children);
        lemma_refreshed_wf(state.directory, children);
    }
}

/// The browser: the directory on display, the open prompt with its input
/// buffer, the exit flag, and what is outstanding.
pub struct AppState {
    directory: DirectoryView,
    popup_mode: ModalMode,
    input_buffer: String,
    break_now: bool,
    awaiting: Awaiting,
}

impl View for AppState {
    type V = AppModel;

    closed spec fn view(&self) -> AppModel {
        AppModel {
            directory: self.directory@,
            mode: self.popup_mode,
            input_buffer: self.input_buffer@,
            exit: self.break_now,
            awaiting: self.awaiting,
        }
    }
}

impl AppState {
    /// The browser as it starts in the directory `focus_dir`, whose
    /// immediate children are `children`.
    pub fn new(focus_dir: String, children: Vec<String>) -> (app_state: AppState)
        ensures
            app_state@ == AppModel::start(focus_dir@, names(children@)),
            app_state@.wf(),
    {
        AppState {
            directory: DirectoryView::new(focus_dir, children),
            popup_mode: ModalMode::Closed,
            input_buffer: String::new(),
            break_now: false,
            awaiting: Awaiting::Key,
        }
    }

    /// The directory on display.
    pub fn directory(&self) -> (directory: &DirectoryView)
        ensures
            directory@ == self@.directory,
    {
        &self.directory
    }

    /// The prompt that is open.
    pub fn popup_mode(&self) -> (mode: ModalMode)
        ensures
            mode == self@.mode,
    {
        self.popup_mode
    }

    /// The text typed into the prompt.
    pub fn input_buffer(&self) -> (text: &String)
        ensures
            text@ == self@.input_buffer,
    {
        &self.input_buffer
    }

    /// Whether the browser is to exit.
    pub fn break_now(&self) -> (exit: bool)
        ensures
            exit == self@.exit,
    {
        self.break_now
    }

    /// What the browser is waiting for.
    pub fn awaiting(&self) -> (awaiting: Awaiting)
        ensures
            awaiting == self@.awaiting,
    {
        self.awaiting
    }

    /// The path of the entry under the cursor, if the cursor is on an entry.
    pub fn get_selected_path(&self) -> (path: Option<String>)
        ensures
            path is Some <==> self@.directory.has_selection(),
            path matches Some(p) ==> p@ == self@.directory.selected_path(),
    {
        self.directory.get_selected_path()
    }

    /// The path that the input buffer names inside the directory on display.
    pub fn target_path(&self) -> (path: String)
        ensures
            path@ == self@.target_path(),
    {
        join(self.directory.focus_dir().as_str(), self.input_buffer.as_str())
    }

    /// What is to be done next for the browser.
    pub fn request(&self) -> (request: Request)
        requires
            self@.wf(),
        ensures
            request@ == self@.request(),
    {
        match self.awaiting {
            Awaiting::Key => Request::NextKey,
            Awaiting::Kind => Request::IsDir(self.directory.selected_path()),
            Awaiting::Presence => Request::Exists(self.target_path()),
            Awaiting::Change { directory } => match self.popup_mode {
                ModalMode::Closed => Request::NextKey,
                ModalMode::CreateFile => Request::CreateFile(self.target_path()),
                ModalMode::CreateDir => Request::CreateDir(self.target_path()),
                ModalMode::Delete => if directory {
                    Request::RemoveDirAll(self.directory.selected_path())
                } else {
                    Request::RemoveFile(self.directory.selected_path())
                },
                ModalMode::Rename => Request::Rename(self.directory.selected_path(), self.target_path()),
            },
            Awaiting::Listing { target } => Request::List(
                match target {
                    Target::Same => self.directory.focus_dir().clone(),
                    Target::Child => self.directory.selected_path(),
                    Target::Parent => self.directory.parent_path(),
                },
            ),
        }
    }

    /// Closes the prompt, clears the buffer and asks for a fresh listing.
    fn close(&mut self)
        ensures
            final(self)@ == old(self)@.closed(),
    {
        self.popup_mode = ModalMode::Closed;
        self.input_buffer = String::new();
        self.awaiting = Awaiting::Listing { target: Target::Same };
    }
}

/// Handles a key press while no prompt is open.
pub fn handle_main_input(app_state: &mut AppState, key: Key, modifiers: u8)
    requires
        old(app_state)@.wf(),
    ensures
        final(app_state)@ == old(app_state)@.on_main_key(key, modifiers),
        final(app_state)@.wf(),
{
    proof {
        lemma_on_key_wf(app_state@, key, modifiers);
    }
    if !matches!(app_state.awaiting, Awaiting::Key) || app_state.popup_mode.is_open() {
        return ;
    }
    match key {
        Key::Enter | Key::Esc => {
            app_state.break_now = true;
        },
        Key::Right => {
            if app_state.directory.selected_name().is_some() {
                app_state.awaiting = Awaiting::Kind;
            }
        },
        Key::Left => {
            app_state.awaiting = Awaiting::Listing { target: Target::Parent };
        },
        Key::Up => {
            app_state.directory.move_up();
        },
        Key::Down => {
            app_state.directory.move_down();
        },
        Key::Char(c) => {
            if c == 'n' || c == 'N' {
                if has_shift(modifiers) {
                    app_state.popup_mode = ModalMode::CreateDir;
                } else {
                    app_state.popup_mode = ModalMode::CreateFile;
                }
                app_state.input_buffer = String::new();
            } else if c == 'd' || c == 'D' {
                if app_state.directory.entries().len() > 0 {
                    app_state.popup_mode = ModalMode::Delete;
                    app_state.input_buffer = String::new();
                }
            } else if c == 'r' || c == 'R' {
                if app_state.directory.entries().len() > 0 {
                    if let Some(name) = app_state.directory.selected_name() {
                        let text = name.clone();
                        app_state.popup_mode = ModalMode::Rename;
                        app_state.input_buffer = text;
                    }
                }
            }
        },
        _ => {},
    }
}

/// Acts on Enter in an open prompt.
pub fn execute_popup_action(app_state: &mut AppState)
    requires
        old(app_state)@.wf(),
    ensures
        final(app_state)@ == old(app_state)@.on_confirm(),
        final(app_state)@.wf(),
{
    if !matches!(app_state.awaiting, Awaiting::Key) {
        return ;
    }
    match app_state.popup_mode {
        ModalMode::Closed => {
            app_state.close();
        },
        ModalMode::CreateFile | ModalMode::CreateDir => {
            if !is_blank(app_state.input_buffer.as_str()) {
                app_state.awaiting = Awaiting::Presence;
            } else {
                app_state.close();
            }
        },
        ModalMode::Delete => {
            if is_confirmation(app_state.input_buffer.as_str())
                && app_state.directory.selected_name().is_some() {
                app_state.awaiting = Awaiting::Kind;
            } else {
                app_state.close();
            }
        },
        ModalMode::Rename => {
            let mut attempt = false;
            if !is_blank(app_state.input_buffer.as_str()) {
                if let Some(old_path) = app_state.get_selected_path() {
                    let new_path = app_state.target_path();
                    attempt = !same(old_path.as_str(), new_path.as_str());
                }
            }
            if attempt {
                app_state.awaiting = Awaiting::Presence;
            } else {
                app_state.close();
            }
        },
    }
}

/// Handles a key press while a prompt is open.
pub fn handle_popup_input(app_state: &mut AppState, key: Key)
    requires
        old(app_state)@.wf(),
    ensures
        final(app_state)@ == old(app_state)@.on_popup_key(key),
        final(app_state)@.wf(),
{
    proof {
        lemma_on_key_wf(app_state@, key, 0);
    }
    if !matches!(app_state.awaiting, Awaiting::Key) || !app_state.popup_mode.is_open() {
        return ;
    }
    match key {
        Key::Esc => {
            app_state.popup_mode = ModalMode::Closed;
            app_state.input_buffer = String::new();
        },
        Key::Enter => {
            execute_popup_action(app_state);
        },
        Key::Backspace => {
            pop_char(&mut app_state.input_buffer);
        },
        Key::Char(c) => {
            push_char(&mut app_state.input_buffer, c);
        },
        _ => {},
    }
}

/// Handles a key press and says what is to be done next: the key goes to
/// the prompt if one is open, and moves through the directories otherwise.
pub fn handle_input(app_state: &mut AppState, key: Key, modifiers: u8) -> (request: Request)
    requires
        old(app_state)@.wf(),
    ensures
        final(app_state)@ == old(app_state)@.on_key(key, modifiers),
        final(app_state)@.wf(),
        request@ == final(app_state)@.request(),
{
    if app_state.popup_mode.is_open() {
        handle_popup_input(app_state, key);
    } else {
        handle_main_input(app_state, key, modifiers);
    }
    app_state.request()
}

/// Takes the reply to the outstanding request and says what is to be done
/// next.
pub fn handle_reply(app_state: &mut AppState, reply: Reply) -> (request: Request)
    requires
        old(app_state)@.wf(),
    ensures
        final(app_state)@ == old(app_state)@.on_reply(reply@),
        final(app_state)@.wf(),
        request@ == final(app_state)@.request(),
{
    proof {
        lemma_on_reply_wf(app_state@, reply@);
    }
    match reply {
        Reply::Flag(flag) => {
            match app_state.awaiting {
                Awaiting::Kind => {
                    if matches!(app_state.popup_mode, ModalMode::Delete) {
                        app_state.awaiting = Awaiting::Change { directory: flag };
                    } else if flag {
                        app_state.awaiting = Awaiting::Listing { target: Target::Child };
                    } else {
                        app_state.awaiting = Awaiting::Key;
                    }
                },
                Awaiting::Presence => {
                    if flag {
                        app_state.close();
                    } else {
                        app_state.awaiting = Awaiting::Change { directory: false };
                    }
                },
                _ => {},
            }
        },
        Reply::Done => {
            if matches!(app_state.awaiting, Awaiting::Change { .. }) {
                app_state.close();
            }
        },
        Reply::Listing(children) => {
            match app_state.awaiting {
                Awaiting::Listing { target } => {
                    match target {
                        Target::Same => app_state.directory.refresh_entries(children),
                        Target::Child => app_state.directory.enter(children),
                        Target::Parent => app_state.directory.leave(children),
                    }
                    app_state.awaiting = Awaiting::Key;
                },
                _ => {},
            }
        },
    }
    app_state.request()
}

} // verus!
