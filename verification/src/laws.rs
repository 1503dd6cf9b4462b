//! What holds of the browser whatever keys are pressed and whatever the
//! file system answers.

use crate::app::{lemma_on_key_wf, lemma_on_reply_wf, AppModel};
use crate::directory::DirectoryModel;
use crate::entries::{name_order, sorted_names};
use crate::keys::Key;
use crate::modal::ModalMode;
use crate::paths::path_same;
use crate::protocol::{Awaiting, ReplyModel, RequestModel};
use crate::text::{affirmative, blank, confirms};
use vstd::prelude::*;
use vstd::relations::sorted_by;

verus! {

/// One thing that happens to the browser.
pub enum Input {
    /// A key press, with its modifier bits.
    Key(Key, u8),
    /// A reply to a request.
    Reply(ReplyModel),
}

impl AppModel {
    /// The browser after `input`.
    pub open spec fn on_input(self, input: Input) -> AppModel {
        match input {
            Input::Key(key, modifiers) => self.on_key(key, modifiers),
            Input::Reply(reply) => self.on_reply(reply),
        }
    }

    /// The browser after `inputs`, one after the other.
    pub open spec fn run(self, inputs: Seq<Input>) -> AppModel
        decreases inputs.len(),
    {
        if inputs.len() == 0 {
            self
        } else {
            self.run(inputs.drop_last()).on_input(inputs.last())
        }
    }

    /// The browser after Enter in a prompt and after the replies that the
    /// file system then owes: `flag` where a question was asked, and the
    /// end of the change where one was made.
    pub open spec fn confirmed(self, modifiers: u8, flag: bool) -> AppModel {
        let entered = self.on_key(Key::Enter, modifiers);
        let answered = if entered.awaiting is Kind || entered.awaiting is Presence {
            entered.on_reply(ReplyModel::Flag(flag))
        } else {
            entered
        };
        if answered.awaiting is Change {
            answered.on_reply(ReplyModel::Done)
        } else {
            answered
        }
    }
}

/// The cursor is on an entry, or is 0 where there is none.
pub open spec fn cursor_in_bounds(directory: DirectoryModel) -> bool {
    if directory.entries.len() == 0 {
        directory.selected_index == 0
    } else {
        0 <= directory.selected_index < directory.entries.len()
    }
}

/// Whatever happens to a well-formed browser, it stays well formed: its
/// entries stay sorted and its cursor stays on an entry, or at 0 where
/// there is none.
pub proof fn lemma_run_wf(state: AppModel, inputs: Seq<Input>)
    requires
        state.wf(),
    ensures
        state.run(inputs).wf(),
        sorted_by(state.run(inputs).directory.entries, name_order()),
        cursor_in_bounds(state.run(inputs).directory),
    decreases inputs.len(),
{
    if inputs.len() > 0 {
        lemma_run_wf(state, inputs.drop_last());
        let before = state.run(inputs.drop_last());
        match inputs.last() {
            Input::Key(key, modifiers) => lemma_on_key_wf(before, key, modifiers),
            Input::Reply(reply) => lemma_on_reply_wf(before, reply),
        }
    }
}

/// Any run of Up and Down keys moves nothing but the cursor, and the
/// cursor never leaves the entries: it stays at 0 where there is none.
pub proof fn lemma_up_down_stay_in_bounds(state: AppModel, inputs: Seq<Input>)
    requires
        state.wf(),
        forall|i: int|
            0 <= i < inputs.len() ==> (#[trigger] inputs[i] matches Input::Key(key, _)
                && (key is Up || key is Down)),
    ensures
        state.run(inputs) == (AppModel {
            directory: DirectoryModel {
                selected_index: state.run(inputs).directory.selected_index,
                ..state.directory
            },
            ..state
        }),
        cursor_in_bounds(state.run(inputs).directory),
        state.directory.entries.len() == 0 ==> state.run(inputs) == state,
    decreases inputs.len(),
{
    if inputs.len() > 0 {
        lemma_up_down_stay_in_bounds(state, inputs.drop_last());
        lemma_run_wf(state, inputs);
    }
}

/// Up at the top and Down at the bottom leave the cursor where it is:
/// it does not wrap around.
pub proof fn lemma_cursor_does_not_wrap(state: AppModel, modifiers: u8)
    requires
        state.wf(),
        state.awaiting is Key,
        state.mode is Closed,
    ensures
        state.directory.selected_index == 0 ==> state.on_key(Key::Up, modifiers) == state,
        state.directory.selected_index + 1 >= state.directory.entries.len() ==> state.on_key(
            Key::Down,
            modifiers,
        ) == state,
        state.directory.selected_index > 0 ==> state.on_key(
            Key::Up,
            modifiers,
        ).directory.selected_index == state.directory.selected_index - 1,
        state.directory.selected_index + 1 < state.directory.entries.len() ==> state.on_key(
            Key::Down,
            modifiers,
        ).directory.selected_index == state.directory.selected_index + 1,
{
}

/// A listing that ends a move into the entry under the cursor, or out to
/// the parent, leaves the cursor at 0, on the sorted children of the
/// directory moved to.
pub proof fn lemma_move_resets_cursor(state: AppModel, children: Seq<Seq<char>>)
    requires
        state.awaiting matches Awaiting::Listing { target } && !(target is Same),
    ensures
        state.on_reply(ReplyModel::Listing(children)).directory.selected_index == 0,
        state.on_reply(ReplyModel::Listing(children)).directory.entries == sorted_names(children),
        state.on_reply(ReplyModel::Listing(children)).awaiting is Key,
        RequestModel::List(state.on_reply(ReplyModel::Listing(children)).directory.focus_dir)
            == state.request(),
{
}

/// Right on a directory: the browser asks whether the entry under the
/// cursor is one, asks for its listing when told so, and then displays it
/// with the cursor at 0.
pub proof fn lemma_right_enters_directory(
    state: AppModel,
    modifiers: u8,
    children: Seq<Seq<char>>,
)
    requires
        state.wf(),
        state.awaiting is Key,
        state.mode is Closed,
        state.directory.has_selection(),
    ensures
        ({
            let asked = state.on_key(Key::Right, modifiers);
            let told = asked.on_reply(ReplyModel::Flag(true));
            let listed = told.on_reply(ReplyModel::Listing(children));
            &&& asked.request() == RequestModel::IsDir(state.directory.selected_path())
            &&& told.request() == RequestModel::List(state.directory.selected_path())
            &&& listed == AppModel {
                directory: DirectoryModel::listing(state.directory.selected_path(), children),
                ..state
            }
            &&& listed.directory.selected_index == 0
            &&& listed.request() == RequestModel::NextKey
        }),
{
}

/// Right on anything but a directory, or with no entry under the cursor,
/// changes nothing.
pub proof fn lemma_right_stays_on_file(state: AppModel, modifiers: u8)
    requires
        state.wf(),
        state.awaiting is Key,
        state.mode is Closed,
    ensures
        !state.directory.has_selection() ==> state.on_key(Key::Right, modifiers) == state,
        state.directory.has_selection() ==> state.on_key(Key::Right, modifiers).on_reply(
            ReplyModel::Flag(false),
        ) == state,
{
}

/// Left: the browser asks for the listing of the parent and then displays
/// it with the cursor at 0.
pub proof fn lemma_left_leaves_for_parent(
    state: AppModel,
    modifiers: u8,
    children: Seq<Seq<char>>,
)
    requires
        state.wf(),
        state.awaiting is Key,
        state.mode is Closed,
    ensures
        ({
            let asked = state.on_key(Key::Left, modifiers);
            let listed = asked.on_reply(ReplyModel::Listing(children));
            &&& asked.request() == RequestModel::List(state.directory.parent_path())
            &&& listed == AppModel {
                directory: DirectoryModel::listing(state.directory.parent_path(), children),
                ..state
            }
            &&& listed.directory.selected_index == 0
            &&& listed.request() == RequestModel::NextKey
        }),
{
}

/// Esc in an open prompt closes it and clears the buffer; the directory
/// on display stays as it is and nothing is asked of the file system.
pub proof fn lemma_esc_cancels(state: AppModel, modifiers: u8)
    requires
        state.awaiting is Key,
        !(state.mode is Closed),
    ensures
        state.on_key(Key::Esc, modifiers) == (AppModel {
            mode: ModalMode::Closed,
            input_buffer: Seq::empty(),
            ..state
        }),
        state.on_key(Key::Esc, modifiers).request() == RequestModel::NextKey,
{
}

/// Opening a prompt and pressing Esc gives back the browser as it was.
pub proof fn lemma_open_then_esc_restores(
    state: AppModel,
    key: Key,
    modifiers: u8,
    esc_modifiers: u8,
)
    requires
        state.wf(),
        state.awaiting is Key,
        state.mode is Closed,
        !(state.on_key(key, modifiers).mode is Closed),
    ensures
        state.on_key(key, modifiers).on_key(Key::Esc, esc_modifiers) == state,
{
    assert(state.input_buffer =~= Seq::empty());
}

/// Typing into a prompt changes the buffer alone.
pub proof fn lemma_typing_edits_buffer(state: AppModel, key: Key, modifiers: u8)
    requires
        state.awaiting is Key,
        !(state.mode is Closed),
        key is Char || key is Backspace,
    ensures
        state.on_key(key, modifiers) == (AppModel {
            input_buffer: state.on_key(key, modifiers).input_buffer,
            ..state
        }),
        key matches Key::Char(c) ==> state.on_key(key, modifiers).input_buffer
            == state.input_buffer.push(c),
        key is Backspace && state.input_buffer.len() > 0 ==> state.on_key(
            key,
            modifiers,
        ).input_buffer == state.input_buffer.drop_last(),
        key is Backspace && state.input_buffer.len() == 0 ==> state.on_key(
            key,
            modifiers,
        ).input_buffer == state.input_buffer,
{
}

/// Enter in a prompt always ends with the prompt closed, the buffer
/// cleared and a fresh listing of the directory on display asked for,
/// whether or not anything was changed. With the listing the directory is
/// displayed anew, the cursor kept on the entries.
pub proof fn lemma_enter_always_closes(
    state: AppModel,
    modifiers: u8,
    flag: bool,
    children: Seq<Seq<char>>,
)
    requires
        state.wf(),
        state.awaiting is Key,
        !(state.mode is Closed),
    ensures
        state.confirmed(modifiers, flag) == state.closed(),
        state.confirmed(modifiers, flag).request() == RequestModel::List(
            state.directory.focus_dir,
        ),
        state.confirmed(modifiers, flag).on_reply(ReplyModel::Listing(children)) == (AppModel {
            directory: state.directory.refreshed(children),
            mode: ModalMode::Closed,
            input_buffer: Seq::empty(),
            awaiting: Awaiting::Key,
            ..state
        }),
{
}

/// The file system is changed only by the request that follows a reply
/// to a question: a key press alone never asks for a change.
pub proof fn lemma_keys_change_nothing(state: AppModel, key: Key, modifiers: u8)
    requires
        state.wf(),
        state.awaiting is Key,
    ensures
        !state.on_key(key, modifiers).request().is_change(),
{
}

/// A create or a rename whose target exists is dropped: no change is
/// asked for, and the prompt closes.
pub proof fn lemma_existing_target_is_kept(state: AppModel)
    requires
        state.wf(),
        state.awaiting is Presence,
    ensures
        state.request() == RequestModel::Exists(state.target_path()),
        state.on_reply(ReplyModel::Flag(true)) == state.closed(),
        !state.on_reply(ReplyModel::Flag(true)).request().is_change(),
{
}

/// A create with a name that is not blank asks whether the target
/// exists, and creates it only when told that it does not; with a blank
/// name it asks nothing.
pub proof fn lemma_create_checks_target(state: AppModel, modifiers: u8)
    requires
        state.wf(),
        state.awaiting is Key,
        state.mode is CreateFile || state.mode is CreateDir,
    ensures
        ({
            let entered = state.on_key(Key::Enter, modifiers);
            let target = state.target_path();
            if blank(state.input_buffer) {
                entered == state.closed()
            } else {
                &&& entered.request() == RequestModel::Exists(target)
                &&& entered.on_reply(ReplyModel::Flag(true)) == state.closed()
                &&& entered.on_reply(ReplyModel::Flag(false)).request() == if state.mode
                    is CreateFile {
                    RequestModel::CreateFile(target)
                } else {
                    RequestModel::CreateDir(target)
                }
            }
        }),
{
}

/// A rename is attempted only with a name that is not blank and a target
/// that differs, as a path, from the entry under the cursor; it then asks
/// whether the target exists, and renames only when told that it does
/// not.
pub proof fn lemma_rename_checks_target(state: AppModel, modifiers: u8)
    requires
        state.wf(),
        state.awaiting is Key,
        state.mode is Rename,
    ensures
        ({
            let entered = state.on_key(Key::Enter, modifiers);
            let from = state.directory.selected_path();
            let to = state.target_path();
            if blank(state.input_buffer) || path_same(from, to) {
                entered == state.closed()
            } else {
                &&& entered.request() == RequestModel::Exists(to)
                &&& entered.on_reply(ReplyModel::Flag(true)) == state.closed()
                &&& entered.on_reply(ReplyModel::Flag(false)).request() == RequestModel::Rename(
                    from,
                    to,
                )
            }
        }),
{
}

/// A delete goes ahead only on an answer that confirms; on any other
/// answer nothing is asked of the entry and the prompt closes. A
/// confirmed delete removes a directory with all that it holds, and
/// anything else as a single file.
pub proof fn lemma_delete_needs_confirmation(state: AppModel, modifiers: u8, is_dir: bool)
    requires
        state.wf(),
        state.awaiting is Key,
        state.mode is Delete,
    ensures
        ({
            let entered = state.on_key(Key::Enter, modifiers);
            let path = state.directory.selected_path();
            if confirms(state.input_buffer) {
                &&& entered.request() == RequestModel::IsDir(path)
                &&& entered.on_reply(ReplyModel::Flag(is_dir)).request() == if is_dir {
                    RequestModel::RemoveDirAll(path)
                } else {
                    RequestModel::RemoveFile(path)
                }
            } else {
                entered == state.closed()
            }
        }),
{
}

/// Of lower-cased answers, only `y` and `yes` confirm, with nothing
/// before or after them.
pub proof fn lemma_affirmative_is_exact(lowered: Seq<char>)
    ensures
        affirmative(lowered) <==> lowered == seq!['y'] || lowered == seq!['y', 'e', 's'],
{
    reveal_strlit("y");
    reveal_strlit("yes");
    assert("y"@ =~= seq!['y']);
    assert("yes"@ =~= seq!['y', 'e', 's']);
}

} // verus!
