//! The prompts that capture the keyboard while one is open.

use vstd::prelude::*;

verus! {

/// Which prompt is open. `Closed` is none: the keys then move the cursor.
#[derive(Clone, Copy, Debug, PartialEq, Eq)]
pub enum ModalMode {
    Closed,
    CreateFile,
    CreateDir,
    Delete,
    Rename,
}

impl ModalMode {
    /// The heading of the prompt.
    pub open spec fn title_text(self) -> Seq<char> {
        match self {
            ModalMode::Closed => ""@,
            ModalMode::CreateFile => "Create New File"@,
            ModalMode::CreateDir => "Create New Directory"@,
            ModalMode::Delete => "Delete Confirmation"@,
            ModalMode::Rename => "Rename Item"@,
        }
    }

    /// The line that asks for the input.
    pub open spec fn prompt_text(self) -> Seq<char> {
        match self {
            ModalMode::Closed => ""@,
            ModalMode::CreateFile => "Enter filename:"@,
            ModalMode::CreateDir => "Enter directory name:"@,
            ModalMode::Delete => "Type 'y' or 'yes' to confirm:"@,
            ModalMode::Rename => "Enter new name:"@,
        }
    }

    /// Whether a prompt is open.
    pub fn is_open(self) -> (open: bool)
        ensures
            open == !(self is Closed),
    {
        match self {
            ModalMode::Closed => false,
            _ => true,
        }
    }

    /// The heading of the prompt.
    pub fn title(self) -> (title: &'static str)
        ensures
            title@ == self.title_text(),
    {
        match self {
            ModalMode::Closed => "",
            ModalMode::CreateFile => "Create New File",
            ModalMode::CreateDir => "Create New Directory",
            ModalMode::Delete => "Delete Confirmation",
            ModalMode::Rename => "Rename Item",
        }
    }

    /// The line that asks for the input.
    pub fn prompt(self) -> (prompt: &'static str)
        ensures
            prompt@ == self.prompt_text(),
    {
        match self {
            ModalMode::Closed => "",
            ModalMode::CreateFile => "Enter filename:",
            ModalMode::CreateDir => "Enter directory name:",
            ModalMode::Delete => "Type 'y' or 'yes' to confirm:",
            ModalMode::Rename => "Enter new name:",
        }
    }
}

} // verus!
