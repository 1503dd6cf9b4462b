//! The hand-over to the shell that started the browser.

use vstd::prelude::*;
use vstd::string::StringExecFns;

verus! {

/// The shell command that puts `cd` to `focus_dir`, the path in double
/// quotes, on the clipboard.
pub open spec fn shell_command_text(focus_dir: Seq<char>) -> Seq<char> {
    "echo cd '\""@ + focus_dir + "\"' | clip.exe"@
}

/// The shell command by which the shell that started the browser can
/// follow it to `focus_dir`.
pub fn shell_command(focus_dir: &str) -> (command: String)
    ensures
        command@ == shell_command_text(focus_dir@),
{
    let mut command = String::from_str("echo cd '\"");
    command.append(focus_dir);
    command.append("\"' | clip.exe");
    command
}

} // verus!
