//! The system editor used to open journal files.
use vstd::prelude::*;
use crate::errors::{AppError, AppResult, EditorError, IoFailure};
use crate::util::concat2;

verus! {

/// Opens files with an editor command run as a child process.
#[derive(Debug, Clone)]
pub struct SystemEditor {
    /// The editor command.
    pub editor_cmd: String,
}

impl SystemEditor {
    /// Whether the editor is to be started for `count` files: not for none.
    pub fn should_launch(&self, count: usize) -> (r: bool)
        ensures
            r == (count > 0),
    {
        count > 0
    }

    /// What opening files amounts to, given whether the editor process could
    /// be run: a failure to run it is an editor error naming the command.
    pub fn open_outcome(&self, run: Result<(), IoFailure>) -> (r: AppResult<()>)
        ensures
            match run {
                Ok(()) => r is Ok,
                Err(e) => r matches Err(AppError::Editor(EditorError::Other { command, message }))
                    && command@ == self.editor_cmd@ && message@ == "Failed to open files: "@ + e.message@,
            },
    {
        match run {
            Ok(()) => Ok(()),
            Err(e) => Err(AppError::Editor(EditorError::Other {
                command: self.editor_cmd.clone(),
                message: concat2("Failed to open files: ", e.message.as_str()),
            })),
        }
    }
}

} // verus!
