//! Turning a command's exit status into an early return.
use vstd::prelude::*;

verus! {

/// Values that can end a task early with an error of type `E`.
pub trait EarlyRet<E>: Sized {
    /// The value itself when it shows success, the error otherwise.
    fn early_ret(self) -> Result<Self, E>;
}

/// How a finished command exited.
#[derive(Clone, Copy, PartialEq, Eq, Structural)]
pub struct CommandStatus {
    pub success: bool,
}

/// A command exited unsuccessfully.
#[derive(Clone, Copy, PartialEq, Eq, Structural)]
pub struct CommandFailed;

/// What a failed command is reported as.
pub const COMMAND_FAILED_MESSAGE: &'static str = "Command failed";

impl CommandFailed {
    pub fn message(&self) -> (text: &'static str)
        ensures
            text@ == COMMAND_FAILED_MESSAGE@,
    {
        COMMAND_FAILED_MESSAGE
    }
}

impl EarlyRet<CommandFailed> for CommandStatus {
    fn early_ret(self) -> (res: Result<CommandStatus, CommandFailed>)
        ensures
            res == (if self.success {
                Ok::<CommandStatus, CommandFailed>(self)
            } else {
                Err(CommandFailed)
            }),
    {
        if self.success {
            Ok(self)
        } else {
            Err(CommandFailed)
        }
    }
}

} // verus!
