use vstd::prelude::*;

verus! {

/// What the user chose for one branch.
#[derive(Debug, Clone, Copy, PartialEq, Eq, Structural)]
pub enum CliAction {
    Keep,
    Delete,
    Quit,
    Undo,
}

/// Every failure that ends a review run. The outside failures carry the
/// message of the error that caused them.
#[derive(Debug, PartialEq, Eq)]
pub enum CliError {
    /// Raw-mode switching or another terminal failure.
    Crossterm(String),
    /// A general input/output failure.
    Io(String),
    /// The repository could not be opened or read, or a branch not deleted.
    Git(String),
    /// A branch name is not valid UTF-8.
    FromUtf8(String),
    /// A commit time that cannot be shown as a calendar date.
    Time(i64),
    /// The user typed a character that names no command.
    InvalidInput(char),
}

/// The action that a typed character names, if any.
pub open spec fn action_of(c: char) -> Option<CliAction> {
    if c == 'k' {
        Some(CliAction::Keep)
    } else if c == 'd' {
        Some(CliAction::Delete)
    } else if c == 'q' {
        Some(CliAction::Quit)
    } else if c == 'u' {
        Some(CliAction::Undo)
    } else {
        None
    }
}

impl CliAction {
    /// Reads a command character: `k`, `d`, `q` and `u` name an action, any
    /// other character is refused as invalid input.
    pub fn try_from(value: char) -> (r: Result<CliAction, CliError>)
        ensures
            action_of(value) matches Some(a) ==> r == Ok::<CliAction, CliError>(a),
            action_of(value) is None ==> r == Err::<CliAction, CliError>(
                CliError::InvalidInput(value),
            ),
    {
        match value {
            'k' => Ok(CliAction::Keep),
            'd' => Ok(CliAction::Delete),
            'q' => Ok(CliAction::Quit),
            'u' => Ok(CliAction::Undo),
            _ => Err(CliError::InvalidInput(value)),
        }
    }
}

} // verus!
