//! Commands the prompt will execute, typically from a key binding trigger.
use vstd::prelude::*;

verus! {

/// Commands executed by the prompt.
#[derive(Debug, Clone, Copy, PartialEq, Eq)]
pub enum Command {
    /// Write the character to the terminal.
    WriteChar(char),
    /// Accept the line (`accept-line`).
    AcceptLine,
    /// Move cursor left.
    MoveCursorLeft,
    /// Move cursor right.
    MoveCursorRight,
    /// Erase the last character (`backward-delete-char`).
    BackwardDeleteChar,
    /// Clear the screen (`clear-screen`).
    ClearScreen,
    /// Abort the prompt.
    AbortPrompt,
    /// Move to beginning of the line.
    MoveToLineBegin,
    /// Move to end of the line.
    MoveToLineEnd,
    /// Erase to the beginning of the line.
    BackwardKillLine,
    /// Erase to the end of the line.
    EraseToLineEnd,
    /// Erase the previous word.
    BackwardKillWord,
    /// Go to previous history item (`previous-history`).
    PreviousHistory,
    /// Go to next history item (`next-history`).
    NextHistory,
}

} // verus!
