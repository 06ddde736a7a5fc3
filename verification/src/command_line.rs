//! Decision logic behind the operator-facing terminal helpers: which colour
//! a statement is printed in, and how an operator's answer to the safety
//! gate is read.

use vstd::prelude::*;

verus! {

/// The kinds of statement an agent prints while working.
#[derive(Debug, Clone, Copy, PartialEq, Eq, Structural)]
pub enum PrintCommand {
    AICall,
    UnitTest,
    Issue,
}

/// The colour vocabulary the terminal layer renders with.
#[derive(Debug, Clone, Copy, PartialEq, Eq, Structural)]
pub enum StatementColour {
    Cyan,
    Magenta,
    Red,
}

impl PrintCommand {
    /// The colour each kind of statement is printed in: cyan for model
    /// calls, magenta for unit testing, red for issues.
    pub fn statement_colour(&self) -> (c: StatementColour)
        ensures
            c == match *self {
                PrintCommand::AICall => StatementColour::Cyan,
                PrintCommand::UnitTest => StatementColour::Magenta,
                PrintCommand::Issue => StatementColour::Red,
            },
    {
        match *self {
            PrintCommand::AICall => StatementColour::Cyan,
            PrintCommand::UnitTest => StatementColour::Magenta,
            PrintCommand::Issue => StatementColour::Red,
        }
    }
}

/// Whether a trimmed, lower-cased operator answer approves the generated
/// code ("1", "ok" or "y"), rejects it ("2", "no" or "n"), or is not an
/// answer at all.
pub open spec fn spec_confirmation(answer: Seq<char>) -> Option<bool> {
    if answer == "1"@ || answer == "ok"@ || answer == "y"@ {
        Some(true)
    } else if answer == "2"@ || answer == "no"@ || answer == "n"@ {
        Some(false)
    } else {
        None
    }
}

/// Reads an operator answer to the safety gate. `None` asks the operator
/// again.
pub fn interpret_confirmation(answer: &str) -> (r: Option<bool>)
    ensures
        r == spec_confirmation(answer@),
{
    let a: String = String::from_str(answer);
    if a == String::from_str("1") || a == String::from_str("ok") || a == String::from_str("y") {
        Some(true)
    } else if a == String::from_str("2") || a == String::from_str("no") || a == String::from_str(
        "n",
    ) {
        Some(false)
    } else {
        None
    }
}

} // verus!
