//! What a hook can answer.

use vstd::prelude::*;
use vstd::string::StringExecFns;

verus! {

/// An answer of a hook that ends the traversal. It travels up through every
/// enclosing call unchanged; the caller of the traversal decides what becomes
/// of the value it was raised for.
#[must_use]
#[derive(Clone, Copy, PartialEq, Eq, Debug)]
pub enum ProcessingAction {
    /// The value and its metadata are to be dropped.
    DeleteValueHard,
    /// The value is to be dropped and kept as the original value in its
    /// metadata.
    DeleteValueSoft,
    /// The whole input is invalid, for the reason given.
    InvalidTransaction(&'static str),
}

/// How a traversal ended.
pub type ProcessingResult = Result<(), ProcessingAction>;

/// What the engine is to do with the children of a node after its hook.
#[derive(Clone, Copy, PartialEq, Eq, Structural, Debug)]
pub enum Descent {
    /// Visit the children. A hook that has nothing of its own to do answers
    /// this.
    Recurse,
    /// Leave the children out.
    Skip,
}

/// The answer of a hook.
pub type HookResult = Result<Descent, ProcessingAction>;

/// The text that describes an action.
pub open spec fn action_message(action: ProcessingAction) -> Seq<char> {
    match action {
        ProcessingAction::DeleteValueHard | ProcessingAction::DeleteValueSoft => {
            "value should be hard-deleted (unreachable, should not surface as error!)"@
        },
        ProcessingAction::InvalidTransaction(reason) => "invalid transaction event: "@ + reason@,
    }
}

/// The result of a traversal that ends with the answer `answer` of a hook and
/// visits nothing after it.
pub open spec fn spec_settled(answer: HookResult) -> ProcessingResult {
    match answer {
        Ok(_) => Ok(()),
        Err(action) => Err(action),
    }
}

/// The result of a traversal that ends with the answer `answer` of a hook and
/// visits nothing after it.
#[verifier::when_used_as_spec(spec_settled)]
pub fn settled(answer: HookResult) -> (r: ProcessingResult)
    ensures
        r == spec_settled(answer),
{
    match answer {
        Ok(_) => Ok(()),
        Err(action) => Err(action),
    }
}

impl ProcessingAction {
    /// The text that describes the action.
    pub fn message(&self) -> (r: String)
        ensures
            r@ == action_message(*self),
    {
        match self {
            ProcessingAction::DeleteValueHard | ProcessingAction::DeleteValueSoft => {
                String::from_str(
                    "value should be hard-deleted (unreachable, should not surface as error!)",
                )
            },
            ProcessingAction::InvalidTransaction(reason) => {
                let mut text = String::from_str("invalid transaction event: ");
                text.append(reason);
                text
            },
        }
    }
}

} // verus!
