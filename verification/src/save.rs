use vstd::prelude::*;

verus! {

/// What the save command should do once the dialog has closed: nothing when
/// the user cancelled, otherwise write the document to the chosen path.
pub enum SaveAction {
    DoNothing,
    WriteTo(String),
}

/// How the save flow ended. `Cancelled` means the dialog was dismissed and
/// no write was attempted.
pub enum SaveOutcome {
    Cancelled,
    Written,
    WriteFailed(String),
}

/// Decide from the dialog's answer. A cancelled dialog plans no write; a
/// chosen path is written to, unchanged.
pub fn plan_save(choice: Option<String>) -> (action: SaveAction)
    ensures
        choice is None <==> action is DoNothing,
        choice matches Some(p) ==> action matches SaveAction::WriteTo(q) && q@ == p@,
{
    match choice {
        None => SaveAction::DoNothing,
        Some(p) => SaveAction::WriteTo(p),
    }
}

/// Final result of the save command. Cancellation is never an error; only a
/// failed write surfaces one, carrying the write error's message.
pub fn resolve_save(outcome: SaveOutcome) -> (res: Result<(), String>)
    ensures
        res is Ok <==> !(outcome is WriteFailed),
        outcome is Cancelled ==> res is Ok,
        outcome matches SaveOutcome::WriteFailed(m) ==> res matches Err(e) && e@ == m@,
{
    match outcome {
        SaveOutcome::Cancelled => Ok(()),
        SaveOutcome::Written => Ok(()),
        SaveOutcome::WriteFailed(m) => Err(m),
    }
}

} // verus!
