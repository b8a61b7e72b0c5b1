use vstd::prelude::*;

verus! {

/// How one file's operation ended. `AlreadySatisfied` is a warning, not a
/// true failure: the file needed no work.
#[derive(Clone, Copy, Debug, PartialEq, Eq, Structural)]
pub enum Outcome {
    Success,
    AlreadySatisfied,
    ReadFailure,
    FormatGuessFailure,
    EncodeFailure,
    WriteFailure,
}

/// Everything but success and the already-satisfied warning counts as a
/// failure in the batch report.
pub open spec fn is_failure(oc: Outcome) -> bool {
    !(oc is Success) && !(oc is AlreadySatisfied)
}

/// Runtime test matching `is_failure`.
pub fn outcome_is_failure(oc: Outcome) -> (r: bool)
    ensures
        r == is_failure(oc),
{
    match oc {
        Outcome::Success => false,
        Outcome::AlreadySatisfied => false,
        _ => true,
    }
}

/// The outcome to report once the requested write has been attempted: a
/// failed write overrides whatever was planned.
pub fn outcome_after_write(planned: Outcome, wrote_ok: bool) -> (r: Outcome)
    ensures
        r == if wrote_ok {
            planned
        } else {
            Outcome::WriteFailure
        },
{
    if wrote_ok {
        planned
    } else {
        Outcome::WriteFailure
    }
}

} // verus!
