use vstd::prelude::*;

verus! {

/// Where the open-or-create-then-read pipeline stands.
#[derive(Clone, Copy, PartialEq, Eq, Structural, Debug)]
pub enum Stage {
    /// About to open the resource for reading.
    Open,
    /// The resource was absent; about to create it.
    Create,
    /// A handle is held; about to read the whole content.
    Read,
    /// Nothing is left to do.
    Done,
}

/// What the outside step of the current stage reported.
#[derive(Clone, Copy, PartialEq, Eq, Structural, Debug)]
pub enum Outcome {
    Succeeded,
    /// The step failed because the resource does not exist.
    NotFound,
    /// The step failed for any other reason.
    Failed,
}

/// What the caller does next.
#[derive(Clone, Copy, PartialEq, Eq, Structural, Debug)]
pub enum Action {
    /// Create the resource.
    Create,
    /// Read the whole content from the handle held.
    Read,
    /// Hand the content read to the caller.
    Deliver,
    /// Hand the read failure to the caller as a value.
    Propagate,
    /// Stop: the resource could neither be opened nor found absent.
    AbortOpen,
    /// Stop: the absent resource could not be created.
    AbortCreate,
}

/// The action is a fatal stop rather than a result for the caller.
pub open spec fn is_fatal(a: Action) -> bool {
    a == Action::AbortOpen || a == Action::AbortCreate
}

/// The pipeline's transitions.
pub open spec fn transition(stage: Stage, outcome: Outcome) -> (Stage, Action) {
    match stage {
        Stage::Open => match outcome {
            Outcome::Succeeded => (Stage::Read, Action::Read),
            Outcome::NotFound => (Stage::Create, Action::Create),
            Outcome::Failed => (Stage::Done, Action::AbortOpen),
        },
        Stage::Create => if outcome == Outcome::Succeeded {
            (Stage::Read, Action::Read)
        } else {
            (Stage::Done, Action::AbortCreate)
        },
        _ => if outcome == Outcome::Succeeded {
            (Stage::Done, Action::Deliver)
        } else {
            (Stage::Done, Action::Propagate)
        },
    }
}

/// Decides the next stage and action from the outcome of the current
/// stage's step. Only opening and creating can end in a fatal stop; a failed
/// read is always handed back to the caller.
pub fn step(stage: Stage, outcome: Outcome) -> (r: (Stage, Action))
    requires
        stage != Stage::Done,
    ensures
        r == transition(stage, outcome),
        stage == Stage::Read ==> !is_fatal(r.1),
        is_fatal(r.1) || r.1 == Action::Deliver || r.1 == Action::Propagate <==> r.0
            == Stage::Done,
{
    match stage {
        Stage::Open => match outcome {
            Outcome::Succeeded => (Stage::Read, Action::Read),
            Outcome::NotFound => (Stage::Create, Action::Create),
            Outcome::Failed => (Stage::Done, Action::AbortOpen),
        },
        Stage::Create => match outcome {
            Outcome::Succeeded => (Stage::Read, Action::Read),
            _ => (Stage::Done, Action::AbortCreate),
        },
        _ => match outcome {
            Outcome::Succeeded => (Stage::Done, Action::Deliver),
            _ => (Stage::Done, Action::Propagate),
        },
    }
}

} // verus!
