//! How a call went.

use crate::chain::{result_view, Response, ResponseView, Step, StepView};
use crate::error::{ContractError, ContractErrorView, StdError, StdErrorView};
use crate::state::StateView;
use vstd::prelude::*;

verus! {

/// How a call ends, or the question it waits for: on success, the new state and
/// the response.
pub type Outcome = StepView<(StateView, ResponseView), ContractErrorView>;

/// A call that may change the state and may ask the chain has gone as its outcome
/// says. Unless it succeeds, the state stays as it was.
pub open spec fn performed(
    outcome: Outcome,
    before: StateView,
    after: StateView,
    step: Step<Response, ContractError>,
) -> bool {
    match outcome {
        StepView::Ask(question) => {
            &&& step.deep_view() == StepView::<ResponseView, ContractErrorView>::Ask(question)
            &&& after == before
        },
        StepView::Done(ended) => step matches Step::Done(r) && carried_out(
            ended,
            before,
            after,
            r,
        ),
    }
}

/// A call that may change the state has gone as its outcome says. Unless it
/// succeeds, the state stays as it was.
pub open spec fn carried_out(
    outcome: Result<(StateView, ResponseView), ContractErrorView>,
    before: StateView,
    after: StateView,
    r: Result<Response, ContractError>,
) -> bool {
    match outcome {
        Ok((state, response)) => {
            &&& result_view(r) == Ok::<ResponseView, ContractErrorView>(response)
            &&& after == state
        },
        Err(e) => {
            &&& result_view(r) == Err::<ResponseView, ContractErrorView>(e)
            &&& after == before
        },
    }
}

/// The refusal of a sender who is not the admin.
pub open spec fn not_admin() -> ContractErrorView {
    ContractErrorView::Unauthorized("Sender is not an admin"@)
}

/// Refuses a sender who is not the admin.
pub fn unauthorized() -> (e: ContractError)
    ensures
        e.deep_view() == not_admin(),
{
    ContractError::Unauthorized("Sender is not an admin".to_owned())
}

/// What is missing while the token contract is not made yet.
pub open spec fn no_sg721_address() -> StdErrorView {
    StdErrorView::NotFound { kind: "cosmwasm_std::addresses::Addr"@ }
}

/// Says that the token contract is not made yet.
pub fn missing_sg721_address() -> (e: StdError)
    ensures
        e.deep_view() == no_sg721_address(),
{
    StdError::NotFound { kind: "cosmwasm_std::addresses::Addr".to_owned() }
}

} // verus!
