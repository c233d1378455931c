//! The three-step echo chain as a state machine.
//!
//! Each step validates a payload and then demands one outbound post to the
//! echo service; the caller performs the post and hands the outcome back.
//! Three successful steps finish the chain with the last echoed payload.

use vstd::prelude::*;
use crate::payload::{
    SomeData, SomeDataView, ValidationError, first_validation_error, payload_valid,
};

verus! {

/// How many outbound echo calls a full chain makes.
pub const CHAIN_STEPS: u8 = 3;

/// Error from one outbound echo call: a connectivity failure or a response
/// body that did not parse as the echo envelope.
#[derive(Debug, Clone, PartialEq)]
pub struct RequestError {
    pub message: String,
}

impl View for RequestError {
    type V = Seq<char>;

    open spec fn view(&self) -> Seq<char> {
        self.message@
    }
}

/// Why a chain stopped early.
#[derive(Debug, Clone, PartialEq)]
pub enum ChainError {
    /// A payload broke a length constraint; a client error, no post is made
    /// for it.
    Validation(ValidationError),
    /// An outbound call failed; a server error.
    Request(RequestError),
}

/// Model of a chain error.
#[verifier::ext_equal]
pub ghost enum ChainErrorView {
    Validation(ValidationError),
    Request(Seq<char>),
}

impl View for ChainError {
    type V = ChainErrorView;

    open spec fn view(&self) -> ChainErrorView {
        match self {
            ChainError::Validation(e) => ChainErrorView::Validation(*e),
            ChainError::Request(e) => ChainErrorView::Request(e@),
        }
    }
}

/// Where a chain stands. `NeedPost` demands exactly one outbound post of
/// `payload`; `Done` and `Failed` demand nothing.
#[derive(Debug, PartialEq)]
pub enum ChainState {
    NeedPost { step: u8, payload: SomeData },
    Done { result: SomeData },
    Failed { error: ChainError },
}

/// Model of a chain state.
#[verifier::ext_equal]
pub ghost enum ChainStateView {
    NeedPost { step: int, payload: SomeDataView },
    Done { result: SomeDataView },
    Failed { error: ChainErrorView },
}

impl View for ChainState {
    type V = ChainStateView;

    open spec fn view(&self) -> ChainStateView {
        match self {
            ChainState::NeedPost { step, payload } => ChainStateView::NeedPost {
                step: *step as int,
                payload: payload@,
            },
            ChainState::Done { result } => ChainStateView::Done { result: result@ },
            ChainState::Failed { error } => ChainStateView::Failed { error: error@ },
        }
    }
}

/// Model of the outcome of one outbound echo call: the echoed payload, or
/// the request error's message.
pub open spec fn response_view(r: Result<SomeData, RequestError>) -> Result<
    SomeDataView,
    Seq<char>,
> {
    match r {
        Ok(p) => Ok(p@),
        Err(e) => Err(e@),
    }
}

/// What starting a chain yields: the first post for a valid payload, an
/// immediate validation failure (and so no post at all) otherwise.
pub open spec fn chain_start_spec(p: SomeDataView) -> ChainStateView {
    if payload_valid(p) {
        ChainStateView::NeedPost { step: 1, payload: p }
    } else {
        ChainStateView::Failed { error: ChainErrorView::Validation(first_validation_error(p)) }
    }
}

/// What the outcome of the `step`-th post yields: a failed call fails the
/// chain; the third echoed payload finishes it; an earlier echoed payload is
/// validated and, when valid, posted next.
pub open spec fn chain_on_response_spec(step: int, response: Result<SomeDataView, Seq<char>>)
    -> ChainStateView
    recommends
        1 <= step <= CHAIN_STEPS,
{
    match response {
        Err(m) => ChainStateView::Failed { error: ChainErrorView::Request(m) },
        Ok(p) => if step >= CHAIN_STEPS as int {
            ChainStateView::Done { result: p }
        } else if payload_valid(p) {
            ChainStateView::NeedPost { step: step + 1, payload: p }
        } else {
            ChainStateView::Failed { error: ChainErrorView::Validation(first_validation_error(p)) }
        },
    }
}

/// Starts a chain on `initial`: validates it and either demands the first
/// post or fails with the validation error, before any network work.
pub fn chain_start(initial: SomeData) -> (r: ChainState)
    ensures
        r@ == chain_start_spec(initial@),
{
    match initial.validate() {
        Ok(()) => ChainState::NeedPost { step: 1, payload: initial },
        Err(e) => ChainState::Failed { error: ChainError::Validation(e) },
    }
}

/// Advances a chain with the outcome of the `step`-th post.
pub fn chain_on_response(step: u8, response: Result<SomeData, RequestError>) -> (r: ChainState)
    requires
        1 <= step <= CHAIN_STEPS,
    ensures
        r@ == chain_on_response_spec(step as int, response_view(response)),
{
    match response {
        Err(e) => ChainState::Failed { error: ChainError::Request(e) },
        Ok(p) => {
            if step >= CHAIN_STEPS {
                ChainState::Done { result: p }
            } else {
                match p.validate() {
                    Ok(()) => ChainState::NeedPost { step: step + 1, payload: p },
                    Err(e) => ChainState::Failed { error: ChainError::Validation(e) },
                }
            }
        },
    }
}

/// Echo idempotence: when the remote echo faithfully returns each payload it
/// was sent, a chain started on a valid payload demands exactly three posts
/// (at steps 1, 2 and 3) and finishes with a result equal to the initial
/// payload.
pub proof fn lemma_chain_echo_round_trip(p: SomeDataView)
    requires
        payload_valid(p),
    ensures
        chain_start_spec(p) == (ChainStateView::NeedPost { step: 1, payload: p }),
        chain_on_response_spec(1, Ok(p)) == (ChainStateView::NeedPost { step: 2, payload: p }),
        chain_on_response_spec(2, Ok(p)) == (ChainStateView::NeedPost { step: 3, payload: p }),
        chain_on_response_spec(3, Ok(p)) == (ChainStateView::Done { result: p }),
{
}

/// Short-circuit: when any of the three outbound calls fails, the chain
/// fails with that request error and demands no further post.
pub proof fn lemma_chain_short_circuit(step: int, m: Seq<char>)
    requires
        1 <= step <= CHAIN_STEPS,
    ensures
        chain_on_response_spec(step, Err(m)) == (ChainStateView::Failed {
            error: ChainErrorView::Request(m),
        }),
        !(chain_on_response_spec(step, Err(m)) is NeedPost),
{
}

/// Fail-fast: an invalid initial payload fails the chain with its validation
/// error, and the chain never demands a post.
pub proof fn lemma_chain_rejects_invalid_without_post(p: SomeDataView)
    requires
        !payload_valid(p),
    ensures
        chain_start_spec(p) == (ChainStateView::Failed {
            error: ChainErrorView::Validation(first_validation_error(p)),
        }),
        !(chain_start_spec(p) is NeedPost),
{
}

} // verus!
