use vstd::prelude::*;
use crate::model::{name_view, resolve_model, resolves_to, GeminiModel};
use crate::payload::{build_payload, is_payload_for, Payload};
use crate::response::{extract_text, extracted, ProviderResponse};
use crate::text::{is_blank, is_blank_text, is_overload_message, is_overload_text};
use crate::types::{GeminiRequest, GenError, InputProblem};

verus! {

/// Seconds that one call to the provider may take.
pub const CALL_TIMEOUT_SECS: u64 = 30;

/// Calls made at most while the model reports an overload.
pub const MAX_ATTEMPTS: u64 = 3;

/// The pause after the n-th overloaded call is this many seconds times n.
pub const BACKOFF_STEP_SECS: u64 = 2;

/// Everything a transport needs to make the call for a valid request.
#[derive(Debug, Clone)]
pub struct CallPlan {
    pub model: GeminiModel,
    pub api_key: String,
    pub payload: Payload,
    pub timeout_secs: u64,
}

/// The error, if any, with which a request is refused before any call.
pub open spec fn request_problem(req: GeminiRequest) -> Option<InputProblem> {
    if is_blank_text(req.file_base64@) {
        Some(InputProblem::EmptyImage)
    } else if is_blank_text(req.google_key@) {
        Some(InputProblem::EmptyApiKey)
    } else {
        None
    }
}

/// `plan` is the call that a valid request asks for.
pub open spec fn is_plan_for(plan: CallPlan, req: GeminiRequest) -> bool {
    &&& resolves_to(name_view(req.model), plan.model)
    &&& plan.api_key@ == req.google_key@
    &&& is_payload_for(plan.payload, req.file_mime_type, req.file_base64@)
    &&& plan.timeout_secs == CALL_TIMEOUT_SECS
}

/// Checks a request and, when it is valid, works out the call to make.
/// A refused request yields no plan, so no call is made for it.
pub fn prepare(req: &GeminiRequest) -> (r: Result<CallPlan, GenError>)
    ensures
        r is Ok <==> request_problem(*req) is None,
        r matches Ok(plan) ==> is_plan_for(plan, *req),
        r matches Err(e) ==> request_problem(*req) matches Some(p) && e == GenError::InvalidInput(p),
{
    if is_blank(req.file_base64.as_str()) {
        return Err(GenError::InvalidInput(InputProblem::EmptyImage));
    }
    let model = resolve_model(&req.model);
    if is_blank(req.google_key.as_str()) {
        return Err(GenError::InvalidInput(InputProblem::EmptyApiKey));
    }
    let payload = build_payload(req.file_mime_type, &req.file_base64);
    Ok(CallPlan { model, api_key: req.google_key.clone(), payload, timeout_secs: CALL_TIMEOUT_SECS })
}

/// How one call to the provider ended.
#[derive(Debug, Clone, PartialEq, Eq)]
pub enum TransportOutcome {
    Replied(ProviderResponse),
    /// The call failed; holds the transport's error message.
    Failed(String),
}

/// What to do after a call.
#[derive(Debug, PartialEq, Eq)]
pub enum Step {
    /// Wait this many seconds, then make the call again.
    RetryAfter(u64),
    /// Stop with this result.
    Finished(Result<String, GenError>),
}

/// The state of the calls for one request.
#[derive(Debug, Clone, Copy, PartialEq, Eq, Structural)]
pub struct CallState {
    /// Calls so far that failed with an overload.
    pub overloads: u64,
}

/// The state after a call and what to do next.
pub open spec fn next(s: CallState, o: TransportOutcome) -> (CallState, Step) {
    match o {
        TransportOutcome::Replied(resp) => (s, Step::Finished(extracted(resp))),
        TransportOutcome::Failed(msg) => if is_overload_text(msg@) {
            let n = if s.overloads < MAX_ATTEMPTS {
                (s.overloads + 1) as u64
            } else {
                MAX_ATTEMPTS
            };
            if n >= MAX_ATTEMPTS {
                (CallState { overloads: n }, Step::Finished(Err(GenError::Overloaded)))
            } else {
                (CallState { overloads: n }, Step::RetryAfter((BACKOFF_STEP_SECS * n) as u64))
            }
        } else {
            (s, Step::Finished(Err(GenError::ProviderError(msg))))
        },
    }
}

/// The outcome of a run of calls that meet `outcomes` in turn, from state `s`:
/// the result if the run stopped, the number of calls made, and the pauses.
pub open spec fn drive(s: CallState, outcomes: Seq<TransportOutcome>) -> (
    Option<Result<String, GenError>>,
    nat,
    Seq<u64>,
)
    decreases outcomes.len(),
{
    if outcomes.len() == 0 {
        (None, 0, Seq::empty())
    } else {
        let (s2, step) = next(s, outcomes[0]);
        match step {
            Step::Finished(r) => (Some(r), 1, Seq::empty()),
            Step::RetryAfter(d) => {
                let (r, calls, delays) = drive(s2, outcomes.drop_first());
                (r, calls + 1, seq![d] + delays)
            },
        }
    }
}

impl CallState {
    /// The state before the first call.
    pub fn new() -> (r: CallState)
        ensures
            r.overloads == 0,
    {
        CallState { overloads: 0 }
    }

    /// Takes the outcome of a call and says whether to call again, and after
    /// how long, or what the result is.
    pub fn on_outcome(&mut self, outcome: TransportOutcome) -> (r: Step)
        ensures
            (*final(self), r) == next(*old(self), outcome),
    {
        match outcome {
            TransportOutcome::Replied(resp) => Step::Finished(extract_text(&resp)),
            TransportOutcome::Failed(msg) => {
                if is_overload_message(msg.as_str()) {
                    let n: u64 = if self.overloads < MAX_ATTEMPTS {
                        self.overloads + 1
                    } else {
                        MAX_ATTEMPTS
                    };
                    self.overloads = n;
                    if n >= MAX_ATTEMPTS {
                        Step::Finished(Err(GenError::Overloaded))
                    } else {
                        Step::RetryAfter(BACKOFF_STEP_SECS * n)
                    }
                } else {
                    Step::Finished(Err(GenError::ProviderError(msg)))
                }
            },
        }
    }
}

/// The model is overloaded on the first two calls and replies on the third:
/// the run pauses 2 s, then 4 s, makes exactly three calls, and ends with
/// the text read from that reply.
pub proof fn lemma_overloaded_twice_then_reply(
    outcomes: Seq<TransportOutcome>,
    resp: ProviderResponse,
)
    requires
        outcomes.len() >= 3,
        outcomes[0] matches TransportOutcome::Failed(m) && is_overload_text(m@),
        outcomes[1] matches TransportOutcome::Failed(m) && is_overload_text(m@),
        outcomes[2] == TransportOutcome::Replied(resp),
    ensures
        drive(CallState { overloads: 0 }, outcomes) == (
            Some(extracted(resp)),
            3nat,
            seq![2u64, 4u64],
        ),
{
    reveal_with_fuel(drive, 4);
    let rest1 = outcomes.drop_first();
    let rest2 = rest1.drop_first();
    assert(rest1[0] == outcomes[1]);
    assert(rest2[0] == outcomes[2]);
    assert(seq![2u64] + (seq![4u64] + Seq::<u64>::empty()) =~= seq![2u64, 4u64]);
}

/// The model is overloaded on every call: the run stops after exactly three
/// calls, with the overload error, having paused 2 s and then 4 s.
pub proof fn lemma_always_overloaded(outcomes: Seq<TransportOutcome>)
    requires
        outcomes.len() >= 3,
        forall|i: int|
            0 <= i < 3 ==> (#[trigger] outcomes[i] matches TransportOutcome::Failed(m)
                && is_overload_text(m@)),
    ensures
        drive(CallState { overloads: 0 }, outcomes) == (
            Some(Err::<String, GenError>(GenError::Overloaded)),
            3nat,
            seq![2u64, 4u64],
        ),
{
    reveal_with_fuel(drive, 4);
    let rest1 = outcomes.drop_first();
    let rest2 = rest1.drop_first();
    assert(outcomes[0] is Failed);
    assert(rest1[0] == outcomes[1]);
    assert(outcomes[1] is Failed);
    assert(rest2[0] == outcomes[2]);
    assert(outcomes[2] is Failed);
    assert(seq![2u64] + (seq![4u64] + Seq::<u64>::empty()) =~= seq![2u64, 4u64]);
}

/// A failure that is not an overload ends the run at once, whatever the
/// state: one call, no pause, and the provider error with its message.
pub proof fn lemma_other_failure_not_retried(
    s: CallState,
    outcomes: Seq<TransportOutcome>,
    msg: String,
)
    requires
        outcomes.len() >= 1,
        outcomes[0] == TransportOutcome::Failed(msg),
        !is_overload_text(msg@),
    ensures
        drive(s, outcomes) == (
            Some(Err::<String, GenError>(GenError::ProviderError(msg))),
            1nat,
            Seq::<u64>::empty(),
        ),
{
    reveal_with_fuel(drive, 2);
}

/// A reply ends the run at once, whatever the state: one call, no pause, and
/// the result read from the reply (its first candidate's first text, or why
/// there is none).
pub proof fn lemma_reply_ends_run(
    s: CallState,
    outcomes: Seq<TransportOutcome>,
    resp: ProviderResponse,
)
    requires
        outcomes.len() >= 1,
        outcomes[0] == TransportOutcome::Replied(resp),
    ensures
        drive(s, outcomes) == (Some(extracted(resp)), 1nat, Seq::<u64>::empty()),
{
    reveal_with_fuel(drive, 2);
}

/// Whatever the outcomes, a run from the start makes at most three calls,
/// and every pause is two seconds times the number of overloads so far.
pub proof fn lemma_calls_bounded(outcomes: Seq<TransportOutcome>)
    ensures
        drive(CallState { overloads: 0 }, outcomes).1 <= MAX_ATTEMPTS,
        forall|k: int|
            0 <= k < drive(CallState { overloads: 0 }, outcomes).2.len() ==> #[trigger] drive(
                CallState { overloads: 0 },
                outcomes,
            ).2[k] == BACKOFF_STEP_SECS * (k + 1),
{
    lemma_drive_from(0, outcomes);
}

proof fn lemma_drive_from(n: u64, outcomes: Seq<TransportOutcome>)
    requires
        n < MAX_ATTEMPTS,
    ensures
        drive(CallState { overloads: n }, outcomes).1 <= MAX_ATTEMPTS - n,
        forall|k: int|
            0 <= k < drive(CallState { overloads: n }, outcomes).2.len() ==> #[trigger] drive(
                CallState { overloads: n },
                outcomes,
            ).2[k] == BACKOFF_STEP_SECS * (n + k + 1),
    decreases outcomes.len(),
{
    if outcomes.len() > 0 {
        let (s2, step) = next(CallState { overloads: n }, outcomes[0]);
        if step is RetryAfter {
            lemma_drive_from(s2.overloads, outcomes.drop_first());
        }
    }
}

} // verus!
