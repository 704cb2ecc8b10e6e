//! The laws of the payout run, proved over the `transition` relation and
//! the `action_for` dispatch relation that the run's methods are specified
//! against.

use vstd::prelude::*;

use crate::error::{ErrorKind, Step};
use crate::model::Response;
use crate::pipeline::{
    action_for, failure_outcome, is_success_status, transition, Action, CallOutcome, PayRun,
    PipelineState,
};

verus! {

/// If all four calls are delivered with a success status and a non-empty
/// identifier, the run walks Contact, FundAccount, Payout, Approval in that
/// exact order, each state carrying the identifier the previous step
/// returned, and ends approved with the approval step's identifier — the
/// confirmation the finished run hands back.
pub proof fn lemma_all_steps_succeed(
    st1: u16,
    st2: u16,
    st3: u16,
    st4: u16,
    r1: Response,
    r2: Response,
    r3: Response,
    r4: Response,
)
    requires
        is_success_status(st1) && r1.id@.len() > 0,
        is_success_status(st2) && r2.id@.len() > 0,
        is_success_status(st3) && r3.id@.len() > 0,
        is_success_status(st4) && r4.id@.len() > 0,
    ensures
        ({
            let s1 = transition(PipelineState::Start, CallOutcome::Delivered(st1, Some(r1)));
            let s2 = transition(s1, CallOutcome::Delivered(st2, Some(r2)));
            let s3 = transition(s2, CallOutcome::Delivered(st3, Some(r3)));
            let s4 = transition(s3, CallOutcome::Delivered(st4, Some(r4)));
            &&& s1 == (PipelineState::ContactCreated { contact_id: r1.id })
            &&& s2 == (PipelineState::FundAccountCreated { fund_account_id: r2.id })
            &&& s3 == (PipelineState::PayoutCreated { payout_id: r3.id })
            &&& s4 == (PipelineState::Approved { confirmation_id: r4.id })
        }),
{
}

/// Each intermediate state dispatches exactly the next step's call, and its
/// body receives the identifier the previous step returned: the contact
/// identifier goes into the fund-account body, the fund-account identifier
/// into the payout body, and the payout identifier into the approval call.
pub proof fn lemma_identifiers_thread_forward(run: PayRun, a: Action)
    requires
        action_for(run, a),
    ensures
        run.state matches PipelineState::ContactCreated { contact_id } ==> (a matches
            Action::CallFundAccount { body, .. } && body.contact_id@ == contact_id@),
        run.state matches PipelineState::FundAccountCreated { fund_account_id } ==> (a matches
            Action::CallPayout { body, .. } && body.fund_account_id@ == fund_account_id@),
        run.state matches PipelineState::PayoutCreated { payout_id } ==> (a matches
            Action::CallApproval { payout_id: pid, .. } && pid@ == payout_id@),
{
}

/// If the contact step fails, the run is terminally failed at the Contact
/// step. A terminal run dispatches nothing — `action_for` holds of no
/// action — so the fund-account, payout and approval endpoints are never
/// invoked.
pub proof fn lemma_contact_failure_halts(run: PayRun, o: CallOutcome)
    requires
        run.state is Start,
        failure_outcome(o),
    ensures
        transition(run.state, o) matches PipelineState::Failed { error } && error.step
            == Step::Contact,
        transition(run.state, o).is_terminal(),
        forall|halted: PayRun, a: Action|
            halted.state == transition(run.state, o) ==> !action_for(halted, a),
{
}

/// If the fund-account step fails, the run is terminally failed at the
/// FundAccount step and dispatches nothing further: the payout and approval
/// endpoints are never invoked. The run only reaches this state through a
/// delivered, non-empty contact identifier, so the contact call has been
/// dispatched exactly once before.
pub proof fn lemma_fund_account_failure_halts(run: PayRun, o: CallOutcome)
    requires
        run.state is ContactCreated,
        failure_outcome(o),
    ensures
        transition(run.state, o) matches PipelineState::Failed { error } && error.step
            == Step::FundAccount,
        transition(run.state, o).is_terminal(),
        forall|halted: PayRun, a: Action|
            halted.state == transition(run.state, o) ==> !action_for(halted, a),
{
}

/// Only a successful contact outcome — delivered, success status, non-empty
/// identifier — moves a run out of `Start` without failing it; every other
/// outcome halts it. So a run that ever dispatches the fund-account call
/// has dispatched the contact call first, and with a success.
pub proof fn lemma_start_advances_only_on_success(o: CallOutcome)
    ensures
        !failure_outcome(o) ==> (o matches CallOutcome::Delivered(st, Some(r))
            && is_success_status(st) && r.id@.len() > 0 && transition(PipelineState::Start, o)
            == (PipelineState::ContactCreated { contact_id: r.id })),
        failure_outcome(o) ==> transition(PipelineState::Start, o) is Failed,
{
}

/// The idempotency token attached to a payout dispatch is the run's own
/// token, fixed at construction: repeated dispatches of the payout step of
/// the same run attach the same token, and two runs with distinct tokens
/// attach distinct tokens.
pub proof fn lemma_idempotency_token(r1: PayRun, a1: Action, r2: PayRun, a2: Action)
    requires
        r1.state is FundAccountCreated,
        r2.state is FundAccountCreated,
        action_for(r1, a1),
        action_for(r2, a2),
    ensures
        a1 is CallPayout && a1.payout_token() == r1.token@,
        a2 is CallPayout && a2.payout_token() == r2.token@,
        r1.token@ == r2.token@ ==> a1.payout_token() == a2.payout_token(),
        r1.token@ != r2.token@ ==> a1.payout_token() != a2.payout_token(),
{
}

/// A non-success HTTP status on any step yields a terminal failure carrying
/// that step's identity and that status code — never an approved run, so
/// never an `Ok` result.
pub proof fn lemma_rejection_carries_status(s: PipelineState, status: u16, body: Option<Response>)
    requires
        !s.is_terminal(),
        !is_success_status(status),
    ensures
        transition(s, CallOutcome::Delivered(status, body)) matches PipelineState::Failed { error }
            && error.step == s.pending_step()
            && error.kind == ErrorKind::RemoteRejection(status),
        !(transition(s, CallOutcome::Delivered(status, body)) is Approved),
{
}

/// The transition relation never invents success: the only way a run ends
/// approved is the approval step's own delivered success, and the
/// confirmation identifier is exactly that response's identifier.
pub proof fn lemma_approval_only_from_payout_success(s: PipelineState, o: CallOutcome)
    requires
        !s.is_terminal(),
        transition(s, o) is Approved,
    ensures
        s is PayoutCreated,
        !failure_outcome(o),
        o matches CallOutcome::Delivered(st, Some(r)) && is_success_status(st) && transition(s, o)
            == (PipelineState::Approved { confirmation_id: r.id }),
{
}

} // verus!
