//! The payout run state machine.
//!
//! A `PayRun` owns one payout attempt: the caller's input, the injected
//! credentials, the idempotency token fixed at construction, and the state
//! the run has reached. The unverified transport drives it in a loop:
//! `next_action` says which call to dispatch next and with which body and
//! credential, `apply` folds the call's outcome into the state, and
//! `into_result` hands back the confirmation identifier or the first
//! failure once the run is finished.

use vstd::prelude::*;

use crate::error::{ErrorKind, PayError, Step};
use crate::model::{
    contact_body_for, contact_request, fund_account_body_for, fund_account_request,
    payout_body_for, payout_request, Contact, CreatePayout, FundAccount, PayRequest, Response,
};

verus! {

/// The credentials a run is constructed with: the basic-auth pair used by
/// the three resource-creation calls, and the distinct bearer credential
/// the approval call must use.
pub struct PayConfig {
    pub key_id: String,
    pub key_secret: String,
    pub bearer_token: String,
}

impl PayConfig {
    /// Every credential present. A missing credential is a configuration
    /// error, never a retryable failure.
    pub open spec fn wf(&self) -> bool {
        &&& self.key_id@.len() > 0
        &&& self.key_secret@.len() > 0
        &&& self.bearer_token@.len() > 0
    }
}

/// What the transport reports back for one dispatched call.
pub enum CallOutcome {
    /// The request reached the remote service: the HTTP status code, and
    /// the parsed identifier body where the transport could decode one from
    /// a success response.
    Delivered(u16, Option<Response>),
    /// The request never completed: a connection, DNS or timeout failure,
    /// with the transport's message.
    TransportFailure(String),
}

/// Where a run stands. Each intermediate state holds exactly the
/// identifier the next step's body needs; the two terminal states hold the
/// run's result.
pub enum PipelineState {
    /// Nothing dispatched yet.
    Start,
    /// The contact call succeeded with this identifier.
    ContactCreated { contact_id: String },
    /// The fund-account call succeeded with this identifier.
    FundAccountCreated { fund_account_id: String },
    /// The payout-creation call succeeded with this identifier.
    PayoutCreated { payout_id: String },
    /// Terminal success: the approval call's confirmation identifier.
    Approved { confirmation_id: String },
    /// Terminal failure: the first error, tagged with its step.
    Failed { error: PayError },
}

impl PipelineState {
    /// A finished run: approved, or failed at some step. No outcome is ever
    /// folded into a terminal state, so a failed run can never dispatch a
    /// later step.
    pub open spec fn is_terminal(&self) -> bool {
        self is Approved || self is Failed
    }

    /// The step the next dispatched call belongs to.
    pub open spec fn pending_step(&self) -> Step
        recommends
            !self.is_terminal(),
    {
        match self {
            PipelineState::Start => Step::Contact,
            PipelineState::ContactCreated { .. } => Step::FundAccount,
            PipelineState::FundAccountCreated { .. } => Step::Payout,
            PipelineState::PayoutCreated { .. } => Step::Approval,
            PipelineState::Approved { .. } => Step::Approval,
            PipelineState::Failed { .. } => Step::Approval,
        }
    }
}

/// An HTTP success status: the 2xx range, the notion of success the remote
/// contract goes by.
pub open spec fn is_success_status(status: u16) -> bool {
    200 <= status < 300
}

/// An outcome that fails its step: a transport failure, a non-success
/// status, an undecodable success body, or an empty identifier.
pub open spec fn failure_outcome(o: CallOutcome) -> bool {
    match o {
        CallOutcome::TransportFailure(_) => true,
        CallOutcome::Delivered(status, body) => {
            ||| !is_success_status(status)
            ||| body is None
            ||| (body matches Some(r) && r.id@.len() == 0)
        },
    }
}

/// The error kind a failing outcome maps to. A transport failure keeps its
/// message; a non-success status keeps its code; a success status is a
/// decode error without an identifier and an invariant violation with an
/// empty one.
pub open spec fn failure_kind(o: CallOutcome) -> ErrorKind
    recommends
        failure_outcome(o),
{
    match o {
        CallOutcome::TransportFailure(msg) => ErrorKind::TransportError(msg),
        CallOutcome::Delivered(status, body) => {
            if !is_success_status(status) {
                ErrorKind::RemoteRejection(status)
            } else if body is None {
                ErrorKind::DecodeError
            } else {
                ErrorKind::InvariantViolation
            }
        },
    }
}

/// The state one step forward of `s`, carrying the identifier the step's
/// successful response returned.
pub open spec fn advanced(s: PipelineState, id: String) -> PipelineState
    recommends
        !s.is_terminal(),
{
    match s {
        PipelineState::Start => PipelineState::ContactCreated { contact_id: id },
        PipelineState::ContactCreated { .. } => PipelineState::FundAccountCreated {
            fund_account_id: id,
        },
        PipelineState::FundAccountCreated { .. } => PipelineState::PayoutCreated { payout_id: id },
        PipelineState::PayoutCreated { .. } => PipelineState::Approved { confirmation_id: id },
        _ => s,
    }
}

/// The whole transition relation of a run: from a non-terminal state, a
/// failing outcome moves to `Failed` tagged with the pending step and the
/// outcome's error kind, and a delivered success status with a non-empty
/// identifier advances one step, threading that identifier forward.
pub open spec fn transition(s: PipelineState, o: CallOutcome) -> PipelineState
    recommends
        !s.is_terminal(),
{
    if failure_outcome(o) {
        PipelineState::Failed {
            error: PayError { step: s.pending_step(), kind: failure_kind(o) },
        }
    } else {
        match o {
            CallOutcome::Delivered(_, body) => {
                match body {
                    Some(r) => advanced(s, r.id),
                    None => s,  // excluded: an outcome without a body is a failure
                }
            },
            CallOutcome::TransportFailure(_) => s,  // excluded: always a failure
        }
    }
}

/// The credential a dispatched call must carry.
pub enum Auth {
    /// The basic-auth pair used by the contact, fund-account and payout
    /// creation calls.
    Basic { key_id: String, key_secret: String },
    /// The bearer credential the approval call must use.
    Bearer { token: String },
}

/// What the transport must do next for a run that is not finished.
#[allow(inconsistent_fields)]
pub enum Action {
    /// POST the contact body, basic auth.
    CallContact { body: Contact, auth: Auth },
    /// POST the fund-account body, basic auth.
    CallFundAccount { body: FundAccount, auth: Auth },
    /// POST the payout body with the run's idempotency token in the
    /// idempotency header, basic auth.
    CallPayout { body: CreatePayout, idempotency_token: String, auth: Auth },
    /// POST approval of this payout identifier, bearer auth.
    CallApproval { payout_id: String, auth: Auth },
}

impl Action {
    /// The idempotency token a payout dispatch attaches; meaningful only
    /// for `CallPayout`.
    pub open spec fn payout_token(&self) -> Seq<char>
        recommends
            self is CallPayout,
    {
        match self {
            Action::CallPayout { idempotency_token, .. } => idempotency_token@,
            _ => Seq::empty(),
        }
    }
}

/// The basic-auth credential pair of `cfg`.
pub open spec fn basic_auth_for(a: Auth, cfg: PayConfig) -> bool {
    &&& a matches Auth::Basic { key_id, key_secret }
    &&& key_id@ == cfg.key_id@
    &&& key_secret@ == cfg.key_secret@
}

/// The bearer credential of `cfg`.
pub open spec fn bearer_auth_for(a: Auth, cfg: PayConfig) -> bool {
    &&& a matches Auth::Bearer { token }
    &&& token@ == cfg.bearer_token@
}

/// One payout attempt: input, credentials, the idempotency token fixed at
/// construction, and the state reached so far.
pub struct PayRun {
    pub request: PayRequest,
    pub config: PayConfig,
    /// Fixed once per run and attached unchanged to every payout-creation
    /// dispatch of this run, so that a retried request after a timeout
    /// cannot create a duplicate disbursement.
    pub token: String,
    pub state: PipelineState,
}

/// The one action a run in a non-terminal state asks of the transport:
/// which endpoint, with which body built from the run's input and the
/// threaded identifier, under which credential.
pub open spec fn action_for(run: PayRun, a: Action) -> bool {
    match run.state {
        PipelineState::Start => {
            &&& a matches Action::CallContact { body, auth }
            &&& contact_body_for(body, run.request)
            &&& basic_auth_for(auth, run.config)
        },
        PipelineState::ContactCreated { contact_id } => {
            &&& a matches Action::CallFundAccount { body, auth }
            &&& fund_account_body_for(body, run.request, contact_id@)
            &&& basic_auth_for(auth, run.config)
        },
        PipelineState::FundAccountCreated { fund_account_id } => {
            &&& a matches Action::CallPayout { body, idempotency_token, auth }
            &&& payout_body_for(body, run.request, fund_account_id@)
            &&& idempotency_token@ == run.token@
            &&& basic_auth_for(auth, run.config)
        },
        PipelineState::PayoutCreated { payout_id } => {
            &&& a matches Action::CallApproval { payout_id: pid, auth }
            &&& pid@ == payout_id@
            &&& bearer_auth_for(auth, run.config)
        },
        _ => false,
    }
}

impl PayRun {
    /// Start a run over validated input. Succeeds exactly when every
    /// credential is present; a missing basic-auth credential is reported
    /// against the first call that would need it, a missing bearer
    /// credential against the approval call. The idempotency token is fixed
    /// here, once per run.
    pub fn new(request: PayRequest, config: PayConfig, token: String) -> (r: Result<
        PayRun,
        PayError,
    >)
        requires
            request.wf(),
            token@.len() > 0,
        ensures
            r is Ok <==> config.wf(),
            r matches Ok(run) ==> run.state is Start && run.request == request && run.config
                == config && run.token == token,
            r matches Err(e) ==> e.kind == ErrorKind::ConfigurationError && e.step == (
            if config.key_id@.len() == 0 || config.key_secret@.len() == 0 {
                Step::Contact
            } else {
                Step::Approval
            }),
    {
        if config.key_id.as_str().is_empty() || config.key_secret.as_str().is_empty() {
            Err(PayError { step: Step::Contact, kind: ErrorKind::ConfigurationError })
        } else if config.bearer_token.as_str().is_empty() {
            Err(PayError { step: Step::Approval, kind: ErrorKind::ConfigurationError })
        } else {
            Ok(PayRun { request, config, token, state: PipelineState::Start })
        }
    }

    /// A finished run: terminal success or terminal failure.
    pub fn is_finished(&self) -> (b: bool)
        ensures
            b == self.state.is_terminal(),
    {
        match &self.state {
            PipelineState::Approved { .. } => true,
            PipelineState::Failed { .. } => true,
            _ => false,
        }
    }

    /// The step the next dispatched call belongs to.
    pub fn current_step(&self) -> (s: Step)
        requires
            !self.state.is_terminal(),
        ensures
            s == self.state.pending_step(),
    {
        match &self.state {
            PipelineState::Start => Step::Contact,
            PipelineState::ContactCreated { .. } => Step::FundAccount,
            PipelineState::FundAccountCreated { .. } => Step::Payout,
            PipelineState::PayoutCreated { .. } => Step::Approval,
            PipelineState::Approved { .. } => Step::Approval,
            PipelineState::Failed { .. } => Step::Approval,
        }
    }

    /// The call to dispatch next: the pending step's endpoint, its body
    /// built from the run's input and the identifier the previous step
    /// returned, and the credential that endpoint requires.
    pub fn next_action(&self) -> (a: Action)
        requires
            !self.state.is_terminal(),
        ensures
            action_for(*self, a),
    {
        match &self.state {
            PipelineState::Start => Action::CallContact {
                body: contact_request(&self.request),
                auth: self.basic_auth(),
            },
            PipelineState::ContactCreated { contact_id } => Action::CallFundAccount {
                body: fund_account_request(&self.request, contact_id.clone()),
                auth: self.basic_auth(),
            },
            PipelineState::FundAccountCreated { fund_account_id } => Action::CallPayout {
                body: payout_request(&self.request, fund_account_id.clone()),
                idempotency_token: self.token.clone(),
                auth: self.basic_auth(),
            },
            PipelineState::PayoutCreated { payout_id } => Action::CallApproval {
                payout_id: payout_id.clone(),
                auth: Auth::Bearer { token: self.config.bearer_token.clone() },
            },
            // The two terminal states are excluded by the precondition.
            PipelineState::Approved { .. } => Action::CallApproval {
                payout_id: String::new(),
                auth: Auth::Bearer { token: String::new() },
            },
            PipelineState::Failed { .. } => Action::CallApproval {
                payout_id: String::new(),
                auth: Auth::Bearer { token: String::new() },
            },
        }
    }

    /// The basic-auth credential pair of this run's configuration.
    fn basic_auth(&self) -> (a: Auth)
        ensures
            basic_auth_for(a, self.config),
    {
        Auth::Basic {
            key_id: self.config.key_id.clone(),
            key_secret: self.config.key_secret.clone(),
        }
    }

    /// Fold one dispatched call's outcome into the run: exactly the
    /// `transition` relation, with the input, credentials and idempotency
    /// token untouched. A failing outcome moves to `Failed` tagged with the
    /// pending step; a success advances one step with the returned
    /// identifier.
    pub fn apply(&mut self, outcome: CallOutcome)
        requires
            !old(self).state.is_terminal(),
        ensures
            final(self).state == transition(old(self).state, outcome),
            final(self).request == old(self).request,
            final(self).config == old(self).config,
            final(self).token == old(self).token,
    {
        let step = self.current_step();
        match outcome {
            CallOutcome::TransportFailure(msg) => {
                self.state = PipelineState::Failed {
                    error: PayError { step, kind: ErrorKind::TransportError(msg) },
                };
            },
            CallOutcome::Delivered(status, body) => {
                if !(200 <= status && status < 300) {
                    self.state = PipelineState::Failed {
                        error: PayError { step, kind: ErrorKind::RemoteRejection(status) },
                    };
                } else {
                    match body {
                        None => {
                            self.state = PipelineState::Failed {
                                error: PayError { step, kind: ErrorKind::DecodeError },
                            };
                        },
                        Some(r) => {
                            if r.id.as_str().is_empty() {
                                self.state = PipelineState::Failed {
                                    error: PayError { step, kind: ErrorKind::InvariantViolation },
                                };
                            } else {
                                self.advance(r.id);
                            }
                        },
                    }
                }
            },
        }
    }

    /// Move one step forward with the identifier a successful response
    /// returned.
    fn advance(&mut self, id: String)
        requires
            !old(self).state.is_terminal(),
        ensures
            final(self).state == advanced(old(self).state, id),
            final(self).request == old(self).request,
            final(self).config == old(self).config,
            final(self).token == old(self).token,
    {
        let next = match &self.state {
            PipelineState::Start => PipelineState::ContactCreated { contact_id: id },
            PipelineState::ContactCreated { .. } => PipelineState::FundAccountCreated {
                fund_account_id: id,
            },
            PipelineState::FundAccountCreated { .. } => PipelineState::PayoutCreated {
                payout_id: id,
            },
            PipelineState::PayoutCreated { .. } => PipelineState::Approved {
                confirmation_id: id,
            },
            PipelineState::Approved { .. } => PipelineState::Approved { confirmation_id: id },
            PipelineState::Failed { .. } => PipelineState::Approved { confirmation_id: id },
        };
        self.state = next;
    }

    /// The result of a finished run: the approval step's confirmation
    /// identifier, or the first failure, tagged with its step, verbatim.
    pub fn into_result(self) -> (r: Result<String, PayError>)
        requires
            self.state.is_terminal(),
        ensures
            self.state matches PipelineState::Approved { confirmation_id } ==> (r matches Ok(c)
                && c == confirmation_id),
            self.state matches PipelineState::Failed { error } ==> (r matches Err(e) && e
                == error),
    {
        match self.state {
            PipelineState::Approved { confirmation_id } => Ok(confirmation_id),
            PipelineState::Failed { error } => Err(error),
            // Non-terminal states are excluded by the precondition.
            _ => Err(PayError { step: Step::Contact, kind: ErrorKind::DecodeError }),
        }
    }
}

} // verus!
