//! The orchestrator: one pass over the pending requests, each taken through
//! fetching, decoding, the policy, the proof system, signing and submission
//! on its own, so that a request that fails never keeps another from being
//! tried.

use vstd::prelude::*;
use vstd::slice::slice_to_vec;

use crate::codec::keccak256_digest;
use crate::codec::prefixed_hex;
use crate::codec::to_prefixed_hex;
use crate::error::SigningError;
use crate::error::VerificationFailure;
use crate::error::VerifierError;
use crate::error::VerifierErrorView;
use crate::fetch::receipt_url;
use crate::fetch::resolve_receipt_url;
use crate::graphql::request_views;
use crate::inputbox_client::envelope;
use crate::inputbox_client::InputBoxClient;
use crate::inputbox_client::SubmissionOutcome;
use crate::proof_verifier::proof_refusal;
use crate::proof_verifier::ProofVerifier;
use crate::receipt::claim_of;
use crate::receipt::decoding_view;
use crate::receipt::DecodedReceipt;
use crate::receipt::DecodedReceiptView;
use crate::receipt::ReceiptClaim;
use crate::receipt_signer::derived_address;
use crate::receipt_signer::signed_receipt;
use crate::receipt_signer::ReceiptSigner;
use crate::types::opt_text;
use crate::types::InputBoxPayload;
use crate::types::InputBoxPayloadView;
use crate::types::ProofRequest;
use crate::types::ProofRequestView;
use crate::types::VerifiedReceipt;
use crate::types::VerifiedReceiptView;

verus! {

/// The parts that every request is taken through, and the limits of
/// fetching.
pub struct Pipeline {
    pub verifier: ProofVerifier,
    pub signer: ReceiptSigner,
    pub inbox: InputBoxClient,
    pub ipfs_gateway: String,
    pub max_receipt_size: usize,
}

pub struct PipelineView {
    pub allowed: Seq<Seq<char>>,
    pub secret: Seq<u8>,
    pub inbox_endpoint: Seq<char>,
    pub dapp_address: Seq<char>,
    pub ipfs_gateway: Seq<char>,
    pub max_receipt_size: usize,
}

impl View for Pipeline {
    type V = PipelineView;

    open spec fn view(&self) -> PipelineView {
        PipelineView {
            allowed: self.verifier.allowed(),
            secret: self.signer.secret(),
            inbox_endpoint: self.inbox.endpoint@,
            dapp_address: self.inbox.dapp_address@,
            ipfs_gateway: self.ipfs_gateway@,
            max_receipt_size: self.max_receipt_size,
        }
    }
}

/// How one request of a batch ended.
#[derive(Debug, Clone, PartialEq, Eq)]
pub enum RequestOutcome {
    /// The receipt was verified, signed and taken by the inbox.
    Submitted(SubmissionOutcome),
    /// The request failed at some stage, with this error.
    Failed(VerifierError),
}

pub enum RequestOutcomeView {
    Submitted(SubmissionOutcome),
    Failed(VerifierErrorView),
}

impl View for RequestOutcome {
    type V = RequestOutcomeView;

    open spec fn view(&self) -> RequestOutcomeView {
        match *self {
            RequestOutcome::Submitted(o) => RequestOutcomeView::Submitted(o),
            RequestOutcome::Failed(e) => RequestOutcomeView::Failed(e@),
        }
    }
}

/// The views of a list of outcomes.
pub open spec fn outcome_views(outcomes: Seq<RequestOutcome>) -> Seq<RequestOutcomeView> {
    outcomes.map_values(|o: RequestOutcome| o@)
}

/// Where the orchestrator stands. The last four phases are within a batch.
#[derive(Debug, Clone, Copy, PartialEq, Eq)]
pub enum Phase {
    /// Waiting for the next tick.
    Idle,
    /// Waiting for the source to list the pending requests.
    Discovering,
    /// Waiting for the receipt of the current request.
    Fetching,
    /// Waiting for the receipt of the current request to be decoded.
    Decoding,
    /// Waiting for the proof system's word on the receipt of the current
    /// request.
    Proving,
    /// Waiting for the inbox to answer for the current request.
    Submitting,
}

/// What the outside world reports to the orchestrator.
pub enum Event {
    /// The poll interval has passed.
    Tick,
    /// The source listed the pending requests, or could not.
    Discovered(Result<Vec<ProofRequest>, VerifierError>),
    /// The receipt of the current request was fetched, or could not be;
    /// `timestamp` is the Unix time of the report.
    Fetched { result: Result<Vec<u8>, VerifierError>, timestamp: u64 },
    /// The receipt that the orchestrator holds was decoded, or could not
    /// be, for the reason given.
    Decoded(Result<DecodedReceipt, String>),
    /// The proof system was asked about the receipt that the orchestrator
    /// holds: `None` where it accepts it, else why it does not.
    Proved(Option<String>),
    /// The inbox answered for the current request, or could not be reached.
    Submitted(Result<SubmissionOutcome, VerifierError>),
}

pub enum EventView {
    Tick,
    Discovered(Result<Seq<ProofRequestView>, VerifierErrorView>),
    Fetched { result: Result<Seq<u8>, VerifierErrorView>, timestamp: u64 },
    Decoded(Result<DecodedReceiptView, Seq<char>>),
    Proved(Option<Seq<char>>),
    Submitted(Result<SubmissionOutcome, VerifierErrorView>),
}

impl View for Event {
    type V = EventView;

    open spec fn view(&self) -> EventView {
        match *self {
            Event::Tick => EventView::Tick,
            Event::Discovered(Ok(requests)) => EventView::Discovered(Ok(request_views(requests@))),
            Event::Discovered(Err(e)) => EventView::Discovered(Err(e@)),
            Event::Fetched { result: Ok(bytes), timestamp } => EventView::Fetched {
                result: Ok(bytes@),
                timestamp,
            },
            Event::Fetched { result: Err(e), timestamp } => EventView::Fetched {
                result: Err(e@),
                timestamp,
            },
            Event::Decoded(decoded) => EventView::Decoded(decoding_view(decoded)),
            Event::Proved(rejection) => EventView::Proved(opt_text(rejection)),
            Event::Submitted(Ok(o)) => EventView::Submitted(Ok(o)),
            Event::Submitted(Err(e)) => EventView::Submitted(Err(e@)),
        }
    }
}

/// What the orchestrator asks the outside world to do next.
#[derive(Debug, Clone, PartialEq, Eq)]
pub enum Action {
    /// Nothing: the event was not one that this phase waits for.
    Ignore,
    /// List the pending requests.
    Discover,
    /// Fetch the receipt at `url`, taking at most `max_size` bytes.
    Fetch { url: String, max_size: usize },
    /// Decode the receipt that the orchestrator holds.
    Decode,
    /// Ask the proof system about the receipt that the orchestrator holds,
    /// for the program with this image digest.
    Prove { image_digest: Vec<u8> },
    /// Post this envelope to the inbox.
    Submit(InputBoxPayload),
    /// The batch is over: `processed` of its requests were submitted. Wait
    /// for the next tick.
    Finished { processed: usize },
    /// The pending requests could not be listed. Wait for the next tick.
    DiscoveryFailed(VerifierError),
}

pub enum ActionView {
    Ignore,
    Discover,
    Fetch { url: Seq<char>, max_size: usize },
    Decode,
    Prove { image_digest: Seq<u8> },
    Submit(InputBoxPayloadView),
    Finished { processed: usize },
    DiscoveryFailed(VerifierErrorView),
}

impl View for Action {
    type V = ActionView;

    open spec fn view(&self) -> ActionView {
        match *self {
            Action::Ignore => ActionView::Ignore,
            Action::Discover => ActionView::Discover,
            Action::Fetch { url, max_size } => ActionView::Fetch { url: url@, max_size },
            Action::Decode => ActionView::Decode,
            Action::Prove { image_digest } => ActionView::Prove { image_digest: image_digest@ },
            Action::Submit(p) => ActionView::Submit(p@),
            Action::Finished { processed } => ActionView::Finished { processed },
            Action::DiscoveryFailed(e) => ActionView::DiscoveryFailed(e@),
        }
    }
}

/// The receipt that is signed for a request whose raw receipt `bytes`
/// decoded to `decoded` and passed verification at time `timestamp`.
pub open spec fn unsigned_receipt(
    secret: Seq<u8>,
    request: ProofRequestView,
    bytes: Seq<u8>,
    decoded: DecodedReceiptView,
    timestamp: u64,
) -> VerifiedReceiptView {
    VerifiedReceiptView {
        device_id: request.device_id,
        proof_type: request.proof_type,
        receipt_hash: prefixed_hex(keccak256_digest(bytes)),
        image_id: claim_of(decoded).image_id,
        journal_hash: prefixed_hex(keccak256_digest(decoded.journal)),
        epoch_index: request.epoch_index,
        input_index: request.input_index,
        signature: Seq::empty(),
        timestamp: Some(timestamp),
        verifier_address: Some(derived_address(secret)),
    }
}

/// The signed receipt for a request, or why there is none: the receipt is
/// verified for the request's proof type, given what the proof system said
/// of it, and then signed.
pub open spec fn attested(
    p: PipelineView,
    request: ProofRequestView,
    bytes: Seq<u8>,
    decoded: DecodedReceiptView,
    rejection: Option<Seq<char>>,
    timestamp: u64,
) -> Result<VerifiedReceiptView, VerifierErrorView> {
    match proof_refusal(p.allowed, Ok(decoded), request.proof_type, rejection) {
        Some(e) => Err(e),
        None => match signed_receipt(
            p.secret,
            unsigned_receipt(p.secret, request, bytes, decoded, timestamp),
        ) {
            None => Err(VerifierErrorView::Signing(SigningError::NoSignature)),
            Some(signed) => Ok(signed),
        },
    }
}

/// The envelope for a request, or why there is none: the signed receipt
/// framed for the inbox.
pub open spec fn attestation(
    p: PipelineView,
    request: ProofRequestView,
    bytes: Seq<u8>,
    decoded: DecodedReceiptView,
    rejection: Option<Seq<char>>,
    timestamp: u64,
) -> Result<InputBoxPayloadView, VerifierErrorView> {
    match attested(p, request, bytes, decoded, rejection, timestamp) {
        Ok(signed) => Ok(envelope(p.dapp_address, signed)),
        Err(e) => Err(e),
    }
}

/// The number of outcomes that are submissions.
pub open spec fn submitted_count(outcomes: Seq<RequestOutcomeView>) -> nat
    decreases outcomes.len(),
{
    if outcomes.len() == 0 {
        0
    } else {
        submitted_count(outcomes.drop_last()) + if outcomes.last() is Submitted {
            1nat
        } else {
            0nat
        }
    }
}

/// The state of the orchestrator as the contracts see it: the batch and
/// its outcomes so far, and, while a receipt is decoded or proved, the raw
/// receipt, when it came, and what it decoded to.
pub struct OrchestratorView {
    pub phase: Phase,
    pub requests: Seq<ProofRequestView>,
    pub outcomes: Seq<RequestOutcomeView>,
    pub receipt: Seq<u8>,
    pub timestamp: u64,
    pub decoded: Option<DecodedReceiptView>,
}

/// A state that holds no receipt.
pub open spec fn at_rest(
    phase: Phase,
    requests: Seq<ProofRequestView>,
    outcomes: Seq<RequestOutcomeView>,
) -> OrchestratorView {
    OrchestratorView {
        phase,
        requests,
        outcomes,
        receipt: Seq::empty(),
        timestamp: 0,
        decoded: None,
    }
}

/// Moves on to the first request without an outcome whose receipt can be
/// fetched. A request whose locator names no supported scheme fails for
/// that and is passed over. When no request is left the batch is over.
pub open spec fn advance(
    gateway: Seq<char>,
    max_size: usize,
    requests: Seq<ProofRequestView>,
    outcomes: Seq<RequestOutcomeView>,
) -> (OrchestratorView, ActionView)
    decreases requests.len() - outcomes.len(),
{
    if outcomes.len() >= requests.len() {
        (
            at_rest(Phase::Idle, requests, outcomes),
            ActionView::Finished { processed: submitted_count(outcomes) as usize },
        )
    } else {
        let locator = requests[outcomes.len() as int].receipt_url;
        match receipt_url(locator, gateway) {
            Some(url) => (
                at_rest(Phase::Fetching, requests, outcomes),
                ActionView::Fetch { url, max_size },
            ),
            None => advance(
                gateway,
                max_size,
                requests,
                outcomes.push(
                    RequestOutcomeView::Failed(VerifierErrorView::UnsupportedScheme(locator)),
                ),
            ),
        }
    }
}

/// Records the outcome of the current request and moves on.
pub open spec fn recorded(p: PipelineView, s: OrchestratorView, outcome: RequestOutcomeView) -> (
    OrchestratorView,
    ActionView,
) {
    advance(p.ipfs_gateway, p.max_receipt_size, s.requests, s.outcomes.push(outcome))
}

/// The state and the action that follow a state and an event.
///
/// A receipt that is longer than the ceiling fails as too large before it
/// is decoded. A decoded receipt is held against the policy before the
/// proof system is asked, and the proof system is asked only about a
/// receipt that passes.
pub open spec fn transition(p: PipelineView, s: OrchestratorView, event: EventView) -> (
    OrchestratorView,
    ActionView,
) {
    match (s.phase, event) {
        (Phase::Idle, EventView::Tick) => (
            at_rest(Phase::Discovering, Seq::empty(), Seq::empty()),
            ActionView::Discover,
        ),
        (Phase::Discovering, EventView::Discovered(Err(e))) => (
            at_rest(Phase::Idle, Seq::empty(), Seq::empty()),
            ActionView::DiscoveryFailed(e),
        ),
        (Phase::Discovering, EventView::Discovered(Ok(requests))) => advance(
            p.ipfs_gateway,
            p.max_receipt_size,
            requests,
            Seq::empty(),
        ),
        (Phase::Fetching, EventView::Fetched { result: Err(e), timestamp }) => recorded(
            p,
            s,
            RequestOutcomeView::Failed(e),
        ),
        (Phase::Fetching, EventView::Fetched { result: Ok(bytes), timestamp }) => {
            if bytes.len() > p.max_receipt_size {
                recorded(
                    p,
                    s,
                    RequestOutcomeView::Failed(
                        VerifierErrorView::ReceiptTooLarge {
                            size: bytes.len() as usize,
                            max: p.max_receipt_size,
                        },
                    ),
                )
            } else {
                (
                    OrchestratorView {
                        phase: Phase::Decoding,
                        receipt: bytes,
                        timestamp,
                        decoded: None,
                        ..s
                    },
                    ActionView::Decode,
                )
            }
        },
        (Phase::Decoding, EventView::Decoded(decoded)) => {
            match proof_refusal(
                p.allowed,
                decoded,
                s.requests[s.outcomes.len() as int].proof_type,
                None,
            ) {
                Some(e) => recorded(p, s, RequestOutcomeView::Failed(e)),
                None => (
                    OrchestratorView { phase: Phase::Proving, decoded: Some(decoded->Ok_0), ..s },
                    ActionView::Prove { image_digest: decoded->Ok_0.image_digest },
                ),
            }
        },
        (Phase::Proving, EventView::Proved(rejection)) => {
            match attestation(
                p,
                s.requests[s.outcomes.len() as int],
                s.receipt,
                s.decoded->0,
                rejection,
                s.timestamp,
            ) {
                Ok(payload) => (
                    at_rest(Phase::Submitting, s.requests, s.outcomes),
                    ActionView::Submit(payload),
                ),
                Err(e) => recorded(p, s, RequestOutcomeView::Failed(e)),
            }
        },
        (Phase::Submitting, EventView::Submitted(Ok(o))) => recorded(
            p,
            s,
            RequestOutcomeView::Submitted(o),
        ),
        (Phase::Submitting, EventView::Submitted(Err(e))) => recorded(
            p,
            s,
            RequestOutcomeView::Failed(e),
        ),
        _ => (s, ActionView::Ignore),
    }
}

/// Whether a phase is within a batch.
pub open spec fn in_batch(phase: Phase) -> bool {
    phase is Fetching || phase is Decoding || phase is Proving || phase is Submitting
}

/// Whether a state is one that the orchestrator can be in: within a batch
/// the current request is one of the batch, and outside of one every
/// request of the last batch has its outcome; a receipt that is being
/// proved has been decoded.
pub open spec fn well_formed(s: OrchestratorView) -> bool {
    match s.phase {
        Phase::Idle => s.outcomes.len() == s.requests.len(),
        Phase::Discovering => s.outcomes.len() == 0 && s.requests.len() == 0,
        Phase::Fetching => s.outcomes.len() < s.requests.len(),
        Phase::Decoding => s.outcomes.len() < s.requests.len(),
        Phase::Proving => s.outcomes.len() < s.requests.len() && s.decoded is Some,
        Phase::Submitting => s.outcomes.len() < s.requests.len(),
    }
}

/// The orchestrator: the batch it is in, if it is in one, and the outcomes
/// recorded for it so far. The request at the place of the next outcome is
/// the current one.
pub struct Orchestrator {
    phase: Phase,
    requests: Vec<ProofRequest>,
    outcomes: Vec<RequestOutcome>,
    receipt: Vec<u8>,
    timestamp: u64,
    decoded: Option<DecodedReceipt>,
}

impl View for Orchestrator {
    type V = OrchestratorView;

    closed spec fn view(&self) -> OrchestratorView {
        OrchestratorView {
            phase: self.phase,
            requests: request_views(self.requests@),
            outcomes: outcome_views(self.outcomes@),
            receipt: self.receipt@,
            timestamp: self.timestamp,
            decoded: match self.decoded {
                Some(d) => Some(d@),
                None => None,
            },
        }
    }
}

/// Of any outcomes, no more are submissions than there are outcomes.
pub proof fn lemma_submitted_count_bounded(outcomes: Seq<RequestOutcomeView>)
    ensures
        submitted_count(outcomes) <= outcomes.len(),
    decreases outcomes.len(),
{
    if outcomes.len() > 0 {
        lemma_submitted_count_bounded(outcomes.drop_last());
    }
}

/// Moving on keeps the batch and every outcome recorded before, ends in a
/// state the orchestrator can be in, and either asks for a receipt or ends
/// the batch; when it ends the batch, each request has its outcome.
pub proof fn lemma_advance_keeps_batch(
    gateway: Seq<char>,
    max_size: usize,
    requests: Seq<ProofRequestView>,
    outcomes: Seq<RequestOutcomeView>,
)
    requires
        outcomes.len() <= requests.len(),
    ensures
        ({
            let (next, action) = advance(gateway, max_size, requests, outcomes);
            &&& next.requests == requests
            &&& outcomes.is_prefix_of(next.outcomes)
            &&& well_formed(next)
            &&& action is Finished || action is Fetch
            &&& action is Finished <==> next.outcomes.len() == requests.len()
        }),
    decreases requests.len() - outcomes.len(),
{
    if outcomes.len() < requests.len() {
        let locator = requests[outcomes.len() as int].receipt_url;
        if receipt_url(locator, gateway) is None {
            let more = outcomes.push(
                RequestOutcomeView::Failed(VerifierErrorView::UnsupportedScheme(locator)),
            );
            lemma_advance_keeps_batch(gateway, max_size, requests, more);
            let (next, action) = advance(gateway, max_size, requests, more);
            assert(outcomes =~= more.subrange(0, outcomes.len() as int));
            assert(outcomes =~= next.outcomes.subrange(0, outcomes.len() as int));
        } else {
            assert(outcomes =~= outcomes.subrange(0, outcomes.len() as int));
        }
    } else {
        assert(outcomes =~= outcomes.subrange(0, outcomes.len() as int));
    }
}

/// Recording an outcome within a batch puts it at the place of the current
/// request, keeps the batch and every outcome before it, and moves on to
/// the requests after it or ends the batch.
pub proof fn lemma_recorded_at_its_place(
    p: PipelineView,
    s: OrchestratorView,
    outcome: RequestOutcomeView,
)
    requires
        well_formed(s),
        in_batch(s.phase),
    ensures
        ({
            let k = s.outcomes.len() as int;
            let (next, action) = recorded(p, s, outcome);
            &&& next.requests == s.requests
            &&& next.outcomes.len() > k
            &&& next.outcomes.subrange(0, k) == s.outcomes
            &&& s.outcomes.is_prefix_of(next.outcomes)
            &&& next.outcomes[k] == outcome
            &&& well_formed(next)
            &&& action is Fetch || action is Finished
            &&& action is Finished <==> next.outcomes.len() == s.requests.len()
        }),
{
    let k = s.outcomes.len() as int;
    let more = s.outcomes.push(outcome);
    lemma_advance_keeps_batch(p.ipfs_gateway, p.max_receipt_size, s.requests, more);
    let (next, action) = advance(p.ipfs_gateway, p.max_receipt_size, s.requests, more);
    assert(next.outcomes.subrange(0, more.len() as int) == more);
    assert(next.outcomes[k] == more[k]);
    assert(next.outcomes.subrange(0, k) =~= s.outcomes);
}

/// Every step keeps a state that the orchestrator can be in. Within a
/// batch it also keeps the requests of the batch and every outcome recorded
/// before, so that what happens to one request never undoes or skips
/// another; and when a step ends the batch, each request has its outcome.
pub proof fn lemma_step_keeps_batch(p: PipelineView, s: OrchestratorView, event: EventView)
    requires
        well_formed(s),
    ensures
        ({
            let (next, action) = transition(p, s, event);
            &&& well_formed(next)
            &&& in_batch(s.phase) ==> {
                &&& next.requests == s.requests
                &&& s.outcomes.is_prefix_of(next.outcomes)
            }
            &&& action is Finished ==> next.outcomes.len() == next.requests.len()
        }),
{
    assert(s.outcomes =~= s.outcomes.subrange(0, s.outcomes.len() as int));
    if in_batch(s.phase) {
        let k = s.outcomes.len() as int;
        match (s.phase, event) {
            (Phase::Fetching, EventView::Fetched { result: Err(e), timestamp }) => {
                lemma_recorded_at_its_place(p, s, RequestOutcomeView::Failed(e));
            },
            (Phase::Fetching, EventView::Fetched { result: Ok(bytes), timestamp }) => {
                lemma_recorded_at_its_place(
                    p,
                    s,
                    RequestOutcomeView::Failed(
                        VerifierErrorView::ReceiptTooLarge {
                            size: bytes.len() as usize,
                            max: p.max_receipt_size,
                        },
                    ),
                );
            },
            (Phase::Decoding, EventView::Decoded(decoded)) => {
                let refusal = proof_refusal(
                    p.allowed,
                    decoded,
                    s.requests[k].proof_type,
                    None,
                );
                lemma_recorded_at_its_place(p, s, RequestOutcomeView::Failed(refusal->0));
            },
            (Phase::Proving, EventView::Proved(rejection)) => {
                let a = attestation(
                    p,
                    s.requests[k],
                    s.receipt,
                    s.decoded->0,
                    rejection,
                    s.timestamp,
                );
                lemma_recorded_at_its_place(p, s, RequestOutcomeView::Failed(a->Err_0));
            },
            (Phase::Submitting, EventView::Submitted(Ok(o))) => {
                lemma_recorded_at_its_place(p, s, RequestOutcomeView::Submitted(o));
            },
            (Phase::Submitting, EventView::Submitted(Err(e))) => {
                lemma_recorded_at_its_place(p, s, RequestOutcomeView::Failed(e));
            },
            _ => {},
        }
    } else {
        match (s.phase, event) {
            (Phase::Discovering, EventView::Discovered(Ok(requests))) => {
                lemma_advance_keeps_batch(
                    p.ipfs_gateway,
                    p.max_receipt_size,
                    requests,
                    Seq::empty(),
                );
            },
            _ => {},
        }
    }
}

/// A request whose receipt does not decode, or whose claim the policy
/// refuses, gets that failure as its outcome, at its own place, before the
/// proof system is asked; the orchestrator then moves on to the requests
/// after it.
pub proof fn lemma_refusal_is_isolated(
    p: PipelineView,
    s: OrchestratorView,
    decoded: Result<DecodedReceiptView, Seq<char>>,
)
    requires
        well_formed(s),
        s.phase is Decoding,
        proof_refusal(p.allowed, decoded, s.requests[s.outcomes.len() as int].proof_type, None)
            is Some,
    ensures
        ({
            let k = s.outcomes.len() as int;
            let refusal = proof_refusal(p.allowed, decoded, s.requests[k].proof_type, None)->0;
            let (next, action) = transition(p, s, EventView::Decoded(decoded));
            &&& next.requests == s.requests
            &&& next.outcomes.len() > k
            &&& next.outcomes.subrange(0, k) == s.outcomes
            &&& next.outcomes[k] == RequestOutcomeView::Failed(refusal)
            &&& well_formed(next)
            &&& action is Fetch || action is Finished
        }),
{
    let k = s.outcomes.len() as int;
    let refusal = proof_refusal(p.allowed, decoded, s.requests[k].proof_type, None)->0;
    lemma_recorded_at_its_place(p, s, RequestOutcomeView::Failed(refusal));
}

/// A request whose receipt the proof system rejects, or that cannot be
/// signed, gets that failure as its outcome, at its own place, and the
/// orchestrator moves on to the requests after it.
pub proof fn lemma_failure_is_isolated(
    p: PipelineView,
    s: OrchestratorView,
    rejection: Option<Seq<char>>,
)
    requires
        well_formed(s),
        s.phase is Proving,
        attestation(
            p,
            s.requests[s.outcomes.len() as int],
            s.receipt,
            s.decoded->0,
            rejection,
            s.timestamp,
        ) is Err,
    ensures
        ({
            let k = s.outcomes.len() as int;
            let failure = attestation(
                p,
                s.requests[k],
                s.receipt,
                s.decoded->0,
                rejection,
                s.timestamp,
            )->Err_0;
            let (next, action) = transition(p, s, EventView::Proved(rejection));
            &&& next.requests == s.requests
            &&& next.outcomes.len() > k
            &&& next.outcomes.subrange(0, k) == s.outcomes
            &&& next.outcomes[k] == RequestOutcomeView::Failed(failure)
            &&& well_formed(next)
            &&& action is Fetch || action is Finished
        }),
{
    let k = s.outcomes.len() as int;
    let failure = attestation(
        p,
        s.requests[k],
        s.receipt,
        s.decoded->0,
        rejection,
        s.timestamp,
    )->Err_0;
    lemma_recorded_at_its_place(p, s, RequestOutcomeView::Failed(failure));
}

/// A submission that the inbox rejects, or that never reaches it, is the
/// outcome of its own request only: it is recorded at the place of that
/// request, the batch is kept, and the orchestrator moves on.
pub proof fn lemma_failed_submission_is_recorded(
    p: PipelineView,
    s: OrchestratorView,
    e: VerifierErrorView,
)
    requires
        well_formed(s),
        s.phase is Submitting,
    ensures
        ({
            let k = s.outcomes.len() as int;
            let (next, action) = transition(p, s, EventView::Submitted(Err(e)));
            &&& next.requests == s.requests
            &&& next.outcomes.len() > k
            &&& next.outcomes.subrange(0, k) == s.outcomes
            &&& next.outcomes[k] == RequestOutcomeView::Failed(e)
            &&& well_formed(next)
            &&& action is Fetch || action is Finished
        }),
{
    lemma_recorded_at_its_place(p, s, RequestOutcomeView::Failed(e));
}

/// The orchestrator never takes up a receipt that is longer than the
/// ceiling: a receipt is held for decoding only if it is within it.
pub proof fn lemma_held_receipt_within_ceiling(
    p: PipelineView,
    s: OrchestratorView,
    bytes: Seq<u8>,
    timestamp: u64,
)
    requires
        well_formed(s),
        s.phase is Fetching,
    ensures
        ({
            let (next, action) = transition(
                p,
                s,
                EventView::Fetched { result: Ok(bytes), timestamp },
            );
            &&& action is Decode <==> bytes.len() <= p.max_receipt_size
            &&& action is Decode ==> next.receipt == bytes && next.phase is Decoding
            &&& bytes.len() > p.max_receipt_size ==> next.outcomes[s.outcomes.len() as int]
                == RequestOutcomeView::Failed(
                VerifierErrorView::ReceiptTooLarge {
                    size: bytes.len() as usize,
                    max: p.max_receipt_size,
                },
            )
        }),
{
    if bytes.len() > p.max_receipt_size {
        lemma_recorded_at_its_place(
            p,
            s,
            RequestOutcomeView::Failed(
                VerifierErrorView::ReceiptTooLarge {
                    size: bytes.len() as usize,
                    max: p.max_receipt_size,
                },
            ),
        );
    }
}

fn count_submitted(outcomes: &Vec<RequestOutcome>) -> (n: usize)
    ensures
        n == submitted_count(outcome_views(outcomes@)),
{
    let mut n: usize = 0;
    let mut i: usize = 0;
    assert(outcome_views(outcomes@).take(0) =~= Seq::<RequestOutcomeView>::empty());
    while i < outcomes.len()
        invariant
            i <= outcomes.len(),
            n <= i,
            n == submitted_count(outcome_views(outcomes@).take(i as int)),
        decreases outcomes.len() - i,
    {
        proof {
            let now = outcome_views(outcomes@).take(i + 1);
            assert(now.drop_last() =~= outcome_views(outcomes@).take(i as int));
            assert(now.last() == outcomes@[i as int]@);
        }
        match &outcomes[i] {
            RequestOutcome::Submitted(_) => {
                n += 1;
            },
            RequestOutcome::Failed(_) => {},
        }
        i += 1;
    }
    assert(outcome_views(outcomes@).take(outcomes.len() as int) =~= outcome_views(outcomes@));
    n
}

/// Verifies and signs the receipt of a request, given its raw bytes, what
/// they decoded to, and what the proof system said of them (`None` where
/// it accepted the receipt).
pub fn attest(
    pipeline: &Pipeline,
    request: &ProofRequest,
    receipt_bytes: &[u8],
    decoded: DecodedReceipt,
    rejection: Option<String>,
    timestamp: u64,
) -> (res: Result<VerifiedReceipt, VerifierError>)
    ensures
        match res {
            Ok(signed) => {
                &&& attested(
                    pipeline@,
                    request@,
                    receipt_bytes@,
                    decoded@,
                    opt_text(rejection),
                    timestamp,
                ) == Ok::<VerifiedReceiptView, VerifierErrorView>(signed@)
                &&& signed.receipt_hash@.len() == 66
                &&& signed.journal_hash@.len() == 66
                &&& signed.signature@.len() == 132
                &&& signed.verifier_address matches Some(a) && a@.len() == 42
            },
            Err(e) => attested(
                pipeline@,
                request@,
                receipt_bytes@,
                decoded@,
                opt_text(rejection),
                timestamp,
            ) == Err::<VerifiedReceiptView, VerifierErrorView>(e@),
        },
{
    let ghost d = decoded@;
    let proof = pipeline.verifier.verify_proof(
        receipt_bytes,
        Ok(decoded),
        request.proof_type.as_str(),
        rejection,
    )?;
    let receipt = VerifiedReceipt {
        device_id: request.device_id.clone(),
        proof_type: request.proof_type.clone(),
        receipt_hash: to_prefixed_hex(proof.receipt_hash().as_slice()),
        image_id: proof.image_id(),
        journal_hash: to_prefixed_hex(proof.journal_hash().as_slice()),
        epoch_index: request.epoch_index,
        input_index: request.input_index,
        signature: String::new(),
        timestamp: Some(timestamp),
        verifier_address: Some(pipeline.signer.get_address()),
    };
    assert(receipt@ == unsigned_receipt(pipeline@.secret, request@, receipt_bytes@, d, timestamp));
    let signed = pipeline.signer.sign_receipt(receipt)?;
    Ok(signed)
}

/// Takes the receipt of a request through verification, signing and
/// framing, given its raw bytes, what they decoded to, and what the proof
/// system said of them, and gives the envelope to submit.
pub fn process_single_request(
    pipeline: &Pipeline,
    request: &ProofRequest,
    receipt_bytes: &[u8],
    decoded: DecodedReceipt,
    rejection: Option<String>,
    timestamp: u64,
) -> (res: Result<InputBoxPayload, VerifierError>)
    ensures
        match res {
            Ok(payload) => {
                &&& attestation(
                    pipeline@,
                    request@,
                    receipt_bytes@,
                    decoded@,
                    opt_text(rejection),
                    timestamp,
                ) == Ok::<InputBoxPayloadView, VerifierErrorView>(payload@)
                &&& attested(
                    pipeline@,
                    request@,
                    receipt_bytes@,
                    decoded@,
                    opt_text(rejection),
                    timestamp,
                ) matches Ok(signed)
                &&& signed.signature.len() == 132
                &&& signed.receipt_hash.len() == 66
                &&& signed.journal_hash.len() == 66
            },
            Err(e) => attestation(
                pipeline@,
                request@,
                receipt_bytes@,
                decoded@,
                opt_text(rejection),
                timestamp,
            ) == Err::<InputBoxPayloadView, VerifierErrorView>(e@),
        },
{
    let signed = attest(pipeline, request, receipt_bytes, decoded, rejection, timestamp)?;
    pipeline.inbox.submit_verified_receipt(&signed)
}

fn advance_batch(
    pipeline: &Pipeline,
    requests: Vec<ProofRequest>,
    outcomes: Vec<RequestOutcome>,
) -> (res: (Orchestrator, Action))
    requires
        outcomes@.len() <= requests@.len(),
    ensures
        (res.0@, res.1@) == advance(
            pipeline@.ipfs_gateway,
            pipeline@.max_receipt_size,
            request_views(requests@),
            outcome_views(outcomes@),
        ),
{
    let mut done = outcomes;
    while done.len() < requests.len()
        invariant
            done@.len() <= requests@.len(),
            advance(
                pipeline@.ipfs_gateway,
                pipeline@.max_receipt_size,
                request_views(requests@),
                outcome_views(outcomes@),
            ) == advance(
                pipeline@.ipfs_gateway,
                pipeline@.max_receipt_size,
                request_views(requests@),
                outcome_views(done@),
            ),
        decreases requests.len() - done.len(),
    {
        let k = done.len();
        assert(request_views(requests@)[k as int] == requests@[k as int]@);
        match resolve_receipt_url(
            requests[k].receipt_url.as_str(),
            pipeline.ipfs_gateway.as_str(),
        ) {
            Ok(url) => {
                return (
                    Orchestrator {
                        phase: Phase::Fetching,
                        requests,
                        outcomes: done,
                        receipt: Vec::new(),
                        timestamp: 0,
                        decoded: None,
                    },
                    Action::Fetch { url, max_size: pipeline.max_receipt_size },
                );
            },
            Err(e) => {
                let ghost before = outcome_views(done@);
                done.push(RequestOutcome::Failed(e));
                assert(outcome_views(done@) =~= before.push(RequestOutcomeView::Failed(e@)));
            },
        }
    }
    proof {
        lemma_submitted_count_bounded(outcome_views(done@));
    }
    let processed = count_submitted(&done);
    (
        Orchestrator {
            phase: Phase::Idle,
            requests,
            outcomes: done,
            receipt: Vec::new(),
            timestamp: 0,
            decoded: None,
        },
        Action::Finished { processed },
    )
}

fn record(
    pipeline: &Pipeline,
    requests: Vec<ProofRequest>,
    outcomes: Vec<RequestOutcome>,
    outcome: RequestOutcome,
) -> (res: (Orchestrator, Action))
    requires
        outcomes@.len() < requests@.len(),
    ensures
        (res.0@, res.1@) == advance(
            pipeline@.ipfs_gateway,
            pipeline@.max_receipt_size,
            request_views(requests@),
            outcome_views(outcomes@).push(outcome@),
        ),
{
    let mut outcomes = outcomes;
    let ghost before = outcome_views(outcomes@);
    outcomes.push(outcome);
    assert(outcome_views(outcomes@) =~= before.push(outcome@));
    advance_batch(pipeline, requests, outcomes)
}

impl Orchestrator {
    /// The orchestrator is always in a state that `well_formed` admits.
    #[verifier::type_invariant]
    pub closed spec fn wf(self) -> bool {
        well_formed(self@)
    }

    /// Makes an orchestrator that waits for its first tick.
    pub fn new() -> (o: Orchestrator)
        ensures
            o@ == at_rest(Phase::Idle, Seq::empty(), Seq::empty()),
    {
        let o = Orchestrator {
            phase: Phase::Idle,
            requests: Vec::new(),
            outcomes: Vec::new(),
            receipt: Vec::new(),
            timestamp: 0,
            decoded: None,
        };
        assert(o@.requests =~= Seq::empty());
        assert(o@.outcomes =~= Seq::empty());
        o
    }

    /// Where the orchestrator stands.
    pub fn phase(&self) -> (phase: Phase)
        ensures
            phase == self@.phase,
    {
        self.phase
    }

    /// The outcomes recorded for the batch so far, one for each request
    /// that was taken up, in the order of the requests.
    pub fn outcomes(&self) -> (outcomes: &Vec<RequestOutcome>)
        ensures
            outcome_views(outcomes@) == self@.outcomes,
            outcomes@.len() <= self@.requests.len(),
    {
        proof {
            use_type_invariant(self);
        }
        &self.outcomes
    }

    /// The raw receipt that the orchestrator holds while it is decoded and
    /// proved; empty in every other phase that a step leads to.
    pub fn receipt(&self) -> (bytes: &[u8])
        ensures
            bytes@ == self@.receipt,
    {
        self.receipt.as_slice()
    }

    /// Takes one event and gives the state that follows and what is to be
    /// done next. An event that the phase does not wait for changes nothing.
    pub fn step(self, pipeline: &Pipeline, event: Event) -> (res: (Orchestrator, Action))
        ensures
            (res.0@, res.1@) == transition(pipeline@, self@, event@),
    {
        proof {
            use_type_invariant(&self);
        }
        let ghost s = self@;
        let Orchestrator { phase, requests, outcomes, receipt, timestamp, decoded } = self;
        let k = outcomes.len();
        match (phase, event) {
            (Phase::Idle, Event::Tick) => {
                let next = Orchestrator {
                    phase: Phase::Discovering,
                    requests: Vec::new(),
                    outcomes: Vec::new(),
                    receipt: Vec::new(),
                    timestamp: 0,
                    decoded: None,
                };
                assert(next@.requests =~= Seq::empty());
                assert(next@.outcomes =~= Seq::empty());
                (next, Action::Discover)
            },
            (Phase::Discovering, Event::Discovered(Err(e))) => {
                let next = Orchestrator {
                    phase: Phase::Idle,
                    requests: Vec::new(),
                    outcomes: Vec::new(),
                    receipt: Vec::new(),
                    timestamp: 0,
                    decoded: None,
                };
                assert(next@.requests =~= Seq::empty());
                assert(next@.outcomes =~= Seq::empty());
                (next, Action::DiscoveryFailed(e))
            },
            (Phase::Discovering, Event::Discovered(Ok(found))) => {
                let none: Vec<RequestOutcome> = Vec::new();
                assert(outcome_views(none@) =~= Seq::empty());
                advance_batch(pipeline, found, none)
            },
            (Phase::Fetching, Event::Fetched { result: Err(e), timestamp: _ }) => record(
                pipeline,
                requests,
                outcomes,
                RequestOutcome::Failed(e),
            ),
            (Phase::Fetching, Event::Fetched { result: Ok(bytes), timestamp: at }) => {
                if bytes.len() > pipeline.max_receipt_size {
                    let e = VerifierError::ReceiptTooLarge {
                        size: bytes.len(),
                        max: pipeline.max_receipt_size,
                    };
                    record(pipeline, requests, outcomes, RequestOutcome::Failed(e))
                } else {
                    (
                        Orchestrator {
                            phase: Phase::Decoding,
                            requests,
                            outcomes,
                            receipt: bytes,
                            timestamp: at,
                            decoded: None,
                        },
                        Action::Decode,
                    )
                }
            },
            (Phase::Decoding, Event::Decoded(result)) => {
                assert(request_views(requests@)[k as int] == requests@[k as int]@);
                let found = match result {
                    Ok(d) => d,
                    Err(detail) => {
                        let e = VerifierError::ProofVerification(
                            VerificationFailure::DeserializationFailed(detail),
                        );
                        return record(pipeline, requests, outcomes, RequestOutcome::Failed(e));
                    },
                };
                let image_digest = slice_to_vec(found.image_digest.as_slice());
                let claim = ReceiptClaim {
                    image_id: to_prefixed_hex(found.image_digest.as_slice()),
                    journal: slice_to_vec(found.journal.as_slice()),
                    exit: found.exit,
                };
                assert(claim@ == claim_of(found@));
                match pipeline.verifier.check_claim(&claim, requests[k].proof_type.as_str()) {
                    Err(e) => record(pipeline, requests, outcomes, RequestOutcome::Failed(e)),
                    Ok(()) => (
                        Orchestrator {
                            phase: Phase::Proving,
                            requests,
                            outcomes,
                            receipt,
                            timestamp,
                            decoded: Some(found),
                        },
                        Action::Prove { image_digest },
                    ),
                }
            },
            (Phase::Proving, Event::Proved(rejection)) => {
                assert(request_views(requests@)[k as int] == requests@[k as int]@);
                let found = match decoded {
                    Some(d) => d,
                    None => {
                        return (
                            Orchestrator {
                                phase,
                                requests,
                                outcomes,
                                receipt,
                                timestamp,
                                decoded: None,
                            },
                            Action::Ignore,
                        );
                    },
                };
                match process_single_request(
                    pipeline,
                    &requests[k],
                    receipt.as_slice(),
                    found,
                    rejection,
                    timestamp,
                ) {
                    Ok(payload) => (
                        Orchestrator {
                            phase: Phase::Submitting,
                            requests,
                            outcomes,
                            receipt: Vec::new(),
                            timestamp: 0,
                            decoded: None,
                        },
                        Action::Submit(payload),
                    ),
                    Err(e) => record(pipeline, requests, outcomes, RequestOutcome::Failed(e)),
                }
            },
            (Phase::Submitting, Event::Submitted(Ok(o))) => record(
                pipeline,
                requests,
                outcomes,
                RequestOutcome::Submitted(o),
            ),
            (Phase::Submitting, Event::Submitted(Err(e))) => record(
                pipeline,
                requests,
                outcomes,
                RequestOutcome::Failed(e),
            ),
            (phase, _) => (
                Orchestrator { phase, requests, outcomes, receipt, timestamp, decoded },
                Action::Ignore,
            ),
        }
    }
}

} // verus!
