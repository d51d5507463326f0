//! The request source: reading the answers of the query endpoint, deciding
//! on retries, and decoding notices into proof requests.

use vstd::prelude::*;
use vstd::string::StringSliceAdditionalSpecFns;
use vstd::utf8::decode_utf8;
use vstd::utf8::encode_utf8;
use vstd::utf8::valid_utf8;

use crate::codec::hex_decode;
use crate::codec::hex_decoded;
use crate::codec::is_hex;
use crate::error::message_text;
use crate::error::SourceError;
use crate::error::SourceErrorView;
use crate::error::VerifierError;
use crate::error::VerifierErrorView;
use crate::inputbox_client::is_success_status;
use crate::json::json_node;
use crate::json::json_node_at;
use crate::json::JsonNode;
use crate::json::JsonNodeView;
use crate::text::decimal;
use crate::text::decimal_digits;
use crate::text::join;
use crate::text::joined;
use crate::text::same_text;
use crate::text::texts;
use crate::text::trim_start_matches;
use crate::text::without_leading;
use crate::types::Notice;
use crate::types::NoticeView;
use crate::types::ProofRequest;
use crate::types::ProofRequestView;

verus! {

/// The views of a list of notices.
pub open spec fn notice_views(notices: Seq<Notice>) -> Seq<NoticeView> {
    notices.map_values(|n: Notice| n@)
}

/// The views of a list of proof requests.
pub open spec fn request_views(requests: Seq<ProofRequest>) -> Seq<ProofRequestView> {
    requests.map_values(|r: ProofRequest| r@)
}

/// The JSON pointer `prefix`, the decimal numeral of `i`, `suffix`.
pub open spec fn pointer_at(prefix: Seq<char>, i: nat, suffix: Seq<char>) -> Seq<char> {
    prefix + decimal_digits(i) + suffix
}

/// The strings at the pointers `pointer_at(prefix, i, suffix)` for `i`
/// below `n`, in that order; `None` where one of the places holds no string.
pub open spec fn texts_in(document: Seq<char>, prefix: Seq<char>, suffix: Seq<char>, n: nat)
    -> Option<Seq<Seq<char>>> {
    if forall|i: nat|
        i < n ==> #[trigger] json_node(document, pointer_at(prefix, i, suffix)) is Text {
        Some(
            Seq::new(
                n,
                |i: int| json_node(document, pointer_at(prefix, i as nat, suffix))->Text_0,
            ),
        )
    } else {
        None
    }
}

/// The queries that the client makes. Each expects data of its own shape.
#[derive(Debug, Clone, Copy, PartialEq, Eq)]
pub enum QueryKind {
    /// The query for notices; its data must list notices.
    Notices,
    /// The query for inputs; any data will do.
    Inputs,
}

/// Whether the data of an answer is of the shape that the query expects.
pub open spec fn data_fits(kind: QueryKind, body: Seq<char>) -> bool {
    match kind {
        QueryKind::Notices => notices_in(body) is Some,
        QueryKind::Inputs => true,
    }
}

/// What is wrong with an answer to a query, if anything: a status that is
/// no success; a body that is not JSON; errors that the endpoint reports,
/// their messages joined by ", "; no data; or data that is not of the
/// shape that the query expects.
pub open spec fn query_error(kind: QueryKind, status: u16, body: Seq<char>) -> Option<
    VerifierErrorView,
> {
    match response_error(status, body) {
        Some(e) => Some(e),
        None => if data_fits(kind, body) {
            None
        } else {
            Some(VerifierErrorView::GraphQL(SourceErrorView::Malformed))
        },
    }
}

/// What is wrong with an answer of the endpoint whatever the query was, if
/// anything: a status that is no success; a body that is not JSON; errors
/// that the endpoint reports, their messages joined by ", "; or no data.
pub open spec fn response_error(status: u16, body: Seq<char>) -> Option<VerifierErrorView> {
    if !is_success_status(status) {
        Some(VerifierErrorView::GraphQL(SourceErrorView::Status { code: status, body }))
    } else if json_node(body, ""@) is Malformed {
        Some(VerifierErrorView::Serialization("response body is not JSON"@))
    } else {
        match json_node(body, "/errors"@) {
            JsonNodeView::Array(n) => match texts_in(body, "/errors/"@, "/message"@, n as nat) {
                Some(messages) => Some(
                    VerifierErrorView::GraphQL(SourceErrorView::Query(joined(messages, ", "@))),
                ),
                None => Some(VerifierErrorView::GraphQL(SourceErrorView::Malformed)),
            },
            JsonNodeView::Absent | JsonNodeView::Null => match json_node(body, "/data"@) {
                JsonNodeView::Absent | JsonNodeView::Null => Some(
                    VerifierErrorView::GraphQL(SourceErrorView::NoData),
                ),
                _ => None,
            },
            _ => Some(VerifierErrorView::GraphQL(SourceErrorView::Malformed)),
        }
    }
}

/// How one attempt to query the endpoint ended.
#[derive(Debug, Clone, PartialEq, Eq)]
pub enum AttemptOutcome {
    /// The endpoint answered.
    Answered { status: u16, body: String },
    /// The attempt ran longer than the request timeout.
    TimedOut,
    /// The request could not be made, for the reason given.
    Failed(String),
}

pub enum AttemptOutcomeView {
    Answered { status: u16, body: Seq<char> },
    TimedOut,
    Failed(Seq<char>),
}

impl View for AttemptOutcome {
    type V = AttemptOutcomeView;

    open spec fn view(&self) -> AttemptOutcomeView {
        match *self {
            AttemptOutcome::Answered { status, body } => AttemptOutcomeView::Answered {
                status,
                body: body@,
            },
            AttemptOutcome::TimedOut => AttemptOutcomeView::TimedOut,
            AttemptOutcome::Failed(m) => AttemptOutcomeView::Failed(m@),
        }
    }
}

/// What is to be done after an attempt.
#[derive(Debug, Clone, PartialEq, Eq)]
pub enum RetryDecision {
    /// The attempt succeeded; `body` is the answer.
    Done { body: String },
    /// Wait `delay_secs` seconds, then make attempt number `attempt`.
    RetryAfter { delay_secs: u64, attempt: u32 },
    /// Make no further attempt and report this error.
    GiveUp(VerifierError),
}

pub enum RetryDecisionView {
    Done { body: Seq<char> },
    RetryAfter { delay_secs: u64, attempt: u32 },
    GiveUp(VerifierErrorView),
}

impl View for RetryDecision {
    type V = RetryDecisionView;

    open spec fn view(&self) -> RetryDecisionView {
        match *self {
            RetryDecision::Done { body } => RetryDecisionView::Done { body: body@ },
            RetryDecision::RetryAfter { delay_secs, attempt } => RetryDecisionView::RetryAfter {
                delay_secs,
                attempt,
            },
            RetryDecision::GiveUp(e) => RetryDecisionView::GiveUp(e@),
        }
    }
}

/// What went wrong in an attempt at a query, if anything.
pub open spec fn attempt_error(kind: QueryKind, outcome: AttemptOutcomeView) -> Option<
    VerifierErrorView,
> {
    match outcome {
        AttemptOutcomeView::Answered { status, body } => query_error(kind, status, body),
        AttemptOutcomeView::TimedOut => Some(VerifierErrorView::GraphQL(SourceErrorView::Timeout)),
        AttemptOutcomeView::Failed(m) => Some(VerifierErrorView::Network(m)),
    }
}

/// Whether an error may go away when the query is made again: every error
/// but an answer with a status from 400 to 499.
pub open spec fn is_retryable(e: VerifierErrorView) -> bool {
    match e {
        VerifierErrorView::GraphQL(SourceErrorView::Status { code, body }) => !(400 <= code
            <= 499),
        _ => true,
    }
}

/// The pause before the attempt that follows attempt number `attempt`:
/// the base delay times `attempt`, or `u64::MAX` where that is more.
pub open spec fn backoff_secs(retry_delay_secs: u64, attempt: u32) -> u64 {
    if retry_delay_secs * attempt <= u64::MAX {
        (retry_delay_secs * attempt) as u64
    } else {
        u64::MAX
    }
}

/// What is to be done after attempt number `attempt` at a query ended
/// with `outcome`.
pub open spec fn retry_decision(
    kind: QueryKind,
    max_retries: u32,
    retry_delay_secs: u64,
    attempt: u32,
    outcome: AttemptOutcomeView,
) -> RetryDecisionView {
    match attempt_error(kind, outcome) {
        None => RetryDecisionView::Done { body: outcome->Answered_body },
        Some(e) => if !is_retryable(e) {
            RetryDecisionView::GiveUp(e)
        } else if attempt < max_retries {
            RetryDecisionView::RetryAfter {
                delay_secs: backoff_secs(retry_delay_secs, attempt),
                attempt: (attempt + 1) as u32,
            }
        } else {
            RetryDecisionView::GiveUp(
                VerifierErrorView::GraphQL(
                    SourceErrorView::Exhausted { attempts: attempt, last: message_text(e) },
                ),
            )
        },
    }
}

/// Retries are bounded and never follow a client error: another attempt is
/// asked for only after an attempt below the maximum, it is the next one
/// in number, and an answer with a status from 400 to 499 ends the query
/// with that status as its error. An answer to the notices query that
/// lists no notices is never handed out as done.
pub proof fn lemma_retries_are_bounded(
    kind: QueryKind,
    max_retries: u32,
    retry_delay_secs: u64,
    attempt: u32,
    outcome: AttemptOutcomeView,
)
    ensures
        retry_decision(
            kind,
            max_retries,
            retry_delay_secs,
            attempt,
            outcome,
        ) matches RetryDecisionView::RetryAfter { delay_secs, attempt: next } ==> {
            &&& attempt < max_retries
            &&& next == attempt + 1
            &&& delay_secs == backoff_secs(retry_delay_secs, attempt)
        },
        outcome matches AttemptOutcomeView::Answered { status, body } ==> (400 <= status <= 499
            ==> retry_decision(kind, max_retries, retry_delay_secs, attempt, outcome)
            == RetryDecisionView::GiveUp(
            VerifierErrorView::GraphQL(SourceErrorView::Status { code: status, body }),
        )),
        retry_decision(
            QueryKind::Notices,
            max_retries,
            retry_delay_secs,
            attempt,
            outcome,
        ) matches RetryDecisionView::Done { body } ==> notices_in(body) is Some,
{
}

/// The bytes that a notice payload spells, read as text: the payload is
/// hexadecimal text after any leading `0x`, and its bytes are UTF-8.
pub open spec fn payload_text(payload: Seq<char>) -> Option<Seq<char>> {
    let digits = encode_utf8(without_leading(payload, "0x"@));
    if is_hex(digits) && valid_utf8(hex_decoded(digits)) {
        Some(decode_utf8(hex_decoded(digits)))
    } else {
        None
    }
}

/// The proof request that a JSON document holds: its `type` is
/// `risc0_proof_request` and its `data` holds the four texts and the two
/// indices of a request.
pub open spec fn proof_request_in(document: Seq<char>) -> Option<ProofRequestView> {
    if json_node(document, "/type"@) == JsonNodeView::Text("risc0_proof_request"@) {
        match (
            json_node(document, "/data/device_id"@),
            json_node(document, "/data/proof_type"@),
            json_node(document, "/data/receipt_url"@),
            json_node(document, "/data/expected_image_id"@),
            json_node(document, "/data/epoch_index"@),
            json_node(document, "/data/input_index"@),
        ) {
            (
                JsonNodeView::Text(device_id),
                JsonNodeView::Text(proof_type),
                JsonNodeView::Text(receipt_url),
                JsonNodeView::Text(expected_image_id),
                JsonNodeView::Unsigned(epoch_index),
                JsonNodeView::Unsigned(input_index),
            ) => Some(
                ProofRequestView {
                    device_id,
                    proof_type,
                    receipt_url,
                    expected_image_id,
                    epoch_index,
                    input_index,
                },
            ),
            _ => None,
        }
    } else {
        None
    }
}

/// The proof request that a notice payload holds, if it holds one.
pub open spec fn proof_request_of(payload: Seq<char>) -> Option<ProofRequestView> {
    match payload_text(payload) {
        Some(document) => proof_request_in(document),
        None => None,
    }
}

/// The proof requests that a list of notices holds, in the order of the
/// notices; a notice that holds none is passed over.
pub open spec fn proof_requests_of(notices: Seq<NoticeView>) -> Seq<ProofRequestView>
    decreases notices.len(),
{
    if notices.len() == 0 {
        Seq::empty()
    } else {
        let before = proof_requests_of(notices.drop_last());
        match proof_request_of(notices.last().payload) {
            Some(r) => before.push(r),
            None => before,
        }
    }
}

/// The notices that an answer to the notices query lists; `None` where the
/// answer is not of that shape.
pub open spec fn notices_in(body: Seq<char>) -> Option<Seq<NoticeView>> {
    match json_node(body, "/data/notices/edges"@) {
        JsonNodeView::Array(n) => match (
            texts_in(body, "/data/notices/edges/"@, "/node/index"@, n as nat),
            texts_in(body, "/data/notices/edges/"@, "/node/input/index"@, n as nat),
            texts_in(body, "/data/notices/edges/"@, "/node/payload"@, n as nat),
        ) {
            (Some(indices), Some(inputs), Some(payloads)) => Some(
                Seq::new(
                    n as nat,
                    |i: int|
                        NoticeView {
                            index: indices[i],
                            input_index: inputs[i],
                            payload: payloads[i],
                        },
                ),
            ),
            _ => None,
        },
        _ => None,
    }
}

/// Calls `core::str::from_utf8`, which accepts exactly the byte strings
/// that are UTF-8 and gives them back as text.
#[verifier::external_body]
fn utf8_text(bytes: &[u8]) -> (text: Option<&str>)
    ensures
        text is Some <==> valid_utf8(bytes@),
        text matches Some(t) ==> t.spec_bytes() == bytes@,
{
    core::str::from_utf8(bytes).ok()
}

fn texts_at(document: &str, prefix: &str, suffix: &str, n: usize) -> (res: Option<Vec<String>>)
    ensures
        match res {
            Some(found) => {
                &&& texts_in(document@, prefix@, suffix@, n as nat) == Some(texts(found@))
                &&& found@.len() == n
            },
            None => texts_in(document@, prefix@, suffix@, n as nat) is None,
        },
{
    let mut found: Vec<String> = Vec::new();
    let mut i: usize = 0;
    while i < n
        invariant
            i <= n,
            found@.len() == i,
            forall|j: nat|
                j < i ==> #[trigger] json_node(document@, pointer_at(prefix@, j, suffix@))
                    == JsonNodeView::Text(found@[j as int]@),
        decreases n - i,
    {
        let mut pointer = String::from_str(prefix);
        pointer.append(decimal(i as u64).as_str());
        pointer.append(suffix);
        assert(pointer@ == pointer_at(prefix@, i as nat, suffix@));
        match json_node_at(document, pointer.as_str()) {
            JsonNode::Text(t) => {
                found.push(t);
            },
            _ => {
                assert(!(json_node(document@, pointer_at(prefix@, i as nat, suffix@)) is Text));
                return None;
            },
        }
        i += 1;
    }
    assert(texts_in(document@, prefix@, suffix@, n as nat)->0 =~= texts(found@));
    Some(found)
}

/// The text that a notice payload spells, if it spells one.
pub fn decode_payload(payload: &str) -> (res: Option<String>)
    ensures
        match res {
            Some(t) => payload_text(payload@) == Some(t@),
            None => payload_text(payload@) is None,
        },
{
    let digits = trim_start_matches(payload, "0x");
    let bytes = match hex_decode(digits) {
        Ok(b) => b,
        Err(_) => {
            return None;
        },
    };
    match utf8_text(bytes.as_slice()) {
        Some(t) => {
            proof {
                vstd::utf8::encode_utf8_decode_utf8(t@);
            }
            Some(String::from_str(t))
        },
        None => None,
    }
}

/// The proof request that a notice payload holds, if it holds one.
pub fn decode_proof_request(payload: &str) -> (res: Option<ProofRequest>)
    ensures
        match res {
            Some(r) => proof_request_of(payload@) == Some(r@),
            None => proof_request_of(payload@) is None,
        },
{
    let document = match decode_payload(payload) {
        Some(d) => d,
        None => {
            return None;
        },
    };
    let doc = document.as_str();
    match json_node_at(doc, "/type") {
        JsonNode::Text(tag) => {
            if !same_text(tag.as_str(), "risc0_proof_request") {
                return None;
            }
        },
        _ => {
            return None;
        },
    }
    let device_id = match json_node_at(doc, "/data/device_id") {
        JsonNode::Text(t) => t,
        _ => {
            return None;
        },
    };
    let proof_type = match json_node_at(doc, "/data/proof_type") {
        JsonNode::Text(t) => t,
        _ => {
            return None;
        },
    };
    let receipt_url = match json_node_at(doc, "/data/receipt_url") {
        JsonNode::Text(t) => t,
        _ => {
            return None;
        },
    };
    let expected_image_id = match json_node_at(doc, "/data/expected_image_id") {
        JsonNode::Text(t) => t,
        _ => {
            return None;
        },
    };
    let epoch_index = match json_node_at(doc, "/data/epoch_index") {
        JsonNode::Unsigned(n) => n,
        _ => {
            return None;
        },
    };
    let input_index = match json_node_at(doc, "/data/input_index") {
        JsonNode::Unsigned(n) => n,
        _ => {
            return None;
        },
    };
    Some(
        ProofRequest {
            device_id,
            proof_type,
            receipt_url,
            expected_image_id,
            epoch_index,
            input_index,
        },
    )
}

/// The proof requests that a list of notices holds, in the order of the
/// notices.
pub fn extract_proof_requests(notices: &Vec<Notice>) -> (requests: Vec<ProofRequest>)
    ensures
        request_views(requests@) == proof_requests_of(notice_views(notices@)),
{
    let mut requests: Vec<ProofRequest> = Vec::new();
    let mut i: usize = 0;
    assert(notice_views(notices@).take(0) =~= Seq::<NoticeView>::empty());
    while i < notices.len()
        invariant
            i <= notices.len(),
            request_views(requests@) == proof_requests_of(notice_views(notices@).take(i as int)),
        decreases notices.len() - i,
    {
        proof {
            let now = notice_views(notices@).take(i + 1);
            assert(now.drop_last() =~= notice_views(notices@).take(i as int));
            assert(now.last() == notices@[i as int]@);
        }
        match decode_proof_request(notices[i].payload.as_str()) {
            Some(r) => {
                let ghost before = request_views(requests@);
                requests.push(r);
                assert(request_views(requests@) =~= before.push(r@));
            },
            None => {},
        }
        i += 1;
    }
    assert(notice_views(notices@).take(notices.len() as int) =~= notice_views(notices@));
    requests
}

/// The query that lists the notices among which proof requests are found.
pub const NOTICES_QUERY: &'static str = "query GetProofRequests { \
    notices(first: 100) { edges { node { index input { index } payload } } } }";

/// The query that lists the inputs whose payload holds `$payload`.
pub const INPUTS_QUERY: &'static str = "query CheckReceipt($payload: String!) { \
    inputs(where: { payload: { contains: $payload } }) { edges { node { index } } } }";

/// A client of the query endpoint: where it is, how often a query is
/// tried, and how long to wait for and between the attempts.
#[derive(Debug, Clone, PartialEq, Eq)]
pub struct GraphQLClient {
    pub endpoint: String,
    /// The number of attempts that one query gets at most.
    pub max_retries: u32,
    /// The base of the pause between attempts, in seconds.
    pub retry_delay_secs: u64,
    /// How long one attempt may take, in seconds.
    pub request_timeout_secs: u64,
}

impl GraphQLClient {
    /// Makes a client that tries a query three times, waits two seconds
    /// times the attempt's number between attempts, and gives each attempt
    /// thirty seconds.
    pub fn new(endpoint: &str) -> (res: Result<GraphQLClient, VerifierError>)
        ensures
            res matches Ok(client) && client.endpoint@ == endpoint@ && client.max_retries == 3
                && client.retry_delay_secs == 2 && client.request_timeout_secs == 30,
    {
        Ok(
            GraphQLClient {
                endpoint: String::from_str(endpoint),
                max_retries: 3,
                retry_delay_secs: 2,
                request_timeout_secs: 30,
            },
        )
    }

    /// The number of the first attempt of a query, or the error of a
    /// client that is set to make none.
    pub fn first_attempt(&self) -> (res: Result<u32, VerifierError>)
        ensures
            match res {
                Ok(attempt) => self.max_retries > 0 && attempt == 1,
                Err(e) => {
                    &&& self.max_retries == 0
                    &&& e@ == VerifierErrorView::GraphQL(
                        SourceErrorView::Exhausted { attempts: 0, last: "no attempt was made"@ },
                    )
                },
            },
    {
        if self.max_retries > 0 {
            Ok(1)
        } else {
            Err(
                VerifierError::GraphQL(
                    SourceError::Exhausted {
                        attempts: 0,
                        last: String::from_str("no attempt was made"),
                    },
                ),
            )
        }
    }

    /// Reads one answer to a query and says what is wrong with it, if
    /// anything.
    pub fn execute_request(kind: QueryKind, status: u16, body: &str) -> (res: Result<
        (),
        VerifierError,
    >)
        ensures
            match res {
                Ok(()) => query_error(kind, status, body@) is None,
                Err(e) => query_error(kind, status, body@) == Some(e@),
            },
    {
        if status < 200 || status > 299 {
            return Err(
                VerifierError::GraphQL(
                    SourceError::Status { code: status, body: String::from_str(body) },
                ),
            );
        }
        match json_node_at(body, "") {
            JsonNode::Malformed => {
                return Err(
                    VerifierError::Serialization(String::from_str("response body is not JSON")),
                );
            },
            _ => {},
        }
        match json_node_at(body, "/errors") {
            JsonNode::Array(n) => {
                return match texts_at(body, "/errors/", "/message", n) {
                    Some(messages) => Err(
                        VerifierError::GraphQL(SourceError::Query(join(&messages, ", "))),
                    ),
                    None => Err(VerifierError::GraphQL(SourceError::Malformed)),
                };
            },
            JsonNode::Absent | JsonNode::Null => {},
            _ => {
                return Err(VerifierError::GraphQL(SourceError::Malformed));
            },
        }
        match json_node_at(body, "/data") {
            JsonNode::Absent | JsonNode::Null => {
                return Err(VerifierError::GraphQL(SourceError::NoData));
            },
            _ => {},
        }
        match kind {
            QueryKind::Notices => match GraphQLClient::read_notices(body) {
                Some(_) => Ok(()),
                None => Err(VerifierError::GraphQL(SourceError::Malformed)),
            },
            QueryKind::Inputs => Ok(()),
        }
    }

    /// Decides what follows attempt number `attempt` at a query, which
    /// ended with `outcome`: the answer is handed out, another attempt is
    /// made after a pause that grows with the attempt's number, or the
    /// query is given up.
    pub fn execute_with_retry(
        &self,
        kind: QueryKind,
        attempt: u32,
        outcome: AttemptOutcome,
    ) -> (decision: RetryDecision)
        ensures
            decision@ == retry_decision(
                kind,
                self.max_retries,
                self.retry_delay_secs,
                attempt,
                outcome@,
            ),
    {
        let error = match outcome {
            AttemptOutcome::Answered { status, body } => {
                match GraphQLClient::execute_request(kind, status, body.as_str()) {
                    Ok(()) => {
                        return RetryDecision::Done { body };
                    },
                    Err(e) => e,
                }
            },
            AttemptOutcome::TimedOut => VerifierError::GraphQL(SourceError::Timeout),
            AttemptOutcome::Failed(m) => VerifierError::Network(m),
        };
        let retryable = match &error {
            VerifierError::GraphQL(SourceError::Status { code, body }) => !(400 <= *code && *code
                <= 499),
            _ => true,
        };
        if !retryable {
            RetryDecision::GiveUp(error)
        } else if attempt < self.max_retries {
            let delay_secs = match self.retry_delay_secs.checked_mul(attempt as u64) {
                Some(d) => d,
                None => u64::MAX,
            };
            RetryDecision::RetryAfter { delay_secs, attempt: attempt + 1 }
        } else {
            RetryDecision::GiveUp(
                VerifierError::GraphQL(
                    SourceError::Exhausted { attempts: attempt, last: error.message() },
                ),
            )
        }
    }

    /// Reads the notices out of an answer to the notices query and decodes
    /// the proof requests among them, in their order.
    pub fn query_proof_requests(&self, body: &str) -> (res: Result<
        Vec<ProofRequest>,
        VerifierError,
    >)
        ensures
            match res {
                Ok(requests) => {
                    &&& notices_in(body@) matches Some(notices)
                    &&& request_views(requests@) == proof_requests_of(notices)
                },
                Err(e) => {
                    &&& notices_in(body@) is None
                    &&& e@ == VerifierErrorView::GraphQL(SourceErrorView::Malformed)
                },
            },
    {
        match GraphQLClient::read_notices(body) {
            Some(notices) => Ok(extract_proof_requests(&notices)),
            None => Err(VerifierError::GraphQL(SourceError::Malformed)),
        }
    }

    /// The notices that an answer to the notices query lists.
    pub fn read_notices(body: &str) -> (res: Option<Vec<Notice>>)
        ensures
            match res {
                Some(notices) => notices_in(body@) == Some(notice_views(notices@)),
                None => notices_in(body@) is None,
            },
    {
        let n = match json_node_at(body, "/data/notices/edges") {
            JsonNode::Array(n) => n,
            _ => {
                return None;
            },
        };
        let indices = texts_at(body, "/data/notices/edges/", "/node/index", n)?;
        let inputs = texts_at(body, "/data/notices/edges/", "/node/input/index", n)?;
        let payloads = texts_at(body, "/data/notices/edges/", "/node/payload", n)?;
        let mut notices: Vec<Notice> = Vec::new();
        let mut i: usize = 0;
        while i < n
            invariant
                i <= n,
                indices@.len() == n,
                inputs@.len() == n,
                payloads@.len() == n,
                notices@.len() == i,
                forall|j: int|
                    0 <= j < i ==> (#[trigger] notices@[j])@ == (NoticeView {
                        index: indices@[j]@,
                        input_index: inputs@[j]@,
                        payload: payloads@[j]@,
                    }),
            decreases n - i,
        {
            notices.push(
                Notice {
                    index: indices[i].clone(),
                    input_index: inputs[i].clone(),
                    payload: payloads[i].clone(),
                },
            );
            i += 1;
        }
        assert(notices_in(body@)->0 =~= notice_views(notices@));
        Some(notices)
    }

    /// Whether an answer to the inputs query lists an input, which means
    /// that the receipt asked for was recorded before.
    pub fn check_receipt_processed(&self, body: &str) -> (processed: bool)
        ensures
            processed == (json_node(body@, "/data/inputs/edges"@) matches JsonNodeView::Array(n)
                && n > 0),
    {
        match json_node_at(body, "/data/inputs/edges") {
            JsonNode::Array(n) => n > 0,
            _ => false,
        }
    }
}

} // verus!
