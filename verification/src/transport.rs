//! The retry/backoff state machine of the transport core.
//!
//! One logical fetch is a sequence of HTTP attempts. Each attempt is reduced
//! to a plain value — a transport failure, or a response with status code,
//! headers of interest and body — and [`transport_step_text`] /
//! [`transport_step_bytes`] decide what it means: succeed, fail with a typed
//! error, or sleep and retry. The loop that performs the attempts (HTTP,
//! sleeping, awaiting) lives outside the library and only follows these
//! decisions; [`run_fetch_text`] and [`run_fetch_bytes`] run the same loop
//! over a pre-recorded sequence of attempts and carry the proofs that the
//! retry policy is what it says: transient failures and HTTP 429 are retried
//! at most [`MAX_RETRIES`] times, 404 and content mismatches never.

use vstd::prelude::*;
use vstd::string::StringExecFns;

use crate::error::EdgarError;
use crate::text::chars_contain;
use crate::text::chars_to_string;
use crate::text::contains_seq;
use crate::text::dec_seq;
use crate::text::ends_with_seq;
use crate::text::lower_chars;
use crate::text::lower_seq;
use crate::text::sniff_json;
use crate::text::sniffs_json;
use crate::text::str_chars;
use crate::text::str_ends_with;
use crate::text::take_chars;
use crate::text::u64_chars;

verus! {

/// Retries allowed per logical request: at most `MAX_RETRIES + 1` attempts.
pub const MAX_RETRIES: u32 = 5;

/// Un-jittered first backoff, in milliseconds.
pub const INITIAL_BACKOFF_MS: u64 = 1000;

// ---------------------------------------------------------------------------
// Backoff
// ---------------------------------------------------------------------------

/// Two to the `n`.
pub open spec fn pow2(n: nat) -> nat
    decreases n,
{
    if n == 0 {
        1
    } else {
        2 * pow2((n - 1) as nat)
    }
}

/// The un-jittered backoff for a retry index: the initial backoff doubled
/// each time.
pub open spec fn backoff_base_ms(retry: nat) -> int {
    INITIAL_BACKOFF_MS * pow2(retry) as int
}

/// The lower edge of the jitter band: 20% under the base.
pub open spec fn backoff_lo(retry: nat) -> int {
    800 * pow2(retry) as int
}

/// The upper edge of the jitter band: 20% over the base.
pub open spec fn backoff_hi(retry: nat) -> int {
    1200 * pow2(retry) as int
}

/// Relies on `fastrand::u64`: a draw from the inclusive range. Nothing more
/// can be promised of a random value.
#[verifier::external_body]
fn random_u64_in(lo: u64, hi: u64) -> (r: u64)
    requires
        lo <= hi,
    ensures
        lo <= r <= hi,
{
    fastrand::u64(lo..=hi)
}

proof fn lemma_pow2_pos(n: nat)
    ensures
        pow2(n) >= 1,
    decreases n,
{
    if n > 0 {
        lemma_pow2_pos((n - 1) as nat);
    }
}

proof fn lemma_pow2_grows(a: nat, b: nat)
    requires
        a < b,
    ensures
        2 * pow2(a) <= pow2(b),
    decreases b,
{
    if a + 1 == b {
        lemma_pow2_pos(a);
    } else {
        lemma_pow2_grows(a, (b - 1) as nat);
        lemma_pow2_pos((b - 1) as nat);
    }
}

/// Backoff monotonicity. For retry indices `r1 < r2` the whole jitter band of
/// `r1` lies strictly below the whole band of `r2`: every sample of
/// `calculate_backoff(r1)` is shorter than every sample of
/// `calculate_backoff(r2)`. The bands are `[800*2^r, 1200*2^r]`, and
/// `1200 * 2^r1 < 800 * 2^r2` because doubling outgrows the 1.5 ratio of the
/// edges.
pub proof fn lemma_backoff_monotone(r1: nat, r2: nat)
    requires
        r1 < r2,
    ensures
        backoff_hi(r1) < backoff_lo(r2),
{
    lemma_pow2_grows(r1, r2);
    lemma_pow2_pos(r1);
}

/// The wait before the next retry: the base `1000 * 2^retry` milliseconds,
/// jittered by a uniformly random offset of up to 20% either way.
pub fn calculate_backoff(retry: u32) -> (r: u64)
    requires
        retry <= MAX_RETRIES,
    ensures
        backoff_lo(retry as nat) <= r <= backoff_hi(retry as nat),
{
    let base: u64 = if retry == 0 {
        1000
    } else if retry == 1 {
        2000
    } else if retry == 2 {
        4000
    } else if retry == 3 {
        8000
    } else if retry == 4 {
        16000
    } else {
        32000
    };
    proof {
        reveal_with_fuel(pow2, 7);
        assert(base == backoff_base_ms(retry as nat));
    }
    let jitter = random_u64_in(0, 2 * base / 5);
    base - base / 5 + jitter
}

// ---------------------------------------------------------------------------
// Attempts and decisions
// ---------------------------------------------------------------------------

/// One returned HTTP response, reduced to what the text transport reads.
#[derive(Debug, Clone)]
pub struct TextResponse {
    /// HTTP status code.
    pub status: u16,
    /// The content-type header, if one came.
    pub content_type: Option<String>,
    /// The retry-after header parsed as whole seconds, if one came and parsed.
    pub retry_after_secs: Option<u64>,
    /// The response body.
    pub body: String,
}

/// The outcome of one HTTP attempt for a text fetch.
#[derive(Debug, Clone)]
pub enum TextAttempt {
    /// A transport-level failure (DNS, connect, timeout), with its text.
    Failed(String),
    /// A response came back.
    Returned(TextResponse),
}

/// What the caller must do next with a text fetch.
#[derive(Debug)]
pub enum StepAction {
    /// The logical request is over, with this outcome.
    Done(Result<String, EdgarError>),
    /// Sleep this many milliseconds, then make another attempt with the
    /// retry counter advanced.
    Sleep(u64),
}

/// The URL path ends in a literal `.json` suffix, which obliges the response
/// to be JSON.
pub open spec fn is_json_url(url: Seq<char>) -> bool {
    ends_with_seq(url, ".json"@)
}

/// An HTTP success status.
pub open spec fn is_success(status: u16) -> bool {
    200 <= status <= 299
}

/// The response declares `text/html` (ASCII case folded) in its content type.
pub open spec fn declares_html(r: TextResponse) -> bool {
    r.content_type matches Some(ct) && contains_seq(lower_seq(ct@), "text/html"@)
}

/// The body preview carried in diagnostics: the first 200 characters.
pub open spec fn preview_seq(s: Seq<char>) -> Seq<char> {
    if s.len() <= 200 {
        s
    } else {
        s.take(200)
    }
}

/// What one attempt of a text fetch means, given the retry count so far.
pub enum TextDecision {
    /// Success: return the body.
    Accept,
    /// A `.json` URL answered with an HTML body: never retried.
    Mismatch,
    /// HTTP 404: never retried.
    MissingResource,
    /// HTTP 429 with retries left: sleep and retry.
    RetryRateLimited,
    /// HTTP 429 at the retry cap: fail with `RateLimitExceeded`.
    RateLimitCap,
    /// A transport failure with retries left: sleep and retry.
    RetryFailed,
    /// A transport failure at the retry cap: fail with `RequestError`.
    FailRequest,
    /// Any other status: fail with `InvalidResponse`, never retried.
    OtherStatus,
}

/// The decision the transport core takes on one text-fetch attempt. This is
/// the whole retry policy: a success returns the body, except that a `.json`
/// URL whose response declares HTML is accepted only if the body itself
/// sniffs as JSON; 404 maps to `NotFound` at once; 429 and transport failures
/// are retried until the cap; everything else fails at once.
pub open spec fn spec_decide_text(url: Seq<char>, retries: u32, attempt: TextAttempt) -> TextDecision {
    match attempt {
        TextAttempt::Failed(_) => {
            if retries < MAX_RETRIES {
                TextDecision::RetryFailed
            } else {
                TextDecision::FailRequest
            }
        },
        TextAttempt::Returned(r) => {
            if is_json_url(url) && is_success(r.status) && declares_html(r) {
                if sniffs_json(r.body@) {
                    TextDecision::Accept
                } else {
                    TextDecision::Mismatch
                }
            } else if is_success(r.status) {
                TextDecision::Accept
            } else if r.status == 404 {
                TextDecision::MissingResource
            } else if r.status == 429 {
                if retries < MAX_RETRIES {
                    TextDecision::RetryRateLimited
                } else {
                    TextDecision::RateLimitCap
                }
            } else {
                TextDecision::OtherStatus
            }
        },
    }
}

/// The decision ends the logical request.
pub open spec fn text_decision_terminal(d: TextDecision) -> bool {
    !(d is RetryFailed || d is RetryRateLimited)
}

/// The attempt is one the policy retries while retries remain: a transport
/// failure or HTTP 429.
pub open spec fn text_attempt_retryable(a: TextAttempt) -> bool {
    match a {
        TextAttempt::Failed(_) => true,
        TextAttempt::Returned(r) => r.status == 429,
    }
}

/// A server-supplied retry-after of `s` seconds, in milliseconds, saturating.
pub open spec fn retry_after_ms(s: int) -> int {
    if 1000 * s <= u64::MAX {
        1000 * s
    } else {
        u64::MAX as int
    }
}

/// `res` is the correct terminal outcome of `attempt` for a text fetch of
/// `url` with `retries` retries already made.
pub open spec fn text_result_ok(
    url: Seq<char>,
    retries: u32,
    attempt: TextAttempt,
    res: Result<String, EdgarError>,
) -> bool {
    match spec_decide_text(url, retries, attempt) {
        TextDecision::Accept => res matches Ok(b) && attempt matches TextAttempt::Returned(r)
            && b@ == r.body@,
        TextDecision::Mismatch => res matches Err(e) && attempt matches TextAttempt::Returned(r)
            && e matches EdgarError::UnexpectedContentType {
            url: u,
            expected_pattern: ep,
            got_content_type: g,
            content_preview: p,
        } && u@ == url && ep@ == "application/json"@ && (r.content_type matches Some(ct) && g@
            == ct@) && p@ == preview_seq(r.body@),
        TextDecision::MissingResource => res == Result::<String, EdgarError>::Err(
            EdgarError::NotFound,
        ),
        TextDecision::RateLimitCap => res == Result::<String, EdgarError>::Err(
            EdgarError::RateLimitExceeded,
        ),
        TextDecision::FailRequest => res matches Err(e) && attempt matches TextAttempt::Failed(m)
            && e matches EdgarError::RequestError(t) && t@ == m@,
        TextDecision::OtherStatus => res matches Err(e) && attempt matches TextAttempt::Returned(r)
            && e matches EdgarError::InvalidResponse(t) && t@ == "Unexpected status code: "@
            + dec_seq(r.status as int) + " for URL: "@ + url + ". Response preview: "@
            + preview_seq(r.body@),
        _ => false,
    }
}

/// `ms` is an acceptable wait for a retry of `attempt` with `retries` retries
/// already made: the server-supplied retry-after when one came with a 429,
/// else a sample of the jittered backoff for this retry index.
pub open spec fn text_sleep_ok(retries: u32, attempt: TextAttempt, ms: u64) -> bool {
    match attempt {
        TextAttempt::Failed(_) => backoff_lo(retries as nat) <= ms <= backoff_hi(retries as nat),
        TextAttempt::Returned(r) => {
            match r.retry_after_secs {
                Some(s) => ms == retry_after_ms(s as int),
                None => backoff_lo(retries as nat) <= ms <= backoff_hi(retries as nat),
            }
        },
    }
}

/// Builds the diagnostic message for an unexpected status.
fn invalid_status_message(url: &str, status: u16, body: &String) -> (r: String)
    ensures
        r@ == "Unexpected status code: "@ + dec_seq(status as int) + " for URL: "@ + url@
            + ". Response preview: "@ + preview_seq(body@),
{
    let body_chars = str_chars(body.as_str());
    let prev = take_chars(body_chars.as_slice(), 200);
    proof {
        assert(prev@ == preview_seq(body@));
    }
    let mut m = String::from_str("Unexpected status code: ");
    let digits = u64_chars(status as u64);
    let dstring = chars_to_string(&digits);
    m.append(dstring.as_str());
    m.append(" for URL: ");
    m.append(url);
    m.append(". Response preview: ");
    let pstring = chars_to_string(&prev);
    m.append(pstring.as_str());
    m
}

/// Converts a retry-after of whole seconds to milliseconds, saturating.
fn retry_after_to_ms(s: u64) -> (r: u64)
    ensures
        r == retry_after_ms(s as int),
{
    if s <= 18446744073709551 {
        s * 1000
    } else {
        u64::MAX
    }
}

/// One step of the text-fetch state machine: classifies the outcome of one
/// attempt and decides whether the request is over or must sleep and retry.
/// Never retries past `MAX_RETRIES`; never retries 404 or a content-type
/// mismatch; honors a 429's retry-after header over the computed backoff.
pub fn transport_step_text(url: &str, retries: u32, attempt: &TextAttempt) -> (a: StepAction)
    requires
        retries <= MAX_RETRIES,
    ensures
        (a is Done <==> text_decision_terminal(spec_decide_text(url@, retries, *attempt))),
        a matches StepAction::Done(res) ==> text_result_ok(url@, retries, *attempt, res),
        a matches StepAction::Sleep(ms) ==> text_sleep_ok(retries, *attempt, ms) && retries
            < MAX_RETRIES && text_attempt_retryable(*attempt),
{
    match attempt {
        TextAttempt::Failed(msg) => {
            if retries >= MAX_RETRIES {
                StepAction::Done(Err(EdgarError::RequestError(msg.clone())))
            } else {
                StepAction::Sleep(calculate_backoff(retries))
            }
        },
        TextAttempt::Returned(r) => {
            let success = 200 <= r.status && r.status <= 299;
            if str_ends_with(url, ".json") && success {
                let mut declared_html = false;
                let mut got_ct = String::new();
                match &r.content_type {
                    Some(ct) => {
                        let low = lower_chars(ct.as_str());
                        if chars_contain(&low, "text/html") {
                            declared_html = true;
                            got_ct = ct.clone();
                        }
                    },
                    None => {},
                }
                if declared_html {
                    let body_chars = str_chars(r.body.as_str());
                    if sniff_json(body_chars.as_slice()) {
                        return StepAction::Done(Ok(r.body.clone()));
                    }
                    let prev = take_chars(body_chars.as_slice(), 200);
                    proof {
                        assert(prev@ == preview_seq(r.body@));
                    }
                    return StepAction::Done(
                        Err(
                            EdgarError::UnexpectedContentType {
                                url: String::from_str(url),
                                expected_pattern: String::from_str("application/json"),
                                got_content_type: got_ct,
                                content_preview: chars_to_string(&prev),
                            },
                        ),
                    );
                }
            }
            if success {
                StepAction::Done(Ok(r.body.clone()))
            } else if r.status == 404 {
                StepAction::Done(Err(EdgarError::NotFound))
            } else if r.status == 429 {
                if retries >= MAX_RETRIES {
                    StepAction::Done(Err(EdgarError::RateLimitExceeded))
                } else {
                    match r.retry_after_secs {
                        Some(s) => StepAction::Sleep(retry_after_to_ms(s)),
                        None => StepAction::Sleep(calculate_backoff(retries)),
                    }
                }
            } else {
                StepAction::Done(
                    Err(EdgarError::InvalidResponse(invalid_status_message(url, r.status, &r.body))),
                )
            }
        },
    }
}

// ---------------------------------------------------------------------------
// The bytes variant
// ---------------------------------------------------------------------------

/// One returned HTTP response for a binary fetch.
#[derive(Debug, Clone)]
pub struct BytesResponse {
    /// HTTP status code.
    pub status: u16,
    /// The retry-after header parsed as whole seconds, if one came and parsed.
    pub retry_after_secs: Option<u64>,
    /// The response body.
    pub body: Vec<u8>,
}

/// The outcome of one HTTP attempt for a binary fetch.
#[derive(Debug, Clone)]
pub enum BytesAttempt {
    /// A transport-level failure, with its text.
    Failed(String),
    /// A response came back.
    Returned(BytesResponse),
}

/// What the caller must do next with a binary fetch.
#[derive(Debug)]
pub enum BytesStepAction {
    /// The logical request is over, with this outcome.
    Done(Result<Vec<u8>, EdgarError>),
    /// Sleep this many milliseconds, then make another attempt.
    Sleep(u64),
}

/// The decision on one binary-fetch attempt: the same policy as the text
/// fetch, except that no content-type validation applies.
pub open spec fn spec_decide_bytes(retries: u32, attempt: BytesAttempt) -> TextDecision {
    match attempt {
        BytesAttempt::Failed(_) => {
            if retries < MAX_RETRIES {
                TextDecision::RetryFailed
            } else {
                TextDecision::FailRequest
            }
        },
        BytesAttempt::Returned(r) => {
            if is_success(r.status) {
                TextDecision::Accept
            } else if r.status == 404 {
                TextDecision::MissingResource
            } else if r.status == 429 {
                if retries < MAX_RETRIES {
                    TextDecision::RetryRateLimited
                } else {
                    TextDecision::RateLimitCap
                }
            } else {
                TextDecision::OtherStatus
            }
        },
    }
}

/// The attempt is one the policy retries while retries remain.
pub open spec fn bytes_attempt_retryable(a: BytesAttempt) -> bool {
    match a {
        BytesAttempt::Failed(_) => true,
        BytesAttempt::Returned(r) => r.status == 429,
    }
}

/// `res` is the correct terminal outcome of `attempt` for a binary fetch.
pub open spec fn bytes_result_ok(
    retries: u32,
    attempt: BytesAttempt,
    res: Result<Vec<u8>, EdgarError>,
) -> bool {
    match spec_decide_bytes(retries, attempt) {
        TextDecision::Accept => res matches Ok(b) && attempt matches BytesAttempt::Returned(r)
            && b@ == r.body@,
        TextDecision::MissingResource => res == Result::<Vec<u8>, EdgarError>::Err(
            EdgarError::NotFound,
        ),
        TextDecision::RateLimitCap => res == Result::<Vec<u8>, EdgarError>::Err(
            EdgarError::RateLimitExceeded,
        ),
        TextDecision::FailRequest => res matches Err(e) && attempt matches BytesAttempt::Failed(m)
            && e matches EdgarError::RequestError(t) && t@ == m@,
        TextDecision::OtherStatus => res matches Err(e) && attempt matches BytesAttempt::Returned(
            r,
        ) && e matches EdgarError::InvalidResponse(t) && t@ == "Unexpected status code: "@
            + dec_seq(r.status as int),
        _ => false,
    }
}

/// `ms` is an acceptable wait for a retry of a binary-fetch attempt.
pub open spec fn bytes_sleep_ok(retries: u32, attempt: BytesAttempt, ms: u64) -> bool {
    match attempt {
        BytesAttempt::Failed(_) => backoff_lo(retries as nat) <= ms <= backoff_hi(retries as nat),
        BytesAttempt::Returned(r) => {
            match r.retry_after_secs {
                Some(s) => ms == retry_after_ms(s as int),
                None => backoff_lo(retries as nat) <= ms <= backoff_hi(retries as nat),
            }
        },
    }
}

/// One step of the binary-fetch state machine.
pub fn transport_step_bytes(retries: u32, attempt: &BytesAttempt) -> (a: BytesStepAction)
    requires
        retries <= MAX_RETRIES,
    ensures
        (a is Done <==> text_decision_terminal(spec_decide_bytes(retries, *attempt))),
        a matches BytesStepAction::Done(res) ==> bytes_result_ok(retries, *attempt, res),
        a matches BytesStepAction::Sleep(ms) ==> bytes_sleep_ok(retries, *attempt, ms) && retries
            < MAX_RETRIES && bytes_attempt_retryable(*attempt),
{
    match attempt {
        BytesAttempt::Failed(msg) => {
            if retries >= MAX_RETRIES {
                BytesStepAction::Done(Err(EdgarError::RequestError(msg.clone())))
            } else {
                BytesStepAction::Sleep(calculate_backoff(retries))
            }
        },
        BytesAttempt::Returned(r) => {
            if 200 <= r.status && r.status <= 299 {
                BytesStepAction::Done(Ok(r.body.clone()))
            } else if r.status == 404 {
                BytesStepAction::Done(Err(EdgarError::NotFound))
            } else if r.status == 429 {
                if retries >= MAX_RETRIES {
                    BytesStepAction::Done(Err(EdgarError::RateLimitExceeded))
                } else {
                    match r.retry_after_secs {
                        Some(s) => BytesStepAction::Sleep(retry_after_to_ms(s)),
                        None => BytesStepAction::Sleep(calculate_backoff(retries)),
                    }
                }
            } else {
                let mut m = String::from_str("Unexpected status code: ");
                let digits = u64_chars(r.status as u64);
                let dstring = chars_to_string(&digits);
                m.append(dstring.as_str());
                BytesStepAction::Done(Err(EdgarError::InvalidResponse(m)))
            }
        },
    }
}

// ---------------------------------------------------------------------------
// The whole retry loop, over recorded attempts
// ---------------------------------------------------------------------------

/// The attempt is an HTTP 429 response.
pub open spec fn text_is_rate_limited(a: TextAttempt) -> bool {
    a matches TextAttempt::Returned(r) && r.status == 429
}

/// The attempt is an HTTP 404 response.
pub open spec fn text_is_not_found(a: TextAttempt) -> bool {
    a matches TextAttempt::Returned(r) && r.status == 404
}

/// The attempt is an HTTP 429 response.
pub open spec fn bytes_is_rate_limited(a: BytesAttempt) -> bool {
    a matches BytesAttempt::Returned(r) && r.status == 429
}

/// The attempt is an HTTP 404 response.
pub open spec fn bytes_is_not_found(a: BytesAttempt) -> bool {
    a matches BytesAttempt::Returned(r) && r.status == 404
}

/// What one whole logical text fetch did: its outcome, how many HTTP attempts
/// it made, and the waits it slept between them.
#[derive(Debug)]
pub struct TextFetchRun {
    /// The caller-visible outcome.
    pub result: Result<String, EdgarError>,
    /// HTTP attempts made, retries included.
    pub attempts: usize,
    /// The sleep taken before each retry, in order.
    pub sleeps: Vec<u64>,
}

/// Runs the whole retry loop of one logical text fetch over a pre-recorded
/// sequence of attempt outcomes, exactly as a live loop follows
/// [`transport_step_text`]. The contract carries the retry policy's laws:
/// at most `MAX_RETRIES + 1` attempts are made; a run of nothing but 429
/// responses fails with `RateLimitExceeded` after exactly `MAX_RETRIES + 1`
/// attempts, never more; a 404 on the first attempt returns `NotFound` after
/// exactly one attempt; every attempt before the last was retryable and was
/// paid for with a sleep inside the jitter band of its retry index, or with
/// the server-supplied retry-after.
pub fn run_fetch_text(url: &str, events: &Vec<TextAttempt>) -> (r: TextFetchRun)
    requires
        events@.len() > MAX_RETRIES,
    ensures
        1 <= r.attempts <= MAX_RETRIES + 1,
        r.sleeps@.len() == r.attempts - 1,
        forall|k: int|
            0 <= k < r.attempts - 1 ==> text_attempt_retryable(#[trigger] events@[k])
                && text_sleep_ok(k as u32, events@[k], r.sleeps@[k]),
        text_result_ok(url@, (r.attempts - 1) as u32, events@[r.attempts - 1], r.result),
        r.attempts <= MAX_RETRIES ==> text_decision_terminal(
            spec_decide_text(url@, (r.attempts - 1) as u32, events@[r.attempts - 1]),
        ),
        (forall|k: int| 0 <= k <= MAX_RETRIES ==> text_is_rate_limited(#[trigger] events@[k]))
            ==> r.attempts == MAX_RETRIES + 1 && r.result == Result::<String, EdgarError>::Err(
            EdgarError::RateLimitExceeded,
        ),
        text_is_not_found(events@[0]) ==> r.attempts == 1 && r.result == Result::<
            String,
            EdgarError,
        >::Err(EdgarError::NotFound),
{
    let mut retries: u32 = 0;
    let mut sleeps: Vec<u64> = Vec::new();
    loop
        invariant
            events@.len() > MAX_RETRIES,
            retries <= MAX_RETRIES,
            sleeps@.len() == retries,
            forall|k: int|
                0 <= k < retries ==> text_attempt_retryable(#[trigger] events@[k]) && text_sleep_ok(
                    k as u32,
                    events@[k],
                    sleeps@[k],
                ),
        decreases MAX_RETRIES - retries,
    {
        let a = transport_step_text(url, retries, &events[retries as usize]);
        match a {
            StepAction::Done(res) => {
                return TextFetchRun {
                    result: res,
                    attempts: (retries + 1) as usize,
                    sleeps,
                };
            },
            StepAction::Sleep(ms) => {
                sleeps.push(ms);
                retries = retries + 1;
            },
        }
    }
}

/// What one whole logical binary fetch did.
#[derive(Debug)]
pub struct BytesFetchRun {
    /// The caller-visible outcome.
    pub result: Result<Vec<u8>, EdgarError>,
    /// HTTP attempts made, retries included.
    pub attempts: usize,
    /// The sleep taken before each retry, in order.
    pub sleeps: Vec<u64>,
}

/// Runs the whole retry loop of one logical binary fetch over a pre-recorded
/// sequence of attempt outcomes; the same laws as [`run_fetch_text`], without
/// content-type validation.
pub fn run_fetch_bytes(events: &Vec<BytesAttempt>) -> (r: BytesFetchRun)
    requires
        events@.len() > MAX_RETRIES,
    ensures
        1 <= r.attempts <= MAX_RETRIES + 1,
        r.sleeps@.len() == r.attempts - 1,
        forall|k: int|
            0 <= k < r.attempts - 1 ==> bytes_attempt_retryable(#[trigger] events@[k])
                && bytes_sleep_ok(k as u32, events@[k], r.sleeps@[k]),
        bytes_result_ok((r.attempts - 1) as u32, events@[r.attempts - 1], r.result),
        r.attempts <= MAX_RETRIES ==> text_decision_terminal(
            spec_decide_bytes((r.attempts - 1) as u32, events@[r.attempts - 1]),
        ),
        (forall|k: int| 0 <= k <= MAX_RETRIES ==> bytes_is_rate_limited(#[trigger] events@[k]))
            ==> r.attempts == MAX_RETRIES + 1 && r.result == Result::<Vec<u8>, EdgarError>::Err(
            EdgarError::RateLimitExceeded,
        ),
        bytes_is_not_found(events@[0]) ==> r.attempts == 1 && r.result == Result::<
            Vec<u8>,
            EdgarError,
        >::Err(EdgarError::NotFound),
{
    let mut retries: u32 = 0;
    let mut sleeps: Vec<u64> = Vec::new();
    loop
        invariant
            events@.len() > MAX_RETRIES,
            retries <= MAX_RETRIES,
            sleeps@.len() == retries,
            forall|k: int|
                0 <= k < retries ==> bytes_attempt_retryable(#[trigger] events@[k])
                    && bytes_sleep_ok(k as u32, events@[k], sleeps@[k]),
        decreases MAX_RETRIES - retries,
    {
        let a = transport_step_bytes(retries, &events[retries as usize]);
        match a {
            BytesStepAction::Done(res) => {
                return BytesFetchRun {
                    result: res,
                    attempts: (retries + 1) as usize,
                    sleeps,
                };
            },
            BytesStepAction::Sleep(ms) => {
                sleeps.push(ms);
                retries = retries + 1;
            },
        }
    }
}

} // verus!
