//! Windows, bounds, and the route of background reconciliation.

use crate::clock::{Duration, NANOS_PER_SECOND, UtcTime};
use crate::error::{AiError, ErrorModel, accepted_or, invalid_configuration, outcome, refusal};
use crate::text::{
    bounded_text, clone_text_option, control_free, is_bounded_text, is_control_free, text_option,
};
use vstd::arithmetic::power2::{lemma_pow2_strictly_increases, lemma_pow2_unfold, pow2};
use vstd::prelude::*;

verus! {

/// Longest window for responses the provider does not store: ten minutes.
pub const MAXIMUM_TEMPORARY_RESPONSE_WINDOW: i128 = 600_000_000_000;

/// Longest window for responses the provider stores: thirty days.
pub const MAXIMUM_STORED_RESPONSE_WINDOW: i128 = 2_592_000_000_000_000;

/// Longest reconciliation lease: five minutes.
pub const MAXIMUM_RECONCILIATION_LEASE_TTL: i128 = 300_000_000_000;

/// Longest delay between two reconciliation attempts: one hour.
pub const MAXIMUM_RECONCILIATION_RETRY_DELAY: i128 = 3_600_000_000_000;

/// Largest response body: 64 MiB.
pub const MAXIMUM_BACKGROUND_RETRIEVAL_BYTES: usize = 67_108_864;

/// Most output or content items of one response.
pub const MAXIMUM_BACKGROUND_RETRIEVAL_ITEMS: usize = 4_096;

/// Longest retrieval request: five minutes.
pub const MAXIMUM_BACKGROUND_RETRIEVAL_TIMEOUT: i128 = 300_000_000_000;

/// Oldest principal resolution that background work accepts: one hour.
pub const MAXIMUM_BACKGROUND_PRINCIPAL_AGE: i128 = 3_600_000_000_000;

/// Part of a claim's remaining lifetime that a request leaves unused: one
/// millisecond.
pub const RETRIEVAL_SAFETY_MARGIN: i128 = 1_000_000;

/// Deployment-reviewed response-availability windows used to capture a fixed
/// terminal-reconciliation deadline.
///
/// These windows are deliberately shorter than or equal to the provider's
/// documented application-state periods. They are availability limits, not
/// authorization to retain or disclose provider output. The exact
/// `provider_response` egress and retention proof remains mandatory.
#[derive(Clone, Copy, Debug, PartialEq, Eq, Structural)]
pub struct AiOpenAiBackgroundReconciliationWindows {
    temporary_response: Duration,
    stored_response: Duration,
}

impl AiOpenAiBackgroundReconciliationWindows {
    /// The window that applies, by whether the provider stores the response.
    pub closed spec fn window(self, stored: bool) -> Duration {
        if stored {
            self.stored_response
        } else {
            self.temporary_response
        }
    }

    /// Windows inside the accepted ranges.
    pub open spec fn wf(self) -> bool {
        &&& NANOS_PER_SECOND <= self.window(false).nanos <= MAXIMUM_TEMPORARY_RESPONSE_WINDOW
        &&& NANOS_PER_SECOND <= self.window(true).nanos <= MAXIMUM_STORED_RESPONSE_WINDOW
    }

    /// Creates fixed response-availability windows for new submissions.
    ///
    /// The temporary window applies when the acknowledgement reports
    /// `store: false`; the stored window applies to `store: true`.
    ///
    /// # Errors
    ///
    /// Returns [`AiError::InvalidConfiguration`] unless both windows are at
    /// least one second and do not exceed the compiled ten-minute temporary
    /// and thirty-day stored-response ceilings.
    pub fn new(temporary_response: Duration, stored_response: Duration) -> (result: Result<
        Self,
        AiError,
    >)
        ensures
            match result {
                Ok(windows) => windows.wf() && windows.window(false) == temporary_response
                    && windows.window(true) == stored_response,
                Err(error) => error@ == ErrorModel::InvalidConfiguration(
                    "invalid OpenAI background reconciliation windows"@,
                ),
            },
            result is Ok <==> NANOS_PER_SECOND <= temporary_response.nanos
                <= MAXIMUM_TEMPORARY_RESPONSE_WINDOW && NANOS_PER_SECOND <= stored_response.nanos
                <= MAXIMUM_STORED_RESPONSE_WINDOW,
    {
        if temporary_response.nanos < NANOS_PER_SECOND || temporary_response.nanos
            > MAXIMUM_TEMPORARY_RESPONSE_WINDOW || stored_response.nanos < NANOS_PER_SECOND
            || stored_response.nanos > MAXIMUM_STORED_RESPONSE_WINDOW {
            return Err(invalid_configuration("invalid OpenAI background reconciliation windows"));
        }
        Ok(AiOpenAiBackgroundReconciliationWindows { temporary_response, stored_response })
    }

    /// The window that applies, by whether the provider stores the response.
    pub fn for_storage(self, stored: bool) -> (window: Duration)
        ensures
            window == self.window(stored),
    {
        if stored {
            self.stored_response
        } else {
            self.temporary_response
        }
    }
}

impl Default for AiOpenAiBackgroundReconciliationWindows {
    /// Five minutes for temporary and 29 days for stored responses.
    fn default() -> (windows: Self)
        ensures
            windows.wf(),
            windows.window(false).nanos == 300 * NANOS_PER_SECOND,
            windows.window(true).nanos == 29 * 86_400 * NANOS_PER_SECOND,
    {
        AiOpenAiBackgroundReconciliationWindows {
            temporary_response: Duration::seconds(300),
            stored_response: Duration::seconds(2_505_600),
        }
    }
}

/// Deployment-owned bounds for durable background reconciliation claims.
///
/// These limits bound database scans, lease lifetimes, nonterminal retry
/// scheduling, and serialization retries. They do not authorize provider
/// retrieval or extend a submission's immutable response-availability
/// deadline.
#[derive(Clone, Copy, Debug, PartialEq, Eq, Structural)]
pub struct AiOpenAiBackgroundReconciliationLimits {
    lease_ttl: Duration,
    maximum_retry_delay: Duration,
    maximum_candidate_scan: usize,
    maximum_retries: u32,
    maximum_transaction_retries: usize,
}

/// Values of [`AiOpenAiBackgroundReconciliationLimits`].
pub struct ReconciliationBounds {
    pub lease_ttl: Duration,
    pub retry_delay: Duration,
    pub candidate_scan: nat,
    pub retries: nat,
    pub transaction_retries: nat,
}

impl View for AiOpenAiBackgroundReconciliationLimits {
    type V = ReconciliationBounds;

    closed spec fn view(&self) -> ReconciliationBounds {
        ReconciliationBounds {
            lease_ttl: self.lease_ttl,
            retry_delay: self.maximum_retry_delay,
            candidate_scan: self.maximum_candidate_scan as nat,
            retries: self.maximum_retries as nat,
            transaction_retries: self.maximum_transaction_retries as nat,
        }
    }
}

/// Bounds inside the accepted ranges.
pub open spec fn reconciliation_bounds_accepted(bounds: ReconciliationBounds) -> bool {
    &&& NANOS_PER_SECOND <= bounds.lease_ttl.nanos <= MAXIMUM_RECONCILIATION_LEASE_TTL
    &&& NANOS_PER_SECOND <= bounds.retry_delay.nanos <= MAXIMUM_RECONCILIATION_RETRY_DELAY
    &&& 1 <= bounds.candidate_scan <= 256
    &&& bounds.retries <= 100
    &&& bounds.transaction_retries <= 16
}

impl AiOpenAiBackgroundReconciliationLimits {
    /// Limits inside the accepted ranges.
    pub open spec fn wf(self) -> bool {
        reconciliation_bounds_accepted(self@)
    }

    /// Creates validated background reconciliation worker limits.
    ///
    /// # Errors
    ///
    /// Returns [`AiError::InvalidConfiguration`] unless the lease and retry
    /// delay are at least one second and no greater than five minutes and one
    /// hour respectively, the candidate scan is within `1..=256`, the retry
    /// ceiling is at most 100, and transaction retries are at most 16.
    pub fn new(
        lease_ttl: Duration,
        maximum_retry_delay: Duration,
        maximum_candidate_scan: usize,
        maximum_retries: u32,
        maximum_transaction_retries: usize,
    ) -> (result: Result<Self, AiError>)
        ensures
            ({
                let bounds = ReconciliationBounds {
                    lease_ttl,
                    retry_delay: maximum_retry_delay,
                    candidate_scan: maximum_candidate_scan as nat,
                    retries: maximum_retries as nat,
                    transaction_retries: maximum_transaction_retries as nat,
                };
                match result {
                    Ok(limits) => reconciliation_bounds_accepted(bounds) && limits@ == bounds
                        && limits.wf(),
                    Err(error) => !reconciliation_bounds_accepted(bounds) && error@
                        == ErrorModel::InvalidConfiguration(
                        "invalid OpenAI background reconciliation limits"@,
                    ),
                }
            }),
    {
        if lease_ttl.nanos < NANOS_PER_SECOND || lease_ttl.nanos > MAXIMUM_RECONCILIATION_LEASE_TTL
            || maximum_retry_delay.nanos < NANOS_PER_SECOND || maximum_retry_delay.nanos
            > MAXIMUM_RECONCILIATION_RETRY_DELAY || maximum_candidate_scan < 1
            || maximum_candidate_scan > 256 || maximum_retries > 100 || maximum_transaction_retries
            > 16 {
            return Err(invalid_configuration("invalid OpenAI background reconciliation limits"));
        }
        Ok(
            AiOpenAiBackgroundReconciliationLimits {
                lease_ttl,
                maximum_retry_delay,
                maximum_candidate_scan,
                maximum_retries,
                maximum_transaction_retries,
            },
        )
    }

    /// Returns the lifetime of each newly issued or renewed claim.
    pub fn lease_ttl(&self) -> (ttl: Duration)
        ensures
            ttl == self@.lease_ttl,
    {
        self.lease_ttl
    }

    /// Returns the maximum rows considered by one claim pass.
    pub fn maximum_candidate_scan(&self) -> (scan: usize)
        ensures
            scan == self@.candidate_scan,
    {
        self.maximum_candidate_scan
    }

    /// Longest accepted delay before a released claim may be taken again.
    pub fn maximum_retry_delay(&self) -> (delay: Duration)
        ensures
            delay == self@.retry_delay,
    {
        self.maximum_retry_delay
    }

    /// Most releases of one submission.
    pub fn maximum_retries(&self) -> (retries: u32)
        ensures
            retries == self@.retries,
    {
        self.maximum_retries
    }

    /// Most repetitions of one transaction.
    pub fn maximum_transaction_retries(&self) -> (retries: usize)
        ensures
            retries == self@.transaction_retries,
    {
        self.maximum_transaction_retries
    }
}

impl Default for AiOpenAiBackgroundReconciliationLimits {
    /// One-minute leases, five-minute delays, 64 candidates, 16 retries, and 8
    /// transaction retries.
    fn default() -> (limits: Self)
        ensures
            limits.wf(),
            limits@.lease_ttl.nanos == 60 * NANOS_PER_SECOND,
            limits@.retry_delay.nanos == 300 * NANOS_PER_SECOND,
            limits@.candidate_scan == 64,
            limits@.retries == 16,
            limits@.transaction_retries == 8,
    {
        AiOpenAiBackgroundReconciliationLimits {
            lease_ttl: Duration::seconds(60),
            maximum_retry_delay: Duration::seconds(300),
            maximum_candidate_scan: 64,
            maximum_retries: 16,
            maximum_transaction_retries: 8,
        }
    }
}

/// Fixed logical route used for current background-response retrieval.
///
/// The route contains no URL or credential. A retrieval claim must match both
/// the logical profile and the original audited destination before a current
/// egress decision can be bound. The profile and the consent reference are not
/// part of [`AiOpenAiBackgroundRetrievalRoute::redacted`].
#[derive(PartialEq, Eq)]
pub struct AiOpenAiBackgroundRetrievalRoute {
    provider_profile_id: String,
    destination: String,
    residency: Option<String>,
    policy_version: String,
    consent_reference: Option<String>,
}

/// Values of [`AiOpenAiBackgroundRetrievalRoute`].
pub struct RouteModel {
    pub provider_profile_id: Seq<char>,
    pub destination: Seq<char>,
    pub residency: Option<Seq<char>>,
    pub policy_version: Seq<char>,
    pub consent_reference: Option<Seq<char>>,
}

impl View for AiOpenAiBackgroundRetrievalRoute {
    type V = RouteModel;

    closed spec fn view(&self) -> RouteModel {
        RouteModel {
            provider_profile_id: self.provider_profile_id@,
            destination: self.destination@,
            residency: text_option(self.residency),
            policy_version: self.policy_version@,
            consent_reference: text_option(self.consent_reference),
        }
    }
}

/// Route values: non-blank, bounded, and without control code points.
pub open spec fn route_text(value: Seq<char>, maximum: nat) -> bool {
    bounded_text(value, maximum) && control_free(value)
}

/// Whether the text is an acceptable route value.
fn is_route_text(value: &str, maximum: usize) -> (result: bool)
    ensures
        result == route_text(value@, maximum as nat),
{
    is_bounded_text(value, maximum) && is_control_free(value)
}

/// Routes whose every value is acceptable.
pub open spec fn route_valid(route: RouteModel) -> bool {
    &&& route_text(route.provider_profile_id, 200)
    &&& route_text(route.destination, 1_024)
    &&& route_text(route.policy_version, 256)
    &&& route.residency matches Some(value) ==> route_text(value, 256)
    &&& route.consent_reference matches Some(value) ==> route_text(value, 1_024)
}

/// What may be shown of a route.
#[derive(Debug, PartialEq, Eq)]
pub struct RedactedRetrievalRoute {
    pub destination: String,
    pub residency: Option<String>,
    pub policy_version: String,
}

/// What an accepted or refused route looks like.
pub open spec fn route_result(
    result: Result<AiOpenAiBackgroundRetrievalRoute, AiError>,
    route: RouteModel,
) -> bool {
    match result {
        Ok(accepted) => route_valid(route) && accepted@ == route,
        Err(error) => !route_valid(route) && error@ == ErrorModel::InvalidConfiguration(
            "invalid OpenAI background retrieval route"@,
        ),
    }
}

impl AiOpenAiBackgroundRetrievalRoute {
    /// Routes whose every value is acceptable.
    pub open spec fn wf(self) -> bool {
        route_valid(self@)
    }

    /// Creates a fixed logical retrieval route.
    ///
    /// # Errors
    ///
    /// Returns [`AiError::InvalidConfiguration`] for empty, oversized, or
    /// control-character profile, destination, or policy values.
    pub fn new(provider_profile_id: String, destination: String, policy_version: String) -> (result:
        Result<Self, AiError>)
        ensures
            route_result(
                result,
                RouteModel {
                    provider_profile_id: provider_profile_id@,
                    destination: destination@,
                    residency: None,
                    policy_version: policy_version@,
                    consent_reference: None,
                },
            ),
    {
        let route = AiOpenAiBackgroundRetrievalRoute {
            provider_profile_id,
            destination,
            residency: None,
            policy_version,
            consent_reference: None,
        };
        match route.validate() {
            Ok(()) => Ok(route),
            Err(error) => Err(error),
        }
    }

    /// Adds a reviewed processing residency/region class.
    ///
    /// # Errors
    ///
    /// Returns [`AiError::InvalidConfiguration`] for an empty, oversized, or
    /// control-character value.
    pub fn with_residency(self, residency: String) -> (result: Result<Self, AiError>)
        ensures
            route_result(result, RouteModel { residency: Some(residency@), ..self@ }),
    {
        let route = AiOpenAiBackgroundRetrievalRoute { residency: Some(residency), ..self };
        match route.validate() {
            Ok(()) => Ok(route),
            Err(error) => Err(error),
        }
    }

    /// Adds a current purpose-bound consent/grant reference.
    ///
    /// # Errors
    ///
    /// Returns [`AiError::InvalidConfiguration`] for an empty, oversized, or
    /// control-character value.
    pub fn with_consent_reference(self, consent_reference: String) -> (result: Result<
        Self,
        AiError,
    >)
        ensures
            route_result(
                result,
                RouteModel { consent_reference: Some(consent_reference@), ..self@ },
            ),
    {
        let route = AiOpenAiBackgroundRetrievalRoute {
            consent_reference: Some(consent_reference),
            ..self
        };
        match route.validate() {
            Ok(()) => Ok(route),
            Err(error) => Err(error),
        }
    }

    fn validate(&self) -> (result: Result<(), AiError>)
        ensures
            outcome(result) == accepted_or(
                route_valid(self@),
                ErrorModel::InvalidConfiguration("invalid OpenAI background retrieval route"@),
            ),
    {
        let residency_valid: bool = match &self.residency {
            Some(value) => is_route_text(value.as_str(), 256),
            None => true,
        };
        let consent_valid: bool = match &self.consent_reference {
            Some(value) => is_route_text(value.as_str(), 1_024),
            None => true,
        };
        if is_route_text(self.provider_profile_id.as_str(), 200) && is_route_text(
            self.destination.as_str(),
            1_024,
        ) && is_route_text(self.policy_version.as_str(), 256) && residency_valid && consent_valid {
            Ok(())
        } else {
            Err(invalid_configuration("invalid OpenAI background retrieval route"))
        }
    }

    /// Logical provider profile of the route.
    pub(crate) fn provider_profile_id(&self) -> (value: &String)
        ensures
            value@ == self@.provider_profile_id,
    {
        &self.provider_profile_id
    }

    /// Audited destination of the route.
    pub(crate) fn destination(&self) -> (value: &String)
        ensures
            value@ == self@.destination,
    {
        &self.destination
    }

    /// Processing residency of the route.
    pub(crate) fn residency(&self) -> (value: &Option<String>)
        ensures
            text_option(*value) == self@.residency,
    {
        &self.residency
    }

    /// Egress policy version of the route.
    pub(crate) fn policy_version(&self) -> (value: &String)
        ensures
            value@ == self@.policy_version,
    {
        &self.policy_version
    }

    /// Consent reference of the route.
    pub(crate) fn consent_reference(&self) -> (value: &Option<String>)
        ensures
            text_option(*value) == self@.consent_reference,
    {
        &self.consent_reference
    }

    /// What may be shown of the route.
    pub fn redacted(&self) -> (view: RedactedRetrievalRoute)
        ensures
            view.destination@ == self@.destination,
            text_option(view.residency) == self@.residency,
            view.policy_version@ == self@.policy_version,
    {
        RedactedRetrievalRoute {
            destination: self.destination.clone(),
            residency: clone_text_option(&self.residency),
            policy_version: self.policy_version.clone(),
        }
    }
}

/// Deployment-owned bounds for one exact background response GET.
#[derive(Clone, Copy, Debug, PartialEq, Eq, Structural)]
pub struct AiOpenAiBackgroundRetrievalLimits {
    maximum_response_bytes: usize,
    maximum_visible_bytes: usize,
    maximum_output_items: usize,
    maximum_content_items: usize,
    maximum_request_timeout: Duration,
    maximum_principal_age: Duration,
}

/// Values of [`AiOpenAiBackgroundRetrievalLimits`].
pub struct RetrievalBounds {
    pub response_bytes: nat,
    pub visible_bytes: nat,
    pub output_items: nat,
    pub content_items: nat,
    pub request_timeout: Duration,
    pub principal_age: Duration,
}

impl View for AiOpenAiBackgroundRetrievalLimits {
    type V = RetrievalBounds;

    closed spec fn view(&self) -> RetrievalBounds {
        RetrievalBounds {
            response_bytes: self.maximum_response_bytes as nat,
            visible_bytes: self.maximum_visible_bytes as nat,
            output_items: self.maximum_output_items as nat,
            content_items: self.maximum_content_items as nat,
            request_timeout: self.maximum_request_timeout,
            principal_age: self.maximum_principal_age,
        }
    }
}

/// Retrieval bounds inside the accepted ranges.
pub open spec fn retrieval_bounds_accepted(bounds: RetrievalBounds) -> bool {
    &&& 0 < bounds.response_bytes <= MAXIMUM_BACKGROUND_RETRIEVAL_BYTES
    &&& 0 < bounds.visible_bytes <= bounds.response_bytes
    &&& 1 <= bounds.output_items <= MAXIMUM_BACKGROUND_RETRIEVAL_ITEMS
    &&& 1 <= bounds.content_items <= MAXIMUM_BACKGROUND_RETRIEVAL_ITEMS
    &&& 0 < bounds.request_timeout.nanos <= MAXIMUM_BACKGROUND_RETRIEVAL_TIMEOUT
    &&& 0 < bounds.principal_age.nanos <= MAXIMUM_BACKGROUND_PRINCIPAL_AGE
}

impl AiOpenAiBackgroundRetrievalLimits {
    /// Limits inside the accepted ranges.
    pub open spec fn wf(self) -> bool {
        retrieval_bounds_accepted(self@)
    }

    /// Creates fixed response, normalization, transport, and authority bounds.
    ///
    /// # Errors
    ///
    /// Returns [`AiError::InvalidConfiguration`] unless byte bounds are
    /// positive and at most 64 MiB, visible bytes do not exceed the full body,
    /// item counts are within `1..=4096`, request timeout is at most five
    /// minutes, and principal age is at most one hour.
    pub fn new(
        maximum_response_bytes: usize,
        maximum_visible_bytes: usize,
        maximum_output_items: usize,
        maximum_content_items: usize,
        maximum_request_timeout: Duration,
        maximum_principal_age: Duration,
    ) -> (result: Result<Self, AiError>)
        ensures
            ({
                let bounds = RetrievalBounds {
                    response_bytes: maximum_response_bytes as nat,
                    visible_bytes: maximum_visible_bytes as nat,
                    output_items: maximum_output_items as nat,
                    content_items: maximum_content_items as nat,
                    request_timeout: maximum_request_timeout,
                    principal_age: maximum_principal_age,
                };
                match result {
                    Ok(limits) => retrieval_bounds_accepted(bounds) && limits@ == bounds
                        && limits.wf(),
                    Err(error) => !retrieval_bounds_accepted(bounds) && error@
                        == ErrorModel::InvalidConfiguration(
                        "invalid OpenAI background retrieval limits"@,
                    ),
                }
            }),
    {
        if maximum_response_bytes == 0 || maximum_response_bytes
            > MAXIMUM_BACKGROUND_RETRIEVAL_BYTES || maximum_visible_bytes == 0
            || maximum_visible_bytes > maximum_response_bytes || maximum_output_items < 1
            || maximum_output_items > MAXIMUM_BACKGROUND_RETRIEVAL_ITEMS || maximum_content_items
            < 1 || maximum_content_items > MAXIMUM_BACKGROUND_RETRIEVAL_ITEMS
            || maximum_request_timeout.nanos <= 0 || maximum_request_timeout.nanos
            > MAXIMUM_BACKGROUND_RETRIEVAL_TIMEOUT || maximum_principal_age.nanos <= 0
            || maximum_principal_age.nanos > MAXIMUM_BACKGROUND_PRINCIPAL_AGE {
            return Err(invalid_configuration("invalid OpenAI background retrieval limits"));
        }
        Ok(
            AiOpenAiBackgroundRetrievalLimits {
                maximum_response_bytes,
                maximum_visible_bytes,
                maximum_output_items,
                maximum_content_items,
                maximum_request_timeout,
                maximum_principal_age,
            },
        )
    }

    /// Longest retrieval request.
    pub fn maximum_request_timeout(&self) -> (timeout: Duration)
        ensures
            timeout == self@.request_timeout,
    {
        self.maximum_request_timeout
    }

    /// Oldest accepted principal resolution.
    pub fn maximum_principal_age(&self) -> (age: Duration)
        ensures
            age == self@.principal_age,
    {
        self.maximum_principal_age
    }

    /// Byte and item bounds of the response: body, visible bytes, output
    /// items, and content items.
    pub fn response_bounds(&self) -> (bounds: (usize, usize, usize, usize))
        ensures
            bounds.0 == self@.response_bytes,
            bounds.1 == self@.visible_bytes,
            bounds.2 == self@.output_items,
            bounds.3 == self@.content_items,
    {
        (
            self.maximum_response_bytes,
            self.maximum_visible_bytes,
            self.maximum_output_items,
            self.maximum_content_items,
        )
    }
}

impl Default for AiOpenAiBackgroundRetrievalLimits {
    /// The compiled byte and item ceilings, thirty-second requests, and
    /// five-minute principals.
    fn default() -> (limits: Self)
        ensures
            limits.wf(),
            limits@.response_bytes == MAXIMUM_BACKGROUND_RETRIEVAL_BYTES,
            limits@.visible_bytes == MAXIMUM_BACKGROUND_RETRIEVAL_BYTES,
            limits@.output_items == MAXIMUM_BACKGROUND_RETRIEVAL_ITEMS,
            limits@.content_items == MAXIMUM_BACKGROUND_RETRIEVAL_ITEMS,
            limits@.request_timeout.nanos == 30 * NANOS_PER_SECOND,
            limits@.principal_age.nanos == 300 * NANOS_PER_SECOND,
    {
        AiOpenAiBackgroundRetrievalLimits {
            maximum_response_bytes: MAXIMUM_BACKGROUND_RETRIEVAL_BYTES,
            maximum_visible_bytes: MAXIMUM_BACKGROUND_RETRIEVAL_BYTES,
            maximum_output_items: MAXIMUM_BACKGROUND_RETRIEVAL_ITEMS,
            maximum_content_items: MAXIMUM_BACKGROUND_RETRIEVAL_ITEMS,
            maximum_request_timeout: Duration::seconds(30),
            maximum_principal_age: Duration::seconds(300),
        }
    }
}

/// Accepts the principal age of a terminal service: positive and at most one
/// hour.
pub fn validate_terminal_principal_age(maximum_principal_age: Duration) -> (result: Result<
    (),
    AiError,
>)
    ensures
        outcome(result) == accepted_or(
            0 < maximum_principal_age.nanos <= MAXIMUM_BACKGROUND_PRINCIPAL_AGE,
            ErrorModel::InvalidConfiguration("invalid OpenAI background terminal principal age"@),
        ),
{
    if maximum_principal_age.nanos <= 0 || maximum_principal_age.nanos
        > MAXIMUM_BACKGROUND_PRINCIPAL_AGE {
        Err(invalid_configuration("invalid OpenAI background terminal principal age"))
    } else {
        Ok(())
    }
}

/// Nanoseconds that a retrieval request may take: everything that remains of
/// the claim but the safety margin, and no more than configured.
pub open spec fn request_nanos(now: UtcTime, claim_expiry: UtcTime, maximum: Duration) -> int {
    let available = claim_expiry.nanos - now.nanos - RETRIEVAL_SAFETY_MARGIN;
    if maximum.nanos < available {
        maximum.nanos as int
    } else {
        available
    }
}

/// The timeout of a retrieval request: strictly shorter than what remains of
/// the claim.
pub fn retrieval_timeout(
    now: UtcTime,
    claim_expiry: UtcTime,
    configured_maximum: Duration,
) -> (result: Result<Duration, AiError>)
    requires
        now.wf(),
        claim_expiry.wf(),
    ensures
        refusal(result) == if request_nanos(now, claim_expiry, configured_maximum) > 0 {
            None
        } else {
            Some(ErrorModel::Conflict)
        },
        result matches Ok(timeout) ==> timeout.nanos == request_nanos(
            now,
            claim_expiry,
            configured_maximum,
        ) && now.nanos + timeout.nanos < claim_expiry.nanos && timeout.nanos
            <= configured_maximum.nanos,
{
    let remaining: i128 = claim_expiry.nanos - now.nanos;
    if remaining <= RETRIEVAL_SAFETY_MARGIN {
        return Err(AiError::Conflict);
    }
    let available: i128 = remaining - RETRIEVAL_SAFETY_MARGIN;
    let timeout: i128 = if configured_maximum.nanos < available {
        configured_maximum.nanos
    } else {
        available
    };
    if timeout <= 0 {
        return Err(AiError::Conflict);
    }
    Ok(Duration { nanos: timeout })
}

/// Delay before the next attempt: one second doubled with every release, up to
/// thirty times, and never more than the maximum's whole seconds.
pub open spec fn retry_delay_seconds(retry_count: u32, maximum: Duration) -> int {
    let doubled = pow2(
        if retry_count < 30 {
            retry_count as nat
        } else {
            30
        },
    ) as int;
    let ceiling = Duration::seconds_of(maximum.nanos as int);
    if doubled < ceiling {
        doubled
    } else {
        ceiling
    }
}

/// Deterministic bounded backoff.
pub fn background_retry_delay(retry_count: u32, maximum_retry_delay: Duration) -> (result: Result<
    Duration,
    AiError,
>)
    requires
        maximum_retry_delay.wf(),
    ensures
        refusal(result) == if retry_delay_seconds(retry_count, maximum_retry_delay) > 0 {
            None
        } else {
            Some(ErrorModel::InvalidConfiguration("invalid background retry delay"@))
        },
        result matches Ok(delay) ==> delay.nanos == retry_delay_seconds(
            retry_count,
            maximum_retry_delay,
        ) * NANOS_PER_SECOND && delay.wf(),
{
    let shift: u32 = if retry_count < 30 {
        retry_count
    } else {
        30
    };
    let mut seconds: i64 = 1;
    let mut i: u32 = 0;
    proof {
        vstd::arithmetic::power2::lemma2_to64();
        assert(pow2(30) == 0x4000_0000);
    }
    while i < shift
        invariant
            i <= shift <= 30,
            seconds == pow2(i as nat),
            pow2(30) == 0x4000_0000,
        decreases shift - i,
    {
        proof {
            lemma_pow2_unfold((i + 1) as nat);
            if i + 1 < 30 {
                lemma_pow2_strictly_increases((i + 1) as nat, 30);
            }
        }
        seconds = seconds * 2;
        i += 1;
    }
    let ceiling: i64 = maximum_retry_delay.whole_seconds();
    let seconds: i64 = if seconds < ceiling {
        seconds
    } else {
        ceiling
    };
    if seconds <= 0 {
        return Err(invalid_configuration("invalid background retry delay"));
    }
    Ok(Duration::seconds(seconds))
}

/// Backoff never shrinks with further releases, and stays between one second
/// and the configured maximum.
pub proof fn retry_delay_grows_within_bounds(earlier: u32, later: u32, maximum: Duration)
    requires
        earlier <= later,
        maximum.nanos >= NANOS_PER_SECOND,
    ensures
        1 <= retry_delay_seconds(earlier, maximum) <= retry_delay_seconds(later, maximum),
        retry_delay_seconds(later, maximum) * NANOS_PER_SECOND <= maximum.nanos,
{
    let a = if earlier < 30 {
        earlier as nat
    } else {
        30
    };
    let b = if later < 30 {
        later as nat
    } else {
        30
    };
    vstd::arithmetic::power2::lemma_pow2_pos(a);
    if a < b {
        lemma_pow2_strictly_increases(a, b);
    }
}

/// Time between two lease renewals while the provider is called: a third of
/// the lease, and at least a nanosecond.
pub fn heartbeat_delay(lease_ttl: Duration) -> (delay: Duration)
    requires
        lease_ttl.wf(),
    ensures
        delay.nanos > 0,
        delay.nanos == ({
            let length = if lease_ttl.nanos < 0 {
                -lease_ttl.nanos
            } else {
                lease_ttl.nanos as int
            };
            if length / 3 < 1 {
                1
            } else {
                length / 3
            }
        }),
{
    let length: i128 = if lease_ttl.nanos < 0 {
        -lease_ttl.nanos
    } else {
        lease_ttl.nanos
    };
    let third: i128 = length / 3;
    Duration {
        nanos: if third < 1 {
            1
        } else {
            third
        },
    }
}

/// The ceilings of background work, in seconds, bytes, and items.
pub proof fn background_ceilings()
    ensures
        MAXIMUM_TEMPORARY_RESPONSE_WINDOW == 10 * 60 * 1_000_000_000int,
        MAXIMUM_STORED_RESPONSE_WINDOW == 30 * 86_400 * 1_000_000_000int,
        MAXIMUM_RECONCILIATION_LEASE_TTL == 5 * 60 * 1_000_000_000int,
        MAXIMUM_RECONCILIATION_RETRY_DELAY == 60 * 60 * 1_000_000_000int,
        MAXIMUM_BACKGROUND_RETRIEVAL_BYTES == 64 * 1_024 * 1_024,
        MAXIMUM_BACKGROUND_RETRIEVAL_ITEMS == 4_096,
        MAXIMUM_BACKGROUND_RETRIEVAL_TIMEOUT == 5 * 60 * 1_000_000_000int,
        MAXIMUM_BACKGROUND_PRINCIPAL_AGE == 60 * 60 * 1_000_000_000int,
        RETRIEVAL_SAFETY_MARGIN == 1_000_000,
{
}

/// Reconciliation bounds are accepted exactly in these ranges, and retrieval
/// bounds in these: what is visible is part of what is received.
pub proof fn background_bounds_are_ceilings(
    bounds: ReconciliationBounds,
    retrieval: RetrievalBounds,
)
    ensures
        reconciliation_bounds_accepted(bounds) <==> {
            &&& 1_000_000_000 <= bounds.lease_ttl.nanos <= 300_000_000_000
            &&& 1_000_000_000 <= bounds.retry_delay.nanos <= 3_600_000_000_000
            &&& 1 <= bounds.candidate_scan <= 256
            &&& bounds.retries <= 100 && bounds.transaction_retries <= 16
        },
        retrieval_bounds_accepted(retrieval) <==> {
            &&& 1 <= retrieval.visible_bytes <= retrieval.response_bytes <= 67_108_864
            &&& 1 <= retrieval.output_items <= 4_096 && 1 <= retrieval.content_items <= 4_096
            &&& 0 < retrieval.request_timeout.nanos <= 300_000_000_000
            &&& 0 < retrieval.principal_age.nanos <= 3_600_000_000_000
        },
{
}

/// A route is valid exactly where each of its values is visible, short enough,
/// and without control characters; residency and consent may be missing.
pub proof fn routes_hold_usable_values(route: RouteModel)
    ensures
        route_valid(route) <==> {
            &&& bounded_text(route.provider_profile_id, 200) && control_free(
                route.provider_profile_id,
            )
            &&& bounded_text(route.destination, 1_024) && control_free(route.destination)
            &&& bounded_text(route.policy_version, 256) && control_free(route.policy_version)
            &&& route.residency is Some ==> bounded_text(route.residency->0, 256) && control_free(
                route.residency->0,
            )
            &&& route.consent_reference is Some ==> bounded_text(route.consent_reference->0, 1_024)
                && control_free(route.consent_reference->0)
        },
{
}

/// A request takes no longer than configured, and ends a millisecond before the
/// claim does; it is the longest that does both.
pub proof fn requests_end_before_their_claim(now: UtcTime, claim_expiry: UtcTime, maximum: Duration)
    ensures
        ({
            let nanos = request_nanos(now, claim_expiry, maximum);
            &&& nanos <= maximum.nanos
            &&& now.nanos + nanos + 1_000_000 <= claim_expiry.nanos
            &&& nanos == maximum.nanos || now.nanos + nanos + 1_000_000 == claim_expiry.nanos
        }),
{
}

/// The delay is one second at first, doubles with every release until the
/// thirtieth, and is cut at the whole seconds of the maximum.
pub proof fn retry_delay_doubles(retry_count: u32, maximum: Duration)
    requires
        maximum.nanos >= 1_000_000_000,
    ensures
        retry_delay_seconds(0, maximum) == 1,
        retry_count < 30 ==> {
            let next = 2 * retry_delay_seconds(retry_count, maximum);
            let ceiling = maximum.nanos as int / 1_000_000_000;
            retry_delay_seconds((retry_count + 1) as u32, maximum) == if next < ceiling {
                next
            } else {
                ceiling
            }
        },
        retry_count >= 30 ==> retry_delay_seconds(retry_count, maximum) == retry_delay_seconds(
            30,
            maximum,
        ),
{
    reveal(pow2);
    lemma_pow2_unfold(1);
    vstd::arithmetic::power2::lemma2_to64();
    if retry_count < 30 {
        lemma_pow2_unfold((retry_count + 1) as nat);
    }
}

} // verus!
