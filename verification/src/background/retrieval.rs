//! Exact retrieval of one bound response: current authority, a new egress
//! decision bound before any provider I/O, and the classified result.

use crate::access::AiContentProtectionPolicy;
use crate::background::claim::{
    AiOpenAiBackgroundReconciliationClaim, ClaimDetails, actively_held, claim_use_fault,
    validate_active_reconciliation_record, validate_current_reconciliation_claim,
};
use crate::background::graph::{
    BackgroundClaimGraph, ClaimGraphSnapshot, graph_fault, load_background_claim_graph,
};
use crate::background::identity::{BackgroundAudit, BackgroundChange, audited, background_audit};
use crate::background::limits::{AiOpenAiBackgroundRetrievalRoute, RouteModel};
use crate::background::reconcile::{
    ReleaseCause, ReleaseSnapshot, ReleaseStep, close_failed_retrieval, closed_for_recovery,
    closing_fault, failure_close_fault, release_claim, release_decided, release_fault,
};
use crate::background::rows::{AiProviderBackgroundSubmissionRecord, SubmissionWrite};
use crate::background::state::{
    BackgroundReason, BackgroundSubmissionState, ProviderBackgroundStatus, reason_text,
};
use crate::clock::{Duration, UtcTime, fresh_within, is_fresh_within};
use crate::digest::Uuid;
use crate::egress::{
    AiDataSourceRef, AiDestinationTrust, AiEgressCapability, AiEgressDecision, AiEgressEventRecord,
    AiEgressManifest, AiSourceTrust, ManifestModel, SourceModel, column_holds, decision_recorded,
    same_id_option, source_models,
};
use crate::error::{AiError, ErrorModel, OrmErrorCode, accepted_or, outcome, refusal};
use crate::principal::{AiScope, ResolvedPrincipal, same_reference, same_scope};
use crate::provider::{ProviderKind, classification_of, classification_text, classification_value};
use crate::provider_result::ProviderEvent;
use crate::text::{byte_len, clone_text_option, same_text, same_text_option, text_len, text_option};
use vstd::prelude::*;

verus! {

/// Accepts a claim whose profile and original destination are the route's.
pub fn require_route(
    claim: &AiOpenAiBackgroundReconciliationClaim,
    route: &AiOpenAiBackgroundRetrievalRoute,
) -> (result: Result<(), AiError>)
    ensures
        outcome(result) == accepted_or(
            claim@.provider_profile_id@ == route@.provider_profile_id
                && claim@.original_egress_destination@ == route@.destination,
            ErrorModel::EgressDenied,
        ),
{
    let details = claim.details();
    if same_text(details.provider_profile_id.as_str(), route.provider_profile_id().as_str())
        && same_text(
        details.original_egress_destination.as_str(),
        route.destination().as_str(),
    ) {
        Ok(())
    } else {
        Err(AiError::EgressDenied)
    }
}

/// Why a principal has no current access.
pub open spec fn access_refusal(
    principal: ResolvedPrincipal,
    now: UtcTime,
    maximum_age: Duration,
    scope_allowed: bool,
    session_allowed: bool,
) -> Option<ErrorModel> {
    if !fresh_within(
        principal.resolved_at,
        principal.reference.expires_at,
        now,
        maximum_age,
    ) {
        Some(ErrorModel::ReauthorizationFailed)
    } else if !scope_allowed || !session_allowed {
        Some(ErrorModel::Forbidden)
    } else {
        None
    }
}

/// Why the current authority behind a claim is refused, in the order of
/// checks.
pub open spec fn authority_refusal(
    principal: ResolvedPrincipal,
    now: UtcTime,
    maximum_age: Duration,
    scope_allowed: bool,
    session_allowed: bool,
    policy: AiContentProtectionPolicy,
    scope: AiScope,
) -> Option<ErrorModel> {
    let access = access_refusal(principal, now, maximum_age, scope_allowed, session_allowed);
    if access is Some {
        access
    } else if !policy.ready || policy.scope@ != scope@ {
        Some(ErrorModel::RuntimeNotReady)
    } else {
        None
    }
}

/// Accepts a fresh principal with write access to the scope and the session.
pub fn require_current_access(
    principal: &ResolvedPrincipal,
    now: UtcTime,
    maximum_age: Duration,
    scope_allowed: bool,
    session_allowed: bool,
) -> (result: Result<(), AiError>)
    requires
        principal.wf(),
        now.wf(),
    ensures
        refusal(result) == access_refusal(
            *principal,
            now,
            maximum_age,
            scope_allowed,
            session_allowed,
        ),
{
    if !is_fresh_within(principal.resolved_at, principal.reference.expires_at, now, maximum_age) {
        Err(AiError::ReauthorizationFailed)
    } else if !scope_allowed || !session_allowed {
        Err(AiError::Forbidden)
    } else {
        Ok(())
    }
}

/// Accepts a fresh principal with write access to the scope and the session,
/// under a ready protection policy of exactly that scope.
pub fn require_current_authority(
    principal: &ResolvedPrincipal,
    now: UtcTime,
    maximum_age: Duration,
    scope_allowed: bool,
    session_allowed: bool,
    policy: &AiContentProtectionPolicy,
    scope: &AiScope,
) -> (result: Result<(), AiError>)
    requires
        principal.wf(),
        now.wf(),
    ensures
        refusal(result) == authority_refusal(
            *principal,
            now,
            maximum_age,
            scope_allowed,
            session_allowed,
            *policy,
            *scope,
        ),
{
    match require_current_access(principal, now, maximum_age, scope_allowed, session_allowed) {
        Ok(()) => {},
        Err(error) => return Err(error),
    }
    if !policy.ready || !same_scope(&policy.scope, scope) {
        return Err(AiError::RuntimeNotReady);
    }
    Ok(())
}

/// The transfer that asks for exactly the claim's response: its identifier is
/// the only data that leaves.
pub open spec fn retrieval_manifest_model(
    claim: ClaimDetails,
    route: RouteModel,
    source_reference: Seq<char>,
    retention: Seq<char>,
    stable_hash: Seq<char>,
) -> ManifestModel {
    ManifestModel {
        provider_profile_id: route.provider_profile_id,
        provider_kind: "openai"@,
        model: claim.provider_model@,
        destination: route.destination,
        destination_trust: AiDestinationTrust::ManagedProvider,
        capability: AiEgressCapability::ModelInference,
        scope: claim.scope@,
        session_id: Some(claim.session_id),
        run_id: Some(claim.run_id),
        sources: seq![
            SourceModel {
                kind: "provider_response"@,
                reference: source_reference,
                classification: claim.original_maximum_classification,
                trust: AiSourceTrust::ExternalUntrusted,
            },
        ],
        estimated_bytes: byte_len(claim.provider_response_id@) as u64,
        estimated_tokens: 0,
        attachment_count: 0,
        purpose: "background_response_retrieval"@,
        retention,
        residency: route.residency,
        policy_version: route.policy_version,
        consent_reference: route.consent_reference,
        maximum_classification: claim.original_maximum_classification,
        stable_hash,
    }
}

/// The manifest of the retrieval. `source_reference` redacts the submission
/// and the response, `retention` is the retention class of provider
/// responses, and `stable_hash` the content hash of the manifest.
pub fn retrieval_manifest(
    claim: &AiOpenAiBackgroundReconciliationClaim,
    route: &AiOpenAiBackgroundRetrievalRoute,
    source_reference: String,
    retention: &str,
    stable_hash: String,
) -> (manifest: AiEgressManifest)
    ensures
        manifest@ == retrieval_manifest_model(
            claim@,
            route@,
            source_reference@,
            retention@,
            stable_hash@,
        ),
{
    let details = claim.details();
    let mut sources: Vec<AiDataSourceRef> = Vec::new();
    let ghost model = SourceModel {
        kind: "provider_response"@,
        reference: source_reference@,
        classification: details.original_maximum_classification,
        trust: AiSourceTrust::ExternalUntrusted,
    };
    sources.push(
        AiDataSourceRef {
            kind: "provider_response".to_owned(),
            reference: source_reference,
            classification: details.original_maximum_classification,
            trust: AiSourceTrust::ExternalUntrusted,
        },
    );
    proof {
        assert(source_models(sources@) =~= seq![model]);
    }
    AiEgressManifest {
        provider_profile_id: route.provider_profile_id().clone(),
        provider_kind: ProviderKind::OpenAi.as_str().to_owned(),
        model: details.provider_model.clone(),
        destination: route.destination().clone(),
        destination_trust: AiDestinationTrust::ManagedProvider,
        capability: AiEgressCapability::ModelInference,
        scope: details.scope.clone(),
        session_id: Some(details.session_id),
        run_id: Some(details.run_id),
        sources,
        estimated_bytes: text_len(details.provider_response_id.as_str()) as u64,
        estimated_tokens: 0,
        attachment_count: 0,
        purpose: "background_response_retrieval".to_owned(),
        retention: retention.to_owned(),
        residency: clone_text_option(route.residency()),
        policy_version: route.policy_version().clone(),
        consent_reference: clone_text_option(route.consent_reference()),
        maximum_classification: details.original_maximum_classification,
        stable_hash,
    }
}

/// Whether the graph is the one that the claim was made under.
pub open spec fn graph_agrees(claim: ClaimDetails, graph: BackgroundClaimGraph) -> bool {
    &&& graph.principal_reference@ == claim.principal_reference@
    &&& graph.scope_kind@ == claim.scope.kind@
    &&& graph.scope_id@ == claim.scope.id@
    &&& text_option(graph.tenant_id) == text_option(claim.scope.tenant_id)
    &&& graph.original_egress_destination@ == claim.original_egress_destination@
    &&& graph.original_maximum_classification == claim.original_maximum_classification
}

/// Accepts exactly the graph that the claim was made under.
pub fn validate_claim_graph(
    claim: &AiOpenAiBackgroundReconciliationClaim,
    graph: &BackgroundClaimGraph,
) -> (result: Result<(), OrmErrorCode>)
    ensures
        result == if graph_agrees(claim@, *graph) {
            Ok::<(), OrmErrorCode>(())
        } else {
            Err(OrmErrorCode::Conflict)
        },
{
    let details = claim.details();
    if same_reference(&graph.principal_reference, &details.principal_reference) && same_text(
        graph.scope_kind.as_str(),
        details.scope.kind.as_str(),
    ) && same_text(graph.scope_id.as_str(), details.scope.id.as_str()) && same_text_option(
        &graph.tenant_id,
        &details.scope.tenant_id,
    ) && same_text(
        graph.original_egress_destination.as_str(),
        details.original_egress_destination.as_str(),
    ) && graph.original_maximum_classification == details.original_maximum_classification {
        Ok(())
    } else {
        Err(OrmErrorCode::Conflict)
    }
}

/// The graph that the rows give, as the claim's checks see it.
pub open spec fn snapshot_agrees(claim: ClaimDetails, snapshot: ClaimGraphSnapshot) -> bool {
    let session = snapshot.session->0;
    let egress = snapshot.egress_events@[0];
    &&& snapshot.run->0.principal_reference->0@ == claim.principal_reference@
    &&& session.scope_kind@ == claim.scope.kind@
    &&& session.scope_id@ == claim.scope.id@
    &&& text_option(session.tenant_id) == text_option(claim.scope.tenant_id)
    &&& egress.destination@ == claim.original_egress_destination@
    &&& classification_of(egress.classification@) == Some(
        claim.original_maximum_classification,
    )
}

/// Why a claim cannot be retrieved, in the order of checks.
pub open spec fn retrieval_claim_fault(
    current: Option<AiProviderBackgroundSubmissionRecord>,
    snapshot: ClaimGraphSnapshot,
    claim: ClaimDetails,
    now: UtcTime,
) -> Option<OrmErrorCode> {
    if current is None {
        Some(OrmErrorCode::NotFound)
    } else if claim_use_fault(current->0, claim, now) is Some {
        claim_use_fault(current->0, claim, now)
    } else if claim.retrieval_egress_decision_id is Some {
        Some(OrmErrorCode::Conflict)
    } else if graph_fault(snapshot, current->0) is Some {
        graph_fault(snapshot, current->0)
    } else if !snapshot_agrees(claim, snapshot) {
        Some(OrmErrorCode::Conflict)
    } else {
        None
    }
}

/// Accepts a current claim that has no retrieval yet and whose whole graph is
/// still the one it was made under.
pub fn validate_retrieval_claim(
    current: &Option<AiProviderBackgroundSubmissionRecord>,
    snapshot: &ClaimGraphSnapshot,
    claim: &AiOpenAiBackgroundReconciliationClaim,
    now: UtcTime,
) -> (result: Result<(), OrmErrorCode>)
    requires
        claim.wf(),
        now.wf(),
    ensures
        match result {
            Ok(()) => retrieval_claim_fault(*current, *snapshot, claim@, now) is None,
            Err(code) => retrieval_claim_fault(*current, *snapshot, claim@, now) == Some(code),
        },
{
    let row: &AiProviderBackgroundSubmissionRecord = match current {
        Some(row) => row,
        None => return Err(OrmErrorCode::NotFound),
    };
    match validate_current_reconciliation_claim(row, claim, now) {
        Ok(()) => {},
        Err(code) => return Err(code),
    }
    if claim.details().retrieval_egress_decision_id.is_some() {
        return Err(OrmErrorCode::Conflict);
    }
    let graph: BackgroundClaimGraph = match load_background_claim_graph(snapshot, row) {
        Ok(graph) => graph,
        Err(code) => return Err(code),
    };
    validate_claim_graph(claim, &graph)
}

/// Whether the row records the retrieval's allow for exactly this manifest.
pub open spec fn retrieval_recorded(
    record: AiEgressEventRecord,
    manifest: AiEgressManifest,
    decision: AiEgressDecision,
    subject: Seq<char>,
) -> bool {
    &&& record.id == decision.id
    &&& record.run_id == manifest.run_id
    &&& record.principal_subject@ == decision.principal_subject@
    &&& record.principal_subject@ == subject
    &&& record.scope_kind@ == manifest.scope.kind@
    &&& record.scope_id@ == manifest.scope.id@
    &&& record.manifest_hash@ == decision.manifest_hash@
    &&& record.manifest_hash@ == manifest.stable_hash@
    &&& record.destination@ == manifest.destination@
    &&& record.capability@ == "model_inference"@
    &&& record.classification@ == classification_text(manifest.maximum_classification)
    &&& record.outcome@ == "allow"@
    &&& record.reason_code@ == "allowed"@
    &&& record.policy_version@ == decision.policy_version@
    &&& record.estimated_bytes == manifest.estimated_bytes
    &&& record.estimated_tokens == 0
}

/// Accepts exactly the row that records the retrieval's allow.
pub fn validate_retrieval_egress_record(
    record: &AiEgressEventRecord,
    manifest: &AiEgressManifest,
    decision: &AiEgressDecision,
    expected_principal_subject: &str,
) -> (result: Result<(), OrmErrorCode>)
    ensures
        result == if retrieval_recorded(
            *record,
            *manifest,
            *decision,
            expected_principal_subject@,
        ) {
            Ok::<(), OrmErrorCode>(())
        } else {
            Err(OrmErrorCode::Conflict)
        },
{
    if record.id == decision.id && same_id_option(record.run_id, manifest.run_id) && same_text(
        record.principal_subject.as_str(),
        decision.principal_subject.as_str(),
    ) && same_text(record.principal_subject.as_str(), expected_principal_subject) && same_text(
        record.scope_kind.as_str(),
        manifest.scope.kind.as_str(),
    ) && same_text(record.scope_id.as_str(), manifest.scope.id.as_str()) && same_text(
        record.manifest_hash.as_str(),
        decision.manifest_hash.as_str(),
    ) && same_text(record.manifest_hash.as_str(), manifest.stable_hash.as_str()) && same_text(
        record.destination.as_str(),
        manifest.destination.as_str(),
    ) && same_text(record.capability.as_str(), "model_inference") && same_text(
        record.classification.as_str(),
        classification_value(manifest.maximum_classification),
    ) && same_text(record.outcome.as_str(), "allow") && same_text(
        record.reason_code.as_str(),
        "allowed",
    ) && same_text(record.policy_version.as_str(), decision.policy_version.as_str())
        && column_holds(record.estimated_bytes, manifest.estimated_bytes)
        && record.estimated_tokens == 0 {
        Ok(())
    } else {
        Err(OrmErrorCode::Conflict)
    }
}

/// Rows that binding a retrieval reads. `egress` are the events with the
/// decision's identity, at most two.
#[derive(Debug, PartialEq, Eq)]
pub struct RetrievalSnapshot {
    pub current: Option<AiProviderBackgroundSubmissionRecord>,
    pub graph: ClaimGraphSnapshot,
    pub egress: Vec<AiEgressEventRecord>,
}

/// Why a retrieval cannot be bound, in the order of checks.
pub open spec fn bind_fault(
    snapshot: RetrievalSnapshot,
    claim: ClaimDetails,
    manifest: AiEgressManifest,
    decision: AiEgressDecision,
    now: UtcTime,
) -> Option<OrmErrorCode> {
    let earlier = retrieval_claim_fault(snapshot.current, snapshot.graph, claim, now);
    if earlier is Some {
        earlier
    } else if snapshot.egress@.len() != 1 {
        Some(OrmErrorCode::InternalError)
    } else if !retrieval_recorded(
        snapshot.egress@[0],
        manifest,
        decision,
        claim.principal_reference.subject@,
    ) {
        Some(OrmErrorCode::Conflict)
    } else {
        None
    }
}

/// Every write that binds a retrieval.
#[derive(Debug, PartialEq, Eq)]
pub struct BindPlan {
    pub submission: SubmissionWrite,
    pub audit: BackgroundAudit,
}

/// Whether the row is `before` with this retrieval bound.
pub open spec fn bound_row(
    before: AiProviderBackgroundSubmissionRecord,
    after: AiProviderBackgroundSubmissionRecord,
    decision_id: Uuid,
) -> bool {
    &&& after.retrieval_egress_decision_id == Some(decision_id)
    &&& before == (AiProviderBackgroundSubmissionRecord {
        retrieval_egress_decision_id: before.retrieval_egress_decision_id,
        ..after
    })
}

/// Plans the transaction that binds a current, recorded allow to the claim
/// before any provider I/O.
pub fn bind_retrieval_egress(
    snapshot: &RetrievalSnapshot,
    claim: &AiOpenAiBackgroundReconciliationClaim,
    manifest: &AiEgressManifest,
    decision: &AiEgressDecision,
    now: UtcTime,
) -> (result: Result<BindPlan, OrmErrorCode>)
    requires
        claim.wf(),
        now.wf(),
    ensures
        match result {
            Err(code) => bind_fault(*snapshot, claim@, *manifest, *decision, now) == Some(code),
            Ok(plan) => {
                let current = snapshot.current->0;
                &&& bind_fault(*snapshot, claim@, *manifest, *decision, now) is None
                &&& plan.submission.expected_row_version == current.row_version
                &&& plan.submission.expected_state is Reconciling
                &&& bound_row(current, plan.submission.next, decision.id)
                &&& actively_held(
                    plan.submission.next,
                    claim@.worker_id@,
                    claim@.reconciliation_generation,
                    Some(decision.id),
                    now.second(),
                )
                &&& audited(
                    plan.audit,
                    BackgroundChange::BindRetrieval,
                    claim@.worker_id@,
                    current.id,
                    current.id,
                    current.run_id,
                    decision.policy_version@,
                )
            },
        },
{
    match validate_retrieval_claim(&snapshot.current, &snapshot.graph, claim, now) {
        Ok(()) => {},
        Err(code) => return Err(code),
    }
    let current: &AiProviderBackgroundSubmissionRecord = match &snapshot.current {
        Some(current) => current,
        None => return Err(OrmErrorCode::NotFound),
    };
    if snapshot.egress.len() != 1 {
        return Err(OrmErrorCode::InternalError);
    }
    let details = claim.details();
    match validate_retrieval_egress_record(
        &snapshot.egress[0],
        manifest,
        decision,
        details.principal_reference.subject.as_str(),
    ) {
        Ok(()) => {},
        Err(code) => return Err(code),
    }
    let mut next = current.clone();
    next.retrieval_egress_decision_id = Some(decision.id);
    let audit = background_audit(
        BackgroundChange::BindRetrieval,
        details.worker_id.as_str(),
        current.id,
        current.id,
        current.run_id,
        decision.policy_version.as_str(),
    );
    Ok(
        BindPlan {
            submission: SubmissionWrite {
                expected_row_version: current.row_version,
                expected_state: BackgroundSubmissionState::Reconciling,
                next,
            },
            audit,
        },
    )
}

/// The claim with its retrieval bound. `updated` is the row as the store
/// returned it.
pub fn finish_binding(
    claim: AiOpenAiBackgroundReconciliationClaim,
    updated: &AiProviderBackgroundSubmissionRecord,
    decision_id: Uuid,
    now: UtcTime,
) -> (result: Result<AiOpenAiBackgroundReconciliationClaim, OrmErrorCode>)
    requires
        claim.wf(),
        now.wf(),
    ensures
        ({
            let held = actively_held(
                *updated,
                claim@.worker_id@,
                claim@.reconciliation_generation,
                Some(decision_id),
                now.second(),
            );
            match result {
                Err(code) => code is InternalError && !held,
                Ok(bound) => held && bound.wf() && bound@ == (ClaimDetails {
                    retrieval_egress_decision_id: Some(decision_id),
                    row_version: updated.row_version,
                    ..claim@
                }),
            }
        }),
{
    match validate_active_reconciliation_record(
        updated,
        claim.details().worker_id.as_str(),
        claim.details().reconciliation_generation,
        Some(decision_id),
        now,
    ) {
        Ok(()) => {},
        Err(code) => return Err(code),
    }
    Ok(claim.with_retrieval(decision_id, updated.row_version))
}

/// Each generation is retrieved at most once: a claim with a bound retrieval
/// cannot bind another.
pub proof fn retrieval_binds_once(
    snapshot: RetrievalSnapshot,
    claim: ClaimDetails,
    manifest: AiEgressManifest,
    decision: AiEgressDecision,
    now: UtcTime,
)
    requires
        claim.retrieval_egress_decision_id is Some,
    ensures
        bind_fault(snapshot, claim, manifest, decision, now) is Some,
{
}

/// Usage that the provider reports for a terminal response.
#[derive(Clone, Copy, Debug, PartialEq, Eq, Structural)]
pub struct ProviderBackgroundUsage {
    pub input_tokens: u64,
    pub cached_input_tokens: u64,
    pub output_tokens: u64,
}

/// What the provider reported about one response.
#[derive(PartialEq, Eq)]
pub struct ProviderBackgroundObservation {
    pub status: ProviderBackgroundStatus,
    pub events: Vec<ProviderEvent>,
    pub usage: Option<ProviderBackgroundUsage>,
}

/// In-memory normalized result bound to one durable retrieval generation.
///
/// This value may contain protected visible provider output. It is not a
/// terminal persistence or run-completion proof. The claim remains
/// `reconciling`; if no terminal service consumes it, its lease expires and a
/// higher generation may retrieve again.
#[derive(PartialEq, Eq)]
pub struct AiOpenAiBackgroundRetrievalObservation {
    claim: AiOpenAiBackgroundReconciliationClaim,
    observation: ProviderBackgroundObservation,
}

/// What may be shown of an observation: no visible content.
#[derive(Debug, PartialEq, Eq)]
pub struct RedactedRetrievalObservation {
    pub reconciliation_generation: i64,
    pub status: ProviderBackgroundStatus,
    pub event_count: usize,
    pub usage: Option<ProviderBackgroundUsage>,
}

impl AiOpenAiBackgroundRetrievalObservation {
    /// The claim under which the response was retrieved.
    pub closed spec fn claimed(self) -> AiOpenAiBackgroundReconciliationClaim {
        self.claim
    }

    /// What the provider reported.
    pub closed spec fn observed(self) -> ProviderBackgroundObservation {
        self.observation
    }

    /// Observations of well-formed claims with a bound retrieval.
    pub open spec fn wf(self) -> bool {
        self.claimed().wf() && self.claimed()@.retrieval_egress_decision_id is Some
    }

    /// Exact reviewed provider status.
    pub fn status(&self) -> (status: ProviderBackgroundStatus)
        ensures
            status == self.observed().status,
    {
        self.observation.status
    }

    /// Bounded visible completed-response events.
    ///
    /// This content remains protected backend data and has not passed the
    /// fenced terminal persistence boundary.
    pub fn events(&self) -> (events: &Vec<ProviderEvent>)
        ensures
            *events == self.observed().events,
    {
        &self.observation.events
    }

    /// Authoritative terminal provider usage, when present.
    pub fn usage(&self) -> (usage: Option<ProviderBackgroundUsage>)
        ensures
            usage == self.observed().usage,
    {
        self.observation.usage
    }

    /// Reconciliation generation that authorized this retrieval attempt.
    pub fn reconciliation_generation(&self) -> (generation: i64)
        ensures
            generation == self.claimed()@.reconciliation_generation,
    {
        self.claim.reconciliation_generation()
    }

    /// The claim under which the response was retrieved.
    pub fn claim(&self) -> (claim: &AiOpenAiBackgroundReconciliationClaim)
        ensures
            *claim == self.claimed(),
    {
        &self.claim
    }

    /// What may be shown of the observation.
    pub fn redacted(&self) -> (view: RedactedRetrievalObservation)
        ensures
            view.reconciliation_generation == self.claimed()@.reconciliation_generation,
            view.status == self.observed().status,
            view.event_count == self.observed().events@.len(),
            view.usage == self.observed().usage,
    {
        RedactedRetrievalObservation {
            reconciliation_generation: self.claim.reconciliation_generation(),
            status: self.observation.status,
            event_count: self.observation.events.len(),
            usage: self.observation.usage,
        }
    }
}

/// What becomes of a failed retrieval.
#[derive(Clone, Copy, Debug, PartialEq, Eq, Structural)]
pub enum RetrievalDisposition {
    Retryable,
    RecoveryRequired,
}

/// Redacted failure proof retaining the exact retrieval generation.
///
/// Callers cannot manufacture a release or recovery transition for another
/// submission.
#[derive(PartialEq, Eq)]
pub struct AiOpenAiBackgroundRetrievalFailure {
    claim: AiOpenAiBackgroundReconciliationClaim,
    disposition: RetrievalDisposition,
    reason: BackgroundReason,
}

/// What may be shown of a failure.
#[derive(Debug, PartialEq, Eq)]
pub struct RedactedRetrievalFailure {
    pub reconciliation_generation: i64,
    pub disposition: RetrievalDisposition,
    pub safe_error_code: &'static str,
}

impl AiOpenAiBackgroundRetrievalFailure {
    /// The claim under which the retrieval failed.
    pub closed spec fn claimed(self) -> AiOpenAiBackgroundReconciliationClaim {
        self.claim
    }

    /// What becomes of the retrieval.
    pub closed spec fn decided(self) -> RetrievalDisposition {
        self.disposition
    }

    /// Why the retrieval failed.
    pub closed spec fn because(self) -> BackgroundReason {
        self.reason
    }

    /// Stable redacted failure classification.
    pub fn safe_error_code(&self) -> (code: &'static str)
        ensures
            code@ == reason_text(self.because()),
    {
        self.reason.as_str()
    }

    /// What becomes of the retrieval.
    pub fn disposition(&self) -> (disposition: RetrievalDisposition)
        ensures
            disposition == self.decided(),
    {
        self.disposition
    }

    /// The claim under which the retrieval failed.
    pub fn claim(&self) -> (claim: &AiOpenAiBackgroundReconciliationClaim)
        ensures
            *claim == self.claimed(),
    {
        &self.claim
    }

    /// What may be shown of the failure.
    pub fn redacted(&self) -> (view: RedactedRetrievalFailure)
        ensures
            view.reconciliation_generation == self.claimed()@.reconciliation_generation,
            view.disposition == self.decided(),
            view.safe_error_code@ == reason_text(self.because()),
    {
        RedactedRetrievalFailure {
            reconciliation_generation: self.claim.reconciliation_generation(),
            disposition: self.disposition,
            safe_error_code: self.reason.as_str(),
        }
    }
}

/// Classified result of one fixed-destination background retrieval attempt.
#[derive(PartialEq, Eq)]
pub enum AiOpenAiBackgroundRetrievalAttempt {
    /// A bounded reviewed provider observation is available.
    Observed(AiOpenAiBackgroundRetrievalObservation),
    /// Transport or provider availability failed and may be retried under
    /// bounded backoff.
    Retryable(AiOpenAiBackgroundRetrievalFailure),
    /// The provider response could not be interpreted safely and requires
    /// operator recovery without automatic retrieval replay.
    RecoveryRequired(AiOpenAiBackgroundRetrievalFailure),
}

/// Failure that the provider adapter reports.
#[derive(Clone, Copy, Debug, PartialEq, Eq, Structural)]
pub enum ProviderError {
    InvalidConfiguration,
    InvalidRequest,
    CredentialUnavailable,
    EgressDenied,
    BudgetDenied,
    Unsupported,
    RateLimited,
    Unavailable,
    Rejected,
    Cancelled,
}

/// What a provider failure means for the retrieval.
pub open spec fn retrieval_classification(error: ProviderError) -> (
    RetrievalDisposition,
    BackgroundReason,
) {
    match error {
        ProviderError::RateLimited => (
            RetrievalDisposition::Retryable,
            BackgroundReason::RetrievalRateLimited,
        ),
        ProviderError::Unavailable => (
            RetrievalDisposition::Retryable,
            BackgroundReason::RetrievalUnavailable,
        ),
        ProviderError::CredentialUnavailable => (
            RetrievalDisposition::RecoveryRequired,
            BackgroundReason::CredentialUnavailable,
        ),
        _ => (RetrievalDisposition::RecoveryRequired, BackgroundReason::RetrievalRejected),
    }
}

/// Whether the attempt is this failure of this claim.
pub open spec fn attempt_failed(
    attempt: AiOpenAiBackgroundRetrievalAttempt,
    claim: AiOpenAiBackgroundReconciliationClaim,
    classification: (RetrievalDisposition, BackgroundReason),
) -> bool {
    match attempt {
        AiOpenAiBackgroundRetrievalAttempt::Observed(_) => false,
        AiOpenAiBackgroundRetrievalAttempt::Retryable(failure) => {
            &&& classification.0 is Retryable
            &&& failure.claimed() == claim
            &&& failure.decided() == classification.0
            &&& failure.because() == classification.1
        },
        AiOpenAiBackgroundRetrievalAttempt::RecoveryRequired(failure) => {
            &&& classification.0 is RecoveryRequired
            &&& failure.claimed() == claim
            &&& failure.decided() == classification.0
            &&& failure.because() == classification.1
        },
    }
}

fn failed_attempt(
    claim: AiOpenAiBackgroundReconciliationClaim,
    disposition: RetrievalDisposition,
    reason: BackgroundReason,
) -> (attempt: AiOpenAiBackgroundRetrievalAttempt)
    ensures
        attempt_failed(attempt, claim, (disposition, reason)),
{
    let failure = AiOpenAiBackgroundRetrievalFailure { claim, disposition, reason };
    match disposition {
        RetrievalDisposition::Retryable => AiOpenAiBackgroundRetrievalAttempt::Retryable(failure),
        RetrievalDisposition::RecoveryRequired => {
            AiOpenAiBackgroundRetrievalAttempt::RecoveryRequired(failure)
        },
    }
}

/// Classifies a provider failure. Nothing but the class is kept of it.
pub fn classify_background_retrieval_error(
    claim: AiOpenAiBackgroundReconciliationClaim,
    error: ProviderError,
) -> (attempt: AiOpenAiBackgroundRetrievalAttempt)
    ensures
        attempt_failed(attempt, claim, retrieval_classification(error)),
        attempt is Retryable <==> error is RateLimited || error is Unavailable,
        attempt is RecoveryRequired <==> !(error is RateLimited) && !(error is Unavailable),
{
    match error {
        ProviderError::RateLimited => failed_attempt(
            claim,
            RetrievalDisposition::Retryable,
            BackgroundReason::RetrievalRateLimited,
        ),
        ProviderError::Unavailable => failed_attempt(
            claim,
            RetrievalDisposition::Retryable,
            BackgroundReason::RetrievalUnavailable,
        ),
        ProviderError::CredentialUnavailable => failed_attempt(
            claim,
            RetrievalDisposition::RecoveryRequired,
            BackgroundReason::CredentialUnavailable,
        ),
        _ => failed_attempt(
            claim,
            RetrievalDisposition::RecoveryRequired,
            BackgroundReason::RetrievalRejected,
        ),
    }
}

/// How the provider call ended.
#[derive(PartialEq, Eq)]
pub enum RetrievalReply {
    TimedOut,
    Failed(ProviderError),
    Answered(ProviderBackgroundObservation),
}

/// Whether the attempt is what this reply to a bound claim comes to.
pub open spec fn reply_classified(
    attempt: AiOpenAiBackgroundRetrievalAttempt,
    bound: AiOpenAiBackgroundReconciliationClaim,
    reply: RetrievalReply,
) -> bool {
    match reply {
        RetrievalReply::TimedOut => attempt_failed(
            attempt,
            bound,
            (RetrievalDisposition::Retryable, BackgroundReason::RetrievalTimeout),
        ),
        RetrievalReply::Failed(error) => attempt_failed(
            attempt,
            bound,
            retrieval_classification(error),
        ),
        RetrievalReply::Answered(observation) => attempt matches
            AiOpenAiBackgroundRetrievalAttempt::Observed(observed) && observed.wf()
            && observed.claimed() == bound && observed.observed() == observation,
    }
}

/// Classifies how the provider call of a bound claim ended. A timeout may be
/// retried.
pub fn classify_reply(
    bound: AiOpenAiBackgroundReconciliationClaim,
    reply: RetrievalReply,
) -> (attempt: AiOpenAiBackgroundRetrievalAttempt)
    requires
        bound.wf(),
        bound@.retrieval_egress_decision_id is Some,
    ensures
        reply_classified(attempt, bound, reply),
        attempt is Observed <==> reply is Answered,
        attempt is Retryable <==> reply is TimedOut || reply == RetrievalReply::Failed(
            ProviderError::RateLimited,
        ) || reply == RetrievalReply::Failed(ProviderError::Unavailable),
{
    match reply {
        RetrievalReply::TimedOut => failed_attempt(
            bound,
            RetrievalDisposition::Retryable,
            BackgroundReason::RetrievalTimeout,
        ),
        RetrievalReply::Failed(error) => classify_background_retrieval_error(bound, error),
        RetrievalReply::Answered(observation) => AiOpenAiBackgroundRetrievalAttempt::Observed(
            AiOpenAiBackgroundRetrievalObservation { claim: bound, observation },
        ),
    }
}

/// The observation of an attempt; any failure is a provider failure.
pub fn require_observation(attempt: AiOpenAiBackgroundRetrievalAttempt) -> (result: Result<
    AiOpenAiBackgroundRetrievalObservation,
    AiError,
>)
    ensures
        match attempt {
            AiOpenAiBackgroundRetrievalAttempt::Observed(observation) => result == Ok::<
                AiOpenAiBackgroundRetrievalObservation,
                AiError,
            >(observation),
            _ => refusal(result) == Some(ErrorModel::ProviderFailed),
        },
{
    match attempt {
        AiOpenAiBackgroundRetrievalAttempt::Observed(observation) => Ok(observation),
        _ => Err(AiError::ProviderFailed),
    }
}

/// Gives a claim back after a status that is not terminal.
pub fn release_nonterminal_once(
    snapshot: &ReleaseSnapshot,
    observation: &AiOpenAiBackgroundRetrievalObservation,
    now: UtcTime,
    eligible_at: UtcTime,
    maximum_retries: u32,
) -> (result: Result<ReleaseStep, OrmErrorCode>)
    requires
        observation.wf(),
        now.wf(),
        eligible_at.wf(),
    ensures
        ({
            let claim = observation.claimed()@;
            let cause = ReleaseCause::Nonterminal(observation.observed().status);
            let fault = release_fault(
                *snapshot,
                claim,
                cause,
                now,
                eligible_at,
                maximum_retries as nat,
            );
            match result {
                Err(code) => fault == Some(code),
                Ok(step) => fault is None && release_decided(
                    step,
                    *snapshot,
                    claim,
                    cause,
                    now,
                    eligible_at,
                    maximum_retries as nat,
                ),
            }
        }),
{
    release_claim(
        snapshot,
        observation.claim(),
        ReleaseCause::Nonterminal(observation.status()),
        now,
        eligible_at,
        maximum_retries,
    )
}

/// Why a retrieval failure cannot be handled. `eligible_at` is the next
/// attempt of a failure that may be retried.
pub open spec fn failure_fault(
    snapshot: ReleaseSnapshot,
    failure: AiOpenAiBackgroundRetrievalFailure,
    now: UtcTime,
    eligible_at: Option<UtcTime>,
    maximum_retries: nat,
) -> Option<OrmErrorCode> {
    let claim = failure.claimed()@;
    let current = snapshot.current->0;
    match failure.decided() {
        RetrievalDisposition::RecoveryRequired => failure_close_fault(snapshot, claim, now),
        RetrievalDisposition::Retryable => match eligible_at {
            Some(eligible) => release_fault(
                snapshot,
                claim,
                ReleaseCause::Failure(failure.because()),
                now,
                eligible,
                maximum_retries,
            ),
            None => if snapshot.current is None {
                Some(OrmErrorCode::NotFound)
            } else if claim_use_fault(current, claim, now) is Some {
                claim_use_fault(current, claim, now)
            } else if current.retrieval_egress_decision_id is None {
                Some(OrmErrorCode::Conflict)
            } else {
                Some(OrmErrorCode::InternalError)
            },
        },
    }
}

/// Consumes a classified retrieval failure: releases with backoff, or closes
/// for recovery.
pub fn handle_retrieval_failure_once(
    snapshot: &ReleaseSnapshot,
    failure: &AiOpenAiBackgroundRetrievalFailure,
    now: UtcTime,
    eligible_at: Option<UtcTime>,
    maximum_retries: u32,
) -> (result: Result<ReleaseStep, OrmErrorCode>)
    requires
        failure.claimed().wf(),
        now.wf(),
        eligible_at matches Some(eligible) ==> eligible.wf(),
    ensures
        match result {
            Err(code) => failure_fault(
                *snapshot,
                *failure,
                now,
                eligible_at,
                maximum_retries as nat,
            ) == Some(code),
            Ok(step) => {
                let claim = failure.claimed()@;
                &&& failure_fault(
                    *snapshot,
                    *failure,
                    now,
                    eligible_at,
                    maximum_retries as nat,
                ) is None
                &&& match failure.decided() {
                    RetrievalDisposition::RecoveryRequired => step matches ReleaseStep::Close(plan)
                        && closed_for_recovery(
                        plan,
                        snapshot.graph.run->0,
                        snapshot.current->0,
                        snapshot.graph.attempts@[0].worker_id@,
                        snapshot.matched@,
                        failure.because(),
                        now.second(),
                    ),
                    RetrievalDisposition::Retryable => release_decided(
                        step,
                        *snapshot,
                        claim,
                        ReleaseCause::Failure(failure.because()),
                        now,
                        eligible_at->0,
                        maximum_retries as nat,
                    ),
                }
            },
        },
{
    match failure.disposition {
        RetrievalDisposition::RecoveryRequired => {
            match close_failed_retrieval(snapshot, &failure.claim, failure.reason, now) {
                Ok(plan) => Ok(ReleaseStep::Close(plan)),
                Err(code) => Err(code),
            }
        },
        RetrievalDisposition::Retryable => match eligible_at {
            Some(eligible) => release_claim(
                snapshot,
                &failure.claim,
                ReleaseCause::Failure(failure.reason),
                now,
                eligible,
                maximum_retries,
            ),
            None => {
                let current: &AiProviderBackgroundSubmissionRecord = match &snapshot.current {
                    Some(current) => current,
                    None => return Err(OrmErrorCode::NotFound),
                };
                match validate_current_reconciliation_claim(current, &failure.claim, now) {
                    Ok(()) => {},
                    Err(code) => return Err(code),
                }
                if current.retrieval_egress_decision_id.is_none() {
                    return Err(OrmErrorCode::Conflict);
                }
                Err(OrmErrorCode::InternalError)
            },
        },
    }
}

/// The order of work in one retrieval: which action it is waiting for.
#[derive(Clone, Copy, Debug, PartialEq, Eq, Structural)]
pub enum RetrievePhase {
    ValidatingClaim,
    CheckingAuthority,
    AuthorizingEgress,
    RecordingEgress,
    ProvingEgress,
    RecheckingAuthority,
    BindingEgress,
    Calling,
    Finished,
}

/// The phase after an action succeeded; any failure ends the retrieval with
/// its error before the provider is called.
pub open spec fn next_retrieve_phase(phase: RetrievePhase) -> RetrievePhase {
    match phase {
        RetrievePhase::ValidatingClaim => RetrievePhase::CheckingAuthority,
        RetrievePhase::CheckingAuthority => RetrievePhase::AuthorizingEgress,
        RetrievePhase::AuthorizingEgress => RetrievePhase::RecordingEgress,
        RetrievePhase::RecordingEgress => RetrievePhase::ProvingEgress,
        RetrievePhase::ProvingEgress => RetrievePhase::RecheckingAuthority,
        RetrievePhase::RecheckingAuthority => RetrievePhase::BindingEgress,
        RetrievePhase::BindingEgress => RetrievePhase::Calling,
        RetrievePhase::Calling => RetrievePhase::Finished,
        RetrievePhase::Finished => RetrievePhase::Finished,
    }
}

impl RetrievePhase {
    /// Starts a retrieval. `ready` tells whether the runtime accepts new work.
    pub fn begin(ready: bool) -> (result: Result<RetrievePhase, AiError>)
        ensures
            refusal(result) == if ready {
                None
            } else {
                Some(ErrorModel::RuntimeNotReady)
            },
            result matches Ok(phase) ==> phase is ValidatingClaim,
    {
        if ready {
            Ok(RetrievePhase::ValidatingClaim)
        } else {
            Err(AiError::RuntimeNotReady)
        }
    }

    /// Answers how the last action ended: the next action, or the error that
    /// ends the retrieval.
    pub fn step(self, ended: Result<(), AiError>) -> (result: Result<RetrievePhase, AiError>)
        ensures
            match ended {
                Ok(()) => result == Ok::<RetrievePhase, AiError>(next_retrieve_phase(self)),
                Err(error) => result == Err::<RetrievePhase, AiError>(error),
            },
    {
        match ended {
            Ok(()) => Ok(
                match self {
                    RetrievePhase::ValidatingClaim => RetrievePhase::CheckingAuthority,
                    RetrievePhase::CheckingAuthority => RetrievePhase::AuthorizingEgress,
                    RetrievePhase::AuthorizingEgress => RetrievePhase::RecordingEgress,
                    RetrievePhase::RecordingEgress => RetrievePhase::ProvingEgress,
                    RetrievePhase::ProvingEgress => RetrievePhase::RecheckingAuthority,
                    RetrievePhase::RecheckingAuthority => RetrievePhase::BindingEgress,
                    RetrievePhase::BindingEgress => RetrievePhase::Calling,
                    RetrievePhase::Calling => RetrievePhase::Finished,
                    RetrievePhase::Finished => RetrievePhase::Finished,
                },
            ),
            Err(error) => Err(error),
        }
    }
}

/// The phase after `count` actions succeeded.
pub open spec fn retrieve_phase_after(count: nat) -> RetrievePhase
    decreases count,
{
    if count == 0 {
        RetrievePhase::ValidatingClaim
    } else {
        next_retrieve_phase(retrieve_phase_after((count - 1) as nat))
    }
}

/// The provider is called exactly when seven actions have succeeded: claim
/// validation, two authority checks, and the decision, record, proof, and
/// durable binding of a new egress allow, the second check after the proof.
pub proof fn retrieval_follows_bound_egress(count: nat)
    ensures
        retrieve_phase_after(count) is Calling <==> count == 7,
        retrieve_phase_after(0) is ValidatingClaim,
        retrieve_phase_after(1) is CheckingAuthority,
        retrieve_phase_after(2) is AuthorizingEgress,
        retrieve_phase_after(3) is RecordingEgress,
        retrieve_phase_after(4) is ProvingEgress,
        retrieve_phase_after(5) is RecheckingAuthority,
        retrieve_phase_after(6) is BindingEgress,
{
    reveal_with_fuel(retrieve_phase_after, 9);
    if count >= 8 {
        lemma_retrieval_stays_finished(count);
    }
}

proof fn lemma_retrieval_stays_finished(count: nat)
    requires
        count >= 8,
    ensures
        retrieve_phase_after(count) is Finished,
    decreases count,
{
    reveal_with_fuel(retrieve_phase_after, 9);
    if count > 8 {
        lemma_retrieval_stays_finished((count - 1) as nat);
    }
}

/// A response that may still be there is fetched again, and one that cannot be
/// had is not: a retrieval is retryable exactly where the call timed out, was
/// limited in rate, or found the provider unavailable. Every other provider
/// error requires recovery. An answer is observed as it came.
pub proof fn outages_are_retried_and_refusals_recovered(
    attempt: AiOpenAiBackgroundRetrievalAttempt,
    bound: AiOpenAiBackgroundReconciliationClaim,
    reply: RetrievalReply,
)
    requires
        reply_classified(attempt, bound, reply),
    ensures
        attempt is Retryable <==> match reply {
            RetrievalReply::TimedOut => true,
            RetrievalReply::Failed(error) => error is RateLimited || error is Unavailable,
            RetrievalReply::Answered(_) => false,
        },
        attempt is RecoveryRequired <==> match reply {
            RetrievalReply::TimedOut => false,
            RetrievalReply::Failed(error) => !(error is RateLimited || error is Unavailable),
            RetrievalReply::Answered(_) => false,
        },
        attempt matches AiOpenAiBackgroundRetrievalAttempt::Observed(observed) ==> reply
            == RetrievalReply::Answered(observed.observed()) && observed.claimed() == bound,
{
}

/// A failed retrieval keeps the claim that it was made under, is decided as it
/// is classified, and says why: a timeout, a limited rate, an outage, a missing
/// credential, or a rejection.
pub proof fn failed_retrievals_say_why(
    attempt: AiOpenAiBackgroundRetrievalAttempt,
    bound: AiOpenAiBackgroundReconciliationClaim,
    reply: RetrievalReply,
)
    requires
        reply_classified(attempt, bound, reply),
        !(attempt is Observed),
    ensures
        ({
            let failure = match attempt {
                AiOpenAiBackgroundRetrievalAttempt::Retryable(failure) => failure,
                AiOpenAiBackgroundRetrievalAttempt::RecoveryRequired(failure) => failure,
                AiOpenAiBackgroundRetrievalAttempt::Observed(_) => arbitrary(),
            };
            &&& failure.claimed() == bound
            &&& failure.decided() is Retryable <==> attempt is Retryable
            &&& failure.because() is RetrievalTimeout <==> reply is TimedOut
            &&& failure.because() is RetrievalRateLimited <==> reply == RetrievalReply::Failed(
                ProviderError::RateLimited,
            )
            &&& failure.because() is RetrievalUnavailable <==> reply == RetrievalReply::Failed(
                ProviderError::Unavailable,
            )
            &&& failure.because() is CredentialUnavailable <==> reply == RetrievalReply::Failed(
                ProviderError::CredentialUnavailable,
            )
            &&& failure.because() is RetrievalTimeout || failure.because()
                is RetrievalRateLimited || failure.because() is RetrievalUnavailable
                || failure.because() is CredentialUnavailable || failure.because()
                is RetrievalRejected
        }),
{
}

/// Authority behind a claim is current exactly while its principal is fresh,
/// both the scope and the session may be written, and the protection policy of
/// that very scope is ready.
pub proof fn retrieval_authority_is_current(
    principal: ResolvedPrincipal,
    now: UtcTime,
    maximum_age: Duration,
    scope_allowed: bool,
    session_allowed: bool,
    policy: AiContentProtectionPolicy,
    scope: AiScope,
)
    ensures
        ({
            let fresh = principal.resolved_at.nanos <= now.nanos <= principal.resolved_at.nanos
                + maximum_age.nanos && (principal.reference.expires_at is None || now.nanos
                < principal.reference.expires_at->0.nanos);
            let refused = authority_refusal(
                principal,
                now,
                maximum_age,
                scope_allowed,
                session_allowed,
                policy,
                scope,
            );
            &&& refused is None <==> fresh && scope_allowed && session_allowed && policy.ready
                && policy.scope@ == scope@
            &&& refused == Some(ErrorModel::ReauthorizationFailed) <==> !fresh
            &&& refused == Some(ErrorModel::Forbidden) <==> fresh && !(scope_allowed
                && session_allowed)
        }),
{
}

/// The transfer of a retrieval carries the identifier of one response and
/// nothing else: no tokens, no attachments, one source under the classification
/// of the submission, for the claim's session and run, to the destination and
/// under the policy of the route.
pub proof fn retrieval_transfers_one_identifier(
    claim: ClaimDetails,
    route: RouteModel,
    source_reference: Seq<char>,
    retention: Seq<char>,
    stable_hash: Seq<char>,
)
    ensures
        ({
            let manifest = retrieval_manifest_model(
                claim,
                route,
                source_reference,
                retention,
                stable_hash,
            );
            &&& manifest.estimated_tokens == 0
            &&& manifest.attachment_count == 0
            &&& manifest.estimated_bytes == byte_len(claim.provider_response_id@) as u64
            &&& manifest.sources.len() == 1
            &&& manifest.sources[0].kind == "provider_response"@
            &&& manifest.sources[0].reference == source_reference
            &&& manifest.sources[0].classification == claim.original_maximum_classification
            &&& manifest.sources[0].trust is ExternalUntrusted
            &&& manifest.maximum_classification == claim.original_maximum_classification
            &&& manifest.session_id is Some && manifest.session_id->0 == claim.session_id
            &&& manifest.run_id is Some && manifest.run_id->0 == claim.run_id
            &&& manifest.scope == claim.scope@
            &&& manifest.provider_kind == "openai"@
            &&& manifest.provider_profile_id == route.provider_profile_id
            &&& manifest.model == claim.provider_model@
            &&& manifest.destination == route.destination
            &&& manifest.destination_trust is ManagedProvider
            &&& manifest.capability is ModelInference
            &&& manifest.purpose == "background_response_retrieval"@
            &&& manifest.retention == retention
            &&& manifest.residency == route.residency
            &&& manifest.policy_version == route.policy_version
            &&& manifest.consent_reference == route.consent_reference
            &&& manifest.stable_hash == stable_hash
        }),
{
}

/// A retrieval is bound only to an allow that was recorded for exactly its
/// transfer and its principal; then the row changes in its retrieval alone.
pub proof fn retrieval_is_bound_to_its_recorded_allow(
    snapshot: RetrievalSnapshot,
    claim: ClaimDetails,
    manifest: AiEgressManifest,
    decision: AiEgressDecision,
    now: UtcTime,
)
    requires
        bind_fault(snapshot, claim, manifest, decision, now) is None,
    ensures
        snapshot.current is Some,
        claim.retrieval_egress_decision_id is None,
        snapshot.egress@.len() == 1,
        ({
            let record = snapshot.egress@[0];
            &&& record.id == decision.id
            &&& record.run_id == manifest.run_id
            &&& record.principal_subject@ == decision.principal_subject@
            &&& decision.principal_subject@ == claim.principal_reference.subject@
            &&& record.scope_kind@ == manifest.scope.kind@
            &&& record.scope_id@ == manifest.scope.id@
            &&& record.manifest_hash@ == manifest.stable_hash@
            &&& decision.manifest_hash@ == manifest.stable_hash@
            &&& record.destination@ == manifest.destination@
            &&& record.capability@ == "model_inference"@
            &&& record.classification@ == classification_text(manifest.maximum_classification)
            &&& record.outcome@ == "allow"@
            &&& record.reason_code@ == "allowed"@
            &&& record.policy_version@ == decision.policy_version@
            &&& record.estimated_bytes == manifest.estimated_bytes
            &&& record.estimated_tokens == 0
        }),
{
}

/// A recorded allow of the transfer is accepted: nothing else is asked of it
/// than that every column is that of the transfer.
pub proof fn recorded_allow_is_accepted(
    record: AiEgressEventRecord,
    manifest: AiEgressManifest,
    decision: AiEgressDecision,
    subject: Seq<char>,
)
    requires
        decision_recorded(record, manifest, decision),
        decision.principal_subject@ == subject,
        decision.manifest_hash@ == manifest.stable_hash@,
        decision.outcome is Allow,
        decision.reason is Allowed,
        manifest.capability is ModelInference,
        manifest.estimated_tokens == 0,
    ensures
        retrieval_recorded(record, manifest, decision, subject),
{
}

/// A claim is retrieved only while it is usable, has no retrieval yet, and the
/// rows around it are still those of its principal, its scope, its destination,
/// and its classification.
pub proof fn retrieval_needs_an_unchanged_claim(
    current: Option<AiProviderBackgroundSubmissionRecord>,
    snapshot: ClaimGraphSnapshot,
    claim: ClaimDetails,
    now: UtcTime,
)
    ensures
        retrieval_claim_fault(current, snapshot, claim, now) is None <==> {
            &&& current is Some
            &&& claim_use_fault(current->0, claim, now) is None
            &&& claim.retrieval_egress_decision_id is None
            &&& graph_fault(snapshot, current->0) is None
            &&& snapshot.run->0.principal_reference->0@ == claim.principal_reference@
            &&& snapshot.session->0.scope_kind@ == claim.scope.kind@
            &&& snapshot.session->0.scope_id@ == claim.scope.id@
            &&& text_option(snapshot.session->0.tenant_id) == text_option(claim.scope.tenant_id)
            &&& snapshot.egress_events@[0].destination@ == claim.original_egress_destination@
            &&& classification_of(snapshot.egress_events@[0].classification@) == Some(
                claim.original_maximum_classification,
            )
        },
{
}

/// A failure is handled by what was decided of it: one that requires recovery
/// closes the submission with its reason, and a retryable one is given back for
/// the eligible instant, unless retries or the deadline are exhausted.
pub proof fn failures_are_handled_as_decided(
    snapshot: ReleaseSnapshot,
    failure: AiOpenAiBackgroundRetrievalFailure,
    now: UtcTime,
    eligible: UtcTime,
    maximum_retries: nat,
)
    requires
        failure_fault(snapshot, failure, now, Some(eligible), maximum_retries) is None,
    ensures
        snapshot.current is Some,
        claim_use_fault(snapshot.current->0, failure.claimed()@, now) is None,
        snapshot.current->0.retrieval_egress_decision_id is Some,
        failure.decided() is RecoveryRequired ==> closing_fault(snapshot, snapshot.current->0)
            is None,
{
}

/// A retrieval is refused for what is wrong: a stale principal is asked to
/// prove itself again, a denied one is forbidden, an unready policy is not
/// ready; a missing row is not found, a changed claim is a conflict.
pub proof fn retrieval_refusals_say_why(
    principal: ResolvedPrincipal,
    now: UtcTime,
    maximum_age: Duration,
    scope_allowed: bool,
    session_allowed: bool,
    policy: AiContentProtectionPolicy,
    scope: AiScope,
)
    ensures
        ({
            let fresh = fresh_within(
                principal.resolved_at,
                principal.reference.expires_at,
                now,
                maximum_age,
            );
            let access = access_refusal(
                principal,
                now,
                maximum_age,
                scope_allowed,
                session_allowed,
            );
            let authority = authority_refusal(
                principal,
                now,
                maximum_age,
                scope_allowed,
                session_allowed,
                policy,
                scope,
            );
            &&& !fresh <==> access == Some(ErrorModel::ReauthorizationFailed)
            &&& fresh && !(scope_allowed && session_allowed) <==> access == Some(
                ErrorModel::Forbidden,
            )
            &&& access is None <==> fresh && scope_allowed && session_allowed
            &&& access is Some ==> authority == access
            &&& access is None && !(policy.ready && policy.scope@ == scope@) ==> authority == Some(
                ErrorModel::RuntimeNotReady,
            )
            &&& access is None && policy.ready && policy.scope@ == scope@ ==> authority is None
        }),
{
}

/// Binding a retrieval fails as not found where the row is gone, as a conflict
/// where it was bound before, its rows changed, or another transfer was
/// recorded, and as a fault of the store where the decision is missing.
pub proof fn binding_faults_say_what_is_wrong(
    snapshot: RetrievalSnapshot,
    claim: ClaimDetails,
    manifest: AiEgressManifest,
    decision: AiEgressDecision,
    now: UtcTime,
)
    ensures
        ({
            let current = snapshot.current->0;
            let claimed = retrieval_claim_fault(snapshot.current, snapshot.graph, claim, now);
            let bound = bind_fault(snapshot, claim, manifest, decision, now);
            &&& snapshot.current is None ==> claimed == Some(OrmErrorCode::NotFound)
            &&& snapshot.current is Some && claim_use_fault(current, claim, now) is None
                && claim.retrieval_egress_decision_id is Some ==> claimed == Some(
                OrmErrorCode::Conflict,
            )
            &&& snapshot.current is Some && claim_use_fault(current, claim, now) is None
                && claim.retrieval_egress_decision_id is None && graph_fault(
                snapshot.graph,
                current,
            ) is None && !snapshot_agrees(claim, snapshot.graph) ==> claimed == Some(
                OrmErrorCode::Conflict,
            )
            &&& claimed is Some ==> bound == claimed
            &&& claimed is None && snapshot.egress@.len() != 1 ==> bound == Some(
                OrmErrorCode::InternalError,
            )
            &&& claimed is None && snapshot.egress@.len() == 1 ==> (bound == Some(
                OrmErrorCode::Conflict,
            ) <==> !retrieval_recorded(
                snapshot.egress@[0],
                manifest,
                decision,
                claim.principal_reference.subject@,
            ))
        }),
{
}

/// A failure that is retried but never due is a fault of the store, once the
/// claim is found usable and the transfer bound.
pub proof fn undue_failures_are_faults(
    snapshot: ReleaseSnapshot,
    failure: AiOpenAiBackgroundRetrievalFailure,
    now: UtcTime,
    maximum_retries: nat,
)
    requires
        failure.decided() is Retryable,
    ensures
        ({
            let current = snapshot.current->0;
            let fault = failure_fault(snapshot, failure, now, None, maximum_retries);
            &&& fault is Some
            &&& snapshot.current is None ==> fault == Some(OrmErrorCode::NotFound)
            &&& snapshot.current is Some && claim_use_fault(current, failure.claimed()@, now)
                is None ==> fault == Some(
                if current.retrieval_egress_decision_id is None {
                    OrmErrorCode::Conflict
                } else {
                    OrmErrorCode::InternalError
                },
            )
        }),
{
}

} // verus!
