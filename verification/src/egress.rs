//! Egress manifests and the append-only audit of egress decisions.

use crate::digest::Uuid;
use crate::error::{AiError, ErrorModel, accepted_or, invalid_input, outcome, refusal};
use crate::principal::{AiScope, ScopeModel, same_scope};
use crate::provider::{DataClassification, classification_text, classification_value};
use crate::text::{
    blank, bounded_text, byte_len, is_bounded_text, same_text, same_text_option, text_option,
};
use vstd::prelude::*;

verus! {

/// What a transfer is used for.
#[derive(Clone, Copy, Debug, PartialEq, Eq, Structural)]
pub enum AiEgressCapability {
    ModelInference,
    WebSearch,
    ImageAnalysis,
    ImageGeneration,
    ProviderFile,
    CodeExecution,
    RemoteMcp,
    ToolResult,
}

/// Whether a transfer may happen.
#[derive(Clone, Copy, Debug, PartialEq, Eq, Structural)]
pub enum AiEgressOutcome {
    Allow,
    Deny,
}

/// Why a transfer was decided that way.
#[derive(Clone, Copy, Debug, PartialEq, Eq, Structural)]
pub enum AiEgressReason {
    Allowed,
    DeploymentDenied,
    PolicyDenied,
    PrincipalDenied,
    ClassificationDenied,
    SecretDataDenied,
    ConsentRequired,
    LimitExceeded,
}

/// Who operates the destination of a transfer.
#[derive(Clone, Copy, Debug, PartialEq, Eq, Structural)]
pub enum AiDestinationTrust {
    ManagedProvider,
    ExternalProcessor,
}

/// Who produced the transferred data.
#[derive(Clone, Copy, Debug, PartialEq, Eq, Structural)]
pub enum AiSourceTrust {
    UserProvided,
    ResolverResult,
    ExternalUntrusted,
}

/// Redacted reference to one transferred source.
#[derive(Debug, PartialEq, Eq)]
pub struct AiDataSourceRef {
    pub kind: String,
    pub reference: String,
    pub classification: DataClassification,
    pub trust: AiSourceTrust,
}

/// Exact redacted description of one transfer.
#[derive(Debug, PartialEq, Eq)]
pub struct AiEgressManifest {
    pub provider_profile_id: String,
    pub provider_kind: String,
    pub model: String,
    pub destination: String,
    pub destination_trust: AiDestinationTrust,
    pub capability: AiEgressCapability,
    pub scope: AiScope,
    pub session_id: Option<Uuid>,
    pub run_id: Option<Uuid>,
    pub sources: Vec<AiDataSourceRef>,
    pub estimated_bytes: u64,
    pub estimated_tokens: u64,
    pub attachment_count: u32,
    pub purpose: String,
    pub retention: String,
    pub residency: Option<String>,
    pub policy_version: String,
    pub consent_reference: Option<String>,
    /// Most restrictive classification among the sources.
    pub maximum_classification: DataClassification,
    /// Stable content hash of the manifest.
    pub stable_hash: String,
}

/// Mathematical model of [`AiDataSourceRef`].
pub struct SourceModel {
    pub kind: Seq<char>,
    pub reference: Seq<char>,
    pub classification: DataClassification,
    pub trust: AiSourceTrust,
}

impl View for AiDataSourceRef {
    type V = SourceModel;

    open spec fn view(&self) -> SourceModel {
        SourceModel {
            kind: self.kind@,
            reference: self.reference@,
            classification: self.classification,
            trust: self.trust,
        }
    }
}

/// Models of a list of sources.
pub open spec fn source_models(sources: Seq<AiDataSourceRef>) -> Seq<SourceModel> {
    sources.map_values(|source: AiDataSourceRef| source@)
}

/// Mathematical model of [`AiEgressManifest`].
pub struct ManifestModel {
    pub provider_profile_id: Seq<char>,
    pub provider_kind: Seq<char>,
    pub model: Seq<char>,
    pub destination: Seq<char>,
    pub destination_trust: AiDestinationTrust,
    pub capability: AiEgressCapability,
    pub scope: ScopeModel,
    pub session_id: Option<Uuid>,
    pub run_id: Option<Uuid>,
    pub sources: Seq<SourceModel>,
    pub estimated_bytes: u64,
    pub estimated_tokens: u64,
    pub attachment_count: u32,
    pub purpose: Seq<char>,
    pub retention: Seq<char>,
    pub residency: Option<Seq<char>>,
    pub policy_version: Seq<char>,
    pub consent_reference: Option<Seq<char>>,
    pub maximum_classification: DataClassification,
    pub stable_hash: Seq<char>,
}

impl View for AiEgressManifest {
    type V = ManifestModel;

    open spec fn view(&self) -> ManifestModel {
        ManifestModel {
            provider_profile_id: self.provider_profile_id@,
            provider_kind: self.provider_kind@,
            model: self.model@,
            destination: self.destination@,
            destination_trust: self.destination_trust,
            capability: self.capability,
            scope: self.scope@,
            session_id: self.session_id,
            run_id: self.run_id,
            sources: source_models(self.sources@),
            estimated_bytes: self.estimated_bytes,
            estimated_tokens: self.estimated_tokens,
            attachment_count: self.attachment_count,
            purpose: self.purpose@,
            retention: self.retention@,
            residency: text_option(self.residency),
            policy_version: self.policy_version@,
            consent_reference: text_option(self.consent_reference),
            maximum_classification: self.maximum_classification,
            stable_hash: self.stable_hash@,
        }
    }
}

/// Whether two sources are the same.
pub fn same_source(left: &AiDataSourceRef, right: &AiDataSourceRef) -> (result: bool)
    ensures
        result == (left@ == right@),
{
    same_text(left.kind.as_str(), right.kind.as_str()) && same_text(
        left.reference.as_str(),
        right.reference.as_str(),
    ) && left.classification == right.classification && left.trust == right.trust
}

/// Whether two lists hold the same sources in the same order.
pub fn same_sources(left: &Vec<AiDataSourceRef>, right: &Vec<AiDataSourceRef>) -> (result: bool)
    ensures
        result == (source_models(left@) == source_models(right@)),
{
    if left.len() != right.len() {
        assert(source_models(left@).len() != source_models(right@).len());
        return false;
    }
    let mut i: usize = 0;
    while i < left.len()
        invariant
            i <= left@.len(),
            left@.len() == right@.len(),
            forall|k: int| 0 <= k < i ==> (#[trigger] left@[k])@ == right@[k]@,
        decreases left@.len() - i,
    {
        if !same_source(&left[i], &right[i]) {
            assert(source_models(left@)[i as int] != source_models(right@)[i as int]);
            return false;
        }
        i += 1;
    }
    assert(source_models(left@) =~= source_models(right@));
    true
}

/// Whether two manifests are the same.
pub fn same_manifest(left: &AiEgressManifest, right: &AiEgressManifest) -> (result: bool)
    ensures
        result == (left@ == right@),
{
    same_text(left.provider_profile_id.as_str(), right.provider_profile_id.as_str()) && same_text(
        left.provider_kind.as_str(),
        right.provider_kind.as_str(),
    ) && same_text(left.model.as_str(), right.model.as_str()) && same_text(
        left.destination.as_str(),
        right.destination.as_str(),
    ) && left.destination_trust == right.destination_trust && left.capability == right.capability
        && same_scope(&left.scope, &right.scope) && same_id_option(
        left.session_id,
        right.session_id,
    ) && same_id_option(left.run_id, right.run_id) && same_sources(&left.sources, &right.sources)
        && left.estimated_bytes == right.estimated_bytes && left.estimated_tokens
        == right.estimated_tokens && left.attachment_count == right.attachment_count && same_text(
        left.purpose.as_str(),
        right.purpose.as_str(),
    ) && same_text(left.retention.as_str(), right.retention.as_str()) && same_text_option(
        &left.residency,
        &right.residency,
    ) && same_text(left.policy_version.as_str(), right.policy_version.as_str()) && same_text_option(
        &left.consent_reference,
        &right.consent_reference,
    ) && left.maximum_classification == right.maximum_classification && same_text(
        left.stable_hash.as_str(),
        right.stable_hash.as_str(),
    )
}

/// One decision about one manifest.
#[derive(Debug, PartialEq, Eq)]
pub struct AiEgressDecision {
    pub id: Uuid,
    pub manifest_hash: String,
    pub principal_subject: String,
    pub outcome: AiEgressOutcome,
    pub reason: AiEgressReason,
    pub policy_version: String,
}

/// One persisted decision.
#[derive(Debug, PartialEq, Eq)]
pub struct AiEgressEventRecord {
    pub id: Uuid,
    pub run_id: Option<Uuid>,
    pub principal_subject: String,
    pub scope_kind: String,
    pub scope_id: String,
    pub manifest_hash: String,
    pub destination: String,
    pub capability: String,
    pub classification: String,
    pub outcome: String,
    pub reason_code: String,
    pub policy_version: String,
    pub estimated_bytes: i64,
    pub estimated_tokens: i64,
}

/// Persisted spelling of a capability.
pub open spec fn capability_text(value: AiEgressCapability) -> Seq<char> {
    match value {
        AiEgressCapability::ModelInference => "model_inference"@,
        AiEgressCapability::WebSearch => "web_search"@,
        AiEgressCapability::ImageAnalysis => "image_analysis"@,
        AiEgressCapability::ImageGeneration => "image_generation"@,
        AiEgressCapability::ProviderFile => "provider_file"@,
        AiEgressCapability::CodeExecution => "code_execution"@,
        AiEgressCapability::RemoteMcp => "remote_mcp"@,
        AiEgressCapability::ToolResult => "tool_result"@,
    }
}

/// Persisted spelling of a capability.
pub fn capability_value(value: AiEgressCapability) -> (text: &'static str)
    ensures
        text@ == capability_text(value),
{
    match value {
        AiEgressCapability::ModelInference => "model_inference",
        AiEgressCapability::WebSearch => "web_search",
        AiEgressCapability::ImageAnalysis => "image_analysis",
        AiEgressCapability::ImageGeneration => "image_generation",
        AiEgressCapability::ProviderFile => "provider_file",
        AiEgressCapability::CodeExecution => "code_execution",
        AiEgressCapability::RemoteMcp => "remote_mcp",
        AiEgressCapability::ToolResult => "tool_result",
    }
}

/// Persisted spelling of an outcome.
pub open spec fn outcome_text(value: AiEgressOutcome) -> Seq<char> {
    match value {
        AiEgressOutcome::Allow => "allow"@,
        AiEgressOutcome::Deny => "deny"@,
    }
}

/// Persisted spelling of an outcome.
pub fn outcome_value(value: AiEgressOutcome) -> (text: &'static str)
    ensures
        text@ == outcome_text(value),
{
    match value {
        AiEgressOutcome::Allow => "allow",
        AiEgressOutcome::Deny => "deny",
    }
}

/// Persisted spelling of a reason.
pub open spec fn reason_text(value: AiEgressReason) -> Seq<char> {
    match value {
        AiEgressReason::Allowed => "allowed"@,
        AiEgressReason::DeploymentDenied => "deployment_denied"@,
        AiEgressReason::PolicyDenied => "policy_denied"@,
        AiEgressReason::PrincipalDenied => "principal_denied"@,
        AiEgressReason::ClassificationDenied => "classification_denied"@,
        AiEgressReason::SecretDataDenied => "secret_data_denied"@,
        AiEgressReason::ConsentRequired => "consent_required"@,
        AiEgressReason::LimitExceeded => "limit_exceeded"@,
    }
}

/// Persisted spelling of a reason.
pub fn reason_value(value: AiEgressReason) -> (text: &'static str)
    ensures
        text@ == reason_text(value),
{
    match value {
        AiEgressReason::Allowed => "allowed",
        AiEgressReason::DeploymentDenied => "deployment_denied",
        AiEgressReason::PolicyDenied => "policy_denied",
        AiEgressReason::PrincipalDenied => "principal_denied",
        AiEgressReason::ClassificationDenied => "classification_denied",
        AiEgressReason::SecretDataDenied => "secret_data_denied",
        AiEgressReason::ConsentRequired => "consent_required",
        AiEgressReason::LimitExceeded => "limit_exceeded",
    }
}

/// Whether the decision is about this manifest and both can be recorded.
pub open spec fn recordable(manifest: AiEgressManifest, decision: AiEgressDecision) -> bool {
    &&& decision.manifest_hash@ == manifest.stable_hash@
    &&& bounded_text(decision.principal_subject@, 1_024)
    &&& bounded_text(manifest.scope.kind@, 128)
    &&& bounded_text(manifest.scope.id@, 1_024)
    &&& bounded_text(manifest.destination@, 1_024)
    &&& bounded_text(decision.policy_version@, 256)
    &&& manifest.estimated_bytes <= i64::MAX
    &&& manifest.estimated_tokens <= i64::MAX
}

/// Accepts exactly the recordable decisions.
pub fn validate_record(manifest: &AiEgressManifest, decision: &AiEgressDecision) -> (result: Result<
    (),
    AiError,
>)
    ensures
        outcome(result) == accepted_or(
            recordable(*manifest, *decision),
            ErrorModel::InvalidInput("invalid redacted egress audit event"@),
        ),
{
    if same_text(decision.manifest_hash.as_str(), manifest.stable_hash.as_str())
        && is_bounded_text(decision.principal_subject.as_str(), 1_024) && is_bounded_text(
        manifest.scope.kind.as_str(),
        128,
    ) && is_bounded_text(manifest.scope.id.as_str(), 1_024) && is_bounded_text(
        manifest.destination.as_str(),
        1_024,
    ) && is_bounded_text(decision.policy_version.as_str(), 256) && manifest.estimated_bytes
        <= i64::MAX as u64 && manifest.estimated_tokens <= i64::MAX as u64 {
        Ok(())
    } else {
        Err(invalid_input("invalid redacted egress audit event"))
    }
}

/// Whether the row records exactly this decision about this manifest.
pub open spec fn decision_recorded(
    record: AiEgressEventRecord,
    manifest: AiEgressManifest,
    decision: AiEgressDecision,
) -> bool {
    &&& record.id == decision.id
    &&& record.run_id == manifest.run_id
    &&& record.principal_subject@ == decision.principal_subject@
    &&& record.scope_kind@ == manifest.scope.kind@
    &&& record.scope_id@ == manifest.scope.id@
    &&& record.manifest_hash@ == decision.manifest_hash@
    &&& record.destination@ == manifest.destination@
    &&& record.capability@ == capability_text(manifest.capability)
    &&& record.classification@ == classification_text(manifest.maximum_classification)
    &&& record.outcome@ == outcome_text(decision.outcome)
    &&& record.reason_code@ == reason_text(decision.reason)
    &&& record.policy_version@ == decision.policy_version@
    &&& record.estimated_bytes == manifest.estimated_bytes
    &&& record.estimated_tokens == manifest.estimated_tokens
}

/// Whether two optional identifiers are equal.
pub fn same_id_option(left: Option<Uuid>, right: Option<Uuid>) -> (result: bool)
    ensures
        result == (left == right),
{
    match (left, right) {
        (Some(left), Some(right)) => left == right,
        (None, None) => true,
        _ => false,
    }
}

/// Whether a stored column holds exactly this unsigned value.
pub fn column_holds(column: i64, value: u64) -> (result: bool)
    ensures
        result == (column == value),
{
    column >= 0 && column as u64 == value
}

/// Whether the row records exactly this decision about this manifest.
pub fn record_matches(
    record: &AiEgressEventRecord,
    manifest: &AiEgressManifest,
    decision: &AiEgressDecision,
) -> (result: bool)
    ensures
        result == decision_recorded(*record, *manifest, *decision),
{
    record.id == decision.id && same_id_option(record.run_id, manifest.run_id) && same_text(
        record.principal_subject.as_str(),
        decision.principal_subject.as_str(),
    ) && same_text(record.scope_kind.as_str(), manifest.scope.kind.as_str()) && same_text(
        record.scope_id.as_str(),
        manifest.scope.id.as_str(),
    ) && same_text(record.manifest_hash.as_str(), decision.manifest_hash.as_str()) && same_text(
        record.destination.as_str(),
        manifest.destination.as_str(),
    ) && same_text(record.capability.as_str(), capability_value(manifest.capability)) && same_text(
        record.classification.as_str(),
        classification_value(manifest.maximum_classification),
    ) && same_text(record.outcome.as_str(), outcome_value(decision.outcome)) && same_text(
        record.reason_code.as_str(),
        reason_value(decision.reason),
    ) && same_text(record.policy_version.as_str(), decision.policy_version.as_str())
        && column_holds(record.estimated_bytes, manifest.estimated_bytes) && column_holds(
        record.estimated_tokens,
        manifest.estimated_tokens,
    )
}

/// What recording a decision does.
#[derive(Debug, PartialEq, Eq)]
pub enum EgressAuditStep {
    /// The same decision is already recorded.
    AlreadyRecorded,
    /// Append this row.
    Append(AiEgressEventRecord),
}

/// Why a decision cannot be recorded.
pub open spec fn record_refusal(
    manifest: AiEgressManifest,
    decision: AiEgressDecision,
    existing: Option<AiEgressEventRecord>,
) -> Option<ErrorModel> {
    if !recordable(manifest, decision) {
        Some(ErrorModel::InvalidInput("invalid redacted egress audit event"@))
    } else if existing is Some && !decision_recorded(existing->0, manifest, decision) {
        Some(ErrorModel::Conflict)
    } else {
        None
    }
}

/// Decides how a decision is recorded, given the row that already carries its
/// identity, if any.
///
/// A recorded decision is immutable: another decision under the same identity
/// is a conflict.
pub fn record_decision(
    manifest: &AiEgressManifest,
    decision: &AiEgressDecision,
    existing: &Option<AiEgressEventRecord>,
) -> (result: Result<EgressAuditStep, AiError>)
    ensures
        refusal(result) == record_refusal(*manifest, *decision, *existing),
        match result {
            Ok(EgressAuditStep::AlreadyRecorded) => existing is Some,
            Ok(EgressAuditStep::Append(row)) => existing is None && decision_recorded(
                row,
                *manifest,
                *decision,
            ),
            Err(_) => true,
        },
        result matches Ok(EgressAuditStep::Append(row)) ==> {
            &&& row.id == decision.id
            &&& row.run_id == manifest.run_id
            &&& row.principal_subject == decision.principal_subject
            &&& row.scope_kind == manifest.scope.kind
            &&& row.scope_id == manifest.scope.id
            &&& row.manifest_hash@ == manifest.stable_hash@
            &&& row.destination == manifest.destination
            &&& row.capability@ == capability_text(manifest.capability)
            &&& row.classification@ == classification_text(manifest.maximum_classification)
            &&& row.outcome@ == (if decision.outcome is Allow {
                "allow"@
            } else {
                "deny"@
            })
            &&& row.reason_code@ == reason_text(decision.reason)
            &&& row.policy_version == decision.policy_version
            &&& row.estimated_bytes == manifest.estimated_bytes
            &&& row.estimated_tokens == manifest.estimated_tokens
        },
        result matches Ok(EgressAuditStep::AlreadyRecorded) ==> existing matches Some(row)
            && row.destination@ == manifest.destination@ && row.principal_subject@
            == decision.principal_subject@ && row.manifest_hash@ == manifest.stable_hash@
            && row.run_id == manifest.run_id && row.id == decision.id,
{
    match validate_record(manifest, decision) {
        Ok(()) => {},
        Err(error) => return Err(error),
    }
    match existing {
        Some(record) => {
            if record_matches(record, manifest, decision) {
                Ok(EgressAuditStep::AlreadyRecorded)
            } else {
                Err(AiError::Conflict)
            }
        },
        None => Ok(
            EgressAuditStep::Append(
                AiEgressEventRecord {
                    id: decision.id,
                    run_id: manifest.run_id,
                    principal_subject: decision.principal_subject.clone(),
                    scope_kind: manifest.scope.kind.clone(),
                    scope_id: manifest.scope.id.clone(),
                    manifest_hash: decision.manifest_hash.clone(),
                    destination: manifest.destination.clone(),
                    capability: capability_value(manifest.capability).to_owned(),
                    classification: classification_value(
                        manifest.maximum_classification,
                    ).to_owned(),
                    outcome: outcome_value(decision.outcome).to_owned(),
                    reason_code: reason_value(decision.reason).to_owned(),
                    policy_version: decision.policy_version.clone(),
                    estimated_bytes: manifest.estimated_bytes as i64,
                    estimated_tokens: manifest.estimated_tokens as i64,
                },
            ),
        ),
    }
}

/// A decision is recorded exactly where it is about the manifest at hand and
/// every column of its row can hold what it is given: texts that are neither
/// blank nor too long, and counts of 63 bits.
pub proof fn decisions_are_recorded_where_they_fit(
    manifest: AiEgressManifest,
    decision: AiEgressDecision,
)
    ensures
        record_refusal(manifest, decision, None) is None <==> {
            &&& manifest.stable_hash@ == decision.manifest_hash@
            &&& !blank(decision.principal_subject@) && byte_len(decision.principal_subject@)
                <= 1_024
            &&& !blank(manifest.scope.kind@) && byte_len(manifest.scope.kind@) <= 128
            &&& !blank(manifest.scope.id@) && byte_len(manifest.scope.id@) <= 1_024
            &&& !blank(manifest.destination@) && byte_len(manifest.destination@) <= 1_024
            &&& !blank(decision.policy_version@) && byte_len(decision.policy_version@) <= 256
            &&& manifest.estimated_bytes < 0x8000_0000_0000_0000
            &&& manifest.estimated_tokens < 0x8000_0000_0000_0000
        },
        record_refusal(manifest, decision, None) matches Some(error) ==> error
            == ErrorModel::InvalidInput("invalid redacted egress audit event"@),
{
}

/// An audit row says of a transfer who caused it, what left, and where to:
/// every column is that of the manifest or of the decision that has its name.
pub proof fn audit_row_names_its_transfer(
    manifest: AiEgressManifest,
    decision: AiEgressDecision,
    row: AiEgressEventRecord,
)
    requires
        decision_recorded(row, manifest, decision),
    ensures
        row.id == decision.id,
        row.run_id == manifest.run_id,
        row.principal_subject@ == decision.principal_subject@,
        row.scope_kind@ == manifest.scope@.kind,
        row.scope_id@ == manifest.scope@.id,
        row.manifest_hash@ == decision.manifest_hash@,
        row.destination@ == manifest@.destination,
        row.capability@ == capability_text(manifest@.capability),
        row.classification@ == classification_text(manifest@.maximum_classification),
        row.outcome@ == "allow"@ <==> decision.outcome is Allow,
        row.outcome@ == "deny"@ <==> decision.outcome is Deny,
        row.reason_code@ == "allowed"@ <==> decision.reason is Allowed,
        row.policy_version@ == decision.policy_version@,
        row.estimated_bytes == manifest@.estimated_bytes,
        row.estimated_tokens == manifest@.estimated_tokens,
{
    reveal_strlit("allow");
    reveal_strlit("deny");
    reveal_strlit("allowed");
    reveal_strlit("deployment_denied");
    reveal_strlit("policy_denied");
    reveal_strlit("principal_denied");
    reveal_strlit("classification_denied");
    reveal_strlit("secret_data_denied");
    reveal_strlit("consent_required");
    reveal_strlit("limit_exceeded");
    assert("allow"@.len() == 5 && "deny"@.len() == 4 && "allowed"@.len() == 7);
    assert("deployment_denied"@.len() == 17 && "policy_denied"@.len() == 13);
    assert("principal_denied"@.len() == 16 && "classification_denied"@.len() == 21);
    assert("secret_data_denied"@.len() == 18 && "consent_required"@.len() == 16);
    assert("limit_exceeded"@.len() == 14);
}

/// The audit of a transfer depends on nothing that its row leaves out: where
/// two transfers agree on what a row holds, one is recorded by the row of the
/// other, however they differ in model, profile, sources, or retention.
pub proof fn audit_depends_on_its_columns_alone(
    manifest: AiEgressManifest,
    other: AiEgressManifest,
    decision: AiEgressDecision,
    row: AiEgressEventRecord,
)
    requires
        decision_recorded(row, manifest, decision),
    ensures
        decision_recorded(row, other, decision) <==> {
            &&& other.run_id == manifest.run_id
            &&& other.scope.kind@ == manifest.scope.kind@
            &&& other.scope.id@ == manifest.scope.id@
            &&& other.destination@ == manifest.destination@
            &&& capability_text(other.capability) == capability_text(manifest.capability)
            &&& classification_text(other.maximum_classification) == classification_text(
                manifest.maximum_classification,
            )
            &&& other.estimated_bytes == manifest.estimated_bytes
            &&& other.estimated_tokens == manifest.estimated_tokens
        },
{
}

/// A recorded decision is answered with a conflict where the replay differs in
/// any column, and with success where it differs in none.
pub proof fn changed_decisions_conflict(
    manifest: AiEgressManifest,
    decision: AiEgressDecision,
    row: AiEgressEventRecord,
)
    requires
        record_refusal(manifest, decision, None) is None,
    ensures
        record_refusal(manifest, decision, Some(row)) == if row.id == decision.id && row.run_id
            == manifest.run_id && row.principal_subject@ == decision.principal_subject@
            && row.scope_kind@ == manifest.scope.kind@ && row.scope_id@ == manifest.scope.id@
            && row.manifest_hash@ == manifest.stable_hash@ && row.destination@
            == manifest.destination@ && row.capability@ == capability_text(manifest.capability)
            && row.classification@ == classification_text(manifest.maximum_classification)
            && row.outcome@ == outcome_text(decision.outcome) && row.reason_code@ == reason_text(
            decision.reason,
        ) && row.policy_version@ == decision.policy_version@ && row.estimated_bytes
            == manifest.estimated_bytes && row.estimated_tokens == manifest.estimated_tokens {
            None
        } else {
            Some(ErrorModel::Conflict)
        },
{
}

/// Two manifests are the same exactly where they agree on every member.
pub proof fn manifests_agree_on_every_member(left: AiEgressManifest, right: AiEgressManifest)
    ensures
        left@ == right@ <==> {
            &&& left.provider_profile_id@ == right.provider_profile_id@
            &&& left.provider_kind@ == right.provider_kind@
            &&& left.model@ == right.model@
            &&& left.destination@ == right.destination@
            &&& left.destination_trust == right.destination_trust
            &&& left.capability == right.capability
            &&& left.scope.kind@ == right.scope.kind@
            &&& left.scope.id@ == right.scope.id@
            &&& text_option(left.scope.tenant_id) == text_option(right.scope.tenant_id)
            &&& left.session_id == right.session_id
            &&& left.run_id == right.run_id
            &&& source_models(left.sources@) == source_models(right.sources@)
            &&& left.estimated_bytes == right.estimated_bytes
            &&& left.estimated_tokens == right.estimated_tokens
            &&& left.attachment_count == right.attachment_count
            &&& left.purpose@ == right.purpose@
            &&& left.retention@ == right.retention@
            &&& text_option(left.residency) == text_option(right.residency)
            &&& left.policy_version@ == right.policy_version@
            &&& text_option(left.consent_reference) == text_option(right.consent_reference)
            &&& left.maximum_classification == right.maximum_classification
            &&& left.stable_hash@ == right.stable_hash@
        },
{
}

/// Capabilities, outcomes, and reasons keep their spelling apart: two that are
/// spelled alike are the same.
pub proof fn egress_spellings_are_distinct(
    capabilities: (AiEgressCapability, AiEgressCapability),
    reasons: (AiEgressReason, AiEgressReason),
)
    ensures
        capability_text(capabilities.0) == capability_text(capabilities.1) ==> capabilities.0
            == capabilities.1,
        reason_text(reasons.0) == reason_text(reasons.1) ==> reasons.0 == reasons.1,
        capability_text(AiEgressCapability::ModelInference) == "model_inference"@,
        capability_text(AiEgressCapability::ToolResult) == "tool_result"@,
{
    reveal_strlit("model_inference");
    reveal_strlit("web_search");
    reveal_strlit("image_analysis");
    reveal_strlit("image_generation");
    reveal_strlit("provider_file");
    reveal_strlit("code_execution");
    reveal_strlit("remote_mcp");
    reveal_strlit("tool_result");
    assert("model_inference"@[0] == 'm' && "web_search"@[0] == 'w');
    assert("image_analysis"@[6] == 'a' && "image_generation"@[6] == 'g');
    assert("image_analysis"@[0] == 'i' && "image_generation"@[0] == 'i');
    assert("provider_file"@[0] == 'p' && "code_execution"@[0] == 'c');
    assert("remote_mcp"@[0] == 'r' && "tool_result"@[0] == 't');
    reveal_strlit("allowed");
    reveal_strlit("deployment_denied");
    reveal_strlit("policy_denied");
    reveal_strlit("principal_denied");
    reveal_strlit("classification_denied");
    reveal_strlit("secret_data_denied");
    reveal_strlit("consent_required");
    reveal_strlit("limit_exceeded");
    assert("allowed"@[0] == 'a' && "deployment_denied"@[0] == 'd' && "limit_exceeded"@[0] == 'l');
    assert("policy_denied"@[1] == 'o' && "principal_denied"@[1] == 'r');
    assert("policy_denied"@[0] == 'p' && "principal_denied"@[0] == 'p');
    assert("classification_denied"@[1] == 'l' && "consent_required"@[1] == 'o');
    assert("classification_denied"@[0] == 'c' && "consent_required"@[0] == 'c');
    assert("secret_data_denied"@[0] == 's');
}

/// Recording a decision again is accepted and changes nothing.
pub proof fn recorded_decision_replays(
    manifest: AiEgressManifest,
    decision: AiEgressDecision,
    row: AiEgressEventRecord,
)
    requires
        record_refusal(manifest, decision, None) is None,
        decision_recorded(row, manifest, decision),
    ensures
        record_refusal(manifest, decision, Some(row)) is None,
{
}

/// A recorded decision cannot be turned round: under its identity the opposite
/// outcome is never recorded.
pub proof fn recorded_outcome_is_immutable(
    manifest: AiEgressManifest,
    decision: AiEgressDecision,
    row: AiEgressEventRecord,
    later_manifest: AiEgressManifest,
    later: AiEgressDecision,
)
    requires
        decision_recorded(row, manifest, decision),
        later.outcome != decision.outcome,
    ensures
        record_refusal(later_manifest, later, Some(row)) is Some,
{
    reveal_strlit("allow");
    reveal_strlit("deny");
    assert("allow"@.len() == 5 && "deny"@.len() == 4);
}

/// A decision that cannot be recorded is invalid input; one that was recorded
/// otherwise before is a conflict.
pub proof fn refused_records_say_why(
    manifest: AiEgressManifest,
    decision: AiEgressDecision,
    existing: Option<AiEgressEventRecord>,
)
    ensures
        record_refusal(manifest, decision, existing) == Some(
            ErrorModel::InvalidInput("invalid redacted egress audit event"@),
        ) <==> !recordable(manifest, decision),
        record_refusal(manifest, decision, existing) == Some(ErrorModel::Conflict) <==> recordable(
            manifest,
            decision,
        ) && existing is Some && !decision_recorded(existing->0, manifest, decision),
        record_refusal(manifest, decision, existing) is None <==> recordable(manifest, decision) && (
        existing is None || decision_recorded(existing->0, manifest, decision)),
{
}

} // verus!
