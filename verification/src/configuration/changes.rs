//! Configuration changes: who may make them, what they write, and what they
//! leave in the audit trail.
//!
//! Every change is fenced by the row version that its caller last saw.
//! Credentials are replaced by a compensating saga over secret references;
//! secret plaintext never reaches this module.

use crate::access::{AiContentProtectionMode, AiContentProtectionPolicy};
use crate::configuration::rules::{
    AiContentProtectionPolicyRecord, AiProviderProfileRecord, AuditedOperation,
    ContentPolicyValues, SetAiRetentionPolicyInput, access_refusal, audit_fact, audit_records,
    content_policy_values, endpoint_configurable, endpoint_refusal, normalize_endpoint,
    only_content_policy, parsed_url, profile_scope, profile_scope_model, protection_mode_of,
    protection_mode_round_trip, protection_mode_text, protection_ready, provider_display_name,
    require_access, require_recent_mfa, resolve_content_policy, resolve_refusal,
    retention_input_valid, validate_retention_input,
};
use crate::digest::Uuid;
use crate::error::{
    AiError, ErrorModel, OrmErrorCode, accepted_or, invalid_configuration, invalid_input, outcome,
    refusal,
};
use crate::inbox::pruning::retention_policy_governs;
use crate::principal::{AiScope, AuthPrincipal, ScopeModel, valid_scope};
use crate::provider::{ProviderKind, provider_kind_text};
use crate::records::{AiRetentionPolicyRecord, AuditFact};
use crate::scope::{ai_scope_key, scope_key_text};
use crate::text::{byte_len, clone_text_option, option_is_text, same_text, text_option, trimmed};
use vstd::prelude::*;

verus! {

/// What the store assigns to a row that it writes.
#[derive(Clone, Copy, Debug, PartialEq, Eq, Structural)]
pub struct RowStamp {
    pub row_version: i64,
    pub updated_at: i64,
}

/// Why a principal may not change the configuration of a scope: a recent
/// multi-factor proof comes first.
pub open spec fn management_refusal(
    principal: AuthPrincipal,
    mfa_confirmed: bool,
    scope: ScopeModel,
    allowed: bool,
) -> Option<ErrorModel> {
    if !(principal is User && mfa_confirmed) {
        Some(ErrorModel::RecentMfaRequired)
    } else {
        access_refusal(scope, allowed)
    }
}

fn admit_management(
    principal: &AuthPrincipal,
    mfa_confirmed: bool,
    scope: &AiScope,
    allowed: bool,
) -> (result: Result<(), AiError>)
    ensures
        refusal(result) == management_refusal(*principal, mfa_confirmed, scope@, allowed),
{
    match require_recent_mfa(principal, mfa_confirmed) {
        Ok(()) => {},
        Err(error) => return Err(error),
    }
    require_access(scope, allowed)
}

/// Requested provider profile.
#[derive(Debug, PartialEq, Eq)]
pub struct UpsertAiProviderProfileInput {
    pub scope: AiScope,
    /// Identity of the profile to replace.
    pub id: Option<Uuid>,
    pub provider_kind: ProviderKind,
    pub display_name: String,
    pub base_url: Option<String>,
    pub enabled: bool,
    pub expected_version: Option<i64>,
}

/// Values that upserting a profile writes.
#[derive(Debug, PartialEq, Eq)]
pub struct ProfileValues {
    pub scope: AiScope,
    pub kind: ProviderKind,
    pub display_name: String,
    pub base_url: Option<String>,
    pub enabled: bool,
}

/// Why a profile cannot be upserted as requested.
pub open spec fn profile_refusal(
    principal: AuthPrincipal,
    mfa_confirmed: bool,
    allowed: bool,
    input: UpsertAiProviderProfileInput,
) -> Option<ErrorModel> {
    let denied = management_refusal(principal, mfa_confirmed, input.scope@, allowed);
    let name = trimmed(input.display_name@);
    if denied is Some {
        denied
    } else if name.len() == 0 || byte_len(name) > 200 {
        Some(ErrorModel::InvalidInput("invalid provider display name"@))
    } else {
        endpoint_refusal(input.provider_kind, text_option(input.base_url))
    }
}

/// Admits a requested profile and normalizes its name and endpoint.
pub fn admit_profile_upsert(
    principal: &AuthPrincipal,
    mfa_confirmed: bool,
    allowed: bool,
    input: &UpsertAiProviderProfileInput,
) -> (result: Result<ProfileValues, AiError>)
    ensures
        refusal(result) == profile_refusal(*principal, mfa_confirmed, allowed, *input),
        result matches Ok(values) ==> {
            &&& values.scope == input.scope
            &&& values.kind == input.provider_kind
            &&& values.display_name@ == trimmed(input.display_name@)
            &&& text_option(values.base_url) == if endpoint_configurable(input.provider_kind) {
                Some(parsed_url(trimmed(text_option(input.base_url)->0))->0.text)
            } else {
                None
            }
            &&& values.enabled == input.enabled
        },
{
    match admit_management(principal, mfa_confirmed, &input.scope, allowed) {
        Ok(()) => {},
        Err(error) => return Err(error),
    }
    let display_name: String = match provider_display_name(input.display_name.as_str()) {
        Ok(name) => name,
        Err(error) => return Err(error),
    };
    let base_url: Option<String> = match normalize_endpoint(input.provider_kind, &input.base_url) {
        Ok(endpoint) => endpoint,
        Err(error) => return Err(error),
    };
    Ok(
        ProfileValues {
            scope: input.scope.clone(),
            kind: input.provider_kind,
            display_name,
            base_url,
            enabled: input.enabled,
        },
    )
}

/// Accepts a fixed endpoint, or a configured one that the endpoint policy
/// authorized.
pub fn require_authorized_endpoint(values: &ProfileValues, authorized: bool) -> (result: Result<
    (),
    AiError,
>)
    ensures
        outcome(result) == accepted_or(
            values.base_url is None || authorized,
            ErrorModel::Forbidden,
        ),
{
    if values.base_url.is_none() || authorized {
        Ok(())
    } else {
        Err(AiError::Forbidden)
    }
}

/// A written profile with its audit event.
#[derive(Debug, PartialEq, Eq)]
pub struct ProfileChange {
    pub row: AiProviderProfileRecord,
    pub audit: AuditFact,
}

/// Why an upsert writes nothing, given the row with the requested identity.
///
/// Identity and version are given together or not at all. A replaced profile
/// must belong to the same scope, and a profile that holds a credential cannot
/// become a local harness.
pub open spec fn upsert_fault(
    values: ProfileValues,
    id: Option<Uuid>,
    expected_version: Option<i64>,
    current: Option<AiProviderProfileRecord>,
) -> Option<OrmErrorCode> {
    match (id, expected_version) {
        (None, None) => None,
        (Some(_), Some(version)) => match current {
            None => Some(OrmErrorCode::NotFound),
            Some(row) => if row.scope_key@ != scope_key_text(values.scope@) {
                Some(OrmErrorCode::Conflict)
            } else if values.kind is LocalHarness && row.credential_reference is Some {
                Some(OrmErrorCode::InvalidInput)
            } else if row.row_version != version {
                Some(OrmErrorCode::Conflict)
            } else {
                None
            },
        },
        _ => Some(OrmErrorCode::InvalidInput),
    }
}

/// Whether the row holds the upserted values.
pub open spec fn profile_holds(
    row: AiProviderProfileRecord,
    values: ProfileValues,
    stamp: RowStamp,
) -> bool {
    &&& row.provider_kind@ == provider_kind_text(values.kind)
    &&& row.display_name == values.display_name
    &&& row.base_url == values.base_url
    &&& row.enabled == values.enabled
    &&& row.row_version == stamp.row_version
    &&& row.updated_at == stamp.updated_at
}

/// Inserts a profile without a credential, data policy, or limits, or replaces the values of a current
/// one and keeps its identity, scope, and credential.
pub fn upsert_provider_profile(
    principal: &AuthPrincipal,
    values: &ProfileValues,
    id: Option<Uuid>,
    expected_version: Option<i64>,
    current: &Option<AiProviderProfileRecord>,
    new_id: Uuid,
    stamp: RowStamp,
) -> (result: Result<ProfileChange, OrmErrorCode>)
    ensures
        match result {
            Err(code) => upsert_fault(*values, id, expected_version, *current) == Some(code),
            Ok(change) => {
                &&& upsert_fault(*values, id, expected_version, *current) is None
                &&& profile_holds(change.row, *values, stamp)
                &&& if id is None {
                    &&& change.row.id == new_id
                    &&& change.row.scope_key@ == scope_key_text(values.scope@)
                    &&& change.row.scope_kind == values.scope.kind
                    &&& change.row.scope_id == values.scope.id
                    &&& change.row.tenant_id == values.scope.tenant_id
                    &&& change.row.credential_reference is None
                    &&& change.row.data_policy@ == "{}"@
                    &&& change.row.limits@ == "{}"@
                } else {
                    let before = current->0;
                    before == (AiProviderProfileRecord {
                        provider_kind: before.provider_kind,
                        display_name: before.display_name,
                        base_url: before.base_url,
                        enabled: before.enabled,
                        row_version: before.row_version,
                        updated_at: before.updated_at,
                        ..change.row
                    })
                }
                &&& audit_records(
                    change.audit,
                    *principal,
                    AuditedOperation::UpsertProfile,
                    change.row.id,
                    stamp.row_version,
                )
            },
        },
{
    let row: AiProviderProfileRecord = match (id, expected_version) {
        (None, None) => {
            let scope = values.scope.clone();
            AiProviderProfileRecord {
                id: new_id,
                scope_key: ai_scope_key(&values.scope),
                scope_kind: scope.kind,
                scope_id: scope.id,
                tenant_id: scope.tenant_id,
                provider_kind: values.kind.as_str().to_owned(),
                display_name: values.display_name.clone(),
                base_url: clone_text_option(&values.base_url),
                credential_reference: None,
                enabled: values.enabled,
                data_policy: "{}".to_owned(),
                limits: "{}".to_owned(),
                row_version: stamp.row_version,
                updated_at: stamp.updated_at,
            }
        },
        (Some(_), Some(version)) => {
            let before = match current {
                Some(before) => before,
                None => return Err(OrmErrorCode::NotFound),
            };
            let scope_key = ai_scope_key(&values.scope);
            if !same_text(before.scope_key.as_str(), scope_key.as_str()) {
                return Err(OrmErrorCode::Conflict);
            }
            let harness: bool = match values.kind {
                ProviderKind::LocalHarness => true,
                _ => false,
            };
            if harness && before.credential_reference.is_some() {
                return Err(OrmErrorCode::InvalidInput);
            }
            if before.row_version != version {
                return Err(OrmErrorCode::Conflict);
            }
            AiProviderProfileRecord {
                id: before.id,
                scope_key: before.scope_key.clone(),
                scope_kind: before.scope_kind.clone(),
                scope_id: before.scope_id.clone(),
                tenant_id: clone_text_option(&before.tenant_id),
                provider_kind: values.kind.as_str().to_owned(),
                display_name: values.display_name.clone(),
                base_url: clone_text_option(&values.base_url),
                credential_reference: clone_text_option(&before.credential_reference),
                enabled: values.enabled,
                data_policy: before.data_policy.clone(),
                limits: before.limits.clone(),
                row_version: stamp.row_version,
                updated_at: stamp.updated_at,
            }
        },
        _ => return Err(OrmErrorCode::InvalidInput),
    };
    let audit = audit_fact(principal, AuditedOperation::UpsertProfile, row.id, stamp.row_version);
    Ok(ProfileChange { row, audit })
}

/// How a credential is replaced.
#[derive(Clone, Copy, Debug, PartialEq, Eq, Structural)]
pub enum CredentialChange {
    Rotated,
    Removed,
}

/// Persisted spelling of a credential change.
pub open spec fn credential_change_text(change: CredentialChange) -> Seq<char> {
    match change {
        CredentialChange::Rotated => "credential_rotated"@,
        CredentialChange::Removed => "credential_removed"@,
    }
}

/// Persisted spelling of a credential change.
pub fn credential_change_value(change: CredentialChange) -> (text: &'static str)
    ensures
        text@ == credential_change_text(change),
{
    match change {
        CredentialChange::Rotated => "credential_rotated",
        CredentialChange::Removed => "credential_removed",
    }
}

/// Why the credential of a profile may not be changed. A local harness takes
/// no credential.
pub open spec fn credential_refusal(
    principal: AuthPrincipal,
    mfa_confirmed: bool,
    existing: Option<AiProviderProfileRecord>,
    allowed: bool,
    expected_version: i64,
    change: CredentialChange,
) -> Option<ErrorModel> {
    if !(principal is User && mfa_confirmed) {
        Some(ErrorModel::RecentMfaRequired)
    } else {
        match existing {
            None => Some(ErrorModel::NotFound),
            Some(row) => {
                let denied = access_refusal(profile_scope_model(row), allowed);
                if denied is Some {
                    denied
                } else if change is Rotated && row.provider_kind@ == provider_kind_text(
                    ProviderKind::LocalHarness,
                ) {
                    Some(
                        ErrorModel::InvalidInput(
                            "local-harness profiles do not accept provider credentials"@,
                        ),
                    )
                } else if row.row_version != expected_version {
                    Some(ErrorModel::Conflict)
                } else {
                    None
                }
            },
        }
    }
}

/// Admits a credential change on this version of a profile.
pub fn admit_credential_change(
    principal: &AuthPrincipal,
    mfa_confirmed: bool,
    existing: &Option<AiProviderProfileRecord>,
    allowed: bool,
    expected_version: i64,
    change: CredentialChange,
) -> (result: Result<(), AiError>)
    ensures
        refusal(result) == credential_refusal(
            *principal,
            mfa_confirmed,
            *existing,
            allowed,
            expected_version,
            change,
        ),
{
    match require_recent_mfa(principal, mfa_confirmed) {
        Ok(()) => {},
        Err(error) => return Err(error),
    }
    let row = match existing {
        Some(row) => row,
        None => return Err(AiError::NotFound),
    };
    match require_access(&profile_scope(row), allowed) {
        Ok(()) => {},
        Err(error) => return Err(error),
    }
    let rotated: bool = match change {
        CredentialChange::Rotated => true,
        CredentialChange::Removed => false,
    };
    if rotated && same_text(row.provider_kind.as_str(), ProviderKind::LocalHarness.as_str()) {
        return Err(invalid_input("local-harness profiles do not accept provider credentials"));
    }
    if row.row_version != expected_version {
        return Err(AiError::Conflict);
    }
    Ok(())
}

/// Accepts a profile whose previous secret reference, if any, is well formed.
pub fn require_secret_reference(previous: &Option<String>, well_formed: bool) -> (result: Result<
    (),
    AiError,
>)
    ensures
        outcome(result) == accepted_or(
            previous is None || well_formed,
            ErrorModel::InvalidConfiguration("invalid secret reference"@),
        ),
{
    if previous.is_none() || well_formed {
        Ok(())
    } else {
        Err(invalid_configuration("invalid secret reference"))
    }
}

/// A pending deletion of a replaced secret.
#[derive(Debug, PartialEq, Eq)]
pub struct NewSecretCleanup {
    pub id: Uuid,
    pub secret_reference: String,
    pub reason_code: String,
    pub state: String,
    pub retry_count: i64,
    pub next_attempt_at: Option<i64>,
    pub completed_at: Option<i64>,
}

/// A changed credential with the cleanup of its predecessor.
#[derive(Debug, PartialEq, Eq)]
pub struct CredentialWrite {
    pub row: AiProviderProfileRecord,
    pub cleanup: Option<NewSecretCleanup>,
    pub audit: AuditFact,
}

/// Why a credential change writes nothing.
pub open spec fn credential_fault(
    current: Option<AiProviderProfileRecord>,
    expected_version: i64,
) -> Option<OrmErrorCode> {
    match current {
        None => Some(OrmErrorCode::NotFound),
        Some(row) => if row.row_version == expected_version {
            None
        } else {
            Some(OrmErrorCode::Conflict)
        },
    }
}

/// Whether the cleanup records the pending deletion of the previous secret.
pub open spec fn cleanup_records(
    cleanup: Option<NewSecretCleanup>,
    previous: Option<String>,
    cleanup_id: Uuid,
    change: CredentialChange,
    second: i64,
) -> bool {
    match (cleanup, previous) {
        (Some(row), Some(reference)) => {
            &&& row.id == cleanup_id
            &&& row.secret_reference == reference
            &&& row.reason_code@ == credential_change_text(change)
            &&& row.state@ == "pending"@
            &&& row.retry_count == 0
            &&& row.next_attempt_at == Some(second)
            &&& row.completed_at is None
        },
        (None, None) => true,
        _ => false,
    }
}

/// How the credential changes, given the reference of the new secret.
pub open spec fn change_to(new_reference: Option<String>) -> CredentialChange {
    if new_reference is Some {
        CredentialChange::Rotated
    } else {
        CredentialChange::Removed
    }
}

/// Points a profile at a new secret, or at none, and records the cleanup of
/// the previous one. Nothing else of the profile changes.
pub fn change_credential(
    principal: &AuthPrincipal,
    current: &Option<AiProviderProfileRecord>,
    expected_version: i64,
    new_reference: Option<String>,
    previous: &Option<String>,
    cleanup_id: Uuid,
    second: i64,
    stamp: RowStamp,
) -> (result: Result<CredentialWrite, OrmErrorCode>)
    ensures
        match result {
            Err(code) => credential_fault(*current, expected_version) == Some(code),
            Ok(write) => {
                let before = current->0;
                &&& credential_fault(*current, expected_version) is None
                &&& write.row.credential_reference == new_reference
                &&& write.row.row_version == stamp.row_version
                &&& write.row.updated_at == stamp.updated_at
                &&& before == (AiProviderProfileRecord {
                    credential_reference: before.credential_reference,
                    row_version: before.row_version,
                    updated_at: before.updated_at,
                    ..write.row
                })
                &&& cleanup_records(
                    write.cleanup,
                    *previous,
                    cleanup_id,
                    change_to(new_reference),
                    second,
                )
                &&& audit_records(
                    write.audit,
                    *principal,
                    if new_reference is Some {
                        AuditedOperation::SetCredential
                    } else {
                        AuditedOperation::RemoveCredential
                    },
                    before.id,
                    stamp.row_version,
                )
            },
        },
{
    let before = match current {
        Some(before) => before,
        None => return Err(OrmErrorCode::NotFound),
    };
    if before.row_version != expected_version {
        return Err(OrmErrorCode::Conflict);
    }
    let (change, operation) = if new_reference.is_some() {
        (CredentialChange::Rotated, AuditedOperation::SetCredential)
    } else {
        (CredentialChange::Removed, AuditedOperation::RemoveCredential)
    };
    let cleanup: Option<NewSecretCleanup> = match previous {
        Some(reference) => Some(
            NewSecretCleanup {
                id: cleanup_id,
                secret_reference: reference.clone(),
                reason_code: credential_change_value(change).to_owned(),
                state: "pending".to_owned(),
                retry_count: 0,
                next_attempt_at: Some(second),
                completed_at: None,
            },
        ),
        None => None,
    };
    let row = AiProviderProfileRecord {
        id: before.id,
        scope_key: before.scope_key.clone(),
        scope_kind: before.scope_kind.clone(),
        scope_id: before.scope_id.clone(),
        tenant_id: clone_text_option(&before.tenant_id),
        provider_kind: before.provider_kind.clone(),
        display_name: before.display_name.clone(),
        base_url: clone_text_option(&before.base_url),
        credential_reference: new_reference,
        enabled: before.enabled,
        data_policy: before.data_policy.clone(),
        limits: before.limits.clone(),
        row_version: stamp.row_version,
        updated_at: stamp.updated_at,
    };
    let audit = audit_fact(principal, operation, before.id, stamp.row_version);
    Ok(CredentialWrite { row, cleanup, audit })
}

/// Which secrets the saga deletes once the transaction has ended.
#[derive(Clone, Copy, Debug, PartialEq, Eq, Structural)]
pub struct SecretCompensation {
    pub delete_new: bool,
    pub delete_previous: bool,
}

/// Ends the credential saga: an uncommitted transaction orphans the newly
/// stored secret, a committed one the previous secret.
pub fn compensate_credential(
    committed: bool,
    stored_new: bool,
    had_previous: bool,
) -> (compensation: SecretCompensation)
    ensures
        compensation.delete_new == (stored_new && !committed),
        compensation.delete_previous == (had_previous && committed),
{
    SecretCompensation {
        delete_new: stored_new && !committed,
        delete_previous: had_previous && committed,
    }
}

/// What completing a cleanup writes.
#[derive(Debug, PartialEq, Eq)]
pub struct CleanupCompletion {
    pub state: String,
    pub completed_at: i64,
}

/// Completes a cleanup whose secret was deleted; any other stays pending.
pub fn complete_cleanup(deleted: bool, second: i64) -> (completion: Option<CleanupCompletion>)
    ensures
        completion is Some <==> deleted,
        completion matches Some(update) ==> update.state@ == "complete"@ && update.completed_at
            == second,
{
    if deleted {
        Some(CleanupCompletion { state: "complete".to_owned(), completed_at: second })
    } else {
        None
    }
}

/// A committed credential change never schedules the deletion of the secret
/// that the profile now refers to, provided the secret store gave the new
/// secret a reference of its own.
pub proof fn cleanup_spares_current_credential(
    write: CredentialWrite,
    new_reference: Option<String>,
    previous: Option<String>,
    cleanup_id: Uuid,
    second: i64,
)
    requires
        write.row.credential_reference == new_reference,
        cleanup_records(write.cleanup, previous, cleanup_id, change_to(new_reference), second),
        new_reference is Some && previous is Some ==> new_reference->0@ != previous->0@,
    ensures
        write.cleanup matches Some(cleanup) ==> text_option(write.row.credential_reference) != Some(
            cleanup.secret_reference@,
        ),
{
}

/// Requested content-protection configuration.
#[derive(Debug, PartialEq, Eq)]
pub struct SetAiContentProtectionPolicyInput {
    pub scope: AiScope,
    pub mode: AiContentProtectionMode,
    pub key_policy_reference: Option<String>,
    pub expected_version: Option<i64>,
}

/// Whether a key policy is given exactly where the mode needs one.
pub open spec fn key_policy_matches(input: SetAiContentProtectionPolicyInput) -> bool {
    (input.mode is ApplicationEncrypted) == (input.key_policy_reference is Some)
}

/// Admits a requested content-protection policy and derives its values.
pub fn admit_content_policy(
    principal: &AuthPrincipal,
    mfa_confirmed: bool,
    allowed: bool,
    input: &SetAiContentProtectionPolicyInput,
    second: i64,
) -> (result: Result<ContentPolicyValues, AiError>)
    ensures
        refusal(result) == {
            let denied = management_refusal(*principal, mfa_confirmed, input.scope@, allowed);
            if denied is Some {
                denied
            } else if !key_policy_matches(*input) {
                Some(
                    ErrorModel::InvalidInput("content-protection key policy does not match mode"@),
                )
            } else {
                None
            }
        },
        result matches Ok(values) ==> content_values_of(
            values,
            input.mode,
            input.key_policy_reference,
            second,
        ),
{
    match admit_management(principal, mfa_confirmed, &input.scope, allowed) {
        Ok(()) => {},
        Err(error) => return Err(error),
    }
    content_policy_values(input.mode, clone_text_option(&input.key_policy_reference), second)
}

/// Whether these are the values of a policy with this mode and key policy.
pub open spec fn content_values_of(
    values: ContentPolicyValues,
    mode: AiContentProtectionMode,
    key_policy_reference: Option<String>,
    second: i64,
) -> bool {
    &&& values.protection_mode@ == protection_mode_text(mode)
    &&& values.key_policy_reference == key_policy_reference
    &&& values.ready == (mode is DatabaseManaged)
    &&& values.migration_state@ == if mode is DatabaseManaged {
        "ready"@
    } else {
        "pending"@
    }
    &&& values.effective_at == second
}

/// Why setting the one policy of a scope writes nothing, given how many rows
/// the scope has and the version of the first. A first policy is set without
/// a version, a later one only with its current version.
pub open spec fn policy_fault(
    existing: nat,
    current_version: i64,
    expected_version: Option<i64>,
) -> Option<OrmErrorCode> {
    if existing > 1 {
        Some(OrmErrorCode::AuthorizationMisconfigured)
    } else {
        match expected_version {
            None => if existing == 0 {
                None
            } else {
                Some(OrmErrorCode::Conflict)
            },
            Some(version) => if existing == 1 && current_version == version {
                None
            } else {
                Some(OrmErrorCode::Conflict)
            },
        }
    }
}

/// A written content-protection policy with its audit event.
#[derive(Debug, PartialEq, Eq)]
pub struct ContentPolicyChange {
    pub row: AiContentProtectionPolicyRecord,
    pub audit: AuditFact,
}

/// Whether the row holds the policy's values; the key version of an earlier
/// policy is cleared.
pub open spec fn content_policy_holds(
    row: AiContentProtectionPolicyRecord,
    values: ContentPolicyValues,
    stamp: RowStamp,
) -> bool {
    &&& row.protection_mode == values.protection_mode
    &&& row.key_policy_reference == values.key_policy_reference
    &&& row.key_version is None
    &&& row.migration_state == values.migration_state
    &&& row.ready == values.ready
    &&& row.effective_at == values.effective_at
    &&& row.row_version == stamp.row_version
}

/// Inserts the first content-protection policy of a scope or replaces the
/// values of its current one.
pub fn set_content_protection_policy(
    principal: &AuthPrincipal,
    values: &ContentPolicyValues,
    scope: &AiScope,
    existing: &Vec<AiContentProtectionPolicyRecord>,
    expected_version: Option<i64>,
    new_id: Uuid,
    stamp: RowStamp,
) -> (result: Result<ContentPolicyChange, OrmErrorCode>)
    ensures
        match result {
            Err(code) => policy_fault(
                existing@.len(),
                existing@[0].row_version,
                expected_version,
            ) == Some(code),
            Ok(change) => {
                &&& policy_fault(
                    existing@.len(),
                    existing@[0].row_version,
                    expected_version,
                ) is None
                &&& content_policy_holds(change.row, *values, stamp)
                &&& if existing@.len() == 0 {
                    &&& change.row.id == new_id
                    &&& change.row.scope_key@ == scope_key_text(scope@)
                    &&& change.row.scope_kind == scope.kind
                    &&& change.row.scope_id == scope.id
                    &&& change.row.tenant_id == scope.tenant_id
                } else {
                    &&& change.row.id == existing@[0].id
                    &&& change.row.scope_key == existing@[0].scope_key
                    &&& change.row.scope_kind == existing@[0].scope_kind
                    &&& change.row.scope_id == existing@[0].scope_id
                    &&& change.row.tenant_id == existing@[0].tenant_id
                }
                &&& audit_records(
                    change.audit,
                    *principal,
                    AuditedOperation::SetContentProtection,
                    change.row.id,
                    stamp.row_version,
                )
            },
        },
{
    if existing.len() > 1 {
        return Err(OrmErrorCode::AuthorizationMisconfigured);
    }
    let (id, scope_key, scope): (Uuid, String, AiScope) = match expected_version {
        None => {
            if existing.len() != 0 {
                return Err(OrmErrorCode::Conflict);
            }
            (new_id, ai_scope_key(scope), scope.clone())
        },
        Some(version) => {
            if existing.len() != 1 || existing[0].row_version != version {
                return Err(OrmErrorCode::Conflict);
            }
            let before = &existing[0];
            (
                before.id,
                before.scope_key.clone(),
                AiScope {
                    kind: before.scope_kind.clone(),
                    id: before.scope_id.clone(),
                    tenant_id: clone_text_option(&before.tenant_id),
                },
            )
        },
    };
    let row = AiContentProtectionPolicyRecord {
        id,
        scope_key,
        scope_kind: scope.kind,
        scope_id: scope.id,
        tenant_id: scope.tenant_id,
        protection_mode: values.protection_mode.clone(),
        key_policy_reference: clone_text_option(&values.key_policy_reference),
        key_version: None,
        migration_state: values.migration_state.clone(),
        ready: values.ready,
        row_version: stamp.row_version,
        effective_at: values.effective_at,
    };
    let audit = audit_fact(
        principal,
        AuditedOperation::SetContentProtection,
        id,
        stamp.row_version,
    );
    Ok(ContentPolicyChange { row, audit })
}

/// A policy resolves to the mode it was set with, and is usable at once
/// exactly where the database manages protection; application encryption
/// waits for its migration.
pub proof fn set_policy_resolves(
    row: AiContentProtectionPolicyRecord,
    values: ContentPolicyValues,
    mode: AiContentProtectionMode,
    key_policy_reference: Option<String>,
    second: i64,
    stamp: RowStamp,
)
    requires
        content_values_of(values, mode, key_policy_reference, second),
        content_policy_holds(row, values, stamp),
    ensures
        protection_mode_of(row.protection_mode@) == Some(mode),
        protection_ready(row) == (mode is DatabaseManaged),
{
    protection_mode_round_trip(mode);
}

/// The effective content-protection policy of a scope that the principal may
/// read, given the scope's rows.
pub fn resolve(
    allowed: bool,
    rows: &Vec<AiContentProtectionPolicyRecord>,
    scope: &AiScope,
) -> (result: Result<AiContentProtectionPolicy, AiError>)
    ensures
        refusal(result) == {
            let denied = access_refusal(scope@, allowed);
            if denied is Some {
                denied
            } else if rows@.len() > 1 {
                Some(
                    ErrorModel::InvalidConfiguration(
                        "multiple content-protection policies exist for one scope"@,
                    ),
                )
            } else if rows@.len() == 0 {
                Some(ErrorModel::RuntimeNotReady)
            } else {
                resolve_refusal(rows@[0])
            }
        },
        result matches Ok(policy) ==> {
            &&& policy.scope == *scope
            &&& Some(policy.mode) == protection_mode_of(rows@[0].protection_mode@)
            &&& policy.key_policy_reference == rows@[0].key_policy_reference
            &&& policy.version == rows@[0].row_version
            &&& policy.ready == protection_ready(rows@[0])
        },
{
    match require_access(scope, allowed) {
        Ok(()) => {},
        Err(error) => return Err(error),
    }
    match only_content_policy(rows) {
        Ok(Some(position)) => resolve_content_policy(&rows[position], scope),
        Ok(None) => Err(AiError::RuntimeNotReady),
        Err(error) => Err(error),
    }
}

/// Admits a requested retention policy. Its bounds are checked before access.
pub fn admit_retention_policy(
    principal: &AuthPrincipal,
    mfa_confirmed: bool,
    allowed: bool,
    input: &SetAiRetentionPolicyInput,
) -> (result: Result<(), AiError>)
    ensures
        refusal(result) == if !(principal is User && mfa_confirmed) {
            Some(ErrorModel::RecentMfaRequired)
        } else if !retention_input_valid(*input) {
            Some(ErrorModel::InvalidInput("invalid AI retention policy bounds"@))
        } else {
            access_refusal(input.scope@, allowed)
        },
{
    match require_recent_mfa(principal, mfa_confirmed) {
        Ok(()) => {},
        Err(error) => return Err(error),
    }
    match validate_retention_input(input) {
        Ok(()) => {},
        Err(error) => return Err(error),
    }
    require_access(&input.scope, allowed)
}

/// A written retention policy with its audit event.
#[derive(Debug, PartialEq, Eq)]
pub struct RetentionPolicyChange {
    pub row: AiRetentionPolicyRecord,
    pub audit: AuditFact,
}

/// Why setting a retention policy writes nothing. The row that is replaced
/// must carry the scope's own key.
pub open spec fn retention_fault(
    input: SetAiRetentionPolicyInput,
    existing: Seq<AiRetentionPolicyRecord>,
) -> Option<OrmErrorCode> {
    let fault = policy_fault(existing.len(), existing[0].row_version, input.expected_version);
    if fault is Some {
        fault
    } else if existing.len() == 1 && text_option(existing[0].scope_key) != Some(
        scope_key_text(input.scope@),
    ) {
        Some(OrmErrorCode::Conflict)
    } else {
        None
    }
}

/// Whether the row holds the requested retention.
pub open spec fn retention_holds(
    row: AiRetentionPolicyRecord,
    input: SetAiRetentionPolicyInput,
    stamp: RowStamp,
) -> bool {
    &&& row.message_retention_seconds == input.message_retention_seconds
    &&& row.delta_retention_seconds == input.delta_retention_seconds
    &&& row.raw_payload_retention_seconds == input.raw_payload_retention_seconds
    &&& row.audit_retention_seconds == input.audit_retention_seconds
    &&& row.deleted_content_purge_seconds == input.deleted_content_purge_seconds
    &&& row.provider_file_delete_required == input.provider_file_delete_required
    &&& row.inbox_event_retention_seconds == Some(input.inbox_event_retention_seconds)
    &&& row.inbox_minimum_events == Some(input.inbox_minimum_events)
    &&& row.row_version == stamp.row_version
    &&& row.updated_at == stamp.updated_at
}

/// Inserts the first retention policy of a scope or replaces the values of its
/// current one.
pub fn set_retention_policy(
    principal: &AuthPrincipal,
    input: &SetAiRetentionPolicyInput,
    existing: &Vec<AiRetentionPolicyRecord>,
    new_id: Uuid,
    stamp: RowStamp,
) -> (result: Result<RetentionPolicyChange, OrmErrorCode>)
    ensures
        match result {
            Err(code) => retention_fault(*input, existing@) == Some(code),
            Ok(change) => {
                &&& retention_fault(*input, existing@) is None
                &&& retention_holds(change.row, *input, stamp)
                &&& text_option(change.row.scope_key) == Some(scope_key_text(input.scope@))
                &&& if existing@.len() == 0 {
                    &&& change.row.id == new_id
                    &&& change.row.scope_kind == input.scope.kind
                    &&& change.row.scope_id == input.scope.id
                    &&& change.row.tenant_id == input.scope.tenant_id
                } else {
                    &&& change.row.id == existing@[0].id
                    &&& change.row.scope_kind == existing@[0].scope_kind
                    &&& change.row.scope_id == existing@[0].scope_id
                    &&& change.row.tenant_id == existing@[0].tenant_id
                }
                &&& audit_records(
                    change.audit,
                    *principal,
                    AuditedOperation::SetRetention,
                    change.row.id,
                    stamp.row_version,
                )
            },
        },
{
    if existing.len() > 1 {
        return Err(OrmErrorCode::AuthorizationMisconfigured);
    }
    let scope_key = ai_scope_key(&input.scope);
    let (id, scope): (Uuid, AiScope) = match input.expected_version {
        None => {
            if existing.len() != 0 {
                return Err(OrmErrorCode::Conflict);
            }
            (new_id, input.scope.clone())
        },
        Some(version) => {
            if existing.len() != 1 || existing[0].row_version != version {
                return Err(OrmErrorCode::Conflict);
            }
            let before = &existing[0];
            if !option_is_text(&before.scope_key, scope_key.as_str()) {
                return Err(OrmErrorCode::Conflict);
            }
            (
                before.id,
                AiScope {
                    kind: before.scope_kind.clone(),
                    id: before.scope_id.clone(),
                    tenant_id: clone_text_option(&before.tenant_id),
                },
            )
        },
    };
    let row = AiRetentionPolicyRecord {
        id,
        scope_key: Some(scope_key),
        scope_kind: scope.kind,
        scope_id: scope.id,
        tenant_id: scope.tenant_id,
        message_retention_seconds: input.message_retention_seconds,
        delta_retention_seconds: input.delta_retention_seconds,
        raw_payload_retention_seconds: input.raw_payload_retention_seconds,
        audit_retention_seconds: input.audit_retention_seconds,
        deleted_content_purge_seconds: input.deleted_content_purge_seconds,
        provider_file_delete_required: input.provider_file_delete_required,
        inbox_event_retention_seconds: Some(input.inbox_event_retention_seconds),
        inbox_minimum_events: Some(input.inbox_minimum_events),
        row_version: stamp.row_version,
        updated_at: stamp.updated_at,
    };
    let audit = audit_fact(principal, AuditedOperation::SetRetention, id, stamp.row_version);
    Ok(RetentionPolicyChange { row, audit })
}

/// A retention policy that was accepted and stored governs the inbox of its
/// scope.
pub proof fn accepted_retention_governs_inbox(
    input: SetAiRetentionPolicyInput,
    row: AiRetentionPolicyRecord,
    stamp: RowStamp,
)
    requires
        retention_input_valid(input),
        retention_holds(row, input, stamp),
        text_option(row.scope_key) == Some(scope_key_text(input.scope@)),
        row.scope_kind == input.scope.kind,
        row.scope_id == input.scope.id,
        row.tenant_id == input.scope.tenant_id,
    ensures
        retention_policy_governs(
            row,
            input.scope@,
            scope_key_text(input.scope@),
        ),
{
}

/// Configuration is changed by a user with a recent multi-factor proof alone,
/// in a valid scope that they are allowed; the proof is asked for first.
pub proof fn management_needs_user_proof_and_access(
    principal: AuthPrincipal,
    mfa_confirmed: bool,
    scope: ScopeModel,
    allowed: bool,
)
    ensures
        management_refusal(principal, mfa_confirmed, scope, allowed) is None <==> principal is User
            && mfa_confirmed && valid_scope(scope) && allowed,
        !(principal is User) || !mfa_confirmed ==> management_refusal(
            principal,
            mfa_confirmed,
            scope,
            allowed,
        ) == Some(ErrorModel::RecentMfaRequired),
{
}

/// A profile is upserted exactly where its principal may manage the scope, its
/// name is visible and at most 200 bytes long, and its endpoint is accepted.
pub proof fn profiles_have_names_and_endpoints(
    principal: AuthPrincipal,
    mfa_confirmed: bool,
    allowed: bool,
    input: UpsertAiProviderProfileInput,
)
    ensures
        profile_refusal(principal, mfa_confirmed, allowed, input) is None <==> {
            &&& principal is User && mfa_confirmed
            &&& valid_scope(input.scope@) && allowed
            &&& 0 < trimmed(input.display_name@).len()
            &&& byte_len(trimmed(input.display_name@)) <= 200
            &&& endpoint_refusal(input.provider_kind, text_option(input.base_url)) is None
        },
{
}

/// A profile is inserted where neither identity nor version is given, and
/// replaced exactly where both are, the row is of the same scope and of that
/// version, and no local harness would keep a credential.
pub proof fn profiles_are_replaced_at_their_version(
    values: ProfileValues,
    id: Option<Uuid>,
    expected_version: Option<i64>,
    current: Option<AiProviderProfileRecord>,
)
    ensures
        upsert_fault(values, id, expected_version, current) is None <==> {
            ||| id is None && expected_version is None
            ||| {
                &&& id is Some && expected_version is Some
                &&& current is Some
                &&& current->0.scope_key@ == scope_key_text(values.scope@)
                &&& current->0.row_version == expected_version->0
                &&& !(values.kind is LocalHarness && current->0.credential_reference is Some)
            }
        },
{
}

/// A written profile holds what was asked for, and what the store assigned.
pub proof fn written_profiles_hold_what_was_asked(
    row: AiProviderProfileRecord,
    values: ProfileValues,
    stamp: RowStamp,
)
    requires
        profile_holds(row, values, stamp),
    ensures
        row.provider_kind@ == provider_kind_text(values.kind),
        row.display_name@ == values.display_name@,
        text_option(row.base_url) == text_option(values.base_url),
        row.enabled == values.enabled,
        row.row_version == stamp.row_version,
        row.updated_at == stamp.updated_at,
{
}

/// A credential is changed exactly where a user with a recent proof may manage
/// the profile's own scope and saw its current version; a local harness never
/// gets one.
pub proof fn credentials_are_changed_by_managers_alone(
    principal: AuthPrincipal,
    mfa_confirmed: bool,
    existing: Option<AiProviderProfileRecord>,
    allowed: bool,
    expected_version: i64,
    change: CredentialChange,
)
    ensures
        credential_refusal(
            principal,
            mfa_confirmed,
            existing,
            allowed,
            expected_version,
            change,
        ) is None <==> {
            &&& principal is User && mfa_confirmed
            &&& existing is Some
            &&& valid_scope(profile_scope_model(existing->0)) && allowed
            &&& existing->0.row_version == expected_version
            &&& change is Rotated ==> existing->0.provider_kind@ != "local_harness"@
        },
        credential_fault(existing, expected_version) is None <==> existing is Some
            && existing->0.row_version == expected_version,
{
}

/// A replaced secret is scheduled for deletion at once and for its own reason;
/// without one nothing is scheduled.
pub proof fn replaced_secrets_are_scheduled(
    cleanup: Option<NewSecretCleanup>,
    previous: Option<String>,
    cleanup_id: Uuid,
    change: CredentialChange,
    second: i64,
)
    requires
        cleanup_records(cleanup, previous, cleanup_id, change, second),
    ensures
        cleanup is Some <==> previous is Some,
        cleanup matches Some(row) ==> {
            &&& row.id == cleanup_id
            &&& row.secret_reference@ == previous->0@
            &&& row.state@ == "pending"@
            &&& row.retry_count == 0
            &&& row.next_attempt_at is Some && row.next_attempt_at->0 == second
            &&& row.completed_at is None
            &&& change is Rotated ==> row.reason_code@ == "credential_rotated"@
            &&& change is Removed ==> row.reason_code@ == "credential_removed"@
        },
{
}

/// A credential is rotated by a new one, and removed by none.
pub proof fn new_references_rotate(new_reference: Option<String>)
    ensures
        change_to(new_reference) is Rotated <==> new_reference is Some,
        change_to(new_reference) is Removed <==> new_reference is None,
{
}

/// The one policy of a scope is set first without a version, and then only over
/// the version that was seen; a scope with more than one is misconfigured.
pub proof fn policies_are_set_at_their_version(
    existing: nat,
    current_version: i64,
    expected_version: Option<i64>,
)
    ensures
        policy_fault(existing, current_version, expected_version) is None <==> (existing == 0
            && expected_version is None) || (existing == 1 && expected_version is Some
            && expected_version->0 == current_version),
        existing > 1 ==> policy_fault(existing, current_version, expected_version) == Some(
            OrmErrorCode::AuthorizationMisconfigured,
        ),
        existing <= 1 && policy_fault(existing, current_version, expected_version) is Some
            ==> policy_fault(existing, current_version, expected_version) == Some(
            OrmErrorCode::Conflict,
        ),
{
}

/// A protection policy keeps the mode and key that it was set with, and waits
/// for its migration exactly where the application encrypts.
pub proof fn protection_policies_hold_their_mode(
    input: SetAiContentProtectionPolicyInput,
    values: ContentPolicyValues,
    row: AiContentProtectionPolicyRecord,
    second: i64,
    stamp: RowStamp,
)
    requires
        content_values_of(values, input.mode, input.key_policy_reference, second),
        content_policy_holds(row, values, stamp),
    ensures
        key_policy_matches(input) <==> (input.mode is ApplicationEncrypted
            <==> input.key_policy_reference is Some),
        input.mode is DatabaseManaged ==> row.protection_mode@ == "database_managed"@ && row.ready
            && row.migration_state@ == "ready"@,
        input.mode is ApplicationEncrypted ==> row.protection_mode@ == "application_encrypted"@
            && !row.ready && row.migration_state@ == "pending"@,
        text_option(row.key_policy_reference) == text_option(input.key_policy_reference),
        row.key_version is None,
        row.effective_at == second,
        row.row_version == stamp.row_version,
{
}

/// A retention policy is written exactly where it is the first of its scope, or
/// replaces the one of the very scope at the version that was seen.
pub proof fn retention_is_replaced_in_its_scope(
    input: SetAiRetentionPolicyInput,
    existing: Seq<AiRetentionPolicyRecord>,
)
    ensures
        retention_fault(input, existing) is None <==> {
            ||| existing.len() == 0 && input.expected_version is None
            ||| {
                &&& existing.len() == 1
                &&& input.expected_version is Some && input.expected_version->0
                    == existing[0].row_version
                &&& existing[0].scope_key is Some && existing[0].scope_key->0@ == scope_key_text(
                    input.scope@,
                )
            }
        },
{
}

/// A written retention policy holds every requested duration in its own column.
pub proof fn written_retention_holds_what_was_asked(
    row: AiRetentionPolicyRecord,
    input: SetAiRetentionPolicyInput,
    stamp: RowStamp,
)
    requires
        retention_holds(row, input, stamp),
    ensures
        row.message_retention_seconds == input.message_retention_seconds,
        row.delta_retention_seconds == input.delta_retention_seconds,
        row.raw_payload_retention_seconds == input.raw_payload_retention_seconds,
        row.audit_retention_seconds == input.audit_retention_seconds,
        row.deleted_content_purge_seconds == input.deleted_content_purge_seconds,
        row.provider_file_delete_required == input.provider_file_delete_required,
        row.inbox_event_retention_seconds is Some && row.inbox_event_retention_seconds->0
            == input.inbox_event_retention_seconds,
        row.inbox_minimum_events is Some && row.inbox_minimum_events->0
            == input.inbox_minimum_events,
        row.row_version == stamp.row_version,
        row.updated_at == stamp.updated_at,
{
}

/// A change is refused for what is wrong: a missing profile is not found, an
/// old version or another scope is a conflict, and a local harness with a
/// credential is invalid input.
pub proof fn refused_changes_say_why(
    values: ProfileValues,
    id: Option<Uuid>,
    expected: Option<i64>,
    current: Option<AiProviderProfileRecord>,
    principal: AuthPrincipal,
    mfa_confirmed: bool,
    allowed: bool,
    version: i64,
    change: CredentialChange,
)
    ensures
        ({
            let fault = upsert_fault(values, id, expected, current);
            let replaced = id is Some && expected is Some;
            let row = current->0;
            &&& (id is Some) != (expected is Some) ==> fault == Some(OrmErrorCode::InvalidInput)
            &&& replaced && current is None ==> fault == Some(OrmErrorCode::NotFound)
            &&& replaced && current is Some && row.scope_key@ != scope_key_text(values.scope@)
                ==> fault == Some(OrmErrorCode::Conflict)
            &&& replaced && current is Some && row.scope_key@ == scope_key_text(values.scope@) ==> {
                let kept = values.kind is LocalHarness && row.credential_reference is Some;
                &&& kept ==> fault == Some(OrmErrorCode::InvalidInput)
                &&& !kept && row.row_version != expected->0 ==> fault == Some(
                    OrmErrorCode::Conflict,
                )
            }
        }),
        ({
            let refusal = credential_refusal(
                principal,
                mfa_confirmed,
                current,
                allowed,
                version,
                change,
            );
            let proved = principal is User && mfa_confirmed;
            let denied = access_refusal(profile_scope_model(current->0), allowed);
            let harness = change is Rotated && current->0.provider_kind@ == "local_harness"@;
            &&& !proved ==> refusal == Some(ErrorModel::RecentMfaRequired)
            &&& proved && current is None ==> refusal == Some(ErrorModel::NotFound)
            &&& proved && current is Some && denied is Some ==> refusal == denied
            &&& proved && current is Some && denied is None && harness ==> refusal is Some
                && refusal->0 is InvalidInput
            &&& proved && current is Some && denied is None && !harness && current->0.row_version
                != version ==> refusal == Some(ErrorModel::Conflict)
        }),
        current is None ==> credential_fault(current, version) == Some(OrmErrorCode::NotFound),
        current is Some && current->0.row_version != version ==> credential_fault(current, version)
            == Some(OrmErrorCode::Conflict),
{
}

/// A retention policy that cannot be replaced is a conflict, unless the scope
/// has more than one.
pub proof fn refused_retention_says_why(
    input: SetAiRetentionPolicyInput,
    existing: Seq<AiRetentionPolicyRecord>,
)
    ensures
        retention_fault(input, existing) == Some(OrmErrorCode::AuthorizationMisconfigured)
            <==> existing.len() > 1,
        existing.len() <= 1 && retention_fault(input, existing) is Some ==> retention_fault(
            input,
            existing,
        ) == Some(OrmErrorCode::Conflict),
{
}

/// A profile that is not admitted for its name or its endpoint is invalid
/// input.
pub proof fn refused_profiles_say_why(
    principal: AuthPrincipal,
    mfa_confirmed: bool,
    allowed: bool,
    input: UpsertAiProviderProfileInput,
)
    ensures
        ({
            let refusal = profile_refusal(principal, mfa_confirmed, allowed, input);
            let denied = management_refusal(principal, mfa_confirmed, input.scope@, allowed);
            let name = trimmed(input.display_name@);
            &&& denied is Some ==> refusal == denied
            &&& denied is None && !(0 < name.len() && byte_len(name) <= 200) ==> refusal == Some(
                ErrorModel::InvalidInput("invalid provider display name"@),
            )
            &&& denied is None && refusal is Some ==> refusal->0 is InvalidInput
        }),
{
}

} // verus!
