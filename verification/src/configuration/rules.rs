//! Rows, views, and the rules that configuration values must meet.

use crate::access::{AiContentProtectionMode, AiContentProtectionPolicy};
use crate::decimal::{integer_text, integer_to_string};
use crate::digest::{Uuid, uuid_text, uuid_to_string};
use crate::error::{
    AiError, ErrorModel, accepted_or, invalid_configuration, invalid_input, outcome, refusal,
};
use crate::inbox::pruning::{MAXIMUM_RETENTION_SECONDS, MINIMUM_RETENTION_SECONDS};
use crate::principal::{
    AiScope, AuthPrincipal, ScopeModel, principal_identity, principal_kind_text,
    principal_subject_text, valid_scope, validate_scope,
};
use crate::provider::ProviderKind;
use crate::records::{AiRetentionPolicyRecord, AuditFact};
use crate::text::{byte_len, clone_text_option, same_text, text_len, text_option, trim, trimmed};
use vstd::prelude::*;

verus! {

/// One configured provider endpoint and credential reference.
#[derive(Debug, PartialEq, Eq)]
pub struct AiProviderProfileRecord {
    pub id: Uuid,
    pub scope_key: String,
    pub scope_kind: String,
    pub scope_id: String,
    pub tenant_id: Option<String>,
    pub provider_kind: String,
    pub display_name: String,
    pub base_url: Option<String>,
    pub credential_reference: Option<String>,
    pub enabled: bool,
    /// Encoded data policy.
    pub data_policy: String,
    /// Encoded limits.
    pub limits: String,
    pub row_version: i64,
    pub updated_at: i64,
}

/// A provider profile without its credential reference.
#[derive(Debug, PartialEq, Eq)]
pub struct AiProviderProfileView {
    pub id: Uuid,
    pub scope_kind: String,
    pub scope_id: String,
    pub tenant_id: Option<String>,
    pub provider_kind: String,
    pub display_name: String,
    pub base_url: Option<String>,
    pub credential_configured: bool,
    pub enabled: bool,
    pub row_version: i64,
    pub updated_at: i64,
}

/// Content-protection configuration of one scope.
#[derive(Debug, PartialEq, Eq)]
pub struct AiContentProtectionPolicyRecord {
    pub id: Uuid,
    pub scope_key: String,
    pub scope_kind: String,
    pub scope_id: String,
    pub tenant_id: Option<String>,
    pub protection_mode: String,
    pub key_policy_reference: Option<String>,
    /// Version of the key in use, once a migration has chosen one.
    pub key_version: Option<String>,
    pub migration_state: String,
    pub ready: bool,
    pub row_version: i64,
    pub effective_at: i64,
}

/// Content-protection configuration as callers see it.
#[derive(Debug, PartialEq, Eq)]
pub struct AiContentProtectionPolicyView {
    pub scope_kind: String,
    pub scope_id: String,
    pub tenant_id: Option<String>,
    pub protection_mode: String,
    pub ready: bool,
    pub row_version: i64,
    pub effective_at: i64,
}

/// Retention configuration as callers see it.
#[derive(Debug, PartialEq, Eq)]
pub struct AiRetentionPolicyView {
    pub scope_kind: String,
    pub scope_id: String,
    pub tenant_id: Option<String>,
    pub message_retention_seconds: Option<i64>,
    pub delta_retention_seconds: i64,
    pub raw_payload_retention_seconds: i64,
    pub audit_retention_seconds: i64,
    pub deleted_content_purge_seconds: i64,
    pub provider_file_delete_required: bool,
    pub inbox_event_retention_seconds: i64,
    pub inbox_minimum_events: i64,
    pub row_version: i64,
    pub updated_at: i64,
}

/// The profile without its credential reference; only whether one is
/// configured is disclosed.
pub fn provider_view(record: &AiProviderProfileRecord) -> (view: AiProviderProfileView)
    ensures
        view.id == record.id,
        view.scope_kind == record.scope_kind,
        view.scope_id == record.scope_id,
        view.tenant_id == record.tenant_id,
        view.provider_kind == record.provider_kind,
        view.display_name == record.display_name,
        view.base_url == record.base_url,
        view.credential_configured == (record.credential_reference is Some),
        view.enabled == record.enabled,
        view.row_version == record.row_version,
        view.updated_at == record.updated_at,
{
    AiProviderProfileView {
        id: record.id,
        scope_kind: record.scope_kind.clone(),
        scope_id: record.scope_id.clone(),
        tenant_id: clone_text_option(&record.tenant_id),
        provider_kind: record.provider_kind.clone(),
        display_name: record.display_name.clone(),
        base_url: clone_text_option(&record.base_url),
        credential_configured: record.credential_reference.is_some(),
        enabled: record.enabled,
        row_version: record.row_version,
        updated_at: record.updated_at,
    }
}

/// Whether protection is usable: the policy is ready and its migration done.
pub open spec fn protection_ready(record: AiContentProtectionPolicyRecord) -> bool {
    record.ready && record.migration_state@ == "ready"@
}

/// The protection configuration as callers see it.
pub fn content_policy_view(record: &AiContentProtectionPolicyRecord) -> (view:
    AiContentProtectionPolicyView)
    ensures
        view.scope_kind == record.scope_kind,
        view.scope_id == record.scope_id,
        view.tenant_id == record.tenant_id,
        view.protection_mode == record.protection_mode,
        view.ready == protection_ready(*record),
        view.row_version == record.row_version,
        view.effective_at == record.effective_at,
{
    AiContentProtectionPolicyView {
        scope_kind: record.scope_kind.clone(),
        scope_id: record.scope_id.clone(),
        tenant_id: clone_text_option(&record.tenant_id),
        protection_mode: record.protection_mode.clone(),
        ready: record.ready && same_text(record.migration_state.as_str(), "ready"),
        row_version: record.row_version,
        effective_at: record.effective_at,
    }
}

/// The value, or zero where there is none.
pub open spec fn value_or_zero(value: Option<i64>) -> i64 {
    match value {
        Some(value) => value,
        None => 0,
    }
}

fn or_zero(value: Option<i64>) -> (result: i64)
    ensures
        result == value_or_zero(value),
{
    match value {
        Some(value) => value,
        None => 0,
    }
}

/// The retention configuration as callers see it.
pub fn retention_policy_view(record: &AiRetentionPolicyRecord) -> (view: AiRetentionPolicyView)
    ensures
        view.scope_kind == record.scope_kind,
        view.scope_id == record.scope_id,
        view.tenant_id == record.tenant_id,
        view.message_retention_seconds == record.message_retention_seconds,
        view.delta_retention_seconds == record.delta_retention_seconds,
        view.raw_payload_retention_seconds == record.raw_payload_retention_seconds,
        view.audit_retention_seconds == record.audit_retention_seconds,
        view.deleted_content_purge_seconds == record.deleted_content_purge_seconds,
        view.provider_file_delete_required == record.provider_file_delete_required,
        view.inbox_event_retention_seconds == value_or_zero(record.inbox_event_retention_seconds),
        view.inbox_minimum_events == value_or_zero(record.inbox_minimum_events),
        view.row_version == record.row_version,
        view.updated_at == record.updated_at,
{
    AiRetentionPolicyView {
        scope_kind: record.scope_kind.clone(),
        scope_id: record.scope_id.clone(),
        tenant_id: clone_text_option(&record.tenant_id),
        message_retention_seconds: record.message_retention_seconds,
        delta_retention_seconds: record.delta_retention_seconds,
        raw_payload_retention_seconds: record.raw_payload_retention_seconds,
        audit_retention_seconds: record.audit_retention_seconds,
        deleted_content_purge_seconds: record.deleted_content_purge_seconds,
        provider_file_delete_required: record.provider_file_delete_required,
        inbox_event_retention_seconds: or_zero(record.inbox_event_retention_seconds),
        inbox_minimum_events: or_zero(record.inbox_minimum_events),
        row_version: record.row_version,
        updated_at: record.updated_at,
    }
}

/// The scope that a profile belongs to.
pub open spec fn profile_scope_model(record: AiProviderProfileRecord) -> ScopeModel {
    ScopeModel {
        kind: record.scope_kind@,
        id: record.scope_id@,
        tenant_id: text_option(record.tenant_id),
    }
}

/// The scope that a profile belongs to.
pub fn profile_scope(record: &AiProviderProfileRecord) -> (scope: AiScope)
    ensures
        scope@ == profile_scope_model(*record),
{
    AiScope {
        kind: record.scope_kind.clone(),
        id: record.scope_id.clone(),
        tenant_id: clone_text_option(&record.tenant_id),
    }
}

/// Why a scope may not be configured or read.
pub open spec fn access_refusal(scope: ScopeModel, allowed: bool) -> Option<ErrorModel> {
    if !valid_scope(scope) {
        Some(ErrorModel::InvalidInput("invalid AI scope"@))
    } else if !allowed {
        Some(ErrorModel::Forbidden)
    } else {
        None
    }
}

/// Accepts a valid scope that the access policy allows.
pub fn require_access(scope: &AiScope, allowed: bool) -> (result: Result<(), AiError>)
    ensures
        refusal(result) == access_refusal(scope@, allowed),
{
    match validate_scope(scope) {
        Ok(()) => {},
        Err(error) => return Err(error),
    }
    if allowed {
        Ok(())
    } else {
        Err(AiError::Forbidden)
    }
}

/// Accepts a user whose recent multi-factor proof was confirmed; a token never
/// has one.
pub fn require_recent_mfa(principal: &AuthPrincipal, confirmed: bool) -> (result: Result<
    (),
    AiError,
>)
    ensures
        outcome(result) == accepted_or(
            principal is User && confirmed,
            ErrorModel::RecentMfaRequired,
        ),
{
    match principal {
        AuthPrincipal::User { .. } => {
            if confirmed {
                Ok(())
            } else {
                Err(AiError::RecentMfaRequired)
            }
        },
        AuthPrincipal::ApiToken { .. } => Err(AiError::RecentMfaRequired),
    }
}

/// Most profiles that one scope may hold.
pub const MAXIMUM_PROFILES: usize = 100;

/// The profiles of a scope without their credential references; a scope beyond
/// the bound is refused.
pub fn provider_profiles(rows: &Vec<AiProviderProfileRecord>) -> (result: Result<
    Vec<AiProviderProfileView>,
    AiError,
>)
    ensures
        match result {
            Ok(views) => {
                &&& rows@.len() <= MAXIMUM_PROFILES
                &&& views@.len() == rows@.len()
                &&& forall|i: int|
                    0 <= i < rows@.len() ==> {
                        &&& (#[trigger] views@[i]).id == rows@[i].id
                        &&& views@[i].scope_kind == rows@[i].scope_kind
                        &&& views@[i].scope_id == rows@[i].scope_id
                        &&& views@[i].tenant_id == rows@[i].tenant_id
                        &&& views@[i].provider_kind == rows@[i].provider_kind
                        &&& views@[i].display_name == rows@[i].display_name
                        &&& views@[i].base_url == rows@[i].base_url
                        &&& views@[i].credential_configured == (rows@[i].credential_reference
                            is Some)
                        &&& views@[i].enabled == rows@[i].enabled
                        &&& views@[i].row_version == rows@[i].row_version
                        &&& views@[i].updated_at == rows@[i].updated_at
                    }
            },
            Err(error) => rows@.len() > MAXIMUM_PROFILES && error@
                == ErrorModel::InvalidConfiguration(
                "provider profile scope exceeds the bounded limit"@,
            ),
        },
{
    if rows.len() > MAXIMUM_PROFILES {
        return Err(invalid_configuration("provider profile scope exceeds the bounded limit"));
    }
    let mut views: Vec<AiProviderProfileView> = Vec::new();
    let mut i: usize = 0;
    while i < rows.len()
        invariant
            i <= rows@.len(),
            views@.len() == i,
            forall|k: int|
                0 <= k < i ==> {
                    &&& (#[trigger] views@[k]).id == rows@[k].id
                    &&& views@[k].scope_kind == rows@[k].scope_kind
                    &&& views@[k].scope_id == rows@[k].scope_id
                    &&& views@[k].tenant_id == rows@[k].tenant_id
                    &&& views@[k].provider_kind == rows@[k].provider_kind
                    &&& views@[k].display_name == rows@[k].display_name
                    &&& views@[k].base_url == rows@[k].base_url
                    &&& views@[k].credential_configured == (rows@[k].credential_reference is Some)
                    &&& views@[k].enabled == rows@[k].enabled
                    &&& views@[k].row_version == rows@[k].row_version
                    &&& views@[k].updated_at == rows@[k].updated_at
                },
        decreases rows@.len() - i,
    {
        views.push(provider_view(&rows[i]));
        i += 1;
    }
    Ok(views)
}

/// The trimmed display name; refused where it is empty or longer than 200
/// bytes.
pub fn provider_display_name(value: &str) -> (result: Result<String, AiError>)
    ensures
        match result {
            Ok(name) => name@ == trimmed(value@) && 0 < trimmed(value@).len() && byte_len(
                trimmed(value@),
            ) <= 200,
            Err(error) => (trimmed(value@).len() == 0 || byte_len(trimmed(value@)) > 200) && error@
                == ErrorModel::InvalidInput("invalid provider display name"@),
        },
{
    let name = trim(value);
    if name.is_empty() || text_len(name) > 200 {
        return Err(invalid_input("invalid provider display name"));
    }
    Ok(name.to_owned())
}

/// The parts of a parsed URL that decide whether it is a safe endpoint.
#[derive(Debug, PartialEq, Eq)]
pub struct ParsedUrl {
    pub scheme: String,
    pub host: Option<String>,
    pub username: String,
    pub password: Option<String>,
    pub query: Option<String>,
    pub fragment: Option<String>,
    pub text: String,
}

/// Mathematical model of [`ParsedUrl`].
pub struct UrlModel {
    pub scheme: Seq<char>,
    pub host: Option<Seq<char>>,
    pub username: Seq<char>,
    pub password: Option<Seq<char>>,
    pub query: Option<Seq<char>>,
    pub fragment: Option<Seq<char>>,
    pub text: Seq<char>,
}

impl View for ParsedUrl {
    type V = UrlModel;

    open spec fn view(&self) -> UrlModel {
        UrlModel {
            scheme: self.scheme@,
            host: text_option(self.host),
            username: self.username@,
            password: text_option(self.password),
            query: text_option(self.query),
            fragment: text_option(self.fragment),
            text: self.text@,
        }
    }
}

/// What parsing a URL gives.
pub uninterp spec fn parsed_url(text: Seq<char>) -> Option<UrlModel>;

/// Model of an optional parsed URL.
pub open spec fn url_option(url: Option<ParsedUrl>) -> Option<UrlModel> {
    match url {
        Some(url) => Some(url@),
        None => None,
    }
}

/// Parses an absolute URL (`url::Url::parse`) and hands out its parts and its
/// serialization. The result is named as a function of the text.
#[verifier::external_body]
pub(crate) fn parse_url(text: &str) -> (url: Option<ParsedUrl>)
    ensures
        url_option(url) == parsed_url(text@),
{
    let url = url::Url::parse(text).ok()?;
    Some(
        ParsedUrl {
            scheme: url.scheme().to_owned(),
            host: url.host_str().map(str::to_owned),
            username: url.username().to_owned(),
            password: url.password().map(str::to_owned),
            query: url.query().map(str::to_owned),
            fragment: url.fragment().map(str::to_owned),
            text: url.to_string(),
        },
    )
}

/// Endpoints over HTTP with a host and without credentials, query, or
/// fragment.
pub open spec fn safe_endpoint(url: UrlModel) -> bool {
    &&& url.scheme == "http"@ || url.scheme == "https"@
    &&& url.host is Some
    &&& url.username.len() == 0
    &&& url.password is None
    &&& url.query is None
    &&& url.fragment is None
}

/// The serialization of a safe endpoint.
pub fn check_endpoint(url: &Option<ParsedUrl>) -> (result: Result<String, AiError>)
    ensures
        match result {
            Ok(endpoint) => url matches Some(url) && safe_endpoint(url@) && endpoint@ == url@.text,
            Err(error) => error@ == match url {
                None => ErrorModel::InvalidInput("invalid provider endpoint"@),
                Some(url) => ErrorModel::InvalidInput("unsafe provider endpoint"@),
            } && (url matches Some(url) ==> !safe_endpoint(url@)),
        },
{
    match url {
        None => Err(invalid_input("invalid provider endpoint")),
        Some(url) => {
            if (same_text(url.scheme.as_str(), "http") || same_text(url.scheme.as_str(), "https"))
                && url.host.is_some() && url.username.as_str().is_empty() && url.password.is_none()
                && url.query.is_none() && url.fragment.is_none() {
                Ok(url.text.clone())
            } else {
                Err(invalid_input("unsafe provider endpoint"))
            }
        },
    }
}

/// Provider families whose endpoint is configured rather than fixed.
pub open spec fn endpoint_configurable(kind: ProviderKind) -> bool {
    kind is Ollama || kind is OpenAiCompatible
}

/// Why an endpoint is refused.
pub open spec fn endpoint_refusal(
    kind: ProviderKind,
    base_url: Option<Seq<char>>,
) -> Option<ErrorModel> {
    if !endpoint_configurable(kind) {
        if base_url is None {
            None
        } else {
            Some(ErrorModel::InvalidInput("native provider endpoints are deployment-fixed"@))
        }
    } else if base_url is None || trimmed(base_url->0).len() == 0 {
        Some(ErrorModel::InvalidInput("provider endpoint is required"@))
    } else {
        match parsed_url(trimmed(base_url->0)) {
            None => Some(ErrorModel::InvalidInput("invalid provider endpoint"@)),
            Some(url) => if safe_endpoint(url) {
                None
            } else {
                Some(ErrorModel::InvalidInput("unsafe provider endpoint"@))
            },
        }
    }
}

/// The normalized endpoint of a profile: none for families with a fixed
/// endpoint, the serialization of a safe endpoint otherwise.
pub fn normalize_endpoint(kind: ProviderKind, base_url: &Option<String>) -> (result: Result<
    Option<String>,
    AiError,
>)
    ensures
        refusal(result) == endpoint_refusal(kind, text_option(*base_url)),
        result matches Ok(endpoint) ==> text_option(endpoint) == if endpoint_configurable(kind) {
            Some(parsed_url(trimmed(text_option(*base_url)->0))->0.text)
        } else {
            None
        },
{
    let configurable: bool = match kind {
        ProviderKind::Ollama | ProviderKind::OpenAiCompatible => true,
        _ => false,
    };
    if !configurable {
        return if base_url.is_none() {
            Ok(None)
        } else {
            Err(invalid_input("native provider endpoints are deployment-fixed"))
        };
    }
    let raw: &str = match base_url {
        Some(value) => trim(value.as_str()),
        None => return Err(invalid_input("provider endpoint is required")),
    };
    if raw.is_empty() {
        return Err(invalid_input("provider endpoint is required"));
    }
    let url = parse_url(raw);
    match check_endpoint(&url) {
        Ok(endpoint) => Ok(Some(endpoint)),
        Err(error) => Err(error),
    }
}

/// Persisted spelling of a protection mode.
pub open spec fn protection_mode_text(mode: AiContentProtectionMode) -> Seq<char> {
    match mode {
        AiContentProtectionMode::DatabaseManaged => "database_managed"@,
        AiContentProtectionMode::ApplicationEncrypted => "application_encrypted"@,
    }
}

/// The protection mode with the given spelling.
pub open spec fn protection_mode_of(value: Seq<char>) -> Option<AiContentProtectionMode> {
    if value == "database_managed"@ {
        Some(AiContentProtectionMode::DatabaseManaged)
    } else if value == "application_encrypted"@ {
        Some(AiContentProtectionMode::ApplicationEncrypted)
    } else {
        None
    }
}

/// Persisted spelling of a protection mode.
pub fn protection_mode_value(mode: AiContentProtectionMode) -> (text: &'static str)
    ensures
        text@ == protection_mode_text(mode),
{
    match mode {
        AiContentProtectionMode::DatabaseManaged => "database_managed",
        AiContentProtectionMode::ApplicationEncrypted => "application_encrypted",
    }
}

/// Reads a persisted protection mode.
pub fn parse_protection_mode(value: &str) -> (result: Result<AiContentProtectionMode, AiError>)
    ensures
        match result {
            Ok(mode) => protection_mode_of(value@) == Some(mode),
            Err(error) => protection_mode_of(value@) is None && error@
                == ErrorModel::InvalidConfiguration("unknown content-protection mode"@),
        },
{
    if same_text(value, "database_managed") {
        Ok(AiContentProtectionMode::DatabaseManaged)
    } else if same_text(value, "application_encrypted") {
        Ok(AiContentProtectionMode::ApplicationEncrypted)
    } else {
        Err(invalid_configuration("unknown content-protection mode"))
    }
}

/// Every protection mode survives being persisted and read back.
pub proof fn protection_mode_round_trip(mode: AiContentProtectionMode)
    ensures
        protection_mode_of(protection_mode_text(mode)) == Some(mode),
{
    reveal_strlit("database_managed");
    reveal_strlit("application_encrypted");
    assert("database_managed"@.len() == 16 && "application_encrypted"@.len() == 21);
}

/// Values that setting a protection policy writes.
#[derive(Debug, PartialEq, Eq)]
pub struct ContentPolicyValues {
    pub protection_mode: String,
    pub key_policy_reference: Option<String>,
    pub migration_state: String,
    pub ready: bool,
    pub effective_at: i64,
}

/// The values of a new protection policy: application encryption needs a key
/// policy and starts pending, database management takes none and is ready at
/// once.
pub fn content_policy_values(
    mode: AiContentProtectionMode,
    key_policy_reference: Option<String>,
    second: i64,
) -> (result: Result<ContentPolicyValues, AiError>)
    ensures
        match result {
            Ok(values) => {
                &&& (mode is ApplicationEncrypted) == (key_policy_reference is Some)
                &&& values.protection_mode@ == protection_mode_text(mode)
                &&& values.key_policy_reference == key_policy_reference
                &&& values.ready == (mode is DatabaseManaged)
                &&& values.migration_state@ == if mode is DatabaseManaged {
                    "ready"@
                } else {
                    "pending"@
                }
                &&& values.effective_at == second
            },
            Err(error) => (mode is ApplicationEncrypted) != (key_policy_reference is Some) && error@
                == ErrorModel::InvalidInput("content-protection key policy does not match mode"@),
        },
{
    let ready: bool = match mode {
        AiContentProtectionMode::DatabaseManaged => true,
        AiContentProtectionMode::ApplicationEncrypted => false,
    };
    if ready == key_policy_reference.is_some() {
        return Err(invalid_input("content-protection key policy does not match mode"));
    }
    let migration_state = if ready {
        "ready"
    } else {
        "pending"
    };
    Ok(
        ContentPolicyValues {
            protection_mode: protection_mode_value(mode).to_owned(),
            key_policy_reference,
            migration_state: migration_state.to_owned(),
            ready,
            effective_at: second,
        },
    )
}

/// Requested retention configuration.
#[derive(Debug, PartialEq, Eq)]
pub struct SetAiRetentionPolicyInput {
    pub scope: AiScope,
    pub message_retention_seconds: Option<i64>,
    pub delta_retention_seconds: i64,
    pub raw_payload_retention_seconds: i64,
    pub audit_retention_seconds: i64,
    pub deleted_content_purge_seconds: i64,
    pub provider_file_delete_required: bool,
    pub inbox_event_retention_seconds: i64,
    pub inbox_minimum_events: i64,
    pub expected_version: Option<i64>,
}

/// Durations between one minute and ten years.
pub open spec fn retention_seconds(seconds: i64) -> bool {
    MINIMUM_RETENTION_SECONDS <= seconds <= MAXIMUM_RETENTION_SECONDS
}

/// Requests whose durations and inbox minimum are inside the configurable
/// range.
pub open spec fn retention_input_valid(input: SetAiRetentionPolicyInput) -> bool {
    &&& retention_seconds(input.delta_retention_seconds)
    &&& retention_seconds(input.raw_payload_retention_seconds)
    &&& retention_seconds(input.audit_retention_seconds)
    &&& retention_seconds(input.deleted_content_purge_seconds)
    &&& retention_seconds(input.inbox_event_retention_seconds)
    &&& input.message_retention_seconds matches Some(seconds) ==> retention_seconds(seconds)
    &&& 1 <= input.inbox_minimum_events <= 100_000
}

fn is_retention_seconds(seconds: i64) -> (result: bool)
    ensures
        result == retention_seconds(seconds),
{
    MINIMUM_RETENTION_SECONDS <= seconds && seconds <= MAXIMUM_RETENTION_SECONDS
}

/// Accepts exactly the valid retention requests.
pub fn validate_retention_input(input: &SetAiRetentionPolicyInput) -> (result: Result<(), AiError>)
    ensures
        outcome(result) == accepted_or(
            retention_input_valid(*input),
            ErrorModel::InvalidInput("invalid AI retention policy bounds"@),
        ),
{
    let messages_valid: bool = match input.message_retention_seconds {
        Some(seconds) => is_retention_seconds(seconds),
        None => true,
    };
    if is_retention_seconds(input.delta_retention_seconds) && is_retention_seconds(
        input.raw_payload_retention_seconds,
    ) && is_retention_seconds(input.audit_retention_seconds) && is_retention_seconds(
        input.deleted_content_purge_seconds,
    ) && is_retention_seconds(input.inbox_event_retention_seconds) && messages_valid && 1
        <= input.inbox_minimum_events && input.inbox_minimum_events <= 100_000 {
        Ok(())
    } else {
        Err(invalid_input("invalid AI retention policy bounds"))
    }
}

/// The one protection policy of a scope; more than one is refused.
pub fn only_content_policy(rows: &Vec<AiContentProtectionPolicyRecord>) -> (result: Result<
    Option<usize>,
    AiError,
>)
    ensures
        match result {
            Ok(None) => rows@.len() == 0,
            Ok(Some(position)) => rows@.len() == 1 && position == 0,
            Err(error) => rows@.len() > 1 && error@ == ErrorModel::InvalidConfiguration(
                "multiple content-protection policies exist for one scope"@,
            ),
        },
{
    if rows.len() > 1 {
        return Err(
            invalid_configuration("multiple content-protection policies exist for one scope"),
        );
    }
    if rows.len() == 1 {
        Ok(Some(0))
    } else {
        Ok(None)
    }
}

/// The one retention policy of a scope; more than one is refused, and so is a
/// policy whose inbox bounds are not configured yet.
pub fn only_retention_policy(rows: &Vec<AiRetentionPolicyRecord>) -> (result: Result<
    Option<usize>,
    AiError,
>)
    ensures
        refusal(result) == if rows@.len() > 1 {
            Some(
                ErrorModel::InvalidConfiguration("multiple retention policies exist for one scope"@),
            )
        } else if rows@.len() == 1 && (rows@[0].inbox_event_retention_seconds is None
            || rows@[0].inbox_minimum_events is None) {
            Some(ErrorModel::RuntimeNotReady)
        } else {
            None
        },
        result matches Ok(position) ==> position == if rows@.len() == 1 {
            Some(0usize)
        } else {
            None
        },
{
    if rows.len() > 1 {
        return Err(invalid_configuration("multiple retention policies exist for one scope"));
    }
    if rows.len() == 1 {
        if rows[0].inbox_event_retention_seconds.is_none() || rows[0].inbox_minimum_events.is_none() {
            return Err(AiError::RuntimeNotReady);
        }
        Ok(Some(0))
    } else {
        Ok(None)
    }
}

/// Why a stored protection policy cannot be resolved.
pub open spec fn resolve_refusal(row: AiContentProtectionPolicyRecord) -> Option<ErrorModel> {
    if protection_mode_of(row.protection_mode@) is None {
        Some(ErrorModel::InvalidConfiguration("unknown content-protection mode"@))
    } else if row.row_version < 0 {
        Some(ErrorModel::PersistenceFailed)
    } else {
        None
    }
}

/// The protection policy that a row configures for a scope.
pub fn resolve_content_policy(row: &AiContentProtectionPolicyRecord, scope: &AiScope) -> (result:
    Result<AiContentProtectionPolicy, AiError>)
    ensures
        refusal(result) == resolve_refusal(*row),
        result matches Ok(policy) ==> {
            &&& policy.scope == *scope
            &&& Some(policy.mode) == protection_mode_of(row.protection_mode@)
            &&& policy.key_policy_reference == row.key_policy_reference
            &&& policy.version == row.row_version
            &&& policy.ready == protection_ready(*row)
        },
{
    let mode: AiContentProtectionMode = match parse_protection_mode(row.protection_mode.as_str()) {
        Ok(mode) => mode,
        Err(error) => return Err(error),
    };
    if row.row_version < 0 {
        return Err(AiError::PersistenceFailed);
    }
    Ok(
        AiContentProtectionPolicy {
            scope: scope.clone(),
            mode,
            key_policy_reference: clone_text_option(&row.key_policy_reference),
            version: row.row_version as u64,
            ready: row.ready && same_text(row.migration_state.as_str(), "ready"),
        },
    )
}

/// Configuration operations that leave an audit event.
#[derive(Clone, Copy, Debug, PartialEq, Eq, Structural)]
pub enum AuditedOperation {
    UpsertProfile,
    SetCredential,
    RemoveCredential,
    SetContentProtection,
    SetRetention,
}

/// Action, resource kind, and reason that an operation is audited with.
pub open spec fn audit_texts(operation: AuditedOperation) -> (Seq<char>, Seq<char>, Seq<char>) {
    match operation {
        AuditedOperation::UpsertProfile => (
            "ai.provider_profile.upsert"@,
            "provider_profile"@,
            "configuration_updated"@,
        ),
        AuditedOperation::SetCredential => (
            "ai.provider_credential.set"@,
            "provider_profile"@,
            "credential_rotated"@,
        ),
        AuditedOperation::RemoveCredential => (
            "ai.provider_credential.remove"@,
            "provider_profile"@,
            "credential_removed"@,
        ),
        AuditedOperation::SetContentProtection => (
            "ai.content_protection.set"@,
            "content_protection_policy"@,
            "content_protection_updated"@,
        ),
        AuditedOperation::SetRetention => (
            "ai.retention_policy.set"@,
            "retention_policy"@,
            "retention_policy_updated"@,
        ),
    }
}

/// Whether the event records the operation. Only retention changes record the
/// resulting policy version.
pub open spec fn audit_records(
    fact: AuditFact,
    principal: AuthPrincipal,
    operation: AuditedOperation,
    resource_id: Uuid,
    row_version: i64,
) -> bool {
    &&& fact.actor_principal_kind@ == principal_kind_text(principal)
    &&& fact.actor_subject@ == principal_subject_text(principal)
    &&& fact.action@ == audit_texts(operation).0
    &&& fact.resource_kind@ == audit_texts(operation).1
    &&& fact.resource_reference@ == uuid_text(resource_id)
    &&& fact.outcome@ == "allowed"@
    &&& fact.reason_code@ == audit_texts(operation).2
    &&& text_option(fact.policy_version) == if operation is SetRetention {
        Some(integer_text(row_version as int))
    } else {
        None
    }
}

/// The audit event of an applied configuration operation.
pub fn audit_fact(
    principal: &AuthPrincipal,
    operation: AuditedOperation,
    resource_id: Uuid,
    row_version: i64,
) -> (fact: AuditFact)
    ensures
        audit_records(fact, *principal, operation, resource_id, row_version),
{
    let (kind, subject) = principal_identity(principal);
    let (action, resource_kind, reason) = match operation {
        AuditedOperation::UpsertProfile => (
            "ai.provider_profile.upsert",
            "provider_profile",
            "configuration_updated",
        ),
        AuditedOperation::SetCredential => (
            "ai.provider_credential.set",
            "provider_profile",
            "credential_rotated",
        ),
        AuditedOperation::RemoveCredential => (
            "ai.provider_credential.remove",
            "provider_profile",
            "credential_removed",
        ),
        AuditedOperation::SetContentProtection => (
            "ai.content_protection.set",
            "content_protection_policy",
            "content_protection_updated",
        ),
        AuditedOperation::SetRetention => (
            "ai.retention_policy.set",
            "retention_policy",
            "retention_policy_updated",
        ),
    };
    let policy_version: Option<String> = match operation {
        AuditedOperation::SetRetention => Some(
            integer_to_string(row_version),
        ),
        _ => None,
    };
    AuditFact {
        actor_principal_kind: kind,
        actor_subject: subject,
        action: action.to_owned(),
        resource_kind: resource_kind.to_owned(),
        resource_reference: uuid_to_string(resource_id),
        outcome: "allowed".to_owned(),
        reason_code: reason.to_owned(),
        policy_version,
    }
}

/// A scope is configured or read exactly where it is valid and allowed; an
/// invalid one is refused as such.
pub proof fn access_needs_a_valid_allowed_scope(scope: ScopeModel, allowed: bool)
    ensures
        access_refusal(scope, allowed) is None <==> valid_scope(scope) && allowed,
        valid_scope(scope) && !allowed ==> access_refusal(scope, allowed) == Some(
            ErrorModel::Forbidden,
        ),
        !valid_scope(scope) ==> access_refusal(scope, allowed) == Some(
            ErrorModel::InvalidInput("invalid AI scope"@),
        ),
{
}

/// A policy is usable exactly where it is ready and no migration is under way.
pub proof fn usable_protection_is_migrated(record: AiContentProtectionPolicyRecord)
    ensures
        protection_ready(record) <==> record.ready && record.migration_state@ == "ready"@,
{
}

/// A profile's scope is what its columns say, and a missing bound shows as
/// zero.
pub proof fn profiles_name_their_scope(record: AiProviderProfileRecord, value: Option<i64>)
    ensures
        profile_scope_model(record).kind == record.scope_kind@,
        profile_scope_model(record).id == record.scope_id@,
        profile_scope_model(record).tenant_id == text_option(record.tenant_id),
        value is Some ==> value_or_zero(value) == value->0,
        value is None ==> value_or_zero(value) == 0,
{
}

/// An endpoint is accepted exactly where the family has none to configure and
/// none was given, or where it is a plain web address: with a host, and without
/// credentials, query, or fragment.
pub proof fn endpoints_are_plain_web_addresses(kind: ProviderKind, base_url: Option<Seq<char>>)
    ensures
        endpoint_refusal(kind, base_url) is None <==> if kind is Ollama || kind
            is OpenAiCompatible {
            &&& base_url is Some
            &&& trimmed(base_url->0).len() > 0
            &&& parsed_url(trimmed(base_url->0)) is Some
            &&& {
                let url = parsed_url(trimmed(base_url->0))->0;
                &&& url.scheme == "http"@ || url.scheme == "https"@
                &&& url.host is Some
                &&& url.username.len() == 0 && url.password is None
                &&& url.query is None && url.fragment is None
            }
        } else {
            base_url is None
        },
        endpoint_configurable(kind) <==> kind is Ollama || kind is OpenAiCompatible,
{
}

/// The spellings of protection modes.
pub proof fn protection_modes_are_spelled_so(value: Seq<char>)
    ensures
        protection_mode_of(value) == Some(AiContentProtectionMode::DatabaseManaged) <==> value
            == "database_managed"@,
        protection_mode_of(value) == Some(AiContentProtectionMode::ApplicationEncrypted) <==> value
            == "application_encrypted"@,
{
    protection_mode_round_trip(AiContentProtectionMode::DatabaseManaged);
    protection_mode_round_trip(AiContentProtectionMode::ApplicationEncrypted);
}

/// A retention request is valid exactly where every duration is between one
/// minute and ten years, and the inbox keeps between one and a hundred thousand
/// events.
pub proof fn retention_requests_are_bounded(input: SetAiRetentionPolicyInput)
    ensures
        retention_input_valid(input) <==> {
            &&& 60 <= input.delta_retention_seconds <= 315_576_000
            &&& 60 <= input.raw_payload_retention_seconds <= 315_576_000
            &&& 60 <= input.audit_retention_seconds <= 315_576_000
            &&& 60 <= input.deleted_content_purge_seconds <= 315_576_000
            &&& 60 <= input.inbox_event_retention_seconds <= 315_576_000
            &&& input.message_retention_seconds is Some ==> 60
                <= input.message_retention_seconds->0 <= 315_576_000
            &&& 1 <= input.inbox_minimum_events <= 100_000
        },
{
}

/// A stored policy is resolved exactly where its mode is known and its version
/// is not negative.
pub proof fn known_policies_are_resolved(row: AiContentProtectionPolicyRecord)
    ensures
        resolve_refusal(row) is None <==> (row.protection_mode@ == "database_managed"@
            || row.protection_mode@ == "application_encrypted"@) && row.row_version >= 0,
{
}

/// Each operation is audited as itself: under its actor, on its resource, and
/// with a reason of its own; a retention change alone names its version.
pub proof fn operations_are_audited_as_themselves(
    fact: AuditFact,
    principal: AuthPrincipal,
    operation: AuditedOperation,
    resource_id: Uuid,
    row_version: i64,
)
    requires
        audit_records(fact, principal, operation, resource_id, row_version),
    ensures
        fact.actor_principal_kind@ == principal_kind_text(principal),
        fact.actor_subject@ == principal_subject_text(principal),
        fact.resource_reference@ == uuid_text(resource_id),
        fact.outcome@ == "allowed"@,
        operation is UpsertProfile ==> fact.action@ == "ai.provider_profile.upsert"@
            && fact.resource_kind@ == "provider_profile"@ && fact.reason_code@
            == "configuration_updated"@,
        operation is SetCredential ==> fact.action@ == "ai.provider_credential.set"@
            && fact.resource_kind@ == "provider_profile"@ && fact.reason_code@
            == "credential_rotated"@,
        operation is RemoveCredential ==> fact.action@ == "ai.provider_credential.remove"@
            && fact.resource_kind@ == "provider_profile"@ && fact.reason_code@
            == "credential_removed"@,
        operation is SetContentProtection ==> fact.action@ == "ai.content_protection.set"@
            && fact.resource_kind@ == "content_protection_policy"@ && fact.reason_code@
            == "content_protection_updated"@,
        operation is SetRetention ==> fact.action@ == "ai.retention_policy.set"@
            && fact.resource_kind@ == "retention_policy"@ && fact.reason_code@
            == "retention_policy_updated"@,
        fact.policy_version is Some <==> operation is SetRetention,
        operation is SetRetention ==> fact.policy_version->0@ == integer_text(row_version as int),
{
}

/// An endpoint is refused by name: one for a family whose endpoint is fixed,
/// none for a family that needs one, one that is no address, and one that is
/// not safe.
pub proof fn refused_endpoints_say_why(kind: ProviderKind, base_url: Option<Seq<char>>)
    ensures
        ({
            let refusal = endpoint_refusal(kind, base_url);
            let needed = kind is Ollama || kind is OpenAiCompatible;
            let given = base_url is Some && trimmed(base_url->0).len() > 0;
            let url = parsed_url(trimmed(base_url->0));
            &&& !needed && base_url is Some ==> refusal == Some(
                ErrorModel::InvalidInput("native provider endpoints are deployment-fixed"@),
            )
            &&& needed && !given ==> refusal == Some(
                ErrorModel::InvalidInput("provider endpoint is required"@),
            )
            &&& needed && given && url is None ==> refusal == Some(
                ErrorModel::InvalidInput("invalid provider endpoint"@),
            )
            &&& needed && given && url is Some && refusal is Some ==> refusal == Some(
                ErrorModel::InvalidInput("unsafe provider endpoint"@),
            )
        }),
{
}

/// A protection policy of an unknown mode is a matter of configuration; one
/// with a negative version is a fault of the store.
pub proof fn unresolved_policies_say_why(row: AiContentProtectionPolicyRecord)
    ensures
        protection_mode_of(row.protection_mode@) is None ==> resolve_refusal(row) == Some(
            ErrorModel::InvalidConfiguration("unknown content-protection mode"@),
        ),
        protection_mode_of(row.protection_mode@) is Some && row.row_version < 0
            ==> resolve_refusal(row) == Some(ErrorModel::PersistenceFailed),
        protection_mode_of(row.protection_mode@) is Some && row.row_version >= 0
            ==> resolve_refusal(row) is None,
{
}

} // verus!
