//! Scopes, principals, and the session ownership rules that bind them.

use crate::clock::{Duration, UtcTime, fresh_within, is_fresh_within};
use crate::error::{AiError, ErrorModel, accepted_or, invalid_input, outcome};
use crate::records::AiSessionRecord;
use crate::text::{
    blank, bounded_text, byte_len, clone_text_option, is_bounded_text, join, same_text,
    same_text_option, text_option,
};
use vstd::prelude::*;

verus! {

/// Application-defined scope that owns configuration and content.
#[derive(Debug, PartialEq, Eq)]
pub struct AiScope {
    pub kind: String,
    pub id: String,
    pub tenant_id: Option<String>,
}

/// Mathematical model of [`AiScope`].
pub struct ScopeModel {
    pub kind: Seq<char>,
    pub id: Seq<char>,
    pub tenant_id: Option<Seq<char>>,
}

impl View for AiScope {
    type V = ScopeModel;

    open spec fn view(&self) -> ScopeModel {
        ScopeModel { kind: self.kind@, id: self.id@, tenant_id: text_option(self.tenant_id) }
    }
}

impl Clone for AiScope {
    fn clone(&self) -> (result: Self)
        ensures
            result == *self,
    {
        AiScope {
            kind: self.kind.clone(),
            id: self.id.clone(),
            tenant_id: clone_text_option(&self.tenant_id),
        }
    }
}

impl AiScope {
    /// A scope without a tenant.
    pub fn new(kind: &str, id: &str) -> (scope: AiScope)
        ensures
            scope@ == (ScopeModel { kind: kind@, id: id@, tenant_id: None }),
    {
        AiScope { kind: kind.to_owned(), id: id.to_owned(), tenant_id: None }
    }

    /// The same scope inside a tenant.
    pub fn with_tenant_id(self, tenant_id: &str) -> (scope: AiScope)
        ensures
            scope@ == (ScopeModel { tenant_id: Some(tenant_id@), ..self@ }),
    {
        AiScope { kind: self.kind, id: self.id, tenant_id: Some(tenant_id.to_owned()) }
    }
}

/// Whether two scopes are the same.
pub fn same_scope(left: &AiScope, right: &AiScope) -> (result: bool)
    ensures
        result == (left@ == right@),
{
    same_text(left.kind.as_str(), right.kind.as_str()) && same_text(
        left.id.as_str(),
        right.id.as_str(),
    ) && same_text_option(&left.tenant_id, &right.tenant_id)
}

/// Scopes with a bounded non-blank kind, identifier, and optional tenant.
pub open spec fn valid_scope(scope: ScopeModel) -> bool {
    &&& bounded_text(scope.kind, 128)
    &&& bounded_text(scope.id, 512)
    &&& scope.tenant_id matches Some(tenant) ==> bounded_text(tenant, 512)
}

/// Accepts exactly the valid scopes.
pub fn validate_scope(scope: &AiScope) -> (result: Result<(), AiError>)
    ensures
        outcome(result) == accepted_or(
            valid_scope(scope@),
            ErrorModel::InvalidInput("invalid AI scope"@),
        ),
{
    let tenant_valid: bool = match &scope.tenant_id {
        Some(tenant) => is_bounded_text(tenant.as_str(), 512),
        None => true,
    };
    if is_bounded_text(scope.kind.as_str(), 128) && is_bounded_text(scope.id.as_str(), 512)
        && tenant_valid {
        Ok(())
    } else {
        Err(invalid_input("invalid AI scope"))
    }
}

/// How a durable principal reference was issued.
#[derive(Debug, PartialEq, Eq)]
pub enum PrincipalReferenceKind {
    /// An interactive user session.
    UserSession,
    /// An API token of the named principal kind.
    ApiToken { principal_kind: String },
}

/// Safe durable reference to one principal.
#[derive(Debug, PartialEq, Eq)]
pub struct PrincipalReference {
    pub kind: PrincipalReferenceKind,
    pub subject: String,
    pub tenant_id: Option<String>,
    pub expires_at: Option<UtcTime>,
    /// Canonical encoding of the complete reference, credential fields included.
    pub encoding: String,
}

impl Clone for PrincipalReference {
    fn clone(&self) -> (result: Self)
        ensures
            result == *self,
    {
        PrincipalReference {
            kind: match &self.kind {
                PrincipalReferenceKind::UserSession => PrincipalReferenceKind::UserSession,
                PrincipalReferenceKind::ApiToken { principal_kind } => {
                    PrincipalReferenceKind::ApiToken { principal_kind: principal_kind.clone() }
                },
            },
            subject: self.subject.clone(),
            tenant_id: clone_text_option(&self.tenant_id),
            expires_at: self.expires_at,
            encoding: self.encoding.clone(),
        }
    }
}

/// Mathematical model of [`PrincipalReference`].
pub struct ReferenceModel {
    pub kind: Seq<char>,
    pub api_token: bool,
    pub subject: Seq<char>,
    pub tenant_id: Option<Seq<char>>,
    pub expires_at: Option<UtcTime>,
    pub encoding: Seq<char>,
}

/// Persisted spelling of a reference kind.
pub open spec fn reference_kind_text(kind: PrincipalReferenceKind) -> Seq<char> {
    match kind {
        PrincipalReferenceKind::UserSession => "user"@,
        PrincipalReferenceKind::ApiToken { principal_kind } => "api_token:"@ + principal_kind@,
    }
}

impl View for PrincipalReference {
    type V = ReferenceModel;

    open spec fn view(&self) -> ReferenceModel {
        ReferenceModel {
            kind: reference_kind_text(self.kind),
            api_token: self.kind is ApiToken,
            subject: self.subject@,
            tenant_id: text_option(self.tenant_id),
            expires_at: self.expires_at,
            encoding: self.encoding@,
        }
    }
}

/// Persisted spelling of the reference's kind.
pub fn principal_reference_kind(reference: &PrincipalReference) -> (kind: String)
    ensures
        kind@ == reference@.kind,
{
    match &reference.kind {
        PrincipalReferenceKind::UserSession => "user".to_owned(),
        PrincipalReferenceKind::ApiToken { principal_kind } => join(
            "api_token:",
            principal_kind.as_str(),
        ),
    }
}

/// Whether two references name the same principal through the same credential.
pub fn same_reference(left: &PrincipalReference, right: &PrincipalReference) -> (result: bool)
    ensures
        result == (left@ == right@),
{
    let left_kind = principal_reference_kind(left);
    let right_kind = principal_reference_kind(right);
    let left_token: bool = match left.kind {
        PrincipalReferenceKind::UserSession => false,
        PrincipalReferenceKind::ApiToken { .. } => true,
    };
    let right_token: bool = match right.kind {
        PrincipalReferenceKind::UserSession => false,
        PrincipalReferenceKind::ApiToken { .. } => true,
    };
    let same_expiry: bool = match (left.expires_at, right.expires_at) {
        (Some(left), Some(right)) => left.nanos == right.nanos,
        (None, None) => true,
        _ => false,
    };
    left_token == right_token && same_expiry && same_text(left_kind.as_str(), right_kind.as_str())
        && same_text(left.subject.as_str(), right.subject.as_str()) && same_text_option(
        &left.tenant_id,
        &right.tenant_id,
    ) && same_text(left.encoding.as_str(), right.encoding.as_str())
}

/// The authenticated principal behind a request.
#[derive(Debug, PartialEq, Eq)]
pub enum AuthPrincipal {
    /// An interactive user.
    User { subject: String },
    /// An API token acting for the named principal kind.
    ApiToken { principal_kind: String, subject: String },
}

/// Persisted spelling of the principal's kind.
pub open spec fn principal_kind_text(principal: AuthPrincipal) -> Seq<char> {
    match principal {
        AuthPrincipal::User { .. } => "user"@,
        AuthPrincipal::ApiToken { principal_kind, .. } => "api_token:"@ + principal_kind@,
    }
}

/// The principal's subject.
pub open spec fn principal_subject_text(principal: AuthPrincipal) -> Seq<char> {
    match principal {
        AuthPrincipal::User { subject } => subject@,
        AuthPrincipal::ApiToken { subject, .. } => subject@,
    }
}

/// Persisted kind and subject of a principal.
pub fn principal_identity(principal: &AuthPrincipal) -> (identity: (String, String))
    ensures
        identity.0@ == principal_kind_text(*principal),
        identity.1@ == principal_subject_text(*principal),
{
    match principal {
        AuthPrincipal::User { subject } => ("user".to_owned(), subject.clone()),
        AuthPrincipal::ApiToken { principal_kind, subject } => (
            join("api_token:", principal_kind.as_str()),
            subject.clone(),
        ),
    }
}

/// Persisted kind of a principal.
pub fn principal_kind(principal: &AuthPrincipal) -> (kind: String)
    ensures
        kind@ == principal_kind_text(*principal),
{
    principal_identity(principal).0
}

/// A principal that was resolved from its reference at a known instant.
#[derive(Debug, PartialEq, Eq)]
pub struct ResolvedPrincipal {
    pub reference: PrincipalReference,
    pub principal: AuthPrincipal,
    pub resolved_at: UtcTime,
}

impl ResolvedPrincipal {
    /// Resolution instants are calendar instants.
    pub open spec fn wf(self) -> bool {
        self.resolved_at.wf()
    }
}

/// Accepts exactly the principals that are fresh at `now`.
pub fn validate_fresh_principal(
    principal: &ResolvedPrincipal,
    now: UtcTime,
    maximum_age: Duration,
) -> (result: Result<(), AiError>)
    requires
        principal.wf(),
        now.wf(),
    ensures
        outcome(result) == accepted_or(
            fresh_within(
                principal.resolved_at,
                principal.reference.expires_at,
                now,
                maximum_age,
            ),
            ErrorModel::ReauthorizationFailed,
        ),
{
    if is_fresh_within(principal.resolved_at, principal.reference.expires_at, now, maximum_age) {
        Ok(())
    } else {
        Err(AiError::ReauthorizationFailed)
    }
}

/// Whether a tenant-bound reference agrees with the tenant of a scope; a
/// reference without a tenant agrees with every scope.
pub open spec fn tenant_agrees(
    reference: Option<Seq<char>>,
    scope: Option<Seq<char>>,
) -> bool {
    reference matches Some(tenant) ==> scope == Some(tenant)
}

/// Whether the reference's tenant agrees with the scope's tenant.
pub fn tenant_matches(reference: &Option<String>, scope: &Option<String>) -> (result: bool)
    ensures
        result == tenant_agrees(text_option(*reference), text_option(*scope)),
{
    match reference {
        Some(_) => same_text_option(reference, scope),
        None => true,
    }
}

/// The scope a session belongs to.
pub open spec fn session_scope_model(session: AiSessionRecord) -> ScopeModel {
    ScopeModel {
        kind: session.scope_kind@,
        id: session.scope_id@,
        tenant_id: text_option(session.tenant_id),
    }
}

/// The scope a session belongs to.
pub fn session_scope(session: &AiSessionRecord) -> (scope: AiScope)
    ensures
        scope@ == session_scope_model(*session),
        scope.kind == session.scope_kind,
        scope.id == session.scope_id,
        scope.tenant_id == session.tenant_id,
{
    AiScope {
        kind: session.scope_kind.clone(),
        id: session.scope_id.clone(),
        tenant_id: clone_text_option(&session.tenant_id),
    }
}

/// Whether the session is active, not deleted, and owned by the reference.
pub open spec fn session_owned(session: AiSessionRecord, reference: ReferenceModel) -> bool {
    &&& session.state@ == "active"@
    &&& session.deleted_at is None
    &&& session.owner_principal_kind@ == reference.kind
    &&& session.owner_subject@ == reference.subject
}

/// Whether the session is active, not deleted, and owned by the reference.
pub fn is_session_owned(session: &AiSessionRecord, reference: &PrincipalReference) -> (result: bool)
    ensures
        result == session_owned(*session, reference@),
{
    let expected_kind = principal_reference_kind(reference);
    same_text(session.state.as_str(), "active") && session.deleted_at.is_none() && same_text(
        session.owner_principal_kind.as_str(),
        expected_kind.as_str(),
    ) && same_text(session.owner_subject.as_str(), reference.subject.as_str())
}

/// Whether the session is owned by the reference, lies in exactly this scope,
/// and the reference's tenant agrees with the scope.
pub open spec fn session_in_scope(
    session: AiSessionRecord,
    reference: ReferenceModel,
    scope: ScopeModel,
) -> bool {
    &&& session_owned(session, reference)
    &&& session_scope_model(session) == scope
    &&& tenant_agrees(reference.tenant_id, scope.tenant_id)
}

/// Whether the session is owned by the reference and lies in exactly this scope.
pub fn is_session_in_scope(
    session: &AiSessionRecord,
    reference: &PrincipalReference,
    scope: &AiScope,
) -> (result: bool)
    ensures
        result == session_in_scope(*session, reference@, scope@),
{
    is_session_owned(session, reference) && same_text(
        session.scope_kind.as_str(),
        scope.kind.as_str(),
    ) && same_text(session.scope_id.as_str(), scope.id.as_str()) && same_text_option(
        &session.tenant_id,
        &scope.tenant_id,
    ) && tenant_matches(&reference.tenant_id, &scope.tenant_id)
}

/// A session admits exactly its owner, while it is active and not deleted, in
/// the scope it was opened in; and a reference that is bound to a tenant acts
/// in that tenant alone.
pub proof fn sessions_admit_their_owner_alone(
    session: AiSessionRecord,
    reference: PrincipalReference,
    scope: AiScope,
)
    ensures
        session_in_scope(session, reference@, scope@) <==> {
            &&& session.state@ == "active"@
            &&& session.deleted_at is None
            &&& session.owner_subject@ == reference.subject@
            &&& session.owner_principal_kind@ == match reference.kind {
                PrincipalReferenceKind::UserSession => "user"@,
                PrincipalReferenceKind::ApiToken { principal_kind } => "api_token:"@
                    + principal_kind@,
            }
            &&& session.scope_kind@ == scope.kind@
            &&& session.scope_id@ == scope.id@
            &&& text_option(session.tenant_id) == text_option(scope.tenant_id)
            &&& reference.tenant_id is None || scope.tenant_id is Some && reference.tenant_id->0@
                == scope.tenant_id->0@
        },
{
}

/// A scope is usable exactly where its kind, its identifier, and its tenant,
/// if it has one, are neither blank nor too long.
pub proof fn usable_scopes_are_bounded(scope: AiScope)
    ensures
        valid_scope(scope@) <==> {
            &&& !blank(scope.kind@) && byte_len(scope.kind@) <= 128
            &&& !blank(scope.id@) && byte_len(scope.id@) <= 512
            &&& scope.tenant_id is None || !blank(scope.tenant_id->0@) && byte_len(
                scope.tenant_id->0@,
            ) <= 512
        },
{
}

/// Two scopes are the same exactly where kind, identifier, and tenant agree.
pub proof fn scopes_agree_on_every_member(left: AiScope, right: AiScope)
    ensures
        left@ == right@ <==> left.kind@ == right.kind@ && left.id@ == right.id@ && (
        left.tenant_id is None <==> right.tenant_id is None) && (left.tenant_id is Some
            ==> left.tenant_id->0@ == right.tenant_id->0@),
{
}

/// References name the same principal only where the subject, the tenant, the
/// expiry, and the whole encoded credential agree.
pub proof fn same_references_agree(left: PrincipalReference, right: PrincipalReference)
    requires
        left@ == right@,
    ensures
        left.subject@ == right.subject@,
        left.encoding@ == right.encoding@,
        left.expires_at == right.expires_at,
        text_option(left.tenant_id) == text_option(right.tenant_id),
        left.kind is UserSession <==> right.kind is UserSession,
{
}

/// A principal is identified by what it is and by its own subject: a user as
/// such, a token by the kind that it acts for.
pub proof fn principals_are_named_by_their_subject(principal: AuthPrincipal)
    ensures
        principal matches AuthPrincipal::User { subject } ==> principal_subject_text(principal)
            == subject@ && principal_kind_text(principal) == "user"@,
        principal matches AuthPrincipal::ApiToken { principal_kind, subject }
            ==> principal_subject_text(principal) == subject@ && principal_kind_text(principal)
            == "api_token:"@ + principal_kind@,
{
}

} // verus!
