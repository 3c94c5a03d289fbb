//! Safe error vocabulary and the mapping from store failures into it.

use vstd::prelude::*;

verus! {

/// Redacted failure returned across the service boundary.
#[derive(Debug, PartialEq, Eq)]
pub enum AiError {
    /// Deployment or policy configuration cannot be used.
    InvalidConfiguration(String),
    /// Caller input was rejected.
    InvalidInput(String),
    /// The current principal may not perform the operation.
    Forbidden,
    /// The addressed resource does not exist for this principal.
    NotFound,
    /// A fence, version, or exact binding did not match.
    Conflict,
    /// No policy capacity is available.
    BudgetDenied,
    /// The exact transfer is not authorized.
    EgressDenied,
    /// The current principal could not be proven fresh.
    ReauthorizationFailed,
    /// A recent multi-factor proof is required.
    RecentMfaRequired,
    /// Required deployment state is not ready.
    RuntimeNotReady,
    /// Durable state is malformed or could not be written.
    PersistenceFailed,
    /// The provider could not complete the request.
    ProviderFailed,
}

/// Mathematical model of [`AiError`]: the variant with its message text.
pub enum ErrorModel {
    InvalidConfiguration(Seq<char>),
    InvalidInput(Seq<char>),
    Forbidden,
    NotFound,
    Conflict,
    BudgetDenied,
    EgressDenied,
    ReauthorizationFailed,
    RecentMfaRequired,
    RuntimeNotReady,
    PersistenceFailed,
    ProviderFailed,
}

impl View for AiError {
    type V = ErrorModel;

    open spec fn view(&self) -> ErrorModel {
        match self {
            AiError::InvalidConfiguration(message) => ErrorModel::InvalidConfiguration(message@),
            AiError::InvalidInput(message) => ErrorModel::InvalidInput(message@),
            AiError::Forbidden => ErrorModel::Forbidden,
            AiError::NotFound => ErrorModel::NotFound,
            AiError::Conflict => ErrorModel::Conflict,
            AiError::BudgetDenied => ErrorModel::BudgetDenied,
            AiError::EgressDenied => ErrorModel::EgressDenied,
            AiError::ReauthorizationFailed => ErrorModel::ReauthorizationFailed,
            AiError::RecentMfaRequired => ErrorModel::RecentMfaRequired,
            AiError::RuntimeNotReady => ErrorModel::RuntimeNotReady,
            AiError::PersistenceFailed => ErrorModel::PersistenceFailed,
            AiError::ProviderFailed => ErrorModel::ProviderFailed,
        }
    }
}

/// The result's model: the value itself, or the model of the error.
pub open spec fn outcome<T>(result: Result<T, AiError>) -> Result<T, ErrorModel> {
    match result {
        Ok(value) => Ok(value),
        Err(error) => Err(error@),
    }
}

/// The error's model, where the result is one.
pub open spec fn refusal<T>(result: Result<T, AiError>) -> Option<ErrorModel> {
    match result {
        Ok(_) => None,
        Err(error) => Some(error@),
    }
}

/// Succeeds exactly where `accepted` holds and fails with `error` elsewhere.
pub open spec fn accepted_or(accepted: bool, error: ErrorModel) -> Result<(), ErrorModel> {
    if accepted {
        Ok(())
    } else {
        Err(error)
    }
}

/// Builds an invalid-configuration error.
pub fn invalid_configuration(message: &str) -> (error: AiError)
    ensures
        error@ == ErrorModel::InvalidConfiguration(message@),
{
    AiError::InvalidConfiguration(message.to_owned())
}

/// Builds an invalid-input error.
pub fn invalid_input(message: &str) -> (error: AiError)
    ensures
        error@ == ErrorModel::InvalidInput(message@),
{
    AiError::InvalidInput(message.to_owned())
}

/// Public failure class reported by the durable store.
#[derive(Clone, Copy, Debug, PartialEq, Eq, Structural)]
pub enum OrmErrorCode {
    InvalidInput,
    CursorInvalid,
    PageLimitExceeded,
    Unauthenticated,
    Forbidden,
    NotFound,
    Conflict,
    ConstraintViolation,
    ServiceUnavailable,
    InternalError,
    AuthorizationMisconfigured,
}

/// What a store failure becomes at the service boundary.
pub open spec fn mapped_orm(code: OrmErrorCode, message: Seq<char>) -> ErrorModel {
    match code {
        OrmErrorCode::InvalidInput
        | OrmErrorCode::CursorInvalid
        | OrmErrorCode::PageLimitExceeded => ErrorModel::InvalidInput(message),
        OrmErrorCode::Unauthenticated | OrmErrorCode::Forbidden => ErrorModel::Forbidden,
        OrmErrorCode::NotFound => ErrorModel::NotFound,
        OrmErrorCode::Conflict | OrmErrorCode::ConstraintViolation => ErrorModel::Conflict,
        OrmErrorCode::ServiceUnavailable
        | OrmErrorCode::InternalError
        | OrmErrorCode::AuthorizationMisconfigured => ErrorModel::PersistenceFailed,
    }
}

/// Maps a store failure to a safe error.
pub fn map_orm(code: OrmErrorCode, message: &str) -> (error: AiError)
    ensures
        error@ == mapped_orm(code, message@),
{
    match code {
        OrmErrorCode::InvalidInput
        | OrmErrorCode::CursorInvalid
        | OrmErrorCode::PageLimitExceeded => invalid_input(message),
        OrmErrorCode::Unauthenticated | OrmErrorCode::Forbidden => AiError::Forbidden,
        OrmErrorCode::NotFound => AiError::NotFound,
        OrmErrorCode::Conflict | OrmErrorCode::ConstraintViolation => AiError::Conflict,
        OrmErrorCode::ServiceUnavailable
        | OrmErrorCode::InternalError
        | OrmErrorCode::AuthorizationMisconfigured => AiError::PersistenceFailed,
    }
}

/// Outcome of one attempt at a state-machine transaction, as the retry loop
/// sees it.
#[derive(Clone, Copy, Debug, PartialEq, Eq, Structural)]
pub enum TransactionFault {
    /// The store reported a serialization failure that may be retried.
    Retryable(OrmErrorCode),
    /// The store reported any other failure.
    Fatal(OrmErrorCode),
}

impl TransactionFault {
    /// The public failure class.
    pub open spec fn code(self) -> OrmErrorCode {
        match self {
            TransactionFault::Retryable(code) => code,
            TransactionFault::Fatal(code) => code,
        }
    }
}

/// What the retry loop does after attempt number `retry` (counted from zero)
/// failed: `None` to run the transaction again, otherwise the final error.
pub open spec fn retry_verdict(
    fault: TransactionFault,
    message: Seq<char>,
    retry: nat,
    maximum_retries: nat,
) -> Option<ErrorModel> {
    if fault is Retryable && retry < maximum_retries {
        None
    } else {
        Some(mapped_orm(fault.code(), message))
    }
}

/// Decides whether a failed transaction attempt is repeated.
pub fn retry_transaction(
    fault: TransactionFault,
    message: &str,
    retry: usize,
    maximum_retries: usize,
) -> (verdict: Option<AiError>)
    ensures
        match verdict {
            None => retry_verdict(fault, message@, retry as nat, maximum_retries as nat) is None,
            Some(error) => retry_verdict(fault, message@, retry as nat, maximum_retries as nat)
                == Some(error@),
        },
{
    match fault {
        TransactionFault::Retryable(code) => {
            if retry < maximum_retries {
                None
            } else {
                Some(map_orm(code, message))
            }
        },
        TransactionFault::Fatal(code) => Some(map_orm(code, message)),
    }
}

/// A transaction is attempted at most `maximum_retries + 1` times: the attempt
/// numbered `maximum_retries` always ends the loop.
pub proof fn retries_are_bounded(fault: TransactionFault, message: Seq<char>, maximum_retries: nat)
    ensures
        retry_verdict(fault, message, maximum_retries, maximum_retries) is Some,
{
}

/// A store failure keeps its meaning: what was refused as input stays a refusal
/// of input with its message, what is missing stays missing, what clashed stays
/// a conflict, what was not permitted stays forbidden; all else is a failure
/// of persistence.
pub proof fn store_failures_keep_their_meaning(code: OrmErrorCode, message: Seq<char>)
    ensures
        code is InvalidInput || code is CursorInvalid || code is PageLimitExceeded ==> mapped_orm(
            code,
            message,
        ) == ErrorModel::InvalidInput(message),
        mapped_orm(code, message) is InvalidInput ==> code is InvalidInput || code is CursorInvalid
            || code is PageLimitExceeded,
        mapped_orm(code, message) is Forbidden <==> code is Unauthenticated || code is Forbidden,
        mapped_orm(code, message) is NotFound <==> code is NotFound,
        mapped_orm(code, message) is Conflict <==> code is Conflict || code is ConstraintViolation,
        mapped_orm(code, message) is PersistenceFailed <==> code is ServiceUnavailable || code
            is InternalError || code is AuthorizationMisconfigured,
{
}

/// A transaction is run again exactly where the store allows it and retries are
/// left; any other failure ends it with its own error.
pub proof fn retries_are_for_retryable_failures(
    code: OrmErrorCode,
    message: Seq<char>,
    retry: nat,
    maximum_retries: nat,
)
    ensures
        retry_verdict(TransactionFault::Retryable(code), message, retry, maximum_retries) is None
            <==> retry < maximum_retries,
        retry >= maximum_retries ==> retry_verdict(
            TransactionFault::Retryable(code),
            message,
            retry,
            maximum_retries,
        ) == Some(mapped_orm(code, message)),
        retry_verdict(TransactionFault::Fatal(code), message, retry, maximum_retries) == Some(
            mapped_orm(code, message),
        ),
{
}

/// An error is what it says: its kind and its message and nothing else.
pub proof fn errors_are_told_apart(error: AiError)
    ensures
        error@ is InvalidConfiguration <==> error is InvalidConfiguration,
        error@ is InvalidInput <==> error is InvalidInput,
        error@ is Forbidden <==> error is Forbidden,
        error@ is NotFound <==> error is NotFound,
        error@ is Conflict <==> error is Conflict,
        error@ is BudgetDenied <==> error is BudgetDenied,
        error@ is EgressDenied <==> error is EgressDenied,
        error@ is ReauthorizationFailed <==> error is ReauthorizationFailed,
        error@ is RecentMfaRequired <==> error is RecentMfaRequired,
        error@ is RuntimeNotReady <==> error is RuntimeNotReady,
        error@ is PersistenceFailed <==> error is PersistenceFailed,
        error@ is ProviderFailed <==> error is ProviderFailed,
{
}

} // verus!
