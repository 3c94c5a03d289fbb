//! Provider families and data classifications with their persisted spellings.

use crate::error::AiError;
use crate::text::same_text;
use vstd::prelude::*;

verus! {

/// Provider family.
#[derive(Clone, Copy, Debug, PartialEq, Eq, Structural)]
pub enum ProviderKind {
    OpenAi,
    Anthropic,
    Xai,
    Ollama,
    OpenAiCompatible,
    LocalHarness,
}

/// Persisted spelling of a provider family.
pub open spec fn provider_kind_text(kind: ProviderKind) -> Seq<char> {
    match kind {
        ProviderKind::OpenAi => "openai"@,
        ProviderKind::Anthropic => "anthropic"@,
        ProviderKind::Xai => "xai"@,
        ProviderKind::Ollama => "ollama"@,
        ProviderKind::OpenAiCompatible => "openai_compatible"@,
        ProviderKind::LocalHarness => "local_harness"@,
    }
}

/// The provider family with the given spelling.
pub open spec fn provider_kind_of(value: Seq<char>) -> Option<ProviderKind> {
    if value == "openai"@ {
        Some(ProviderKind::OpenAi)
    } else if value == "anthropic"@ {
        Some(ProviderKind::Anthropic)
    } else if value == "xai"@ {
        Some(ProviderKind::Xai)
    } else if value == "ollama"@ {
        Some(ProviderKind::Ollama)
    } else if value == "openai_compatible"@ {
        Some(ProviderKind::OpenAiCompatible)
    } else if value == "local_harness"@ {
        Some(ProviderKind::LocalHarness)
    } else {
        None
    }
}

impl ProviderKind {
    /// Persisted spelling.
    pub fn as_str(self) -> (text: &'static str)
        ensures
            text@ == provider_kind_text(self),
    {
        match self {
            ProviderKind::OpenAi => "openai",
            ProviderKind::Anthropic => "anthropic",
            ProviderKind::Xai => "xai",
            ProviderKind::Ollama => "ollama",
            ProviderKind::OpenAiCompatible => "openai_compatible",
            ProviderKind::LocalHarness => "local_harness",
        }
    }
}

/// Reads a persisted provider family.
pub fn parse_provider_kind(value: &str) -> (result: Result<ProviderKind, AiError>)
    ensures
        match result {
            Ok(kind) => provider_kind_of(value@) == Some(kind),
            Err(error) => provider_kind_of(value@) is None && error == AiError::PersistenceFailed,
        },
{
    if same_text(value, "openai") {
        Ok(ProviderKind::OpenAi)
    } else if same_text(value, "anthropic") {
        Ok(ProviderKind::Anthropic)
    } else if same_text(value, "xai") {
        Ok(ProviderKind::Xai)
    } else if same_text(value, "ollama") {
        Ok(ProviderKind::Ollama)
    } else if same_text(value, "openai_compatible") {
        Ok(ProviderKind::OpenAiCompatible)
    } else if same_text(value, "local_harness") {
        Ok(ProviderKind::LocalHarness)
    } else {
        Err(AiError::PersistenceFailed)
    }
}

/// Every provider family survives being persisted and read back, and a
/// spelling that is read names the family it was read as.
pub proof fn provider_kind_round_trip(kind: ProviderKind, value: Seq<char>)
    ensures
        provider_kind_of(provider_kind_text(kind)) == Some(kind),
        provider_kind_of(value) matches Some(read) ==> provider_kind_text(read) == value,
{
    reveal_strlit("openai");
    reveal_strlit("anthropic");
    reveal_strlit("xai");
    reveal_strlit("ollama");
    reveal_strlit("openai_compatible");
    reveal_strlit("local_harness");
    assert("openai"@.len() == 6 && "anthropic"@.len() == 9 && "xai"@.len() == 3);
    assert("ollama"@.len() == 6 && "openai_compatible"@.len() == 17 && "local_harness"@.len()
        == 13);
    assert("openai"@[1] == 'p' && "ollama"@[1] == 'l');
}

/// Sensitivity of disclosed data, from least to most restrictive.
#[derive(Clone, Copy, Debug, PartialEq, Eq, Structural)]
pub enum DataClassification {
    Public,
    Internal,
    Confidential,
    Restricted,
    Secret,
}

/// Persisted spelling of a classification.
pub open spec fn classification_text(value: DataClassification) -> Seq<char> {
    match value {
        DataClassification::Public => "public"@,
        DataClassification::Internal => "internal"@,
        DataClassification::Confidential => "confidential"@,
        DataClassification::Restricted => "restricted"@,
        DataClassification::Secret => "secret"@,
    }
}

/// Persisted spelling of a classification.
pub fn classification_value(value: DataClassification) -> (text: &'static str)
    ensures
        text@ == classification_text(value),
{
    match value {
        DataClassification::Public => "public",
        DataClassification::Internal => "internal",
        DataClassification::Confidential => "confidential",
        DataClassification::Restricted => "restricted",
        DataClassification::Secret => "secret",
    }
}

/// The classification with the given spelling.
pub open spec fn classification_of(value: Seq<char>) -> Option<DataClassification> {
    if value == "public"@ {
        Some(DataClassification::Public)
    } else if value == "internal"@ {
        Some(DataClassification::Internal)
    } else if value == "confidential"@ {
        Some(DataClassification::Confidential)
    } else if value == "restricted"@ {
        Some(DataClassification::Restricted)
    } else if value == "secret"@ {
        Some(DataClassification::Secret)
    } else {
        None
    }
}

/// Reads a persisted classification.
pub fn persisted_classification(value: &str) -> (result: Option<DataClassification>)
    ensures
        result == classification_of(value@),
{
    if same_text(value, "public") {
        Some(DataClassification::Public)
    } else if same_text(value, "internal") {
        Some(DataClassification::Internal)
    } else if same_text(value, "confidential") {
        Some(DataClassification::Confidential)
    } else if same_text(value, "restricted") {
        Some(DataClassification::Restricted)
    } else if same_text(value, "secret") {
        Some(DataClassification::Secret)
    } else {
        None
    }
}

/// Every classification survives being persisted and read back.
pub proof fn classification_round_trip(value: DataClassification)
    ensures
        classification_of(classification_text(value)) == Some(value),
{
    reveal_strlit("public");
    reveal_strlit("internal");
    reveal_strlit("confidential");
    reveal_strlit("restricted");
    reveal_strlit("secret");
    assert("public"@.len() == 6 && "internal"@.len() == 8 && "confidential"@.len() == 12);
    assert("restricted"@.len() == 10 && "secret"@.len() == 6);
    assert("public"@[0] == 'p' && "secret"@[0] == 's');
}

/// The spellings of provider families and of classifications.
pub proof fn families_and_classes_are_spelled_so()
    ensures
        provider_kind_text(ProviderKind::OpenAi) == "openai"@,
        provider_kind_text(ProviderKind::Anthropic) == "anthropic"@,
        provider_kind_text(ProviderKind::Xai) == "xai"@,
        provider_kind_text(ProviderKind::Ollama) == "ollama"@,
        provider_kind_text(ProviderKind::OpenAiCompatible) == "openai_compatible"@,
        provider_kind_text(ProviderKind::LocalHarness) == "local_harness"@,
        classification_text(DataClassification::Public) == "public"@,
        classification_text(DataClassification::Internal) == "internal"@,
        classification_text(DataClassification::Confidential) == "confidential"@,
        classification_text(DataClassification::Restricted) == "restricted"@,
        classification_text(DataClassification::Secret) == "secret"@,
{
}

} // verus!
