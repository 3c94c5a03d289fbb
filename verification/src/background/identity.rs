//! Identities derived from what they identify, and audit events.

use crate::access::AiRunLease;
use crate::background::state::{
    BackgroundReason, BackgroundSubmissionState, reason_text, submission_state_text,
};
use crate::digest::{
    Uuid, big_endian_bytes, digest_prefix, digest_uuid, hex_encode, hex_text,
    lemma_big_endian_width, lemma_u128_bytes_injective, lemma_u64_bytes_injective, push_bytes,
    push_text, push_u64, sha256, sha256_digest, sha256_hex, uuid_bytes, uuid_from_bytes, uuid_text,
    uuid_to_string,
};
use crate::text::{lemma_between, lemma_encoding_injective};
use vstd::prelude::*;
use vstd::utf8::encode_utf8;

verus! {

/// Everything that a submission's identity is derived from.
pub struct SubmissionParts {
    pub run_id: Uuid,
    pub attempt_id: Uuid,
    pub lease_generation: i64,
    pub provider_profile_id: Seq<char>,
    pub provider_model: Seq<char>,
    pub request_hash: Seq<char>,
    pub budget_reservation_id: Uuid,
    pub egress_manifest_hash: Seq<char>,
}

/// A signed number as the unsigned number with the same bits.
pub open spec fn unsigned_bits(value: i64) -> nat {
    if value >= 0 {
        value as nat
    } else {
        (value + 0x1_0000_0000_0000_0000) as nat
    }
}

/// The message whose digest identifies a submission.
pub open spec fn submission_message(parts: SubmissionParts) -> Seq<u8> {
    encode_utf8("graphql-orm-ai/provider-background-submission/v1\0"@) + big_endian_bytes(
        parts.run_id as nat,
        16,
    ) + big_endian_bytes(parts.attempt_id as nat, 16) + big_endian_bytes(
        unsigned_bits(parts.lease_generation),
        8,
    ) + encode_utf8(parts.provider_profile_id) + seq![0u8] + encode_utf8(parts.provider_model)
        + seq![0u8] + encode_utf8(parts.request_hash) + big_endian_bytes(
        parts.budget_reservation_id as nat,
        16,
    ) + encode_utf8(parts.egress_manifest_hash)
}

/// The key of a submission: its message's digest in hexadecimal.
pub open spec fn submission_key_text(parts: SubmissionParts) -> Seq<char> {
    hex_text(sha256_digest(submission_message(parts)))
}

/// The identity of a submission: the first sixteen bytes of that digest.
pub open spec fn submission_id_value(parts: SubmissionParts) -> nat {
    digest_uuid(sha256_digest(submission_message(parts)))
}

fn push_i64(message: &mut Vec<u8>, value: i64)
    ensures
        final(message)@ == old(message)@ + big_endian_bytes(unsigned_bits(value), 8),
{
    let bits: u64 = if value >= 0 {
        value as u64
    } else {
        (value + i64::MAX + 1) as u64 + 0x8000_0000_0000_0000
    };
    push_u64(message, bits);
}

/// Key and identity of the submission with these parts.
pub fn submission_identity_from_parts(
    run_id: Uuid,
    attempt_id: Uuid,
    lease_generation: i64,
    provider_profile_id: &str,
    provider_model: &str,
    request_hash: &str,
    budget_reservation_id: Uuid,
    egress_manifest_hash: &str,
) -> (identity: (String, Uuid))
    ensures
        ({
            let parts = SubmissionParts {
                run_id,
                attempt_id,
                lease_generation,
                provider_profile_id: provider_profile_id@,
                provider_model: provider_model@,
                request_hash: request_hash@,
                budget_reservation_id,
                egress_manifest_hash: egress_manifest_hash@,
            };
            identity.0@ == submission_key_text(parts) && identity.1 == submission_id_value(parts)
        }),
{
    let ghost parts = SubmissionParts {
        run_id,
        attempt_id,
        lease_generation,
        provider_profile_id: provider_profile_id@,
        provider_model: provider_model@,
        request_hash: request_hash@,
        budget_reservation_id,
        egress_manifest_hash: egress_manifest_hash@,
    };
    let mut message: Vec<u8> = Vec::new();
    push_text(&mut message, "graphql-orm-ai/provider-background-submission/v1\0");
    let run = uuid_bytes(run_id);
    push_bytes(&mut message, run.as_slice());
    let attempt = uuid_bytes(attempt_id);
    push_bytes(&mut message, attempt.as_slice());
    push_i64(&mut message, lease_generation);
    push_text(&mut message, provider_profile_id);
    message.push(0);
    push_text(&mut message, provider_model);
    message.push(0);
    push_text(&mut message, request_hash);
    let budget = uuid_bytes(budget_reservation_id);
    push_bytes(&mut message, budget.as_slice());
    push_text(&mut message, egress_manifest_hash);
    proof {
        assert(message@ =~= submission_message(parts));
    }
    let digest = sha256(message.as_slice());
    let key = hex_encode(digest.as_slice());
    (key, uuid_from_bytes(digest_prefix(&digest)))
}

/// The parts of the submission that a lease makes.
pub open spec fn lease_parts(
    lease: AiRunLease,
    provider_profile_id: Seq<char>,
    provider_model: Seq<char>,
    request_hash: Seq<char>,
    budget_reservation_id: Uuid,
    egress_manifest_hash: Seq<char>,
) -> SubmissionParts {
    SubmissionParts {
        run_id: lease.run_id,
        attempt_id: lease.attempt_id,
        lease_generation: lease.lease_generation,
        provider_profile_id,
        provider_model,
        request_hash,
        budget_reservation_id,
        egress_manifest_hash,
    }
}

/// Key and identity of the submission that a lease makes.
pub fn submission_identity(
    lease: &AiRunLease,
    provider_profile_id: &str,
    provider_model: &str,
    request_hash: &str,
    budget_reservation_id: Uuid,
    egress_manifest_hash: &str,
) -> (identity: (String, Uuid))
    ensures
        ({
            let parts = lease_parts(
                *lease,
                provider_profile_id@,
                provider_model@,
                request_hash@,
                budget_reservation_id,
                egress_manifest_hash@,
            );
            identity.0@ == submission_key_text(parts) && identity.1 == submission_id_value(parts)
        }),
{
    submission_identity_from_parts(
        lease.run_id,
        lease.attempt_id,
        lease.lease_generation,
        provider_profile_id,
        provider_model,
        request_hash,
        budget_reservation_id,
        egress_manifest_hash,
    )
}

/// Hexadecimal digest of the encoded model request.
pub fn request_hash(encoded_request: &[u8]) -> (hash: String)
    ensures
        hash@ == hex_text(sha256_digest(encoded_request@)),
{
    sha256_hex(encoded_request)
}

/// The message whose digest identifies one terminal row of a submission.
pub open spec fn terminal_message(submission_id: Uuid, purpose: Seq<char>) -> Seq<u8> {
    encode_utf8("graphql-orm-ai/background-terminal/v1\0"@) + big_endian_bytes(
        submission_id as nat,
        16,
    ) + seq![0u8] + encode_utf8(purpose)
}

/// The identity of one terminal row of a submission.
pub open spec fn terminal_id_value(submission_id: Uuid, purpose: Seq<char>) -> nat {
    digest_uuid(sha256_digest(terminal_message(submission_id, purpose)))
}

/// The identity of one terminal row of a submission: the same for every
/// attempt to commit it.
pub fn background_terminal_identity(submission_id: Uuid, purpose: &str) -> (id: Uuid)
    ensures
        id == terminal_id_value(submission_id, purpose@),
{
    let mut message: Vec<u8> = Vec::new();
    push_text(&mut message, "graphql-orm-ai/background-terminal/v1\0");
    let bytes = uuid_bytes(submission_id);
    push_bytes(&mut message, bytes.as_slice());
    message.push(0);
    push_text(&mut message, purpose);
    proof {
        assert(message@ =~= terminal_message(submission_id, purpose@));
    }
    let digest = sha256(message.as_slice());
    uuid_from_bytes(digest_prefix(&digest))
}

/// Terminal rows of different submissions or purposes are identified by
/// digests of different messages.
pub proof fn terminal_message_injective(
    left_id: Uuid,
    left_purpose: Seq<char>,
    right_id: Uuid,
    right_purpose: Seq<char>,
)
    requires
        terminal_message(left_id, left_purpose) == terminal_message(right_id, right_purpose),
    ensures
        left_id == right_id,
        left_purpose == right_purpose,
{
    let prefix = encode_utf8("graphql-orm-ai/background-terminal/v1\0"@);
    let start = prefix.len() as int;
    let left = terminal_message(left_id, left_purpose);
    let right = terminal_message(right_id, right_purpose);
    lemma_big_endian_width(left_id as nat, 16);
    lemma_big_endian_width(right_id as nat, 16);
    assert(left.subrange(start, start + 16) =~= big_endian_bytes(left_id as nat, 16));
    assert(right.subrange(start, start + 16) =~= big_endian_bytes(right_id as nat, 16));
    assert(left.subrange(start + 17, left.len() as int) =~= encode_utf8(left_purpose));
    assert(right.subrange(start + 17, right.len() as int) =~= encode_utf8(right_purpose));
    lemma_encoding_injective(left_purpose, right_purpose);
    lemma_u128_bytes_injective(left_id as nat, right_id as nat);
}

/// One change of a background submission that is audited.
#[derive(Clone, Copy, Debug, PartialEq, Eq, Structural)]
pub enum BackgroundChange {
    Prepare,
    Accept,
    CloseAmbiguity(BackgroundReason),
    Claim,
    Reclaim,
    ReleaseBeforeRetrieval,
    ReleaseNonterminal,
    ReleaseAfterFailure(BackgroundReason),
    BindRetrieval,
    MatchReceipt,
    CommitTerminal(BackgroundSubmissionState, BackgroundReason),
    CloseRecovery(BackgroundReason),
}

/// Action, resource kind, outcome, and reason that a change is audited with.
pub open spec fn change_texts(change: BackgroundChange) -> (
    Seq<char>,
    Seq<char>,
    Seq<char>,
    Seq<char>,
) {
    match change {
        BackgroundChange::Prepare => (
            "prepare_provider_background_submission"@,
            "ai_provider_background_submission"@,
            "prepared"@,
            "exact_submission_bound"@,
        ),
        BackgroundChange::Accept => (
            "accept_provider_background_submission"@,
            "ai_provider_background_submission"@,
            "waiting_provider"@,
            "provider_acknowledgement_bound"@,
        ),
        BackgroundChange::CloseAmbiguity(reason) => (
            "close_provider_background_submission_ambiguity"@,
            "ai_provider_background_submission"@,
            "recovery_required"@,
            reason_text(reason),
        ),
        BackgroundChange::Claim => (
            "claim_provider_background_reconciliation"@,
            "ai_provider_background_submission"@,
            "reconciling"@,
            "eligible_submission_claimed"@,
        ),
        BackgroundChange::Reclaim => (
            "claim_provider_background_reconciliation"@,
            "ai_provider_background_submission"@,
            "reconciling"@,
            "expired_reconciliation_reclaimed"@,
        ),
        BackgroundChange::ReleaseBeforeRetrieval => (
            "release_provider_background_reconciliation"@,
            "ai_provider_background_submission"@,
            "waiting_provider"@,
            "worker_relinquished_before_retrieval"@,
        ),
        BackgroundChange::ReleaseNonterminal => (
            "release_provider_background_reconciliation"@,
            "ai_provider_background_submission"@,
            "waiting_provider"@,
            "authoritative_provider_state_nonterminal"@,
        ),
        BackgroundChange::ReleaseAfterFailure(reason) => (
            "release_provider_background_reconciliation"@,
            "ai_provider_background_submission"@,
            "waiting_provider"@,
            reason_text(reason),
        ),
        BackgroundChange::BindRetrieval => (
            "bind_provider_background_retrieval_egress"@,
            "ai_provider_background_submission"@,
            "authorized"@,
            "current_egress_allow_bound"@,
        ),
        BackgroundChange::MatchReceipt => (
            "match_provider_webhook_receipt"@,
            "ai_provider_webhook_receipt"@,
            "matched_pending"@,
            "exact_background_submission_bound"@,
        ),
        BackgroundChange::CommitTerminal(state, reason) => (
            "commit_provider_background_terminal"@,
            "ai_provider_background_submission"@,
            submission_state_text(state),
            reason_text(reason),
        ),
        BackgroundChange::CloseRecovery(reason) => (
            "close_provider_background_reconciliation"@,
            "ai_provider_background_submission"@,
            "recovery_required"@,
            reason_text(reason),
        ),
    }
}

/// One audit event of the background services. The acting principal's kind is
/// always `system`.
#[derive(Debug, PartialEq, Eq)]
pub struct BackgroundAudit {
    pub actor_subject: String,
    pub action: String,
    pub resource_kind: String,
    pub resource_reference: String,
    pub outcome: String,
    pub reason_code: String,
    pub correlation_id: String,
    pub causation_id: String,
    pub policy_version: String,
}

/// Whether the event records exactly this change.
pub open spec fn audited(
    event: BackgroundAudit,
    change: BackgroundChange,
    actor: Seq<char>,
    resource_id: Uuid,
    submission_id: Uuid,
    run_id: Uuid,
    policy_version: Seq<char>,
) -> bool {
    &&& event.actor_subject@ == actor
    &&& event.action@ == change_texts(change).0
    &&& event.resource_kind@ == change_texts(change).1
    &&& event.resource_reference@ == uuid_text(resource_id)
    &&& event.outcome@ == change_texts(change).2
    &&& event.reason_code@ == change_texts(change).3
    &&& event.correlation_id@ == uuid_text(submission_id)
    &&& event.causation_id@ == uuid_text(run_id)
    &&& event.policy_version@ == policy_version
}

/// The audit event of a change, correlated by the submission and caused by
/// the run.
pub fn background_audit(
    change: BackgroundChange,
    actor: &str,
    resource_id: Uuid,
    submission_id: Uuid,
    run_id: Uuid,
    policy_version: &str,
) -> (event: BackgroundAudit)
    ensures
        audited(event, change, actor@, resource_id, submission_id, run_id, policy_version@),
{
    let submission: &'static str = "ai_provider_background_submission";
    let (action, resource_kind, outcome, reason): (
        &'static str,
        &'static str,
        &'static str,
        &'static str,
    ) = match change {
        BackgroundChange::Prepare => (
            "prepare_provider_background_submission",
            submission,
            "prepared",
            "exact_submission_bound",
        ),
        BackgroundChange::Accept => (
            "accept_provider_background_submission",
            submission,
            "waiting_provider",
            "provider_acknowledgement_bound",
        ),
        BackgroundChange::CloseAmbiguity(reason) => (
            "close_provider_background_submission_ambiguity",
            submission,
            "recovery_required",
            reason.as_str(),
        ),
        BackgroundChange::Claim => (
            "claim_provider_background_reconciliation",
            submission,
            "reconciling",
            "eligible_submission_claimed",
        ),
        BackgroundChange::Reclaim => (
            "claim_provider_background_reconciliation",
            submission,
            "reconciling",
            "expired_reconciliation_reclaimed",
        ),
        BackgroundChange::ReleaseBeforeRetrieval => (
            "release_provider_background_reconciliation",
            submission,
            "waiting_provider",
            "worker_relinquished_before_retrieval",
        ),
        BackgroundChange::ReleaseNonterminal => (
            "release_provider_background_reconciliation",
            submission,
            "waiting_provider",
            "authoritative_provider_state_nonterminal",
        ),
        BackgroundChange::ReleaseAfterFailure(reason) => (
            "release_provider_background_reconciliation",
            submission,
            "waiting_provider",
            reason.as_str(),
        ),
        BackgroundChange::BindRetrieval => (
            "bind_provider_background_retrieval_egress",
            submission,
            "authorized",
            "current_egress_allow_bound",
        ),
        BackgroundChange::MatchReceipt => (
            "match_provider_webhook_receipt",
            "ai_provider_webhook_receipt",
            "matched_pending",
            "exact_background_submission_bound",
        ),
        BackgroundChange::CommitTerminal(state, reason) => (
            "commit_provider_background_terminal",
            submission,
            state.as_str(),
            reason.as_str(),
        ),
        BackgroundChange::CloseRecovery(reason) => (
            "close_provider_background_reconciliation",
            submission,
            "recovery_required",
            reason.as_str(),
        ),
    };
    BackgroundAudit {
        actor_subject: actor.to_owned(),
        action: action.to_owned(),
        resource_kind: resource_kind.to_owned(),
        resource_reference: uuid_to_string(resource_id),
        outcome: outcome.to_owned(),
        reason_code: reason.to_owned(),
        correlation_id: uuid_to_string(submission_id),
        causation_id: uuid_to_string(run_id),
        policy_version: policy_version.to_owned(),
    }
}

/// A submission's identity is the digest of a message that no other run,
/// attempt, or generation shares.
pub proof fn identities_depend_on_every_number(left: SubmissionParts, right: SubmissionParts)
    requires
        submission_message(left) == submission_message(right),
    ensures
        left.run_id == right.run_id,
        left.attempt_id == right.attempt_id,
        left.lease_generation == right.lease_generation,
{
    let prefix = encode_utf8("graphql-orm-ai/provider-background-submission/v1\0"@);
    let (l, r) = (submission_message(left), submission_message(right));
    let n = prefix.len() as int;
    lemma_big_endian_width(left.run_id as nat, 16);
    lemma_big_endian_width(right.run_id as nat, 16);
    lemma_big_endian_width(left.attempt_id as nat, 16);
    lemma_big_endian_width(right.attempt_id as nat, 16);
    lemma_big_endian_width(unsigned_bits(left.lease_generation), 8);
    lemma_big_endian_width(unsigned_bits(right.lease_generation), 8);
    assert(l.subrange(n, n + 16) =~= big_endian_bytes(left.run_id as nat, 16));
    assert(r.subrange(n, n + 16) =~= big_endian_bytes(right.run_id as nat, 16));
    assert(l.subrange(n + 16, n + 32) =~= big_endian_bytes(left.attempt_id as nat, 16));
    assert(r.subrange(n + 16, n + 32) =~= big_endian_bytes(right.attempt_id as nat, 16));
    assert(l.subrange(n + 32, n + 40) =~= big_endian_bytes(
        unsigned_bits(left.lease_generation),
        8,
    ));
    assert(r.subrange(n + 32, n + 40) =~= big_endian_bytes(
        unsigned_bits(right.lease_generation),
        8,
    ));
    lemma_u128_bytes_injective(left.run_id as nat, right.run_id as nat);
    lemma_u128_bytes_injective(left.attempt_id as nat, right.attempt_id as nat);
    lemma_u64_bytes_injective(
        unsigned_bits(left.lease_generation),
        unsigned_bits(right.lease_generation),
    );
}

/// An audit event says who changed which resource how, why, and for which
/// submission and run.
pub proof fn audit_says_what_changed(
    event: BackgroundAudit,
    change: BackgroundChange,
    actor: Seq<char>,
    resource_id: Uuid,
    submission_id: Uuid,
    run_id: Uuid,
    policy_version: Seq<char>,
)
    requires
        audited(event, change, actor, resource_id, submission_id, run_id, policy_version),
    ensures
        event.actor_subject@ == actor,
        event.resource_reference@ == uuid_text(resource_id),
        event.correlation_id@ == uuid_text(submission_id),
        event.causation_id@ == uuid_text(run_id),
        event.policy_version@ == policy_version,
        change is MatchReceipt <==> event.resource_kind@ == "ai_provider_webhook_receipt"@,
        !(change is MatchReceipt) <==> event.resource_kind@
            == "ai_provider_background_submission"@,
        change matches BackgroundChange::CloseRecovery(reason) ==> event.reason_code@
            == reason_text(reason) && event.outcome@ == "recovery_required"@,
        change matches BackgroundChange::CloseAmbiguity(reason) ==> event.reason_code@
            == reason_text(reason) && event.outcome@ == "recovery_required"@,
        change matches BackgroundChange::ReleaseAfterFailure(reason) ==> event.reason_code@
            == reason_text(reason) && event.outcome@ == "waiting_provider"@,
        change matches BackgroundChange::CommitTerminal(state, reason) ==> event.reason_code@
            == reason_text(reason) && event.outcome@ == submission_state_text(state),
        change is Claim || change is Reclaim ==> event.outcome@ == "reconciling"@,
        change is Prepare ==> event.outcome@ == "prepared"@,
        change is Accept ==> event.outcome@ == "waiting_provider"@,
        change is BindRetrieval ==> event.outcome@ == "authorized"@,
{
    reveal_strlit("ai_provider_webhook_receipt");
    reveal_strlit("ai_provider_background_submission");
    assert("ai_provider_webhook_receipt"@.len() == 27);
    assert("ai_provider_background_submission"@.len() == 33);
}

/// Submissions that differ in just one of their profile, model, request,
/// reservation, and manifest have different messages.
pub proof fn identities_depend_on_every_part(left: SubmissionParts, right: SubmissionParts)
    requires
        submission_message(left) == submission_message(right),
    ensures
        left.provider_model == right.provider_model && left.request_hash == right.request_hash
            && left.budget_reservation_id == right.budget_reservation_id
            && left.egress_manifest_hash == right.egress_manifest_hash ==> left.provider_profile_id
            == right.provider_profile_id,
        left.provider_profile_id == right.provider_profile_id && left.request_hash
            == right.request_hash && left.budget_reservation_id == right.budget_reservation_id
            && left.egress_manifest_hash == right.egress_manifest_hash ==> left.provider_model
            == right.provider_model,
        left.provider_profile_id == right.provider_profile_id && left.provider_model
            == right.provider_model && left.budget_reservation_id == right.budget_reservation_id
            && left.egress_manifest_hash == right.egress_manifest_hash ==> left.request_hash
            == right.request_hash,
        left.provider_profile_id == right.provider_profile_id && left.provider_model
            == right.provider_model && left.request_hash == right.request_hash
            && left.egress_manifest_hash == right.egress_manifest_hash
            ==> left.budget_reservation_id == right.budget_reservation_id,
        left.provider_profile_id == right.provider_profile_id && left.provider_model
            == right.provider_model && left.request_hash == right.request_hash
            && left.budget_reservation_id == right.budget_reservation_id
            ==> left.egress_manifest_hash == right.egress_manifest_hash,
{
    identities_depend_on_every_number(left, right);
    let zero = seq![0u8];
    let head = encode_utf8("graphql-orm-ai/provider-background-submission/v1\0"@)
        + big_endian_bytes(left.run_id as nat, 16) + big_endian_bytes(left.attempt_id as nat, 16)
        + big_endian_bytes(unsigned_bits(left.lease_generation), 8);
    let (p, q) = (encode_utf8(left.provider_profile_id), encode_utf8(right.provider_profile_id));
    let (m, n) = (encode_utf8(left.provider_model), encode_utf8(right.provider_model));
    let (h, k) = (encode_utf8(left.request_hash), encode_utf8(right.request_hash));
    let (b, c) = (
        big_endian_bytes(left.budget_reservation_id as nat, 16),
        big_endian_bytes(right.budget_reservation_id as nat, 16),
    );
    let (e, f) = (
        encode_utf8(left.egress_manifest_hash),
        encode_utf8(right.egress_manifest_hash),
    );
    let (l, r) = (submission_message(left), submission_message(right));
    if m == n && h == k && b == c && e == f {
        let behind = zero + m + zero + h + b + e;
        assert(l =~= head + p + behind);
        assert(r =~= head + q + behind);
        lemma_between(head, p, q, behind);
    }
    if p == q && h == k && b == c && e == f {
        let before = head + p + zero;
        let behind = zero + h + b + e;
        assert(l =~= before + m + behind);
        assert(r =~= before + n + behind);
        lemma_between(before, m, n, behind);
    }
    if p == q && m == n && b == c && e == f {
        let before = head + p + zero + m + zero;
        let behind = b + e;
        assert(l =~= before + h + behind);
        assert(r =~= before + k + behind);
        lemma_between(before, h, k, behind);
    }
    if p == q && m == n && h == k && e == f {
        let before = head + p + zero + m + zero + h;
        assert(l =~= before + b + e);
        assert(r =~= before + c + e);
        lemma_between(before, b, c, e);
        lemma_u128_bytes_injective(
            left.budget_reservation_id as nat,
            right.budget_reservation_id as nat,
        );
    }
    if p == q && m == n && h == k && b == c {
        let before = head + p + zero + m + zero + h + b;
        assert(l =~= before + e + Seq::<u8>::empty());
        assert(r =~= before + f + Seq::<u8>::empty());
        lemma_between(before, e, f, Seq::empty());
    }
    lemma_encoding_injective(left.provider_profile_id, right.provider_profile_id);
    lemma_encoding_injective(left.provider_model, right.provider_model);
    lemma_encoding_injective(left.request_hash, right.request_hash);
    lemma_encoding_injective(left.egress_manifest_hash, right.egress_manifest_hash);
}

/// Each change is audited under its own action, with what the row became and
/// why.
pub proof fn changes_are_audited_as_themselves(change: BackgroundChange)
    ensures
        change_texts(change).0 == match change {
            BackgroundChange::Prepare => "prepare_provider_background_submission"@,
            BackgroundChange::Accept => "accept_provider_background_submission"@,
            BackgroundChange::CloseAmbiguity(_) =>
                "close_provider_background_submission_ambiguity"@,
            BackgroundChange::Claim | BackgroundChange::Reclaim =>
                "claim_provider_background_reconciliation"@,
            BackgroundChange::ReleaseBeforeRetrieval
            | BackgroundChange::ReleaseNonterminal
            | BackgroundChange::ReleaseAfterFailure(_) =>
                "release_provider_background_reconciliation"@,
            BackgroundChange::BindRetrieval => "bind_provider_background_retrieval_egress"@,
            BackgroundChange::MatchReceipt => "match_provider_webhook_receipt"@,
            BackgroundChange::CommitTerminal(_, _) => "commit_provider_background_terminal"@,
            BackgroundChange::CloseRecovery(_) => "close_provider_background_reconciliation"@,
        },
        change_texts(change).2 == match change {
            BackgroundChange::Prepare => "prepared"@,
            BackgroundChange::Claim | BackgroundChange::Reclaim => "reconciling"@,
            BackgroundChange::Accept
            | BackgroundChange::ReleaseBeforeRetrieval
            | BackgroundChange::ReleaseNonterminal
            | BackgroundChange::ReleaseAfterFailure(_) => "waiting_provider"@,
            BackgroundChange::BindRetrieval => "authorized"@,
            BackgroundChange::MatchReceipt => "matched_pending"@,
            BackgroundChange::CommitTerminal(state, _) => submission_state_text(state),
            BackgroundChange::CloseAmbiguity(_) | BackgroundChange::CloseRecovery(_) =>
                "recovery_required"@,
        },
        change_texts(change).3 == match change {
            BackgroundChange::Prepare => "exact_submission_bound"@,
            BackgroundChange::Accept => "provider_acknowledgement_bound"@,
            BackgroundChange::Claim => "eligible_submission_claimed"@,
            BackgroundChange::Reclaim => "expired_reconciliation_reclaimed"@,
            BackgroundChange::ReleaseBeforeRetrieval => "worker_relinquished_before_retrieval"@,
            BackgroundChange::ReleaseNonterminal => "authoritative_provider_state_nonterminal"@,
            BackgroundChange::BindRetrieval => "current_egress_allow_bound"@,
            BackgroundChange::MatchReceipt => "exact_background_submission_bound"@,
            BackgroundChange::CloseAmbiguity(reason)
            | BackgroundChange::ReleaseAfterFailure(reason)
            | BackgroundChange::CommitTerminal(_, reason)
            | BackgroundChange::CloseRecovery(reason) => reason_text(reason),
        },
{
}

/// Rows of different submissions, and rows of one submission for different
/// purposes, have different messages.
pub proof fn terminal_rows_are_told_apart(
    submission: Uuid,
    other: Uuid,
    purpose: Seq<char>,
    other_purpose: Seq<char>,
)
    requires
        terminal_message(submission, purpose) == terminal_message(other, other_purpose),
    ensures
        submission == other,
        purpose == other_purpose,
{
    let head = encode_utf8("graphql-orm-ai/background-terminal/v1\0"@);
    let (a, b) = (big_endian_bytes(submission as nat, 16), big_endian_bytes(other as nat, 16));
    lemma_big_endian_width(submission as nat, 16);
    lemma_big_endian_width(other as nat, 16);
    lemma_same_ends(head, a, b, seq![0u8], encode_utf8(purpose), encode_utf8(other_purpose));
    lemma_u128_bytes_injective(submission as nat, other as nat);
    lemma_encoding_injective(purpose, other_purpose);
}

proof fn lemma_same_ends(
    head: Seq<u8>,
    a: Seq<u8>,
    b: Seq<u8>,
    between: Seq<u8>,
    p: Seq<u8>,
    q: Seq<u8>,
)
    requires
        a.len() == b.len(),
        head + a + between + p == head + b + between + q,
    ensures
        a == b,
        p == q,
{
    let (l, r) = (head + a + between + p, head + b + between + q);
    let n = head.len() as int;
    assert(l.subrange(n, n + a.len()) =~= a);
    assert(r.subrange(n, n + a.len()) =~= b);
    let m = n + a.len() + between.len();
    assert(l.subrange(m, l.len() as int) =~= p);
    assert(r.subrange(m, r.len() as int) =~= q);
}

} // verus!
