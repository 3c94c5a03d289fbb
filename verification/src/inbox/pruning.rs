//! Retention of inbox streams.
//!
//! A pass deletes the longest prefix of retained events that every applicable
//! retention policy has released, and advances the stream's minimum past it.

use crate::decimal::{integer_text, integer_to_string};
use crate::digest::{
    Uuid, big_endian_bytes, hex_text, push_text, push_u64, sha256_digest, sha256_hex, uuid_text,
    uuid_to_string,
};
use crate::error::{AiError, ErrorModel, OrmErrorCode, invalid_configuration};
use crate::inbox::stream::{
    AiInboxEventRecord, AiInboxStreamRecord, stream_consistent, validate_stream,
};
use crate::order::{insert_ordered, strictly_ordered, texts};
use crate::principal::{AiScope, ScopeModel};
use crate::records::{AiRetentionPolicyRecord, AuditFact};
use crate::scope::{ai_scope_key, scope_key_text};
use crate::text::{
    blank, byte_len, clone_text_option, join, option_is_text, same_text, same_text_option,
    text_len, text_option,
};
use vstd::prelude::*;
use vstd::utf8::encode_utf8;

verus! {

/// Shortest retention that a policy may configure, in seconds.
pub const MINIMUM_RETENTION_SECONDS: i64 = 60;

/// Longest retention that a policy may configure, in seconds.
pub const MAXIMUM_RETENTION_SECONDS: i64 = 315_576_000;

/// Deployment-owned hard limits for one inbox retention pass.
#[derive(Clone, Copy, Debug, PartialEq, Eq, Structural)]
pub struct AiInboxPruningLimits {
    maximum_streams: usize,
    maximum_events_per_stream: usize,
}

impl AiInboxPruningLimits {
    /// Most streams considered in one pass.
    pub closed spec fn streams(self) -> nat {
        self.maximum_streams as nat
    }

    /// Most events inspected in one stream.
    pub closed spec fn events_per_stream(self) -> nat {
        self.maximum_events_per_stream as nat
    }

    /// Creates validated scan and delete bounds.
    ///
    /// # Errors
    ///
    /// Returns [`AiError::InvalidConfiguration`] unless stream count is in
    /// `1..=256` and per-stream event count is in `1..=5_000`.
    pub fn new(maximum_streams: usize, maximum_events_per_stream: usize) -> (result: Result<
        Self,
        AiError,
    >)
        ensures
            ({
                let accepted = 1 <= maximum_streams <= 256 && 1 <= maximum_events_per_stream
                    <= 5_000;
                match result {
                    Ok(limits) => accepted && limits.streams() == maximum_streams
                        && limits.events_per_stream() == maximum_events_per_stream,
                    Err(error) => !accepted && error@ == ErrorModel::InvalidConfiguration(
                        "invalid inbox pruning limits"@,
                    ),
                }
            }),
    {
        if maximum_streams < 1 || maximum_streams > 256 || maximum_events_per_stream < 1
            || maximum_events_per_stream > 5_000 {
            return Err(invalid_configuration("invalid inbox pruning limits"));
        }
        Ok(AiInboxPruningLimits { maximum_streams, maximum_events_per_stream })
    }

    /// Maximum principal streams considered per pass.
    pub fn maximum_streams(&self) -> (result: usize)
        ensures
            result == self.streams(),
    {
        self.maximum_streams
    }

    /// Maximum event rows inspected/deleted for one stream per pass.
    pub fn maximum_events_per_stream(&self) -> (result: usize)
        ensures
            result == self.events_per_stream(),
    {
        self.maximum_events_per_stream
    }
}

impl Default for AiInboxPruningLimits {
    fn default() -> (result: Self)
        ensures
            result.streams() == 50,
            result.events_per_stream() == 500,
    {
        AiInboxPruningLimits { maximum_streams: 50, maximum_events_per_stream: 500 }
    }
}

/// Whether the policy row governs the inbox of exactly this scope with bounds
/// inside the configurable range.
pub open spec fn retention_policy_governs(
    policy: AiRetentionPolicyRecord,
    scope: ScopeModel,
    expected_scope_key: Seq<char>,
) -> bool {
    &&& text_option(policy.scope_key) == Some(expected_scope_key)
    &&& policy.scope_kind@ == scope.kind
    &&& policy.scope_id@ == scope.id
    &&& text_option(policy.tenant_id) == scope.tenant_id
    &&& policy.inbox_event_retention_seconds matches Some(seconds) && MINIMUM_RETENTION_SECONDS
        <= seconds <= MAXIMUM_RETENTION_SECONDS
    &&& policy.inbox_minimum_events matches Some(count) && 1 <= count <= 100_000
}

/// Whether the policy row governs the inbox of exactly this scope.
pub fn valid_retention_policy(
    policy: &AiRetentionPolicyRecord,
    scope: &AiScope,
    expected_scope_key: &str,
) -> (result: bool)
    ensures
        result == retention_policy_governs(*policy, scope@, expected_scope_key@),
{
    let seconds_valid: bool = match policy.inbox_event_retention_seconds {
        Some(seconds) => MINIMUM_RETENTION_SECONDS <= seconds && seconds
            <= MAXIMUM_RETENTION_SECONDS,
        None => false,
    };
    let count_valid: bool = match policy.inbox_minimum_events {
        Some(count) => 1 <= count && count <= 100_000,
        None => false,
    };
    option_is_text(&policy.scope_key, expected_scope_key) && same_text(
        policy.scope_kind.as_str(),
        scope.kind.as_str(),
    ) && same_text(policy.scope_id.as_str(), scope.id.as_str()) && same_text_option(
        &policy.tenant_id,
        &scope.tenant_id,
    ) && seconds_valid && count_valid
}

/// Every row that pruning one stream reads.
///
/// `rows` are the oldest events of the stream in sequence order; `policies`
/// holds for each row the retention policies stored under its scope key.
#[derive(Debug, PartialEq, Eq)]
pub struct PruneSnapshot {
    pub expected_row_version: i64,
    pub stream: Option<AiInboxStreamRecord>,
    pub rows: Vec<AiInboxEventRecord>,
    pub policies: Vec<Vec<AiRetentionPolicyRecord>>,
}

/// What one row means for the pass, given that all earlier rows are deleted.
pub enum RowVerdict {
    Fault(OrmErrorCode),
    NotReady,
    Keep,
    Delete,
}

/// The scope that an event captured.
pub open spec fn captured_scope(row: AiInboxEventRecord) -> ScopeModel {
    ScopeModel {
        kind: row.scope_kind@,
        id: row.scope_id@,
        tenant_id: text_option(row.tenant_id),
    }
}

/// Position of the first row up to `index` with the same scope key; that row's
/// policy lookup serves all of them.
pub open spec fn lookup_row(rows: Seq<AiInboxEventRecord>, index: int) -> int
    recommends
        0 <= index < rows.len(),
{
    first_with_key(rows, rows[index].scope_key@, index as nat)
}

/// Position of the first row before `limit` with this scope key, else `limit`.
pub open spec fn first_with_key(
    rows: Seq<AiInboxEventRecord>,
    key: Seq<char>,
    limit: nat,
) -> int
    decreases limit,
{
    if limit == 0 {
        0
    } else {
        let earlier = first_with_key(rows, key, (limit - 1) as nat);
        if earlier < limit - 1 || rows[limit - 1].scope_key@ == key {
            earlier
        } else {
            limit as int
        }
    }
}

/// The verdict on the row at `index`.
pub open spec fn row_verdict(snapshot: PruneSnapshot, index: int, now: i64) -> RowVerdict {
    let stream = snapshot.stream->0;
    let row = snapshot.rows@[index];
    let expected = stream.minimum_retained_sequence + index;
    let lookup = lookup_row(snapshot.rows@, index);
    let found = snapshot.policies@[lookup]@;
    if row.principal_kind@ != stream.principal_kind@ || row.principal_subject@
        != stream.principal_subject@ || row.sequence != expected || row.sequence
        > stream.stream_head || expected == i64::MAX {
        RowVerdict::Fault(OrmErrorCode::InternalError)
    } else if row.scope_key@ != scope_key_text(captured_scope(row)) {
        RowVerdict::Fault(OrmErrorCode::InternalError)
    } else if lookup == index && found.len() > 1 {
        RowVerdict::Fault(OrmErrorCode::AuthorizationMisconfigured)
    } else if lookup == index && (found.len() == 0 || !retention_policy_governs(
        found[0],
        captured_scope(row),
        row.scope_key@,
    )) {
        RowVerdict::NotReady
    } else {
        let seconds = found[0].inbox_event_retention_seconds->0;
        let minimum = found[0].inbox_minimum_events->0;
        if now - seconds < i64::MIN {
            RowVerdict::Fault(OrmErrorCode::InternalError)
        } else if row.sequence > stream.stream_head - minimum || row.created_at > now - seconds {
            RowVerdict::Keep
        } else {
            RowVerdict::Delete
        }
    }
}

/// Number of leading rows that are deleted.
pub open spec fn deletable_prefix(snapshot: PruneSnapshot, now: i64, from: nat) -> nat
    decreases snapshot.rows@.len() - from,
{
    if from < snapshot.rows@.len() && row_verdict(snapshot, from as int, now) is Delete {
        deletable_prefix(snapshot, now, from + 1)
    } else {
        from
    }
}

/// Identity and version of the policy that released the row at `index`.
pub open spec fn policy_version_text(snapshot: PruneSnapshot, index: int) -> Seq<char> {
    let policy = snapshot.policies@[lookup_row(snapshot.rows@, index)]@[0];
    uuid_text(policy.id) + ":"@ + integer_text(policy.row_version as int)
}

/// The versions of the policies that released the first `count` rows.
pub open spec fn policy_versions(snapshot: PruneSnapshot, count: nat) -> Set<Seq<char>>
    decreases count,
{
    if count == 0 {
        Set::empty()
    } else {
        policy_versions(snapshot, (count - 1) as nat).insert(
            policy_version_text(snapshot, count - 1),
        )
    }
}

/// The message hashed for a list of policy versions: each with its length in
/// eight bytes.
pub open spec fn policy_version_message(versions: Seq<Seq<char>>) -> Seq<u8>
    decreases versions.len(),
{
    if versions.len() == 0 {
        encode_utf8("graphql-orm-ai/inbox-retention-policy-set/v1\0"@)
    } else {
        policy_version_message(versions.drop_last()) + big_endian_bytes(
            byte_len(versions.last()),
            8,
        ) + encode_utf8(versions.last())
    }
}

/// Digest of an ordered list of policy versions.
pub fn policy_version_hash(versions: &Vec<String>) -> (hash: String)
    ensures
        hash@ == hex_text(sha256_digest(policy_version_message(texts(versions@)))),
{
    let mut message: Vec<u8> = Vec::new();
    push_text(&mut message, "graphql-orm-ai/inbox-retention-policy-set/v1\0");
    let mut i: usize = 0;
    proof {
        assert(texts(versions@).subrange(0, 0) =~= Seq::<Seq<char>>::empty());
        assert(message@ =~= policy_version_message(texts(versions@).subrange(0, 0)));
    }
    while i < versions.len()
        invariant
            i <= versions@.len(),
            message@ == policy_version_message(texts(versions@).subrange(0, i as int)),
        decreases versions@.len() - i,
    {
        let length: usize = text_len(versions[i].as_str());
        push_u64(&mut message, length as u64);
        push_text(&mut message, versions[i].as_str());
        proof {
            let next = texts(versions@).subrange(0, i as int + 1);
            assert(next.drop_last() =~= texts(versions@).subrange(0, i as int));
            assert(next.last() == versions@[i as int]@);
        }
        i += 1;
    }
    proof {
        assert(texts(versions@).subrange(0, i as int) =~= texts(versions@));
    }
    sha256_hex(message.as_slice())
}

/// Writes of one pass over one stream: advance the minimum under the stream's
/// version fence, delete the events, and audit the policy versions.
#[derive(Debug, PartialEq, Eq)]
pub struct PrunePlan {
    pub stream_id: Uuid,
    pub expected_row_version: i64,
    pub minimum_retained_sequence: i64,
    pub delete_ids: Vec<Uuid>,
    pub audit: AuditFact,
}

/// Whether the event records the pass over this stream under these policies.
pub open spec fn pruning_audited(
    audit: AuditFact,
    stream_id: Uuid,
    policy_version: Seq<char>,
) -> bool {
    &&& audit.actor_principal_kind@ == "system"@
    &&& audit.actor_subject@ == "inbox-retention"@
    &&& audit.action@ == "prune_inbox_events"@
    &&& audit.resource_kind@ == "ai_inbox_stream"@
    &&& audit.resource_reference@ == uuid_text(stream_id)
    &&& audit.outcome@ == "allowed"@
    &&& audit.reason_code@ == "retention_prefix_expired"@
    &&& text_option(audit.policy_version) == Some(policy_version)
}

/// Outcome of one pass over one stream.
#[derive(Debug, PartialEq, Eq)]
pub enum PruneStep {
    /// Nothing can be deleted.
    Noop,
    /// The retention policy of the oldest event is not usable.
    NotReady,
    /// The stream changed since it was selected.
    Conflict,
    /// Delete a prefix.
    Prune(PrunePlan),
}

/// Why a pass over the stream fails.
pub open spec fn prune_fault(snapshot: PruneSnapshot, now: i64) -> Option<OrmErrorCode> {
    if snapshot.stream is None {
        Some(OrmErrorCode::NotFound)
    } else {
        let stream = snapshot.stream->0;
        let stop = deletable_prefix(snapshot, now, 0);
        if stream.row_version != snapshot.expected_row_version {
            None
        } else if blank(stream.principal_kind@) || blank(stream.principal_subject@)
            || !stream_consistent(stream) {
            Some(OrmErrorCode::InternalError)
        } else if snapshot.rows@.len() == 0 {
            if stream.minimum_retained_sequence == stream.stream_head + 1 || (stream.stream_head
                == i64::MAX && stream.minimum_retained_sequence == i64::MAX) {
                None
            } else {
                Some(OrmErrorCode::InternalError)
            }
        } else if stop < snapshot.rows@.len() && row_verdict(snapshot, stop as int, now) is Fault {
            Some(row_verdict(snapshot, stop as int, now)->Fault_0)
        } else {
            None
        }
    }
}

/// What a pass that does not fail does.
pub open spec fn prune_planned(snapshot: PruneSnapshot, now: i64, step: PruneStep) -> bool {
    let stream = snapshot.stream->0;
    let stop = deletable_prefix(snapshot, now, 0);
    if stream.row_version != snapshot.expected_row_version {
        step is Conflict
    } else if stop == 0 {
        if snapshot.rows@.len() > 0 && row_verdict(snapshot, 0, now) is NotReady {
            step is NotReady
        } else {
            step is Noop
        }
    } else {
        &&& step matches PruneStep::Prune(plan)
        &&& plan.stream_id == stream.id
        &&& plan.expected_row_version == stream.row_version
        &&& plan.minimum_retained_sequence == stream.minimum_retained_sequence + stop
        &&& plan.delete_ids@ == Seq::new(stop, |i: int| snapshot.rows@[i].id)
        &&& exists|versions: Seq<Seq<char>>|
            {
                &&& strictly_ordered(versions)
                &&& versions.to_set() == policy_versions(snapshot, stop)
                &&& pruning_audited(
                    plan.audit,
                    stream.id,
                    hex_text(sha256_digest(#[trigger] policy_version_message(versions))),
                )
            }
    }
}

/// The row whose policy lookup serves the row at `index`.
fn find_lookup_row(rows: &Vec<AiInboxEventRecord>, index: usize) -> (position: usize)
    requires
        index < rows@.len(),
    ensures
        position == lookup_row(rows@, index as int),
        position <= index,
{
    let mut i: usize = 0;
    proof {
        assert(first_with_key(rows@, rows@[index as int].scope_key@, 0) == 0);
    }
    while i < index
        invariant
            i <= index,
            index < rows@.len(),
            first_with_key(rows@, rows@[index as int].scope_key@, i as nat) == i,
        decreases index - i,
    {
        if same_text(rows[i].scope_key.as_str(), rows[index].scope_key.as_str()) {
            proof {
                assert(first_with_key(rows@, rows@[index as int].scope_key@, (i + 1) as nat) == i);
                lemma_first_key_stays(
                    rows@,
                    rows@[index as int].scope_key@,
                    (i + 1) as nat,
                    index as nat,
                );
            }
            return i;
        }
        i += 1;
    }
    i
}

proof fn lemma_first_key_stays(
    rows: Seq<AiInboxEventRecord>,
    key: Seq<char>,
    known: nat,
    limit: nat,
)
    requires
        known <= limit,
        first_with_key(rows, key, known) < known,
    ensures
        first_with_key(rows, key, limit) == first_with_key(rows, key, known),
    decreases limit,
{
    if known < limit {
        lemma_first_key_stays(rows, key, known, (limit - 1) as nat);
    }
}

proof fn lemma_first_key_within(rows: Seq<AiInboxEventRecord>, key: Seq<char>, limit: nat)
    ensures
        0 <= first_with_key(rows, key, limit) <= limit,
        first_with_key(rows, key, limit) < limit ==> rows[first_with_key(
            rows,
            key,
            limit,
        )].scope_key@ == key && first_with_key(
            rows,
            key,
            first_with_key(rows, key, limit) as nat,
        ) == first_with_key(rows, key, limit),
    decreases limit,
{
    if limit > 0 {
        lemma_first_key_within(rows, key, (limit - 1) as nat);
    }
}

/// A row that was deleted was released by a usable policy.
proof fn lemma_deleted_lookup(snapshot: PruneSnapshot, index: int, now: i64)
    requires
        0 <= index < snapshot.rows@.len(),
        row_verdict(snapshot, index, now) is Delete,
        lookup_row(snapshot.rows@, index) == index,
    ensures
        snapshot.policies@[index]@.len() == 1,
        snapshot.policies@[index]@[0].inbox_event_retention_seconds is Some,
        snapshot.policies@[index]@[0].inbox_minimum_events is Some,
        1 <= snapshot.policies@[index]@[0].inbox_minimum_events->0,
        0 <= snapshot.policies@[index]@[0].inbox_event_retention_seconds->0,
{
}

enum RowStep {
    Fault(OrmErrorCode),
    NotReady,
    Keep,
    Delete,
}

fn judge_row(
    snapshot: &PruneSnapshot,
    stream: &AiInboxStreamRecord,
    index: usize,
    now: i64,
) -> (step: RowStep)
    requires
        snapshot.stream == Some(*stream),
        stream_consistent(*stream),
        index < snapshot.rows@.len(),
        snapshot.policies@.len() == snapshot.rows@.len(),
        forall|k: int| 0 <= k < index ==> row_verdict(*snapshot, k, now) is Delete,
    ensures
        match step {
            RowStep::Fault(code) => row_verdict(*snapshot, index as int, now)
                == RowVerdict::Fault(code),
            RowStep::NotReady => row_verdict(*snapshot, index as int, now) is NotReady,
            RowStep::Keep => row_verdict(*snapshot, index as int, now) is Keep,
            RowStep::Delete => row_verdict(*snapshot, index as int, now) is Delete,
        },
        step is Delete ==> {
            let lookup = lookup_row(snapshot.rows@, index as int);
            0 <= lookup <= index && snapshot.policies@[lookup]@.len() > 0
        },
{
    let row = &snapshot.rows[index];
    let expected: i128 = stream.minimum_retained_sequence as i128 + index as i128;
    if !same_text(row.principal_kind.as_str(), stream.principal_kind.as_str()) || !same_text(
        row.principal_subject.as_str(),
        stream.principal_subject.as_str(),
    ) || row.sequence as i128 != expected || row.sequence > stream.stream_head || expected
        == i64::MAX as i128 {
        return RowStep::Fault(OrmErrorCode::InternalError);
    }
    let scope = AiScope {
        kind: row.scope_kind.clone(),
        id: row.scope_id.clone(),
        tenant_id: clone_text_option(&row.tenant_id),
    };
    let key = ai_scope_key(&scope);
    if !same_text(row.scope_key.as_str(), key.as_str()) {
        return RowStep::Fault(OrmErrorCode::InternalError);
    }
    let lookup: usize = find_lookup_row(&snapshot.rows, index);
    let found = &snapshot.policies[lookup];
    if lookup == index {
        if found.len() > 1 {
            return RowStep::Fault(OrmErrorCode::AuthorizationMisconfigured);
        }
        if found.len() == 0 || !valid_retention_policy(&found[0], &scope, row.scope_key.as_str()) {
            return RowStep::NotReady;
        }
    } else {
        proof {
            lemma_first_key_within(snapshot.rows@, row.scope_key@, index as nat);
            lemma_deleted_lookup(*snapshot, lookup as int, now);
        }
    }
    let seconds: i64 = match found[0].inbox_event_retention_seconds {
        Some(seconds) => seconds,
        None => return RowStep::Fault(OrmErrorCode::InternalError),
    };
    let minimum: i64 = match found[0].inbox_minimum_events {
        Some(minimum) => minimum,
        None => return RowStep::Fault(OrmErrorCode::InternalError),
    };
    let cutoff: i64 = match now.checked_sub(seconds) {
        Some(cutoff) => cutoff,
        None => return RowStep::Fault(OrmErrorCode::InternalError),
    };
    if row.sequence > stream.stream_head - minimum || row.created_at > cutoff {
        RowStep::Keep
    } else {
        RowStep::Delete
    }
}

proof fn lemma_prefix_step(snapshot: PruneSnapshot, now: i64, count: nat)
    requires
        count <= snapshot.rows@.len(),
        forall|k: int| 0 <= k < count ==> row_verdict(snapshot, k, now) is Delete,
    ensures
        deletable_prefix(snapshot, now, 0) == deletable_prefix(snapshot, now, count),
    decreases count,
{
    if count > 0 {
        lemma_prefix_step(snapshot, now, (count - 1) as nat);
        assert(row_verdict(snapshot, count - 1, now) is Delete);
    }
}

/// Plans one pass over one stream.
#[verifier::rlimit(40)]
pub fn prune_stream(snapshot: &PruneSnapshot, now: i64) -> (result: Result<PruneStep, OrmErrorCode>)
    requires
        snapshot.policies@.len() == snapshot.rows@.len(),
    ensures
        match result {
            Err(code) => prune_fault(*snapshot, now) == Some(code),
            Ok(step) => prune_fault(*snapshot, now) is None && prune_planned(*snapshot, now, step),
        },
{
    let stream: &AiInboxStreamRecord = match &snapshot.stream {
        Some(stream) => stream,
        None => return Err(OrmErrorCode::NotFound),
    };
    if stream.row_version != snapshot.expected_row_version {
        return Ok(PruneStep::Conflict);
    }
    match validate_stream(stream) {
        Ok(()) => {},
        Err(code) => return Err(code),
    }
    if snapshot.rows.len() == 0 {
        let past_head: i64 = if stream.stream_head == i64::MAX {
            i64::MAX
        } else {
            stream.stream_head + 1
        };
        if stream.minimum_retained_sequence != past_head {
            return Err(OrmErrorCode::InternalError);
        }
        return Ok(PruneStep::Noop);
    }
    let mut versions: Vec<String> = Vec::new();
    let mut delete_ids: Vec<Uuid> = Vec::new();
    let mut not_ready: bool = false;
    let mut i: usize = 0;
    proof {
        assert(texts(versions@) =~= Seq::<Seq<char>>::empty());
        assert(texts(versions@).to_set() =~= Set::<Seq<char>>::empty());
    }
    while i < snapshot.rows.len()
        invariant_except_break
            !not_ready,
        invariant
            snapshot.stream == Some(*stream),
            stream_consistent(*stream),
            snapshot.rows@.len() > 0,
            stream.row_version == snapshot.expected_row_version,
            !blank(stream.principal_kind@),
            !blank(stream.principal_subject@),
            snapshot.policies@.len() == snapshot.rows@.len(),
            i <= snapshot.rows@.len(),
            forall|k: int| 0 <= k < i ==> row_verdict(*snapshot, k, now) is Delete,
            deletable_prefix(*snapshot, now, 0) == deletable_prefix(*snapshot, now, i as nat),
            delete_ids@ == Seq::new(i as nat, |k: int| snapshot.rows@[k].id),
            strictly_ordered(texts(versions@)),
            texts(versions@).to_set() == policy_versions(*snapshot, i as nat),
        ensures
            i == deletable_prefix(*snapshot, now, 0),
            i < snapshot.rows@.len() ==> !(row_verdict(*snapshot, i as int, now) is Fault),
            not_ready == (i < snapshot.rows@.len() && row_verdict(*snapshot, i as int, now)
                is NotReady),
        decreases snapshot.rows@.len() - i,
    {
        match judge_row(snapshot, stream, i, now) {
            RowStep::Fault(code) => return Err(code),
            RowStep::NotReady => {
                not_ready = true;
                break;
            },
            RowStep::Keep => {
                break;
            },
            RowStep::Delete => {
                let lookup: usize = find_lookup_row(&snapshot.rows, i);
                let policy = &snapshot.policies[lookup][0];
                let id = uuid_to_string(policy.id);
                let version = integer_to_string(policy.row_version);
                let label = join(id.as_str(), ":");
                insert_ordered(&mut versions, join(label.as_str(), version.as_str()));
                delete_ids.push(snapshot.rows[i].id);
                proof {
                    assert(delete_ids@ =~= Seq::new(
                        (i + 1) as nat,
                        |k: int| snapshot.rows@[k].id,
                    ));
                }
                i += 1;
                proof {
                    lemma_prefix_step(*snapshot, now, i as nat);
                }
            },
        }
    }
    if delete_ids.len() == 0 {
        return Ok(
            if not_ready {
                PruneStep::NotReady
            } else {
                PruneStep::Noop
            },
        );
    }
    proof {
        assert(row_verdict(*snapshot, i as int - 1, now) is Delete);
    }
    let minimum: i64 = stream.minimum_retained_sequence + delete_ids.len() as i64;
    let audit = AuditFact {
        actor_principal_kind: "system".to_owned(),
        actor_subject: "inbox-retention".to_owned(),
        action: "prune_inbox_events".to_owned(),
        resource_kind: "ai_inbox_stream".to_owned(),
        resource_reference: uuid_to_string(stream.id),
        outcome: "allowed".to_owned(),
        reason_code: "retention_prefix_expired".to_owned(),
        policy_version: Some(policy_version_hash(&versions)),
    };
    Ok(
        PruneStep::Prune(
            PrunePlan {
                stream_id: stream.id,
                expected_row_version: stream.row_version,
                minimum_retained_sequence: minimum,
                delete_ids,
                audit,
            },
        ),
    )
}

/// Pruning keeps a stream consistent, moves its minimum forward by exactly the
/// number of deleted events, and always keeps at least as many of the newest
/// events as the policy of each deleted event demands.
pub proof fn pruning_keeps_stream_consistent(snapshot: PruneSnapshot, now: i64, plan: PrunePlan)
    requires
        prune_fault(snapshot, now) is None,
        prune_planned(snapshot, now, PruneStep::Prune(plan)),
    ensures
        ({
            let stream = snapshot.stream->0;
            let after = AiInboxStreamRecord {
                minimum_retained_sequence: plan.minimum_retained_sequence,
                ..stream
            };
            &&& stream_consistent(after)
            &&& after.minimum_retained_sequence == stream.minimum_retained_sequence
                + plan.delete_ids@.len()
            &&& forall|k: int|
                0 <= k < plan.delete_ids@.len() ==> {
                    let policy = snapshot.policies@[lookup_row(snapshot.rows@, k)]@[0];
                    &&& (#[trigger] snapshot.rows@[k]).sequence <= stream.stream_head
                        - policy.inbox_minimum_events->0
                    &&& snapshot.rows@[k].created_at <= now
                        - policy.inbox_event_retention_seconds->0
                }
        }),
{
    let stop = deletable_prefix(snapshot, now, 0);
    lemma_prefix_deletes(snapshot, now, 0);
    assert forall|k: int| 0 <= k < stop implies ({
        let policy = snapshot.policies@[lookup_row(snapshot.rows@, k)]@[0];
        &&& (#[trigger] snapshot.rows@[k]).sequence <= snapshot.stream->0.stream_head
            - policy.inbox_minimum_events->0
        &&& snapshot.rows@[k].created_at <= now - policy.inbox_event_retention_seconds->0
    }) by {
        assert(row_verdict(snapshot, k, now) is Delete);
    }
    assert(row_verdict(snapshot, stop - 1, now) is Delete);
    assert(snapshot.rows@[stop - 1].sequence == snapshot.stream->0.minimum_retained_sequence + stop
        - 1);
}

proof fn lemma_prefix_deletes(snapshot: PruneSnapshot, now: i64, from: nat)
    requires
        from <= snapshot.rows@.len(),
    ensures
        from <= deletable_prefix(snapshot, now, from) <= snapshot.rows@.len(),
        forall|k: int|
            from <= k < deletable_prefix(snapshot, now, from) ==> row_verdict(
                snapshot,
                k,
                now,
            ) is Delete,
    decreases snapshot.rows@.len() - from,
{
    if from < snapshot.rows@.len() && row_verdict(snapshot, from as int, now) is Delete {
        lemma_prefix_deletes(snapshot, now, from + 1);
    }
}

/// Counts of one retention pass.
#[derive(Clone, Copy, Debug, PartialEq, Eq, Structural)]
pub struct AiInboxPruningReport {
    pub streams_scanned: u32,
    pub streams_pruned: u32,
    pub streams_not_ready: u32,
    pub streams_conflicted: u32,
    pub events_deleted: u32,
}

/// Result of the pass over one stream.
#[derive(Clone, Copy, Debug, PartialEq, Eq, Structural)]
pub enum PruneStreamOutcome {
    Noop,
    NotReady,
    Conflict,
    Pruned(usize),
}

/// Number of outcomes that satisfy a condition.
pub open spec fn count_outcomes(
    outcomes: Seq<PruneStreamOutcome>,
    counted: spec_fn(PruneStreamOutcome) -> bool,
) -> nat {
    outcomes.filter(counted).len()
}

/// Deleted events over all outcomes.
pub open spec fn total_deleted(outcomes: Seq<PruneStreamOutcome>) -> nat
    decreases outcomes.len(),
{
    if outcomes.len() == 0 {
        0
    } else {
        total_deleted(outcomes.drop_last()) + match outcomes.last() {
            PruneStreamOutcome::Pruned(count) => count as nat,
            _ => 0,
        }
    }
}

/// The report of a pass with these outcomes. Deleted events are counted up to
/// the largest representable number.
pub fn pruning_report(outcomes: &Vec<PruneStreamOutcome>) -> (result: Result<
    AiInboxPruningReport,
    AiError,
>)
    ensures
        match result {
            Ok(report) => {
                &&& outcomes@.len() <= u32::MAX
                &&& forall|k: int|
                    0 <= k < outcomes@.len() ==> (#[trigger] outcomes@[k] matches
                        PruneStreamOutcome::Pruned(count) ==> count <= u32::MAX)
                &&& report.streams_scanned == outcomes@.len()
                &&& report.streams_pruned == count_outcomes(
                    outcomes@,
                    |item: PruneStreamOutcome| item is Pruned,
                )
                &&& report.streams_not_ready == count_outcomes(
                    outcomes@,
                    |item: PruneStreamOutcome| item is NotReady,
                )
                &&& report.streams_conflicted == count_outcomes(
                    outcomes@,
                    |item: PruneStreamOutcome| item is Conflict,
                )
                &&& report.events_deleted == if total_deleted(outcomes@) <= u32::MAX {
                    total_deleted(outcomes@)
                } else {
                    u32::MAX as nat
                }
            },
            Err(error) => error@ == ErrorModel::PersistenceFailed && (outcomes@.len() > u32::MAX
                || exists|k: int|
                0 <= k < outcomes@.len() && (#[trigger] outcomes@[k] matches
                    PruneStreamOutcome::Pruned(count) && count > u32::MAX)),
        },
{
    if outcomes.len() > u32::MAX as usize {
        return Err(AiError::PersistenceFailed);
    }
    let mut report = AiInboxPruningReport {
        streams_scanned: outcomes.len() as u32,
        streams_pruned: 0,
        streams_not_ready: 0,
        streams_conflicted: 0,
        events_deleted: 0,
    };
    let ghost pruned = |item: PruneStreamOutcome| item is Pruned;
    let ghost unready = |item: PruneStreamOutcome| item is NotReady;
    let ghost conflicted = |item: PruneStreamOutcome| item is Conflict;
    let mut i: usize = 0;
    proof {
        reveal(Seq::filter);
    }
    while i < outcomes.len()
        invariant
            i <= outcomes@.len(),
            outcomes@.len() <= u32::MAX,
            pruned == (|item: PruneStreamOutcome| item is Pruned),
            unready == (|item: PruneStreamOutcome| item is NotReady),
            conflicted == (|item: PruneStreamOutcome| item is Conflict),
            forall|k: int|
                0 <= k < i ==> (#[trigger] outcomes@[k] matches PruneStreamOutcome::Pruned(count)
                    ==> count <= u32::MAX),
            report.streams_scanned == outcomes@.len(),
            report.streams_pruned == count_outcomes(outcomes@.subrange(0, i as int), pruned),
            report.streams_not_ready == count_outcomes(outcomes@.subrange(0, i as int), unready),
            report.streams_conflicted == count_outcomes(
                outcomes@.subrange(0, i as int),
                conflicted,
            ),
            report.streams_pruned <= i,
            report.streams_not_ready <= i,
            report.streams_conflicted <= i,
            report.events_deleted == if total_deleted(outcomes@.subrange(0, i as int)) <= u32::MAX {
                total_deleted(outcomes@.subrange(0, i as int))
            } else {
                u32::MAX as nat
            },
        decreases outcomes@.len() - i,
    {
        proof {
            reveal(Seq::filter);
            let next = outcomes@.subrange(0, i as int + 1);
            assert(next.drop_last() =~= outcomes@.subrange(0, i as int));
            assert(next.last() == outcomes@[i as int]);
        }
        match outcomes[i] {
            PruneStreamOutcome::Noop => {},
            PruneStreamOutcome::NotReady => {
                report.streams_not_ready = report.streams_not_ready + 1;
            },
            PruneStreamOutcome::Conflict => {
                report.streams_conflicted = report.streams_conflicted + 1;
            },
            PruneStreamOutcome::Pruned(count) => {
                if count > u32::MAX as usize {
                    assert(outcomes@[i as int] matches PruneStreamOutcome::Pruned(large) && large
                        > u32::MAX);
                    return Err(AiError::PersistenceFailed);
                }
                report.streams_pruned = report.streams_pruned + 1;
                report.events_deleted = report.events_deleted.saturating_add(count as u32);
            },
        }
        i += 1;
    }
    proof {
        assert(outcomes@.subrange(0, i as int) =~= outcomes@);
    }
    Ok(report)
}

/// A policy governs the inbox of a scope exactly where it is stored for it,
/// under its key, and retains for a minute up to ten years, and one up to a
/// hundred thousand events.
pub proof fn governing_policies_are_of_the_scope(
    policy: AiRetentionPolicyRecord,
    scope: ScopeModel,
    expected_scope_key: Seq<char>,
)
    ensures
        retention_policy_governs(policy, scope, expected_scope_key) <==> {
            &&& policy.scope_key is Some && policy.scope_key->0@ == expected_scope_key
            &&& policy.scope_kind@ == scope.kind
            &&& policy.scope_id@ == scope.id
            &&& text_option(policy.tenant_id) == scope.tenant_id
            &&& policy.inbox_event_retention_seconds is Some && 60
                <= policy.inbox_event_retention_seconds->0 <= 315_576_000
            &&& policy.inbox_minimum_events is Some && 1 <= policy.inbox_minimum_events->0
                <= 100_000
        },
{
}

proof fn lemma_lookup_is_first(rows: Seq<AiInboxEventRecord>, key: Seq<char>, limit: nat)
    ensures
        ({
            let found = first_with_key(rows, key, limit);
            &&& 0 <= found <= limit
            &&& found < limit ==> rows[found].scope_key@ == key
            &&& forall|j: int| 0 <= j < found ==> (#[trigger] rows[j]).scope_key@ != key
        }),
    decreases limit,
{
    if limit > 0 {
        lemma_lookup_is_first(rows, key, (limit - 1) as nat);
    }
}

/// The policy of an event is the one that was looked up for the first event
/// with the same scope key.
pub proof fn policies_are_looked_up_once(rows: Seq<AiInboxEventRecord>, index: int)
    requires
        0 <= index < rows.len(),
    ensures
        0 <= lookup_row(rows, index) <= index,
        rows[lookup_row(rows, index)].scope_key@ == rows[index].scope_key@,
        forall|j: int|
            0 <= j < lookup_row(rows, index) ==> (#[trigger] rows[j]).scope_key@
                != rows[index].scope_key@,
{
    lemma_lookup_is_first(rows, rows[index].scope_key@, index as nat);
}

/// The first event of its scope is deleted exactly where it is the next one of
/// the stream's principal, has the key of its own scope, and the only policy
/// of that scope has released it: it is old enough, and enough newer ones stay.
pub proof fn events_are_deleted_where_released(snapshot: PruneSnapshot, index: int, now: i64)
    requires
        0 <= index < snapshot.rows@.len(),
        lookup_row(snapshot.rows@, index) == index,
    ensures
        row_verdict(snapshot, index, now) is Delete <==> {
            let stream = snapshot.stream->0;
            let row = snapshot.rows@[index];
            let policy = snapshot.policies@[index]@[0];
            &&& row.principal_kind@ == stream.principal_kind@
            &&& row.principal_subject@ == stream.principal_subject@
            &&& row.sequence == stream.minimum_retained_sequence + index
            &&& row.sequence <= stream.stream_head && row.sequence < i64::MAX
            &&& row.scope_key@ == scope_key_text(captured_scope(row))
            &&& snapshot.policies@[index]@.len() == 1
            &&& retention_policy_governs(policy, captured_scope(row), row.scope_key@)
            &&& now - policy.inbox_event_retention_seconds->0 >= i64::MIN
            &&& row.created_at + policy.inbox_event_retention_seconds->0 <= now
            &&& row.sequence + policy.inbox_minimum_events->0 <= stream.stream_head
        },
        captured_scope(snapshot.rows@[index]).kind == snapshot.rows@[index].scope_kind@,
        captured_scope(snapshot.rows@[index]).id == snapshot.rows@[index].scope_id@,
        captured_scope(snapshot.rows@[index]).tenant_id == text_option(
            snapshot.rows@[index].tenant_id,
        ),
{
}

/// Any deleted event, the first of its scope or a later one, is the next one of
/// the stream's principal, and is released by the policy of its scope key.
pub proof fn deleted_events_were_released(snapshot: PruneSnapshot, index: int, now: i64)
    requires
        0 <= index < snapshot.rows@.len(),
        row_verdict(snapshot, index, now) is Delete,
    ensures
        ({
            let stream = snapshot.stream->0;
            let row = snapshot.rows@[index];
            let policy = snapshot.policies@[lookup_row(snapshot.rows@, index)]@[0];
            &&& row.principal_kind@ == stream.principal_kind@
            &&& row.principal_subject@ == stream.principal_subject@
            &&& row.sequence == stream.minimum_retained_sequence + index
            &&& row.scope_key@ == scope_key_text(captured_scope(row))
            &&& row.created_at + policy.inbox_event_retention_seconds->0 <= now
            &&& row.sequence + policy.inbox_minimum_events->0 <= stream.stream_head
        }),
{
}

proof fn lemma_prefix_is_longest(snapshot: PruneSnapshot, now: i64, from: nat)
    requires
        from <= snapshot.rows@.len(),
    ensures
        ({
            let stop = deletable_prefix(snapshot, now, from);
            &&& from <= stop <= snapshot.rows@.len()
            &&& stop < snapshot.rows@.len() ==> !(row_verdict(snapshot, stop as int, now) is Delete)
        }),
    decreases snapshot.rows@.len() - from,
{
    if from < snapshot.rows@.len() && row_verdict(snapshot, from as int, now) is Delete {
        lemma_prefix_is_longest(snapshot, now, from + 1);
    }
}

/// A pass deletes the longest prefix: every event of it may be deleted, and the
/// next one, where there is one, may not. It deletes these very events, moves
/// the minimum past them, and does so only over the version that was read.
pub proof fn passes_delete_the_longest_prefix(snapshot: PruneSnapshot, now: i64, plan: PrunePlan)
    requires
        prune_planned(snapshot, now, PruneStep::Prune(plan)),
    ensures
        ({
            let count = plan.delete_ids@.len();
            &&& 0 < count <= snapshot.rows@.len()
            &&& forall|k: int|
                0 <= k < count ==> #[trigger] plan.delete_ids@[k] == snapshot.rows@[k].id
                    && row_verdict(snapshot, k, now) is Delete
            &&& count < snapshot.rows@.len() ==> !(row_verdict(snapshot, count as int, now)
                is Delete)
            &&& plan.minimum_retained_sequence == snapshot.stream->0.minimum_retained_sequence
                + count
            &&& plan.stream_id == snapshot.stream->0.id
            &&& plan.expected_row_version == snapshot.expected_row_version
            &&& snapshot.stream->0.row_version == snapshot.expected_row_version
            &&& plan.audit.action@ == "prune_inbox_events"@
            &&& plan.audit.resource_kind@ == "ai_inbox_stream"@
            &&& plan.audit.resource_reference@ == uuid_text(snapshot.stream->0.id)
            &&& plan.audit.outcome@ == "allowed"@
            &&& plan.audit.policy_version is Some
        }),
{
    lemma_prefix_deletes(snapshot, now, 0);
    lemma_prefix_is_longest(snapshot, now, 0);
}

/// A pass finds a conflict exactly where the stream changed; otherwise it does
/// nothing where the oldest event may not be deleted, and says so where that is
/// for want of a policy.
pub proof fn passes_stop_at_what_must_stay(snapshot: PruneSnapshot, now: i64, step: PruneStep)
    requires
        prune_planned(snapshot, now, step),
    ensures
        step is Conflict <==> snapshot.stream->0.row_version != snapshot.expected_row_version,
        step is Prune <==> snapshot.stream->0.row_version == snapshot.expected_row_version
            && snapshot.rows@.len() > 0 && row_verdict(snapshot, 0, now) is Delete,
        step is NotReady <==> snapshot.stream->0.row_version == snapshot.expected_row_version
            && snapshot.rows@.len() > 0 && row_verdict(snapshot, 0, now) is NotReady,
{
    lemma_prefix_is_longest(snapshot, now, 0);
    if snapshot.rows@.len() > 0 && row_verdict(snapshot, 0, now) is Delete {
        lemma_prefix_is_longest(snapshot, now, 1);
    }
}

/// The audited policy versions are those of the deleted events, all of them and
/// no others.
pub proof fn audited_versions_are_of_the_deleted(
    snapshot: PruneSnapshot,
    count: nat,
    version: Seq<char>,
)
    ensures
        policy_versions(snapshot, count).contains(version) <==> exists|k: int|
            0 <= k < count && version == #[trigger] policy_version_text(snapshot, k),
    decreases count,
{
    if count > 0 {
        audited_versions_are_of_the_deleted(snapshot, (count - 1) as nat, version);
        if version == policy_version_text(snapshot, count - 1) {
            assert(exists|k: int|
                0 <= k < count && version == #[trigger] policy_version_text(snapshot, k));
        }
    }
}

/// Every pruned stream adds what was deleted of it; no other adds anything.
pub proof fn deletions_add_up(outcomes: Seq<PruneStreamOutcome>, outcome: PruneStreamOutcome)
    ensures
        total_deleted(Seq::empty()) == 0,
        total_deleted(outcomes.push(outcome)) == total_deleted(outcomes) + (match outcome {
            PruneStreamOutcome::Pruned(count) => count as nat,
            _ => 0,
        }),
{
    assert(outcomes.push(outcome).drop_last() =~= outcomes);
}

/// A pass fails as not found without its stream, as misconfigured where a scope
/// has more than one policy, and otherwise as a fault of the store; a stream
/// that moved on fails nothing.
pub proof fn failed_passes_say_why(snapshot: PruneSnapshot, now: i64)
    ensures
        prune_fault(snapshot, now) == Some(OrmErrorCode::NotFound) <==> snapshot.stream is None,
        snapshot.stream is Some && snapshot.stream->0.row_version != snapshot.expected_row_version
            ==> prune_fault(snapshot, now) is None,
        snapshot.stream is Some && prune_fault(snapshot, now) is Some ==> prune_fault(snapshot, now)
            == Some(OrmErrorCode::InternalError) || prune_fault(snapshot, now) == Some(
            OrmErrorCode::AuthorizationMisconfigured,
        ),
{
}

/// A row of another principal, out of order, or of a scope that it does not
/// name is a fault of the store; a scope with more than one policy is
/// misconfigured.
pub proof fn faulty_rows_say_why(snapshot: PruneSnapshot, index: int, now: i64)
    ensures
        ({
            let verdict = row_verdict(snapshot, index, now);
            let stream = snapshot.stream->0;
            let row = snapshot.rows@[index];
            let expected = stream.minimum_retained_sequence + index;
            let own = row.principal_kind@ == stream.principal_kind@ && row.principal_subject@
                == stream.principal_subject@ && row.sequence == expected && row.sequence
                <= stream.stream_head && expected != i64::MAX && row.scope_key@ == scope_key_text(
                captured_scope(row),
            );
            let lookup = lookup_row(snapshot.rows@, index);
            &&& !own ==> verdict == RowVerdict::Fault(OrmErrorCode::InternalError)
            &&& own && lookup == index && snapshot.policies@[lookup]@.len() > 1 ==> verdict
                == RowVerdict::Fault(OrmErrorCode::AuthorizationMisconfigured)
            &&& own && lookup == index && snapshot.policies@[lookup]@.len() == 0 ==> verdict
                is NotReady
        }),
{
}

} // verus!
