//! Context checkpoints and the chain they form.
//!
//! Every valid checkpoint of a session belongs to one chain that leads from
//! the latest one to the first. A chain is accepted only as a whole.

use crate::compaction::limits::{AiContextCompactionLimits, CompactionBounds};
use crate::digest::Uuid;
use crate::error::{AiError, ErrorModel, accepted_or, outcome, refusal};
use crate::text::{blank, bounded_text, byte_len, is_bounded_text, same_text, text_len};
use vstd::prelude::*;

verus! {

/// One persisted context checkpoint, apart from its protected summary.
#[derive(Debug, PartialEq, Eq)]
pub struct AiContextCheckpointRecord {
    pub id: Uuid,
    pub session_id: Uuid,
    pub through_sequence: i64,
    pub source_hash: String,
    pub token_estimate: i64,
    pub provider_kind: String,
    pub provider_model: String,
    pub invalidated_at: Option<i64>,
}

impl Clone for AiContextCheckpointRecord {
    fn clone(&self) -> (result: AiContextCheckpointRecord)
        ensures
            result == *self,
    {
        AiContextCheckpointRecord {
            id: self.id,
            session_id: self.session_id,
            through_sequence: self.through_sequence,
            source_hash: self.source_hash.clone(),
            token_estimate: self.token_estimate,
            provider_kind: self.provider_kind.clone(),
            provider_model: self.provider_model.clone(),
            invalidated_at: self.invalidated_at,
        }
    }
}

/// Redacted provenance for one directly summarized message.
#[derive(Debug, PartialEq, Eq)]
pub struct AiContextSourceMessage {
    pub(crate) message_id: Uuid,
    pub(crate) sequence: i64,
    pub(crate) role: String,
    pub(crate) block_ids: Vec<Uuid>,
}

/// Values of [`AiContextSourceMessage`].
pub struct SourceMessageModel {
    pub message_id: Uuid,
    pub sequence: i64,
    pub role: Seq<char>,
    pub block_ids: Seq<Uuid>,
}

impl View for AiContextSourceMessage {
    type V = SourceMessageModel;

    closed spec fn view(&self) -> SourceMessageModel {
        SourceMessageModel {
            message_id: self.message_id,
            sequence: self.sequence,
            role: self.role@,
            block_ids: self.block_ids@,
        }
    }
}

impl AiContextSourceMessage {
    /// Provenance of one message, as read from an opened checkpoint.
    pub fn new(message_id: Uuid, sequence: i64, role: String, block_ids: Vec<Uuid>) -> (message:
        AiContextSourceMessage)
        ensures
            message@ == (SourceMessageModel {
                message_id,
                sequence,
                role: role@,
                block_ids: block_ids@,
            }),
    {
        AiContextSourceMessage { message_id, sequence, role, block_ids }
    }

    /// Message identifier.
    pub fn message_id(&self) -> (id: Uuid)
        ensures
            id == self@.message_id,
    {
        self.message_id
    }

    /// Stable session message sequence.
    pub fn sequence(&self) -> (sequence: i64)
        ensures
            sequence == self@.sequence,
    {
        self.sequence
    }

    /// Canonical user or assistant role.
    pub fn role(&self) -> (role: &str)
        ensures
            role@ == self@.role,
    {
        self.role.as_str()
    }

    /// Ordered content-block identifiers bound into the checkpoint.
    pub fn block_ids(&self) -> (ids: &Vec<Uuid>)
        ensures
            ids@ == self@.block_ids,
    {
        &self.block_ids
    }
}

/// The checkpoint that a summary extends.
#[derive(Debug, PartialEq, Eq)]
pub struct StoredParent {
    pub checkpoint_id: Uuid,
    pub through_sequence: i64,
    pub source_hash: String,
}

/// The opened content of a context checkpoint.
#[derive(PartialEq, Eq)]
pub struct StoredCheckpointPayload {
    pub format_version: u32,
    pub checkpoint_id: Uuid,
    pub session_id: Uuid,
    pub through_sequence: i64,
    pub source_hash: String,
    pub summary: String,
    pub parent: Option<StoredParent>,
    pub source_messages: Vec<AiContextSourceMessage>,
    pub run_id: Uuid,
    pub attempt_id: Uuid,
    pub lease_generation: i64,
    pub budget_reservation_id: Uuid,
}

/// Lowercase hexadecimal digits.
pub open spec fn lower_hex_digit(c: char) -> bool {
    '0' <= c <= '9' || 'a' <= c <= 'f'
}

/// Digests: exactly 64 lowercase hexadecimal digits.
pub open spec fn hash_text(value: Seq<char>) -> bool {
    &&& byte_len(value) == 64
    &&& forall|i: int| 0 <= i < value.len() ==> lower_hex_digit(#[trigger] value[i])
}

/// Whether the text is a digest.
pub fn valid_hash(value: &str) -> (result: bool)
    ensures
        result == hash_text(value@),
{
    if text_len(value) != 64 {
        return false;
    }
    for c in iter: value.chars()
        invariant
            iter.seq() == value@,
            forall|i: int| 0 <= i < iter.index() ==> lower_hex_digit(#[trigger] value@[i]),
    {
        if !(('0' <= c && c <= '9') || ('a' <= c && c <= 'f')) {
            return false;
        }
    }
    true
}

/// Whether the row is a checkpoint of this session within its messages.
pub open spec fn checkpoint_row_valid(
    checkpoint: AiContextCheckpointRecord,
    session_id: Uuid,
    message_head: i64,
) -> bool {
    &&& checkpoint.id != 0
    &&& checkpoint.session_id == session_id
    &&& 0 < checkpoint.through_sequence <= message_head
    &&& hash_text(checkpoint.source_hash@)
    &&& checkpoint.token_estimate > 0
    &&& bounded_text(checkpoint.provider_kind@, 200)
    &&& bounded_text(checkpoint.provider_model@, 200)
}

/// Accepts exactly the valid checkpoint rows.
pub fn validate_checkpoint_record(
    checkpoint: &AiContextCheckpointRecord,
    session_id: Uuid,
    message_head: i64,
) -> (result: Result<(), AiError>)
    ensures
        outcome(result) == accepted_or(
            checkpoint_row_valid(*checkpoint, session_id, message_head),
            ErrorModel::PersistenceFailed,
        ),
{
    if checkpoint.id != 0 && checkpoint.session_id == session_id && checkpoint.through_sequence > 0
        && checkpoint.through_sequence <= message_head && valid_hash(
        checkpoint.source_hash.as_str(),
    ) && checkpoint.token_estimate > 0 && is_bounded_text(checkpoint.provider_kind.as_str(), 200)
        && is_bounded_text(checkpoint.provider_model.as_str(), 200) {
        Ok(())
    } else {
        Err(AiError::PersistenceFailed)
    }
}

/// Roles of summarized messages.
pub open spec fn message_role(role: Seq<char>) -> bool {
    role == "user"@ || role == "assistant"@
}

/// Whether the text is the role of a summarized message.
pub fn is_message_role(role: &str) -> (result: bool)
    ensures
        result == message_role(role@),
{
    same_text(role, "user") || same_text(role, "assistant")
}

/// The first message that a checkpoint with this parent summarizes.
pub open spec fn first_sequence(parent: Option<StoredParent>) -> int {
    match parent {
        None => 1,
        Some(parent) => if parent.through_sequence == i64::MAX {
            i64::MAX as int
        } else {
            parent.through_sequence + 1
        },
    }
}

/// Whether a message's provenance is usable and has the expected sequence.
pub open spec fn provenance_item_valid(message: SourceMessageModel, expected: int) -> bool {
    &&& message.sequence == expected
    &&& message.message_id != 0
    &&& message_role(message.role)
    &&& message.block_ids.len() > 0
    &&& forall|k: int| 0 <= k < message.block_ids.len() ==> #[trigger] message.block_ids[k] != 0
}

/// Whether the provenance covers exactly the messages after the parent up to
/// `through_sequence`, one by one.
pub open spec fn provenance_valid(
    messages: Seq<AiContextSourceMessage>,
    parent: Option<StoredParent>,
    through_sequence: i64,
) -> bool {
    let start = first_sequence(parent);
    &&& messages.len() > 0
    &&& forall|i: int|
        0 <= i < messages.len() ==> provenance_item_valid(
            (#[trigger] messages[i])@,
            if start + i <= i64::MAX {
                start + i
            } else {
                i64::MAX as int
            },
        )
    &&& messages.last()@.sequence == through_sequence
}

fn is_provenance_item_valid(message: &AiContextSourceMessage, expected: i64) -> (result: bool)
    ensures
        result == provenance_item_valid(message@, expected as int),
{
    if message.sequence != expected || message.message_id == 0 || !is_message_role(
        message.role.as_str(),
    ) || message.block_ids.len() == 0 {
        return false;
    }
    let mut i: usize = 0;
    while i < message.block_ids.len()
        invariant
            i <= message.block_ids@.len(),
            message@.block_ids == message.block_ids@,
            forall|k: int| 0 <= k < i ==> #[trigger] message.block_ids@[k] != 0,
        decreases message.block_ids@.len() - i,
    {
        if message.block_ids[i] == 0 {
            assert(message@.block_ids[i as int] == 0);
            return false;
        }
        i += 1;
    }
    true
}

/// Whether the provenance covers exactly the messages after the parent.
pub fn valid_provenance(
    messages: &Vec<AiContextSourceMessage>,
    parent: &Option<StoredParent>,
    through_sequence: i64,
) -> (result: bool)
    ensures
        result == provenance_valid(messages@, *parent, through_sequence),
{
    let start: i64 = match parent {
        Some(parent) => {
            if parent.through_sequence == i64::MAX {
                i64::MAX
            } else {
                parent.through_sequence + 1
            }
        },
        None => 1,
    };
    let mut i: usize = 0;
    while i < messages.len()
        invariant
            i <= messages@.len(),
            start == first_sequence(*parent),
            forall|k: int|
                0 <= k < i ==> provenance_item_valid(
                    (#[trigger] messages@[k])@,
                    if start + k <= i64::MAX {
                        start + k
                    } else {
                        i64::MAX as int
                    },
                ),
        decreases messages@.len() - i,
    {
        let sum: i128 = start as i128 + i as i128;
        let expected: i64 = if sum <= i64::MAX as i128 {
            sum as i64
        } else {
            i64::MAX
        };
        if !is_provenance_item_valid(&messages[i], expected) {
            assert(!provenance_item_valid(messages@[i as int]@, expected as int));
            return false;
        }
        i += 1;
    }
    if messages.len() == 0 {
        return false;
    }
    messages[messages.len() - 1].sequence == through_sequence
}

/// Whether the opened content is the one of this checkpoint row.
pub open spec fn payload_opens(
    payload: StoredCheckpointPayload,
    checkpoint: AiContextCheckpointRecord,
    bounds: CompactionBounds,
) -> bool {
    &&& payload.format_version == 1
    &&& payload.checkpoint_id == checkpoint.id
    &&& payload.session_id == checkpoint.session_id
    &&& payload.through_sequence == checkpoint.through_sequence
    &&& payload.source_hash@ == checkpoint.source_hash@
    &&& bounded_text(payload.summary@, bounds.summary_bytes)
    &&& 0 < payload.source_messages@.len() <= bounds.source_messages
    &&& payload.lease_generation > 0
    &&& payload.run_id != 0
    &&& payload.attempt_id != 0
    &&& payload.budget_reservation_id != 0
    &&& payload.parent matches Some(parent) ==> {
        &&& parent.checkpoint_id != 0
        &&& 0 < parent.through_sequence < checkpoint.through_sequence
        &&& hash_text(parent.source_hash@)
    }
    &&& provenance_valid(
        payload.source_messages@,
        payload.parent,
        payload.through_sequence,
    )
}

/// Accepts exactly the opened content of this checkpoint row.
pub fn validate_opened_checkpoint(
    payload: &StoredCheckpointPayload,
    checkpoint: &AiContextCheckpointRecord,
    limits: AiContextCompactionLimits,
) -> (result: Result<(), AiError>)
    ensures
        outcome(result) == accepted_or(
            payload_opens(*payload, *checkpoint, limits@),
            ErrorModel::PersistenceFailed,
        ),
{
    let parent_valid: bool = match &payload.parent {
        Some(parent) => parent.checkpoint_id != 0 && parent.through_sequence > 0
            && parent.through_sequence < checkpoint.through_sequence && valid_hash(
            parent.source_hash.as_str(),
        ),
        None => true,
    };
    if payload.format_version == 1 && payload.checkpoint_id == checkpoint.id && payload.session_id
        == checkpoint.session_id && payload.through_sequence == checkpoint.through_sequence
        && same_text(payload.source_hash.as_str(), checkpoint.source_hash.as_str())
        && is_bounded_text(payload.summary.as_str(), limits.maximum_summary_bytes())
        && payload.source_messages.len() > 0 && payload.source_messages.len()
        <= limits.maximum_source_messages() && payload.lease_generation > 0 && payload.run_id != 0
        && payload.attempt_id != 0 && payload.budget_reservation_id != 0 && parent_valid
        && valid_provenance(&payload.source_messages, &payload.parent, payload.through_sequence) {
        Ok(())
    } else {
        Err(AiError::PersistenceFailed)
    }
}

/// Whether the row at `index` exists and is not invalidated.
pub open spec fn is_valid_row(checkpoints: Seq<AiContextCheckpointRecord>, index: int) -> bool {
    0 <= index < checkpoints.len() && checkpoints[index].invalidated_at is None
}

/// Positions below `limit` whose row is not invalidated.
pub open spec fn valid_rows(checkpoints: Seq<AiContextCheckpointRecord>, limit: nat) -> Set<int>
    decreases limit,
{
    if limit == 0 {
        Set::empty()
    } else {
        let before = valid_rows(checkpoints, (limit - 1) as nat);
        if checkpoints[limit - 1].invalidated_at is None {
            before.insert(limit - 1)
        } else {
            before
        }
    }
}

proof fn lemma_valid_rows(checkpoints: Seq<AiContextCheckpointRecord>, limit: nat)
    requires
        limit <= checkpoints.len(),
    ensures
        valid_rows(checkpoints, limit).finite(),
        valid_rows(checkpoints, limit).len() <= limit,
        forall|i: int| #[trigger]
            valid_rows(checkpoints, limit).contains(i) <==> (0 <= i < limit
                && checkpoints[i].invalidated_at is None),
    decreases limit,
{
    if limit > 0 {
        lemma_valid_rows(checkpoints, (limit - 1) as nat);
    }
}

/// Whether no two valid rows have the same identity.
pub open spec fn valid_ids_distinct(checkpoints: Seq<AiContextCheckpointRecord>) -> bool {
    forall|i: int, j: int|
        is_valid_row(checkpoints, i) && is_valid_row(checkpoints, j) && i < j ==> (
        #[trigger] checkpoints[i]).id != (#[trigger] checkpoints[j]).id
}

/// Position of the latest valid checkpoint: the first row that is not
/// invalidated, in the order the rows were read.
pub open spec fn latest_valid(checkpoints: Seq<AiContextCheckpointRecord>, from: nat) -> Option<
    nat,
>
    decreases checkpoints.len() - from,
{
    if from >= checkpoints.len() {
        None
    } else if checkpoints[from as int].invalidated_at is None {
        Some(from)
    } else {
        latest_valid(checkpoints, from + 1)
    }
}

/// Position of the latest valid checkpoint.
pub fn find_latest_valid(checkpoints: &Vec<AiContextCheckpointRecord>) -> (result: Option<usize>)
    ensures
        match result {
            Some(position) => latest_valid(checkpoints@, 0) == Some(position as nat)
                && is_valid_row(checkpoints@, position as int),
            None => latest_valid(checkpoints@, 0) is None,
        },
{
    let mut i: usize = 0;
    while i < checkpoints.len()
        invariant
            i <= checkpoints@.len(),
            latest_valid(checkpoints@, 0) == latest_valid(checkpoints@, i as nat),
        decreases checkpoints@.len() - i,
    {
        if checkpoints[i].invalidated_at.is_none() {
            return Some(i);
        }
        i += 1;
    }
    None
}

/// Whether the visited positions are exactly the valid rows.
pub open spec fn visits_every_row(
    checkpoints: Seq<AiContextCheckpointRecord>,
    visited: Seq<int>,
) -> bool {
    forall|i: int| #[trigger] is_valid_row(checkpoints, i) <==> visited.contains(i)
}

/// Whether a parent reference names exactly this valid row.
pub open spec fn parent_names(
    checkpoints: Seq<AiContextCheckpointRecord>,
    parent: StoredParent,
    index: int,
) -> bool {
    &&& is_valid_row(checkpoints, index)
    &&& checkpoints[index].id == parent.checkpoint_id
    &&& checkpoints[index].through_sequence == parent.through_sequence
    &&& checkpoints[index].source_hash@ == parent.source_hash@
}

/// Whether a valid row is named by the parent reference.
pub open spec fn parent_exists(
    checkpoints: Seq<AiContextCheckpointRecord>,
    parent: StoredParent,
) -> bool {
    exists|i: int| #[trigger] parent_names(checkpoints, parent, i)
}

/// A chain as far as it was walked.
pub struct ChainModel {
    pub checkpoints: Seq<AiContextCheckpointRecord>,
    pub bounds: CompactionBounds,
    /// Positions of the visited rows, the latest valid one first.
    pub visited: Seq<int>,
    /// Opened contents of the visited rows, as far as they were taken.
    pub opened: Seq<StoredCheckpointPayload>,
}

/// Whether the walk started at the latest valid row, every taken content is
/// its row's own, and every further row is the one that the content before it
/// names as its parent.
pub open spec fn chain_linked(chain: ChainModel) -> bool {
    &&& valid_ids_distinct(chain.checkpoints)
    &&& chain.opened.len() <= chain.visited.len() <= chain.opened.len() + 1
    &&& latest_valid(chain.checkpoints, 0) == if chain.visited.len() == 0 {
        None
    } else {
        Some(chain.visited[0] as nat)
    }
    &&& forall|k: int|
        0 <= k < chain.visited.len() ==> is_valid_row(
            chain.checkpoints,
            #[trigger] chain.visited[k],
        )
    &&& forall|k: int|
        0 <= k < chain.opened.len() ==> payload_opens(
            #[trigger] chain.opened[k],
            chain.checkpoints[chain.visited[k]],
            chain.bounds,
        )
    &&& forall|k: int|
        0 <= k < chain.visited.len() - 1 ==> (#[trigger] chain.opened[k]).parent is Some
            && parent_names(
            chain.checkpoints,
            chain.opened[k].parent->0,
            chain.visited[k + 1],
        )
}

/// Whether the chain is accepted as a whole: it ends at a checkpoint without
/// parent, and no valid row stands outside of it.
pub open spec fn chain_accepted(chain: ChainModel) -> bool {
    &&& chain_linked(chain)
    &&& chain.opened.len() == chain.visited.len()
    &&& chain.opened.len() > 0 ==> chain.opened.last().parent is None
    &&& visits_every_row(chain.checkpoints, chain.visited)
}

/// Why the content of the row at hand is refused.
pub open spec fn advance_refusal(chain: ChainModel, payload: StoredCheckpointPayload) -> Option<
    ErrorModel,
> {
    let accepted = payload_opens(
        payload,
        chain.checkpoints[chain.visited.last()],
        chain.bounds,
    ) && match payload.parent {
        None => visits_every_row(chain.checkpoints, chain.visited),
        Some(parent) => parent_exists(chain.checkpoints, parent),
    };
    if accepted {
        None
    } else {
        Some(ErrorModel::PersistenceFailed)
    }
}

proof fn lemma_boundaries_descend(chain: ChainModel, j: int, k: int)
    requires
        chain_linked(chain),
        0 <= j < k < chain.visited.len(),
    ensures
        chain.checkpoints[chain.visited[k]].through_sequence
            < chain.checkpoints[chain.visited[j]].through_sequence,
    decreases k - j,
{
    if j + 1 < k {
        lemma_boundaries_descend(chain, j, k - 1);
    }
    assert(chain.opened[k - 1].parent is Some);
    assert(payload_opens(
        chain.opened[k - 1],
        chain.checkpoints[chain.visited[k - 1]],
        chain.bounds,
    ));
}

proof fn lemma_walk_bounded(chain: ChainModel)
    requires
        chain_linked(chain),
    ensures
        chain.visited.len() <= valid_rows(chain.checkpoints, chain.checkpoints.len()).len(),
        chain.visited.len() == valid_rows(chain.checkpoints, chain.checkpoints.len()).len()
            <==> visits_every_row(chain.checkpoints, chain.visited),
{
    let visited = chain.visited;
    let all = valid_rows(chain.checkpoints, chain.checkpoints.len());
    lemma_valid_rows(chain.checkpoints, chain.checkpoints.len());
    assert(visited.no_duplicates()) by {
        assert forall|j: int, k: int|
            0 <= j < visited.len() && 0 <= k < visited.len() && j != k implies visited[j]
            != visited[k] by {
            if j < k {
                lemma_boundaries_descend(chain, j, k);
            } else {
                lemma_boundaries_descend(chain, k, j);
            }
        }
    }
    visited.unique_seq_to_set();
    let seen = visited.to_set();
    assert(seen.subset_of(all)) by {
        assert forall|i: int| seen.contains(i) implies all.contains(i) by {
            let k = choose|k: int| 0 <= k < visited.len() && visited[k] == i;
            assert(is_valid_row(chain.checkpoints, visited[k]));
        }
    }
    vstd::set_lib::lemma_len_subset(seen, all);
    if visited.len() == all.len() {
        vstd::set_lib::lemma_subset_equality(seen, all);
        assert forall|i: int| #[trigger]
            is_valid_row(chain.checkpoints, i) <==> visited.contains(i) by {
            assert(all.contains(i) <==> seen.contains(i));
        }
    }
    if visits_every_row(chain.checkpoints, visited) {
        assert forall|i: int| all.contains(i) <==> seen.contains(i) by {
            assert(is_valid_row(chain.checkpoints, i) <==> visited.contains(i));
        }
        assert(all =~= seen);
    }
}

proof fn lemma_no_valid_row(checkpoints: Seq<AiContextCheckpointRecord>, from: nat)
    requires
        latest_valid(checkpoints, from) is None,
    ensures
        forall|i: int| from <= i ==> !#[trigger] is_valid_row(checkpoints, i),
    decreases checkpoints.len() - from,
{
    if from < checkpoints.len() {
        lemma_no_valid_row(checkpoints, from + 1);
    }
}

/// A walk along the chain of a session's checkpoints, from the latest valid
/// one towards the first.
pub struct ChainWalk {
    checkpoints: Vec<AiContextCheckpointRecord>,
    limits: AiContextCompactionLimits,
    visited: Vec<usize>,
    valid_count: usize,
    /// Content of the latest valid row, once it was taken.
    latest: Option<StoredCheckpointPayload>,
    complete: bool,
    opened: Ghost<Seq<StoredCheckpointPayload>>,
}

/// Everything that a [`ChainWalk`] keeps.
pub struct WalkModel {
    pub chain: ChainModel,
    /// Number of valid rows.
    pub valid_count: nat,
    /// Content of the latest valid row, once it was taken.
    pub latest: Option<StoredCheckpointPayload>,
    /// Whether the whole chain was visited.
    pub complete: bool,
}

impl View for ChainWalk {
    type V = WalkModel;

    closed spec fn view(&self) -> WalkModel {
        WalkModel {
            chain: ChainModel {
                checkpoints: self.checkpoints@,
                bounds: self.limits@,
                visited: self.visited@.map_values(|position: usize| position as int),
                opened: self.opened@,
            },
            valid_count: self.valid_count as nat,
            latest: self.latest,
            complete: self.complete,
        }
    }
}

impl ChainWalk {
    /// Walks whose visited rows are linked, with all valid rows counted and the
    /// first content kept; a walk is complete only where the whole chain is
    /// accepted.
    pub open spec fn wf(self) -> bool {
        let chain = self@.chain;
        &&& self@.valid_count == valid_rows(chain.checkpoints, chain.checkpoints.len()).len()
        &&& self@.latest == if chain.opened.len() == 0 {
            None
        } else {
            Some(chain.opened[0])
        }
        &&& chain_linked(chain)
        &&& if self@.complete {
            chain_accepted(chain)
        } else {
            chain.visited.len() == chain.opened.len() + 1
        }
    }

    /// Starts a walk at the latest valid row; where there is none, the chain is
    /// empty. Valid rows must have distinct identities.
    pub fn begin(
        checkpoints: Vec<AiContextCheckpointRecord>,
        limits: AiContextCompactionLimits,
    ) -> (result: Result<ChainWalk, AiError>)
        ensures
            refusal(result) == if valid_ids_distinct(checkpoints@) {
                None
            } else {
                Some(ErrorModel::PersistenceFailed)
            },
            result matches Ok(walk) ==> {
                &&& walk.wf()
                &&& walk@.chain.checkpoints == checkpoints@
                &&& walk@.chain.bounds == limits@
                &&& walk@.chain.opened.len() == 0
                &&& walk@.complete == latest_valid(checkpoints@, 0) is None
            },
    {
        let mut valid_count: usize = 0;
        let mut i: usize = 0;
        while i < checkpoints.len()
            invariant
                i <= checkpoints@.len(),
                valid_count == valid_rows(checkpoints@, i as nat).len(),
                valid_count <= i,
                forall|a: int, b: int|
                    is_valid_row(checkpoints@, a) && is_valid_row(checkpoints@, b) && a < b && b
                        < i ==> (#[trigger] checkpoints@[a]).id != (#[trigger] checkpoints@[b]).id,
            decreases checkpoints@.len() - i,
        {
            proof {
                lemma_valid_rows(checkpoints@, i as nat);
            }
            if checkpoints[i].invalidated_at.is_none() {
                let mut j: usize = 0;
                while j < i
                    invariant
                        j <= i < checkpoints@.len(),
                        is_valid_row(checkpoints@, i as int),
                        forall|a: int|
                            is_valid_row(checkpoints@, a) && a < j ==> (#[trigger] checkpoints@[a]).id
                                != checkpoints@[i as int].id,
                    decreases i - j,
                {
                    if checkpoints[j].invalidated_at.is_none() && checkpoints[j].id
                        == checkpoints[i].id {
                        assert(is_valid_row(checkpoints@, j as int));
                        return Err(AiError::PersistenceFailed);
                    }
                    j += 1;
                }
                valid_count += 1;
            }
            i += 1;
        }
        let latest: Option<usize> = find_latest_valid(&checkpoints);
        let mut visited: Vec<usize> = Vec::new();
        let complete: bool = match latest {
            Some(position) => {
                visited.push(position);
                false
            },
            None => {
                proof {
                    lemma_no_valid_row(checkpoints@, 0);
                }
                true
            },
        };
        Ok(
            ChainWalk {
                checkpoints,
                limits,
                visited,
                valid_count,
                latest: None,
                complete,
                opened: Ghost(Seq::empty()),
            },
        )
    }

    /// Position and identity of the row that is to be opened next, or none
    /// where the walk is complete.
    pub fn next_row(&self) -> (row: Option<(usize, Uuid)>)
        requires
            self.wf(),
        ensures
            row is None <==> self@.complete,
            row matches Some((position, id)) ==> position == self@.chain.visited.last() && position
                < self@.chain.checkpoints.len() && id == self@.chain.checkpoints[position as int].id,
    {
        if self.complete {
            return None;
        }
        assert(self@.chain.visited.last() == self.visited@.last());
        let position: usize = self.visited[self.visited.len() - 1];
        assert(is_valid_row(self@.chain.checkpoints, self@.chain.visited.last()));
        Some((position, self.checkpoints[position].id))
    }

    /// Takes the opened content of the row at hand.
    ///
    /// The content must be the row's own and its parent, if any, a valid row
    /// that is named exactly. A walk without further parent is complete only
    /// where it visited every valid row.
    pub fn advance(&mut self, payload: StoredCheckpointPayload) -> (result: Result<(), AiError>)
        requires
            old(self).wf(),
            !old(self)@.complete,
        ensures
            final(self).wf(),
            refusal(result) == advance_refusal(old(self)@.chain, payload),
            match result {
                Ok(()) => {
                    &&& final(self)@.chain.checkpoints == old(self)@.chain.checkpoints
                    &&& final(self)@.chain.bounds == old(self)@.chain.bounds
                    &&& final(self)@.chain.opened == old(self)@.chain.opened.push(payload)
                    &&& final(self)@.complete == payload.parent is None
                },
                Err(_) => *final(self) == *old(self),
            },
    {
        let position: usize = self.visited[self.visited.len() - 1];
        proof {
            assert(self@.chain.visited.last() == position as int);
            assert(is_valid_row(self@.chain.checkpoints, self@.chain.visited.last()));
            lemma_walk_bounded(self@.chain);
        }
        match validate_opened_checkpoint(&payload, &self.checkpoints[position], self.limits) {
            Ok(()) => {},
            Err(error) => return Err(error),
        }
        let next: Option<usize> = match &payload.parent {
            Some(parent) => match find_parent(&self.checkpoints, parent) {
                Some(next) => Some(next),
                None => return Err(AiError::PersistenceFailed),
            },
            None => {
                if self.visited.len() != self.valid_count {
                    return Err(AiError::PersistenceFailed);
                }
                None
            },
        };
        let ghost before = self@.chain;
        match next {
            Some(next) => {
                self.visited.push(next);
                proof {
                    assert(self@.chain.visited =~= before.visited.push(next as int));
                }
            },
            None => {
                self.complete = true;
            },
        }
        proof {
            self.opened = Ghost(before.opened.push(payload));
        }
        self.keep_latest(payload);
        proof {
            let after = self@.chain;
            assert forall|k: int| 0 <= k < after.opened.len() implies payload_opens(
                #[trigger] after.opened[k],
                after.checkpoints[after.visited[k]],
                after.bounds,
            ) by {
                assert(after.visited[k] == before.visited[k]);
                if k < before.opened.len() {
                    assert(after.opened[k] == before.opened[k]);
                }
            }
            assert forall|k: int| 0 <= k < after.visited.len() - 1 implies (
            #[trigger] after.opened[k]).parent is Some && parent_names(
                after.checkpoints,
                after.opened[k].parent->0,
                after.visited[k + 1],
            ) by {
                if k < before.opened.len() {
                    assert(after.opened[k] == before.opened[k]);
                    assert(after.visited[k + 1] == before.visited[k + 1]);
                }
            }
        }
        Ok(())
    }

    fn keep_latest(&mut self, payload: StoredCheckpointPayload)
        ensures
            *final(self) == (ChainWalk {
                latest: if old(self).latest is None {
                    Some(payload)
                } else {
                    old(self).latest
                },
                ..*old(self)
            }),
    {
        if self.latest.is_none() {
            self.latest = Some(payload);
        }
    }

    /// Hands out the chain, once the walk is complete.
    pub fn finish(self) -> (result: Result<AcceptedChain, AiError>)
        requires
            self.wf(),
        ensures
            refusal(result) == if self@.complete {
                None
            } else {
                Some(ErrorModel::PersistenceFailed)
            },
            result matches Ok(chain) ==> chain.wf() && chain@ == self@.chain,
    {
        if self.complete {
            Ok(AcceptedChain { walk: self })
        } else {
            Err(AiError::PersistenceFailed)
        }
    }
}

/// Position of the valid row that a parent reference names exactly.
fn find_parent(checkpoints: &Vec<AiContextCheckpointRecord>, parent: &StoredParent) -> (result:
    Option<usize>)
    requires
        valid_ids_distinct(checkpoints@),
    ensures
        match result {
            Some(position) => parent_names(checkpoints@, *parent, position as int),
            None => !parent_exists(checkpoints@, *parent),
        },
{
    let mut i: usize = 0;
    while i < checkpoints.len()
        invariant
            i <= checkpoints@.len(),
            forall|k: int| k < i ==> !#[trigger] parent_names(checkpoints@, *parent, k),
        decreases checkpoints@.len() - i,
    {
        if checkpoints[i].invalidated_at.is_none() && checkpoints[i].id == parent.checkpoint_id
            && checkpoints[i].through_sequence == parent.through_sequence && same_text(
            checkpoints[i].source_hash.as_str(),
            parent.source_hash.as_str(),
        ) {
            return Some(i);
        }
        i += 1;
    }
    None
}

/// A session's checkpoints with their chain accepted as a whole. Only a
/// complete walk makes one.
pub struct AcceptedChain {
    walk: ChainWalk,
}

impl View for AcceptedChain {
    type V = ChainModel;

    closed spec fn view(&self) -> ChainModel {
        self.walk@.chain
    }
}

/// Row of the latest valid checkpoint, if there is one.
pub open spec fn latest_row(checkpoints: Seq<AiContextCheckpointRecord>) -> Option<
    AiContextCheckpointRecord,
> {
    match latest_valid(checkpoints, 0) {
        Some(position) => Some(checkpoints[position as int]),
        None => None,
    }
}

impl AcceptedChain {
    /// Whether a complete walk stands behind the chain.
    pub closed spec fn backed(self) -> bool {
        self.walk.wf() && self.walk@.complete
    }

    /// Chains that were accepted as a whole.
    pub open spec fn wf(self) -> bool {
        self.backed() && chain_accepted(self@)
    }

    /// The limits that the chain was accepted under.
    pub fn limits(&self) -> (limits: AiContextCompactionLimits)
        ensures
            limits@ == self@.bounds,
    {
        self.walk.limits
    }

    /// The checkpoint rows of the session.
    pub fn checkpoints(&self) -> (checkpoints: &Vec<AiContextCheckpointRecord>)
        ensures
            checkpoints@ == self@.checkpoints,
    {
        &self.walk.checkpoints
    }

    /// The latest valid checkpoint and its opened content, if there is one.
    pub fn latest(&self) -> (latest: Option<
        (&AiContextCheckpointRecord, &StoredCheckpointPayload),
    >)
        requires
            self.wf(),
        ensures
            match latest {
                Some((row, payload)) => latest_row(self@.checkpoints) == Some(*row)
                    && self@.opened.len() > 0 && *payload == self@.opened[0] && payload_opens(
                    *payload,
                    *row,
                    self@.bounds,
                ),
                None => latest_row(self@.checkpoints) is None,
            },
    {
        if self.walk.visited.len() == 0 {
            return None;
        }
        assert(self@.visited[0] == self.walk.visited@[0]);
        assert(is_valid_row(self@.checkpoints, self@.visited[0]));
        let position: usize = self.walk.visited[0];
        match &self.walk.latest {
            Some(payload) => {
                assert(self@.opened[0] == *payload);
                Some((&self.walk.checkpoints[position], payload))
            },
            None => None,
        }
    }

    /// Takes the latest valid checkpoint and its opened content out.
    pub fn into_latest(self) -> (latest: Option<
        (AiContextCheckpointRecord, StoredCheckpointPayload),
    >)
        requires
            self.wf(),
        ensures
            match latest {
                Some((row, payload)) => latest_row(self@.checkpoints) == Some(row)
                    && self@.opened.len() > 0 && payload == self@.opened[0] && payload_opens(
                    payload,
                    row,
                    self@.bounds,
                ),
                None => latest_row(self@.checkpoints) is None,
            },
    {
        let row: Option<AiContextCheckpointRecord> = match self.latest() {
            Some((row, _)) => Some(row.clone()),
            None => None,
        };
        match (row, self.walk.latest) {
            (Some(row), Some(payload)) => Some((row, payload)),
            _ => None,
        }
    }
}

/// An accepted chain leaves no gap: every checkpoint in it summarizes exactly
/// the messages after the one that follows it in the chain, and the last one
/// begins with the first message.
pub proof fn accepted_chain_is_gapless(chain: AcceptedChain, k: int)
    requires
        chain.wf(),
        0 <= k < chain@.visited.len(),
    ensures
        chain@.opened[k].source_messages@[0]@.sequence == if k + 1 < chain@.visited.len() {
            chain@.checkpoints[chain@.visited[k + 1]].through_sequence + 1
        } else {
            1
        },
        chain@.opened[k].source_messages@.last()@.sequence
            == chain@.checkpoints[chain@.visited[k]].through_sequence,
{
    let payload = chain@.opened[k];
    assert(payload_opens(payload, chain@.checkpoints[chain@.visited[k]], chain@.bounds));
    assert(provenance_item_valid(
        payload.source_messages@[0]@,
        first_sequence(payload.parent),
    ));
    if k + 1 < chain@.visited.len() {
        assert(chain@.opened[k].parent is Some);
    }
}

/// A checkpoint row is valid exactly where it is the session's own, ends within
/// its messages, and says by which digest, size, provider, and model it was
/// made.
pub proof fn checkpoint_rows_are_the_sessions_own(
    checkpoint: AiContextCheckpointRecord,
    session_id: Uuid,
    message_head: i64,
)
    ensures
        checkpoint_row_valid(checkpoint, session_id, message_head) <==> {
            &&& checkpoint.id != 0
            &&& checkpoint.session_id == session_id
            &&& 1 <= checkpoint.through_sequence <= message_head
            &&& hash_text(checkpoint.source_hash@)
            &&& checkpoint.token_estimate >= 1
            &&& !blank(checkpoint.provider_kind@) && byte_len(checkpoint.provider_kind@) <= 200
            &&& !blank(checkpoint.provider_model@) && byte_len(checkpoint.provider_model@) <= 200
        },
{
}

/// An opened content belongs to its row exactly where it names the same
/// checkpoint, session, boundary, and digest, has a visible summary within its
/// bound, names the run that made it, extends an earlier boundary, and accounts
/// for every message between.
pub proof fn opened_contents_belong_to_their_row(
    payload: StoredCheckpointPayload,
    checkpoint: AiContextCheckpointRecord,
    bounds: CompactionBounds,
)
    ensures
        payload_opens(payload, checkpoint, bounds) <==> {
            &&& payload.format_version == 1
            &&& payload.checkpoint_id == checkpoint.id
            &&& payload.session_id == checkpoint.session_id
            &&& payload.through_sequence == checkpoint.through_sequence
            &&& payload.source_hash@ == checkpoint.source_hash@
            &&& !blank(payload.summary@) && byte_len(payload.summary@) <= bounds.summary_bytes
            &&& payload.run_id != 0 && payload.attempt_id != 0
            &&& payload.budget_reservation_id != 0 && payload.lease_generation > 0
            &&& 1 <= payload.source_messages@.len() <= bounds.source_messages
            &&& payload.parent is None || payload.parent->0.checkpoint_id != 0 && 1
                <= payload.parent->0.through_sequence < checkpoint.through_sequence && hash_text(
                payload.parent->0.source_hash@,
            )
            &&& provenance_valid(
                payload.source_messages@,
                payload.parent,
                payload.through_sequence,
            )
        },
{
}

/// Provenance leaves no message out: below the largest sequence it lists the
/// messages after the parent one by one up to the boundary, each by its
/// identity, with a user's or an assistant's role and at least one block.
pub proof fn provenance_lists_every_message(
    messages: Seq<AiContextSourceMessage>,
    parent: Option<StoredParent>,
    through_sequence: i64,
    i: int,
)
    requires
        provenance_valid(messages, parent, through_sequence),
        through_sequence < i64::MAX,
        parent is Some ==> 0 < parent->0.through_sequence < through_sequence,
        0 <= i < messages.len(),
    ensures
        messages[i]@.sequence == (if parent is Some {
            parent->0.through_sequence as int
        } else {
            0
        }) + 1 + i,
        messages[i]@.message_id != 0,
        messages[i]@.role == "user"@ || messages[i]@.role == "assistant"@,
        messages[i]@.block_ids.len() >= 1,
        forall|k: int|
            0 <= k < messages[i]@.block_ids.len() ==> #[trigger] messages[i]@.block_ids[k] != 0,
        messages.len() == through_sequence - (if parent is Some {
            parent->0.through_sequence as int
        } else {
            0
        }),
{
    let start = first_sequence(parent);
    let last = messages.len() - 1;
    assert(provenance_item_valid(
        messages[last]@,
        if start + last <= i64::MAX {
            start + last
        } else {
            i64::MAX as int
        },
    ));
    assert(provenance_item_valid(
        messages[i]@,
        if start + i <= i64::MAX {
            start + i
        } else {
            i64::MAX as int
        },
    ));
}

proof fn lemma_latest_is_first(checkpoints: Seq<AiContextCheckpointRecord>, from: nat)
    ensures
        latest_valid(checkpoints, from) matches Some(position) ==> from <= position
            < checkpoints.len() && checkpoints[position as int].invalidated_at is None
            && forall|i: int|
            from <= i < position ==> (#[trigger] checkpoints[i]).invalidated_at is Some,
        latest_valid(checkpoints, from) is None ==> forall|i: int|
            from <= i < checkpoints.len() ==> (#[trigger] checkpoints[i]).invalidated_at is Some,
    decreases checkpoints.len() - from,
{
    if from < checkpoints.len() && checkpoints[from as int].invalidated_at is Some {
        lemma_latest_is_first(checkpoints, from + 1);
    }
}

/// The latest valid checkpoint is the first row, as they were read, that is not
/// invalidated; there is none only where all are.
pub proof fn latest_checkpoint_is_the_first_valid(checkpoints: Seq<AiContextCheckpointRecord>)
    ensures
        latest_valid(checkpoints, 0) matches Some(position) ==> position < checkpoints.len()
            && checkpoints[position as int].invalidated_at is None && forall|i: int|
            0 <= i < position ==> (#[trigger] checkpoints[i]).invalidated_at is Some,
        latest_valid(checkpoints, 0) is None ==> forall|i: int|
            0 <= i < checkpoints.len() ==> (#[trigger] checkpoints[i]).invalidated_at is Some,
{
    lemma_latest_is_first(checkpoints, 0);
}

/// An accepted chain links every valid checkpoint to its parent by identity,
/// boundary, and digest, begins at the latest, ends at one without parent, and
/// leaves no valid checkpoint out.
pub proof fn accepted_chains_are_whole(chain: AcceptedChain, k: int)
    requires
        chain.wf(),
        0 <= k < chain@.visited.len(),
    ensures
        chain@.opened.len() == chain@.visited.len(),
        chain@.checkpoints[chain@.visited[k]].invalidated_at is None,
        chain@.opened[k].checkpoint_id == chain@.checkpoints[chain@.visited[k]].id,
        chain@.opened[k].source_hash@ == chain@.checkpoints[chain@.visited[k]].source_hash@,
        k + 1 == chain@.visited.len() <==> chain@.opened[k].parent is None,
        chain@.opened[k].parent matches Some(parent) ==> {
            let row = chain@.checkpoints[chain@.visited[k + 1]];
            &&& row.id == parent.checkpoint_id
            &&& row.through_sequence == parent.through_sequence
            &&& row.source_hash@ == parent.source_hash@
        },
        forall|i: int|
            0 <= i < chain@.checkpoints.len() && (#[trigger] chain@.checkpoints[i]).invalidated_at
                is None ==> chain@.visited.contains(i),
{
    assert(is_valid_row(chain@.checkpoints, chain@.visited[k]));
    assert(payload_opens(
        chain@.opened[k],
        chain@.checkpoints[chain@.visited[k]],
        chain@.bounds,
    ));
    assert forall|i: int|
        0 <= i < chain@.checkpoints.len() && (#[trigger] chain@.checkpoints[i]).invalidated_at
            is None implies chain@.visited.contains(i) by {
        assert(is_valid_row(chain@.checkpoints, i));
    }
}

/// Digests are 64 lowercase hexadecimal digits.
pub proof fn digests_are_lowercase_hexadecimal(value: Seq<char>, c: char)
    ensures
        hash_text(value) <==> byte_len(value) == 64 && forall|i: int|
            0 <= i < value.len() ==> lower_hex_digit(#[trigger] value[i]),
        lower_hex_digit(c) <==> 48 <= (c as u32) <= 57 || 97 <= (c as u32) <= 102,
        message_role(value) <==> value == "user"@ || value == "assistant"@,
{
}

/// A chain that does not go on as its rows say is a fault of the store.
pub proof fn broken_chains_are_faults(chain: ChainModel, payload: StoredCheckpointPayload)
    ensures
        advance_refusal(chain, payload) is Some ==> advance_refusal(chain, payload) == Some(
            ErrorModel::PersistenceFailed,
        ),
        advance_refusal(chain, payload) is None <==> {
            &&& payload_opens(payload, chain.checkpoints[chain.visited.last()], chain.bounds)
            &&& payload.parent is None ==> visits_every_row(chain.checkpoints, chain.visited)
            &&& payload.parent is Some ==> parent_exists(chain.checkpoints, payload.parent->0)
        },
{
}

/// Valid provenance holds a message, begins right after the parent, and ends
/// where the checkpoint does.
pub proof fn provenance_is_never_empty(
    messages: Seq<AiContextSourceMessage>,
    parent: Option<StoredParent>,
    through_sequence: i64,
)
    requires
        provenance_valid(messages, parent, through_sequence),
    ensures
        messages.len() > 0,
        messages.last()@.sequence == through_sequence,
        messages[0]@.message_id != 0,
        messages[0]@.block_ids.len() > 0,
{
}

} // verus!
