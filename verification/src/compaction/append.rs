//! The last comparison before a context checkpoint is appended.
//!
//! Between preparing a compaction and appending its checkpoint the store may
//! have moved on. The append goes ahead only where the parent, every source
//! message, and every source block are still what was summarized.

use crate::compaction::chain::AiContextCheckpointRecord;
use crate::compaction::preparation::PreparedContextCheckpointSource;
use crate::compaction::result::PreparedContextCheckpoint;
use crate::error::{AiError, ErrorModel, accepted_or, outcome};
use crate::records::{AiMessageBlockRecord, AiMessageRecord};
use crate::text::{same_text, same_text_option, text_option};
use vstd::prelude::*;

verus! {

/// Whether two reads of a message row agree in every column.
pub open spec fn message_agrees(left: AiMessageRecord, right: AiMessageRecord) -> bool {
    &&& left.id == right.id
    &&& left.session_id == right.session_id
    &&& left.sequence == right.sequence
    &&& left.message_role@ == right.message_role@
    &&& left.run_id == right.run_id
    &&& text_option(left.provider_kind) == text_option(right.provider_kind)
    &&& text_option(left.provider_model) == text_option(right.provider_model)
    &&& left.completion_state@ == right.completion_state@
    &&& left.finalized_at == right.finalized_at
    &&& left.content_purged_at == right.content_purged_at
    &&& left.has_protected_preview == right.has_protected_preview
    &&& left.block_count == right.block_count
}

/// Whether two reads of a block row agree in every column.
pub open spec fn block_agrees(left: AiMessageBlockRecord, right: AiMessageBlockRecord) -> bool {
    &&& left.id == right.id
    &&& left.message_id == right.message_id
    &&& left.block_index == right.block_index
    &&& left.block_kind@ == right.block_kind@
    &&& left.byte_count == right.byte_count
    &&& left.line_count == right.line_count
}

/// Whether two reads of a checkpoint row agree in every column.
pub open spec fn checkpoint_agrees(
    left: AiContextCheckpointRecord,
    right: AiContextCheckpointRecord,
) -> bool {
    &&& left.id == right.id
    &&& left.session_id == right.session_id
    &&& left.through_sequence == right.through_sequence
    &&& left.source_hash@ == right.source_hash@
    &&& left.token_estimate == right.token_estimate
    &&& left.provider_kind@ == right.provider_kind@
    &&& left.provider_model@ == right.provider_model@
    &&& left.invalidated_at == right.invalidated_at
}

/// Whether two reads of a message with its blocks agree.
pub open spec fn source_agrees(
    left: PreparedContextCheckpointSource,
    right: PreparedContextCheckpointSource,
) -> bool {
    &&& message_agrees(left.message, right.message)
    &&& left.blocks@.len() == right.blocks@.len()
    &&& forall|i: int|
        0 <= i < left.blocks@.len() ==> block_agrees(#[trigger] left.blocks@[i], right.blocks@[i])
}

/// Whether the store still shows the parent and the sources that the
/// checkpoint was prepared from, and nothing else.
pub open spec fn append_current(
    checkpoint: PreparedContextCheckpoint,
    parent: Option<AiContextCheckpointRecord>,
    current: Seq<PreparedContextCheckpointSource>,
) -> bool {
    &&& match (checkpoint.expected_parent, parent) {
        (Some(expected), Some(row)) => checkpoint_agrees(expected, row),
        (None, None) => true,
        _ => false,
    }
    &&& checkpoint.sources@.len() == current.len()
    &&& forall|i: int|
        0 <= i < current.len() ==> source_agrees(checkpoint.sources@[i], #[trigger] current[i])
}

fn same_message(left: &AiMessageRecord, right: &AiMessageRecord) -> (result: bool)
    ensures
        result == message_agrees(*left, *right),
{
    left.id == right.id && left.session_id == right.session_id && left.sequence == right.sequence
        && same_text(left.message_role.as_str(), right.message_role.as_str()) && left.run_id
        == right.run_id && same_text_option(&left.provider_kind, &right.provider_kind)
        && same_text_option(&left.provider_model, &right.provider_model) && same_text(
        left.completion_state.as_str(),
        right.completion_state.as_str(),
    ) && left.finalized_at == right.finalized_at && left.content_purged_at
        == right.content_purged_at && left.has_protected_preview == right.has_protected_preview
        && left.block_count == right.block_count
}

fn same_block(left: &AiMessageBlockRecord, right: &AiMessageBlockRecord) -> (result: bool)
    ensures
        result == block_agrees(*left, *right),
{
    left.id == right.id && left.message_id == right.message_id && left.block_index
        == right.block_index && same_text(left.block_kind.as_str(), right.block_kind.as_str())
        && left.byte_count == right.byte_count && left.line_count == right.line_count
}

fn same_checkpoint(left: &AiContextCheckpointRecord, right: &AiContextCheckpointRecord) -> (result:
    bool)
    ensures
        result == checkpoint_agrees(*left, *right),
{
    left.id == right.id && left.session_id == right.session_id && left.through_sequence
        == right.through_sequence && same_text(
        left.source_hash.as_str(),
        right.source_hash.as_str(),
    ) && left.token_estimate == right.token_estimate && same_text(
        left.provider_kind.as_str(),
        right.provider_kind.as_str(),
    ) && same_text(left.provider_model.as_str(), right.provider_model.as_str())
        && left.invalidated_at == right.invalidated_at
}

fn same_source(
    left: &PreparedContextCheckpointSource,
    right: &PreparedContextCheckpointSource,
) -> (result: bool)
    ensures
        result == source_agrees(*left, *right),
{
    if !same_message(&left.message, &right.message) || left.blocks.len() != right.blocks.len() {
        return false;
    }
    let mut i: usize = 0;
    while i < left.blocks.len()
        invariant
            i <= left.blocks@.len(),
            left.blocks@.len() == right.blocks@.len(),
            forall|k: int|
                0 <= k < i ==> block_agrees(#[trigger] left.blocks@[k], right.blocks@[k]),
        decreases left.blocks@.len() - i,
    {
        if !same_block(&left.blocks[i], &right.blocks[i]) {
            return false;
        }
        i += 1;
    }
    true
}

/// Accepts the append of a checkpoint whose parent and sources are unchanged.
///
/// `protected_unchanged` says whether the protected columns, which the rows
/// here leave out, read back as they were.
pub fn admit_append(
    checkpoint: &PreparedContextCheckpoint,
    parent: Option<&AiContextCheckpointRecord>,
    current: &Vec<PreparedContextCheckpointSource>,
    protected_unchanged: bool,
) -> (result: Result<(), AiError>)
    ensures
        outcome(result) == accepted_or(
            protected_unchanged && append_current(
                *checkpoint,
                match parent {
                    Some(row) => Some(*row),
                    None => None,
                },
                current@,
            ),
            ErrorModel::Conflict,
        ),
{
    let parent_unchanged: bool = match (&checkpoint.expected_parent, parent) {
        (Some(expected), Some(row)) => same_checkpoint(expected, row),
        (None, None) => true,
        _ => false,
    };
    if !protected_unchanged || !parent_unchanged || checkpoint.sources.len() != current.len() {
        return Err(AiError::Conflict);
    }
    let mut i: usize = 0;
    while i < current.len()
        invariant
            i <= current@.len(),
            checkpoint.sources@.len() == current@.len(),
            forall|k: int|
                0 <= k < i ==> source_agrees(checkpoint.sources@[k], #[trigger] current@[k]),
        decreases current@.len() - i,
    {
        if !same_source(&checkpoint.sources[i], &current[i]) {
            return Err(AiError::Conflict);
        }
        i += 1;
    }
    Ok(())
}

/// A checkpoint is appended exactly where the store still shows its parent and
/// every source as they were: the same rows, column by column, no fewer and no
/// more.
pub proof fn appends_need_unchanged_sources(
    checkpoint: PreparedContextCheckpoint,
    parent: Option<AiContextCheckpointRecord>,
    current: Seq<PreparedContextCheckpointSource>,
)
    requires
        append_current(checkpoint, parent, current),
    ensures
        parent is Some <==> checkpoint.expected_parent is Some,
        parent is Some ==> {
            let (expected, row) = (checkpoint.expected_parent->0, parent->0);
            &&& row.id == expected.id && row.session_id == expected.session_id
            &&& row.through_sequence == expected.through_sequence
            &&& row.source_hash@ == expected.source_hash@
            &&& row.token_estimate == expected.token_estimate
            &&& row.provider_kind@ == expected.provider_kind@
            &&& row.provider_model@ == expected.provider_model@
            &&& row.invalidated_at == expected.invalidated_at
        },
        current.len() == checkpoint.sources@.len(),
        forall|i: int|
            0 <= i < current.len() ==> {
                let (before, now) = (checkpoint.sources@[i], #[trigger] current[i]);
                &&& now.message.id == before.message.id
                &&& now.message.session_id == before.message.session_id
                &&& now.message.sequence == before.message.sequence
                &&& now.message.message_role@ == before.message.message_role@
                &&& now.message.run_id == before.message.run_id
                &&& text_option(now.message.provider_kind) == text_option(
                    before.message.provider_kind,
                )
                &&& text_option(now.message.provider_model) == text_option(
                    before.message.provider_model,
                )
                &&& now.message.completion_state@ == before.message.completion_state@
                &&& now.message.finalized_at == before.message.finalized_at
                &&& now.message.content_purged_at == before.message.content_purged_at
                &&& now.message.has_protected_preview == before.message.has_protected_preview
                &&& now.message.block_count == before.message.block_count
                &&& now.blocks@.len() == before.blocks@.len()
            },
        forall|i: int, k: int|
            0 <= i < current.len() && 0 <= k < current[i].blocks@.len() ==> {
                let (before, now) = (
                    checkpoint.sources@[i].blocks@[k],
                    #[trigger] current[i].blocks@[k],
                );
                &&& now.id == before.id && now.message_id == before.message_id
                &&& now.block_index == before.block_index
                &&& now.block_kind@ == before.block_kind@
                &&& now.byte_count == before.byte_count && now.line_count == before.line_count
            },
{
    assert forall|i: int, k: int|
        0 <= i < current.len() && 0 <= k < current[i].blocks@.len() implies {
        let (before, now) = (checkpoint.sources@[i].blocks@[k], #[trigger] current[i].blocks@[k]);
        &&& now.id == before.id && now.message_id == before.message_id
        &&& now.block_index == before.block_index
        &&& now.block_kind@ == before.block_kind@
        &&& now.byte_count == before.byte_count && now.line_count == before.line_count
    } by {
        assert(source_agrees(checkpoint.sources@[i], current[i]));
        assert(block_agrees(checkpoint.sources@[i].blocks@[k], current[i].blocks@[k]));
    }
    assert forall|i: int| 0 <= i < current.len() implies source_agrees(
        checkpoint.sources@[i],
        #[trigger] current[i],
    ) by {}
}

/// Nothing that changed is overlooked and nothing that did not is held against
/// the append: a store that shows the very rows is current.
pub proof fn unchanged_sources_are_current(checkpoint: PreparedContextCheckpoint)
    ensures
        append_current(checkpoint, checkpoint.expected_parent, checkpoint.sources@),
{
}

} // verus!
