//! Deployment bounds of context compaction.

use crate::authority::{Actor, AuthorityCheck, fresh};
use crate::clock::{Duration, UtcTime};
use crate::error::{
    AiError, ErrorModel, accepted_or, invalid_configuration, invalid_input, outcome, refusal,
};
use crate::principal::ResolvedPrincipal;
use crate::text::{blank, bounded_text, byte_len, is_bounded_text};
use vstd::prelude::*;

verus! {

/// Deployment hard limits for one protected context-compaction step.
#[derive(Clone, Copy, Debug, PartialEq, Eq, Structural)]
pub struct AiContextCompactionLimits {
    maximum_source_messages: usize,
    maximum_source_blocks: usize,
    maximum_source_bytes: usize,
    maximum_summary_bytes: usize,
    maximum_summary_tokens: u64,
    maximum_checkpoints_per_session: usize,
    minimum_recent_messages: usize,
    maximum_principal_age: Duration,
}

/// Values of [`AiContextCompactionLimits`].
pub struct CompactionBounds {
    pub source_messages: nat,
    pub source_blocks: nat,
    pub source_bytes: nat,
    pub summary_bytes: nat,
    pub summary_tokens: nat,
    pub checkpoints: nat,
    pub recent_messages: nat,
    pub principal_age: Duration,
}

impl View for AiContextCompactionLimits {
    type V = CompactionBounds;

    closed spec fn view(&self) -> CompactionBounds {
        CompactionBounds {
            source_messages: self.maximum_source_messages as nat,
            source_blocks: self.maximum_source_blocks as nat,
            source_bytes: self.maximum_source_bytes as nat,
            summary_bytes: self.maximum_summary_bytes as nat,
            summary_tokens: self.maximum_summary_tokens as nat,
            checkpoints: self.maximum_checkpoints_per_session as nat,
            recent_messages: self.minimum_recent_messages as nat,
            principal_age: self.maximum_principal_age,
        }
    }
}

/// Bounds that are positive and within the fixed safety ceilings.
pub open spec fn bounds_valid(bounds: CompactionBounds) -> bool {
    &&& 1 <= bounds.source_messages <= 256
    &&& 1 <= bounds.source_blocks <= 4_096
    &&& 1 <= bounds.source_bytes <= 67_108_864
    &&& 1 <= bounds.summary_bytes <= 16_777_216
    &&& 1 <= bounds.summary_tokens <= 1_000_000
    &&& 1 <= bounds.checkpoints <= 5_000
    &&& 1 <= bounds.recent_messages <= 10_000
    &&& bounds.principal_age.nanos > 0
}

impl AiContextCompactionLimits {
    /// Creates validated compaction limits.
    ///
    /// # Errors
    ///
    /// Returns [`AiError::InvalidConfiguration`] unless message, block,
    /// source, summary, checkpoint, recent-message, token, and principal-age
    /// limits are positive and within the crate's fixed safety ceilings.
    pub fn new(
        maximum_source_messages: usize,
        maximum_source_blocks: usize,
        maximum_source_bytes: usize,
        maximum_summary_bytes: usize,
        maximum_summary_tokens: u64,
        maximum_checkpoints_per_session: usize,
        minimum_recent_messages: usize,
        maximum_principal_age: Duration,
    ) -> (result: Result<Self, AiError>)
        ensures
            ({
                let bounds = CompactionBounds {
                    source_messages: maximum_source_messages as nat,
                    source_blocks: maximum_source_blocks as nat,
                    source_bytes: maximum_source_bytes as nat,
                    summary_bytes: maximum_summary_bytes as nat,
                    summary_tokens: maximum_summary_tokens as nat,
                    checkpoints: maximum_checkpoints_per_session as nat,
                    recent_messages: minimum_recent_messages as nat,
                    principal_age: maximum_principal_age,
                };
                match result {
                    Ok(limits) => bounds_valid(bounds) && limits@ == bounds,
                    Err(error) => !bounds_valid(bounds) && error@
                        == ErrorModel::InvalidConfiguration("invalid context-compaction limits"@),
                }
            }),
    {
        if maximum_source_messages < 1 || maximum_source_messages > 256 || maximum_source_blocks < 1
            || maximum_source_blocks > 4_096 || maximum_source_bytes < 1 || maximum_source_bytes
            > 67_108_864 || maximum_summary_bytes < 1 || maximum_summary_bytes > 16_777_216
            || maximum_summary_tokens < 1 || maximum_summary_tokens > 1_000_000
            || maximum_checkpoints_per_session < 1 || maximum_checkpoints_per_session > 5_000
            || minimum_recent_messages < 1 || minimum_recent_messages > 10_000
            || !maximum_principal_age.is_positive() {
            return Err(invalid_configuration("invalid context-compaction limits"));
        }
        Ok(
            AiContextCompactionLimits {
                maximum_source_messages,
                maximum_source_blocks,
                maximum_source_bytes,
                maximum_summary_bytes,
                maximum_summary_tokens,
                maximum_checkpoints_per_session,
                minimum_recent_messages,
                maximum_principal_age,
            },
        )
    }

    /// Returns the configured bound.
    pub(crate) fn maximum_source_messages(&self) -> (bound: usize)
        ensures
            bound == self@.source_messages,
    {
        self.maximum_source_messages
    }

    /// Returns the configured bound.
    pub(crate) fn maximum_source_blocks(&self) -> (bound: usize)
        ensures
            bound == self@.source_blocks,
    {
        self.maximum_source_blocks
    }

    /// Returns the configured bound.
    pub(crate) fn maximum_source_bytes(&self) -> (bound: usize)
        ensures
            bound == self@.source_bytes,
    {
        self.maximum_source_bytes
    }

    /// Returns the configured bound.
    pub(crate) fn maximum_summary_bytes(&self) -> (bound: usize)
        ensures
            bound == self@.summary_bytes,
    {
        self.maximum_summary_bytes
    }

    /// Returns the configured bound.
    pub fn maximum_checkpoints_per_session(&self) -> (bound: usize)
        ensures
            bound == self@.checkpoints,
    {
        self.maximum_checkpoints_per_session
    }

    /// Returns the configured bound.
    pub(crate) fn minimum_recent_messages(&self) -> (bound: usize)
        ensures
            bound == self@.recent_messages,
    {
        self.minimum_recent_messages
    }

    /// Returns the configured bound.
    pub fn maximum_principal_age(&self) -> (bound: Duration)
        ensures
            bound == self@.principal_age,
    {
        self.maximum_principal_age
    }

    /// Accepts a worker's principal that was resolved no longer ago than these
    /// limits accept.
    pub fn admit_principal(
        &self,
        check: AuthorityCheck,
        principal: &ResolvedPrincipal,
        now: UtcTime,
    ) -> (result: Result<AuthorityCheck, AiError>)
        requires
            check.wf(),
            check@.stage is Bound,
            check@.evidence.actor is Worker,
            principal.wf(),
            now.wf(),
        ensures
            refusal(result) == if fresh(*principal, now, self@.principal_age) {
                None
            } else {
                Some(ErrorModel::ReauthorizationFailed)
            },
            result matches Ok(admitted) ==> {
                &&& admitted.wf()
                &&& admitted@.scope == check@.scope
                &&& admitted@.stage is Current
                &&& admitted@.session == check@.session
                &&& admitted@.evidence.actor == (Actor::Worker {
                    lease: check@.evidence.actor->lease,
                    principal: *principal,
                    now,
                    maximum_age: self@.principal_age,
                })
            },
    {
        check.admit_principal(principal, now, self.maximum_principal_age)
    }
}

impl Default for AiContextCompactionLimits {
    fn default() -> (result: Self)
        ensures
            bounds_valid(result@),
            result@ == (CompactionBounds {
                source_messages: 128,
                source_blocks: 512,
                source_bytes: 4_194_304,
                summary_bytes: 262_144,
                summary_tokens: 65_536,
                checkpoints: 100,
                recent_messages: 4,
                principal_age: (Duration { nanos: 300_000_000_000 }),
            }),
    {
        AiContextCompactionLimits {
            maximum_source_messages: 128,
            maximum_source_blocks: 512,
            maximum_source_bytes: 4_194_304,
            maximum_summary_bytes: 262_144,
            maximum_summary_tokens: 65_536,
            maximum_checkpoints_per_session: 100,
            minimum_recent_messages: 4,
            maximum_principal_age: Duration { nanos: 300_000_000_000 },
        }
    }
}

/// A row limit that shows whether more than `limit` rows exist.
pub fn limit_with_lookahead(limit: usize) -> (result: Result<i64, AiError>)
    ensures
        match result {
            Ok(rows) => rows == if limit < usize::MAX {
                limit + 1
            } else {
                usize::MAX as int
            },
            Err(error) => (if limit < usize::MAX {
                limit + 1
            } else {
                usize::MAX as int
            }) > i64::MAX && error@ == ErrorModel::InvalidConfiguration(
                "invalid compaction limits"@,
            ),
        },
{
    let rows: usize = limit.saturating_add(1);
    if rows as u128 > i64::MAX as u128 {
        return Err(invalid_configuration("invalid compaction limits"));
    }
    Ok(rows as i64)
}

/// Requests with a bounded model name, a positive boundary, and a positive
/// token bound within the deployment's.
pub open spec fn compaction_request_valid(
    model: Seq<char>,
    through_sequence: i64,
    maximum_output_tokens: u64,
    bounds: CompactionBounds,
) -> bool {
    &&& bounded_text(model, 200)
    &&& through_sequence > 0
    &&& 0 < maximum_output_tokens <= bounds.summary_tokens
}

/// Accepts exactly the valid compaction requests.
pub fn admit_compaction_request(
    model: &str,
    through_sequence: i64,
    maximum_output_tokens: u64,
    limits: AiContextCompactionLimits,
) -> (result: Result<(), AiError>)
    ensures
        outcome(result) == accepted_or(
            compaction_request_valid(model@, through_sequence, maximum_output_tokens, limits@),
            ErrorModel::InvalidInput("invalid context-compaction request"@),
        ),
{
    if is_bounded_text(model, 200) && through_sequence > 0 && maximum_output_tokens > 0
        && maximum_output_tokens <= limits.maximum_summary_tokens {
        Ok(())
    } else {
        Err(invalid_input("invalid context-compaction request"))
    }
}

/// Compaction limits are positive and under their ceilings, and a request is
/// within them where its model has a name, its boundary is a message, and its
/// summary may have at least one token and at most the deployment's.
pub proof fn compaction_limits_are_ceilings(
    bounds: CompactionBounds,
    model: Seq<char>,
    through_sequence: i64,
    maximum_output_tokens: u64,
)
    ensures
        bounds_valid(bounds) <==> {
            &&& 0 < bounds.source_messages <= 256
            &&& 0 < bounds.source_blocks <= 4_096
            &&& 0 < bounds.source_bytes <= 64 * 1_024 * 1_024
            &&& 0 < bounds.summary_bytes <= 16 * 1_024 * 1_024
            &&& 0 < bounds.summary_tokens <= 1_000_000
            &&& 0 < bounds.checkpoints <= 5_000
            &&& 0 < bounds.recent_messages <= 10_000
            &&& 0 < bounds.principal_age.nanos
        },
        compaction_request_valid(model, through_sequence, maximum_output_tokens, bounds) <==> {
            &&& !blank(model) && byte_len(model) <= 200
            &&& 1 <= through_sequence
            &&& 1 <= maximum_output_tokens <= bounds.summary_tokens
        },
{
}

} // verus!
