//! Live delivery of an inbox stream.
//!
//! A subscription replays windows up to the watermark it saw first, then waits
//! for wakeups. Every event is delivered once and in ascending order.

use crate::error::{AiError, ErrorModel, accepted_or, invalid_configuration, outcome};
use crate::inbox::page::{AiInboxEventPage, AiInboxEventView};
use crate::principal::{
    AuthPrincipal, principal_identity, principal_kind_text, principal_subject_text,
};
use crate::text::same_text;
use vstd::prelude::*;

verus! {

/// Accepts exactly the usable subscription bounds: a non-negative 32-bit
/// start, a positive reauthorization interval, and windows of 1 to 500 events.
pub fn check_subscription(
    after_sequence: i64,
    reauthorization_interval_nanos: u128,
    replay_page_size: i64,
) -> (result: Result<(), AiError>)
    ensures
        outcome(result) == accepted_or(
            0 <= after_sequence <= i32::MAX && reauthorization_interval_nanos > 0 && 1
                <= replay_page_size <= 500,
            ErrorModel::InvalidConfiguration("invalid AI inbox subscription bounds"@),
        ),
{
    if after_sequence < 0 || after_sequence > i32::MAX as i64 || reauthorization_interval_nanos == 0
        || replay_page_size < 1 || replay_page_size > 500 {
        return Err(invalid_configuration("invalid AI inbox subscription bounds"));
    }
    Ok(())
}

/// One item of a subscription: an event, or the demand to reset.
#[derive(Debug, PartialEq, Eq)]
pub struct AiInboxEventEnvelope {
    pub event: Option<AiInboxEventView>,
    pub watermark: i64,
    pub reset_required: bool,
}

/// What the subscription does after a window.
#[derive(Clone, Copy, Debug, PartialEq, Eq, Structural)]
pub enum ReplayNext {
    /// Everything up to the target is delivered; wait for a wakeup.
    CaughtUp,
    /// Read the next window.
    ReadNext,
    /// The subscriber was told to reset; the subscription has ended.
    Reset,
}

/// Delivery state of one subscription.
#[derive(Clone, Copy, Debug, PartialEq, Eq, Structural)]
pub struct InboxSubscription {
    /// Sequence of the last delivered event.
    pub delivered_sequence: i64,
    /// Watermark that the current replay works towards.
    pub target_watermark: i64,
    /// Whether windows are to be read before waiting.
    pub replay_required: bool,
    /// Whether the next window is the first of its replay.
    pub replay_starting: bool,
    /// Whether the subscriber was told to reset.
    pub ended: bool,
}

/// What one window yields, in delivery order.
#[derive(Debug, PartialEq, Eq)]
pub struct ReplayStep {
    pub envelopes: Vec<AiInboxEventEnvelope>,
    pub next: ReplayNext,
}

/// Positions of the first `count` events of the window that are delivered
/// after `delivered`, and the delivered sequence behind them.
pub open spec fn deliveries(
    sequences: Seq<i64>,
    delivered: i64,
    target: i64,
    count: nat,
) -> (Seq<int>, i64)
    decreases count,
{
    if count == 0 {
        (Seq::empty(), delivered)
    } else {
        let (positions, reached) = deliveries(sequences, delivered, target, (count - 1) as nat);
        let sequence = sequences[count - 1];
        if reached < sequence <= target {
            (positions.push(count - 1), sequence)
        } else {
            (positions, reached)
        }
    }
}

/// Position of the first event past the target, else the window's length.
pub open spec fn crossing(sequences: Seq<i64>, target: i64, from: nat) -> nat
    decreases sequences.len() - from,
{
    if from < sequences.len() && sequences[from as int] <= target {
        crossing(sequences, target, from + 1)
    } else {
        from
    }
}

/// Sequences of a window's events.
pub open spec fn sequences_of(page: AiInboxEventPage) -> Seq<i64> {
    page.events@.map_values(|event: AiInboxEventView| event.sequence)
}

/// The demand to reset, at this watermark.
pub open spec fn reset_envelope(watermark: i64) -> AiInboxEventEnvelope {
    AiInboxEventEnvelope { event: None, watermark, reset_required: true }
}

/// The delivery of one event, at this watermark.
pub open spec fn event_envelope(event: AiInboxEventView, watermark: i64) -> AiInboxEventEnvelope {
    AiInboxEventEnvelope { event: Some(event), watermark, reset_required: false }
}

/// The deliveries of these events of a window.
pub open spec fn event_envelopes(
    events: Seq<AiInboxEventView>,
    positions: Seq<int>,
    watermark: i64,
) -> Seq<AiInboxEventEnvelope> {
    positions.map_values(|position: int| event_envelope(events[position], watermark))
}

impl InboxSubscription {
    /// A subscription that starts after the given sequence.
    pub fn new(after_sequence: i64) -> (subscription: InboxSubscription)
        ensures
            subscription == InboxSubscription::starting(after_sequence),
    {
        InboxSubscription {
            delivered_sequence: after_sequence,
            target_watermark: 0,
            replay_required: true,
            replay_starting: true,
            ended: false,
        }
    }

    /// The state in which a subscription starts.
    pub open spec fn starting(after_sequence: i64) -> InboxSubscription {
        InboxSubscription {
            delivered_sequence: after_sequence,
            target_watermark: 0,
            replay_required: true,
            replay_starting: true,
            ended: false,
        }
    }

    /// The watermark that a window is replayed towards.
    pub open spec fn target_for(self, page: AiInboxEventPage) -> i64 {
        if self.replay_starting {
            page.watermark
        } else {
            self.target_watermark
        }
    }

    /// Whether the window ends the subscription with a reset before anything
    /// of it is delivered.
    pub open spec fn refuses(self, page: AiInboxEventPage) -> bool {
        page.reset_required || (self.replay_starting && page.watermark < self.delivered_sequence)
    }

    /// Positions of the window's events that are delivered, and the sequence
    /// that is delivered behind them.
    pub open spec fn delivers(self, page: AiInboxEventPage) -> (Seq<int>, i64) {
        let target = self.target_for(page);
        if self.refuses(page) {
            (Seq::empty(), self.delivered_sequence)
        } else {
            deliveries(
                sequences_of(page),
                self.delivered_sequence,
                target,
                crossing(sequences_of(page), target, 0),
            )
        }
    }

    /// How the subscription goes on after the window.
    pub open spec fn next_after(self, page: AiInboxEventPage) -> ReplayNext {
        let target = self.target_for(page);
        if self.refuses(page) {
            ReplayNext::Reset
        } else if self.delivers(page).1 >= target || crossing(sequences_of(page), target, 0)
            < page.events@.len() {
            ReplayNext::CaughtUp
        } else if page.has_more {
            ReplayNext::ReadNext
        } else {
            ReplayNext::Reset
        }
    }

    /// What the window yields: its deliveries, and behind them the demand to
    /// reset, where there is one.
    pub open spec fn yields(self, page: AiInboxEventPage) -> Seq<AiInboxEventEnvelope> {
        let target = self.target_for(page);
        let delivered = event_envelopes(page.events@, self.delivers(page).0, target);
        if self.next_after(page) is Reset {
            delivered.push(reset_envelope(target))
        } else {
            delivered
        }
    }

    /// The state after the window.
    pub open spec fn after_page(self, page: AiInboxEventPage) -> InboxSubscription {
        let next = self.next_after(page);
        InboxSubscription {
            delivered_sequence: self.delivers(page).1,
            target_watermark: self.target_for(page),
            replay_required: if self.refuses(page) {
                self.replay_required
            } else {
                !(next is CaughtUp)
            },
            replay_starting: if self.refuses(page) {
                self.replay_starting
            } else {
                next is CaughtUp
            },
            ended: next is Reset,
        }
    }

    /// Takes one window of a replay.
    ///
    /// The first window of a replay fixes the target. Events past the target
    /// end the replay and are left for the next one; events that were
    /// delivered before are skipped. A window that neither reaches the target
    /// nor continues demands a reset, which ends the subscription.
    pub fn take_page(&mut self, page: AiInboxEventPage) -> (step: ReplayStep)
        requires
            !old(self).ended,
        ensures
            *final(self) == old(self).after_page(page),
            step.envelopes@ == old(self).yields(page),
            step.next == old(self).next_after(page),
    {
        let target: i64 = if self.replay_starting {
            page.watermark
        } else {
            self.target_watermark
        };
        let refused: bool = page.reset_required || (self.replay_starting && target
            < self.delivered_sequence);
        self.target_watermark = target;
        let mut envelopes: Vec<AiInboxEventEnvelope> = Vec::new();
        if refused {
            self.ended = true;
            envelopes.push(
                AiInboxEventEnvelope { event: None, watermark: target, reset_required: true },
            );
            proof {
                assert(envelopes@ =~= old(self).yields(page));
            }
            return ReplayStep { envelopes, next: ReplayNext::Reset };
        }
        let ghost sequences = sequences_of(page);
        let ghost events = page.events@;
        let ghost start = self.delivered_sequence;
        let has_more: bool = page.has_more;
        let mut delivered: i64 = self.delivered_sequence;
        let mut crossed: bool = false;
        proof {
            assert(envelopes@ =~= event_envelopes(events, Seq::<int>::empty(), target));
        }
        for event in iter: page.events.into_iter()
            invariant
                iter.seq() == events,
                sequences == events.map_values(|event: AiInboxEventView| event.sequence),
                ({
                    let stop = crossing(sequences, target, 0);
                    if crossed {
                        stop < iter.index() <= events.len()
                    } else {
                        stop == crossing(sequences, target, iter.index() as nat)
                    }
                }),
                ({
                    let stop = crossing(sequences, target, 0);
                    let taken = if crossed {
                        stop
                    } else {
                        iter.index() as nat
                    };
                    let (positions, reached) = deliveries(sequences, start, target, taken);
                    envelopes@ == event_envelopes(events, positions, target) && delivered
                        == reached
                }),
        {
            proof {
                assert(sequences[iter.index()] == event.sequence);
            }
            if !crossed {
                if event.sequence > target {
                    crossed = true;
                } else if event.sequence > delivered {
                    let ghost before = deliveries(sequences, start, target, iter.index() as nat).0;
                    delivered = event.sequence;
                    let ghost position = iter.index();
                    envelopes.push(
                        AiInboxEventEnvelope {
                            event: Some(event),
                            watermark: target,
                            reset_required: false,
                        },
                    );
                    proof {
                        assert(envelopes@ =~= event_envelopes(
                            events,
                            before.push(position),
                            target,
                        ));
                    }
                }
            }
        }
        self.delivered_sequence = delivered;
        let next = if delivered >= target || crossed {
            ReplayNext::CaughtUp
        } else if has_more {
            ReplayNext::ReadNext
        } else {
            ReplayNext::Reset
        };
        match next {
            ReplayNext::CaughtUp => {
                self.replay_required = false;
                self.replay_starting = true;
            },
            ReplayNext::ReadNext => {
                self.replay_required = true;
                self.replay_starting = false;
            },
            ReplayNext::Reset => {
                self.replay_required = true;
                self.replay_starting = false;
                self.ended = true;
                envelopes.push(
                    AiInboxEventEnvelope { event: None, watermark: target, reset_required: true },
                );
            },
        }
        ReplayStep { envelopes, next }
    }

    /// Takes one wakeup: a replay follows where the wakeup is for the
    /// subscription's principal and past what was delivered.
    pub fn take_wakeup(
        &mut self,
        principal_kind: &str,
        principal_subject: &str,
        own_kind: &str,
        own_subject: &str,
        sequence: i64,
    )
        ensures
            final(self).replay_required == (old(self).replay_required || (principal_kind@
                == own_kind@ && principal_subject@ == own_subject@ && sequence > old(
                self,
            ).delivered_sequence)),
            final(self).delivered_sequence == old(self).delivered_sequence,
            final(self).target_watermark == old(self).target_watermark,
            final(self).replay_starting == old(self).replay_starting,
            final(self).ended == old(self).ended,
    {
        if same_text(principal_kind, own_kind) && same_text(principal_subject, own_subject)
            && sequence > self.delivered_sequence {
            self.replay_required = true;
        }
    }

    /// Takes a report that wakeups were lost: a replay follows.
    pub fn take_lag(&mut self)
        ensures
            final(self).replay_required,
            final(self).delivered_sequence == old(self).delivered_sequence,
            final(self).target_watermark == old(self).target_watermark,
            final(self).replay_starting == old(self).replay_starting,
            final(self).ended == old(self).ended,
    {
        self.replay_required = true;
    }

    /// Takes a reauthorized principal: a replay follows where it is still the
    /// subscription's principal; any other principal ends the subscription.
    pub fn take_reauthorization(
        &mut self,
        current: &AuthPrincipal,
        own_kind: &str,
        own_subject: &str,
    ) -> (result: Result<(), AiError>)
        ensures
            outcome(result) == accepted_or(
                principal_kind_text(*current) == own_kind@ && principal_subject_text(*current)
                    == own_subject@,
                ErrorModel::ReauthorizationFailed,
            ),
            result is Ok ==> final(self).replay_required,
            result is Err ==> final(self).replay_required == old(self).replay_required,
            final(self).delivered_sequence == old(self).delivered_sequence,
            final(self).target_watermark == old(self).target_watermark,
            final(self).replay_starting == old(self).replay_starting,
            final(self).ended == old(self).ended,
    {
        let (kind, subject) = principal_identity(current);
        if same_text(kind.as_str(), own_kind) && same_text(subject.as_str(), own_subject) {
            self.replay_required = true;
            Ok(())
        } else {
            Err(AiError::ReauthorizationFailed)
        }
    }
}

/// Deliveries of a window are strictly ascending, all after what was delivered
/// before and none past the target, and the reached sequence is the last
/// delivered one.
pub proof fn deliveries_ascend(sequences: Seq<i64>, delivered: i64, target: i64, count: nat)
    requires
        count <= sequences.len(),
    ensures
        ({
            let (positions, reached) = deliveries(sequences, delivered, target, count);
            &&& delivered <= reached
            &&& positions.len() == 0 ==> reached == delivered
            &&& positions.len() > 0 ==> reached == sequences[positions.last()]
            &&& forall|k: int|
                0 <= k < positions.len() ==> 0 <= #[trigger] positions[k] < count && delivered
                    < sequences[positions[k]] <= target
            &&& forall|j: int, k: int|
                0 <= j < k < positions.len() ==> sequences[#[trigger] positions[j]]
                    < sequences[#[trigger] positions[k]]
        }),
    decreases count,
{
    if count > 0 {
        deliveries_ascend(sequences, delivered, target, (count - 1) as nat);
        let (before, reached) = deliveries(sequences, delivered, target, (count - 1) as nat);
        let (after, _last) = deliveries(sequences, delivered, target, count);
        if after.len() > before.len() {
            assert forall|j: int, k: int| 0 <= j < k < after.len() implies sequences[#[trigger] after[j]]
                < sequences[#[trigger] after[k]] by {
                if k == after.len() - 1 {
                    assert(after[j] == before[j]);
                    if j < before.len() - 1 {
                        assert(sequences[before[j]] < sequences[before[before.len() - 1]]);
                    }
                } else {
                    assert(after[j] == before[j] && after[k] == before[k]);
                }
            }
        }
    }
}

/// A window in ascending order leaves nothing out: every event after what was
/// delivered before and up to the target is delivered.
pub proof fn deliveries_are_complete(sequences: Seq<i64>, delivered: i64, target: i64, count: nat)
    requires
        count <= sequences.len(),
        forall|i: int, j: int|
            0 <= i < j < sequences.len() ==> #[trigger] sequences[i] < #[trigger] sequences[j],
    ensures
        ({
            let (positions, reached) = deliveries(sequences, delivered, target, count);
            forall|i: int|
                0 <= i < count && delivered < #[trigger] sequences[i] <= target
                    ==> positions.contains(i)
        }),
    decreases count,
{
    if count > 0 {
        deliveries_are_complete(sequences, delivered, target, (count - 1) as nat);
        deliveries_ascend(sequences, delivered, target, (count - 1) as nat);
        let (before, reached) = deliveries(sequences, delivered, target, (count - 1) as nat);
        let (after, _last) = deliveries(sequences, delivered, target, count);
        assert forall|i: int| 0 <= i < count && delivered < #[trigger] sequences[i]
            <= target implies after.contains(i) by {
            if i < count - 1 {
                let k = choose|k: int| 0 <= k < before.len() && before[k] == i;
                assert(after[k] == i);
            } else {
                if before.len() > 0 {
                    assert(sequences[before[before.len() - 1]] < sequences[i]);
                }
                assert(after[before.len() as int] == i);
            }
        }
    }
}

/// The state after a subscription took these windows, and everything that it
/// yielded. An ended subscription takes no further window.
pub open spec fn run_pages(after_sequence: i64, pages: Seq<AiInboxEventPage>) -> (
    InboxSubscription,
    Seq<AiInboxEventEnvelope>,
)
    decreases pages.len(),
{
    if pages.len() == 0 {
        (InboxSubscription::starting(after_sequence), Seq::empty())
    } else {
        let (before, yielded) = run_pages(after_sequence, pages.drop_last());
        if before.ended {
            (before, yielded)
        } else {
            (before.after_page(pages.last()), yielded + before.yields(pages.last()))
        }
    }
}

/// Whatever windows a subscription takes, the events that it yields have
/// strictly ascending sequences, all after its start and none past the
/// watermark of its item. An item demands a reset exactly where it carries no
/// event, and it is then the last item.
pub proof fn yielded_events_ascend(after_sequence: i64, pages: Seq<AiInboxEventPage>)
    ensures
        ({
            let (state, yielded) = run_pages(after_sequence, pages);
            &&& after_sequence <= state.delivered_sequence
            &&& forall|i: int|
                0 <= i < yielded.len() ==> (#[trigger] yielded[i]).reset_required
                    == (yielded[i].event is None)
            &&& forall|i: int|
                0 <= i < yielded.len() && (#[trigger] yielded[i]).event is Some ==> after_sequence
                    < yielded[i].event->0.sequence <= yielded[i].watermark
                    && yielded[i].event->0.sequence <= state.delivered_sequence
            &&& forall|i: int, j: int|
                0 <= i < j < yielded.len() && (#[trigger] yielded[i]).event is Some && (
                #[trigger] yielded[j]).event is Some ==> yielded[i].event->0.sequence
                    < yielded[j].event->0.sequence
            &&& forall|i: int|
                0 <= i < yielded.len() && (#[trigger] yielded[i]).reset_required ==> i
                    == yielded.len() - 1
            &&& state.ended <==> yielded.len() > 0 && yielded.last().reset_required
        }),
    decreases pages.len(),
{
    if pages.len() > 0 {
        yielded_events_ascend(after_sequence, pages.drop_last());
        let (before, earlier) = run_pages(after_sequence, pages.drop_last());
        if !before.ended {
            let page = pages.last();
            let target = before.target_for(page);
            let sequences = sequences_of(page);
            let stop = crossing(sequences, target, 0);
            lemma_crossing_in_range(sequences, target, 0);
            deliveries_ascend(sequences, before.delivered_sequence, target, stop);
            let (positions, reached) = before.delivers(page);
            let added = before.yields(page);
            let (state, yielded) = run_pages(after_sequence, pages);
            assert(yielded == earlier + added);
            assert forall|i: int| 0 <= i < positions.len() implies (#[trigger] added[i])
                == event_envelope(page.events@[positions[i]], target) && before.delivered_sequence
                < added[i].event->0.sequence <= target && added[i].event->0.sequence <= reached by {
                assert(sequences[positions[i]] == page.events@[positions[i]].sequence);
                if i < positions.len() - 1 {
                    assert(sequences[positions[i]] < sequences[positions[positions.len() - 1]]);
                }
            }
            assert forall|i: int, j: int| 0 <= i < j < positions.len() implies (
            #[trigger] added[i]).event->0.sequence < (#[trigger] added[j]).event->0.sequence by {
                assert(sequences[positions[i]] < sequences[positions[j]]);
                assert(sequences[positions[i]] == page.events@[positions[i]].sequence);
                assert(sequences[positions[j]] == page.events@[positions[j]].sequence);
            }
            assert forall|i: int| 0 <= i < earlier.len() implies (#[trigger] earlier[i]).event
                is Some by {
                assert(!earlier[i].reset_required);
            }
            assert forall|i: int| 0 <= i < yielded.len() implies #[trigger] yielded[i] == if i
                < earlier.len() {
                earlier[i]
            } else {
                added[i - earlier.len()]
            } by {}
        }
    }
}

proof fn lemma_crossing_in_range(sequences: Seq<i64>, target: i64, from: nat)
    requires
        from <= sequences.len(),
    ensures
        from <= crossing(sequences, target, from) <= sequences.len(),
    decreases sequences.len() - from,
{
    if from < sequences.len() && sequences[from as int] <= target {
        lemma_crossing_in_range(sequences, target, from + 1);
    }
}

proof fn lemma_crossing_is_first(sequences: Seq<i64>, target: i64, from: nat)
    requires
        from <= sequences.len(),
    ensures
        ({
            let stop = crossing(sequences, target, from);
            &&& from <= stop <= sequences.len()
            &&& forall|i: int| from <= i < stop ==> #[trigger] sequences[i] <= target
            &&& stop < sequences.len() ==> sequences[stop as int] > target
        }),
    decreases sequences.len() - from,
{
    if from < sequences.len() && sequences[from as int] <= target {
        lemma_crossing_is_first(sequences, target, from + 1);
    }
}

/// A replay works towards the watermark that its first window showed, and
/// refuses a window that demands a reset or that begins it behind what was
/// delivered.
pub proof fn replays_keep_their_target(subscription: InboxSubscription, page: AiInboxEventPage)
    ensures
        subscription.target_for(page) == if subscription.replay_starting {
            page.watermark
        } else {
            subscription.target_watermark
        },
        subscription.refuses(page) <==> page.reset_required || (subscription.replay_starting
            && page.watermark < subscription.delivered_sequence),
        subscription.after_page(page).target_watermark == subscription.target_for(page),
{
}

/// After a window a subscription has caught up exactly where it delivered up to
/// its target or saw an event past it; it reads on where it did neither and
/// more follows; and it resets where nothing follows or the window is refused.
pub proof fn replays_catch_up_or_reset(subscription: InboxSubscription, page: AiInboxEventPage)
    ensures
        ({
            let target = subscription.target_for(page);
            let next = subscription.next_after(page);
            let after = subscription.after_page(page);
            let reached = after.delivered_sequence >= target || exists|i: int|
                0 <= i < page.events@.len() && (#[trigger] page.events@[i]).sequence > target;
            &&& next is CaughtUp <==> !subscription.refuses(page) && reached
            &&& next is ReadNext <==> !subscription.refuses(page) && !reached && page.has_more
            &&& after.ended <==> next is Reset
            &&& !subscription.refuses(page) ==> (after.replay_required <==> !reached) && (
            after.replay_starting <==> reached)
            &&& subscription.refuses(page) ==> after.delivered_sequence
                == subscription.delivered_sequence && subscription.yields(page) == seq![
                reset_envelope(target),
            ]
        }),
{
    let sequences = sequences_of(page);
    let target = subscription.target_for(page);
    lemma_crossing_is_first(sequences, target, 0);
    let stop = crossing(sequences, target, 0);
    if stop < sequences.len() {
        assert(page.events@[stop as int].sequence == sequences[stop as int]);
    }
    assert forall|i: int| 0 <= i < stop implies (#[trigger] page.events@[i]).sequence <= target by {
        assert(sequences[i] <= target);
    }
    if subscription.refuses(page) {
        assert(subscription.yields(page) =~= seq![reset_envelope(target)]);
    }
}

/// A window in ascending order is delivered in full up to the target: every
/// event after what was delivered and not past the target is yielded, as it is
/// and at the target's watermark, without a demand to reset.
pub proof fn windows_are_delivered_in_full(
    subscription: InboxSubscription,
    page: AiInboxEventPage,
    i: int,
) -> (k: int)
    requires
        !subscription.refuses(page),
        forall|a: int, b: int|
            0 <= a < b < page.events@.len() ==> (#[trigger] page.events@[a]).sequence < (
            #[trigger] page.events@[b]).sequence,
        0 <= i < page.events@.len(),
        subscription.delivered_sequence < page.events@[i].sequence <= subscription.target_for(page),
    ensures
        0 <= k < subscription.yields(page).len(),
        subscription.yields(page)[k].event == Some(page.events@[i]),
        subscription.yields(page)[k].watermark == subscription.target_for(page),
        !subscription.yields(page)[k].reset_required,
{
    let sequences = sequences_of(page);
    let target = subscription.target_for(page);
    lemma_crossing_is_first(sequences, target, 0);
    let stop = crossing(sequences, target, 0);
    assert forall|a: int, b: int| 0 <= a < b < sequences.len() implies #[trigger] sequences[a]
        < #[trigger] sequences[b] by {
        assert(page.events@[a].sequence < page.events@[b].sequence);
    }
    assert(sequences[i] == page.events@[i].sequence);
    if stop <= i {
        assert(sequences[stop as int] > target);
    }
    deliveries_are_complete(sequences, subscription.delivered_sequence, target, stop);
    let positions = subscription.delivers(page).0;
    assert(positions.contains(i));
    let k = choose|k: int| 0 <= k < positions.len() && positions[k] == i;
    let delivered = event_envelopes(page.events@, positions, target);
    assert(delivered[k] == event_envelope(page.events@[i], target));
    assert(subscription.yields(page)[k] == delivered[k]);
    k
}

/// A subscription starts right after the given sequence and reads at once.
pub proof fn subscriptions_start_reading(after_sequence: i64)
    ensures
        InboxSubscription::starting(after_sequence).delivered_sequence == after_sequence,
        InboxSubscription::starting(after_sequence).replay_required,
        InboxSubscription::starting(after_sequence).replay_starting,
        !InboxSubscription::starting(after_sequence).ended,
{
}

} // verus!
