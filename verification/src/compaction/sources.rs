//! Order and comparison of egress sources.

use crate::egress::{AiDataSourceRef, AiSourceTrust, SourceModel, same_sources, source_models};
use crate::order::{
    is_text_below, lemma_bytes_irreflexive, lemma_bytes_total, lemma_bytes_transitive, text_below,
};
use crate::provider::DataClassification;
use crate::text::{lemma_encoding_injective, same_text};
use vstd::prelude::*;
use vstd::relations::{
    antisymmetric, reflexive, sorted_by, strongly_connected, total_ordering, transitive,
};
use vstd::utf8::encode_utf8;

verus! {

/// Position of a classification in ascending restriction.
pub open spec fn classification_rank(value: DataClassification) -> int {
    match value {
        DataClassification::Public => 0,
        DataClassification::Internal => 1,
        DataClassification::Confidential => 2,
        DataClassification::Restricted => 3,
        DataClassification::Secret => 4,
    }
}

/// Position of a trust level.
pub open spec fn trust_rank(value: AiSourceTrust) -> int {
    match value {
        AiSourceTrust::UserProvided => 0,
        AiSourceTrust::ResolverResult => 1,
        AiSourceTrust::ExternalUntrusted => 2,
    }
}

fn rank_of_classification(value: DataClassification) -> (rank: u8)
    ensures
        rank == classification_rank(value),
{
    match value {
        DataClassification::Public => 0,
        DataClassification::Internal => 1,
        DataClassification::Confidential => 2,
        DataClassification::Restricted => 3,
        DataClassification::Secret => 4,
    }
}

fn rank_of_trust(value: AiSourceTrust) -> (rank: u8)
    ensures
        rank == trust_rank(value),
{
    match value {
        AiSourceTrust::UserProvided => 0,
        AiSourceTrust::ResolverResult => 1,
        AiSourceTrust::ExternalUntrusted => 2,
    }
}

/// Order of sources: by kind, then reference, then classification, then trust.
pub open spec fn source_below(left: SourceModel, right: SourceModel) -> bool {
    ||| text_below(left.kind, right.kind)
    ||| left.kind == right.kind && text_below(left.reference, right.reference)
    ||| left.kind == right.kind && left.reference == right.reference && classification_rank(
        left.classification,
    ) < classification_rank(right.classification)
    ||| left.kind == right.kind && left.reference == right.reference && left.classification
        == right.classification && trust_rank(left.trust) < trust_rank(right.trust)
}

/// The reflexive order of sources.
pub open spec fn source_order() -> spec_fn(SourceModel, SourceModel) -> bool {
    |left: SourceModel, right: SourceModel| left == right || source_below(left, right)
}

fn is_source_below(left: &AiDataSourceRef, right: &AiDataSourceRef) -> (result: bool)
    ensures
        result == source_below(left@, right@),
{
    if is_text_below(left.kind.as_str(), right.kind.as_str()) {
        return true;
    }
    if !same_text(left.kind.as_str(), right.kind.as_str()) {
        return false;
    }
    if is_text_below(left.reference.as_str(), right.reference.as_str()) {
        return true;
    }
    if !same_text(left.reference.as_str(), right.reference.as_str()) {
        return false;
    }
    let left_rank: u8 = rank_of_classification(left.classification);
    let right_rank: u8 = rank_of_classification(right.classification);
    left_rank < right_rank || (left_rank == right_rank && rank_of_trust(left.trust)
        < rank_of_trust(right.trust))
}

proof fn lemma_text_irreflexive(value: Seq<char>)
    ensures
        !text_below(value, value),
{
    lemma_bytes_irreflexive(encode_utf8(value));
}

proof fn lemma_text_transitive(a: Seq<char>, b: Seq<char>, c: Seq<char>)
    ensures
        text_below(a, b) && text_below(b, c) ==> text_below(a, c),
{
    if text_below(a, b) && text_below(b, c) {
        lemma_bytes_transitive(encode_utf8(a), encode_utf8(b), encode_utf8(c));
    }
}

proof fn lemma_text_total(a: Seq<char>, b: Seq<char>)
    ensures
        a == b || text_below(a, b) || text_below(b, a),
{
    lemma_bytes_total(encode_utf8(a), encode_utf8(b));
    lemma_encoding_injective(a, b);
}

proof fn lemma_source_transitive(a: SourceModel, b: SourceModel, c: SourceModel)
    requires
        source_below(a, b),
        source_below(b, c),
    ensures
        source_below(a, c),
{
    lemma_text_transitive(a.kind, b.kind, c.kind);
    lemma_text_transitive(a.reference, b.reference, c.reference);
}

proof fn lemma_source_irreflexive(a: SourceModel)
    ensures
        !source_below(a, a),
{
    lemma_text_irreflexive(a.kind);
    lemma_text_irreflexive(a.reference);
}

proof fn lemma_source_total(a: SourceModel, b: SourceModel)
    ensures
        a == b || source_below(a, b) || source_below(b, a),
{
    lemma_text_total(a.kind, b.kind);
    lemma_text_total(a.reference, b.reference);
}

/// The order of sources is total.
pub proof fn source_order_is_total()
    ensures
        total_ordering(source_order()),
{
    let order = source_order();
    assert(reflexive(order));
    assert(antisymmetric(order)) by {
        assert forall|x: SourceModel, y: SourceModel| #[trigger] order(x, y) && #[trigger] order(
            y,
            x,
        ) implies x == y by {
            if x != y {
                lemma_source_transitive(x, y, x);
                lemma_source_irreflexive(x);
            }
        }
    }
    assert(transitive(order)) by {
        assert forall|x: SourceModel, y: SourceModel, z: SourceModel| #[trigger] order(x, y)
            && #[trigger] order(y, z) implies order(x, z) by {
            if x != y && y != z {
                lemma_source_transitive(x, y, z);
            }
        }
    }
    assert(strongly_connected(order)) by {
        assert forall|x: SourceModel, y: SourceModel| #[trigger] order(x, y) || order(y, x) by {
            lemma_source_total(x, y);
        }
    }
}

/// A copy of a source.
pub fn copy_source(source: &AiDataSourceRef) -> (copy: AiDataSourceRef)
    ensures
        copy == *source,
{
    AiDataSourceRef {
        kind: source.kind.clone(),
        reference: source.reference.clone(),
        classification: source.classification,
        trust: source.trust,
    }
}

fn insert_source(sorted: &mut Vec<AiDataSourceRef>, source: AiDataSourceRef)
    requires
        sorted_by(source_models(old(sorted)@), source_order()),
    ensures
        sorted_by(source_models(final(sorted)@), source_order()),
        source_models(final(sorted)@).to_multiset() == source_models(
            old(sorted)@,
        ).to_multiset().insert(source@),
        final(sorted)@.len() == old(sorted)@.len() + 1,
{
    let ghost before = source_models(sorted@);
    let ghost item = source@;
    let mut position: usize = 0;
    while position < sorted.len() && !is_source_below(&source, &sorted[position])
        invariant
            position <= sorted@.len(),
            before == source_models(sorted@),
            item == source@,
            forall|k: int| 0 <= k < position ==> !source_below(item, #[trigger] before[k]),
        decreases sorted@.len() - position,
    {
        position += 1;
    }
    sorted.insert(position, source);
    proof {
        let order = source_order();
        let after = source_models(sorted@);
        assert(after =~= before.insert(position as int, item));
        assert forall|i: int, j: int| 0 <= i < j < after.len() implies #[trigger] order(
            after[i],
            after[j],
        ) by {
            if j < position {
                assert(order(before[i], before[j]));
            } else if j == position {
                lemma_source_total(item, before[i]);
            } else if i < position {
                assert(order(before[i], before[j - 1]));
            } else if i == position {
                if j - 1 > position {
                    assert(order(before[position as int], before[j - 1]));
                    if before[position as int] != before[j - 1] {
                        lemma_source_transitive(item, before[position as int], before[j - 1]);
                    }
                }
            } else {
                assert(order(before[i - 1], before[j - 1]));
            }
        }
        vstd::seq_lib::to_multiset_insert(before, position as int, item);
    }
}

/// The sources in ascending order.
pub fn sort_sources(sources: &Vec<AiDataSourceRef>) -> (sorted: Vec<AiDataSourceRef>)
    ensures
        sorted_by(source_models(sorted@), source_order()),
        source_models(sorted@).to_multiset() == source_models(sources@).to_multiset(),
        sorted@.len() == sources@.len(),
{
    let mut sorted: Vec<AiDataSourceRef> = Vec::new();
    let mut i: usize = 0;
    proof {
        assert(source_models(sorted@) =~= Seq::<SourceModel>::empty());
        assert(source_models(sources@).subrange(0, 0) =~= Seq::<SourceModel>::empty());
    }
    while i < sources.len()
        invariant
            i <= sources@.len(),
            sorted@.len() == i,
            sorted_by(source_models(sorted@), source_order()),
            source_models(sorted@).to_multiset() == source_models(sources@).subrange(
                0,
                i as int,
            ).to_multiset(),
        decreases sources@.len() - i,
    {
        proof {
            broadcast use vstd::seq_lib::group_to_multiset_ensures;

            let all = source_models(sources@);
            assert(all.subrange(0, i as int + 1) =~= all.subrange(0, i as int).push(all[i as int]));
        }
        insert_source(&mut sorted, copy_source(&sources[i]));
        i += 1;
    }
    proof {
        assert(source_models(sources@).subrange(0, i as int) =~= source_models(sources@));
    }
    sorted
}

/// Whether two lists hold the same sources, in any order.
pub open spec fn same_source_set(
    left: Seq<AiDataSourceRef>,
    right: Seq<AiDataSourceRef>,
) -> bool {
    source_models(left).to_multiset() == source_models(right).to_multiset()
}

/// Whether `sources` are, in any order, exactly the sources of a sorted list.
pub fn matches_sorted(sources: &Vec<AiDataSourceRef>, sorted: &Vec<AiDataSourceRef>) -> (result:
    bool)
    requires
        sorted_by(source_models(sorted@), source_order()),
    ensures
        result == same_source_set(sources@, sorted@),
{
    let own = sort_sources(sources);
    proof {
        source_order_is_total();
        if same_source_set(sources@, sorted@) {
            vstd::seq_lib::lemma_sorted_unique(
                source_models(own@),
                source_models(sorted@),
                source_order(),
            );
        }
    }
    same_sources(&own, sorted)
}

/// Sources are ordered by kind, within one kind by reference, within one
/// reference from the least to the most restricted, and last by trust.
pub proof fn sources_are_ordered_by_kind_first(left: SourceModel, right: SourceModel)
    ensures
        left.kind != right.kind ==> (source_below(left, right) <==> text_below(
            left.kind,
            right.kind,
        )),
        left.kind == right.kind && left.reference != right.reference ==> (source_below(left, right)
            <==> text_below(left.reference, right.reference)),
        left.kind == right.kind && left.reference == right.reference && left.classification
            != right.classification ==> (source_below(left, right) <==> classification_rank(
            left.classification,
        ) < classification_rank(right.classification)),
        left.kind == right.kind && left.reference == right.reference && left.classification
            == right.classification ==> (source_below(left, right) <==> trust_rank(left.trust)
            < trust_rank(right.trust)),
        classification_rank(DataClassification::Public) < classification_rank(
            DataClassification::Internal,
        ) < classification_rank(DataClassification::Confidential) < classification_rank(
            DataClassification::Restricted,
        ) < classification_rank(DataClassification::Secret),
        trust_rank(AiSourceTrust::UserProvided) < trust_rank(AiSourceTrust::ResolverResult)
            < trust_rank(AiSourceTrust::ExternalUntrusted),
{
    lemma_text_irreflexive(left.kind);
    lemma_text_irreflexive(left.reference);
}

/// Lists hold the same sources exactly where each source occurs equally often
/// in both.
pub proof fn same_sources_occur_equally_often(
    left: Seq<AiDataSourceRef>,
    right: Seq<AiDataSourceRef>,
)
    ensures
        same_source_set(left, right) <==> forall|source: SourceModel|
            #[trigger]
            source_models(left).to_multiset().count(source) == source_models(
                right,
            ).to_multiset().count(source),
{
    let (l, r) = (source_models(left).to_multiset(), source_models(right).to_multiset());
    if forall|source: SourceModel| #[trigger] l.count(source) == r.count(source) {
        assert(l =~= r);
    }
}

} // verus!
