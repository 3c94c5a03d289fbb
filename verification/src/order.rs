//! Byte-wise text order and ordered collections without duplicates.

use crate::text::lemma_encoding_injective;
use vstd::prelude::*;
use vstd::utf8::encode_utf8;

verus! {

/// Lexicographic order of byte strings.
pub open spec fn bytes_below(left: Seq<u8>, right: Seq<u8>) -> bool
    decreases left.len(),
{
    if right.len() == 0 {
        false
    } else if left.len() == 0 {
        true
    } else if left[0] != right[0] {
        left[0] < right[0]
    } else {
        bytes_below(left.drop_first(), right.drop_first())
    }
}

/// Order of texts by their UTF-8 bytes.
pub open spec fn text_below(left: Seq<char>, right: Seq<char>) -> bool {
    bytes_below(encode_utf8(left), encode_utf8(right))
}

/// The order is irreflexive.
pub proof fn lemma_bytes_irreflexive(value: Seq<u8>)
    ensures
        !bytes_below(value, value),
    decreases value.len(),
{
    if value.len() > 0 {
        lemma_bytes_irreflexive(value.drop_first());
    }
}

/// The order is transitive.
pub proof fn lemma_bytes_transitive(a: Seq<u8>, b: Seq<u8>, c: Seq<u8>)
    requires
        bytes_below(a, b),
        bytes_below(b, c),
    ensures
        bytes_below(a, c),
    decreases a.len(),
{
    if a.len() > 0 && b.len() > 0 && c.len() > 0 && a[0] == b[0] && b[0] == c[0] {
        lemma_bytes_transitive(a.drop_first(), b.drop_first(), c.drop_first());
    }
}

/// Of two different byte strings one is below the other.
pub proof fn lemma_bytes_total(a: Seq<u8>, b: Seq<u8>)
    ensures
        a == b || bytes_below(a, b) || bytes_below(b, a),
    decreases a.len(),
{
    if a.len() > 0 && b.len() > 0 && a[0] == b[0] {
        lemma_bytes_total(a.drop_first(), b.drop_first());
        if a.drop_first() == b.drop_first() {
            assert(a =~= seq![a[0]] + a.drop_first());
            assert(b =~= seq![b[0]] + b.drop_first());
        }
    } else if a.len() == 0 && b.len() == 0 {
        assert(a =~= b);
    }
}

proof fn lemma_common_prefix(a: Seq<u8>, b: Seq<u8>, n: int)
    requires
        0 <= n <= a.len(),
        n <= b.len(),
        forall|k: int| 0 <= k < n ==> a[k] == b[k],
    ensures
        bytes_below(a, b) == bytes_below(
            a.subrange(n, a.len() as int),
            b.subrange(n, b.len() as int),
        ),
    decreases n,
{
    if n == 0 {
        assert(a.subrange(0, a.len() as int) =~= a);
        assert(b.subrange(0, b.len() as int) =~= b);
    } else {
        assert(a[0] == b[0]);
        let ta = a.drop_first();
        let tb = b.drop_first();
        assert forall|k: int| 0 <= k < n - 1 implies ta[k] == tb[k] by {
            assert(a[k + 1] == b[k + 1]);
        }
        lemma_common_prefix(ta, tb, n - 1);
        assert(ta.subrange(n - 1, ta.len() as int) =~= a.subrange(n, a.len() as int));
        assert(tb.subrange(n - 1, tb.len() as int) =~= b.subrange(n, b.len() as int));
    }
}

/// Whether `left` is below `right`.
pub fn is_bytes_below(left: &[u8], right: &[u8]) -> (result: bool)
    ensures
        result == bytes_below(left@, right@),
{
    let mut i: usize = 0;
    while i < left.len() && i < right.len() && left[i] == right[i]
        invariant
            i <= left@.len(),
            i <= right@.len(),
            forall|k: int| 0 <= k < i ==> left@[k] == right@[k],
        decreases left@.len() - i,
    {
        i += 1;
    }
    proof {
        lemma_common_prefix(left@, right@, i as int);
    }
    if i >= right.len() {
        false
    } else if i >= left.len() {
        true
    } else {
        left[i] < right[i]
    }
}

/// Whether `left` is below `right`.
pub fn is_text_below(left: &str, right: &str) -> (result: bool)
    ensures
        result == text_below(left@, right@),
{
    is_bytes_below(left.as_bytes(), right.as_bytes())
}

/// The texts of a list.
pub open spec fn texts(list: Seq<String>) -> Seq<Seq<char>> {
    list.map_values(|item: String| item@)
}

/// Whether every text is below each later one; no text then occurs twice.
pub open spec fn strictly_ordered(list: Seq<Seq<char>>) -> bool {
    forall|i: int, j: int| 0 <= i < j < list.len() ==> text_below(#[trigger] list[i], #[trigger] list[j])
}

/// Adds a text to a strictly ordered list, unless it is there already.
pub fn insert_ordered(list: &mut Vec<String>, item: String)
    requires
        strictly_ordered(texts(old(list)@)),
    ensures
        strictly_ordered(texts(final(list)@)),
        texts(final(list)@).to_set() == texts(old(list)@).to_set().insert(item@),
{
    let ghost before = list@;
    let ghost model = texts(before);
    let mut position: usize = 0;
    while position < list.len() && is_text_below(list[position].as_str(), item.as_str())
        invariant
            list@ == before,
            model == texts(before),
            position <= list@.len(),
            forall|k: int| 0 <= k < position ==> text_below(#[trigger] model[k], item@),
        decreases list@.len() - position,
    {
        position += 1;
    }
    proof {
        assert forall|k: int| 0 <= k < model.len() implies #[trigger] model[k] == before[k]@ by {}
    }
    if position < list.len() && !is_text_below(item.as_str(), list[position].as_str()) {
        proof {
            lemma_bytes_total(encode_utf8(model[position as int]), encode_utf8(item@));
            lemma_encoding_injective(model[position as int], item@);
            assert(model[position as int] == item@);
            assert(model.to_set().insert(item@) =~= model.to_set());
        }
        return;
    }
    let ghost text = item@;
    list.insert(position, item);
    proof {
        let after = texts(list@);
        assert(after =~= model.insert(position as int, text));
        assert forall|i: int, j: int| 0 <= i < j < after.len() implies text_below(
            #[trigger] after[i],
            #[trigger] after[j],
        ) by {
            if i < position && j == position {
                assert(after[i] == model[i]);
            } else if i < position && j > position {
                assert(after[i] == model[i] && after[j] == model[j - 1]);
            } else if j < position {
                assert(after[i] == model[i] && after[j] == model[j]);
            } else if i == position {
                assert(after[j] == model[j - 1]);
                assert(text_below(text, model[position as int]));
                if j - 1 > position {
                    assert(text_below(model[position as int], model[j - 1]));
                    lemma_bytes_transitive(
                        encode_utf8(text),
                        encode_utf8(model[position as int]),
                        encode_utf8(model[j - 1]),
                    );
                }
            } else {
                assert(after[i] == model[i - 1] && after[j] == model[j - 1]);
            }
        }
        assert forall|value: Seq<char>| after.to_set().contains(value) == model.to_set().insert(
            text,
        ).contains(value) by {
            if after.contains(value) {
                let k = choose|k: int| 0 <= k < after.len() && after[k] == value;
                if k < position {
                    assert(model[k] == value);
                } else if k > position {
                    assert(model[k - 1] == value);
                }
            }
            if model.contains(value) {
                let k = choose|k: int| 0 <= k < model.len() && model[k] == value;
                if k < position {
                    assert(after[k] == value);
                } else {
                    assert(after[k + 1] == value);
                }
            }
            assert(after[position as int] == text);
        }
        assert(after.to_set() =~= model.to_set().insert(text));
    }
}

/// A set of texts has only one strictly ordered listing.
pub proof fn strict_order_is_unique(left: Seq<Seq<char>>, right: Seq<Seq<char>>)
    requires
        strictly_ordered(left),
        strictly_ordered(right),
        left.to_set() == right.to_set(),
    ensures
        left == right,
    decreases left.len(),
{
    if left.len() == 0 {
        if right.len() > 0 {
            assert(right.to_set().contains(right[0]));
            assert(left.contains(right[0]));
        }
        assert(left =~= right);
    } else if right.len() == 0 {
        assert(left.to_set().contains(left[0]));
        assert(right.contains(left[0]));
    } else {
        let a = left.last();
        let b = right.last();
        assert(left.to_set().contains(a) && right.to_set().contains(b));
        assert(right.contains(a) && left.contains(b)) by {
            assert(left[left.len() - 1] == a && right[right.len() - 1] == b);
        }
        let i = choose|i: int| 0 <= i < right.len() && right[i] == a;
        let j = choose|j: int| 0 <= j < left.len() && left[j] == b;
        if a != b {
            assert(text_below(right[i], right[right.len() - 1]));
            assert(text_below(left[j], left[left.len() - 1]));
            lemma_bytes_transitive(encode_utf8(a), encode_utf8(b), encode_utf8(a));
            lemma_bytes_irreflexive(encode_utf8(a));
        }
        let x = left.drop_last();
        let y = right.drop_last();
        assert forall|value: Seq<char>| x.to_set().contains(value) == y.to_set().contains(
            value,
        ) by {
            lemma_drop_last_contains(left, right, value);
            lemma_drop_last_contains(right, left, value);
        }
        assert(x.to_set() =~= y.to_set());
        strict_order_is_unique(x, y);
        assert(left =~= x.push(a));
        assert(right =~= y.push(b));
    }
}

proof fn lemma_drop_last_contains(left: Seq<Seq<char>>, right: Seq<Seq<char>>, value: Seq<char>)
    requires
        strictly_ordered(left),
        left.len() > 0,
        right.len() > 0,
        left.to_set() == right.to_set(),
        left.last() == right.last(),
    ensures
        left.drop_last().contains(value) ==> right.drop_last().contains(value),
{
    if left.drop_last().contains(value) {
        let k = choose|k: int| 0 <= k < left.drop_last().len() && left.drop_last()[k] == value;
        assert(left[k] == value);
        assert(text_below(left[k], left[left.len() - 1]));
        lemma_bytes_irreflexive(encode_utf8(value));
        assert(left.to_set().contains(value));
        assert(right.contains(value));
        let m = choose|m: int| 0 <= m < right.len() && right[m] == value;
        assert(m != right.len() - 1);
        assert(right.drop_last()[m] == value);
    }
}

/// A byte string is below another exactly where, after what they have in
/// common, it ends first or goes on with the smaller byte.
pub proof fn order_is_decided_at_the_first_difference(a: Seq<u8>, b: Seq<u8>, n: int)
    requires
        0 <= n <= a.len(),
        n <= b.len(),
        forall|k: int| 0 <= k < n ==> a[k] == b[k],
    ensures
        n == a.len() ==> (bytes_below(a, b) <==> n < b.len()),
        n == b.len() ==> !bytes_below(a, b),
        n < a.len() && n < b.len() && a[n] != b[n] ==> (bytes_below(a, b) <==> a[n] < b[n]),
{
    lemma_common_prefix(a, b, n);
}

} // verus!
