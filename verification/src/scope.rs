//! Stable persistence identity of a scope.

use crate::digest::{
    big_endian_bytes, hex_text, lemma_big_endian_width, lemma_u64_bytes_injective, push_text,
    push_u64, sha256_digest, sha256_hex,
};
use crate::principal::{AiScope, ScopeModel};
use crate::text::{byte_len, lemma_encoding_injective, text_len};
use vstd::prelude::*;
use vstd::utf8::encode_utf8;

verus! {

/// One component of the hashed message: a presence byte, and for a present
/// value its length in eight bytes followed by its UTF-8 bytes.
pub open spec fn scope_component(value: Option<Seq<char>>) -> Seq<u8> {
    match value {
        Some(text) => seq![1u8] + big_endian_bytes(byte_len(text), 8) + encode_utf8(text),
        None => seq![0u8],
    }
}

/// The message whose digest identifies a scope.
pub open spec fn scope_message(scope: ScopeModel) -> Seq<u8> {
    encode_utf8("graphql-orm-ai/scope/v1\0"@) + scope_component(Some(scope.kind))
        + scope_component(Some(scope.id)) + scope_component(scope.tenant_id)
}

/// The identity of a scope: the digest of its message in hexadecimal.
pub open spec fn scope_key_text(scope: ScopeModel) -> Seq<char> {
    hex_text(sha256_digest(scope_message(scope)))
}

fn push_component(message: &mut Vec<u8>, text: &str)
    ensures
        final(message)@ == old(message)@ + scope_component(Some(text@)),
{
    let ghost before = message@;
    message.push(1);
    let length: usize = text_len(text);
    push_u64(message, length as u64);
    push_text(message, text);
    proof {
        assert(message@ =~= before + scope_component(Some(text@)));
    }
}

/// Returns the stable non-secret persistence identity for an AI scope.
///
/// This value supports dependency-owned migration diagnostics and exact
/// configuration matching. It proves neither scope validity nor caller
/// authorization and must never be used in place of host access policy.
pub fn ai_scope_key(scope: &AiScope) -> (key: String)
    ensures
        key@ == scope_key_text(scope@),
        key@.len() == 64,
{
    let mut message: Vec<u8> = Vec::new();
    push_text(&mut message, "graphql-orm-ai/scope/v1\0");
    push_component(&mut message, scope.kind.as_str());
    push_component(&mut message, scope.id.as_str());
    match &scope.tenant_id {
        Some(tenant) => {
            push_component(&mut message, tenant.as_str());
        },
        None => {
            message.push(0);
        },
    }
    proof {
        assert(message@ =~= scope_message(scope@));
    }
    sha256_hex(message.as_slice())
}

/// Two component encodings that start equal byte strings encode the same
/// value, and what follows them is equal too.
proof fn lemma_component_prefix(
    left: Option<Seq<char>>,
    right: Option<Seq<char>>,
    left_rest: Seq<u8>,
    right_rest: Seq<u8>,
)
    requires
        scope_component(left) + left_rest == scope_component(right) + right_rest,
        left matches Some(text) ==> byte_len(text) <= u64::MAX,
        right matches Some(text) ==> byte_len(text) <= u64::MAX,
    ensures
        left == right,
        left_rest == right_rest,
{
    let a = scope_component(left) + left_rest;
    let b = scope_component(right) + right_rest;
    assert(a[0] == b[0]);
    match (left, right) {
        (Some(x), Some(y)) => {
            lemma_big_endian_width(byte_len(x), 8);
            lemma_big_endian_width(byte_len(y), 8);
            assert(a.subrange(1, 9) =~= big_endian_bytes(byte_len(x), 8));
            assert(b.subrange(1, 9) =~= big_endian_bytes(byte_len(y), 8));
            lemma_u64_bytes_injective(byte_len(x), byte_len(y));
            let end = 9 + byte_len(x) as int;
            assert(a.subrange(9, end) =~= encode_utf8(x));
            assert(b.subrange(9, end) =~= encode_utf8(y));
            lemma_encoding_injective(x, y);
            assert(a.subrange(end, a.len() as int) =~= left_rest);
            assert(b.subrange(end, b.len() as int) =~= right_rest);
        },
        (None, None) => {
            assert(a.subrange(1, a.len() as int) =~= left_rest);
            assert(b.subrange(1, b.len() as int) =~= right_rest);
        },
        _ => {},
    }
}

/// The hashed message determines the scope: no two different scopes whose
/// components fit a 64-bit length are hashed from the same bytes.
pub proof fn scope_message_injective(left: ScopeModel, right: ScopeModel)
    requires
        byte_len(left.kind) <= u64::MAX,
        byte_len(left.id) <= u64::MAX,
        left.tenant_id matches Some(tenant) ==> byte_len(tenant) <= u64::MAX,
        byte_len(right.kind) <= u64::MAX,
        byte_len(right.id) <= u64::MAX,
        right.tenant_id matches Some(tenant) ==> byte_len(tenant) <= u64::MAX,
        scope_message(left) == scope_message(right),
    ensures
        left == right,
{
    let domain = encode_utf8("graphql-orm-ai/scope/v1\0"@);
    let a = scope_message(left);
    let b = scope_message(right);
    let a_id = scope_component(Some(left.id)) + scope_component(left.tenant_id);
    let b_id = scope_component(Some(right.id)) + scope_component(right.tenant_id);
    let a_kind = scope_component(Some(left.kind)) + a_id;
    let b_kind = scope_component(Some(right.kind)) + b_id;
    assert(a =~= domain + a_kind);
    assert(b =~= domain + b_kind);
    assert(a.subrange(domain.len() as int, a.len() as int) =~= a_kind);
    assert(b.subrange(domain.len() as int, b.len() as int) =~= b_kind);
    lemma_component_prefix(Some(left.kind), Some(right.kind), a_id, b_id);
    lemma_component_prefix(
        Some(left.id),
        Some(right.id),
        scope_component(left.tenant_id),
        scope_component(right.tenant_id),
    );
    let none = Seq::<u8>::empty();
    assert(scope_component(left.tenant_id) + none =~= scope_component(left.tenant_id));
    assert(scope_component(right.tenant_id) + none =~= scope_component(right.tenant_id));
    lemma_component_prefix(left.tenant_id, right.tenant_id, none, none);
}

} // verus!
