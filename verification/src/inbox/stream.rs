//! Inbox streams and the append of events to them.

use crate::digest::{
    Uuid, big_endian_value, digest_prefix, push_text, sha256, sha256_digest, uuid_from_bytes,
};
use crate::error::OrmErrorCode;
use crate::principal::{AiScope, ScopeModel};
use crate::scope::{ai_scope_key, scope_key_text};
use crate::text::{
    blank, bounded_text, byte_len, is_blank, is_bounded_text, lemma_between,
    lemma_encoding_injective, same_text, text_len, text_option,
};
use vstd::prelude::*;
use vstd::utf8::encode_utf8;

verus! {

/// Head and retention state of one principal's stream.
#[derive(Debug, PartialEq, Eq)]
pub struct AiInboxStreamRecord {
    pub id: Uuid,
    pub principal_kind: String,
    pub principal_subject: String,
    pub stream_head: i64,
    pub minimum_retained_sequence: i64,
    pub last_event_at: i64,
    pub row_version: i64,
}

/// One persisted inbox event, apart from its protected payload.
#[derive(Debug, PartialEq, Eq)]
pub struct AiInboxEventRecord {
    pub id: Uuid,
    pub principal_kind: String,
    pub principal_subject: String,
    pub scope_key: String,
    pub scope_kind: String,
    pub scope_id: String,
    pub tenant_id: Option<String>,
    pub sequence: i64,
    pub session_id: Option<Uuid>,
    pub event_type: String,
    pub created_at: i64,
}

/// Protected inbox event prepared before an atomic application-state commit.
#[derive(Debug, PartialEq, Eq)]
pub struct PreparedAiInboxEvent {
    pub id: Uuid,
    pub principal_kind: String,
    pub principal_subject: String,
    pub scope: AiScope,
    pub session_id: Uuid,
    pub event_type: String,
    pub created_at: i64,
}

/// Whether head and retention state belong together: every retained sequence
/// lies between the minimum and the head.
pub open spec fn stream_consistent(stream: AiInboxStreamRecord) -> bool {
    &&& stream.stream_head >= 0
    &&& 1 <= stream.minimum_retained_sequence <= stream.stream_head + 1
}

/// Whether head and retention state belong together.
pub fn is_stream_consistent(stream: &AiInboxStreamRecord) -> (result: bool)
    ensures
        result == stream_consistent(*stream),
{
    stream.stream_head >= 0 && stream.minimum_retained_sequence >= 1 && (stream.stream_head
        == i64::MAX || stream.minimum_retained_sequence <= stream.stream_head + 1)
}

/// Whether the stream belongs to this principal and is consistent.
pub open spec fn stream_of(
    stream: AiInboxStreamRecord,
    principal_kind: Seq<char>,
    principal_subject: Seq<char>,
) -> bool {
    &&& stream.principal_kind@ == principal_kind
    &&& stream.principal_subject@ == principal_subject
    &&& stream_consistent(stream)
}

/// Whether the stream belongs to this principal and is consistent.
pub fn is_stream_of(
    stream: &AiInboxStreamRecord,
    principal_kind: &str,
    principal_subject: &str,
) -> (result: bool)
    ensures
        result == stream_of(*stream, principal_kind@, principal_subject@),
{
    same_text(stream.principal_kind.as_str(), principal_kind) && same_text(
        stream.principal_subject.as_str(),
        principal_subject,
    ) && is_stream_consistent(stream)
}

/// Accepts exactly the consistent streams of a named principal.
pub fn validate_stream(stream: &AiInboxStreamRecord) -> (result: Result<(), OrmErrorCode>)
    ensures
        result == if !blank(stream.principal_kind@) && !blank(stream.principal_subject@)
            && stream_consistent(*stream) {
            Ok::<(), OrmErrorCode>(())
        } else {
            Err(OrmErrorCode::InternalError)
        },
{
    if !is_blank(stream.principal_kind.as_str()) && !is_blank(stream.principal_subject.as_str())
        && is_stream_consistent(stream) {
        Ok(())
    } else {
        Err(OrmErrorCode::InternalError)
    }
}

/// Lowercase ASCII letters, digits, and the underscore.
pub open spec fn event_type_char(c: char) -> bool {
    'a' <= c <= 'z' || '0' <= c <= '9' || c == '_'
}

/// Event types: one to 128 bytes of lowercase letters, digits, and
/// underscores.
pub open spec fn event_type_text(value: Seq<char>) -> bool {
    &&& 0 < value.len()
    &&& byte_len(value) <= 128
    &&& forall|i: int| 0 <= i < value.len() ==> event_type_char(#[trigger] value[i])
}

/// Whether the text is an event type.
pub fn valid_event_type(value: &str) -> (result: bool)
    ensures
        result == event_type_text(value@),
{
    if value.is_empty() || text_len(value) > 128 {
        return false;
    }
    for c in iter: value.chars()
        invariant
            iter.seq() == value@,
            forall|i: int| 0 <= i < iter.index() ==> event_type_char(#[trigger] value@[i]),
    {
        if !(('a' <= c && c <= 'z') || ('0' <= c && c <= '9') || c == '_') {
            return false;
        }
    }
    true
}

/// The message whose digest identifies a principal's stream.
pub open spec fn stream_message(principal_kind: Seq<char>, principal_subject: Seq<char>) -> Seq<u8> {
    encode_utf8("graphql-orm-ai/inbox-stream/v1\0"@) + encode_utf8(principal_kind) + encode_utf8(
        "\0"@,
    ) + encode_utf8(principal_subject)
}

/// Identifier bytes with the version and variant bits of a hashed identifier.
pub open spec fn versioned(bytes: Seq<u8>) -> Seq<u8> {
    bytes.update(6, (bytes[6] & 0x0f) | 0x80).update(8, (bytes[8] & 0x3f) | 0x80)
}

/// The identity of a principal's stream.
pub open spec fn stream_id_value(principal_kind: Seq<char>, principal_subject: Seq<char>) -> nat {
    let digest = sha256_digest(stream_message(principal_kind, principal_subject));
    big_endian_value(versioned(digest.subrange(0, 16)))
}

/// The identity of a principal's stream.
pub fn inbox_stream_id(principal_kind: &str, principal_subject: &str) -> (id: Uuid)
    ensures
        id == stream_id_value(principal_kind@, principal_subject@),
{
    let mut message: Vec<u8> = Vec::new();
    push_text(&mut message, "graphql-orm-ai/inbox-stream/v1\0");
    push_text(&mut message, principal_kind);
    push_text(&mut message, "\0");
    push_text(&mut message, principal_subject);
    proof {
        assert(message@ =~= stream_message(principal_kind@, principal_subject@));
    }
    let digest = sha256(message.as_slice());
    let mut bytes = digest_prefix(&digest);
    let ghost plain = bytes@;
    bytes[6] = (bytes[6] & 0x0f) | 0x80;
    bytes[8] = (bytes[8] & 0x3f) | 0x80;
    proof {
        assert(bytes@ =~= versioned(plain));
    }
    uuid_from_bytes(bytes)
}

/// Events with a valid type for a named principal.
pub open spec fn appendable(event: PreparedAiInboxEvent) -> bool {
    &&& event_type_text(event.event_type@)
    &&& bounded_text(event.principal_kind@, 128)
    &&& bounded_text(event.principal_subject@, 512)
}

/// Tells the subscribers of a principal that its stream grew.
#[derive(Debug, PartialEq, Eq)]
pub struct AiInboxWakeup {
    pub principal_kind: String,
    pub principal_subject: String,
    /// Sequence of the appended event.
    pub sequence: i64,
}

impl Clone for AiInboxWakeup {
    fn clone(&self) -> (result: AiInboxWakeup)
        ensures
            result == *self,
    {
        AiInboxWakeup {
            principal_kind: self.principal_kind.clone(),
            principal_subject: self.principal_subject.clone(),
            sequence: self.sequence,
        }
    }
}

/// Every write of one append, and the wakeup that is queued with them.
#[derive(Debug, PartialEq, Eq)]
pub struct InboxAppend {
    pub stream_id: Uuid,
    /// The stream to insert first, where the principal has none.
    pub new_stream: Option<NewInboxStream>,
    /// Row version that fences the head of an existing stream. The head of a
    /// new one is fenced by the version that its insertion returns.
    pub expected_row_version: Option<i64>,
    /// Head of the stream after the append, and sequence of the event.
    pub sequence: i64,
    pub last_event_at: i64,
    pub event: AiInboxEventRecord,
    pub wakeup: AiInboxWakeup,
}

/// An empty stream.
#[derive(Debug, PartialEq, Eq)]
pub struct NewInboxStream {
    pub id: Uuid,
    pub principal_kind: String,
    pub principal_subject: String,
    pub stream_head: i64,
    pub minimum_retained_sequence: i64,
    pub last_event_at: i64,
}

/// Head of the stream before an append.
pub open spec fn head_before(stream: Option<AiInboxStreamRecord>) -> int {
    match stream {
        Some(stream) => stream.stream_head as int,
        None => 0,
    }
}

/// Why an append fails.
pub open spec fn append_fault(
    stream: Option<AiInboxStreamRecord>,
    event: PreparedAiInboxEvent,
) -> Option<OrmErrorCode> {
    if !appendable(event) {
        Some(OrmErrorCode::InvalidInput)
    } else if stream is Some && !stream_of(
        stream->0,
        event.principal_kind@,
        event.principal_subject@,
    ) {
        Some(OrmErrorCode::InternalError)
    } else if head_before(stream) == i64::MAX {
        Some(OrmErrorCode::InternalError)
    } else {
        None
    }
}

/// Values of [`PreparedAiInboxEvent`].
pub struct InboxEventModel {
    pub id: Uuid,
    pub principal_kind: Seq<char>,
    pub principal_subject: Seq<char>,
    pub scope: ScopeModel,
    pub session_id: Uuid,
    pub event_type: Seq<char>,
    pub created_at: i64,
}

impl View for PreparedAiInboxEvent {
    type V = InboxEventModel;

    open spec fn view(&self) -> InboxEventModel {
        InboxEventModel {
            id: self.id,
            principal_kind: self.principal_kind@,
            principal_subject: self.principal_subject@,
            scope: self.scope@,
            session_id: self.session_id,
            event_type: self.event_type@,
            created_at: self.created_at,
        }
    }
}

/// Whether the append gives this event the sequence right after the stream's
/// head, under the fence of the stream's row, creates the stream where there is
/// none, and queues exactly one wakeup for it.
pub open spec fn append_planned(
    append: InboxAppend,
    stream: Option<AiInboxStreamRecord>,
    event: InboxEventModel,
) -> bool {
    &&& append.sequence == head_before(stream) + 1
    &&& append.last_event_at == event.created_at
    &&& append.stream_id == match stream {
        Some(row) => row.id as nat,
        None => stream_id_value(event.principal_kind, event.principal_subject),
    }
    &&& append.expected_row_version == match stream {
        Some(row) => Some(row.row_version),
        None => None,
    }
    &&& append.new_stream is Some <==> stream is None
    &&& append.new_stream matches Some(created) ==> {
        &&& created.id == append.stream_id
        &&& created.principal_kind@ == event.principal_kind
        &&& created.principal_subject@ == event.principal_subject
        &&& created.stream_head == 0
        &&& created.minimum_retained_sequence == 1
        &&& created.last_event_at == event.created_at
    }
    &&& append.event.id == event.id
    &&& append.event.principal_kind@ == event.principal_kind
    &&& append.event.principal_subject@ == event.principal_subject
    &&& append.event.scope_key@ == scope_key_text(event.scope)
    &&& append.event.scope_kind@ == event.scope.kind
    &&& append.event.scope_id@ == event.scope.id
    &&& text_option(append.event.tenant_id) == event.scope.tenant_id
    &&& append.event.sequence == append.sequence
    &&& append.event.session_id == Some(event.session_id)
    &&& append.event.event_type@ == event.event_type
    &&& append.event.created_at == event.created_at
    &&& append.wakeup.principal_kind@ == event.principal_kind
    &&& append.wakeup.principal_subject@ == event.principal_subject
    &&& append.wakeup.sequence == append.sequence
}

/// Plans the append of one event to the principal's stream.
///
/// `stream` is the row with the identity of the principal's stream. The head
/// update is fenced by that row's version and by its principal.
pub fn append_inbox_event(
    stream: &Option<AiInboxStreamRecord>,
    event: &PreparedAiInboxEvent,
) -> (result: Result<InboxAppend, OrmErrorCode>)
    ensures
        match result {
            Err(code) => append_fault(*stream, *event) == Some(code),
            Ok(append) => append_fault(*stream, *event) is None && append_planned(
                append,
                *stream,
                event@,
            ),
        },
{
    if !valid_event_type(event.event_type.as_str()) || !is_bounded_text(
        event.principal_kind.as_str(),
        128,
    ) || !is_bounded_text(event.principal_subject.as_str(), 512) {
        return Err(OrmErrorCode::InvalidInput);
    }
    let (stream_id, new_stream, head): (Uuid, Option<NewInboxStream>, i64) = match stream {
        Some(row) => {
            if !is_stream_of(row, event.principal_kind.as_str(), event.principal_subject.as_str()) {
                return Err(OrmErrorCode::InternalError);
            }
            (row.id, None, row.stream_head)
        },
        None => {
            let id = inbox_stream_id(
                event.principal_kind.as_str(),
                event.principal_subject.as_str(),
            );
            (
                id,
                Some(
                    NewInboxStream {
                        id,
                        principal_kind: event.principal_kind.clone(),
                        principal_subject: event.principal_subject.clone(),
                        stream_head: 0,
                        minimum_retained_sequence: 1,
                        last_event_at: event.created_at,
                    },
                ),
                0,
            )
        },
    };
    let sequence: i64 = match head.checked_add(1) {
        Some(sequence) => sequence,
        None => return Err(OrmErrorCode::InternalError),
    };
    let expected_row_version: Option<i64> = match stream {
        Some(row) => Some(row.row_version),
        None => None,
    };
    let scope = event.scope.clone();
    Ok(
        InboxAppend {
            stream_id,
            new_stream,
            expected_row_version,
            sequence,
            last_event_at: event.created_at,
            event: AiInboxEventRecord {
                id: event.id,
                principal_kind: event.principal_kind.clone(),
                principal_subject: event.principal_subject.clone(),
                scope_key: ai_scope_key(&event.scope),
                scope_kind: scope.kind,
                scope_id: scope.id,
                tenant_id: scope.tenant_id,
                sequence,
                session_id: Some(event.session_id),
                event_type: event.event_type.clone(),
                created_at: event.created_at,
            },
            wakeup: AiInboxWakeup {
                principal_kind: event.principal_kind.clone(),
                principal_subject: event.principal_subject.clone(),
                sequence,
            },
        },
    )
}

/// The stream that an append leaves behind.
pub open spec fn appended_stream(
    stream: AiInboxStreamRecord,
    append: InboxAppend,
    row_version: i64,
) -> AiInboxStreamRecord {
    AiInboxStreamRecord {
        stream_head: append.sequence,
        last_event_at: append.last_event_at,
        row_version,
        ..stream
    }
}

/// Appending keeps a stream consistent and gives the event the sequence right
/// after the previous head, so no sequence is used twice or left out.
pub proof fn append_extends_stream(
    stream: AiInboxStreamRecord,
    append: InboxAppend,
    row_version: i64,
)
    requires
        stream_consistent(stream),
        append.sequence == head_before(Some(stream)) + 1,
    ensures
        ({
            let after = appended_stream(stream, append, row_version);
            &&& stream_consistent(after)
            &&& after.stream_head == stream.stream_head + 1
            &&& after.minimum_retained_sequence == stream.minimum_retained_sequence
        }),
{
}

/// A stream is usable exactly where it is of this principal, its head is not
/// negative, and what it retains begins after nothing and ends at its head.
pub proof fn streams_belong_to_their_principal(
    stream: AiInboxStreamRecord,
    principal_kind: Seq<char>,
    principal_subject: Seq<char>,
)
    ensures
        stream_of(stream, principal_kind, principal_subject) <==> {
            &&& stream.principal_kind@ == principal_kind
            &&& stream.principal_subject@ == principal_subject
            &&& stream.stream_head >= 0
            &&& stream.minimum_retained_sequence >= 1
            &&& stream.minimum_retained_sequence - 1 <= stream.stream_head
        },
        stream_consistent(stream) <==> 0 <= stream.stream_head && 0
            < stream.minimum_retained_sequence <= stream.stream_head + 1,
{
}

/// An event type is exactly one to 128 bytes of lowercase letters, digits, and
/// underscores.
pub proof fn event_types_are_plain_names(value: Seq<char>)
    ensures
        event_type_text(value) <==> {
            &&& value.len() >= 1
            &&& byte_len(value) <= 128
            &&& forall|i: int|
                0 <= i < value.len() ==> ('a' <= #[trigger] value[i] <= 'z' || '0' <= value[i]
                    <= '9' || value[i] == '_')
        },
{
}

/// Principals that differ in kind or in subject have streams of different
/// messages.
pub proof fn streams_are_named_by_their_principal(
    kind: Seq<char>,
    other_kind: Seq<char>,
    subject: Seq<char>,
    other_subject: Seq<char>,
)
    ensures
        stream_message(kind, subject) == stream_message(kind, other_subject) ==> subject
            == other_subject,
        stream_message(kind, subject) == stream_message(other_kind, subject) ==> kind == other_kind,
{
    let head = encode_utf8("graphql-orm-ai/inbox-stream/v1\0"@);
    let zero = encode_utf8("\0"@);
    let (k, j) = (encode_utf8(kind), encode_utf8(other_kind));
    let (s, t) = (encode_utf8(subject), encode_utf8(other_subject));
    if stream_message(kind, subject) == stream_message(kind, other_subject) {
        let before = head + k + zero;
        assert(stream_message(kind, subject) =~= before + s + Seq::<u8>::empty());
        assert(stream_message(kind, other_subject) =~= before + t + Seq::<u8>::empty());
        lemma_between(before, s, t, Seq::empty());
    }
    if stream_message(kind, subject) == stream_message(other_kind, subject) {
        let behind = zero + s;
        assert(stream_message(kind, subject) =~= head + k + behind);
        assert(stream_message(other_kind, subject) =~= head + j + behind);
        lemma_between(head, k, j, behind);
    }
    lemma_encoding_injective(kind, other_kind);
    lemma_encoding_injective(subject, other_subject);
}

/// A hashed identifier is of version eight and of the standard variant, and
/// keeps every other bit.
pub proof fn hashed_identifiers_say_their_version(bytes: Seq<u8>, i: int)
    requires
        bytes.len() == 16,
        0 <= i < 16,
    ensures
        versioned(bytes).len() == 16,
        versioned(bytes)[6] / 16 == 8 && versioned(bytes)[6] % 16 == bytes[6] % 16,
        versioned(bytes)[8] / 64 == 2 && versioned(bytes)[8] % 64 == bytes[8] % 64,
        i != 6 && i != 8 ==> versioned(bytes)[i] == bytes[i],
{
    let (b, c) = (bytes[6], bytes[8]);
    assert(((b & 0x0fu8) | 0x80u8) / 16 == 8 && ((b & 0x0fu8) | 0x80u8) % 16 == b % 16)
        by (bit_vector);
    assert(((c & 0x3fu8) | 0x80u8) / 64 == 2 && ((c & 0x3fu8) | 0x80u8) % 64 == c % 64)
        by (bit_vector);
}

/// An event is appended exactly where it has a valid type and a named
/// principal, and the principal's stream, where there is one, is usable and
/// can grow.
pub proof fn events_are_appended_to_their_own_stream(
    stream: Option<AiInboxStreamRecord>,
    event: PreparedAiInboxEvent,
)
    ensures
        append_fault(stream, event) is None <==> {
            &&& event_type_text(event.event_type@)
            &&& bounded_text(event.principal_kind@, 128)
            &&& bounded_text(event.principal_subject@, 512)
            &&& stream is Some ==> {
                &&& stream->0.principal_kind@ == event.principal_kind@
                &&& stream->0.principal_subject@ == event.principal_subject@
                &&& stream_consistent(stream->0)
                &&& stream->0.stream_head < i64::MAX
            }
        },
{
}

/// An appended event is the prepared one, column by column, at the sequence
/// right after the stream's head; whoever is told of it is its own principal.
pub proof fn appended_events_keep_their_columns(
    append: InboxAppend,
    stream: Option<AiInboxStreamRecord>,
    event: PreparedAiInboxEvent,
)
    requires
        append_planned(append, stream, event@),
    ensures
        append.event.id == event.id,
        append.event.principal_kind@ == event.principal_kind@,
        append.event.principal_subject@ == event.principal_subject@,
        append.event.scope_key@ == scope_key_text(event.scope@),
        append.event.scope_kind@ == event.scope.kind@,
        append.event.scope_id@ == event.scope.id@,
        text_option(append.event.tenant_id) == text_option(event.scope.tenant_id),
        append.event.session_id is Some && append.event.session_id->0 == event.session_id,
        append.event.event_type@ == event.event_type@,
        append.event.created_at == event.created_at,
        append.last_event_at == event.created_at,
        append.wakeup.principal_kind@ == event.principal_kind@,
        append.wakeup.principal_subject@ == event.principal_subject@,
        stream is None ==> {
            &&& append.event.sequence == 1 && append.wakeup.sequence == 1 && append.sequence == 1
            &&& append.expected_row_version is None
            &&& append.stream_id == stream_id_value(event.principal_kind@, event.principal_subject@)
            &&& append.new_stream is Some
            &&& append.new_stream->0.id == append.stream_id
            &&& append.new_stream->0.principal_kind@ == event.principal_kind@
            &&& append.new_stream->0.principal_subject@ == event.principal_subject@
            &&& append.new_stream->0.stream_head == 0
            &&& append.new_stream->0.minimum_retained_sequence == 1
        },
        stream is Some ==> {
            &&& append.sequence == stream->0.stream_head + 1
            &&& append.event.sequence == append.sequence && append.wakeup.sequence
                == append.sequence
            &&& append.stream_id == stream->0.id
            &&& append.expected_row_version is Some && append.expected_row_version->0
                == stream->0.row_version
            &&& append.new_stream is None
        },
{
}

/// An event that cannot be appended is invalid input; a stream of another
/// principal, or one that is full, is a fault of the store.
pub proof fn refused_appends_say_why(
    stream: Option<AiInboxStreamRecord>,
    event: PreparedAiInboxEvent,
)
    ensures
        append_fault(stream, event) == Some(OrmErrorCode::InvalidInput) <==> !appendable(event),
        appendable(event) && append_fault(stream, event) is Some ==> append_fault(stream, event)
            == Some(OrmErrorCode::InternalError),
        appendable(event) && stream is Some && stream->0.stream_head == i64::MAX ==> append_fault(
            stream,
            event,
        ) is Some,
        appendable(event) && stream is None ==> append_fault(stream, event) is None,
{
}

} // verus!
