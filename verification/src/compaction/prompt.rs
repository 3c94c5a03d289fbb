//! The prompt of a compaction: what it holds, and the JSON text that it is
//! encoded as.

use crate::compaction::chain::{AcceptedChain, ChainModel, latest_row};
use crate::decimal::{integer_text, integer_to_string};
use crate::digest::{Uuid, push_bytes, push_text, uuid_text, uuid_to_string};
use crate::error::{AiError, ErrorModel, refusal};
use crate::json::{canonical_json, canonical_json_bytes, json_string, json_string_text};
use crate::records::AiMessageBlockRecord;
use vstd::prelude::*;
use vstd::utf8::encode_utf8;

verus! {

/// A block with its opened content, as the JSON text that the opened value is
/// encoded as. The text is kept byte for byte, and not encoded again.
pub struct OpenedBlock {
    row: AiMessageBlockRecord,
    content: Vec<u8>,
}

/// Row and content of an [`OpenedBlock`].
pub struct OpenedModel {
    pub row: AiMessageBlockRecord,
    pub content: Seq<u8>,
}

impl View for OpenedBlock {
    type V = OpenedModel;

    closed spec fn view(&self) -> OpenedModel {
        OpenedModel { row: self.row, content: self.content@ }
    }
}

impl OpenedBlock {
    /// Takes the encoded content of a block, where it is a JSON text.
    pub fn open(row: AiMessageBlockRecord, content: Vec<u8>) -> (result: Result<
        OpenedBlock,
        AiError,
    >)
        ensures
            refusal(result) == if canonical_json_bytes(content@) is Some {
                None
            } else {
                Some(ErrorModel::PersistenceFailed)
            },
            result matches Ok(block) ==> block@.row == row && block@.content == content@,
    {
        match canonical_json(content.as_slice()) {
            Some(_) => Ok(OpenedBlock { row, content }),
            None => Err(AiError::PersistenceFailed),
        }
    }

    /// The block's row.
    pub fn row(&self) -> (row: &AiMessageBlockRecord)
        ensures
            *row == self@.row,
    {
        &self.row
    }

    /// Row and content.
    pub fn into_parts(self) -> (parts: (AiMessageBlockRecord, Vec<u8>))
        ensures
            parts.0 == self@.row,
            parts.1@ == self@.content,
    {
        (self.row, self.content)
    }
}

/// One block of a prompt.
#[derive(PartialEq, Eq)]
pub struct PromptBlock {
    pub block_id: Uuid,
    pub kind: String,
    /// JSON text of the content.
    pub content: Vec<u8>,
}

/// Model of a [`PromptBlock`].
pub struct BlockModel {
    pub block_id: Uuid,
    pub kind: Seq<char>,
    pub content: Seq<u8>,
}

impl View for PromptBlock {
    type V = BlockModel;

    open spec fn view(&self) -> BlockModel {
        BlockModel { block_id: self.block_id, kind: self.kind@, content: self.content@ }
    }
}

/// One message of a prompt.
#[derive(PartialEq, Eq)]
pub struct PromptMessage {
    pub message_id: Uuid,
    pub sequence: i64,
    pub role: String,
    pub blocks: Vec<PromptBlock>,
}

/// Model of a [`PromptMessage`].
pub struct MessageModel {
    pub message_id: Uuid,
    pub sequence: i64,
    pub role: Seq<char>,
    pub blocks: Seq<BlockModel>,
}

impl View for PromptMessage {
    type V = MessageModel;

    open spec fn view(&self) -> MessageModel {
        MessageModel {
            message_id: self.message_id,
            sequence: self.sequence,
            role: self.role@,
            blocks: self.blocks@.map_values(|block: PromptBlock| block@),
        }
    }
}

/// The summary that a prompt extends.
#[derive(PartialEq, Eq)]
pub struct PromptParent {
    pub checkpoint_id: Uuid,
    pub through_sequence: i64,
    pub source_hash: String,
    pub summary: String,
}

/// Model of a [`PromptParent`].
pub struct ParentModel {
    pub checkpoint_id: Uuid,
    pub through_sequence: i64,
    pub source_hash: Seq<char>,
    pub summary: Seq<char>,
}

impl View for PromptParent {
    type V = ParentModel;

    open spec fn view(&self) -> ParentModel {
        ParentModel {
            checkpoint_id: self.checkpoint_id,
            through_sequence: self.through_sequence,
            source_hash: self.source_hash@,
            summary: self.summary@,
        }
    }
}

/// Everything that a compaction hands to its model.
#[derive(PartialEq, Eq)]
pub struct CompactionPrompt<'a> {
    pub format_version: u32,
    pub session_id: Uuid,
    pub through_sequence: i64,
    pub parent: Option<PromptParent>,
    pub messages: &'a Vec<PromptMessage>,
}

/// Model of a [`CompactionPrompt`].
pub struct PromptModel {
    pub format_version: u32,
    pub session_id: Uuid,
    pub through_sequence: i64,
    pub parent: Option<ParentModel>,
    pub messages: Seq<MessageModel>,
}

/// Models of prompt messages.
pub open spec fn message_models(messages: Seq<PromptMessage>) -> Seq<MessageModel> {
    messages.map_values(|message: PromptMessage| message@)
}

impl<'a> View for CompactionPrompt<'a> {
    type V = PromptModel;

    open spec fn view(&self) -> PromptModel {
        PromptModel {
            format_version: self.format_version,
            session_id: self.session_id,
            through_sequence: self.through_sequence,
            parent: match self.parent {
                Some(parent) => Some(parent@),
                None => None,
            },
            messages: message_models(self.messages@),
        }
    }
}

/// The latest checkpoint of a chain as a prompt refers to it.
pub open spec fn prompt_parent(chain: ChainModel) -> Option<ParentModel> {
    match latest_row(chain.checkpoints) {
        Some(row) => Some(
            ParentModel {
                checkpoint_id: row.id,
                through_sequence: row.through_sequence,
                source_hash: row.source_hash@,
                summary: chain.opened[0].summary@,
            },
        ),
        None => None,
    }
}

/// The prompt of a compaction through a boundary: the latest checkpoint's
/// summary and the messages behind it.
pub open spec fn prompt_model(
    session_id: Uuid,
    through_sequence: i64,
    chain: ChainModel,
    messages: Seq<PromptMessage>,
) -> PromptModel {
    PromptModel {
        format_version: 1,
        session_id,
        through_sequence,
        parent: prompt_parent(chain),
        messages: message_models(messages),
    }
}

/// Composes the prompt of a compaction through a boundary.
pub fn compaction_prompt<'a>(
    session_id: Uuid,
    through_sequence: i64,
    chain: &AcceptedChain,
    messages: &'a Vec<PromptMessage>,
) -> (prompt: CompactionPrompt<'a>)
    requires
        chain.wf(),
    ensures
        prompt@ == prompt_model(session_id, through_sequence, chain@, messages@),
{
    let parent: Option<PromptParent> = match chain.latest() {
        Some((row, payload)) => Some(
            PromptParent {
                checkpoint_id: row.id,
                through_sequence: row.through_sequence,
                source_hash: row.source_hash.clone(),
                summary: payload.summary.clone(),
            },
        ),
        None => None,
    };
    CompactionPrompt { format_version: 1, session_id, through_sequence, parent, messages }
}

/// Members of a JSON array: the first `count` items, separated by commas.
pub open spec fn listed(items: Seq<Seq<u8>>, count: nat) -> Seq<u8>
    decreases count,
{
    if count == 0 {
        Seq::empty()
    } else if count == 1 {
        items[0]
    } else {
        listed(items, (count - 1) as nat) + encode_utf8(","@) + items[count - 1]
    }
}

/// JSON text of a block, its members in key order.
pub open spec fn block_json(block: BlockModel) -> Seq<u8> {
    encode_utf8("{\"blockId\":\""@) + encode_utf8(uuid_text(block.block_id)) + encode_utf8(
        "\",\"content\":"@,
    ) + block.content + encode_utf8(",\"kind\":"@) + encode_utf8(json_string_text(block.kind))
        + encode_utf8("}"@)
}

/// JSON texts of blocks.
pub open spec fn blocks_json(blocks: Seq<BlockModel>) -> Seq<Seq<u8>> {
    blocks.map_values(|block: BlockModel| block_json(block))
}

/// JSON text of a message, its members in key order.
pub open spec fn message_json(message: MessageModel) -> Seq<u8> {
    encode_utf8("{\"blocks\":["@) + listed(blocks_json(message.blocks), message.blocks.len())
        + encode_utf8("],\"messageId\":\""@) + encode_utf8(uuid_text(message.message_id))
        + encode_utf8("\",\"role\":"@) + encode_utf8(json_string_text(message.role)) + encode_utf8(
        ",\"sequence\":"@,
    ) + encode_utf8(integer_text(message.sequence as int)) + encode_utf8("}"@)
}

/// JSON texts of messages.
pub open spec fn messages_json(messages: Seq<MessageModel>) -> Seq<Seq<u8>> {
    messages.map_values(|message: MessageModel| message_json(message))
}

/// JSON text of the extended checkpoint, its members in key order.
pub open spec fn parent_json(parent: Option<ParentModel>) -> Seq<u8> {
    match parent {
        Some(parent) => encode_utf8("{\"checkpointId\":\""@) + encode_utf8(
            uuid_text(parent.checkpoint_id),
        ) + encode_utf8("\",\"sourceHash\":"@) + encode_utf8(json_string_text(parent.source_hash))
            + encode_utf8(",\"summary\":"@) + encode_utf8(json_string_text(parent.summary))
            + encode_utf8(",\"throughSequence\":"@) + encode_utf8(
            integer_text(parent.through_sequence as int),
        ) + encode_utf8("}"@),
        None => encode_utf8("null"@),
    }
}

/// JSON text of a prompt, its members in key order.
pub open spec fn prompt_json(prompt: PromptModel) -> Seq<u8> {
    encode_utf8("{\"formatVersion\":"@) + encode_utf8(integer_text(prompt.format_version as int))
        + encode_utf8(",\"messages\":["@) + listed(
        messages_json(prompt.messages),
        prompt.messages.len(),
    ) + encode_utf8("],\"parent\":"@) + parent_json(prompt.parent) + encode_utf8(
        ",\"sessionId\":\""@,
    ) + encode_utf8(uuid_text(prompt.session_id)) + encode_utf8("\",\"throughSequence\":"@)
        + encode_utf8(integer_text(prompt.through_sequence as int)) + encode_utf8("}"@)
}

fn push_integer(text: &mut Vec<u8>, value: i64)
    ensures
        final(text)@ == old(text)@ + encode_utf8(integer_text(value as int)),
{
    let digits = integer_to_string(value);
    push_text(text, digits.as_str());
}

fn push_id(text: &mut Vec<u8>, id: Uuid)
    ensures
        final(text)@ == old(text)@ + encode_utf8(uuid_text(id)),
{
    let id_text = uuid_to_string(id);
    push_text(text, id_text.as_str());
}

fn push_string(text: &mut Vec<u8>, value: &str)
    ensures
        final(text)@ == old(text)@ + encode_utf8(json_string_text(value@)),
{
    let encoded = json_string(value);
    push_text(text, encoded.as_str());
}

fn push_block(text: &mut Vec<u8>, block: &PromptBlock)
    ensures
        final(text)@ == old(text)@ + block_json(block@),
{
    push_text(text, "{\"blockId\":\"");
    push_id(text, block.block_id);
    push_text(text, "\",\"content\":");
    push_bytes(text, block.content.as_slice());
    push_text(text, ",\"kind\":");
    push_string(text, block.kind.as_str());
    push_text(text, "}");
    proof {
        assert(text@ =~= old(text)@ + block_json(block@));
    }
}

fn push_blocks(text: &mut Vec<u8>, blocks: &Vec<PromptBlock>)
    ensures
        ({
            let models = blocks@.map_values(|block: PromptBlock| block@);
            final(text)@ == old(text)@ + listed(blocks_json(models), models.len())
        }),
{
    let ghost models = blocks@.map_values(|block: PromptBlock| block@);
    let ghost items = blocks_json(models);
    let ghost before = text@;
    let mut i: usize = 0;
    proof {
        assert(before + listed(items, 0) =~= before);
    }
    while i < blocks.len()
        invariant
            i <= blocks@.len(),
            models == blocks@.map_values(|block: PromptBlock| block@),
            items == blocks_json(models),
            text@ == before + listed(items, i as nat),
        decreases blocks@.len() - i,
    {
        let ghost written = text@;
        if i > 0 {
            push_text(text, ",");
        }
        push_block(text, &blocks[i]);
        proof {
            assert(items[i as int] == block_json(blocks@[i as int]@));
            assert(text@ =~= before + listed(items, (i + 1) as nat));
        }
        i += 1;
    }
}

fn push_message(text: &mut Vec<u8>, message: &PromptMessage)
    ensures
        final(text)@ == old(text)@ + message_json(message@),
{
    push_text(text, "{\"blocks\":[");
    push_blocks(text, &message.blocks);
    push_text(text, "],\"messageId\":\"");
    push_id(text, message.message_id);
    push_text(text, "\",\"role\":");
    push_string(text, message.role.as_str());
    push_text(text, ",\"sequence\":");
    push_integer(text, message.sequence);
    push_text(text, "}");
    proof {
        assert(text@ =~= old(text)@ + message_json(message@));
    }
}

fn push_messages(text: &mut Vec<u8>, messages: &Vec<PromptMessage>)
    ensures
        final(text)@ == old(text)@ + listed(
            messages_json(message_models(messages@)),
            messages@.len(),
        ),
{
    let ghost items = messages_json(message_models(messages@));
    let ghost before = text@;
    let mut i: usize = 0;
    proof {
        assert(before + listed(items, 0) =~= before);
    }
    while i < messages.len()
        invariant
            i <= messages@.len(),
            items == messages_json(message_models(messages@)),
            text@ == before + listed(items, i as nat),
        decreases messages@.len() - i,
    {
        if i > 0 {
            push_text(text, ",");
        }
        push_message(text, &messages[i]);
        proof {
            assert(items[i as int] == message_json(messages@[i as int]@));
            assert(text@ =~= before + listed(items, (i + 1) as nat));
        }
        i += 1;
    }
}

fn push_parent(text: &mut Vec<u8>, parent: &Option<PromptParent>)
    ensures
        final(text)@ == old(text)@ + parent_json(
            match parent {
                Some(parent) => Some(parent@),
                None => None,
            },
        ),
{
    match parent {
        Some(parent) => {
            push_text(text, "{\"checkpointId\":\"");
            push_id(text, parent.checkpoint_id);
            push_text(text, "\",\"sourceHash\":");
            push_string(text, parent.source_hash.as_str());
            push_text(text, ",\"summary\":");
            push_string(text, parent.summary.as_str());
            push_text(text, ",\"throughSequence\":");
            push_integer(text, parent.through_sequence);
            push_text(text, "}");
            proof {
                assert(text@ =~= old(text)@ + parent_json(Some(parent@)));
            }
        },
        None => {
            push_text(text, "null");
        },
    }
}

/// Encodes a prompt: one JSON text without white space, the members of every
/// object in key order.
pub fn prompt_text(prompt: &CompactionPrompt) -> (text: Vec<u8>)
    ensures
        text@ == prompt_json(prompt@),
{
    let mut text: Vec<u8> = Vec::new();
    push_text(&mut text, "{\"formatVersion\":");
    push_integer(&mut text, prompt.format_version as i64);
    push_text(&mut text, ",\"messages\":[");
    push_messages(&mut text, prompt.messages);
    push_text(&mut text, "],\"parent\":");
    push_parent(&mut text, &prompt.parent);
    push_text(&mut text, ",\"sessionId\":\"");
    push_id(&mut text, prompt.session_id);
    push_text(&mut text, "\",\"throughSequence\":");
    push_integer(&mut text, prompt.through_sequence);
    push_text(&mut text, "}");
    proof {
        assert(text@ =~= prompt_json(prompt@));
    }
    text
}

/// Whether the bytes occur in the text.
pub open spec fn holds(text: Seq<u8>, part: Seq<u8>) -> bool {
    exists|before: Seq<u8>, behind: Seq<u8>| text == #[trigger] (before + part + behind)
}

proof fn lemma_held(before: Seq<u8>, part: Seq<u8>, behind: Seq<u8>, text: Seq<u8>)
    requires
        text == before + part + behind,
    ensures
        holds(text, part),
{
    assert(text == before + part + behind);
}

proof fn lemma_held_within(text: Seq<u8>, middle: Seq<u8>, part: Seq<u8>)
    requires
        holds(text, middle),
        holds(middle, part),
    ensures
        holds(text, part),
{
    let (a, b) = choose|before: Seq<u8>, behind: Seq<u8>|
        text == #[trigger] (before + middle + behind);
    let (c, d) = choose|before: Seq<u8>, behind: Seq<u8>|
        middle == #[trigger] (before + part + behind);
    assert(text =~= (a + c) + part + (d + b));
    lemma_held(a + c, part, d + b, text);
}

proof fn lemma_listed(items: Seq<Seq<u8>>, count: nat, i: int)
    requires
        0 <= i < count,
    ensures
        holds(listed(items, count), items[i]),
    decreases count,
{
    let text = listed(items, count);
    let comma = encode_utf8(","@);
    if count == 1 {
        assert(text =~= Seq::<u8>::empty() + items[0] + Seq::<u8>::empty());
        lemma_held(Seq::empty(), items[0], Seq::empty(), text);
    } else {
        let earlier = listed(items, (count - 1) as nat);
        if i == count - 1 {
            assert(text =~= (earlier + comma) + items[i] + Seq::<u8>::empty());
            lemma_held(earlier + comma, items[i], Seq::empty(), text);
        } else {
            lemma_listed(items, (count - 1) as nat, i);
            let behind = comma + items[count - 1];
            assert(text =~= Seq::<u8>::empty() + earlier + behind);
            lemma_held(Seq::empty(), earlier, behind, text);
            lemma_held_within(text, earlier, items[i]);
        }
    }
}

/// A list of items is their texts, in order, with a comma between two.
pub proof fn lists_hold_every_item(items: Seq<Seq<u8>>, count: nat, i: int)
    requires
        0 <= i < count,
    ensures
        holds(listed(items, count), items[i]),
        listed(items, 0) == Seq::<u8>::empty(),
        listed(items, 1) == items[0],
        count > 1 ==> listed(items, count) == listed(items, (count - 1) as nat) + encode_utf8(
            ","@,
        ) + items[count - 1],
{
    lemma_listed(items, count, i);
}

/// A block's text holds its identity, its content byte for byte, and its kind.
pub proof fn block_texts_hold_their_content(block: BlockModel)
    ensures
        holds(
            block_json(block),
            encode_utf8("{\"blockId\":\""@) + encode_utf8(uuid_text(block.block_id)),
        ),
        holds(block_json(block), encode_utf8("\",\"content\":"@) + block.content),
        holds(
            block_json(block),
            encode_utf8(",\"kind\":"@) + encode_utf8(json_string_text(block.kind)),
        ),
{
    let text = block_json(block);
    let id = encode_utf8("{\"blockId\":\""@) + encode_utf8(uuid_text(block.block_id));
    let content = encode_utf8("\",\"content\":"@) + block.content;
    let kind = encode_utf8(",\"kind\":"@) + encode_utf8(json_string_text(block.kind));
    let end = encode_utf8("}"@);
    assert(text =~= Seq::<u8>::empty() + id + (content + kind + end));
    lemma_held(Seq::empty(), id, content + kind + end, text);
    assert(text =~= id + content + (kind + end));
    lemma_held(id, content, kind + end, text);
    assert(text =~= (id + content) + kind + end);
    lemma_held(id + content, kind, end, text);
}

/// A message's text holds every block of it, its identity, its role, and its
/// sequence.
#[verifier::rlimit(40)]
pub proof fn message_texts_hold_every_block(message: MessageModel, i: int)
    ensures
        0 <= i < message.blocks.len() ==> holds(
            message_json(message),
            block_json(message.blocks[i]),
        ),
        holds(
            message_json(message),
            encode_utf8("],\"messageId\":\""@) + encode_utf8(uuid_text(message.message_id)),
        ),
        holds(
            message_json(message),
            encode_utf8("\",\"role\":"@) + encode_utf8(json_string_text(message.role)),
        ),
        holds(
            message_json(message),
            encode_utf8(",\"sequence\":"@) + encode_utf8(integer_text(message.sequence as int)),
        ),
{
    let text = message_json(message);
    let start = encode_utf8("{\"blocks\":["@);
    let items = blocks_json(message.blocks);
    let blocks = listed(items, message.blocks.len());
    let id = encode_utf8("],\"messageId\":\""@) + encode_utf8(uuid_text(message.message_id));
    let role = encode_utf8("\",\"role\":"@) + encode_utf8(json_string_text(message.role));
    let sequence = encode_utf8(",\"sequence\":"@) + encode_utf8(
        integer_text(message.sequence as int),
    );
    let end = encode_utf8("}"@);
    assert(text =~= start + blocks + (id + role + sequence + end));
    lemma_held(start, blocks, id + role + sequence + end, text);
    if 0 <= i < message.blocks.len() {
        lemma_listed(items, message.blocks.len(), i);
        assert(items[i] == block_json(message.blocks[i]));
        lemma_held_within(text, blocks, items[i]);
    }
    assert(text =~= (start + blocks) + id + (role + sequence + end));
    lemma_held(start + blocks, id, role + sequence + end, text);
    assert(text =~= (start + blocks + id) + role + (sequence + end));
    lemma_held(start + blocks + id, role, sequence + end, text);
    assert(text =~= (start + blocks + id + role) + sequence + end);
    lemma_held(start + blocks + id + role, sequence, end, text);
}

/// A prompt's text holds every message of it, the summary that it extends, its
/// session, and its boundary.
#[verifier::rlimit(40)]
pub proof fn prompt_texts_hold_every_message(prompt: PromptModel, i: int)
    ensures
        0 <= i < prompt.messages.len() ==> holds(
            prompt_json(prompt),
            message_json(prompt.messages[i]),
        ),
        prompt.parent matches Some(parent) ==> holds(
            prompt_json(prompt),
            encode_utf8(",\"summary\":"@) + encode_utf8(json_string_text(parent.summary)),
        ),
        prompt.parent matches Some(parent) ==> holds(
            prompt_json(prompt),
            encode_utf8("{\"checkpointId\":\""@) + encode_utf8(uuid_text(parent.checkpoint_id)),
        ),
        prompt.parent matches Some(parent) ==> holds(
            prompt_json(prompt),
            encode_utf8("\",\"sourceHash\":"@) + encode_utf8(
                json_string_text(parent.source_hash),
            ),
        ),
        prompt.parent is None ==> holds(
            prompt_json(prompt),
            encode_utf8("],\"parent\":"@) + encode_utf8("null"@),
        ),
        holds(
            prompt_json(prompt),
            encode_utf8("{\"formatVersion\":"@) + encode_utf8(
                integer_text(prompt.format_version as int),
            ),
        ),
        holds(
            prompt_json(prompt),
            encode_utf8(",\"sessionId\":\""@) + encode_utf8(uuid_text(prompt.session_id)),
        ),
        holds(
            prompt_json(prompt),
            encode_utf8("\",\"throughSequence\":"@) + encode_utf8(
                integer_text(prompt.through_sequence as int),
            ),
        ),
{
    let text = prompt_json(prompt);
    let version = encode_utf8("{\"formatVersion\":"@) + encode_utf8(
        integer_text(prompt.format_version as int),
    );
    let start = encode_utf8(",\"messages\":["@);
    let items = messages_json(prompt.messages);
    let messages = listed(items, prompt.messages.len());
    let named = encode_utf8("],\"parent\":"@);
    let parent = parent_json(prompt.parent);
    let session = encode_utf8(",\"sessionId\":\""@) + encode_utf8(uuid_text(prompt.session_id));
    let through = encode_utf8("\",\"throughSequence\":"@) + encode_utf8(
        integer_text(prompt.through_sequence as int),
    );
    let end = encode_utf8("}"@);
    assert(text =~= version + start + messages + named + parent + session + through + end);
    lemma_pieces(version, start, messages, named, parent, session, through, end);
    if 0 <= i < prompt.messages.len() {
        lemma_listed(items, prompt.messages.len(), i);
        assert(items[i] == message_json(prompt.messages[i]));
        lemma_held_within(text, messages, items[i]);
    }
    if prompt.parent is Some {
        lemma_parent_parts(prompt.parent->0);
        let extended = prompt.parent->0;
        lemma_held_within(
            text,
            parent,
            encode_utf8(",\"summary\":"@) + encode_utf8(json_string_text(extended.summary)),
        );
        lemma_held_within(
            text,
            parent,
            encode_utf8("{\"checkpointId\":\""@) + encode_utf8(
                uuid_text(extended.checkpoint_id),
            ),
        );
        lemma_held_within(
            text,
            parent,
            encode_utf8("\",\"sourceHash\":"@) + encode_utf8(
                json_string_text(extended.source_hash),
            ),
        );
    }
}

#[verifier::rlimit(40)]
proof fn lemma_pieces(
    a: Seq<u8>,
    b: Seq<u8>,
    c: Seq<u8>,
    d: Seq<u8>,
    e: Seq<u8>,
    f: Seq<u8>,
    g: Seq<u8>,
    h: Seq<u8>,
)
    ensures
        ({
            let text = a + b + c + d + e + f + g + h;
            &&& holds(text, a)
            &&& holds(text, c)
            &&& holds(text, d + e)
            &&& holds(text, e)
            &&& holds(text, f)
            &&& holds(text, g)
        }),
{
    let text = a + b + c + d + e + f + g + h;
    assert(text =~= Seq::<u8>::empty() + a + (b + c + d + e + f + g + h));
    lemma_held(Seq::empty(), a, b + c + d + e + f + g + h, text);
    assert(text =~= (a + b) + c + (d + e + f + g + h));
    lemma_held(a + b, c, d + e + f + g + h, text);
    assert(text =~= (a + b + c) + (d + e) + (f + g + h));
    lemma_held(a + b + c, d + e, f + g + h, text);
    assert(text =~= (a + b + c + d) + e + (f + g + h));
    lemma_held(a + b + c + d, e, f + g + h, text);
    assert(text =~= (a + b + c + d + e) + f + (g + h));
    lemma_held(a + b + c + d + e, f, g + h, text);
    assert(text =~= (a + b + c + d + e + f) + g + h);
    lemma_held(a + b + c + d + e + f, g, h, text);
}

proof fn lemma_parent_parts(parent: ParentModel)
    ensures
        holds(
            parent_json(Some(parent)),
            encode_utf8("{\"checkpointId\":\""@) + encode_utf8(uuid_text(parent.checkpoint_id)),
        ),
        holds(
            parent_json(Some(parent)),
            encode_utf8("\",\"sourceHash\":"@) + encode_utf8(
                json_string_text(parent.source_hash),
            ),
        ),
        holds(
            parent_json(Some(parent)),
            encode_utf8(",\"summary\":"@) + encode_utf8(json_string_text(parent.summary)),
        ),
        holds(
            parent_json(Some(parent)),
            encode_utf8(",\"throughSequence\":"@) + encode_utf8(
                integer_text(parent.through_sequence as int),
            ),
        ),
{
    let text = parent_json(Some(parent));
    let id = encode_utf8("{\"checkpointId\":\""@) + encode_utf8(uuid_text(parent.checkpoint_id));
    let hash = encode_utf8("\",\"sourceHash\":"@) + encode_utf8(
        json_string_text(parent.source_hash),
    );
    let summary = encode_utf8(",\"summary\":"@) + encode_utf8(json_string_text(parent.summary));
    let through = encode_utf8(",\"throughSequence\":"@) + encode_utf8(
        integer_text(parent.through_sequence as int),
    );
    let end = encode_utf8("}"@);
    assert(text =~= Seq::<u8>::empty() + id + (hash + summary + through + end));
    lemma_held(Seq::empty(), id, hash + summary + through + end, text);
    assert(text =~= id + hash + (summary + through + end));
    lemma_held(id, hash, summary + through + end, text);
    assert(text =~= (id + hash) + summary + (through + end));
    lemma_held(id + hash, summary, through + end, text);
    assert(text =~= (id + hash + summary) + through + end);
    lemma_held(id + hash + summary, through, end, text);
}

/// A prompt extends the chain's latest checkpoint, by its row and its opened
/// summary, and holds the given messages in order.
pub proof fn prompts_extend_the_latest_checkpoint(
    session_id: Uuid,
    through_sequence: i64,
    chain: ChainModel,
    messages: Seq<PromptMessage>,
    i: int,
)
    ensures
        ({
            let prompt = prompt_model(session_id, through_sequence, chain, messages);
            &&& prompt.format_version == 1
            &&& prompt.session_id == session_id
            &&& prompt.through_sequence == through_sequence
            &&& prompt.parent is Some <==> latest_row(chain.checkpoints) is Some
            &&& prompt.parent matches Some(parent) ==> {
                let row = latest_row(chain.checkpoints)->0;
                &&& parent.checkpoint_id == row.id
                &&& parent.through_sequence == row.through_sequence
                &&& parent.source_hash == row.source_hash@
                &&& parent.summary == chain.opened[0].summary@
            }
            &&& prompt.messages.len() == messages.len()
            &&& 0 <= i < messages.len() ==> {
                &&& prompt.messages[i].message_id == messages[i].message_id
                &&& prompt.messages[i].sequence == messages[i].sequence
                &&& prompt.messages[i].role == messages[i].role@
                &&& prompt.messages[i].blocks.len() == messages[i].blocks@.len()
            }
        }),
{
}

} // verus!
