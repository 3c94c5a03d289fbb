//! Windows of an inbox stream.

use crate::authority::{
    AuthorityCheck, AuthorityModel, ContentAuthority, ContentProtectionContext, ContextModel,
};
use crate::digest::{Uuid, uuid_text};
use crate::error::{AiError, ErrorModel, OrmErrorCode, accepted_or, invalid_input, outcome, refusal};
use crate::inbox::stream::{AiInboxEventRecord, AiInboxStreamRecord, is_stream_of, stream_of};
use crate::principal::session_scope_model;
use crate::records::AiSessionRecord;
use crate::text::same_text;
use vstd::prelude::*;

verus! {

/// One opened inbox event.
#[derive(Debug, PartialEq, Eq)]
pub struct AiInboxEventView {
    pub id: Uuid,
    pub sequence: i64,
    pub session_id: Uuid,
    pub event_type: String,
    /// Opened payload, as encoded by its protector.
    pub payload: Vec<u8>,
    pub created_at: i64,
}

/// One window of a stream.
#[derive(Debug, PartialEq, Eq)]
pub struct AiInboxEventPage {
    pub events: Vec<AiInboxEventView>,
    pub watermark: i64,
    pub has_more: bool,
    pub reset_required: bool,
}

/// Whether the window holds at most `first` events, all after `after_sequence`
/// and none past its watermark; it is full where the stream continues, and
/// empty where it demands a reset.
pub open spec fn page_fits(page: AiInboxEventPage, after_sequence: i64, first: i64) -> bool {
    &&& page.events@.len() <= first
    &&& forall|i: int|
        0 <= i < page.events@.len() ==> after_sequence < (#[trigger] page.events@[i]).sequence
            <= page.watermark
    &&& page.has_more ==> page.events@.len() == first
    &&& page.reset_required ==> page.events@.len() == 0 && !page.has_more
}

/// Windows start at a non-negative 32-bit sequence and hold 1 to 500 events.
pub open spec fn window_valid(after_sequence: i64, first: i64) -> bool {
    0 <= after_sequence <= i32::MAX && 1 <= first <= 500
}

/// Accepts exactly the valid windows.
pub fn check_window(after_sequence: i64, first: i64) -> (result: Result<(), AiError>)
    ensures
        outcome(result) == accepted_or(
            window_valid(after_sequence, first),
            ErrorModel::InvalidInput("invalid inbox event window"@),
        ),
{
    if after_sequence < 0 || after_sequence > i32::MAX as i64 || first < 1 || first > 500 {
        return Err(invalid_input("invalid inbox event window"));
    }
    Ok(())
}

/// The events to read for a window.
#[derive(Debug, PartialEq, Eq)]
pub struct PageQuery {
    stream: AiInboxStreamRecord,
    after_sequence: i64,
    first: i64,
}

/// Values of [`PageQuery`].
pub struct QueryModel {
    pub stream: AiInboxStreamRecord,
    pub after_sequence: i64,
    pub first: i64,
}

impl View for PageQuery {
    type V = QueryModel;

    closed spec fn view(&self) -> QueryModel {
        QueryModel {
            stream: self.stream,
            after_sequence: self.after_sequence,
            first: self.first,
        }
    }
}

impl PageQuery {
    /// Queries of a valid window that starts within what is retained.
    pub open spec fn wf(self) -> bool {
        &&& window_valid(self@.after_sequence, self@.first)
        &&& self@.stream.stream_head <= i32::MAX
        &&& self@.after_sequence + 1 >= self@.stream.minimum_retained_sequence
    }

    /// The window holds events above this sequence.
    pub fn after_sequence(&self) -> (sequence: i64)
        ensures
            sequence == self@.after_sequence,
    {
        self.after_sequence
    }

    /// The window holds events up to this sequence.
    pub fn watermark(&self) -> (sequence: i64)
        ensures
            sequence == self@.stream.stream_head,
    {
        self.stream.stream_head
    }

    /// How many events are read: one more than requested, to see whether the
    /// stream continues.
    pub fn limit(&self) -> (limit: i64)
        requires
            self.wf(),
        ensures
            limit == self@.first + 1,
    {
        self.first + 1
    }

    /// Starts the window with the events that were read.
    pub fn read(self, rows: Vec<AiInboxEventRecord>) -> (reader: PageReader)
        requires
            self.wf(),
        ensures
            reader.wf(),
            reader@.query == self@,
            reader@.has_more == (rows@.len() > self@.first),
            reader@.rows == if rows@.len() > self@.first {
                rows@.subrange(0, self@.first as int)
            } else {
                rows@
            },
            reader@.events.len() == 0,
    {
        let has_more: bool = rows.len() as i128 > self.first as i128;
        let mut rows = rows;
        if has_more {
            rows.truncate(self.first as usize);
        }
        PageReader { query: self, rows, has_more, events: Vec::new() }
    }
}

/// How reading a window continues.
#[derive(Debug, PartialEq, Eq)]
pub enum PageStart {
    /// The window is answered without reading events.
    Answered(AiInboxEventPage),
    /// Read the queried events.
    Read(PageQuery),
}

/// Starts reading a window of the principal's stream.
///
/// A principal without a stream has an empty window, which demands a reset
/// unless it started at zero. A window that starts before the oldest retained
/// event demands a reset. Otherwise one event more than requested is read, to
/// see whether the stream continues.
pub fn begin_page(
    stream: Option<AiInboxStreamRecord>,
    principal_kind: &str,
    principal_subject: &str,
    after_sequence: i64,
    first: i64,
) -> (result: Result<PageStart, OrmErrorCode>)
    requires
        window_valid(after_sequence, first),
    ensures
        match result {
            Err(code) => stream is Some && (if !stream_of(
                stream->0,
                principal_kind@,
                principal_subject@,
            ) {
                code == OrmErrorCode::InternalError
            } else {
                stream->0.stream_head > i32::MAX && code == OrmErrorCode::InvalidInput
            }),
            Ok(PageStart::Answered(page)) => {
                &&& page_fits(page, after_sequence, first)
                &&& page.events@.len() == 0
                &&& !page.has_more
                &&& match stream {
                    None => page.watermark == 0 && page.reset_required == (after_sequence != 0),
                    Some(row) => stream_of(row, principal_kind@, principal_subject@)
                        && row.stream_head <= i32::MAX && after_sequence + 1
                        < row.minimum_retained_sequence && page.watermark == row.stream_head
                        && page.reset_required,
                }
            },
            Ok(PageStart::Read(query)) => {
                &&& query.wf()
                &&& stream == Some(query@.stream)
                &&& stream_of(query@.stream, principal_kind@, principal_subject@)
                &&& query@.after_sequence == after_sequence
                &&& query@.first == first
            },
        },
{
    let row: AiInboxStreamRecord = match stream {
        Some(row) => row,
        None => return Ok(
            PageStart::Answered(
                AiInboxEventPage {
                    events: Vec::new(),
                    watermark: 0,
                    has_more: false,
                    reset_required: after_sequence != 0,
                },
            ),
        ),
    };
    if !is_stream_of(&row, principal_kind, principal_subject) {
        return Err(OrmErrorCode::InternalError);
    }
    if row.stream_head > i32::MAX as i64 {
        return Err(OrmErrorCode::InvalidInput);
    }
    if after_sequence + 1 < row.minimum_retained_sequence {
        return Ok(
            PageStart::Answered(
                AiInboxEventPage {
                    events: Vec::new(),
                    watermark: row.stream_head,
                    has_more: false,
                    reset_required: true,
                },
            ),
        );
    }
    Ok(PageStart::Read(PageQuery { stream: row, after_sequence, first }))
}

/// Whether the row belongs to the stream, lies in the window, and names a
/// session.
pub open spec fn row_in_window(
    row: AiInboxEventRecord,
    stream: AiInboxStreamRecord,
    after_sequence: i64,
) -> bool {
    &&& row.principal_kind@ == stream.principal_kind@
    &&& row.principal_subject@ == stream.principal_subject@
    &&& after_sequence < row.sequence <= stream.stream_head
    &&& row.session_id is Some
}

/// Accepts a row of the window and returns its session.
pub fn admit_row(
    row: &AiInboxEventRecord,
    stream: &AiInboxStreamRecord,
    after_sequence: i64,
) -> (result: Result<Uuid, AiError>)
    ensures
        match result {
            Ok(session_id) => row_in_window(*row, *stream, after_sequence) && row.session_id
                == Some(session_id),
            Err(error) => !row_in_window(*row, *stream, after_sequence) && error@
                == ErrorModel::PersistenceFailed,
        },
{
    if !same_text(row.principal_kind.as_str(), stream.principal_kind.as_str()) || !same_text(
        row.principal_subject.as_str(),
        stream.principal_subject.as_str(),
    ) || row.sequence <= after_sequence || row.sequence > stream.stream_head {
        return Err(AiError::PersistenceFailed);
    }
    match row.session_id {
        Some(session_id) => Ok(session_id),
        None => Err(AiError::PersistenceFailed),
    }
}

/// Begins the authority check over a row's session: it must still exist and
/// be owned by the stream's principal.
pub fn admit_row_session(
    session: &Option<AiSessionRecord>,
    stream: &AiInboxStreamRecord,
) -> (result: Result<AuthorityCheck, AiError>)
    ensures
        refusal(result) == if session is Some && session->0.owner_principal_kind@
            == stream.principal_kind@ && session->0.owner_subject@ == stream.principal_subject@ {
            None
        } else {
            Some(ErrorModel::Forbidden)
        },
        result matches Ok(check) ==> {
            &&& check.wf()
            &&& check@.scope@ == session_scope_model(session->0)
            &&& check@.stage is Current
            &&& check@.session == session->0
        },
{
    AuthorityCheck::begin_owner(
        session,
        stream.principal_kind.as_str(),
        stream.principal_subject.as_str(),
    )
}

/// Where the protected payload of an inbox event belongs.
pub fn inbox_event_context(event_id: Uuid, authority: &ContentAuthority) -> (context:
    ContentProtectionContext)
    requires
        authority.wf(),
    ensures
        context@ == (ContextModel {
            entity: "graphql_orm_ai_inbox_events"@,
            row_id: uuid_text(event_id),
            field: "protected_payload"@,
            scope: authority@.scope,
        }),
{
    authority.place("graphql_orm_ai_inbox_events", event_id, "protected_payload")
}

/// The opened form of an admitted row.
pub fn inbox_event_view(row: &AiInboxEventRecord, session_id: Uuid, payload: Vec<u8>) -> (view:
    AiInboxEventView)
    ensures
        view.id == row.id,
        view.sequence == row.sequence,
        view.session_id == session_id,
        view.event_type == row.event_type,
        view.payload == payload,
        view.created_at == row.created_at,
{
    AiInboxEventView {
        id: row.id,
        sequence: row.sequence,
        session_id,
        event_type: row.event_type.clone(),
        payload,
        created_at: row.created_at,
    }
}

/// Whether the view is the opened form of this row.
pub open spec fn views_row(view: AiInboxEventView, row: AiInboxEventRecord) -> bool {
    &&& view.id == row.id
    &&& view.sequence == row.sequence
    &&& row.session_id == Some(view.session_id)
    &&& view.event_type == row.event_type
    &&& view.created_at == row.created_at
}

/// Whether the authority is over the row's own session, owned by the stream's
/// principal.
pub open spec fn row_authorized(
    authority: AuthorityModel,
    row: AiInboxEventRecord,
    stream: AiInboxStreamRecord,
) -> bool {
    &&& row.session_id == Some(authority.session.id)
    &&& authority.session.owner_principal_kind@ == stream.principal_kind@
    &&& authority.session.owner_subject@ == stream.principal_subject@
}

/// A window under way: its rows are opened one after another.
#[derive(Debug, PartialEq, Eq)]
pub struct PageReader {
    query: PageQuery,
    rows: Vec<AiInboxEventRecord>,
    has_more: bool,
    events: Vec<AiInboxEventView>,
}

/// Values of [`PageReader`].
pub struct ReaderModel {
    pub query: QueryModel,
    /// Rows of the window.
    pub rows: Seq<AiInboxEventRecord>,
    pub has_more: bool,
    /// Opened forms of the first rows.
    pub events: Seq<AiInboxEventView>,
}

impl View for PageReader {
    type V = ReaderModel;

    closed spec fn view(&self) -> ReaderModel {
        ReaderModel {
            query: self.query@,
            rows: self.rows@,
            has_more: self.has_more,
            events: self.events@,
        }
    }
}

impl PageReader {
    /// Windows whose opened rows all lie in them.
    pub open spec fn wf(self) -> bool {
        let query = self@.query;
        &&& window_valid(query.after_sequence, query.first)
        &&& self@.rows.len() <= query.first
        &&& self@.has_more ==> self@.rows.len() == query.first
        &&& self@.events.len() <= self@.rows.len()
        &&& forall|i: int|
            0 <= i < self@.events.len() ==> views_row(#[trigger] self@.events[i], self@.rows[i])
                && row_in_window(self@.rows[i], query.stream, query.after_sequence)
    }

    /// The stream that the window is of.
    pub fn stream(&self) -> (stream: &AiInboxStreamRecord)
        ensures
            *stream == self@.query.stream,
    {
        &self.query.stream
    }

    /// Identity and session of the next row to open, or none where all are
    /// opened. A row outside of the window is refused.
    pub fn next_row(&self) -> (result: Result<Option<(Uuid, Uuid)>, AiError>)
        requires
            self.wf(),
        ensures
            ({
                let opened = self@.events.len() as int;
                let row = self@.rows[opened];
                let query = self@.query;
                match result {
                    Ok(None) => opened == self@.rows.len(),
                    Ok(Some((id, session_id))) => opened < self@.rows.len() && row_in_window(
                        row,
                        query.stream,
                        query.after_sequence,
                    ) && id == row.id && row.session_id == Some(session_id),
                    Err(error) => opened < self@.rows.len() && !row_in_window(
                        row,
                        query.stream,
                        query.after_sequence,
                    ) && error@ == ErrorModel::PersistenceFailed,
                }
            }),
    {
        if self.events.len() == self.rows.len() {
            return Ok(None);
        }
        let row = &self.rows[self.events.len()];
        match admit_row(row, &self.query.stream, self.query.after_sequence) {
            Ok(session_id) => Ok(Some((row.id, session_id))),
            Err(error) => Err(error),
        }
    }

    /// Takes the opened payload of the next row, opened under authority over
    /// the row's session.
    pub fn take_payload(&mut self, authority: &ContentAuthority, payload: Vec<u8>) -> (result:
        Result<(), AiError>)
        requires
            old(self).wf(),
            authority.wf(),
        ensures
            final(self).wf(),
            ({
                let opened = old(self)@.events.len() as int;
                let row = old(self)@.rows[opened];
                let query = old(self)@.query;
                refusal(result) == if opened == old(self)@.rows.len() || !row_in_window(
                    row,
                    query.stream,
                    query.after_sequence,
                ) {
                    Some(ErrorModel::PersistenceFailed)
                } else if !row_authorized(authority@, row, query.stream) {
                    Some(ErrorModel::Forbidden)
                } else {
                    None
                }
            }),
            match result {
                Ok(()) => {
                    &&& final(self)@.query == old(self)@.query
                    &&& final(self)@.rows == old(self)@.rows
                    &&& final(self)@.has_more == old(self)@.has_more
                    &&& final(self)@.events.len() == old(self)@.events.len() + 1
                    &&& final(self)@.events.drop_last() == old(self)@.events
                    &&& final(self)@.events.last().payload == payload
                },
                Err(_) => *final(self) == *old(self),
            },
    {
        if self.events.len() == self.rows.len() {
            return Err(AiError::PersistenceFailed);
        }
        let row = &self.rows[self.events.len()];
        let session_id: Uuid = match admit_row(
            row,
            &self.query.stream,
            self.query.after_sequence,
        ) {
            Ok(session_id) => session_id,
            Err(error) => return Err(error),
        };
        let session = authority.session();
        if session.id != session_id || !same_text(
            session.owner_principal_kind.as_str(),
            self.query.stream.principal_kind.as_str(),
        ) || !same_text(
            session.owner_subject.as_str(),
            self.query.stream.principal_subject.as_str(),
        ) {
            return Err(AiError::Forbidden);
        }
        let view = inbox_event_view(row, session_id, payload);
        let ghost before = self@.events;
        self.events.push(view);
        proof {
            assert(self@.events.drop_last() =~= before);
        }
        Ok(())
    }

    /// The window, once all of its rows are opened.
    pub fn finish(self) -> (result: Result<AiInboxEventPage, AiError>)
        requires
            self.wf(),
        ensures
            refusal(result) == if self@.events.len() == self@.rows.len() {
                None
            } else {
                Some(ErrorModel::PersistenceFailed)
            },
            result matches Ok(page) ==> {
                &&& page_fits(page, self@.query.after_sequence, self@.query.first)
                &&& page.events@ == self@.events
                &&& page.watermark == self@.query.stream.stream_head
                &&& page.has_more == self@.has_more
                &&& !page.reset_required
            },
    {
        if self.events.len() != self.rows.len() {
            return Err(AiError::PersistenceFailed);
        }
        let page = AiInboxEventPage {
            events: self.events,
            watermark: self.query.stream.stream_head,
            has_more: self.has_more,
            reset_required: false,
        };
        proof {
            assert forall|i: int| 0 <= i < page.events@.len() implies self@.query.after_sequence < (
            #[trigger] page.events@[i]).sequence <= page.watermark by {
                assert(views_row(self@.events[i], self@.rows[i]));
            }
        }
        Ok(page)
    }
}

/// A window is valid exactly where it begins at a non-negative 32-bit sequence
/// and asks for one to 500 events.
pub proof fn windows_are_bounded(after_sequence: i64, first: i64)
    ensures
        window_valid(after_sequence, first) <==> 0 <= after_sequence <= 2_147_483_647 && 1 <= first
            <= 500,
{
}

/// A row is of a window exactly where it is of the stream's principal, lies
/// after the window's start and not past the head, and names a session.
pub proof fn rows_of_a_window_are_the_principals(
    row: AiInboxEventRecord,
    stream: AiInboxStreamRecord,
    after_sequence: i64,
)
    ensures
        row_in_window(row, stream, after_sequence) <==> {
            &&& row.principal_kind@ == stream.principal_kind@
            &&& row.principal_subject@ == stream.principal_subject@
            &&& row.sequence > after_sequence
            &&& row.sequence <= stream.stream_head
            &&& row.session_id is Some
        },
{
}

/// A view shows its row, and nothing of another; it is opened only under
/// authority over the row's own session, owned by the stream's principal.
pub proof fn views_show_their_row(
    view: AiInboxEventView,
    row: AiInboxEventRecord,
    authority: AuthorityModel,
    stream: AiInboxStreamRecord,
)
    ensures
        views_row(view, row) ==> {
            &&& view.id == row.id && view.sequence == row.sequence
            &&& row.session_id is Some && row.session_id->0 == view.session_id
            &&& view.event_type@ == row.event_type@ && view.created_at == row.created_at
        },
        row_authorized(authority, row, stream) <==> {
            &&& row.session_id is Some && row.session_id->0 == authority.session.id
            &&& authority.session.owner_principal_kind@ == stream.principal_kind@
            &&& authority.session.owner_subject@ == stream.principal_subject@
        },
{
}

/// A window holds at most what was asked for, after its start and up to its
/// watermark; it is full where more follows, and empty where it demands a
/// reset.
pub proof fn pages_keep_to_their_window(
    page: AiInboxEventPage,
    after_sequence: i64,
    first: i64,
    i: int,
)
    requires
        page_fits(page, after_sequence, first),
    ensures
        page.events@.len() <= first,
        0 <= i < page.events@.len() ==> page.events@[i].sequence > after_sequence
            && page.events@[i].sequence <= page.watermark,
        page.has_more ==> page.events@.len() == first,
        page.reset_required ==> page.events@.len() == 0,
{
}

} // verus!
