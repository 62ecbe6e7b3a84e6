//! What a session does with each message of its connection.
//!
//! A session reads a message, decodes it, asks the store, and writes the
//! response, one request after the other. It keeps nothing between requests
//! but whether its connection is still open: every record is in the store,
//! which all sessions share. Reading and writing are the caller's: this
//! module decides, the caller moves the bytes.

use crate::protocol::{
    decode, decoded, encode, wire, DecodeError, LoadRequest, Record, Request, RequestView,
    Response, ResponseView, StoreRequest,
};
use crate::store::{lookup, stored, MemoryStore, StoreError};
use vstd::prelude::*;

verus! {

/// The response that the outcome of a put makes.
pub open spec fn store_reply_of(outcome: Result<(), StoreError>) -> ResponseView {
    match outcome {
        Ok(_) => ResponseView::StoreAck,
        Err(_) => ResponseView::Unavailable,
    }
}

/// The response that the outcome of a lookup of `key` makes. Only a store
/// that answered that it holds nothing makes `LoadNotFound`.
pub open spec fn load_reply_of(
    key: Seq<char>,
    outcome: Result<Option<Seq<char>>, StoreError>,
) -> ResponseView {
    match outcome {
        Ok(Some(hash)) => ResponseView::LoadFound { key, hash },
        Ok(None) => ResponseView::LoadNotFound,
        Err(_) => ResponseView::Unavailable,
    }
}

/// The outcome of a lookup as contracts see it.
pub open spec fn outcome_text(outcome: Result<Option<String>, StoreError>) -> Result<
    Option<Seq<char>>,
    StoreError,
> {
    match outcome {
        Ok(Some(hash)) => Ok(Some(hash@)),
        Ok(None) => Ok(None),
        Err(error) => Err(error),
    }
}

/// The response to `request` of a store that holds `records` and can be
/// reached.
pub open spec fn response_to(
    records: Map<Seq<char>, Seq<char>>,
    request: RequestView,
) -> ResponseView {
    match request {
        RequestView::Store { key, hash } => store_reply_of(Ok(())),
        RequestView::Load { key } => load_reply_of(key, Ok(lookup(records, key))),
    }
}

/// The records that `request` leaves in a store that held `records`.
pub open spec fn records_after(
    records: Map<Seq<char>, Seq<char>>,
    request: RequestView,
) -> Map<Seq<char>, Seq<char>> {
    match request {
        RequestView::Store { key, hash } => stored(records, key, hash),
        RequestView::Load { key } => records,
    }
}

/// The records that a store holds after it served each of `requests` in
/// turn, from whichever connections they came.
pub open spec fn records_after_all(
    records: Map<Seq<char>, Seq<char>>,
    requests: Seq<RequestView>,
) -> Map<Seq<char>, Seq<char>>
    decreases requests.len(),
{
    if requests.len() == 0 {
        records
    } else {
        records_after(records_after_all(records, requests.drop_last()), requests.last())
    }
}

/// Whether `request` puts a hash under `key`.
pub open spec fn writes_key(request: RequestView, key: Seq<char>) -> bool {
    request matches RequestView::Store { key: written, .. } && written == key
}

/// Answers a store request with what the store said of the put.
pub fn store_reply(outcome: Result<(), StoreError>) -> (response: Response)
    ensures
        response@ == store_reply_of(outcome),
{
    match outcome {
        Ok(_) => Response::StoreAck,
        Err(_) => Response::Unavailable,
    }
}

/// Answers a load request for `key` with what the store said of the lookup.
pub fn load_reply(key: String, outcome: Result<Option<String>, StoreError>) -> (response: Response)
    ensures
        response@ == load_reply_of(key@, outcome_text(outcome)),
{
    match outcome {
        Ok(Some(hash)) => Response::LoadFound(Record { key, hash }),
        Ok(None) => Response::LoadNotFound,
        Err(_) => Response::Unavailable,
    }
}

/// Serves a store request from the store in memory.
pub fn store_action(request: StoreRequest, store: &mut MemoryStore) -> (response: Response)
    ensures
        response@ == ResponseView::StoreAck,
        final(store)@ == stored(old(store)@, request.key@, request.hash@),
{
    store.put(request.key, request.hash);
    store_reply(Ok(()))
}

/// Serves a load request from the store in memory.
pub fn load_action(request: LoadRequest, store: &MemoryStore) -> (response: Response)
    ensures
        response@ == load_reply_of(request.key@, Ok(lookup(store@, request.key@))),
{
    let found = store.get(request.key.as_str());
    load_reply(request.key, Ok(found))
}

/// Serves one request from the store in memory.
pub fn dispatch(request: Request, store: &mut MemoryStore) -> (response: Response)
    ensures
        response@ == response_to(old(store)@, request@),
        final(store)@ == records_after(old(store)@, request@),
{
    match request {
        Request::Store(request) => store_action(request, store),
        Request::Load(request) => load_action(request, store),
    }
}

/// Takes one message through: decodes it, serves it from the store in
/// memory, and encodes the response. A message that is no request is told
/// apart by its error, gets no response, and leaves the store as it was.
pub fn handle_message(bytes: &[u8], store: &mut MemoryStore) -> (reply: Result<
    Vec<u8>,
    DecodeError,
>)
    ensures
        match decoded(bytes@) {
            Ok(request) => {
                &&& reply matches Ok(out)
                &&& out@ == wire(response_to(old(store)@, request))
                &&& final(store)@ == records_after(old(store)@, request)
            },
            Err(error) => reply == Err::<Vec<u8>, DecodeError>(error) && final(store)@ == old(
                store,
            )@,
        },
{
    match decode(bytes) {
        Ok(request) => {
            let response = dispatch(request, store);
            Ok(encode(&response))
        },
        Err(error) => Err(error),
    }
}

/// Where a session stands.
#[derive(Debug, Clone, Copy, PartialEq, Eq)]
pub enum SessionState {
    /// Waiting for the next message.
    Reading,
    /// A request was read and its response is not yet written.
    Dispatching,
    /// The connection is done with. Nothing is read or written any more.
    Closed,
}

/// What the connection did.
#[derive(Debug, Clone, Copy, PartialEq, Eq)]
pub enum Event<'a> {
    /// A read gave these bytes. None at all means that the peer has closed.
    Received(&'a [u8]),
    /// A read failed.
    ReadFailed,
    /// The response was written.
    Written,
    /// The response could not be written.
    WriteFailed,
}

/// What the caller does next.
#[derive(Debug, Clone, PartialEq, Eq)]
pub enum Action {
    /// Read the next message.
    Read,
    /// Ask the store, write the response, and report how the write went.
    Serve(Request),
    /// The message was no request: report it, write nothing, and read the
    /// next message.
    Discard(DecodeError),
    /// Let go of the connection.
    Close,
}

/// An event as contracts see it.
pub enum EventView {
    Received(Seq<u8>),
    ReadFailed,
    Written,
    WriteFailed,
}

/// An action as contracts see it.
pub enum ActionView {
    Read,
    Serve(RequestView),
    Discard(DecodeError),
    Close,
}

impl<'a> View for Event<'a> {
    type V = EventView;

    open spec fn view(&self) -> EventView {
        match *self {
            Event::Received(bytes) => EventView::Received(bytes@),
            Event::ReadFailed => EventView::ReadFailed,
            Event::Written => EventView::Written,
            Event::WriteFailed => EventView::WriteFailed,
        }
    }
}

impl View for Action {
    type V = ActionView;

    open spec fn view(&self) -> ActionView {
        match *self {
            Action::Read => ActionView::Read,
            Action::Serve(request) => ActionView::Serve(request@),
            Action::Discard(error) => ActionView::Discard(error),
            Action::Close => ActionView::Close,
        }
    }
}

/// The state that follows `state` on `event`, and what is to be done then.
///
/// While reading: an empty read is the peer's orderly close and a failed
/// read its disorderly one, and both end the session; a message that decodes
/// is to be served; one that does not is dropped, and the session reads on.
/// While dispatching: once the response is written the session reads again,
/// and a failed write ends it. An event that the state does not wait for
/// ends the session too, and a closed session stays closed.
pub open spec fn transition(state: SessionState, event: EventView) -> (SessionState, ActionView) {
    match (state, event) {
        (SessionState::Reading, EventView::Received(bytes)) => if bytes.len() == 0 {
            (SessionState::Closed, ActionView::Close)
        } else {
            match decoded(bytes) {
                Ok(request) => (SessionState::Dispatching, ActionView::Serve(request)),
                Err(error) => (SessionState::Reading, ActionView::Discard(error)),
            }
        },
        (SessionState::Dispatching, EventView::Written) => (
            SessionState::Reading,
            ActionView::Read,
        ),
        _ => (SessionState::Closed, ActionView::Close),
    }
}

/// Moves a session on by one event.
pub fn step(state: SessionState, event: Event) -> (next: (SessionState, Action))
    ensures
        (next.0, next.1@) == transition(state, event@),
{
    match (state, event) {
        (SessionState::Reading, Event::Received(bytes)) => {
            if bytes.len() == 0 {
                (SessionState::Closed, Action::Close)
            } else {
                match decode(bytes) {
                    Ok(request) => (SessionState::Dispatching, Action::Serve(request)),
                    Err(error) => (SessionState::Reading, Action::Discard(error)),
                }
            }
        },
        (SessionState::Dispatching, Event::Written) => (SessionState::Reading, Action::Read),
        _ => (SessionState::Closed, Action::Close),
    }
}

/// A hash stored through one connection is what a load through any other
/// finds, once the store was served: the records are the store's, and a
/// session holds none. Whatever requests were served in between, from
/// whichever connections, as long as none of them wrote the key again.
pub proof fn law_store_is_seen_by_later_load(
    records: Map<Seq<char>, Seq<char>>,
    key: Seq<char>,
    hash: Seq<char>,
    between: Seq<RequestView>,
)
    requires
        forall|i: int| 0 <= i < between.len() ==> !writes_key(#[trigger] between[i], key),
    ensures
        response_to(
            records_after_all(records_after(records, RequestView::Store { key, hash }), between),
            RequestView::Load { key },
        ) == (ResponseView::LoadFound { key, hash }),
    decreases between.len(),
{
    if between.len() > 0 {
        let earlier = between.drop_last();
        assert forall|i: int| 0 <= i < earlier.len() implies !writes_key(
            #[trigger] earlier[i],
            key,
        ) by {
            assert(earlier[i] == between[i]);
        }
        law_store_is_seen_by_later_load(records, key, hash, earlier);
        assert(!writes_key(between[between.len() - 1], key));
    }
}

/// A load of a key that no request ever stored is answered `LoadNotFound`.
pub proof fn law_load_of_unwritten_key_fails(requests: Seq<RequestView>, key: Seq<char>)
    requires
        forall|i: int| 0 <= i < requests.len() ==> !writes_key(#[trigger] requests[i], key),
    ensures
        response_to(records_after_all(Map::empty(), requests), RequestView::Load { key })
            == ResponseView::LoadNotFound,
    decreases requests.len(),
{
    if requests.len() > 0 {
        let earlier = requests.drop_last();
        assert forall|i: int| 0 <= i < earlier.len() implies !writes_key(
            #[trigger] earlier[i],
            key,
        ) by {
            assert(earlier[i] == requests[i]);
        }
        law_load_of_unwritten_key_fails(earlier, key);
        assert(!writes_key(requests[requests.len() - 1], key));
    }
}

/// A store that could not be asked is never reported as a key without a
/// hash: `LoadNotFound` is the response to one outcome only, the store's own
/// answer that it holds nothing.
pub proof fn law_not_found_is_the_stores_answer(
    key: Seq<char>,
    outcome: Result<Option<Seq<char>>, StoreError>,
)
    ensures
        load_reply_of(key, outcome) == ResponseView::LoadNotFound <==> outcome == Ok::<
            Option<Seq<char>>,
            StoreError,
        >(None),
        outcome is Err <==> load_reply_of(key, outcome) == ResponseView::Unavailable,
{
}

/// A message that is no request costs the session nothing: it stays open,
/// and the message after it is taken as if the bad one had never come.
pub proof fn law_bad_message_keeps_session_open(bad: Seq<u8>, after: Seq<u8>)
    requires
        bad.len() > 0,
        decoded(bad) is Err,
    ensures
        transition(SessionState::Reading, EventView::Received(bad)).0 == SessionState::Reading,
        transition(
            transition(SessionState::Reading, EventView::Received(bad)).0,
            EventView::Received(after),
        ) == transition(SessionState::Reading, EventView::Received(after)),
{
}

/// A closed session stays closed, whatever comes.
pub proof fn law_closed_is_final(event: EventView)
    ensures
        transition(SessionState::Closed, event) == (SessionState::Closed, ActionView::Close),
{
}

} // verus!
