use hash_store::protocol::{
    DecodeError, LoadRequest, Record, Request, Response, StoreRequest,
};
use hash_store::session::{
    dispatch, handle_message, load_action, load_reply, step, store_action, store_reply, Action,
    Event, SessionState,
};
use hash_store::store::{MemoryStore, StoreError};

const STORE_A: &[u8] = br#"{"request_type":"store","key":"a","hash":"deadbeef"}"#;
const LOAD_A: &[u8] = br#"{"request_type":"load","key":"a"}"#;
const LOAD_MISSING: &[u8] = br#"{"request_type":"load","key":"missing"}"#;
const MALFORMED: &[u8] = br#"{"request_type":"#;

#[test]
fn store_request_is_answered_with_success() {
    let mut store = MemoryStore::new();
    assert_eq!(
        handle_message(STORE_A, &mut store),
        Ok(br#"{"response_status":"success"}"#.to_vec())
    );
    assert_eq!(store.get("a"), Some("deadbeef".to_string()));
}

#[test]
fn load_after_store_is_answered_with_the_hash() {
    let mut store = MemoryStore::new();
    handle_message(STORE_A, &mut store).unwrap();
    assert_eq!(
        handle_message(LOAD_A, &mut store),
        Ok(br#"{"response_status":"success","requested_key":"a","requested_hash":"deadbeef"}"#
            .to_vec())
    );
}

#[test]
fn load_of_missing_key_is_answered_with_failed() {
    let mut store = MemoryStore::new();
    assert_eq!(
        handle_message(LOAD_MISSING, &mut store),
        Ok(br#"{"response_status":"failed"}"#.to_vec())
    );
    handle_message(STORE_A, &mut store).unwrap();
    assert_eq!(
        handle_message(LOAD_MISSING, &mut store),
        Ok(br#"{"response_status":"failed"}"#.to_vec())
    );
}

#[test]
fn malformed_message_is_dropped_and_the_next_request_succeeds() {
    let mut store = MemoryStore::new();
    let mut state = SessionState::Reading;

    let (next, action) = step(state, Event::Received(MALFORMED));
    assert_eq!(next, SessionState::Reading);
    assert_eq!(action, Action::Discard(DecodeError::InvalidJson));
    state = next;

    let (next, action) = step(state, Event::Received(STORE_A));
    assert_eq!(next, SessionState::Dispatching);
    let request = match action {
        Action::Serve(request) => request,
        other => panic!("expected a request to serve, got {:?}", other),
    };
    let response = dispatch(request, &mut store);
    assert_eq!(response, Response::StoreAck);
    let (next, action) = step(next, Event::Written);
    assert_eq!((next, action), (SessionState::Reading, Action::Read));
    assert_eq!(store.get("a"), Some("deadbeef".to_string()));
}

#[test]
fn malformed_message_gets_no_response_and_changes_nothing() {
    let mut store = MemoryStore::new();
    handle_message(STORE_A, &mut store).unwrap();
    assert_eq!(handle_message(MALFORMED, &mut store), Err(DecodeError::InvalidJson));
    assert_eq!(
        handle_message(br#"{"request_type":"drop","key":"a"}"#, &mut store),
        Err(DecodeError::UnknownRequestType)
    );
    assert_eq!(
        handle_message(br#"{"request_type":"store","key":"a"}"#, &mut store),
        Err(DecodeError::MissingHash)
    );
    assert_eq!(handle_message(br#"{"key":"a"}"#, &mut store), Err(DecodeError::MissingRequestType));
    assert_eq!(
        handle_message(br#"{"request_type":"load"}"#, &mut store),
        Err(DecodeError::MissingKey)
    );
    assert_eq!(store.get("a"), Some("deadbeef".to_string()));
    assert_eq!(
        handle_message(LOAD_A, &mut store),
        Ok(br#"{"response_status":"success","requested_key":"a","requested_hash":"deadbeef"}"#
            .to_vec())
    );
}

#[test]
fn store_twice_then_load_gives_the_second_hash() {
    let mut store = MemoryStore::new();
    handle_message(br#"{"request_type":"store","key":"k","hash":"h1"}"#, &mut store).unwrap();
    handle_message(br#"{"request_type":"store","key":"k","hash":"h2"}"#, &mut store).unwrap();
    assert_eq!(
        handle_message(br#"{"request_type":"load","key":"k"}"#, &mut store),
        Ok(br#"{"response_status":"success","requested_key":"k","requested_hash":"h2"}"#.to_vec())
    );
}

#[test]
fn store_through_one_session_is_loaded_through_another() {
    let mut store = MemoryStore::new();
    let mut first = SessionState::Reading;
    let mut second = SessionState::Reading;

    let (next, action) = step(first, Event::Received(STORE_A));
    first = next;
    if let Action::Serve(request) = action {
        assert_eq!(dispatch(request, &mut store), Response::StoreAck);
    } else {
        panic!("the store request was not served");
    }
    let (next, _) = step(first, Event::Written);
    first = next;

    let (next, action) = step(second, Event::Received(br#"{"request_type":"load","key":"b"}"#));
    second = next;
    if let Action::Serve(request) = action {
        assert_eq!(dispatch(request, &mut store), Response::LoadNotFound);
    } else {
        panic!("the load request was not served");
    }
    let (next, _) = step(second, Event::Written);
    second = next;

    let (next, action) = step(second, Event::Received(LOAD_A));
    second = next;
    if let Action::Serve(request) = action {
        assert_eq!(
            dispatch(request, &mut store),
            Response::LoadFound(Record { key: "a".to_string(), hash: "deadbeef".to_string() })
        );
    } else {
        panic!("the load request was not served");
    }
    assert_eq!(first, SessionState::Reading);
    assert_eq!(second, SessionState::Dispatching);
}

#[test]
fn empty_read_closes_the_session() {
    assert_eq!(
        step(SessionState::Reading, Event::Received(b"")),
        (SessionState::Closed, Action::Close)
    );
}

#[test]
fn failed_read_closes_the_session() {
    assert_eq!(
        step(SessionState::Reading, Event::ReadFailed),
        (SessionState::Closed, Action::Close)
    );
}

#[test]
fn request_moves_the_session_to_dispatching() {
    assert_eq!(
        step(SessionState::Reading, Event::Received(LOAD_A)),
        (
            SessionState::Dispatching,
            Action::Serve(Request::Load(LoadRequest { key: "a".to_string() }))
        )
    );
    assert_eq!(
        step(SessionState::Reading, Event::Received(STORE_A)),
        (
            SessionState::Dispatching,
            Action::Serve(Request::Store(StoreRequest {
                key: "a".to_string(),
                hash: "deadbeef".to_string()
            }))
        )
    );
}

#[test]
fn each_bad_message_is_dropped_with_its_reason() {
    let bad: [(&[u8], DecodeError); 5] = [
        (b"}{", DecodeError::InvalidJson),
        (b"{\"key\":\"a\"}", DecodeError::MissingRequestType),
        (b"{\"request_type\":\"x\"}", DecodeError::UnknownRequestType),
        (b"{\"request_type\":\"load\"}", DecodeError::MissingKey),
        (b"{\"request_type\":\"store\",\"key\":\"a\"}", DecodeError::MissingHash),
    ];
    for (bytes, reason) in bad {
        assert_eq!(
            step(SessionState::Reading, Event::Received(bytes)),
            (SessionState::Reading, Action::Discard(reason))
        );
    }
}

#[test]
fn written_response_returns_the_session_to_reading() {
    assert_eq!(
        step(SessionState::Dispatching, Event::Written),
        (SessionState::Reading, Action::Read)
    );
}

#[test]
fn failed_write_closes_the_session() {
    assert_eq!(
        step(SessionState::Dispatching, Event::WriteFailed),
        (SessionState::Closed, Action::Close)
    );
}

#[test]
fn closed_session_stays_closed() {
    let events = [
        Event::Received(LOAD_A),
        Event::Received(b""),
        Event::ReadFailed,
        Event::Written,
        Event::WriteFailed,
    ];
    for event in events {
        assert_eq!(step(SessionState::Closed, event), (SessionState::Closed, Action::Close));
    }
}

#[test]
fn event_out_of_turn_closes_the_session() {
    assert_eq!(
        step(SessionState::Reading, Event::Written),
        (SessionState::Closed, Action::Close)
    );
    assert_eq!(
        step(SessionState::Reading, Event::WriteFailed),
        (SessionState::Closed, Action::Close)
    );
    assert_eq!(
        step(SessionState::Dispatching, Event::Received(LOAD_A)),
        (SessionState::Closed, Action::Close)
    );
    assert_eq!(
        step(SessionState::Dispatching, Event::ReadFailed),
        (SessionState::Closed, Action::Close)
    );
}

#[test]
fn store_action_puts_and_acknowledges() {
    let mut store = MemoryStore::new();
    let request = StoreRequest { key: "a".to_string(), hash: "deadbeef".to_string() };
    assert_eq!(store_action(request, &mut store), Response::StoreAck);
    assert_eq!(store.get("a"), Some("deadbeef".to_string()));
}

#[test]
fn load_action_finds_or_fails() {
    let mut store = MemoryStore::new();
    store.put("a".to_string(), "deadbeef".to_string());
    assert_eq!(
        load_action(LoadRequest { key: "a".to_string() }, &store),
        Response::LoadFound(Record { key: "a".to_string(), hash: "deadbeef".to_string() })
    );
    assert_eq!(
        load_action(LoadRequest { key: "missing".to_string() }, &store),
        Response::LoadNotFound
    );
}

#[test]
fn store_reply_tells_success_from_failure() {
    assert_eq!(store_reply(Ok(())), Response::StoreAck);
    assert_eq!(store_reply(Err(StoreError::Unavailable)), Response::Unavailable);
}

#[test]
fn load_reply_never_takes_failure_for_absence() {
    assert_eq!(
        load_reply("a".to_string(), Ok(Some("deadbeef".to_string()))),
        Response::LoadFound(Record { key: "a".to_string(), hash: "deadbeef".to_string() })
    );
    assert_eq!(load_reply("a".to_string(), Ok(None)), Response::LoadNotFound);
    assert_eq!(load_reply("a".to_string(), Err(StoreError::Unavailable)), Response::Unavailable);
}
