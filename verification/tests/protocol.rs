use characterai::client::AsyncClient;
use characterai::connection::{ConnectStep, Connection, ConnectionError, ConnectionState};
use characterai::decoder::{decode_all, DecodeStep, StreamError, TurnStreamDecoder};
use characterai::frame::{CarriedTurn, CommandEnvelope, DecodeError, InboundFrame};
use characterai::gate::SessionGate;
use characterai::methods::chat::ChatMethods;
use characterai::protocol::{CreateChatReader, ProtocolError};
use characterai::requester::{
    Incoming, InvokeStep, Requester, RequesterError, TransportRead, WireMessage,
};
use characterai::types::user::Account;

fn frame(text: &str) -> InboundFrame {
    InboundFrame::decode_frame(text).expect("a frame that can be read")
}

fn echo() -> InboundFrame {
    frame(r#"{"command":"add_turn","turn":{"author":{"is_human":true}}}"#)
}

fn partial() -> InboundFrame {
    frame(
        r#"{"command":"add_turn","turn":{"id":"t1","author":{"is_human":false},"primary_candidate_id":"c1","candidates":[{"candidate_id":"c1","raw_content":"He","is_final":false}]}}"#,
    )
}

fn complete() -> InboundFrame {
    frame(
        r#"{"command":"update_turn","turn":{"id":"t1","author":{"is_human":false},"primary_candidate_id":"c1","candidates":[{"candidate_id":"c1","raw_content":"Hello","is_final":true}]}}"#,
    )
}

fn refusal(comment: &str) -> InboundFrame {
    frame(&format!(r#"{{"command":"neo_error","comment":"{}"}}"#, comment))
}

fn confirmation() -> InboundFrame {
    frame(r#"{"command":"create_chat_response","chat":{"chat_id":"chat-1","character_id":"char-1"}}"#)
}

fn greeting_turn() -> InboundFrame {
    frame(
        r#"{"command":"add_turn","turn":{"id":"g1","author":{"is_human":false,"name":"Bot"},"primary_candidate_id":"c0","candidates":[{"candidate_id":"c0","raw_content":"Hi there","is_final":true}]}}"#,
    )
}

#[test]
fn it_works() {
    let mut client = AsyncClient::new(Some("secret".to_string()));
    assert!(client.has_token());
    assert_eq!(client.token(), "secret");
    assert!(Account::default() == client.data());
    let headers = client.get_headers(None);
    assert_eq!(headers.len(), 2);
    assert_eq!(headers.get("authorization").unwrap(), "Token secret");
    assert_eq!(headers.get("Content-Type").unwrap(), "application/json");
    let other = client.get_headers(Some("other".to_string()));
    assert_eq!(other.get("authorization").unwrap(), "Token other");
    let account = Account::new(7, None, "user", "Name", "bio", None, None, None, true);
    client.profile_fetched(Ok(account.clone()));
    assert!(account == client.data());
    client.profile_fetched(Err(RequesterError::AuthenticationError));
    assert!(account == client.data());
    client.set_token("next");
    assert_eq!(client.token(), "next");
    assert!(!client.close_session());
    assert!(!client.get_requester().is_connected());
}

#[test]
fn client_without_token_has_no_headers() {
    let client = AsyncClient::new(None);
    assert!(!client.has_token());
    assert!(client.try_get_headers(None).is_none());
    assert!(client.try_get_headers(Some("t".to_string())).is_some());
}

#[test]
fn generation_yields_two_snapshots_then_stops() {
    let (turns, end) = decode_all(&vec![echo(), partial(), complete()]);
    assert_eq!(turns.len(), 2);
    assert_eq!(turns[0].get_primary_candidate().unwrap().text, "He");
    assert!(!turns[0].get_primary_candidate().unwrap().is_final);
    assert_eq!(turns[1].get_primary_candidate().unwrap().text, "Hello");
    assert!(turns[1].get_primary_candidate().unwrap().is_final);
    assert_eq!(turns[1].id, "t1");
    assert!(end.is_ok());
}

#[test]
fn generation_never_yields_after_the_final_snapshot() {
    let (turns, end) = decode_all(&vec![partial(), complete(), partial(), refusal("late")]);
    assert_eq!(turns.len(), 2);
    assert!(end.is_ok());
    let mut decoder = TurnStreamDecoder::new();
    assert!(matches!(decoder.on_frame(partial()), DecodeStep::Yield { last: false, .. }));
    assert!(!decoder.is_terminal());
    assert!(matches!(decoder.on_frame(complete()), DecodeStep::Yield { last: true, .. }));
    assert!(decoder.is_terminal());
    assert!(matches!(decoder.on_frame(partial()), DecodeStep::Nothing));
    assert!(decoder.on_close().is_ok());
}

#[test]
fn one_snapshot_per_agent_frame_in_order() {
    let first = frame(
        r#"{"command":"add_turn","turn":{"id":"t1","author":{"is_human":false},"primary_candidate_id":"c1","candidates":[{"candidate_id":"c1","raw_content":"a"}]}}"#,
    );
    let second = frame(
        r#"{"command":"add_turn","turn":{"id":"t1","author":{"is_human":false},"primary_candidate_id":"c1","candidates":[{"candidate_id":"c1","raw_content":"ab"}]}}"#,
    );
    let third = frame(
        r#"{"command":"add_turn","turn":{"id":"t1","author":{"is_human":false},"primary_candidate_id":"c1","candidates":[{"candidate_id":"c1","raw_content":"abc"}]}}"#,
    );
    let (turns, end) = decode_all(&vec![first, second, third]);
    let texts: Vec<String> =
        turns.iter().map(|t| t.get_primary_candidate().unwrap().text.clone()).collect();
    assert_eq!(texts, vec!["a", "ab", "abc"]);
    assert!(matches!(end, Err(StreamError::StreamTerminated)));
}

#[test]
fn echoes_yield_nothing() {
    let (turns, end) = decode_all(&vec![echo(), echo(), echo()]);
    assert!(turns.is_empty());
    assert!(matches!(end, Err(StreamError::StreamTerminated)));
    let mut decoder = TurnStreamDecoder::new();
    assert!(matches!(decoder.on_frame(echo()), DecodeStep::Nothing));
    assert!(!decoder.is_terminal());
}

#[test]
fn refusal_ends_generation_with_its_comment() {
    let (turns, end) = decode_all(&vec![partial(), refusal("too fast"), complete()]);
    assert_eq!(turns.len(), 1);
    match end {
        Err(StreamError::GenerationError(comment)) => assert_eq!(comment, "too fast"),
        _ => panic!("the refusal was lost"),
    }
    let mut decoder = TurnStreamDecoder::new();
    match decoder.on_frame(refusal("no")) {
        DecodeStep::Fail { error: StreamError::GenerationError(c) } => assert_eq!(c, "no"),
        _ => panic!("the refusal was lost"),
    }
    assert!(matches!(decoder.on_frame(complete()), DecodeStep::Nothing));
}

#[test]
fn candidates_of_one_turn_accumulate_by_id() {
    let a = frame(
        r#"{"command":"add_turn","turn":{"id":"t1","author":{"is_human":false},"primary_candidate_id":"c1","candidates":[{"candidate_id":"c1","raw_content":"one"}]}}"#,
    );
    let b = frame(
        r#"{"command":"update_turn","turn":{"id":"t1","author":{"is_human":false},"primary_candidate_id":"c1","candidates":[{"candidate_id":"c2","raw_content":"two"}]}}"#,
    );
    let c = frame(
        r#"{"command":"update_turn","turn":{"id":"t2","author":{"is_human":false},"primary_candidate_id":"c9","candidates":[{"candidate_id":"c9","raw_content":"new","is_final":true}]}}"#,
    );
    let (turns, end) = decode_all(&vec![a, b, c]);
    assert_eq!(turns.len(), 3);
    assert_eq!(turns[0].candidates.len(), 1);
    assert_eq!(turns[1].candidates.len(), 2);
    assert_eq!(turns[1].candidates.get("c1").unwrap().text, "one");
    assert_eq!(turns[1].candidates.get("c2").unwrap().text, "two");
    assert_eq!(turns[2].candidates.len(), 1);
    assert!(end.is_ok());
}

#[test]
fn turn_without_primary_ends_on_its_newest_candidate() {
    let open = frame(
        r#"{"command":"add_turn","turn":{"id":"t1","author":{"is_human":false},"candidates":[{"candidate_id":"c1","raw_content":"x","is_final":true},{"candidate_id":"c2","raw_content":"y"}]}}"#,
    );
    let done = frame(
        r#"{"command":"add_turn","turn":{"id":"t1","author":{"is_human":false},"candidates":[{"candidate_id":"c2","raw_content":"yz","is_final":true}]}}"#,
    );
    let (turns, end) = decode_all(&vec![open.clone(), done.clone()]);
    assert_eq!(turns.len(), 2);
    assert!(end.is_ok());
    assert!(!turns[0].shows_final(&Some("c2".to_string())));
    assert!(turns[0].shows_final(&Some("c1".to_string())));
    assert!(turns[1].shows_final(&Some("c2".to_string())));
    assert!(!turns[1].shows_final(&None));
    let mut decoder = TurnStreamDecoder::new();
    assert!(matches!(decoder.on_frame(open), DecodeStep::Yield { last: false, .. }));
    assert!(matches!(decoder.on_frame(done), DecodeStep::Yield { last: true, .. }));
}

#[test]
fn finished_candidate_that_replaces_an_earlier_one_ends_the_generation() {
    let open = frame(
        r#"{"command":"add_turn","turn":{"id":"t1","author":{"is_human":false},"candidates":[{"candidate_id":"c1","raw_content":"x"},{"candidate_id":"c2","raw_content":"y"}]}}"#,
    );
    let done = frame(
        r#"{"command":"add_turn","turn":{"id":"t1","author":{"is_human":false},"candidates":[{"candidate_id":"c1","raw_content":"xy","is_final":true}]}}"#,
    );
    let late = frame(
        r#"{"command":"add_turn","turn":{"id":"t1","author":{"is_human":false},"candidates":[{"candidate_id":"c2","raw_content":"yz"}]}}"#,
    );
    let (turns, end) = decode_all(&vec![open, done, late]);
    assert_eq!(turns.len(), 2);
    assert!(end.is_ok());
    assert_eq!(turns[1].candidates.len(), 2);
    assert_eq!(turns[1].candidates.get("c1").unwrap().text, "xy");
    assert!(turns[1].candidates.get("c1").unwrap().is_final);
    assert!(!turns[1].candidates.get("c2").unwrap().is_final);
}

#[test]
fn finished_candidate_held_from_before_does_not_end_the_generation() {
    let open = frame(
        r#"{"command":"add_turn","turn":{"id":"t1","author":{"is_human":false},"primary_candidate_id":"c1","candidates":[{"candidate_id":"c1","raw_content":"x"},{"candidate_id":"c2","raw_content":"y","is_final":true}]}}"#,
    );
    let more = frame(
        r#"{"command":"update_turn","turn":{"id":"t1","author":{"is_human":false},"candidates":[{"candidate_id":"c1","raw_content":"xy"}]}}"#,
    );
    let (turns, end) = decode_all(&vec![open, more]);
    assert_eq!(turns.len(), 2);
    assert!(matches!(end, Err(StreamError::StreamTerminated)));
    assert!(turns[1].primary_candidate_id.is_none());
    assert!(turns[1].candidates.get("c2").unwrap().is_final);
}

#[test]
fn single_finished_candidate_without_primary_ends_the_generation() {
    let only = frame(
        r#"{"command":"add_turn","turn":{"id":"t1","author":{"is_human":false},"candidates":[{"candidate_id":"c1","raw_content":"all","is_final":true}]}}"#,
    );
    let (turns, end) = decode_all(&vec![partial(), only, complete()]);
    assert_eq!(turns.len(), 2);
    assert!(end.is_ok());
    let mut decoder = TurnStreamDecoder::new();
    let none = frame(r#"{"command":"add_turn","turn":{"id":"t1","author":{"is_human":false}}}"#);
    assert!(matches!(decoder.on_frame(none), DecodeStep::Yield { last: false, .. }));
    assert!(!decoder.is_terminal());
}

#[test]
fn unreadable_turn_fails_only_its_reader() {
    let bare = r#"{"command":"add_turn"}"#;
    let wrong = r#"{"command":"update_turn","turn":{"id":5}}"#;
    let echoed = r#"{"command":"add_turn","turn":{"id":5,"author":{"is_human":true}}}"#;
    assert!(matches!(
        frame(bare),
        InboundFrame::AddTurn { turn: CarriedTurn::Unread { author_is_human: false } }
    ));
    assert!(matches!(
        frame(wrong),
        InboundFrame::UpdateTurn { turn: CarriedTurn::Unread { author_is_human: false } }
    ));
    assert!(matches!(
        frame(echoed),
        InboundFrame::AddTurn { turn: CarriedTurn::Unread { author_is_human: true } }
    ));
    assert!(matches!(partial(), InboundFrame::AddTurn { turn: CarriedTurn::Read(_) }));
    assert_eq!(ChatMethods::update_primary_candidate_step(&Incoming::Frame(frame(bare))), None);
    assert!(ChatMethods::update_primary_candidate(&Ok(vec![
        frame(bare),
        frame(wrong),
        frame(r#"{"command":"ok"}"#)
    ])));
    let (chat, greeting) =
        ChatMethods::create_chat(&vec![frame(wrong), frame(echoed), confirmation()], false).unwrap();
    assert_eq!(chat.chat_id, "chat-1");
    assert!(greeting.is_none());
    assert!(matches!(
        ChatMethods::create_chat(&vec![confirmation(), frame(bare), greeting_turn()], true),
        Err(ProtocolError::Decode(DecodeError::MalformedTurn))
    ));
    let (turns, end) = decode_all(&vec![frame(echoed), partial(), complete()]);
    assert_eq!(turns.len(), 2);
    assert!(end.is_ok());
    let (turns, end) = decode_all(&vec![partial(), frame(wrong), complete()]);
    assert_eq!(turns.len(), 1);
    assert!(matches!(end, Err(StreamError::Decode(DecodeError::MalformedTurn))));
    let mut requester = Requester::new();
    let message = serde_json::from_str::<serde_json::Value>("{}").unwrap();
    requester.ws_connect("tok");
    requester.ws_connected(true).unwrap();
    let access = match requester.ws_send_and_receive(&message, "tok") {
        InvokeStep::Send { access, .. } => access,
        _ => panic!("not admitted"),
    };
    for text in [bare, wrong, echoed, "7", "null", r#"{"command":7}"#] {
        let read = TransportRead::Message(WireMessage::Text(text.to_string()));
        assert!(matches!(requester.ws_receive(&access, read), Incoming::Frame(_)));
    }
    assert!(requester.ws_release(access));
}

#[test]
fn dispatch_failures_keep_their_kind() {
    for kind in [
        ConnectionError::DialFailed,
        ConnectionError::NotConnected,
        ConnectionError::SendFailed,
        ConnectionError::ReadFailed,
    ] {
        let failed = RequesterError::from_connection(kind);
        assert_eq!(failed.connection_kind(), Some(kind));
        assert!(
            matches!(StreamError::from_dispatch(&failed), StreamError::Connection(k) if k == kind)
        );
    }
    assert_eq!(RequesterError::WsError("else".into()).connection_kind(), None);
    assert_eq!(RequesterError::AuthenticationError.connection_kind(), None);
    assert_eq!(
        RequesterError::RequestFailed("websocket.send failed".into()).connection_kind(),
        None
    );
    assert!(matches!(
        StreamError::from_dispatch(&RequesterError::AuthenticationError),
        StreamError::Connection(ConnectionError::NotConnected)
    ));
    let mut requester = Requester::new();
    requester.ws_connect("tok");
    let refused = requester.ws_connected(false).unwrap_err();
    assert!(matches!(
        StreamError::from_dispatch(&refused),
        StreamError::Connection(ConnectionError::DialFailed)
    ));
}

#[test]
fn closing_early_is_stream_terminated() {
    let mut decoder = TurnStreamDecoder::new();
    decoder.on_frame(partial());
    assert!(matches!(decoder.on_close(), Err(StreamError::StreamTerminated)));
    assert!(decoder.is_terminal());
    let mut failed = TurnStreamDecoder::new();
    failed.on_failure(StreamError::Decode(DecodeError::InvalidJson));
    assert!(matches!(failed.on_close(), Err(StreamError::Decode(DecodeError::InvalidJson))));
    let mut dead = TurnStreamDecoder::new();
    dead.on_failure(StreamError::Connection(ConnectionError::ReadFailed));
    assert!(matches!(
        dead.on_close(),
        Err(StreamError::Connection(ConnectionError::ReadFailed))
    ));
}

#[test]
fn send_message_returns_the_newest_snapshot() {
    let reply = ChatMethods::send_message(&vec![echo(), partial(), complete()]).unwrap();
    assert_eq!(reply.get_primary_candidate().unwrap().text, "Hello");
    let cut = ChatMethods::send_message(&vec![partial()]).unwrap();
    assert_eq!(cut.get_primary_candidate().unwrap().text, "He");
    assert!(matches!(
        ChatMethods::send_message(&vec![echo()]),
        Err(StreamError::StreamTerminated)
    ));
    assert!(matches!(
        ChatMethods::send_message(&vec![partial(), refusal("x")]),
        Err(StreamError::GenerationError(_))
    ));
    let (turns, end) = ChatMethods::send_message_stream(&vec![partial(), complete()]);
    assert_eq!(turns.len(), 2);
    assert!(end.is_ok());
}

#[test]
fn create_chat_without_greeting_returns_on_confirmation() {
    let (chat, greeting) =
        ChatMethods::create_chat(&vec![confirmation(), greeting_turn()], false).unwrap();
    assert_eq!(chat.chat_id, "chat-1");
    assert_eq!(chat.character_id, "char-1");
    assert!(greeting.is_none());
    let mut reader = CreateChatReader::new(false);
    assert!(!reader.is_terminal());
    assert!(reader.on_frame(confirmation()));
    assert!(reader.is_terminal());
}

#[test]
fn create_chat_waits_for_the_greeting() {
    let (chat, greeting) =
        ChatMethods::create_chat(&vec![confirmation(), echo(), greeting_turn()], true).unwrap();
    assert_eq!(chat.chat_id, "chat-1");
    let greeting = greeting.unwrap();
    assert_eq!(greeting.id, "g1");
    assert_eq!(greeting.author_name, "Bot");
    assert_eq!(greeting.get_primary_candidate().unwrap().text, "Hi there");
}

#[test]
fn create_chat_without_greeting_arriving_is_incomplete() {
    assert!(matches!(
        ChatMethods::create_chat(&vec![confirmation()], true),
        Err(ProtocolError::Incomplete)
    ));
    assert!(matches!(
        ChatMethods::create_chat(&vec![confirmation(), confirmation(), echo()], true),
        Err(ProtocolError::Incomplete)
    ));
    assert!(matches!(ChatMethods::create_chat(&vec![], false), Err(ProtocolError::Incomplete)));
    assert!(matches!(
        ChatMethods::create_chat(&vec![greeting_turn(), confirmation()], true),
        Err(ProtocolError::Incomplete)
    ));
}

#[test]
fn create_chat_refusal_carries_the_comment() {
    match ChatMethods::create_chat(&vec![refusal("no such character"), confirmation()], false) {
        Err(ProtocolError::Refused(comment)) => assert_eq!(comment, "no such character"),
        _ => panic!("the refusal was lost"),
    }
    let mut reader = CreateChatReader::new(true);
    reader.on_failure(ProtocolError::Decode(DecodeError::MalformedTurn));
    assert!(matches!(reader.finish(), Err(ProtocolError::Decode(DecodeError::MalformedTurn))));
    let mut dead = CreateChatReader::new(true);
    dead.on_failure(ProtocolError::Connection(ConnectionError::SendFailed));
    assert!(matches!(
        dead.finish(),
        Err(ProtocolError::Connection(ConnectionError::SendFailed))
    ));
}

#[test]
fn update_primary_candidate_refused_is_false() {
    assert!(!ChatMethods::update_primary_candidate(&Ok(vec![refusal("not found")])));
    assert!(ChatMethods::update_primary_candidate(&Ok(vec![
        echo(),
        frame(r#"{"command":"ok"}"#),
        refusal("late")
    ])));
    assert!(!ChatMethods::update_primary_candidate(&Ok(vec![])));
    assert!(!ChatMethods::update_primary_candidate(&Ok(vec![echo(), partial()])));
    assert!(!ChatMethods::update_primary_candidate(&Err(RequesterError::WsError(
        "down".to_string()
    ))));
}

#[test]
fn frames_are_told_apart_by_command() {
    assert!(matches!(frame(r#"{"command":"ok"}"#), InboundFrame::Acknowledged));
    assert!(matches!(frame(r#"{"command":"pong"}"#), InboundFrame::Other));
    assert!(matches!(frame(r#"{"no_command":1}"#), InboundFrame::Other));
    assert!(matches!(frame(r#"[1,2]"#), InboundFrame::Other));
    match frame(r#"{"command":"neo_error"}"#) {
        InboundFrame::NeoError { comment } => assert_eq!(comment, ""),
        _ => panic!("no refusal"),
    }
    match frame(r#"{"command":"create_chat_response"}"#) {
        InboundFrame::CreateChatResponse { chat } => assert_eq!(chat.chat_id, ""),
        _ => panic!("no confirmation"),
    }
    assert!(matches!(InboundFrame::decode_frame("{not json"), Err(DecodeError::InvalidJson)));
    assert!(matches!(InboundFrame::decode_frame(""), Err(DecodeError::InvalidJson)));
    assert!(InboundFrame::decode_frame(r#"{"command":"add_turn"}"#).is_ok());
    assert!(InboundFrame::decode_frame(r#"{"command":"update_turn","turn":{"id":5}}"#).is_ok());
    assert_eq!(DecodeError::InvalidJson.describe(), "invalid JSON received");
    assert_eq!(DecodeError::MalformedTurn.describe(), "the turn of a frame cannot be read");
}

#[test]
fn envelope_encodes_to_one_json_object() {
    let payload = serde_json::from_str::<serde_json::Value>(r#"{"x":[1,true,null]}"#).unwrap();
    let envelope = CommandEnvelope::new("create_chat", "r-1", "web-next", payload);
    let text = envelope.encode();
    assert_eq!(
        text,
        r#"{"command":"create_chat","origin_id":"web-next","payload":{"x":[1,true,null]},"request_id":"r-1"}"#
    );
    assert_eq!(text, envelope.encode());
}

#[test]
fn gate_admits_one_holder_at_a_time() {
    let mut gate = SessionGate::new();
    assert!(!gate.is_held());
    let first = gate.try_acquire().unwrap();
    assert!(gate.is_held());
    assert!(gate.permits(&first));
    assert!(gate.try_acquire().is_none());
    assert!(gate.release(first));
    assert!(!gate.is_held());
    let second = gate.try_acquire().unwrap();
    assert!(gate.permits(&second));
    let mut other = SessionGate::new();
    let stranger = other.try_acquire().unwrap();
    assert!(!gate.release(stranger));
    assert!(gate.is_held());
    assert!(gate.release(second));
}

#[test]
fn connection_moves_through_its_states() {
    let mut connection = Connection::new();
    assert_eq!(connection.current_state(), ConnectionState::Disconnected);
    assert!(!connection.is_connected());
    match connection.connect("tok") {
        ConnectStep::Dial { request } => {
            assert_eq!(request.url, "wss://neo.character.ai/ws/");
            assert_eq!(request.cookie, "HTTP_AUTHORIZATION=\"Token tok\"");
            assert!(request.user_agent.starts_with("Mozilla/5.0"));
        }
        ConnectStep::Ready => panic!("nothing was dialled"),
    }
    assert_eq!(connection.current_state(), ConnectionState::Connecting);
    assert_eq!(connection.dialed(false), Err(ConnectionError::DialFailed));
    assert_eq!(connection.current_state(), ConnectionState::Disconnected);
    connection.connect("tok");
    assert_eq!(connection.dialed(true), Ok(()));
    assert!(connection.is_connected());
    assert!(matches!(connection.connect("tok"), ConnectStep::Ready));
    assert!(connection.is_connected());
    connection.dropped();
    assert_eq!(connection.current_state(), ConnectionState::Disconnected);
    connection.connect("tok");
    connection.dialed(true).unwrap();
    assert!(connection.close());
    assert_eq!(connection.current_state(), ConnectionState::Closed);
    assert!(!connection.close());
}

#[test]
fn second_operation_waits_for_the_first() {
    let mut requester = Requester::new();
    let message = serde_json::from_str::<serde_json::Value>(r#"{"command":"x"}"#).unwrap();
    assert!(matches!(requester.ws_send_and_receive(&message, "tok"), InvokeStep::Dial { .. }));
    assert!(requester.ws_connected(true).is_ok());
    let first = match requester.ws_send_and_receive(&message, "tok") {
        InvokeStep::Send { access, text } => {
            assert_eq!(text, r#"{"command":"x"}"#);
            access
        }
        _ => panic!("the first operation was not admitted"),
    };
    assert!(matches!(requester.ws_send_and_receive(&message, "tok"), InvokeStep::Wait));
    assert!(requester.ws_sent(true).is_ok());
    let read = TransportRead::Message(WireMessage::Text(r#"{"command":"ok"}"#.to_string()));
    assert!(matches!(
        requester.ws_receive(&first, read),
        Incoming::Frame(InboundFrame::Acknowledged)
    ));
    assert!(requester.ws_release(first));
    let second = match requester.ws_send_and_receive(&message, "tok") {
        InvokeStep::Send { access, .. } => access,
        _ => panic!("the second operation was not admitted"),
    };
    assert!(requester.ws_release(second));
}

#[test]
fn reads_are_classified() {
    let mut requester = Requester::new();
    let message = serde_json::from_str::<serde_json::Value>("{}").unwrap();
    requester.ws_connect("tok");
    requester.ws_connected(true).unwrap();
    let access = match requester.ws_send_and_receive(&message, "tok") {
        InvokeStep::Send { access, .. } => access,
        _ => panic!("not admitted"),
    };
    assert!(matches!(
        requester.ws_receive(&access, TransportRead::Message(WireMessage::Binary)),
        Incoming::Skipped
    ));
    assert!(matches!(
        requester.ws_receive(&access, TransportRead::Message(WireMessage::Ping)),
        Incoming::Skipped
    ));
    assert!(matches!(
        requester.ws_receive(&access, TransportRead::Message(WireMessage::Text("]".into()))),
        Incoming::Undecodable(DecodeError::InvalidJson)
    ));
    assert!(matches!(
        requester.ws_receive(&access, TransportRead::Message(WireMessage::Close)),
        Incoming::Closed
    ));
    assert!(matches!(requester.ws_receive(&access, TransportRead::End), Incoming::Closed));
    match requester.ws_receive(&access, TransportRead::Failed("reset".to_string())) {
        Incoming::Failed(RequesterError::WsError(m)) => {
            assert_eq!(m, "WebSocket read error: reset")
        }
        _ => panic!("the failure was lost"),
    }
    assert!(!requester.is_connected());
    assert_eq!(
        requester.ws_send(&access, &message),
        Err(RequesterError::WsError("could not obtain websocket".to_string()))
    );
    assert!(requester.ws_release(access));
}

#[test]
fn only_the_holder_sends_and_reads() {
    let mut requester = Requester::new();
    let mut elsewhere = Requester::new();
    let message = serde_json::from_str::<serde_json::Value>("{}").unwrap();
    for r in [&mut requester, &mut elsewhere] {
        r.ws_connect("tok");
        r.ws_connected(true).unwrap();
    }
    let stale = match elsewhere.ws_send_and_receive(&message, "tok") {
        InvokeStep::Send { access, .. } => access,
        _ => panic!("not admitted"),
    };
    assert_eq!(
        requester.ws_send(&stale, &message),
        Err(RequesterError::WsError("the connection is held by another operation".to_string()))
    );
    assert!(matches!(
        requester.ws_receive(&stale, TransportRead::End),
        Incoming::Failed(RequesterError::WsError(_))
    ));
    assert_eq!(
        requester.ws_sent(false),
        Err(RequesterError::WsError("websocket.send failed".to_string()))
    );
    assert_eq!(
        Requester::new().ws_connected(false),
        Err(RequesterError::WsError(
            "could not connect to websocket url wss://neo.character.ai/ws/".to_string()
        ))
    );
}

#[test]
fn abandoned_operation_closes_the_connection() {
    let mut requester = Requester::new();
    let message = serde_json::from_str::<serde_json::Value>("{}").unwrap();
    requester.ws_connect("tok");
    requester.ws_connected(true).unwrap();
    let access = match requester.ws_send_and_receive(&message, "tok") {
        InvokeStep::Send { access, .. } => access,
        _ => panic!("not admitted"),
    };
    assert!(requester.ws_abandon(access));
    assert!(!requester.is_connected());
    assert!(matches!(requester.ws_send_and_receive(&message, "tok"), InvokeStep::Dial { .. }));
    requester.ws_connected(true).unwrap();
    let mut elsewhere = Requester::new();
    elsewhere.ws_connect("tok");
    elsewhere.ws_connected(true).unwrap();
    let stranger = match elsewhere.ws_send_and_receive(&message, "tok") {
        InvokeStep::Send { access, .. } => access,
        _ => panic!("not admitted"),
    };
    assert!(!requester.ws_abandon(stranger));
    assert!(requester.is_connected());
}

#[test]
fn connection_failures_are_described() {
    assert_eq!(
        ConnectionError::DialFailed.describe(),
        "could not connect to websocket url wss://neo.character.ai/ws/"
    );
    assert_eq!(ConnectionError::NotConnected.describe(), "could not obtain websocket");
    assert_eq!(ConnectionError::SendFailed.describe(), "websocket.send failed");
    assert_eq!(ConnectionError::ReadFailed.describe(), "WebSocket read error");
    assert_eq!(
        RequesterError::from_connection(ConnectionError::SendFailed),
        RequesterError::WsError("websocket.send failed".to_string())
    );
}

#[test]
fn reads_drive_the_decoder() {
    let mut decoder = TurnStreamDecoder::new();
    assert!(matches!(decoder.on_incoming(Incoming::Skipped), DecodeStep::Nothing));
    assert!(matches!(
        decoder.on_incoming(Incoming::Frame(partial())),
        DecodeStep::Yield { last: false, .. }
    ));
    assert!(matches!(
        decoder.on_incoming(Incoming::Closed),
        DecodeStep::Fail { error: StreamError::StreamTerminated }
    ));
    assert!(matches!(decoder.on_incoming(Incoming::Frame(complete())), DecodeStep::Nothing));
    let mut broken = TurnStreamDecoder::new();
    assert!(matches!(
        broken.on_incoming(Incoming::Undecodable(DecodeError::InvalidJson)),
        DecodeStep::Fail { error: StreamError::Decode(DecodeError::InvalidJson) }
    ));
    let mut dead = TurnStreamDecoder::new();
    assert!(matches!(
        dead.on_incoming(Incoming::Failed(RequesterError::WsError("x".into()))),
        DecodeStep::Fail { error: StreamError::Connection(ConnectionError::ReadFailed) }
    ));
    let mut done = TurnStreamDecoder::new();
    done.on_incoming(Incoming::Frame(complete()));
    assert!(matches!(done.on_incoming(Incoming::Closed), DecodeStep::Nothing));
    assert!(done.on_close().is_ok());
}

#[test]
fn reads_drive_create_chat() {
    let mut reader = CreateChatReader::new(true);
    assert!(!reader.on_incoming(Incoming::Skipped));
    assert!(!reader.on_incoming(Incoming::Frame(confirmation())));
    assert!(reader.on_incoming(Incoming::Closed));
    assert!(matches!(reader.finish(), Err(ProtocolError::Incomplete)));
    let mut broken = CreateChatReader::new(false);
    assert!(broken.on_incoming(Incoming::Undecodable(DecodeError::InvalidJson)));
    assert!(matches!(broken.finish(), Err(ProtocolError::Decode(DecodeError::InvalidJson))));
    let mut dead = CreateChatReader::new(false);
    assert!(dead.on_incoming(Incoming::Failed(RequesterError::WsError("x".into()))));
    assert!(matches!(
        dead.finish(),
        Err(ProtocolError::Connection(ConnectionError::ReadFailed))
    ));
    let mut done = CreateChatReader::new(false);
    assert!(done.on_incoming(Incoming::Frame(confirmation())));
    assert!(done.on_incoming(Incoming::Skipped));
    assert!(done.finish().is_ok());
}

#[test]
fn reads_settle_update_primary_candidate() {
    let ok = Incoming::Frame(frame(r#"{"command":"ok"}"#));
    assert_eq!(ChatMethods::update_primary_candidate_step(&ok), Some(true));
    let refused = Incoming::Frame(refusal("not found"));
    assert_eq!(ChatMethods::update_primary_candidate_step(&refused), Some(false));
    assert_eq!(ChatMethods::update_primary_candidate_step(&Incoming::Frame(echo())), None);
    assert_eq!(ChatMethods::update_primary_candidate_step(&Incoming::Skipped), None);
    assert_eq!(ChatMethods::update_primary_candidate_step(&Incoming::Closed), Some(false));
    assert_eq!(
        ChatMethods::update_primary_candidate_step(&Incoming::Undecodable(
            DecodeError::InvalidJson
        )),
        Some(false)
    );
    assert_eq!(
        ChatMethods::update_primary_candidate_step(&Incoming::Failed(
            RequesterError::AuthenticationError
        )),
        Some(false)
    );
}

#[test]
fn protocol_failures_are_named() {
    assert_eq!(
        ChatMethods::create_chat_failure(ProtocolError::Refused("full".into())),
        RequesterError::WsError("cannot create a new chat: full".to_string())
    );
    assert_eq!(
        ChatMethods::create_chat_failure(ProtocolError::Incomplete),
        RequesterError::WsError("Cannot create a new chat.".to_string())
    );
    assert_eq!(
        ChatMethods::create_chat_failure(ProtocolError::Decode(DecodeError::InvalidJson)),
        RequesterError::WsError("invalid JSON received".to_string())
    );
    assert_eq!(
        ChatMethods::create_chat_failure(ProtocolError::Connection(ConnectionError::ReadFailed)),
        RequesterError::WsError("WebSocket read error".to_string())
    );
    assert_eq!(
        ChatMethods::send_message_failure(StreamError::GenerationError("busy".into())),
        RequesterError::WsError("cannot send message: busy".to_string())
    );
    assert_eq!(
        ChatMethods::send_message_failure(StreamError::StreamTerminated),
        RequesterError::RequestFailed("could not find Turn".to_string())
    );
    assert_eq!(
        ChatMethods::send_message_failure(StreamError::Decode(DecodeError::MalformedTurn)),
        RequesterError::WsError("the turn of a frame cannot be read".to_string())
    );
    assert_eq!(
        ChatMethods::send_message_failure(StreamError::Decode(DecodeError::InvalidJson)),
        RequesterError::WsError("invalid JSON received".to_string())
    );
    assert_eq!(
        ChatMethods::create_chat_failure(ProtocolError::Decode(DecodeError::MalformedTurn)),
        RequesterError::WsError("the turn of a frame cannot be read".to_string())
    );
    assert_eq!(
        ChatMethods::send_message_failure(StreamError::Connection(ConnectionError::NotConnected)),
        RequesterError::WsError("could not obtain websocket".to_string())
    );
    assert!(ChatMethods::reply_of(None, Ok(())).is_err());
    assert!(matches!(ChatMethods::reply_of(None, Ok(())), Err(StreamError::StreamTerminated)));
    assert!(matches!(
        ChatMethods::reply_of(None, Err(StreamError::Decode(DecodeError::InvalidJson))),
        Err(StreamError::Decode(DecodeError::InvalidJson))
    ));
}
