use aichat_relay::error::RelayError;
use aichat_relay::stream::{
    open_stream, pump_all, BodyEvent, EventKind, StreamEvent, StreamPump, StreamStart,
};

fn chunk(text: &str) -> BodyEvent {
    BodyEvent::Chunk(text.as_bytes().to_vec())
}

fn data(id: &str, text: &str) -> StreamEvent {
    StreamEvent {
        stream_id: id.to_string(),
        event_type: EventKind::Data,
        data: Some(text.to_string()),
        error: None,
    }
}

fn end(id: &str) -> StreamEvent {
    StreamEvent { stream_id: id.to_string(), event_type: EventKind::End, data: None, error: None }
}

fn error(id: &str, message: &str) -> StreamEvent {
    StreamEvent {
        stream_id: id.to_string(),
        event_type: EventKind::Error,
        data: None,
        error: Some(message.to_string()),
    }
}

#[test]
fn status_500_refuses_the_stream_with_one_error_event() {
    match open_stream("s1", Ok(500)) {
        StreamStart::Refused { event, error: e } => {
            assert_eq!(event, error("s1", "HTTP error: 500"));
            assert_eq!(e, RelayError::HttpStatus(500));
        },
        StreamStart::Started { .. } => panic!("the stream started"),
    }
}

#[test]
fn two_chunks_give_two_data_events_then_end() {
    let events = pump_all("s1", vec![chunk("abc"), chunk("def"), BodyEvent::Finished]);
    assert_eq!(events, vec![data("s1", "abc"), data("s1", "def"), end("s1")]);
}

#[test]
fn non_success_status_refuses_the_stream() {
    for status in [0u16, 100, 199, 300, 404, 503, 999] {
        assert!(matches!(open_stream("s", Ok(status)), StreamStart::Refused { .. }));
    }
    for status in [200u16, 201, 299] {
        assert!(matches!(open_stream("s", Ok(status)), StreamStart::Started { .. }));
    }
}

#[test]
fn failed_send_refuses_the_stream() {
    match open_stream("s2", Err("connection refused".to_string())) {
        StreamStart::Refused { event, error: e } => {
            assert_eq!(event, error("s2", "流式HTTP请求失败: connection refused"));
            assert_eq!(e, RelayError::Transport("connection refused".to_string()));
        },
        StreamStart::Started { .. } => panic!("the stream started"),
    }
}

#[test]
fn started_stream_is_acknowledged() {
    match open_stream("s3", Ok(200)) {
        StreamStart::Started { ack, pump } => {
            assert_eq!(ack, "流式请求已启动，Stream ID: s3");
            assert!(!pump.is_finished());
        },
        StreamStart::Refused { .. } => panic!("the stream was refused"),
    }
}

#[test]
fn empty_body_gives_end_alone() {
    assert_eq!(pump_all("s", vec![BodyEvent::Finished]), vec![end("s")]);
}

#[test]
fn unfinished_body_has_no_terminal_event() {
    assert_eq!(pump_all("s", vec![]), vec![]);
    assert_eq!(pump_all("s", vec![chunk("a")]), vec![data("s", "a")]);
}

#[test]
fn chunk_that_is_not_utf8_is_skipped() {
    let events = pump_all(
        "s",
        vec![chunk("a"), BodyEvent::Chunk(vec![0xff, 0xfe]), chunk("b"), BodyEvent::Finished],
    );
    assert_eq!(events, vec![data("s", "a"), data("s", "b"), end("s")]);
}

#[test]
fn character_split_across_chunks_is_lost() {
    let bytes = "é".as_bytes();
    let events = pump_all(
        "s",
        vec![
            BodyEvent::Chunk(vec![b'a', bytes[0]]),
            BodyEvent::Chunk(vec![bytes[1], b'b']),
            chunk("é"),
            BodyEvent::Finished,
        ],
    );
    assert_eq!(events, vec![data("s", "é"), end("s")]);
}

#[test]
fn empty_chunk_is_an_empty_data_event() {
    assert_eq!(pump_all("s", vec![chunk(""), BodyEvent::Finished]), vec![data("s", ""), end("s")]);
}

#[test]
fn failed_read_gives_error_and_no_end() {
    let events = pump_all(
        "s",
        vec![chunk("a"), BodyEvent::Failed("reset".to_string()), chunk("b"), BodyEvent::Finished],
    );
    assert_eq!(events, vec![data("s", "a"), error("s", "读取流式数据失败: reset")]);
}

#[test]
fn nothing_follows_the_end() {
    let events = pump_all(
        "s",
        vec![BodyEvent::Finished, chunk("late"), BodyEvent::Failed("x".to_string()), BodyEvent::Finished],
    );
    assert_eq!(events, vec![end("s")]);
}

#[test]
fn pump_steps_one_event_at_a_time() {
    let mut pump = StreamPump::new("p");
    assert!(!pump.is_finished());
    assert_eq!(pump.step(chunk("x")), Some(data("p", "x")));
    assert!(!pump.is_finished());
    assert_eq!(pump.step(BodyEvent::Chunk(vec![0x80])), None);
    assert!(!pump.is_finished());
    assert_eq!(pump.step(BodyEvent::Finished), Some(end("p")));
    assert!(pump.is_finished());
    assert_eq!(pump.step(chunk("y")), None);
    assert_eq!(pump.step(BodyEvent::Finished), None);
    assert_eq!(pump.step(BodyEvent::Failed("z".to_string())), None);
    assert!(pump.is_finished());
}

#[test]
fn pump_finishes_on_a_failed_read() {
    let mut pump = StreamPump::new("p");
    assert_eq!(pump.step(BodyEvent::Failed("eof".to_string())), Some(error("p", "读取流式数据失败: eof")));
    assert!(pump.is_finished());
    assert_eq!(pump.step(BodyEvent::Finished), None);
}

#[test]
fn every_trace_has_its_terminal_event_last() {
    let bodies: Vec<Vec<BodyEvent>> = vec![
        vec![],
        vec![chunk("a"), chunk("b")],
        vec![chunk("a"), BodyEvent::Finished],
        vec![BodyEvent::Failed("f".to_string()), BodyEvent::Finished],
        vec![chunk("a"), BodyEvent::Finished, BodyEvent::Failed("f".to_string())],
        vec![BodyEvent::Chunk(vec![0xc0]), BodyEvent::Failed("f".to_string())],
    ];
    for body in bodies {
        let closes = body.iter().any(|e| !matches!(e, BodyEvent::Chunk(_)));
        let trace = pump_all("t", body);
        let terminal: Vec<usize> = trace
            .iter()
            .enumerate()
            .filter(|(_, e)| e.event_type != EventKind::Data)
            .map(|(i, _)| i)
            .collect();
        if closes {
            assert_eq!(terminal, vec![trace.len() - 1]);
        } else {
            assert!(terminal.is_empty());
        }
        assert!(trace.iter().all(|e| e.stream_id == "t"));
    }
}

#[test]
fn concurrent_streams_keep_their_own_order() {
    let body_a = vec![chunk("a1"), chunk("a2"), BodyEvent::Finished];
    let body_b = vec![chunk("b1"), BodyEvent::Failed("cut".to_string()), chunk("b2")];
    let mut pump_a = StreamPump::new("a");
    let mut pump_b = StreamPump::new("b");
    let mut merged: Vec<StreamEvent> = Vec::new();
    let mut a = body_a.clone().into_iter();
    let mut b = body_b.clone().into_iter();
    // b, a, a, b, b, a
    for turn in ["b", "a", "a", "b", "b", "a"] {
        let emitted = if turn == "a" {
            pump_a.step(a.next().unwrap())
        } else {
            pump_b.step(b.next().unwrap())
        };
        merged.extend(emitted);
    }
    let of_a: Vec<StreamEvent> = merged.iter().filter(|e| e.stream_id == "a").cloned().collect();
    let of_b: Vec<StreamEvent> = merged.iter().filter(|e| e.stream_id == "b").cloned().collect();
    assert_eq!(of_a, pump_all("a", body_a));
    assert_eq!(of_b, pump_all("b", body_b));
    assert_eq!(of_a, vec![data("a", "a1"), data("a", "a2"), end("a")]);
    assert_eq!(of_b, vec![data("b", "b1"), error("b", "读取流式数据失败: cut")]);
    assert_eq!(merged.len(), 5);
}

#[test]
fn event_kinds_have_their_names() {
    assert_eq!(EventKind::Data.name(), "data");
    assert_eq!(EventKind::End.name(), "end");
    assert_eq!(EventKind::Error.name(), "error");
}

#[test]
fn events_are_built_by_kind() {
    assert_eq!(StreamEvent::data("i", "t".to_string()), data("i", "t"));
    assert_eq!(StreamEvent::end("i"), end("i"));
    assert_eq!(StreamEvent::error("i", "m".to_string()), error("i", "m"));
}
