use model_provider::sse::{SseByteStream, SseEvent, SseParser, SseStep};

fn events_in_chunks(chunks: &[&[u8]]) -> Vec<SseEvent> {
    let mut p = SseParser::new();
    for c in chunks {
        p.push_bytes(c);
    }
    p.finalize();
    let mut out = Vec::new();
    while let Some(ev) = p.pop_event() {
        out.push(ev);
    }
    out
}

fn ev(event: Option<&str>, data: &str) -> SseEvent {
    SseEvent { event: event.map(|s| s.to_string()), data: data.to_string() }
}

#[test]
fn parses_events_with_names_and_data() {
    let body = b"event: message_start\ndata: {\"a\":1}\n\ndata: second\n\n";
    let got = events_in_chunks(&[body]);
    assert_eq!(got, vec![ev(Some("message_start"), "{\"a\":1}"), ev(None, "second")]);
}

#[test]
fn joins_data_lines_and_skips_comments() {
    let body = b": keep-alive\ndata: one\ndata:  two\r\n\r\n";
    let got = events_in_chunks(&[body]);
    assert_eq!(got, vec![ev(None, "one\ntwo")]);
}

#[test]
fn event_without_data_is_kept_and_empty_lines_alone_are_not() {
    let got = events_in_chunks(&[b"\n\nevent: ping\n\n\n"]);
    assert_eq!(got, vec![ev(Some("ping"), "")]);
}

#[test]
fn last_line_without_newline_is_read_at_the_end() {
    let got = events_in_chunks(&[b"data: tail"]);
    assert_eq!(got, vec![ev(None, "tail")]);
}

#[test]
fn chunk_boundaries_do_not_change_the_events() {
    let body: &[u8] = b"event: a\ndata: x\n\ndata: y\ndata: z\n\nevent: b\r\ndata: w";
    let whole = events_in_chunks(&[body]);
    for cut in 0..=body.len() {
        let (l, r) = body.split_at(cut);
        assert_eq!(events_in_chunks(&[l, r]), whole, "cut at {}", cut);
    }
    let bytes: Vec<&[u8]> = body.chunks(1).collect();
    assert_eq!(events_in_chunks(&bytes), whole);
}

#[test]
fn byte_stream_emits_in_order_then_ends() {
    let mut s = SseByteStream::new(());
    assert!(matches!(s.next_step(), SseStep::NeedInput));
    s.on_bytes(b"data: 1\n\ndata: 2\n");
    match s.next_step() {
        SseStep::Emit(e) => assert_eq!(e, ev(None, "1")),
        _ => panic!("expected an event"),
    }
    assert!(matches!(s.next_step(), SseStep::NeedInput));
    s.on_bytes(b"\n");
    match s.next_step() {
        SseStep::Emit(e) => assert_eq!(e, ev(None, "2")),
        _ => panic!("expected an event"),
    }
    s.on_end();
    assert!(matches!(s.next_step(), SseStep::Done));
}

#[test]
fn byte_stream_flushes_pending_event_at_end() {
    let mut s = SseByteStream::new(());
    s.on_bytes(b"event: message_stop\ndata: {}");
    assert!(matches!(s.next_step(), SseStep::NeedInput));
    s.on_end();
    match s.next_step() {
        SseStep::Emit(e) => assert_eq!(e, ev(Some("message_stop"), "{}")),
        _ => panic!("expected an event"),
    }
    assert!(matches!(s.next_step(), SseStep::Done));
}

#[test]
fn invalid_utf8_in_a_line_becomes_replacement_characters() {
    let got = events_in_chunks(&[b"data: a\xffb\n\n", b"data: \xe4\xb8\xad"]);
    assert_eq!(got, vec![ev(None, "a\u{fffd}b"), ev(None, "\u{4e2d}")]);
}
