use gateway_core::cache_service::CacheSource;
use gateway_core::stream::{
    chunk_pieces, event_chunks, frame_final_line, frame_meta_event, frame_token_line,
    line_tokens, space_words, split_words, write_done_event, write_final_line,
    write_meta_event, write_source, write_token_event, write_token_line, Protocol,
    StreamEmitter, StreamStep, CHANNEL_CAPACITY, CHUNK_DELAY_MS, WORDS_PER_CHUNK,
};

fn strings(items: &[&str]) -> Vec<String> {
    items.iter().map(|item| item.to_string()).collect()
}

fn emitter(protocol: Protocol, response: &str) -> StreamEmitter {
    StreamEmitter::new(
        protocol,
        response,
        "m".to_string(),
        true,
        Some(CacheSource::Memory),
        "c-1".to_string(),
    )
}

fn run(mut emitter: StreamEmitter) -> Vec<(String, u64)> {
    let mut frames = Vec::new();
    loop {
        match emitter.next("T") {
            StreamStep::Emit { frame, pause_ms } => frames.push((frame, pause_ms)),
            StreamStep::Finished => break,
        }
        assert!(frames.len() < 1000);
    }
    assert!(matches!(emitter.next("T"), StreamStep::Finished));
    frames
}

#[test]
fn stream_constants() {
    assert_eq!(WORDS_PER_CHUNK, 3);
    assert_eq!(CHUNK_DELAY_MS, 60);
    assert_eq!(CHANNEL_CAPACITY, 32);
}

#[test]
fn words_are_cut_at_white_space() {
    assert_eq!(split_words("hello world"), strings(&["hello", "world"]));
    assert_eq!(split_words("  a\tb\n\nc  "), strings(&["a", "b", "c"]));
    assert_eq!(split_words("one"), strings(&["one"]));
    assert_eq!(split_words(""), Vec::<String>::new());
    assert_eq!(split_words(" \n "), Vec::<String>::new());
    assert_eq!(split_words("a\u{a0}b\u{3000}c"), strings(&["a", "b", "c"]));
    assert_eq!(split_words("héllo wörld!"), strings(&["héllo", "wörld!"]));
}

#[test]
fn words_agree_with_the_standard_split() {
    for text in ["", " ", "a", " a", "a ", "a  b", "x\ty\r\nz", "the quick  brown\nfox "] {
        let expected: Vec<String> = text.split_whitespace().map(|word| word.to_string()).collect();
        assert_eq!(split_words(text), expected);
    }
}

#[test]
fn every_piece_but_the_first_begins_with_a_space() {
    assert_eq!(space_words(&strings(&["a", "b", "c"])), strings(&["a", " b", " c"]));
    assert_eq!(space_words(&strings(&["a"])), strings(&["a"]));
    assert_eq!(space_words(&Vec::new()), Vec::<String>::new());
    assert_eq!(line_tokens("hello  big world"), strings(&["hello", " big", " world"]));
}

#[test]
fn pieces_are_grouped_by_three() {
    assert_eq!(chunk_pieces(&Vec::new()), Vec::<String>::new());
    assert_eq!(chunk_pieces(&strings(&["a"])), strings(&["a"]));
    assert_eq!(chunk_pieces(&strings(&["a", " b", " c"])), strings(&["a b c"]));
    assert_eq!(chunk_pieces(&strings(&["a", " b", " c", " d"])), strings(&["a b c", " d"]));
    assert_eq!(
        event_chunks("one two three four five six seven"),
        strings(&["one two three", " four five six", " seven"])
    );
    assert_eq!(event_chunks("a b c d e f"), strings(&["a b c", " d e f"]));
}

#[test]
fn pieces_spell_a_single_spaced_response_exactly() {
    for text in ["", "hello", "hello world", "a b c d e f g h i j", "ünï cödé ok"] {
        assert_eq!(line_tokens(text).concat(), text);
        assert_eq!(event_chunks(text).concat(), text);
    }
}

#[test]
fn pieces_spell_other_responses_with_single_spaces() {
    assert_eq!(line_tokens("a  b").concat(), "a b");
    assert_eq!(event_chunks("a  b").concat(), "a b");
    assert_eq!(line_tokens(" a\nb ").concat(), "a b");
    assert_eq!(event_chunks("a\tb\tc\td").concat(), "a b c d");
}

#[test]
fn token_line_is_one_json_object_on_a_line() {
    assert_eq!(
        write_token_line("m", "2024-01-01T00:00:00.000000000Z", " b"),
        "{\"created_at\":\"2024-01-01T00:00:00.000000000Z\",\"done\":false,\"model\":\"m\",\"response\":\" b\"}\n"
    );
    assert_eq!(
        write_token_line("a\"b", "T", "say \\ \"x\""),
        "{\"created_at\":\"T\",\"done\":false,\"model\":\"a\\\"b\",\"response\":\"say \\\\ \\\"x\\\"\"}\n"
    );
}

#[test]
fn token_line_is_what_the_json_library_writes() {
    let mut object = serde_json::Map::new();
    object.insert("model".to_string(), serde_json::Value::String("mö\"del".to_string()));
    object.insert("created_at".to_string(), serde_json::Value::String("T".to_string()));
    object.insert("response".to_string(), serde_json::Value::String(" wörd\u{7}".to_string()));
    object.insert("done".to_string(), serde_json::Value::Bool(false));
    assert_eq!(
        write_token_line("mö\"del", "T", " wörd\u{7}"),
        format!("{}\n", serde_json::Value::Object(object))
    );
}

#[test]
fn final_line_says_where_the_response_came_from() {
    assert_eq!(
        write_final_line("m", "T", true, Some(CacheSource::Redis), "c-1"),
        "{\"cache_hit\":true,\"cache_source\":\"redis\",\"conversation_id\":\"c-1\",\"created_at\":\"T\",\"done\":true,\"model\":\"m\",\"response\":\"\"}\n"
    );
    assert_eq!(
        write_final_line("m", "T", false, None, "c-1"),
        "{\"cache_hit\":false,\"cache_source\":null,\"conversation_id\":\"c-1\",\"created_at\":\"T\",\"done\":true,\"model\":\"m\",\"response\":\"\"}\n"
    );
}

#[test]
fn final_line_is_what_the_json_library_writes() {
    let mut object = serde_json::Map::new();
    object.insert("model".to_string(), serde_json::Value::String("m".to_string()));
    object.insert("created_at".to_string(), serde_json::Value::String("T".to_string()));
    object.insert("response".to_string(), serde_json::Value::String(String::new()));
    object.insert("done".to_string(), serde_json::Value::Bool(true));
    object.insert("cache_hit".to_string(), serde_json::Value::Bool(true));
    object.insert("cache_source".to_string(), serde_json::Value::String("sqlite".to_string()));
    object.insert("conversation_id".to_string(), serde_json::Value::String("c".to_string()));
    assert_eq!(
        write_final_line("m", "T", true, Some(CacheSource::Sqlite), "c"),
        format!("{}\n", serde_json::Value::Object(object))
    );
}

#[test]
fn events_are_named_and_end_with_a_blank_line() {
    assert_eq!(write_token_event("a b c"), "event: token\ndata: a b c\n\n");
    assert_eq!(write_token_event(" d"), "event: token\ndata:  d\n\n");
    assert_eq!(
        write_meta_event(true, Some(CacheSource::Memory)),
        "event: meta\ndata: {\"cache_hit\":true,\"cache_source\":\"memory\"}\n\n"
    );
    assert_eq!(
        write_meta_event(false, None),
        "event: meta\ndata: {\"cache_hit\":false,\"cache_source\":null}\n\n"
    );
    assert_eq!(write_done_event(), "event: done\ndata: \n\n");
}

#[test]
fn line_delimited_stream_sends_each_word_and_then_the_last_line() {
    let frames = run(emitter(Protocol::LineDelimited, "hello big world"));
    assert_eq!(
        frames,
        vec![
            (write_token_line("m", "T", "hello"), 60),
            (write_token_line("m", "T", " big"), 60),
            (write_token_line("m", "T", " world"), 60),
            (write_final_line("m", "T", true, Some(CacheSource::Memory), "c-1"), 0),
        ]
    );
}

#[test]
fn event_stream_sends_groups_then_meta_then_done() {
    let frames = run(emitter(Protocol::EventStream, "a b c d"));
    assert_eq!(
        frames,
        vec![
            ("event: token\ndata: a b c\n\n".to_string(), 60),
            ("event: token\ndata:  d\n\n".to_string(), 60),
            ("event: meta\ndata: {\"cache_hit\":true,\"cache_source\":\"memory\"}\n\n".to_string(), 0),
            ("event: done\ndata: \n\n".to_string(), 0),
        ]
    );
}

#[test]
fn stream_of_an_empty_response_sends_only_the_closing_frames() {
    assert_eq!(
        run(emitter(Protocol::LineDelimited, "")),
        vec![(write_final_line("m", "T", true, Some(CacheSource::Memory), "c-1"), 0)]
    );
    assert_eq!(run(emitter(Protocol::EventStream, "  ")).len(), 2);
}

#[test]
fn tokens_of_the_line_stream_spell_the_response() {
    let text = "the quick brown fox jumps";
    let mut spelled = String::new();
    for (frame, _) in run(emitter(Protocol::LineDelimited, text)) {
        let object: serde_json::Value = serde_json::from_str(&frame).unwrap();
        spelled.push_str(object.get("response").unwrap().as_str().unwrap());
    }
    assert_eq!(spelled, text);
}

#[test]
fn tokens_of_the_event_stream_spell_the_response() {
    let text = "the quick brown fox jumps over the lazy dog";
    let mut spelled = String::new();
    for (frame, _) in run(emitter(Protocol::EventStream, text)) {
        if let Some(rest) = frame.strip_prefix("event: token\ndata: ") {
            spelled.push_str(rest.strip_suffix("\n\n").unwrap());
        }
    }
    assert_eq!(spelled, text);
}

#[test]
fn stream_stops_as_soon_as_the_consumer_is_gone() {
    let mut emitter = emitter(Protocol::LineDelimited, "a b c d e");
    assert!(matches!(emitter.next("T"), StreamStep::Emit { .. }));
    assert!(matches!(emitter.next("T"), StreamStep::Emit { .. }));
    emitter.consumer_gone();
    assert!(matches!(emitter.next("T"), StreamStep::Finished));
    assert!(matches!(emitter.next("T"), StreamStep::Finished));

    let mut unstarted = StreamEmitter::new(
        Protocol::EventStream,
        "a b c d",
        "m".to_string(),
        false,
        None,
        "c".to_string(),
    );
    unstarted.consumer_gone();
    assert!(matches!(unstarted.next("T"), StreamStep::Finished));
}

#[test]
fn each_frame_carries_the_time_it_is_given() {
    let mut emitter = emitter(Protocol::LineDelimited, "a b");
    for stamp in ["T1", "T2", "T3"] {
        match emitter.next(stamp) {
            StreamStep::Emit { frame, .. } => {
                assert!(frame.contains(&format!("\"created_at\":\"{}\"", stamp)))
            }
            StreamStep::Finished => panic!("the stream ended early"),
        }
    }
}

#[test]
fn frames_are_joined_from_json_values() {
    assert_eq!(
        frame_token_line("\"T\"", "\"m\"", "\" b\""),
        "{\"created_at\":\"T\",\"done\":false,\"model\":\"m\",\"response\":\" b\"}\n"
    );
    assert_eq!(
        frame_final_line(false, "null", "\"c\"", "\"T\"", "\"m\""),
        "{\"cache_hit\":false,\"cache_source\":null,\"conversation_id\":\"c\",\"created_at\":\"T\",\"done\":true,\"model\":\"m\",\"response\":\"\"}\n"
    );
    assert_eq!(
        frame_meta_event(true, "\"redis\""),
        "event: meta\ndata: {\"cache_hit\":true,\"cache_source\":\"redis\"}\n\n"
    );
    assert_eq!(write_source(None), "null");
    assert_eq!(write_source(Some(CacheSource::Sqlite)), "\"sqlite\"");
}
