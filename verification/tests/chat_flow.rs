use gateway_core::ai_service::AIService;
use gateway_core::cache_service::{CacheService, CacheSource, Lookup};
use gateway_core::chat::{respond_chat, use_cache, wants_stream, ChatAction, ChatSession, Delivery, Phase};
use gateway_core::config::Config;
use gateway_core::hashing::request_fingerprint;
use gateway_core::instant::Instant;
use gateway_core::models::{frame_response, ChatRequest, ChatResponse};
use gateway_core::search_service::{SearchError, SearchResult};
use gateway_core::stream::Protocol;

fn request(message: &str) -> ChatRequest {
    ChatRequest {
        message: message.to_string(),
        conversation_id: None,
        model: None,
        temperature: None,
        max_tokens: None,
        cache_bypass: None,
        stream: None,
    }
}

fn router(api_key: &str) -> AIService {
    let config = Config::defaults(1);
    let mut openrouter = config.openrouter;
    openrouter.api_key = api_key.to_string();
    AIService::new(config.ai, openrouter)
}

fn cache() -> CacheService {
    CacheService::new(Config::defaults(1).cache, false, false)
}

fn open(req: ChatRequest, sampled: bool) -> (ChatSession, ChatAction) {
    ChatSession::chat(req, &router(""), "", sampled, "fresh-id".to_string())
}

#[test]
fn stream_is_wanted_by_flag_or_by_header() {
    assert!(!wants_stream(None, ""));
    assert!(!wants_stream(Some(false), "application/json"));
    assert!(wants_stream(Some(true), ""));
    assert!(wants_stream(None, "text/event-stream"));
    assert!(wants_stream(Some(false), "application/json, application/x-ndjson;q=0.9"));
    assert!(wants_stream(None, "application/jsonl"));
    assert!(!wants_stream(None, "text/plain"));
}

#[test]
fn delivery_follows_the_flag_and_the_header() {
    assert_eq!(respond_chat(None, ""), Delivery::Json);
    assert_eq!(respond_chat(None, "application/json"), Delivery::Json);
    assert_eq!(respond_chat(None, "text/plain"), Delivery::PlainText);
    assert_eq!(respond_chat(Some(false), "text/html, text/plain"), Delivery::PlainText);
    assert_eq!(
        respond_chat(Some(true), ""),
        Delivery::Stream { protocol: Protocol::LineDelimited }
    );
    assert_eq!(
        respond_chat(Some(true), "text/plain"),
        Delivery::Stream { protocol: Protocol::LineDelimited }
    );
    assert_eq!(
        respond_chat(None, "application/x-ndjson"),
        Delivery::Stream { protocol: Protocol::LineDelimited }
    );
    assert_eq!(
        respond_chat(None, "application/jsonl"),
        Delivery::Stream { protocol: Protocol::LineDelimited }
    );
    assert_eq!(
        respond_chat(None, "text/event-stream"),
        Delivery::Stream { protocol: Protocol::EventStream }
    );
    assert_eq!(
        respond_chat(Some(true), "application/x-ndjson, text/event-stream"),
        Delivery::Stream { protocol: Protocol::EventStream }
    );
}

#[test]
fn cache_is_used_unless_bypassed_or_not_sampled() {
    assert!(use_cache(None, true));
    assert!(use_cache(Some(false), true));
    assert!(!use_cache(Some(true), true));
    assert!(!use_cache(None, false));
    assert!(!use_cache(Some(true), false));
}

#[test]
fn request_that_may_use_the_cache_is_looked_up_first() {
    let (session, action) = open(request("hi"), true);
    assert_eq!(session.phase(), Phase::Lookup);
    assert_eq!(*session.cache_key(), request_fingerprint("hi", "TinyLlama/TinyLlama-1.1B-Chat-v1.0", "0.7", 2048));
    assert_eq!(*session.model_name(), "TinyLlama/TinyLlama-1.1B-Chat-v1.0");
    match action {
        ChatAction::LookUp { key } => assert_eq!(key, *session.cache_key()),
        other => panic!("expected a lookup, found {:?}", other),
    }
}

#[test]
fn key_ignores_the_fields_that_do_not_change_the_answer() {
    let mut plain = request("hi");
    plain.model = Some("m".to_string());
    plain.temperature = Some("0.5".to_string());
    plain.max_tokens = Some(10);
    let mut flagged = plain.clone();
    flagged.stream = Some(true);
    flagged.cache_bypass = Some(true);
    flagged.conversation_id = Some("other".to_string());
    let (first, _) = open(plain, true);
    let (second, _) = ChatSession::chat(flagged, &router(""), "text/event-stream", false, "x".to_string());
    assert_eq!(first.cache_key(), second.cache_key());
    assert_eq!(*first.cache_key(), request_fingerprint("hi", "m", "0.5", 10));
}

#[test]
fn request_that_may_not_use_the_cache_is_routed_at_once() {
    let mut bypass = request("hi");
    bypass.cache_bypass = Some(true);
    for (req, sampled) in [(bypass, true), (request("hi"), false)] {
        let (session, action) = open(req, sampled);
        assert_eq!(session.phase(), Phase::Generation);
        match action {
            ChatAction::GenerateLocal { call } => {
                assert_eq!(call.prompt, "hi");
                assert_eq!(call.conversation_id, "fresh-id");
            }
            other => panic!("expected a local call, found {:?}", other),
        }
    }
}

#[test]
fn generated_answer_is_not_stored_where_the_cache_is_not_used() {
    let (mut session, _) = open(request("hi"), false);
    match session.generated(Ok("hello".to_string()), "T".to_string()) {
        ChatAction::Respond { answer, delivery, store } => {
            assert_eq!(answer.response, "hello");
            assert!(!answer.cache_hit);
            assert_eq!(delivery, Delivery::Json);
            assert_eq!(store, None);
        }
        other => panic!("expected an answer, found {:?}", other),
    }
    assert_eq!(session.phase(), Phase::Done);
}

#[test]
fn hit_is_answered_from_the_cache_and_nothing_is_generated() {
    let mut req = request("hi");
    req.conversation_id = Some("conv-7".to_string());
    let (mut session, _) = ChatSession::chat(req, &router(""), "text/plain", true, "fresh".to_string());
    let payload = "{\"cache_hit\":false,\"cache_source\":null,\"conversation_id\":\"old\",\"response\":\"hello\",\"timestamp\":\"then\"}";
    let action = session.cache_result(
        &router(""),
        Some((payload.to_string(), CacheSource::Redis)),
        "now".to_string(),
    );
    match action {
        ChatAction::Respond { answer, delivery, store } => {
            assert_eq!(answer.response, "hello");
            assert_eq!(answer.conversation_id, "conv-7");
            assert!(answer.cache_hit);
            assert_eq!(answer.cache_source, Some(CacheSource::Redis));
            assert_eq!(answer.timestamp, "now");
            assert_eq!(delivery, Delivery::PlainText);
            assert_eq!(store, None);
        }
        other => panic!("expected an answer, found {:?}", other),
    }
    assert_eq!(session.phase(), Phase::Done);
    assert!(matches!(session.generated(Ok("again".to_string()), "T".to_string()), ChatAction::Ignore));
    assert!(matches!(session.search_result(&router(""), Ok(Vec::new())), ChatAction::Ignore));
    assert!(matches!(session.cache_result(&router(""), None, "T".to_string()), ChatAction::Ignore));
}

#[test]
fn payload_without_an_answer_counts_as_a_miss() {
    for payload in ["{\"response\":5}", "{}", "[]", "not json", "{\"other\":\"x\"}"] {
        let (mut session, _) = open(request("hi"), true);
        let action = session.cache_result(
            &router(""),
            Some((payload.to_string(), CacheSource::Memory)),
            "now".to_string(),
        );
        assert!(matches!(action, ChatAction::GenerateLocal { .. }));
        assert_eq!(session.phase(), Phase::Generation);
    }
}

#[test]
fn miss_of_a_medium_request_is_searched_then_generated_then_stored() {
    let message = "m".repeat(300);
    let (mut session, first) = open(request(&message), true);
    assert!(matches!(first, ChatAction::LookUp { .. }));
    match session.cache_result(&router(""), None, "T".to_string()) {
        ChatAction::Search { query } => assert_eq!(query, message),
        other => panic!("expected a search, found {:?}", other),
    }
    assert_eq!(session.phase(), Phase::Search);
    assert!(matches!(session.generated(Ok("x".to_string()), "T".to_string()), ChatAction::Ignore));
    let sources = vec![SearchResult {
        title: "t".to_string(),
        url: "u".to_string(),
        snippet: "s".to_string(),
    }];
    match session.search_result(&router(""), Ok(sources)) {
        ChatAction::GenerateLocal { call } => assert_eq!(
            call.prompt,
            format!(
                "{}\n\nAdditional context (sources): {{\"sources\":[{{\"snippet\":\"s\",\"title\":\"t\",\"url\":\"u\"}}]}}",
                message
            )
        ),
        other => panic!("expected a local call, found {:?}", other),
    }
    assert_eq!(session.phase(), Phase::Generation);
    assert!(matches!(session.search_result(&router(""), Ok(Vec::new())), ChatAction::Ignore));
    match session.generated(Ok("answer".to_string()), "T".to_string()) {
        ChatAction::Respond { answer, store, .. } => {
            assert_eq!(answer.response, "answer");
            assert_eq!(answer.conversation_id, "fresh-id");
            assert!(!answer.cache_hit);
            assert_eq!(answer.cache_source, None);
            assert_eq!(
                store,
                Some("{\"cache_hit\":false,\"cache_source\":null,\"conversation_id\":\"fresh-id\",\"response\":\"answer\",\"timestamp\":\"T\"}".to_string())
            );
        }
        other => panic!("expected an answer, found {:?}", other),
    }
    assert!(matches!(session.generated(Ok("x".to_string()), "T".to_string()), ChatAction::Ignore));
}

#[test]
fn high_request_goes_to_the_cloud_where_a_key_is_set() {
    let message = "h".repeat(800);
    let router = router("secret");
    let (mut session, first) =
        ChatSession::chat(request(&message), &router, "", false, "fresh".to_string());
    assert!(matches!(first, ChatAction::Search { .. }));
    match session.search_result(&router, Ok(Vec::new())) {
        ChatAction::GenerateCloud { request } => {
            assert_eq!(request.message, message);
            assert_eq!(request.api_key, "secret");
        }
        other => panic!("expected a cloud call, found {:?}", other),
    }
}

#[test]
fn failed_search_ends_the_request() {
    let message = "m".repeat(200);
    let (mut session, _) = open(request(&message), false);
    let failure = Err(SearchError { message: "search is down".to_string() });
    match session.search_result(&router(""), failure) {
        ChatAction::Fail { message } => assert_eq!(message, "search is down"),
        other => panic!("expected a failure, found {:?}", other),
    }
    assert_eq!(session.phase(), Phase::Done);
    assert!(matches!(session.generated(Ok("x".to_string()), "T".to_string()), ChatAction::Ignore));
}

#[test]
fn failed_generation_ends_the_request_and_stores_nothing() {
    let (mut session, _) = open(request("hi"), true);
    session.cache_result(&router(""), None, "T".to_string());
    match session.generated(Err("engine unavailable".to_string()), "T".to_string()) {
        ChatAction::Fail { message } => assert_eq!(message, "engine unavailable"),
        other => panic!("expected a failure, found {:?}", other),
    }
    assert_eq!(session.phase(), Phase::Done);
}

#[test]
fn response_round_trips_through_its_cached_form() {
    let answer = ChatResponse::new(
        "line one\nsaid \"two\" \\ three é".to_string(),
        "c".to_string(),
        "t".to_string(),
    );
    let payload = answer.to_json();
    let parsed: serde_json::Value = serde_json::from_str(&payload).unwrap();
    assert_eq!(parsed.get("response").and_then(|v| v.as_str()), Some(answer.response.as_str()));
    assert_eq!(parsed.get("cache_hit"), Some(&serde_json::Value::Bool(false)));
    assert_eq!(parsed.get("cache_source"), Some(&serde_json::Value::Null));
    let served = ChatResponse::from_cache(&payload, CacheSource::Sqlite, "d".to_string(), "u".to_string())
        .unwrap();
    assert_eq!(served.response, answer.response);
    assert_eq!(served.conversation_id, "d");
    assert!(served.cache_hit);
    assert_eq!(served.cache_source, Some(CacheSource::Sqlite));
    assert_eq!(served.timestamp, "u");
}

#[test]
fn cached_form_names_the_tier_of_a_served_response() {
    let served = ChatResponse {
        response: "r".to_string(),
        conversation_id: "c".to_string(),
        cache_hit: true,
        cache_source: Some(CacheSource::Memory),
        timestamp: "t".to_string(),
    };
    assert_eq!(
        served.to_json(),
        "{\"cache_hit\":true,\"cache_source\":\"memory\",\"conversation_id\":\"c\",\"response\":\"r\",\"timestamp\":\"t\"}"
    );
}

#[test]
fn payload_without_text_serves_nothing() {
    assert!(ChatResponse::from_cache("{}", CacheSource::Memory, "c".to_string(), "t".to_string()).is_none());
    assert!(ChatResponse::from_cache("oops", CacheSource::Memory, "c".to_string(), "t".to_string()).is_none());
    assert!(ChatResponse::with_text(None, CacheSource::Memory, "c".to_string(), "t".to_string()).is_none());
    let served =
        ChatResponse::with_text(Some("x".to_string()), CacheSource::Redis, "c".to_string(), "t".to_string())
            .unwrap();
    assert_eq!(served.response, "x");
    assert_eq!(served.cache_source, Some(CacheSource::Redis));
}

#[test]
fn end_to_end_miss_then_hit_from_memory() {
    let router = router("");
    let mut cache = cache();
    let now = Instant::new(1_700_000_000, 0);
    let stamp = now.to_rfc3339().unwrap();

    let mut req = request("hi");
    req.model = Some("m".to_string());
    req.temperature = Some(0.5f32.to_string());
    req.max_tokens = Some(10);

    let (mut session, first) = ChatSession::chat(req.clone(), &router, "", true, "id-1".to_string());
    let key = match first {
        ChatAction::LookUp { key } => key,
        other => panic!("expected a lookup, found {:?}", other),
    };
    assert!(matches!(cache.get(&key, now), Lookup::Miss));
    let call = match session.cache_result(&router, None, stamp.clone()) {
        ChatAction::GenerateLocal { call } => call,
        other => panic!("expected a local call, found {:?}", other),
    };
    assert_eq!(call.prompt, "hi");
    assert_eq!(call.temperature, "0.5");
    assert_eq!(call.max_tokens, 10);
    match session.generated(Ok("hello".to_string()), stamp.clone()) {
        ChatAction::Respond { answer, store, .. } => {
            assert_eq!(answer.response, "hello");
            assert!(!answer.cache_hit);
            assert_eq!(answer.cache_source, None);
            cache.set(&key, &store.unwrap(), now);
        }
        other => panic!("expected an answer, found {:?}", other),
    }

    let (mut again, first) = ChatSession::chat(req, &router, "", true, "id-2".to_string());
    let key_again = match first {
        ChatAction::LookUp { key } => key,
        other => panic!("expected a lookup, found {:?}", other),
    };
    assert_eq!(key_again, key);
    let found = match cache.get(&key_again, now) {
        Lookup::Hit { value, source } => (value, source),
        other => panic!("expected a hit, found {:?}", other),
    };
    assert_eq!(found.1, CacheSource::Memory);
    match again.cache_result(&router, Some(found), stamp) {
        ChatAction::Respond { answer, store, .. } => {
            assert_eq!(answer.response, "hello");
            assert!(answer.cache_hit);
            assert_eq!(answer.cache_source.map(|source| source.as_str()), Some("memory"));
            assert_eq!(answer.conversation_id, "id-2");
            assert_eq!(store, None);
        }
        other => panic!("expected an answer, found {:?}", other),
    }
    assert_eq!(cache.stats().total_requests, 2);
    assert_eq!(cache.stats().memory_hits, 1);
}

#[test]
fn cached_form_is_joined_from_json_values() {
    assert_eq!(
        frame_response("\"r\"", "\"c\"", true, "\"memory\"", "\"t\""),
        "{\"cache_hit\":true,\"cache_source\":\"memory\",\"conversation_id\":\"c\",\"response\":\"r\",\"timestamp\":\"t\"}"
    );
}
