//! The request and the response of a chat.

use vstd::prelude::*;
use vstd::string::*;
use crate::cache_service::CacheSource;
use crate::json::{json_member, json_string, json_text, member, quote, string_value};
use crate::stream::{json_bool, json_source, write_source};

verus! {

/// A request for a generated answer.
#[derive(Debug, Clone)]
pub struct ChatRequest {
    pub message: String,
    /// The conversation that the request belongs to, a UUID.
    pub conversation_id: Option<String>,
    pub model: Option<String>,
    /// The sampling temperature, a decimal numeral.
    pub temperature: Option<String>,
    pub max_tokens: Option<usize>,
    pub cache_bypass: Option<bool>,
    pub stream: Option<bool>,
}

/// An answer, with where it came from.
#[derive(Debug, Clone)]
pub struct ChatResponse {
    pub response: String,
    /// The conversation that the answer belongs to, a UUID.
    pub conversation_id: String,
    pub cache_hit: bool,
    pub cache_source: Option<CacheSource>,
    /// When the answer was made or served, in RFC 3339 form.
    pub timestamp: String,
}

/// An answer as the contracts see it.
pub struct Answer {
    pub response: Seq<char>,
    pub conversation_id: Seq<char>,
    pub cache_hit: bool,
    pub cache_source: Option<CacheSource>,
    pub timestamp: Seq<char>,
}

impl View for ChatResponse {
    type V = Answer;

    open spec fn view(&self) -> Answer {
        Answer {
            response: self.response@,
            conversation_id: self.conversation_id@,
            cache_hit: self.cache_hit,
            cache_source: self.cache_source,
            timestamp: self.timestamp@,
        }
    }
}

/// A response as the cache stores it, given its text, its conversation,
/// its tier and its time as JSON values: a JSON object with its members in
/// the order of their names.
pub open spec fn response_json_of(
    response_json: Seq<char>,
    conversation_json: Seq<char>,
    cache_hit: bool,
    source_json: Seq<char>,
    timestamp_json: Seq<char>,
) -> Seq<char> {
    "{\"cache_hit\":"@ + json_bool(cache_hit) + ",\"cache_source\":"@ + source_json
        + ",\"conversation_id\":"@ + conversation_json + ",\"response\":"@ + response_json
        + ",\"timestamp\":"@ + timestamp_json + "}"@
}

/// A response as the cache stores it.
pub open spec fn response_json(
    response: Seq<char>,
    conversation_id: Seq<char>,
    cache_hit: bool,
    cache_source: Option<CacheSource>,
    timestamp: Seq<char>,
) -> Seq<char> {
    response_json_of(
        json_string(response),
        json_string(conversation_id),
        cache_hit,
        json_source(cache_source),
        json_string(timestamp),
    )
}

/// A response as the cache stores it, given its text, its conversation,
/// its tier and its time as JSON values.
pub fn frame_response(
    response_json: &str,
    conversation_json: &str,
    cache_hit: bool,
    source_json: &str,
    timestamp_json: &str,
) -> (text: String)
    ensures
        text@ == response_json_of(
            response_json@,
            conversation_json@,
            cache_hit,
            source_json@,
            timestamp_json@,
        ),
{
    let mut text = String::from_str("{\"cache_hit\":");
    if cache_hit {
        text.append("true");
    } else {
        text.append("false");
    }
    text.append(",\"cache_source\":");
    text.append(source_json);
    text.append(",\"conversation_id\":");
    text.append(conversation_json);
    text.append(",\"response\":");
    text.append(response_json);
    text.append(",\"timestamp\":");
    text.append(timestamp_json);
    text.append("}");
    text
}

/// The text of the member `name` of the JSON object `doc`, where that
/// member is a string.
pub open spec fn member_text(doc: Seq<char>, name: Seq<char>) -> Option<Seq<char>> {
    match json_member(doc, name) {
        Some(value) => json_text(value),
        None => None,
    }
}

impl ChatResponse {
    /// A fresh answer: not from the cache.
    pub fn new(response: String, conversation_id: String, timestamp: String) -> (answer:
        ChatResponse)
        ensures
            answer.response == response,
            answer.conversation_id == conversation_id,
            !answer.cache_hit,
            answer.cache_source is None,
            answer.timestamp == timestamp,
    {
        ChatResponse { response, conversation_id, cache_hit: false, cache_source: None, timestamp }
    }

    /// The answer as the cache stores it.
    pub fn to_json(&self) -> (text: String)
        ensures
            text@ == response_json(
                self.response@,
                self.conversation_id@,
                self.cache_hit,
                self.cache_source,
                self.timestamp@,
            ),
    {
        frame_response(
            quote(self.response.as_str()).as_str(),
            quote(self.conversation_id.as_str()).as_str(),
            self.cache_hit,
            write_source(self.cache_source).as_str(),
            quote(self.timestamp.as_str()).as_str(),
        )
    }

    /// Reads the text of an answer out of a cached payload, given the
    /// member `response` of the payload as the parser found it: a payload
    /// serves only where that member is a string.
    pub fn with_text(
        found: Option<String>,
        source: CacheSource,
        conversation_id: String,
        timestamp: String,
    ) -> (answer: Option<ChatResponse>)
        ensures
            (answer is Some) == (found is Some),
            answer matches Some(served) ==> served.response == found->0 && served.conversation_id
                == conversation_id && served.cache_hit && served.cache_source == Some(source)
                && served.timestamp == timestamp,
    {
        match found {
            Some(response) => Some(
                ChatResponse {
                    response,
                    conversation_id,
                    cache_hit: true,
                    cache_source: Some(source),
                    timestamp,
                },
            ),
            None => None,
        }
    }

    /// The answer that a cached payload serves. Of the payload only the
    /// text of the answer counts: the conversation, the tier and the time
    /// are those of this request, whatever the payload says of them. A
    /// payload without text serves nothing.
    pub fn from_cache(
        payload: &str,
        source: CacheSource,
        conversation_id: String,
        timestamp: String,
    ) -> (answer: Option<ChatResponse>)
        ensures
            (answer is Some) == (member_text(payload@, "response"@) is Some),
            answer matches Some(served) ==> Some(served.response@) == member_text(
                payload@,
                "response"@,
            ) && served.conversation_id == conversation_id && served.cache_hit
                && served.cache_source == Some(source) && served.timestamp == timestamp,
    {
        let found = match member(payload, "response") {
            Some(value) => string_value(value.as_str()),
            None => None,
        };
        ChatResponse::with_text(found, source, conversation_id, timestamp)
    }
}

} // verus!
