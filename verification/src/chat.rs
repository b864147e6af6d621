//! The course of one chat request: from the request to the response, by
//! way of the cache and the router.
//!
//! A request that may use the cache is looked up first. A hit is answered
//! from the cache and nothing is generated. A miss, like a request that
//! may not use the cache, is routed: searched for where its tier asks for
//! that, then generated once. A generated answer is written to the cache
//! where the request may use it, and answered.
//!
//! The session says what to do next; the caller does it and reports back.

use vstd::prelude::*;
use vstd::string::*;
use crate::ai_service::{
    asked, first_step, searched, step_after_search, AIService, Asked, CloudCall, CloudPlan,
    LocalCall, LocalPlan, Plan, RouteStep, Routing, Searched,
};
use crate::cache_service::CacheSource;
use crate::hashing::{request_fingerprint, request_key};
use crate::json::{member, string_value};
use crate::model_service::{complexity_of_length, Complexity};
use crate::models::{member_text, response_json, Answer, ChatRequest, ChatResponse};
use crate::search_service::{SearchError, SearchResult};
use crate::stream::Protocol;
use crate::text::{contains, occurs_in, text_of};

verus! {

/// How a response is delivered.
#[derive(Debug, Clone, Copy, PartialEq, Eq, Structural)]
pub enum Delivery {
    /// As a stream of frames under the protocol named.
    Stream { protocol: Protocol },
    /// As one JSON object.
    Json,
    /// As plain text: the answer alone.
    PlainText,
}

/// Whether an `Accept` header asks for a stream.
pub open spec fn accepts_stream(accept: Seq<char>) -> bool {
    occurs_in("text/event-stream"@, accept) || occurs_in("application/x-ndjson"@, accept)
        || occurs_in("application/jsonl"@, accept)
}

/// Whether a request is answered with a stream: where it says so itself,
/// or its `Accept` header does.
pub open spec fn stream_wanted(stream: Option<bool>, accept: Seq<char>) -> bool {
    stream == Some(true) || accepts_stream(accept)
}

/// The delivery of a response to a request with the flag `stream` and the
/// header `accept`.
pub open spec fn delivery_for(stream: Option<bool>, accept: Seq<char>) -> Delivery {
    if stream_wanted(stream, accept) {
        if occurs_in("text/event-stream"@, accept) {
            Delivery::Stream { protocol: Protocol::EventStream }
        } else {
            Delivery::Stream { protocol: Protocol::LineDelimited }
        }
    } else if occurs_in("text/plain"@, accept) {
        Delivery::PlainText
    } else {
        Delivery::Json
    }
}

/// Whether a request may use the cache: it does not bypass it, and the
/// sampling has picked it.
pub open spec fn cache_allowed(cache_bypass: Option<bool>, sampled: bool) -> bool {
    cache_bypass != Some(true) && sampled
}

/// Whether a request is answered with a stream. `accept` is its `Accept`
/// header, empty where it has none.
pub fn wants_stream(stream: Option<bool>, accept: &str) -> (wanted: bool)
    ensures
        wanted == stream_wanted(stream, accept@),
{
    let flagged = match stream {
        Some(flag) => flag,
        None => false,
    };
    flagged || contains(accept, "text/event-stream") || contains(accept, "application/x-ndjson")
        || contains(accept, "application/jsonl")
}

/// The delivery of a response. `accept` is the `Accept` header of the
/// request, empty where it has none.
pub fn respond_chat(stream: Option<bool>, accept: &str) -> (delivery: Delivery)
    ensures
        delivery == delivery_for(stream, accept@),
{
    if wants_stream(stream, accept) {
        if contains(accept, "text/event-stream") {
            Delivery::Stream { protocol: Protocol::EventStream }
        } else {
            Delivery::Stream { protocol: Protocol::LineDelimited }
        }
    } else if contains(accept, "text/plain") {
        Delivery::PlainText
    } else {
        Delivery::Json
    }
}

/// Whether a request may use the cache. `sampled` says whether the draw
/// for this request fell below the configured probability.
pub fn use_cache(cache_bypass: Option<bool>, sampled: bool) -> (allowed: bool)
    ensures
        allowed == cache_allowed(cache_bypass, sampled),
{
    let bypass = match cache_bypass {
        Some(flag) => flag,
        None => false,
    };
    !bypass && sampled
}

/// Where a request stands.
#[derive(Debug, Clone, Copy, PartialEq, Eq, Structural)]
pub enum Phase {
    /// The cache is being looked up.
    Lookup,
    /// The search is running.
    Search,
    /// An engine is generating.
    Generation,
    /// The request is answered or has failed.
    Done,
}

/// A session as the contracts see it.
pub struct Session {
    pub request: Asked,
    pub conversation_id: Seq<char>,
    pub model_name: Seq<char>,
    pub cache_key: Seq<char>,
    pub use_cache: bool,
    pub delivery: Delivery,
    pub complexity: Complexity,
    pub fresh_id: Seq<char>,
    pub phase: Phase,
}

/// What the caller does next.
pub enum Action {
    /// Look `key` up in the cache.
    LookUp { key: Seq<char> },
    /// Search for `query`.
    Search { query: Seq<char> },
    /// Call the local engine.
    Local { call: LocalPlan },
    /// Call the cloud service.
    Cloud { request: CloudPlan },
    /// Answer. Where `store` holds a payload, write it to the cache under
    /// the key of the session first.
    Respond { answer: Answer, delivery: Delivery, store: Option<Seq<char>> },
    /// Answer with a failure.
    Fail { message: Seq<char> },
    /// Nothing: what was reported does not belong to where the session
    /// stands.
    Ignore,
}

/// The name of the model of a request: the one it names, or else the
/// configured one.
pub open spec fn model_of(request: Asked, routing: Routing) -> Seq<char> {
    match request.model {
        Some(name) => name,
        None => routing.model_name,
    }
}

/// The action that carries out a step of the router, and the phase that
/// the session is in while it is carried out.
pub open spec fn routed(plan: Plan) -> (Phase, Action) {
    match plan {
        Plan::Search { query } => (Phase::Search, Action::Search { query }),
        Plan::Local { call } => (Phase::Generation, Action::Local { call }),
        Plan::Cloud { request } => (Phase::Generation, Action::Cloud { request }),
        Plan::Fail { message } => (Phase::Done, Action::Fail { message }),
    }
}

/// The session of a request as it begins, before its first action.
pub open spec fn opened(
    request: Asked,
    cache_bypass: Option<bool>,
    stream: Option<bool>,
    routing: Routing,
    accept: Seq<char>,
    sampled: bool,
    fresh_id: Seq<char>,
) -> Session {
    Session {
        request,
        conversation_id: match request.conversation_id {
            Some(id) => id,
            None => fresh_id,
        },
        model_name: model_of(request, routing),
        cache_key: request_key(
            request.message,
            model_of(request, routing),
            match request.temperature {
                Some(numeral) => numeral,
                None => routing.temperature,
            },
            match request.max_tokens {
                Some(limit) => limit,
                None => routing.max_tokens,
            } as nat,
        ),
        use_cache: cache_allowed(cache_bypass, sampled),
        delivery: delivery_for(stream, accept),
        complexity: complexity_of_length(request.message.len()),
        fresh_id,
        phase: Phase::Lookup,
    }
}

/// The key of a request depends on its message, its model, its
/// temperature and its token limit alone: requests that agree in these
/// share a key, whatever their conversation, their wish for a stream or
/// their way past the cache.
pub proof fn lemma_key_ignores_other_fields(
    first: Asked,
    second: Asked,
    routing: Routing,
    first_bypass: Option<bool>,
    second_bypass: Option<bool>,
    first_stream: Option<bool>,
    second_stream: Option<bool>,
    first_accept: Seq<char>,
    second_accept: Seq<char>,
    first_sampled: bool,
    second_sampled: bool,
    first_id: Seq<char>,
    second_id: Seq<char>,
)
    requires
        first.message == second.message,
        first.model == second.model,
        first.temperature == second.temperature,
        first.max_tokens == second.max_tokens,
    ensures
        opened(
            first,
            first_bypass,
            first_stream,
            routing,
            first_accept,
            first_sampled,
            first_id,
        ).cache_key == opened(
            second,
            second_bypass,
            second_stream,
            routing,
            second_accept,
            second_sampled,
            second_id,
        ).cache_key,
{
}

/// The first step of the router for a session.
pub open spec fn start_routing(session: Session, routing: Routing) -> (Session, Action) {
    let next = routed(first_step(session.complexity, session.request, routing, session.fresh_id));
    (Session { phase: next.0, ..session }, next.1)
}

/// The first action of a session: a lookup where the request may use the
/// cache, the first step of the router otherwise.
pub open spec fn begun(session: Session, routing: Routing) -> (Session, Action) {
    if session.use_cache {
        (Session { phase: Phase::Lookup, ..session }, Action::LookUp { key: session.cache_key })
    } else {
        start_routing(session, routing)
    }
}

/// What the cache came to: the text of the answer in the payload found,
/// if a payload was found and has one, and the tier that served it.
pub struct Found {
    pub text: Option<Seq<char>>,
    pub source: CacheSource,
}

/// The step after the lookup: a hit is answered from the cache; anything
/// else is routed.
pub open spec fn after_lookup(
    session: Session,
    routing: Routing,
    found: Option<Found>,
    timestamp: Seq<char>,
) -> (Session, Action) {
    if session.phase != Phase::Lookup {
        (session, Action::Ignore)
    } else if found is Some && found->0.text is Some {
        (
            Session { phase: Phase::Done, ..session },
            Action::Respond {
                answer: Answer {
                    response: found->0.text->0,
                    conversation_id: session.conversation_id,
                    cache_hit: true,
                    cache_source: Some(found->0.source),
                    timestamp,
                },
                delivery: session.delivery,
                store: None,
            },
        )
    } else {
        start_routing(session, routing)
    }
}

/// The step after the search.
pub open spec fn after_searching(session: Session, routing: Routing, result: Searched) -> (
    Session,
    Action,
) {
    if session.phase != Phase::Search {
        (session, Action::Ignore)
    } else {
        let next = routed(
            step_after_search(
                session.complexity,
                session.request,
                routing,
                result,
                session.fresh_id,
            ),
        );
        (Session { phase: next.0, ..session }, next.1)
    }
}

/// What an engine came to: its text, or the message of its failure.
pub enum Generated {
    Text { text: Seq<char> },
    Failed { message: Seq<char> },
}

/// The step after the generation: the answer, with the payload to write
/// to the cache where the request may use it, or the failure.
pub open spec fn after_generation(session: Session, result: Generated, timestamp: Seq<char>) -> (
    Session,
    Action,
) {
    if session.phase != Phase::Generation {
        (session, Action::Ignore)
    } else {
        (
            Session { phase: Phase::Done, ..session },
            match result {
                Generated::Text { text } => Action::Respond {
                    answer: Answer {
                        response: text,
                        conversation_id: session.conversation_id,
                        cache_hit: false,
                        cache_source: None,
                        timestamp,
                    },
                    delivery: session.delivery,
                    store: if session.use_cache {
                        Some(
                            response_json(text, session.conversation_id, false, None, timestamp),
                        )
                    } else {
                        None
                    },
                },
                Generated::Failed { message } => Action::Fail { message },
            },
        )
    }
}

/// What the caller reports back to a session.
pub enum Event {
    /// What the cache came to.
    Cache { found: Option<Found>, timestamp: Seq<char> },
    /// What the search came to.
    Searched { outcome: Searched },
    /// What the engine came to.
    Generated { result: Generated, timestamp: Seq<char> },
}

/// The step that takes one report.
pub open spec fn react(session: Session, routing: Routing, event: Event) -> (Session, Action) {
    match event {
        Event::Cache { found, timestamp } => after_lookup(session, routing, found, timestamp),
        Event::Searched { outcome } => after_searching(session, routing, outcome),
        Event::Generated { result, timestamp } => after_generation(session, result, timestamp),
    }
}

/// The actions with which a session answers a run of reports, in order.
pub open spec fn reactions(session: Session, routing: Routing, events: Seq<Event>) -> Seq<Action>
    decreases events.len(),
{
    if events.len() == 0 {
        Seq::empty()
    } else {
        seq![react(session, routing, events[0]).1] + reactions(
            react(session, routing, events[0]).0,
            routing,
            events.drop_first(),
        )
    }
}

/// The whole course of a request: its first action and then its answers
/// to a run of reports.
pub open spec fn course(session: Session, routing: Routing, events: Seq<Event>) -> Seq<Action> {
    seq![begun(session, routing).1] + reactions(begun(session, routing).0, routing, events)
}

/// The number of actions of a kind in a run of actions.
pub open spec fn count(actions: Seq<Action>, kind: spec_fn(Action) -> bool) -> nat
    decreases actions.len(),
{
    if actions.len() == 0 {
        0
    } else {
        (if kind(actions[0]) {
            1nat
        } else {
            0nat
        }) + count(actions.drop_first(), kind)
    }
}

/// A call of an engine.
pub open spec fn is_generation(action: Action) -> bool {
    action is Local || action is Cloud
}

/// A lookup in the cache.
pub open spec fn is_lookup(action: Action) -> bool {
    action is LookUp
}

/// A search.
pub open spec fn is_search(action: Action) -> bool {
    action is Search
}

/// An answer that comes with a write to the cache.
pub open spec fn is_store(action: Action) -> bool {
    action matches Action::Respond { store, .. } && store is Some
}

/// An answer from the cache.
pub open spec fn is_hit(action: Action) -> bool {
    action matches Action::Respond { answer, .. } && answer.cache_hit
}

/// An answer that was generated.
pub open spec fn is_generated_answer(action: Action) -> bool {
    action matches Action::Respond { answer, .. } && !answer.cache_hit
}

/// The end of a request: an answer or a failure.
pub open spec fn is_end(action: Action) -> bool {
    action is Respond || action is Fail
}

/// The count of a run that begins with `first` is the count of the rest
/// and one more where `first` is of the kind.
proof fn lemma_count_first(first: Action, rest: Seq<Action>, kind: spec_fn(Action) -> bool)
    ensures
        count(seq![first] + rest, kind) == (if kind(first) {
            1nat
        } else {
            0nat
        }) + count(rest, kind),
{
    assert((seq![first] + rest).drop_first() =~= rest);
}

/// What a session does from where it stands, whatever is reported to it:
/// each phase is passed at most once and in order.
proof fn lemma_reactions(session: Session, routing: Routing, events: Seq<Event>)
    ensures
        count(reactions(session, routing, events), |a: Action| is_lookup(a)) == 0,
        count(reactions(session, routing, events), |a: Action| is_end(a)) <= 1,
        count(reactions(session, routing, events), |a: Action| is_store(a)) <= 1,
        count(reactions(session, routing, events), |a: Action| is_search(a)) <= 1,
        count(reactions(session, routing, events), |a: Action| is_generation(a)) <= 1,
        session.phase != Phase::Lookup ==> count(
            reactions(session, routing, events),
            |a: Action| is_hit(a),
        ) == 0 && count(reactions(session, routing, events), |a: Action| is_search(a)) == 0,
        session.phase == Phase::Generation || session.phase == Phase::Done ==> count(
            reactions(session, routing, events),
            |a: Action| is_generation(a),
        ) == 0,
        session.phase == Phase::Done ==> count(
            reactions(session, routing, events),
            |a: Action| is_end(a),
        ) == 0 && count(reactions(session, routing, events), |a: Action| is_store(a)) == 0
            && count(reactions(session, routing, events), |a: Action| is_generated_answer(a))
            == 0,
        session.phase == Phase::Lookup || session.phase == Phase::Search ==> (count(
            reactions(session, routing, events),
            |a: Action| is_generated_answer(a),
        ) >= 1 ==> count(reactions(session, routing, events), |a: Action| is_generation(a))
            == 1),
        session.phase == Phase::Lookup ==> (count(
            reactions(session, routing, events),
            |a: Action| is_hit(a),
        ) >= 1 ==> count(reactions(session, routing, events), |a: Action| is_generation(a))
            == 0),
    decreases events.len(),
{
    if events.len() > 0 {
        let step = react(session, routing, events[0]);
        let rest = reactions(step.0, routing, events.drop_first());
        lemma_reactions(step.0, routing, events.drop_first());
        lemma_count_first(step.1, rest, |a: Action| is_lookup(a));
        lemma_count_first(step.1, rest, |a: Action| is_end(a));
        lemma_count_first(step.1, rest, |a: Action| is_store(a));
        lemma_count_first(step.1, rest, |a: Action| is_search(a));
        lemma_count_first(step.1, rest, |a: Action| is_generation(a));
        lemma_count_first(step.1, rest, |a: Action| is_hit(a));
        lemma_count_first(step.1, rest, |a: Action| is_generated_answer(a));
    }
}

/// Order of a request: whatever is reported to a session and in whatever
/// order, the cache is looked up at most once, the search runs at most
/// once, an engine is called at most once, at most one answer is written
/// to the cache, and the request ends at most once. A request that is
/// answered from the cache has called no engine, and one that is answered
/// with a generated text has called an engine exactly once.
pub proof fn lemma_course_of_a_request(session: Session, routing: Routing, events: Seq<Event>)
    requires
        session.phase == Phase::Lookup,
    ensures
        count(course(session, routing, events), |a: Action| is_lookup(a)) <= 1,
        count(course(session, routing, events), |a: Action| is_search(a)) <= 1,
        count(course(session, routing, events), |a: Action| is_generation(a)) <= 1,
        count(course(session, routing, events), |a: Action| is_store(a)) <= 1,
        count(course(session, routing, events), |a: Action| is_end(a)) <= 1,
        count(course(session, routing, events), |a: Action| is_hit(a)) >= 1 ==> count(
            course(session, routing, events),
            |a: Action| is_generation(a),
        ) == 0,
        count(course(session, routing, events), |a: Action| is_generated_answer(a)) >= 1
            ==> count(course(session, routing, events), |a: Action| is_generation(a)) == 1,
        !session.use_cache ==> count(course(session, routing, events), |a: Action| is_lookup(a))
            == 0 && count(course(session, routing, events), |a: Action| is_store(a)) == 0
            && count(course(session, routing, events), |a: Action| is_hit(a)) == 0,
{
    let first = begun(session, routing);
    let rest = reactions(first.0, routing, events);
    lemma_reactions(first.0, routing, events);
    lemma_count_first(first.1, rest, |a: Action| is_lookup(a));
    lemma_count_first(first.1, rest, |a: Action| is_end(a));
    lemma_count_first(first.1, rest, |a: Action| is_store(a));
    lemma_count_first(first.1, rest, |a: Action| is_search(a));
    lemma_count_first(first.1, rest, |a: Action| is_generation(a));
    lemma_count_first(first.1, rest, |a: Action| is_hit(a));
    lemma_count_first(first.1, rest, |a: Action| is_generated_answer(a));
    if !session.use_cache {
        lemma_never_stored(first.0, routing, events);
    }
}

/// A session that may not use the cache writes nothing to it.
proof fn lemma_never_stored(session: Session, routing: Routing, events: Seq<Event>)
    requires
        !session.use_cache,
    ensures
        count(reactions(session, routing, events), |a: Action| is_store(a)) == 0,
    decreases events.len(),
{
    if events.len() > 0 {
        let step = react(session, routing, events[0]);
        let rest = reactions(step.0, routing, events.drop_first());
        lemma_never_stored(step.0, routing, events.drop_first());
        lemma_count_first(step.1, rest, |a: Action| is_store(a));
    }
}

/// What the caller does next, with what it needs for it.
#[derive(Debug, Clone)]
pub enum ChatAction {
    LookUp { key: String },
    Search { query: String },
    GenerateLocal { call: LocalCall },
    GenerateCloud { request: CloudCall },
    Respond { answer: ChatResponse, delivery: Delivery, store: Option<String> },
    Fail { message: String },
    Ignore,
}

impl View for ChatAction {
    type V = Action;

    open spec fn view(&self) -> Action {
        match self {
            ChatAction::LookUp { key } => Action::LookUp { key: key@ },
            ChatAction::Search { query } => Action::Search { query: query@ },
            ChatAction::GenerateLocal { call } => Action::Local { call: call@ },
            ChatAction::GenerateCloud { request } => Action::Cloud { request: request@ },
            ChatAction::Respond { answer, delivery, store } => Action::Respond {
                answer: answer@,
                delivery: *delivery,
                store: text_of(*store),
            },
            ChatAction::Fail { message } => Action::Fail { message: message@ },
            ChatAction::Ignore => Action::Ignore,
        }
    }
}

/// One chat request on its way.
#[derive(Debug, Clone)]
pub struct ChatSession {
    request: ChatRequest,
    conversation_id: String,
    model_name: String,
    cache_key: String,
    use_cache: bool,
    delivery: Delivery,
    complexity: Complexity,
    fresh_id: String,
    phase: Phase,
}

impl View for ChatSession {
    type V = Session;

    closed spec fn view(&self) -> Session {
        Session {
            request: asked(self.request),
            conversation_id: self.conversation_id@,
            model_name: self.model_name@,
            cache_key: self.cache_key@,
            use_cache: self.use_cache,
            delivery: self.delivery,
            complexity: self.complexity,
            fresh_id: self.fresh_id@,
            phase: self.phase,
        }
    }
}

fn carry_out(step: RouteStep) -> (next: (Phase, ChatAction))
    ensures
        (next.0, next.1@) == routed(step@),
{
    match step {
        RouteStep::Search { query } => (Phase::Search, ChatAction::Search { query }),
        RouteStep::GenerateLocal { call } => (Phase::Generation, ChatAction::GenerateLocal { call }),
        RouteStep::GenerateCloud { request } => (
            Phase::Generation,
            ChatAction::GenerateCloud { request },
        ),
        RouteStep::Fail { error } => (Phase::Done, ChatAction::Fail { message: error.message }),
    }
}

impl ChatSession {
    /// Opens the session of `request`. `accept` is the `Accept` header of
    /// the request, empty where it has none; `sampled` says whether the
    /// draw for this request fell below the configured probability;
    /// `fresh_id` names the conversation where the request names none.
    pub fn chat(
        request: ChatRequest,
        router: &AIService,
        accept: &str,
        sampled: bool,
        fresh_id: String,
    ) -> (started: (ChatSession, ChatAction))
        ensures
            (started.0@, started.1@) == begun(
                opened(
                    asked(request),
                    request.cache_bypass,
                    request.stream,
                    router@,
                    accept@,
                    sampled,
                    fresh_id@,
                ),
                router@,
            ),
    {
        let defaults = router.ai_config();
        let conversation_id = match &request.conversation_id {
            Some(id) => id.clone(),
            None => fresh_id.clone(),
        };
        let model_name = match &request.model {
            Some(name) => name.clone(),
            None => defaults.model_name.clone(),
        };
        let temperature = match &request.temperature {
            Some(numeral) => numeral.clone(),
            None => defaults.temperature.clone(),
        };
        let max_tokens = match request.max_tokens {
            Some(limit) => limit,
            None => defaults.max_tokens,
        };
        let cache_key = request_fingerprint(
            request.message.as_str(),
            model_name.as_str(),
            temperature.as_str(),
            max_tokens,
        );
        let mut session = ChatSession {
            conversation_id,
            model_name,
            cache_key,
            use_cache: use_cache(request.cache_bypass, sampled),
            delivery: respond_chat(request.stream, accept),
            complexity: router.analyze_complexity(&request),
            fresh_id,
            phase: Phase::Lookup,
            request,
        };
        if session.use_cache {
            let key = session.cache_key.clone();
            (session, ChatAction::LookUp { key })
        } else {
            let action = session.start_routing(router);
            (session, action)
        }
    }

    fn start_routing(&mut self, router: &AIService) -> (action: ChatAction)
        ensures
            (final(self)@, action@) == start_routing(old(self)@, router@),
    {
        let next = carry_out(router.route(&self.request, self.complexity, self.fresh_id.clone()));
        self.phase = next.0;
        next.1
    }

    /// Where the session stands.
    pub fn phase(&self) -> (phase: Phase)
        ensures
            phase == self@.phase,
    {
        self.phase
    }

    /// The key of the request in the cache.
    pub fn cache_key(&self) -> (key: &String)
        ensures
            key@ == self@.cache_key,
    {
        &self.cache_key
    }

    /// The name of the model that answers the request.
    pub fn model_name(&self) -> (name: &String)
        ensures
            name@ == self@.model_name,
    {
        &self.model_name
    }

    /// Takes what the cache came to, given the text of the answer in the
    /// payload found, if a payload was found and has one, and the tier
    /// that served it. `timestamp` is the current time in RFC 3339 form.
    pub fn cache_answered(
        &mut self,
        router: &AIService,
        found: Option<(Option<String>, CacheSource)>,
        timestamp: String,
    ) -> (action: ChatAction)
        ensures
            (final(self)@, action@) == after_lookup(
                old(self)@,
                router@,
                match found {
                    Some((text, source)) => Some(
                        Found {
                            text: text_of(text),
                            source,
                        },
                    ),
                    None => None,
                },
                timestamp@,
            ),
    {
        if self.phase != Phase::Lookup {
            return ChatAction::Ignore;
        }
        match found {
            Some((Some(text), source)) => {
                self.phase = Phase::Done;
                ChatAction::Respond {
                    answer: ChatResponse {
                        response: text,
                        conversation_id: self.conversation_id.clone(),
                        cache_hit: true,
                        cache_source: Some(source),
                        timestamp,
                    },
                    delivery: self.delivery,
                    store: None,
                }
            },
            _ => self.start_routing(router),
        }
    }

    /// Takes what the cache came to: the payload found and the tier that
    /// served it, or nothing. A payload that holds no answer counts as
    /// nothing. `timestamp` is the current time in RFC 3339 form.
    pub fn cache_result(
        &mut self,
        router: &AIService,
        found: Option<(String, CacheSource)>,
        timestamp: String,
    ) -> (action: ChatAction)
        ensures
            (final(self)@, action@) == after_lookup(
                old(self)@,
                router@,
                match found {
                    Some((payload, source)) => Some(
                        Found { text: member_text(payload@, "response"@), source },
                    ),
                    None => None,
                },
                timestamp@,
            ),
    {
        let read = match found {
            Some((payload, source)) => {
                let text = match member(payload.as_str(), "response") {
                    Some(value) => string_value(value.as_str()),
                    None => None,
                };
                Some((text, source))
            },
            None => None,
        };
        self.cache_answered(router, read, timestamp)
    }

    /// Takes what the search came to.
    pub fn search_result(
        &mut self,
        router: &AIService,
        results: Result<Vec<SearchResult>, SearchError>,
    ) -> (action: ChatAction)
        ensures
            (final(self)@, action@) == after_searching(old(self)@, router@, searched(results)),
    {
        if self.phase != Phase::Search {
            return ChatAction::Ignore;
        }
        let next = carry_out(
            router.after_search(&self.request, self.complexity, results, self.fresh_id.clone()),
        );
        self.phase = next.0;
        next.1
    }

    /// Takes what the engine came to: its text, or the message of its
    /// failure. `timestamp` is the current time in RFC 3339 form.
    pub fn generated(&mut self, result: Result<String, String>, timestamp: String) -> (action:
        ChatAction)
        ensures
            (final(self)@, action@) == after_generation(
                old(self)@,
                match result {
                    Ok(text) => Generated::Text { text: text@ },
                    Err(message) => Generated::Failed { message: message@ },
                },
                timestamp@,
            ),
    {
        if self.phase != Phase::Generation {
            return ChatAction::Ignore;
        }
        self.phase = Phase::Done;
        match result {
            Ok(text) => {
                let answer = ChatResponse::new(text, self.conversation_id.clone(), timestamp);
                let store = if self.use_cache {
                    Some(answer.to_json())
                } else {
                    None
                };
                ChatAction::Respond { answer, delivery: self.delivery, store }
            },
            Err(message) => ChatAction::Fail { message },
        }
    }
}

} // verus!
