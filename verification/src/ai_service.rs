//! Generation router: maps the complexity tier of a request to a
//! generation strategy.
//!
//! A `Low` request goes straight to the local engine. A `Medium` request is
//! searched for first: a search that fails ends the request with its
//! error; one that finds nothing falls back to the `Low` path; otherwise
//! the sources are appended to the prompt, which then goes to the local
//! engine. A `High` request is searched for as well, and then goes to the
//! cloud service where an API key is configured; where none is, it takes
//! the `Medium` path with the sources already found.
//!
//! The engines and the search are the caller's to call. The router says
//! what to call next and with what.

use vstd::prelude::*;
use vstd::string::*;
use crate::config::{AiConfig, OpenRouterSettings};
use crate::json::{
    element, is_json, json_element, json_member, json_string, json_text, member, parses_as_json,
    quote, string_value,
};
use crate::model_service::{complexity_of_length, Complexity, ModelService};
use crate::models::{ChatRequest, ChatResponse};
use crate::search_service::{SearchError, SearchResult, SearchService};
use crate::text::{blank, decimal, decimal_text, is_blank, text_of};

verus! {

/// A search result as the contracts see it.
pub struct Source {
    pub title: Seq<char>,
    pub url: Seq<char>,
    pub snippet: Seq<char>,
}

/// The search results of a list.
pub open spec fn sources_of(results: Seq<SearchResult>) -> Seq<Source> {
    results.map_values(
        |result: SearchResult|
            Source { title: result.title@, url: result.url@, snippet: result.snippet@ },
    )
}

/// One source as a JSON object, given its parts as JSON strings.
pub open spec fn source_json_of(
    snippet_json: Seq<char>,
    title_json: Seq<char>,
    url_json: Seq<char>,
) -> Seq<char> {
    "{\"snippet\":"@ + snippet_json + ",\"title\":"@ + title_json + ",\"url\":"@ + url_json
        + "}"@
}

/// One source as a JSON object.
pub open spec fn source_json(source: Source) -> Seq<char> {
    source_json_of(
        json_string(source.snippet),
        json_string(source.title),
        json_string(source.url),
    )
}

/// The sources as JSON objects with commas between them.
pub open spec fn source_list_json(sources: Seq<Source>) -> Seq<char>
    decreases sources.len(),
{
    if sources.len() == 0 {
        Seq::empty()
    } else if sources.len() == 1 {
        source_json(sources[0])
    } else {
        source_list_json(sources.drop_last()) + ","@ + source_json(sources.last())
    }
}

/// The block of sources that is appended to a prompt.
pub open spec fn enrichment_json(sources: Seq<Source>) -> Seq<char> {
    "{\"sources\":["@ + source_list_json(sources) + "]}"@
}

/// A message with its sources appended.
pub open spec fn enriched_message(message: Seq<char>, sources: Seq<Source>) -> Seq<char> {
    message + "\n\nAdditional context (sources): "@ + enrichment_json(sources)
}

/// The parts of a request that the router reads.
pub struct Asked {
    pub message: Seq<char>,
    pub conversation_id: Option<Seq<char>>,
    pub model: Option<Seq<char>>,
    pub temperature: Option<Seq<char>>,
    pub max_tokens: Option<usize>,
}

/// What the router reads of `request`.
pub open spec fn asked(request: ChatRequest) -> Asked {
    Asked {
        message: request.message@,
        conversation_id: text_of(request.conversation_id),
        model: text_of(request.model),
        temperature: text_of(request.temperature),
        max_tokens: request.max_tokens,
    }
}

/// The settings that the router works with.
pub struct Routing {
    /// The name of the local model.
    pub model_name: Seq<char>,
    pub api_key: Seq<char>,
    pub base_url: Seq<char>,
    pub default_model: Seq<char>,
    pub temperature: Seq<char>,
    pub max_tokens: usize,
}

/// Whether a cloud service is configured: whether there is an API key.
pub open spec fn cloud_configured(routing: Routing) -> bool {
    !blank(routing.api_key)
}

/// A call of the local engine.
pub struct LocalPlan {
    pub prompt: Seq<char>,
    pub conversation_id: Seq<char>,
    pub temperature: Seq<char>,
    pub max_tokens: usize,
}

/// A call of the cloud service.
pub struct CloudPlan {
    pub url: Seq<char>,
    pub api_key: Seq<char>,
    pub model: Seq<char>,
    pub message: Seq<char>,
    pub temperature: Seq<char>,
    pub max_tokens: u32,
    pub conversation_id: Seq<char>,
}

/// What the router asks for next.
pub enum Plan {
    Search { query: Seq<char> },
    Local { call: LocalPlan },
    Cloud { request: CloudPlan },
    Fail { message: Seq<char> },
}

/// The conversation of a request: the one it names, or else a fresh one.
pub open spec fn conversation_of(request: Asked, fresh_id: Seq<char>) -> Seq<char> {
    match request.conversation_id {
        Some(id) => id,
        None => fresh_id,
    }
}

/// The temperature of a request: the one it names, or else the configured
/// one.
pub open spec fn temperature_of(request: Asked, routing: Routing) -> Seq<char> {
    match request.temperature {
        Some(numeral) => numeral,
        None => routing.temperature,
    }
}

/// The token limit of a request: the one it names, or else the configured
/// one.
pub open spec fn max_tokens_of(request: Asked, routing: Routing) -> usize {
    match request.max_tokens {
        Some(limit) => limit,
        None => routing.max_tokens,
    }
}

/// The call of the local engine for `prompt` on behalf of `request`.
pub open spec fn local_plan(
    request: Asked,
    routing: Routing,
    prompt: Seq<char>,
    fresh_id: Seq<char>,
) -> LocalPlan {
    LocalPlan {
        prompt,
        conversation_id: conversation_of(request, fresh_id),
        temperature: temperature_of(request, routing),
        max_tokens: max_tokens_of(request, routing),
    }
}

/// The call of the local engine on the enrichment path: the plain message
/// where nothing was found, the message with its sources otherwise.
pub open spec fn enriched_plan(
    request: Asked,
    routing: Routing,
    sources: Seq<Source>,
    fresh_id: Seq<char>,
) -> LocalPlan {
    if sources.len() == 0 {
        local_plan(request, routing, request.message, fresh_id)
    } else {
        local_plan(request, routing, enriched_message(request.message, sources), fresh_id)
    }
}

/// The call of the cloud service on behalf of `request`. The token limit
/// is cut to its low 32 bits.
pub open spec fn cloud_plan(request: Asked, routing: Routing, fresh_id: Seq<char>) -> CloudPlan {
    CloudPlan {
        url: routing.base_url + "/chat/completions"@,
        api_key: routing.api_key,
        model: match request.model {
            Some(name) => name,
            None => routing.default_model,
        },
        message: request.message,
        temperature: temperature_of(request, routing),
        max_tokens: (max_tokens_of(request, routing) as int % 0x1_0000_0000) as u32,
        conversation_id: conversation_of(request, fresh_id),
    }
}

/// The first step for a request of tier `complexity`.
pub open spec fn first_step(
    complexity: Complexity,
    request: Asked,
    routing: Routing,
    fresh_id: Seq<char>,
) -> Plan {
    match complexity {
        Complexity::Low => Plan::Local {
            call: local_plan(request, routing, request.message, fresh_id),
        },
        _ => Plan::Search { query: request.message },
    }
}

/// What a search came to: its sources, or the message of its failure.
pub enum Searched {
    Found { sources: Seq<Source> },
    Failed { message: Seq<char> },
}

/// The step after the search for a request of tier `complexity`.
pub open spec fn step_after_search(
    complexity: Complexity,
    request: Asked,
    routing: Routing,
    searched: Searched,
    fresh_id: Seq<char>,
) -> Plan {
    match searched {
        Searched::Failed { message } => Plan::Fail { message },
        Searched::Found { sources } => if complexity is High && cloud_configured(routing) {
            Plan::Cloud { request: cloud_plan(request, routing, fresh_id) }
        } else {
            Plan::Local { call: enriched_plan(request, routing, sources, fresh_id) }
        },
    }
}

/// Downgrade: without a cloud key, a `High` request that was searched for
/// takes the step that a `Medium` request takes with the same sources. That
/// step is a call of the local engine, on the enriched prompt where the
/// search found anything: nothing is searched for a second time.
pub proof fn lemma_high_without_key_routes_as_medium(
    request: Asked,
    routing: Routing,
    sources: Seq<Source>,
    fresh_id: Seq<char>,
)
    requires
        !cloud_configured(routing),
    ensures
        step_after_search(
            Complexity::High,
            request,
            routing,
            Searched::Found { sources },
            fresh_id,
        ) == step_after_search(
            Complexity::Medium,
            request,
            routing,
            Searched::Found { sources },
            fresh_id,
        ),
        step_after_search(
            Complexity::High,
            request,
            routing,
            Searched::Found { sources },
            fresh_id,
        ) == (Plan::Local { call: enriched_plan(request, routing, sources, fresh_id) }),
        sources.len() > 0 ==> enriched_plan(request, routing, sources, fresh_id).prompt
            == enriched_message(request.message, sources),
{
}

/// After the search the router never asks for another: its next step ends
/// the request or generates.
pub proof fn lemma_one_search_at_most(
    complexity: Complexity,
    request: Asked,
    routing: Routing,
    searched: Searched,
    fresh_id: Seq<char>,
)
    ensures
        !(step_after_search(complexity, request, routing, searched, fresh_id) is Search),
        searched is Failed ==> step_after_search(
            complexity,
            request,
            routing,
            searched,
            fresh_id,
        ) is Fail,
        searched is Found ==> !(step_after_search(
            complexity,
            request,
            routing,
            searched,
            fresh_id,
        ) is Fail),
{
}

/// The parameters of a call of the local engine.
#[derive(Debug, Clone)]
pub struct LocalCall {
    pub prompt: String,
    /// The conversation that the engine keeps its context under.
    pub conversation_id: String,
    /// The sampling temperature, a decimal numeral.
    pub temperature: String,
    pub max_tokens: usize,
}

impl View for LocalCall {
    type V = LocalPlan;

    open spec fn view(&self) -> LocalPlan {
        LocalPlan {
            prompt: self.prompt@,
            conversation_id: self.conversation_id@,
            temperature: self.temperature@,
            max_tokens: self.max_tokens,
        }
    }
}

/// The parameters of a call of the cloud service.
#[derive(Debug, Clone)]
pub struct CloudCall {
    /// Where the request is posted.
    pub url: String,
    /// The key that authorises it, as a bearer token.
    pub api_key: String,
    pub model: String,
    pub message: String,
    /// The sampling temperature, a decimal numeral.
    pub temperature: String,
    pub max_tokens: u32,
    pub conversation_id: String,
}

impl View for CloudCall {
    type V = CloudPlan;

    open spec fn view(&self) -> CloudPlan {
        CloudPlan {
            url: self.url@,
            api_key: self.api_key@,
            model: self.model@,
            message: self.message@,
            temperature: self.temperature@,
            max_tokens: self.max_tokens,
            conversation_id: self.conversation_id@,
        }
    }
}

/// What the router asks for next, with the parameters of the call.
#[derive(Debug, Clone)]
pub enum RouteStep {
    Search { query: String },
    GenerateLocal { call: LocalCall },
    GenerateCloud { request: CloudCall },
    Fail { error: SearchError },
}

impl View for RouteStep {
    type V = Plan;

    open spec fn view(&self) -> Plan {
        match self {
            RouteStep::Search { query } => Plan::Search { query: query@ },
            RouteStep::GenerateLocal { call } => Plan::Local { call: call@ },
            RouteStep::GenerateCloud { request } => Plan::Cloud { request: request@ },
            RouteStep::Fail { error } => Plan::Fail { message: error.message@ },
        }
    }
}

/// What a search came to, as the contracts see it.
pub open spec fn searched(results: Result<Vec<SearchResult>, SearchError>) -> Searched {
    match results {
        Ok(list) => Searched::Found { sources: sources_of(list@) },
        Err(error) => Searched::Failed { message: error.message@ },
    }
}

/// A reply of the cloud service that carries no answer.
#[derive(Debug, Clone, Copy, PartialEq, Eq, Structural)]
pub enum CloudError {
    /// The body of the reply is no JSON.
    MalformedBody,
    /// The body of the reply is JSON, but holds no text at
    /// `choices[0].message.content`.
    MissingContent,
}

/// The text `choices[0].message.content` of a reply of the cloud service,
/// where the reply has it.
pub open spec fn content_of(body: Seq<char>) -> Option<Seq<char>> {
    match json_member(body, "choices"@) {
        Some(choices) => match json_element(choices, 0) {
            Some(choice) => match json_member(choice, "message"@) {
                Some(message) => match json_member(message, "content"@) {
                    Some(content) => json_text(content),
                    None => None,
                },
                None => None,
            },
            None => None,
        },
        None => None,
    }
}

/// The answer that a reply of the cloud service carries, given whether its
/// body is JSON and the content found in it: the content, and an error
/// where the body is no JSON or holds no content.
pub open spec fn completion(well_formed: bool, content: Option<Seq<char>>) -> Result<
    Seq<char>,
    CloudError,
> {
    if !well_formed {
        Err(CloudError::MalformedBody)
    } else {
        match content {
            Some(text) => Ok(text),
            None => Err(CloudError::MissingContent),
        }
    }
}

/// The body of a request to the cloud service, given the model and the
/// message as JSON strings and the temperature as a JSON number.
pub open spec fn cloud_body_of(
    model_json: Seq<char>,
    message_json: Seq<char>,
    temperature_number: Seq<char>,
    max_tokens: u32,
) -> Seq<char> {
    "{\"max_tokens\":"@ + decimal(max_tokens as nat) + ",\"messages\":[{\"content\":"@
        + message_json + ",\"role\":\"user\"}],\"model\":"@ + model_json
        + ",\"temperature\":"@ + temperature_number + "}"@
}

/// The body of a request to the cloud service. `temperature_number` is
/// the temperature as a JSON number.
pub open spec fn cloud_body(
    model: Seq<char>,
    message: Seq<char>,
    temperature_number: Seq<char>,
    max_tokens: u32,
) -> Seq<char> {
    cloud_body_of(json_string(model), json_string(message), temperature_number, max_tokens)
}

/// One source as a JSON object, given its parts as JSON strings.
pub fn frame_source(snippet_json: &str, title_json: &str, url_json: &str) -> (text: String)
    ensures
        text@ == source_json_of(snippet_json@, title_json@, url_json@),
{
    let mut text = String::from_str("{\"snippet\":");
    text.append(snippet_json);
    text.append(",\"title\":");
    text.append(title_json);
    text.append(",\"url\":");
    text.append(url_json);
    text.append("}");
    text
}

fn source_object(result: &SearchResult) -> (text: String)
    ensures
        text@ == source_json(
            Source { title: result.title@, url: result.url@, snippet: result.snippet@ },
        ),
{
    frame_source(
        quote(result.snippet.as_str()).as_str(),
        quote(result.title.as_str()).as_str(),
        quote(result.url.as_str()).as_str(),
    )
}

/// The block of sources that is appended to a prompt.
pub fn enrichment(results: &Vec<SearchResult>) -> (text: String)
    ensures
        text@ == enrichment_json(sources_of(results@)),
{
    let ghost sources = sources_of(results@);
    let mut list = String::new();
    let mut i: usize = 0;
    assert(sources.take(0) =~= Seq::<Source>::empty());
    while i < results.len()
        invariant
            i <= results.len(),
            sources == sources_of(results@),
            list@ == source_list_json(sources.take(i as int)),
        decreases results.len() - i,
    {
        proof {
            let longer = sources.take(i + 1);
            assert(longer.drop_last() =~= sources.take(i as int));
            assert(longer.last() == sources[i as int]);
            assert(Seq::<char>::empty() + source_json(sources[i as int]) =~= source_json(
                sources[i as int],
            ));
        }
        if i > 0 {
            list.append(",");
        }
        list.append(source_object(&results[i]).as_str());
        assert(list@ =~= source_list_json(sources.take(i + 1)));
        i = i + 1;
    }
    assert(sources.take(results.len() as int) =~= sources);
    let mut text = String::from_str("{\"sources\":[");
    text.append(list.as_str());
    text.append("]}");
    text
}

/// The answer that a reply of the cloud service carries, given whether its
/// body is JSON and the content that was found in it.
pub fn choose_completion(well_formed: bool, content: Option<String>) -> (answer: Result<
    String,
    CloudError,
>)
    ensures
        match completion(well_formed, text_of(content)) {
            Ok(text) => answer is Ok && answer->Ok_0@ == text,
            Err(error) => answer == Err::<String, CloudError>(error),
        },
{
    if !well_formed {
        return Err(CloudError::MalformedBody);
    }
    match content {
        Some(text) => Ok(text),
        None => Err(CloudError::MissingContent),
    }
}

/// Reads the answer out of the body of a reply of the cloud service. A
/// body that is no JSON, or that holds no text at
/// `choices[0].message.content`, is an error: such a reply answers
/// nothing.
pub fn extract_completion(body: &str) -> (answer: Result<String, CloudError>)
    ensures
        !is_json(body@) ==> answer == Err::<String, CloudError>(CloudError::MalformedBody),
        is_json(body@) && content_of(body@) is None ==> answer == Err::<String, CloudError>(
            CloudError::MissingContent,
        ),
        is_json(body@) && content_of(body@) is Some ==> answer is Ok && answer->Ok_0@
            == content_of(body@)->0,
{
    if !parses_as_json(body) {
        return choose_completion(false, None);
    }
    let content = match member(body, "choices") {
        Some(choices) => match element(choices.as_str(), 0) {
            Some(choice) => match member(choice.as_str(), "message") {
                Some(message) => match member(message.as_str(), "content") {
                    Some(content) => string_value(content.as_str()),
                    None => None,
                },
                None => None,
            },
            None => None,
        },
        None => None,
    };
    choose_completion(true, content)
}

/// The body of a request to the cloud service, given the model and the
/// message as JSON strings and the temperature as a JSON number.
pub fn frame_cloud_body(
    model_json: &str,
    message_json: &str,
    temperature_number: &str,
    max_tokens: u32,
) -> (body: String)
    ensures
        body@ == cloud_body_of(model_json@, message_json@, temperature_number@, max_tokens),
{
    let mut body = String::from_str("{\"max_tokens\":");
    body.append(decimal_text(max_tokens as usize).as_str());
    body.append(",\"messages\":[{\"content\":");
    body.append(message_json);
    body.append(",\"role\":\"user\"}],\"model\":");
    body.append(model_json);
    body.append(",\"temperature\":");
    body.append(temperature_number);
    body.append("}");
    body
}

/// The body of a request to the cloud service. `temperature_number` is the
/// temperature as a JSON number.
pub fn write_cloud_body(call: &CloudCall, temperature_number: &str) -> (body: String)
    ensures
        body@ == cloud_body(call.model@, call.message@, temperature_number@, call.max_tokens),
{
    frame_cloud_body(
        quote(call.model.as_str()).as_str(),
        quote(call.message.as_str()).as_str(),
        temperature_number,
        call.max_tokens,
    )
}

/// The router.
#[derive(Debug, Clone)]
pub struct AIService {
    model_service: ModelService,
    search_service: SearchService,
    openrouter: OpenRouterSettings,
    ai_config: AiConfig,
}

impl View for AIService {
    type V = Routing;

    closed spec fn view(&self) -> Routing {
        Routing {
            model_name: self.ai_config.model_name@,
            api_key: self.openrouter.api_key@,
            base_url: self.openrouter.base_url@,
            default_model: self.openrouter.default_model@,
            temperature: self.ai_config.temperature@,
            max_tokens: self.ai_config.max_tokens,
        }
    }
}

impl AIService {
    pub fn new(ai_config: AiConfig, openrouter: OpenRouterSettings) -> (service: AIService)
        ensures
            service@ == (Routing {
                model_name: ai_config.model_name@,
                api_key: openrouter.api_key@,
                base_url: openrouter.base_url@,
                default_model: openrouter.default_model@,
                temperature: ai_config.temperature@,
                max_tokens: ai_config.max_tokens,
            }),
    {
        AIService {
            model_service: ModelService::new(),
            search_service: SearchService::new(),
            openrouter,
            ai_config,
        }
    }

    /// The settings of the local model.
    pub fn ai_config(&self) -> (config: &AiConfig)
        ensures
            config.model_name@ == self@.model_name,
            config.temperature@ == self@.temperature,
            config.max_tokens == self@.max_tokens,
    {
        &self.ai_config
    }

    /// The complexity tier of a request.
    pub fn analyze_complexity(&self, req: &ChatRequest) -> (tier: Complexity)
        ensures
            tier == complexity_of_length(req.message@.len()),
    {
        self.model_service.analyze_complexity(req)
    }

    /// Searches for `query` with the search that is built in.
    pub fn search(&self, query: &str) -> (results: Result<Vec<SearchResult>, SearchError>)
        ensures
            results matches Ok(list) && list@.len() == 0,
    {
        self.search_service.search(query)
    }

    fn local_call(&self, req: &ChatRequest, prompt: String, fresh_id: String) -> (call: LocalCall)
        ensures
            call@ == local_plan(asked(*req), self@, prompt@, fresh_id@),
    {
        let conversation_id = match &req.conversation_id {
            Some(id) => id.clone(),
            None => fresh_id,
        };
        let temperature = match &req.temperature {
            Some(numeral) => numeral.clone(),
            None => self.ai_config.temperature.clone(),
        };
        let max_tokens = match req.max_tokens {
            Some(limit) => limit,
            None => self.ai_config.max_tokens,
        };
        LocalCall { prompt, conversation_id, temperature, max_tokens }
    }

    /// The call of the local engine for the message of `req` as it stands.
    /// `fresh_id` names the conversation where the request names none.
    pub fn local_model_generate(&self, req: &ChatRequest, fresh_id: String) -> (call: LocalCall)
        ensures
            call@ == local_plan(asked(*req), self@, req.message@, fresh_id@),
    {
        self.local_call(req, req.message.clone(), fresh_id)
    }

    /// The call of the local engine on the enrichment path.
    pub fn enrich_and_generate(
        &self,
        req: &ChatRequest,
        search_results: &Vec<SearchResult>,
        fresh_id: String,
    ) -> (call: LocalCall)
        ensures
            call@ == enriched_plan(asked(*req), self@, sources_of(search_results@), fresh_id@),
    {
        if search_results.len() == 0 {
            return self.local_model_generate(req, fresh_id);
        }
        let mut prompt = req.message.clone();
        prompt.append("\n\nAdditional context (sources): ");
        prompt.append(enrichment(search_results).as_str());
        self.local_call(req, prompt, fresh_id)
    }

    /// The step for a `High` request that was searched for: the call of
    /// the cloud service, or the enrichment path where no API key is
    /// configured.
    pub fn cloud_model_generate(
        &self,
        req: &ChatRequest,
        search_results: &Vec<SearchResult>,
        fresh_id: String,
    ) -> (step: RouteStep)
        ensures
            step@ == step_after_search(
                Complexity::High,
                asked(*req),
                self@,
                Searched::Found { sources: sources_of(search_results@) },
                fresh_id@,
            ),
    {
        if is_blank(self.openrouter.api_key.as_str()) {
            return RouteStep::GenerateLocal {
                call: self.enrich_and_generate(req, search_results, fresh_id),
            };
        }
        let model = match &req.model {
            Some(name) => name.clone(),
            None => self.openrouter.default_model.clone(),
        };
        let temperature = match &req.temperature {
            Some(numeral) => numeral.clone(),
            None => self.ai_config.temperature.clone(),
        };
        let limit: usize = match req.max_tokens {
            Some(limit) => limit,
            None => self.ai_config.max_tokens,
        };
        let max_tokens: u32 = ((limit as u64) % 0x1_0000_0000u64) as u32;
        let conversation_id = match &req.conversation_id {
            Some(id) => id.clone(),
            None => fresh_id,
        };
        let mut url = self.openrouter.base_url.clone();
        url.append("/chat/completions");
        RouteStep::GenerateCloud {
            request: CloudCall {
                url,
                api_key: self.openrouter.api_key.clone(),
                model,
                message: req.message.clone(),
                temperature,
                max_tokens,
                conversation_id,
            },
        }
    }

    /// The first step for a request of tier `complexity`.
    pub fn route(&self, req: &ChatRequest, complexity: Complexity, fresh_id: String) -> (step:
        RouteStep)
        ensures
            step@ == first_step(complexity, asked(*req), self@, fresh_id@),
    {
        match complexity {
            Complexity::Low => RouteStep::GenerateLocal {
                call: self.local_model_generate(req, fresh_id),
            },
            _ => RouteStep::Search { query: req.message.clone() },
        }
    }

    /// The step after the search for a request of tier `complexity`.
    pub fn after_search(
        &self,
        req: &ChatRequest,
        complexity: Complexity,
        results: Result<Vec<SearchResult>, SearchError>,
        fresh_id: String,
    ) -> (step: RouteStep)
        ensures
            step@ == step_after_search(complexity, asked(*req), self@, searched(results), fresh_id@),
    {
        match results {
            Err(error) => RouteStep::Fail { error },
            Ok(list) => match complexity {
                Complexity::High => self.cloud_model_generate(req, &list, fresh_id),
                _ => RouteStep::GenerateLocal {
                    call: self.enrich_and_generate(req, &list, fresh_id),
                },
            },
        }
    }

    /// The response for a generated text: the conversation is the one of
    /// the request and the response is marked as not from the cache,
    /// whatever the engine said of either.
    pub fn finish(&self, generated: String, conversation_id: String, timestamp: String) -> (answer:
        ChatResponse)
        ensures
            answer.response == generated,
            answer.conversation_id == conversation_id,
            !answer.cache_hit,
            answer.cache_source is None,
            answer.timestamp == timestamp,
    {
        ChatResponse::new(generated, conversation_id, timestamp)
    }
}

} // verus!
