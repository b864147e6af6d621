//! The configuration that the gateway runs on, and its defaults.
//!
//! Where a setting is a fraction, such as the sampling temperature, it is
//! held as the decimal numeral that was configured.

use vstd::prelude::*;
use vstd::string::*;
use crate::text::{
    fields, parse_bool, parse_unsigned, split_on, text_of, trim, trimmed, truth_value,
    unsigned, views,
};

verus! {

/// Where the gateway listens and how much it accepts.
#[derive(Debug, Clone)]
pub struct ServerConfig {
    pub host: String,
    pub port: u16,
    pub workers: usize,
    pub max_json_payload_size: usize,
}

/// The model that generates locally, and how it is sampled.
#[derive(Debug, Clone)]
pub struct AiConfig {
    pub model_name: String,
    pub model_path: Option<String>,
    pub huggingface_cache_dir: Option<String>,
    pub context_length: usize,
    /// The sampling temperature, a decimal numeral.
    pub temperature: String,
    /// The nucleus-sampling mass, a decimal numeral.
    pub top_p: String,
    pub max_tokens: usize,
    pub quantized: bool,
    pub quantization_bits: Option<usize>,
}

/// Rate limits and the origins that may call.
#[derive(Debug, Clone)]
pub struct SecurityConfig {
    pub rate_limit_requests: u32,
    pub rate_limit_period: u64,
    pub allowed_origins: Vec<String>,
}

/// The three tiers of the cache.
#[derive(Debug, Clone)]
pub struct CacheSettings {
    pub redis_url: String,
    pub redis_max_memory_mb: u64,
    pub redis_ttl_seconds: u64,
    pub sqlite_path: String,
    pub sqlite_max_size_gb: u64,
    pub sqlite_ttl_days: u32,
    /// The least similarity at which two requests count as alike, a decimal
    /// numeral between 0 and 1.
    pub similarity_threshold: String,
    pub max_similar_results: usize,
    pub memory_cache_entries: usize,
    pub memory_ttl_seconds: u64,
    /// The chance that a request may use the cache at all, a decimal
    /// numeral between 0 and 1.
    pub cache_probability: String,
}

/// The cloud generation service.
#[derive(Debug, Clone)]
pub struct OpenRouterSettings {
    pub api_key: String,
    pub base_url: String,
    pub default_model: String,
}

/// The whole configuration.
#[derive(Debug, Clone)]
pub struct Config {
    pub server: ServerConfig,
    pub ai: AiConfig,
    pub security: SecurityConfig,
    pub cache: CacheSettings,
    pub openrouter: OpenRouterSettings,
}

/// A setting that the environment may override.
#[derive(Debug, Clone, Copy, PartialEq, Eq, Structural)]
pub enum Setting {
    Host,
    Port,
    Workers,
    MaxJsonPayloadSize,
    ModelName,
    ModelPath,
    HuggingfaceCacheDir,
    ContextLength,
    Temperature,
    TopP,
    MaxTokens,
    Quantized,
    QuantizationBits,
    RateLimitRequests,
    RateLimitPeriod,
    AllowedOrigins,
    RedisUrl,
    RedisMaxMemoryMb,
    RedisTtlSeconds,
    SqlitePath,
    SqliteMaxSizeGb,
    SqliteTtlDays,
    SimilarityThreshold,
    MaxSimilarResults,
    MemoryCacheEntries,
    MemoryTtlSeconds,
    CacheProbability,
    OpenrouterApiKey,
    OpenrouterBaseUrl,
    OpenrouterDefaultModel,
}

/// The number of settings.
pub const SETTING_COUNT: usize = 30;

impl Setting {
    /// The setting at `index` in the order in which settings are applied.
    pub open spec fn at(index: int) -> Setting {
        if index == 0 {
            Setting::Host
        } else if index == 1 {
            Setting::Port
        } else if index == 2 {
            Setting::Workers
        } else if index == 3 {
            Setting::MaxJsonPayloadSize
        } else if index == 4 {
            Setting::ModelName
        } else if index == 5 {
            Setting::ModelPath
        } else if index == 6 {
            Setting::HuggingfaceCacheDir
        } else if index == 7 {
            Setting::ContextLength
        } else if index == 8 {
            Setting::Temperature
        } else if index == 9 {
            Setting::TopP
        } else if index == 10 {
            Setting::MaxTokens
        } else if index == 11 {
            Setting::Quantized
        } else if index == 12 {
            Setting::QuantizationBits
        } else if index == 13 {
            Setting::RateLimitRequests
        } else if index == 14 {
            Setting::RateLimitPeriod
        } else if index == 15 {
            Setting::AllowedOrigins
        } else if index == 16 {
            Setting::RedisUrl
        } else if index == 17 {
            Setting::RedisMaxMemoryMb
        } else if index == 18 {
            Setting::RedisTtlSeconds
        } else if index == 19 {
            Setting::SqlitePath
        } else if index == 20 {
            Setting::SqliteMaxSizeGb
        } else if index == 21 {
            Setting::SqliteTtlDays
        } else if index == 22 {
            Setting::SimilarityThreshold
        } else if index == 23 {
            Setting::MaxSimilarResults
        } else if index == 24 {
            Setting::MemoryCacheEntries
        } else if index == 25 {
            Setting::MemoryTtlSeconds
        } else if index == 26 {
            Setting::CacheProbability
        } else if index == 27 {
            Setting::OpenrouterApiKey
        } else if index == 28 {
            Setting::OpenrouterBaseUrl
        } else {
            Setting::OpenrouterDefaultModel
        }
    }

    /// The name of the environment variable of the setting.
    pub open spec fn variable(self) -> Seq<char> {
        match self {
            Setting::Host => "HOST"@,
            Setting::Port => "PORT"@,
            Setting::Workers => "WORKERS"@,
            Setting::MaxJsonPayloadSize => "MAX_JSON_PAYLOAD_SIZE"@,
            Setting::ModelName => "MODEL_NAME"@,
            Setting::ModelPath => "MODEL_PATH"@,
            Setting::HuggingfaceCacheDir => "HUGGINGFACE_CACHE_DIR"@,
            Setting::ContextLength => "CONTEXT_LENGTH"@,
            Setting::Temperature => "TEMPERATURE"@,
            Setting::TopP => "TOP_P"@,
            Setting::MaxTokens => "MAX_TOKENS"@,
            Setting::Quantized => "QUANTIZED"@,
            Setting::QuantizationBits => "QUANTIZATION_BITS"@,
            Setting::RateLimitRequests => "RATE_LIMIT_REQUESTS"@,
            Setting::RateLimitPeriod => "RATE_LIMIT_PERIOD"@,
            Setting::AllowedOrigins => "ALLOWED_ORIGINS"@,
            Setting::RedisUrl => "REDIS_URL"@,
            Setting::RedisMaxMemoryMb => "REDIS_MAX_MEMORY_MB"@,
            Setting::RedisTtlSeconds => "REDIS_TTL_SECONDS"@,
            Setting::SqlitePath => "SQLITE_PATH"@,
            Setting::SqliteMaxSizeGb => "SQLITE_MAX_SIZE_GB"@,
            Setting::SqliteTtlDays => "SQLITE_TTL_DAYS"@,
            Setting::SimilarityThreshold => "SIMILARITY_THRESHOLD"@,
            Setting::MaxSimilarResults => "MAX_SIMILAR_RESULTS"@,
            Setting::MemoryCacheEntries => "MEMORY_CACHE_ENTRIES"@,
            Setting::MemoryTtlSeconds => "MEMORY_TTL_SECONDS"@,
            Setting::CacheProbability => "CACHE_PROBABILITY"@,
            Setting::OpenrouterApiKey => "OPENROUTER_API_KEY"@,
            Setting::OpenrouterBaseUrl => "OPENROUTER_BASE_URL"@,
            Setting::OpenrouterDefaultModel => "OPENROUTER_DEFAULT_MODEL"@,
        }
    }

    /// The settings in the order in which they are applied.
    pub fn all() -> (list: Vec<Setting>)
        ensures
            list@.len() == SETTING_COUNT,
            forall|i: int| 0 <= i < SETTING_COUNT ==> #[trigger] list@[i] == Setting::at(i),
    {
        vec![
            Setting::Host,
            Setting::Port,
            Setting::Workers,
            Setting::MaxJsonPayloadSize,
            Setting::ModelName,
            Setting::ModelPath,
            Setting::HuggingfaceCacheDir,
            Setting::ContextLength,
            Setting::Temperature,
            Setting::TopP,
            Setting::MaxTokens,
            Setting::Quantized,
            Setting::QuantizationBits,
            Setting::RateLimitRequests,
            Setting::RateLimitPeriod,
            Setting::AllowedOrigins,
            Setting::RedisUrl,
            Setting::RedisMaxMemoryMb,
            Setting::RedisTtlSeconds,
            Setting::SqlitePath,
            Setting::SqliteMaxSizeGb,
            Setting::SqliteTtlDays,
            Setting::SimilarityThreshold,
            Setting::MaxSimilarResults,
            Setting::MemoryCacheEntries,
            Setting::MemoryTtlSeconds,
            Setting::CacheProbability,
            Setting::OpenrouterApiKey,
            Setting::OpenrouterBaseUrl,
            Setting::OpenrouterDefaultModel,
        ]
    }

    /// The name of the environment variable of the setting.
    pub fn name(&self) -> (name: &'static str)
        ensures
            name@ == self.variable(),
    {
        match self {
            Setting::Host => "HOST",
            Setting::Port => "PORT",
            Setting::Workers => "WORKERS",
            Setting::MaxJsonPayloadSize => "MAX_JSON_PAYLOAD_SIZE",
            Setting::ModelName => "MODEL_NAME",
            Setting::ModelPath => "MODEL_PATH",
            Setting::HuggingfaceCacheDir => "HUGGINGFACE_CACHE_DIR",
            Setting::ContextLength => "CONTEXT_LENGTH",
            Setting::Temperature => "TEMPERATURE",
            Setting::TopP => "TOP_P",
            Setting::MaxTokens => "MAX_TOKENS",
            Setting::Quantized => "QUANTIZED",
            Setting::QuantizationBits => "QUANTIZATION_BITS",
            Setting::RateLimitRequests => "RATE_LIMIT_REQUESTS",
            Setting::RateLimitPeriod => "RATE_LIMIT_PERIOD",
            Setting::AllowedOrigins => "ALLOWED_ORIGINS",
            Setting::RedisUrl => "REDIS_URL",
            Setting::RedisMaxMemoryMb => "REDIS_MAX_MEMORY_MB",
            Setting::RedisTtlSeconds => "REDIS_TTL_SECONDS",
            Setting::SqlitePath => "SQLITE_PATH",
            Setting::SqliteMaxSizeGb => "SQLITE_MAX_SIZE_GB",
            Setting::SqliteTtlDays => "SQLITE_TTL_DAYS",
            Setting::SimilarityThreshold => "SIMILARITY_THRESHOLD",
            Setting::MaxSimilarResults => "MAX_SIMILAR_RESULTS",
            Setting::MemoryCacheEntries => "MEMORY_CACHE_ENTRIES",
            Setting::MemoryTtlSeconds => "MEMORY_TTL_SECONDS",
            Setting::CacheProbability => "CACHE_PROBABILITY",
            Setting::OpenrouterApiKey => "OPENROUTER_API_KEY",
            Setting::OpenrouterBaseUrl => "OPENROUTER_BASE_URL",
            Setting::OpenrouterDefaultModel => "OPENROUTER_DEFAULT_MODEL",
        }
    }
}

/// A value that does not fit its setting.
#[derive(Debug, Clone)]
pub struct ConfigError {
    pub setting: Setting,
    pub value: String,
}

/// A configuration as the contracts see it.
pub struct Configured {
    pub host: Seq<char>,
    pub port: u16,
    pub workers: usize,
    pub max_json_payload_size: usize,
    pub model_name: Seq<char>,
    pub model_path: Option<Seq<char>>,
    pub huggingface_cache_dir: Option<Seq<char>>,
    pub context_length: usize,
    pub temperature: Seq<char>,
    pub top_p: Seq<char>,
    pub max_tokens: usize,
    pub quantized: bool,
    pub quantization_bits: Option<usize>,
    pub rate_limit_requests: u32,
    pub rate_limit_period: u64,
    pub allowed_origins: Seq<Seq<char>>,
    pub redis_url: Seq<char>,
    pub redis_max_memory_mb: u64,
    pub redis_ttl_seconds: u64,
    pub sqlite_path: Seq<char>,
    pub sqlite_max_size_gb: u64,
    pub sqlite_ttl_days: u32,
    pub similarity_threshold: Seq<char>,
    pub max_similar_results: usize,
    pub memory_cache_entries: usize,
    pub memory_ttl_seconds: u64,
    pub cache_probability: Seq<char>,
    pub api_key: Seq<char>,
    pub base_url: Seq<char>,
    pub default_model: Seq<char>,
}

impl View for Config {
    type V = Configured;

    open spec fn view(&self) -> Configured {
        Configured {
            host: self.server.host@,
            port: self.server.port,
            workers: self.server.workers,
            max_json_payload_size: self.server.max_json_payload_size,
            model_name: self.ai.model_name@,
            model_path: text_of(self.ai.model_path),
            huggingface_cache_dir: text_of(self.ai.huggingface_cache_dir),
            context_length: self.ai.context_length,
            temperature: self.ai.temperature@,
            top_p: self.ai.top_p@,
            max_tokens: self.ai.max_tokens,
            quantized: self.ai.quantized,
            quantization_bits: self.ai.quantization_bits,
            rate_limit_requests: self.security.rate_limit_requests,
            rate_limit_period: self.security.rate_limit_period,
            allowed_origins: views(self.security.allowed_origins@),
            redis_url: self.cache.redis_url@,
            redis_max_memory_mb: self.cache.redis_max_memory_mb,
            redis_ttl_seconds: self.cache.redis_ttl_seconds,
            sqlite_path: self.cache.sqlite_path@,
            sqlite_max_size_gb: self.cache.sqlite_max_size_gb,
            sqlite_ttl_days: self.cache.sqlite_ttl_days,
            similarity_threshold: self.cache.similarity_threshold@,
            max_similar_results: self.cache.max_similar_results,
            memory_cache_entries: self.cache.memory_cache_entries,
            memory_ttl_seconds: self.cache.memory_ttl_seconds,
            cache_probability: self.cache.cache_probability@,
            api_key: self.openrouter.api_key@,
            base_url: self.openrouter.base_url@,
            default_model: self.openrouter.default_model@,
        }
    }
}

/// The origins that a list names: its fields between commas, each without
/// the white space around it.
pub open spec fn origins_of(list: Seq<char>) -> Seq<Seq<char>> {
    fields(list, ',').map_values(|field: Seq<char>| trimmed(field))
}

/// The number that `value` stands for as a count of things in memory.
pub open spec fn size_value(value: Seq<char>) -> Option<u64> {
    unsigned(value, usize::MAX as u64)
}

/// `config` with `setting` set to what `value` stands for; nothing where
/// `value` does not fit the setting. A setting that is a fraction takes the
/// value as it stands.
pub open spec fn with_setting(config: Configured, setting: Setting, value: Seq<char>) -> Option<
    Configured,
> {
    match setting {
        Setting::Host => Some(Configured { host: value, ..config }),
        Setting::Port => match unsigned(value, 0xffff) {
            Some(n) => Some(Configured { port: n as u16, ..config }),
            None => None,
        },
        Setting::Workers => match size_value(value) {
            Some(n) => Some(Configured { workers: n as usize, ..config }),
            None => None,
        },
        Setting::MaxJsonPayloadSize => match size_value(value) {
            Some(n) => Some(Configured { max_json_payload_size: n as usize, ..config }),
            None => None,
        },
        Setting::ModelName => Some(Configured { model_name: value, ..config }),
        Setting::ModelPath => Some(Configured { model_path: Some(value), ..config }),
        Setting::HuggingfaceCacheDir => Some(
            Configured { huggingface_cache_dir: Some(value), ..config },
        ),
        Setting::ContextLength => match size_value(value) {
            Some(n) => Some(Configured { context_length: n as usize, ..config }),
            None => None,
        },
        Setting::Temperature => Some(Configured { temperature: value, ..config }),
        Setting::TopP => Some(Configured { top_p: value, ..config }),
        Setting::MaxTokens => match size_value(value) {
            Some(n) => Some(Configured { max_tokens: n as usize, ..config }),
            None => None,
        },
        Setting::Quantized => match truth_value(value) {
            Some(flag) => Some(Configured { quantized: flag, ..config }),
            None => None,
        },
        Setting::QuantizationBits => match size_value(value) {
            Some(n) => Some(Configured { quantization_bits: Some(n as usize), ..config }),
            None => None,
        },
        Setting::RateLimitRequests => match unsigned(value, 0xffff_ffff) {
            Some(n) => Some(Configured { rate_limit_requests: n as u32, ..config }),
            None => None,
        },
        Setting::RateLimitPeriod => match unsigned(value, u64::MAX) {
            Some(n) => Some(Configured { rate_limit_period: n, ..config }),
            None => None,
        },
        Setting::AllowedOrigins => Some(
            Configured { allowed_origins: origins_of(value), ..config },
        ),
        Setting::RedisUrl => Some(Configured { redis_url: value, ..config }),
        Setting::RedisMaxMemoryMb => match unsigned(value, u64::MAX) {
            Some(n) => Some(Configured { redis_max_memory_mb: n, ..config }),
            None => None,
        },
        Setting::RedisTtlSeconds => match unsigned(value, u64::MAX) {
            Some(n) => Some(Configured { redis_ttl_seconds: n, ..config }),
            None => None,
        },
        Setting::SqlitePath => Some(Configured { sqlite_path: value, ..config }),
        Setting::SqliteMaxSizeGb => match unsigned(value, u64::MAX) {
            Some(n) => Some(Configured { sqlite_max_size_gb: n, ..config }),
            None => None,
        },
        Setting::SqliteTtlDays => match unsigned(value, 0xffff_ffff) {
            Some(n) => Some(Configured { sqlite_ttl_days: n as u32, ..config }),
            None => None,
        },
        Setting::SimilarityThreshold => Some(Configured { similarity_threshold: value, ..config }),
        Setting::MaxSimilarResults => match size_value(value) {
            Some(n) => Some(Configured { max_similar_results: n as usize, ..config }),
            None => None,
        },
        Setting::MemoryCacheEntries => match size_value(value) {
            Some(n) => Some(Configured { memory_cache_entries: n as usize, ..config }),
            None => None,
        },
        Setting::MemoryTtlSeconds => match unsigned(value, u64::MAX) {
            Some(n) => Some(Configured { memory_ttl_seconds: n, ..config }),
            None => None,
        },
        Setting::CacheProbability => Some(Configured { cache_probability: value, ..config }),
        Setting::OpenrouterApiKey => Some(Configured { api_key: value, ..config }),
        Setting::OpenrouterBaseUrl => Some(Configured { base_url: value, ..config }),
        Setting::OpenrouterDefaultModel => Some(Configured { default_model: value, ..config }),
    }
}

/// What applying the first `count` values leads to: the configuration that
/// they make of `config`, or the index of the first value that does not fit
/// its setting. `values` holds, for each setting in order, the value of its
/// variable where the variable is set.
pub open spec fn applied(config: Configured, values: Seq<Option<Seq<char>>>, count: nat) -> Result<
    Configured,
    int,
>
    decreases count,
{
    if count == 0 {
        Ok(config)
    } else {
        match applied(config, values, (count - 1) as nat) {
            Err(index) => Err(index),
            Ok(so_far) => match values[count - 1] {
                None => Ok(so_far),
                Some(value) => match with_setting(so_far, Setting::at(count - 1), value) {
                    Some(next) => Ok(next),
                    None => Err(count - 1),
                },
            },
        }
    }
}

/// The origins that `list` names.
pub fn parse_origins(list: &str) -> (origins: Vec<String>)
    ensures
        views(origins@) == origins_of(list@),
{
    let parts = split_on(list, ',');
    let mut origins: Vec<String> = Vec::new();
    let mut i: usize = 0;
    while i < parts.len()
        invariant
            i <= parts.len(),
            views(parts@) == fields(list@, ','),
            origins.len() == i,
            forall|k: int| 0 <= k < i ==> (#[trigger] origins@[k])@ == origins_of(list@)[k],
        decreases parts.len() - i,
    {
        assert(views(parts@)[i as int] == parts@[i as int]@);
        origins.push(trim(parts[i].as_str()));
        i = i + 1;
    }
    assert(views(origins@) =~= origins_of(list@));
    origins
}

fn parse_size(value: &str) -> (number: Option<usize>)
    ensures
        size_value(value@) == match number {
            Some(n) => Some(n as u64),
            None => None,
        },
{
    match parse_unsigned(value, usize::MAX as u64) {
        Some(n) => Some(n as usize),
        None => None,
    }
}

impl Config {
    /// Sets `setting` to what `value` stands for. A value that does not
    /// fit the setting changes nothing and is handed back as the error. A
    /// setting that is a fraction takes the value as it stands: the caller
    /// hands in the numeral of a fraction.
    pub fn set(&mut self, setting: Setting, value: &str) -> (done: Result<(), ConfigError>)
        ensures
            match with_setting(old(self)@, setting, value@) {
                Some(next) => done is Ok && final(self)@ == next,
                None => done is Err && done->Err_0.setting == setting && done->Err_0.value@
                    == value@ && final(self)@ == old(self)@,
            },
    {
        let mut fits = true;
        match setting {
            Setting::Host => {
                self.server.host = String::from_str(value);
            },
            Setting::Port => match parse_unsigned(value, 0xffff) {
                Some(n) => {
                    self.server.port = n as u16;
                },
                None => {
                    fits = false;
                },
            },
            Setting::Workers => match parse_size(value) {
                Some(n) => {
                    self.server.workers = n;
                },
                None => {
                    fits = false;
                },
            },
            Setting::MaxJsonPayloadSize => match parse_size(value) {
                Some(n) => {
                    self.server.max_json_payload_size = n;
                },
                None => {
                    fits = false;
                },
            },
            Setting::ModelName => {
                self.ai.model_name = String::from_str(value);
            },
            Setting::ModelPath => {
                self.ai.model_path = Some(String::from_str(value));
            },
            Setting::HuggingfaceCacheDir => {
                self.ai.huggingface_cache_dir = Some(String::from_str(value));
            },
            Setting::ContextLength => match parse_size(value) {
                Some(n) => {
                    self.ai.context_length = n;
                },
                None => {
                    fits = false;
                },
            },
            Setting::Temperature => {
                self.ai.temperature = String::from_str(value);
            },
            Setting::TopP => {
                self.ai.top_p = String::from_str(value);
            },
            Setting::MaxTokens => match parse_size(value) {
                Some(n) => {
                    self.ai.max_tokens = n;
                },
                None => {
                    fits = false;
                },
            },
            Setting::Quantized => match parse_bool(value) {
                Some(flag) => {
                    self.ai.quantized = flag;
                },
                None => {
                    fits = false;
                },
            },
            Setting::QuantizationBits => match parse_size(value) {
                Some(n) => {
                    self.ai.quantization_bits = Some(n);
                },
                None => {
                    fits = false;
                },
            },
            Setting::RateLimitRequests => match parse_unsigned(value, 0xffff_ffff) {
                Some(n) => {
                    self.security.rate_limit_requests = n as u32;
                },
                None => {
                    fits = false;
                },
            },
            Setting::RateLimitPeriod => match parse_unsigned(value, u64::MAX) {
                Some(n) => {
                    self.security.rate_limit_period = n;
                },
                None => {
                    fits = false;
                },
            },
            Setting::AllowedOrigins => {
                self.security.allowed_origins = parse_origins(value);
            },
            Setting::RedisUrl => {
                self.cache.redis_url = String::from_str(value);
            },
            Setting::RedisMaxMemoryMb => match parse_unsigned(value, u64::MAX) {
                Some(n) => {
                    self.cache.redis_max_memory_mb = n;
                },
                None => {
                    fits = false;
                },
            },
            Setting::RedisTtlSeconds => match parse_unsigned(value, u64::MAX) {
                Some(n) => {
                    self.cache.redis_ttl_seconds = n;
                },
                None => {
                    fits = false;
                },
            },
            Setting::SqlitePath => {
                self.cache.sqlite_path = String::from_str(value);
            },
            Setting::SqliteMaxSizeGb => match parse_unsigned(value, u64::MAX) {
                Some(n) => {
                    self.cache.sqlite_max_size_gb = n;
                },
                None => {
                    fits = false;
                },
            },
            Setting::SqliteTtlDays => match parse_unsigned(value, 0xffff_ffff) {
                Some(n) => {
                    self.cache.sqlite_ttl_days = n as u32;
                },
                None => {
                    fits = false;
                },
            },
            Setting::SimilarityThreshold => {
                self.cache.similarity_threshold = String::from_str(value);
            },
            Setting::MaxSimilarResults => match parse_size(value) {
                Some(n) => {
                    self.cache.max_similar_results = n;
                },
                None => {
                    fits = false;
                },
            },
            Setting::MemoryCacheEntries => match parse_size(value) {
                Some(n) => {
                    self.cache.memory_cache_entries = n;
                },
                None => {
                    fits = false;
                },
            },
            Setting::MemoryTtlSeconds => match parse_unsigned(value, u64::MAX) {
                Some(n) => {
                    self.cache.memory_ttl_seconds = n;
                },
                None => {
                    fits = false;
                },
            },
            Setting::CacheProbability => {
                self.cache.cache_probability = String::from_str(value);
            },
            Setting::OpenrouterApiKey => {
                self.openrouter.api_key = String::from_str(value);
            },
            Setting::OpenrouterBaseUrl => {
                self.openrouter.base_url = String::from_str(value);
            },
            Setting::OpenrouterDefaultModel => {
                self.openrouter.default_model = String::from_str(value);
            },
        }
        if fits {
            Ok(())
        } else {
            Err(ConfigError { setting, value: String::from_str(value) })
        }
    }

    /// The configuration that the environment makes of the defaults for a
    /// server of `workers` workers. `values` holds, for each setting in
    /// order, the value of its variable where the variable is set. The
    /// values are applied in order; the first that does not fit its
    /// setting is handed back as the error.
    pub fn from_env(workers: usize, values: &Vec<Option<String>>) -> (made: Result<
        Config,
        ConfigError,
    >)
        requires
            values@.len() == SETTING_COUNT,
        ensures
            match applied(
                Config::default_view(workers),
                values@.map_values(|value: Option<String>| text_of(value)),
                SETTING_COUNT as nat,
            ) {
                Ok(view) => made is Ok && made->Ok_0@ == view,
                Err(index) => made is Err && made->Err_0.setting == Setting::at(index)
                    && values@[index] is Some && made->Err_0.value@ == values@[index]->0@,
            },
    {
        let mut config = Config::defaults(workers);
        let settings = Setting::all();
        let ghost given = values@.map_values(|value: Option<String>| text_of(value));
        let mut i: usize = 0;
        while i < SETTING_COUNT
            invariant
                i <= SETTING_COUNT,
                values@.len() == SETTING_COUNT,
                settings@.len() == SETTING_COUNT,
                forall|k: int| 0 <= k < SETTING_COUNT ==> #[trigger] settings@[k] == Setting::at(k),
                given == values@.map_values(|value: Option<String>| text_of(value)),
                applied(Config::default_view(workers), given, i as nat) == Ok::<Configured, int>(
                    config@,
                ),
            decreases SETTING_COUNT - i,
        {
            assert(given[i as int] == text_of(values@[i as int]));
            assert(settings@[i as int] == Setting::at(i as int));
            match &values[i] {
                Some(value) => {
                    match config.set(settings[i], value.as_str()) {
                        Ok(()) => {},
                        Err(error) => {
                            proof {
                                lemma_applied_fails_on(
                                    Config::default_view(workers),
                                    given,
                                    i as int,
                                    SETTING_COUNT as nat,
                                );
                            }
                            return Err(error);
                        },
                    }
                },
                None => {},
            }
            i = i + 1;
        }
        Ok(config)
    }

    /// The defaults for a server of `workers` workers, as the contracts
    /// see them.
    pub open spec fn default_view(workers: usize) -> Configured {
        Configured {
            host: "0.0.0.0"@,
            port: 5732,
            workers,
            max_json_payload_size: 2_000_000,
            model_name: "TinyLlama/TinyLlama-1.1B-Chat-v1.0"@,
            model_path: None,
            huggingface_cache_dir: None,
            context_length: 2048,
            temperature: "0.7"@,
            top_p: "0.9"@,
            max_tokens: 2048,
            quantized: true,
            quantization_bits: Some(4usize),
            rate_limit_requests: 100,
            rate_limit_period: 3600,
            allowed_origins: seq!["*"@],
            redis_url: "redis://127.0.0.1:6379"@,
            redis_max_memory_mb: 2048,
            redis_ttl_seconds: 86_400,
            sqlite_path: "data/ai_cache.sqlite"@,
            sqlite_max_size_gb: 10,
            sqlite_ttl_days: 30,
            similarity_threshold: "0.92"@,
            max_similar_results: 3,
            memory_cache_entries: 512,
            memory_ttl_seconds: 3_600,
            cache_probability: "0.3"@,
            api_key: Seq::empty(),
            base_url: "https://openrouter.ai/api/v1"@,
            default_model: "openrouter/auto"@,
        }
    }

    /// The configuration that holds where nothing else is set, for a server
    /// of `workers` workers.
    pub fn defaults(workers: usize) -> (config: Config)
        ensures
            config.server.host@ == "0.0.0.0"@,
            config.server.port == 5732,
            config.server.workers == workers,
            config.server.max_json_payload_size == 2_000_000,
            config.ai.model_name@ == "TinyLlama/TinyLlama-1.1B-Chat-v1.0"@,
            config.ai.model_path is None,
            config.ai.huggingface_cache_dir is None,
            config.ai.context_length == 2048,
            config.ai.temperature@ == "0.7"@,
            config.ai.top_p@ == "0.9"@,
            config.ai.max_tokens == 2048,
            config.ai.quantized,
            config.ai.quantization_bits == Some(4usize),
            config.security.rate_limit_requests == 100,
            config.security.rate_limit_period == 3600,
            config.security.allowed_origins@.len() == 1,
            config.security.allowed_origins@[0]@ == "*"@,
            config.cache.redis_url@ == "redis://127.0.0.1:6379"@,
            config.cache.redis_max_memory_mb == 2048,
            config.cache.redis_ttl_seconds == 86_400,
            config.cache.sqlite_path@ == "data/ai_cache.sqlite"@,
            config.cache.sqlite_max_size_gb == 10,
            config.cache.sqlite_ttl_days == 30,
            config.cache.similarity_threshold@ == "0.92"@,
            config.cache.max_similar_results == 3,
            config.cache.memory_cache_entries == 512,
            config.cache.memory_ttl_seconds == 3_600,
            config.cache.cache_probability@ == "0.3"@,
            config.openrouter.api_key@ == Seq::<char>::empty(),
            config.openrouter.base_url@ == "https://openrouter.ai/api/v1"@,
            config.openrouter.default_model@ == "openrouter/auto"@,
            config@ == Config::default_view(workers),
    {
        let mut allowed_origins: Vec<String> = Vec::new();
        allowed_origins.push(String::from_str("*"));
        assert(views(allowed_origins@) =~= seq!["*"@]);
        Config {
            server: ServerConfig {
                host: String::from_str("0.0.0.0"),
                port: 5732,
                workers,
                max_json_payload_size: 2_000_000,
            },
            ai: AiConfig {
                model_name: String::from_str("TinyLlama/TinyLlama-1.1B-Chat-v1.0"),
                model_path: None,
                huggingface_cache_dir: None,
                context_length: 2048,
                temperature: String::from_str("0.7"),
                top_p: String::from_str("0.9"),
                max_tokens: 2048,
                quantized: true,
                quantization_bits: Some(4),
            },
            security: SecurityConfig {
                rate_limit_requests: 100,
                rate_limit_period: 3600,
                allowed_origins,
            },
            cache: CacheSettings {
                redis_url: String::from_str("redis://127.0.0.1:6379"),
                redis_max_memory_mb: 2048,
                redis_ttl_seconds: 86_400,
                sqlite_path: String::from_str("data/ai_cache.sqlite"),
                sqlite_max_size_gb: 10,
                sqlite_ttl_days: 30,
                similarity_threshold: String::from_str("0.92"),
                max_similar_results: 3,
                memory_cache_entries: 512,
                memory_ttl_seconds: 3_600,
                cache_probability: String::from_str("0.3"),
            },
            openrouter: OpenRouterSettings {
                api_key: String::new(),
                base_url: String::from_str("https://openrouter.ai/api/v1"),
                default_model: String::from_str("openrouter/auto"),
            },
        }
    }
}

/// Once a value has failed to fit, the values after it change nothing.
proof fn lemma_applied_fails_on(
    config: Configured,
    values: Seq<Option<Seq<char>>>,
    index: int,
    count: nat,
)
    requires
        0 <= index < count,
        applied(config, values, (index + 1) as nat) == Err::<Configured, int>(index),
    ensures
        applied(config, values, count) == Err::<Configured, int>(index),
    decreases count,
{
    if count > index + 1 {
        lemma_applied_fails_on(config, values, index, (count - 1) as nat);
    }
}

} // verus!
