use gateway_core::config::{parse_origins, Config, Setting, SETTING_COUNT};
use gateway_core::text::{parse_bool, parse_unsigned, same_text, split_on, trim};

fn unset() -> Vec<Option<String>> {
    vec![None; SETTING_COUNT]
}

fn position(setting: Setting) -> usize {
    Setting::all().iter().position(|candidate| *candidate == setting).unwrap()
}

fn with(pairs: &[(Setting, &str)]) -> Vec<Option<String>> {
    let mut values = unset();
    for (setting, value) in pairs {
        values[position(*setting)] = Some(value.to_string());
    }
    values
}

#[test]
fn numerals_are_digits_with_an_optional_plus() {
    assert_eq!(parse_unsigned("0", u64::MAX), Some(0));
    assert_eq!(parse_unsigned("5732", 0xffff), Some(5732));
    assert_eq!(parse_unsigned("+42", u64::MAX), Some(42));
    assert_eq!(parse_unsigned("007", u64::MAX), Some(7));
    assert_eq!(parse_unsigned("18446744073709551615", u64::MAX), Some(u64::MAX));
    assert_eq!(parse_unsigned("65535", 0xffff), Some(65535));
}

#[test]
fn numerals_out_of_range_or_ill_formed_are_rejected() {
    assert_eq!(parse_unsigned("", u64::MAX), None);
    assert_eq!(parse_unsigned("+", u64::MAX), None);
    assert_eq!(parse_unsigned("-1", u64::MAX), None);
    assert_eq!(parse_unsigned("++1", u64::MAX), None);
    assert_eq!(parse_unsigned(" 1", u64::MAX), None);
    assert_eq!(parse_unsigned("1 ", u64::MAX), None);
    assert_eq!(parse_unsigned("1.5", u64::MAX), None);
    assert_eq!(parse_unsigned("12a", u64::MAX), None);
    assert_eq!(parse_unsigned("\u{ff15}", u64::MAX), None);
    assert_eq!(parse_unsigned("65536", 0xffff), None);
    assert_eq!(parse_unsigned("18446744073709551616", u64::MAX), None);
    assert_eq!(parse_unsigned("99999999999999999999999999", u64::MAX), None);
    assert_eq!(parse_unsigned("18446744073709551616x", u64::MAX), None);
}

#[test]
fn numerals_agree_with_the_standard_parser() {
    for text in ["", "0", "+0", "-0", "255", "256", "+255", "0255", "2 5", "٣", "1e3", "0x10"] {
        assert_eq!(parse_unsigned(text, 255), text.parse::<u8>().ok().map(u64::from));
        assert_eq!(parse_unsigned(text, u64::MAX), text.parse::<u64>().ok());
    }
}

#[test]
fn truth_values_are_spelled_in_lower_case() {
    assert_eq!(parse_bool("true"), Some(true));
    assert_eq!(parse_bool("false"), Some(false));
    assert_eq!(parse_bool("True"), None);
    assert_eq!(parse_bool("1"), None);
    assert_eq!(parse_bool(""), None);
    assert_eq!(parse_bool(" true"), None);
}

#[test]
fn texts_are_compared_character_by_character() {
    assert!(same_text("", ""));
    assert!(same_text("héllo", "héllo"));
    assert!(!same_text("hello", "hellp"));
    assert!(!same_text("hello", "hell"));
    assert!(!same_text("", "a"));
}

#[test]
fn trimming_removes_white_space_at_both_ends_only() {
    assert_eq!(trim("  a b \t\n"), "a b");
    assert_eq!(trim("a"), "a");
    assert_eq!(trim(""), "");
    assert_eq!(trim(" \u{a0}\r\n"), "");
    assert_eq!(trim("\u{3000}x y\u{2003}"), "x y");
}

#[test]
fn splitting_keeps_empty_fields() {
    assert_eq!(split_on("a,b", ','), vec!["a", "b"]);
    assert_eq!(split_on("", ','), vec![""]);
    assert_eq!(split_on(",", ','), vec!["", ""]);
    assert_eq!(split_on("a,,b,", ','), vec!["a", "", "b", ""]);
    assert_eq!(split_on("abc", ','), vec!["abc"]);
}

#[test]
fn origins_are_the_trimmed_fields_of_the_list() {
    assert_eq!(parse_origins("*"), vec!["*"]);
    assert_eq!(
        parse_origins("https://a.example , https://b.example,  http://c"),
        vec!["https://a.example", "https://b.example", "http://c"]
    );
    assert_eq!(parse_origins("a,, b"), vec!["a", "", "b"]);
    assert_eq!(parse_origins(""), vec![""]);
}

#[test]
fn settings_are_listed_in_order_with_their_variables() {
    let all = Setting::all();
    assert_eq!(all.len(), SETTING_COUNT);
    assert_eq!(all.len(), 30);
    let names: Vec<&str> = all.iter().map(|setting| setting.name()).collect();
    assert_eq!(
        names,
        vec![
            "HOST", "PORT", "WORKERS", "MAX_JSON_PAYLOAD_SIZE", "MODEL_NAME", "MODEL_PATH",
            "HUGGINGFACE_CACHE_DIR", "CONTEXT_LENGTH", "TEMPERATURE", "TOP_P", "MAX_TOKENS",
            "QUANTIZED", "QUANTIZATION_BITS", "RATE_LIMIT_REQUESTS", "RATE_LIMIT_PERIOD",
            "ALLOWED_ORIGINS", "REDIS_URL", "REDIS_MAX_MEMORY_MB", "REDIS_TTL_SECONDS",
            "SQLITE_PATH", "SQLITE_MAX_SIZE_GB", "SQLITE_TTL_DAYS", "SIMILARITY_THRESHOLD",
            "MAX_SIMILAR_RESULTS", "MEMORY_CACHE_ENTRIES", "MEMORY_TTL_SECONDS",
            "CACHE_PROBABILITY", "OPENROUTER_API_KEY", "OPENROUTER_BASE_URL",
            "OPENROUTER_DEFAULT_MODEL",
        ]
    );
}

#[test]
fn empty_environment_gives_the_defaults() {
    let config = Config::from_env(4, &unset()).unwrap();
    assert_eq!(config.server.workers, 4);
    assert_eq!(config.server.port, 5732);
    assert_eq!(config.cache.memory_cache_entries, 512);
    assert_eq!(config.security.allowed_origins, vec!["*"]);
}

#[test]
fn environment_overrides_each_setting() {
    let values = with(&[
        (Setting::Host, "127.0.0.1"),
        (Setting::Port, "8080"),
        (Setting::Workers, "2"),
        (Setting::MaxJsonPayloadSize, "1024"),
        (Setting::ModelName, "org/model"),
        (Setting::ModelPath, "/models/m"),
        (Setting::HuggingfaceCacheDir, "/cache"),
        (Setting::ContextLength, "4096"),
        (Setting::Temperature, "0.5"),
        (Setting::TopP, "0.95"),
        (Setting::MaxTokens, "100"),
        (Setting::Quantized, "false"),
        (Setting::QuantizationBits, "8"),
        (Setting::RateLimitRequests, "7"),
        (Setting::RateLimitPeriod, "60"),
        (Setting::AllowedOrigins, "https://a , https://b"),
        (Setting::RedisUrl, "redis://cache:6379"),
        (Setting::RedisMaxMemoryMb, "64"),
        (Setting::RedisTtlSeconds, "0"),
        (Setting::SqlitePath, ""),
        (Setting::SqliteMaxSizeGb, "1"),
        (Setting::SqliteTtlDays, "2"),
        (Setting::SimilarityThreshold, "0.8"),
        (Setting::MaxSimilarResults, "9"),
        (Setting::MemoryCacheEntries, "16"),
        (Setting::MemoryTtlSeconds, "30"),
        (Setting::CacheProbability, "1"),
        (Setting::OpenrouterApiKey, "secret"),
        (Setting::OpenrouterBaseUrl, "https://cloud/v1"),
        (Setting::OpenrouterDefaultModel, "big"),
    ]);
    let config = Config::from_env(1, &values).unwrap();
    assert_eq!(config.server.host, "127.0.0.1");
    assert_eq!(config.server.port, 8080);
    assert_eq!(config.server.workers, 2);
    assert_eq!(config.server.max_json_payload_size, 1024);
    assert_eq!(config.ai.model_name, "org/model");
    assert_eq!(config.ai.model_path, Some("/models/m".to_string()));
    assert_eq!(config.ai.huggingface_cache_dir, Some("/cache".to_string()));
    assert_eq!(config.ai.context_length, 4096);
    assert_eq!(config.ai.temperature, "0.5");
    assert_eq!(config.ai.top_p, "0.95");
    assert_eq!(config.ai.max_tokens, 100);
    assert!(!config.ai.quantized);
    assert_eq!(config.ai.quantization_bits, Some(8));
    assert_eq!(config.security.rate_limit_requests, 7);
    assert_eq!(config.security.rate_limit_period, 60);
    assert_eq!(config.security.allowed_origins, vec!["https://a", "https://b"]);
    assert_eq!(config.cache.redis_url, "redis://cache:6379");
    assert_eq!(config.cache.redis_max_memory_mb, 64);
    assert_eq!(config.cache.redis_ttl_seconds, 0);
    assert_eq!(config.cache.sqlite_path, "");
    assert_eq!(config.cache.sqlite_max_size_gb, 1);
    assert_eq!(config.cache.sqlite_ttl_days, 2);
    assert_eq!(config.cache.similarity_threshold, "0.8");
    assert_eq!(config.cache.max_similar_results, 9);
    assert_eq!(config.cache.memory_cache_entries, 16);
    assert_eq!(config.cache.memory_ttl_seconds, 30);
    assert_eq!(config.cache.cache_probability, "1");
    assert_eq!(config.openrouter.api_key, "secret");
    assert_eq!(config.openrouter.base_url, "https://cloud/v1");
    assert_eq!(config.openrouter.default_model, "big");
}

#[test]
fn first_value_that_does_not_fit_is_the_error() {
    let values = with(&[
        (Setting::Host, "h"),
        (Setting::Workers, "many"),
        (Setting::Port, "70000"),
        (Setting::Quantized, "yes"),
    ]);
    let error = Config::from_env(1, &values).unwrap_err();
    assert_eq!(error.setting, Setting::Port);
    assert_eq!(error.value, "70000");
    let error = Config::from_env(1, &with(&[(Setting::Quantized, "yes")])).unwrap_err();
    assert_eq!(error.setting, Setting::Quantized);
    assert_eq!(error.value, "yes");
    let error = Config::from_env(1, &with(&[(Setting::SqliteTtlDays, "4294967296")])).unwrap_err();
    assert_eq!(error.setting, Setting::SqliteTtlDays);
}

#[test]
fn value_that_does_not_fit_changes_nothing() {
    let mut config = Config::defaults(1);
    assert!(config.set(Setting::Port, "x").is_err());
    assert_eq!(config.server.port, 5732);
    assert!(config.set(Setting::Port, "1").is_ok());
    assert_eq!(config.server.port, 1);
    assert!(config.set(Setting::MemoryTtlSeconds, "-1").is_err());
    assert_eq!(config.cache.memory_ttl_seconds, 3600);
}
