use groundhog::infrastructure::config::{
    join_path, AiConfig, AiProvider, CommandsConfig, Config, ConfigSource, ExplainConfig,
    LogFormat, LogLevel, LoggingConfig, OutputConfig, PerformanceConfig,
};
use groundhog::infrastructure::error::{ConfigError, GroundhogError};

#[test]
fn test_default_config() {
    let config = Config::default();
    assert!(config.validate().is_ok());
}

#[test]
fn test_config_validation() {
    let mut config = Config::default();

    // Test invalid max_file_size
    config.performance.max_file_size = 0;
    assert!(config.validate().is_err());

    // Reset and test invalid timeout
    config = Config::default();
    config.performance.timeout = 0;
    assert!(config.validate().is_err());

    // Reset and test invalid threads
    config = Config::default();
    config.performance.threads = 0;
    assert!(config.validate().is_err());
}

#[test]
fn test_load_nonexistent_file() {
    let result = Config::load_from_file("nonexistent.toml".to_string(), ConfigSource::Missing);
    assert!(result.is_ok()); // Should return default config
}

#[test]
fn test_invalid_toml_format() {
    let diagnostic = toml::from_str::<toml::Table>("invalid toml content [[[")
        .unwrap_err()
        .to_string();

    let result = Config::load_from_file(
        "invalid.toml".to_string(),
        ConfigSource::Malformed { diagnostic },
    );
    assert!(result.is_err());

    if let Err(GroundhogError::Config(ConfigError::InvalidFormat { .. })) = result {
        // Expected error type
    } else {
        panic!("Expected ConfigError::InvalidFormat");
    }
}

fn assert_is_default(config: &Config) {
    assert!(matches!(config.logging.level, LogLevel::Info));
    assert!(matches!(config.logging.format, LogFormat::Pretty));
    assert!(config.logging.file.is_none());
    assert!(config.logging.timestamps);
    assert!(!config.logging.thread_ids);
    assert!(config.commands.default.is_none());
    let explain = config.commands.explain.as_ref().unwrap();
    assert!(explain.enabled);
    assert!(explain.format.is_none());
    assert!(config.ai.is_none());
    assert_eq!(config.output.format, "text");
    assert!(config.output.color);
    assert_eq!(config.output.pager, "auto");
    assert_eq!(config.performance.max_file_size, 100);
    assert_eq!(config.performance.timeout, 30);
    assert_eq!(config.performance.threads, 4);
}

fn custom_config() -> Config {
    Config {
        logging: LoggingConfig {
            level: LogLevel::Debug,
            format: LogFormat::Json,
            file: Some("/var/log/groundhog.log".to_string()),
            timestamps: false,
            thread_ids: true,
        },
        commands: CommandsConfig {
            default: Some("explain".to_string()),
            explain: Some(ExplainConfig { enabled: false, format: Some("md".to_string()) }),
        },
        ai: Some(AiConfig {
            provider: AiProvider::Local,
            model: "small".to_string(),
            api_key: None,
            endpoint: Some("http://localhost:8080".to_string()),
        }),
        output: OutputConfig { format: "json".to_string(), color: false, pager: "less".to_string() },
        performance: PerformanceConfig { max_file_size: 7, timeout: 60, threads: 2 },
    }
}

#[test]
fn defaults_of_every_section() {
    assert_is_default(&Config::default());
    let logging = LoggingConfig::default();
    assert!(matches!(logging.level, LogLevel::Info));
    let commands = CommandsConfig::default();
    assert!(commands.explain.is_some());
    let explain = ExplainConfig::default();
    assert!(explain.enabled && explain.format.is_none());
    let output = OutputConfig::default();
    assert_eq!((output.format.as_str(), output.color, output.pager.as_str()), ("text", true, "auto"));
    let performance = PerformanceConfig::default();
    assert_eq!(
        (performance.max_file_size, performance.timeout, performance.threads),
        (100, 30, 4)
    );
}

fn invalid_value(result: Result<(), GroundhogError>) -> (String, String, String) {
    match result {
        Err(GroundhogError::Config(ConfigError::InvalidValue { key, value, expected })) => {
            (key, value, expected)
        }
        other => panic!("expected Config/InvalidValue, got {:?}", other),
    }
}

#[test]
fn zero_limit_is_named() {
    let mut config = Config::default();
    config.performance.max_file_size = 0;
    assert_eq!(
        invalid_value(config.validate()),
        ("performance.max_file_size".to_string(), "0".to_string(), "positive integer".to_string())
    );

    let mut config = Config::default();
    config.performance.timeout = 0;
    assert_eq!(
        invalid_value(config.validate()),
        ("performance.timeout".to_string(), "0".to_string(), "positive integer".to_string())
    );

    let mut config = Config::default();
    config.performance.threads = 0;
    assert_eq!(
        invalid_value(config.validate()),
        ("performance.threads".to_string(), "0".to_string(), "positive integer".to_string())
    );
}

#[test]
fn first_zero_limit_is_reported() {
    let mut config = Config::default();
    config.performance.timeout = 0;
    config.performance.threads = 0;
    assert_eq!(invalid_value(config.validate()).0, "performance.timeout");
    config.performance.max_file_size = 0;
    assert_eq!(invalid_value(config.validate()).0, "performance.max_file_size");
}

#[test]
fn invalid_value_is_a_general_error() {
    let mut config = Config::default();
    config.performance.threads = 0;
    let error = config.validate().unwrap_err();
    assert_eq!(error.exit_code(), 1);
    assert_eq!(error.to_string(), "Configuration error");
}

#[test]
fn limits_of_one_are_valid() {
    let mut config = custom_config();
    config.performance = PerformanceConfig { max_file_size: 1, timeout: 1, threads: 1 };
    assert!(config.validate().is_ok());
    config.performance =
        PerformanceConfig { max_file_size: u64::MAX, timeout: u64::MAX, threads: usize::MAX };
    assert!(config.validate().is_ok());
}

#[test]
fn validation_leaves_the_configuration_alone() {
    let mut config = custom_config();
    config.performance.timeout = 0;
    assert!(config.validate().is_err());
    assert_eq!(config.performance.timeout, 0);
    assert_eq!(config.performance.max_file_size, 7);
    assert_eq!(config.output.pager, "less");
}

#[test]
fn join_path_adds_one_separator() {
    assert_eq!(join_path("/home/user", ".groundhog"), "/home/user/.groundhog");
    assert_eq!(join_path("/home/user/", ".groundhog"), "/home/user/.groundhog");
    assert_eq!(join_path("", "config.toml"), "config.toml");
    assert_eq!(join_path("/", "etc"), "/etc");
    assert_eq!(join_path("relative", "x"), "relative/x");
    assert_eq!(join_path("/home/user", ""), "/home/user/");
}

#[test]
fn join_path_lets_an_absolute_component_win() {
    assert_eq!(join_path("/home/user", "/etc/passwd"), "/etc/passwd");
    assert_eq!(join_path("", "/"), "/");
}

#[test]
fn join_path_agrees_with_the_standard_library() {
    for (base, component) in [
        ("/home/user", ".groundhog"),
        ("/home/user/", "config.toml"),
        ("", "x"),
        ("/", "x"),
        ("a/b", "c"),
        ("a", "/c"),
        ("/home/üser", "ä"),
    ] {
        let expected = std::path::Path::new(base).join(component);
        assert_eq!(join_path(base, component), expected.to_str().unwrap());
    }
}

#[test]
fn search_paths_in_order_of_precedence() {
    let paths = Config::get_config_search_paths(
        Some("explicit.toml".to_string()),
        Some("/env/config.toml".to_string()),
        Some("/home/user".to_string()),
    );
    assert_eq!(
        paths,
        vec![
            "explicit.toml".to_string(),
            "/env/config.toml".to_string(),
            "./groundhog.toml".to_string(),
            "/home/user/.groundhog/config.toml".to_string(),
            "/etc/groundhog/config.toml".to_string(),
        ]
    );
}

#[test]
fn search_paths_without_optional_sources() {
    let paths = Config::get_config_search_paths(None, None, None);
    assert_eq!(
        paths,
        vec!["./groundhog.toml".to_string(), "/etc/groundhog/config.toml".to_string()]
    );
    let paths = Config::get_config_search_paths(None, Some("e.toml".to_string()), None);
    assert_eq!(paths[0], "e.toml");
    assert_eq!(paths.len(), 3);
    let paths = Config::get_config_search_paths(None, None, Some("/root/".to_string()));
    assert_eq!(paths[1], "/root/.groundhog/config.toml");
}

#[test]
fn source_states() {
    assert!(!ConfigSource::Missing.is_present());
    assert!(ConfigSource::Unreadable.is_present());
    assert!(ConfigSource::Malformed { diagnostic: "x".to_string() }.is_present());
    assert!(ConfigSource::Parsed { config: Config::default() }.is_present());
}

#[test]
fn load_from_file_gives_what_was_parsed() {
    let loaded = Config::load_from_file(
        "custom.toml".to_string(),
        ConfigSource::Parsed { config: custom_config() },
    )
    .unwrap();
    assert!(matches!(loaded.logging.level, LogLevel::Debug));
    assert_eq!(loaded.performance.timeout, 60);
    assert_eq!(loaded.ai.unwrap().model, "small");
}

#[test]
fn load_from_file_reports_an_unreadable_file_as_not_found() {
    let result = Config::load_from_file("secret.toml".to_string(), ConfigSource::Unreadable);
    match result {
        Err(error) => {
            assert_eq!(error.exit_code(), 66);
            match error {
                GroundhogError::Config(ConfigError::NotFound { path }) => {
                    assert_eq!(path, "secret.toml")
                }
                other => panic!("expected Config/NotFound, got {:?}", other),
            }
        }
        other => panic!("expected Config/NotFound, got {:?}", other),
    }
}

#[test]
fn load_from_file_keeps_path_and_diagnostic_of_a_malformed_file() {
    let result = Config::load_from_file(
        "bad.toml".to_string(),
        ConfigSource::Malformed { diagnostic: "expected `=`".to_string() },
    );
    match result {
        Err(GroundhogError::Config(ConfigError::InvalidFormat { path, line, source })) => {
            assert_eq!(path, "bad.toml");
            assert_eq!(line, None);
            assert_eq!(source, "expected `=`");
        }
        other => panic!("expected Config/InvalidFormat, got {:?}", other),
    }
}

fn candidates() -> Vec<String> {
    Config::get_config_search_paths(Some("explicit.toml".to_string()), None, None)
}

#[test]
fn missing_sources_resolve_to_defaults() {
    let found = vec![ConfigSource::Missing, ConfigSource::Missing, ConfigSource::Missing];
    let config = Config::load_hierarchical(candidates(), found).unwrap();
    assert_is_default(&config);
    assert!(config.validate().is_ok());
}

#[test]
fn empty_record_resolves_to_defaults() {
    assert_is_default(&Config::load_hierarchical(candidates(), Vec::new()).unwrap());
    assert_is_default(&Config::load_hierarchical(Vec::new(), Vec::new()).unwrap());
    let found = vec![ConfigSource::Parsed { config: custom_config() }];
    assert_is_default(&Config::load_hierarchical(Vec::new(), found).unwrap());
}

#[test]
fn first_existing_source_is_loaded() {
    let mut second = custom_config();
    second.performance.timeout = 99;
    let found = vec![
        ConfigSource::Missing,
        ConfigSource::Parsed { config: custom_config() },
        ConfigSource::Parsed { config: second },
    ];
    let config = Config::load_hierarchical(candidates(), found).unwrap();
    assert_eq!(config.performance.timeout, 60);
}

#[test]
fn malformed_explicit_file_is_a_data_error() {
    let diagnostic = toml::from_str::<toml::Table>("invalid toml content [[[")
        .unwrap_err()
        .to_string();
    let found = vec![
        ConfigSource::Malformed { diagnostic: diagnostic.clone() },
        ConfigSource::Parsed { config: custom_config() },
    ];
    let error = Config::load_hierarchical(candidates(), found).unwrap_err();
    assert_eq!(error.exit_code(), 65);
    match error {
        GroundhogError::Config(ConfigError::InvalidFormat { path, line, source }) => {
            assert_eq!(path, "explicit.toml");
            assert_eq!(line, None);
            assert_eq!(source, diagnostic);
        }
        other => panic!("expected Config/InvalidFormat, got {:?}", other),
    }
}

#[test]
fn failure_at_first_existing_source_does_not_fall_through() {
    let found = vec![
        ConfigSource::Missing,
        ConfigSource::Unreadable,
        ConfigSource::Parsed { config: custom_config() },
    ];
    let error = Config::load_hierarchical(candidates(), found).unwrap_err();
    match error {
        GroundhogError::Config(ConfigError::NotFound { path }) => {
            assert_eq!(path, "./groundhog.toml")
        }
        other => panic!("expected Config/NotFound, got {:?}", other),
    }
}

#[test]
fn sources_beyond_the_candidates_are_ignored() {
    let found = vec![
        ConfigSource::Missing,
        ConfigSource::Missing,
        ConfigSource::Missing,
        ConfigSource::Parsed { config: custom_config() },
    ];
    assert_is_default(&Config::load_hierarchical(candidates(), found).unwrap());
}

#[test]
fn default_file_has_header_and_body() {
    let content =
        Config::create_default_file("new.toml".to_string(), Ok("[output]\ncolor = true\n".to_string()))
            .unwrap();
    assert_eq!(
        content,
        "# Groundhog Configuration File\n# Version: 0.1.0\n\n[output]\ncolor = true\n"
    );
    let content = Config::create_default_file("new.toml".to_string(), Ok(String::new())).unwrap();
    assert_eq!(content, "# Groundhog Configuration File\n# Version: 0.1.0\n\n");
}

#[test]
fn default_file_failure_is_an_invalid_format() {
    let result =
        Config::create_default_file("new.toml".to_string(), Err("disk full".to_string()));
    match result {
        Err(GroundhogError::Config(ConfigError::InvalidFormat { path, line, source })) => {
            assert_eq!(path, "new.toml");
            assert_eq!(line, None);
            assert_eq!(source, "disk full");
        }
        other => panic!("expected Config/InvalidFormat, got {:?}", other),
    }
}
