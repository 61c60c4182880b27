//! The configuration: its sections and defaults, the validation of its
//! limits, the order in which configuration files are looked for, and what
//! is loaded from the first one that exists.

use vstd::prelude::*;
use vstd::string::*;
use crate::infrastructure::error::{ConfigError, GroundhogError};
use crate::infrastructure::text::optional_text;

verus! {

/// How much is logged.
#[derive(Debug, Clone)]
pub enum LogLevel {
    Trace,
    Debug,
    Info,
    Warn,
    Error,
}

/// How log lines are laid out.
#[derive(Debug, Clone)]
pub enum LogFormat {
    Pretty,
    Json,
    Compact,
}

/// The service that answers AI requests.
#[derive(Debug, Clone)]
pub enum AiProvider {
    OpenAI,
    Anthropic,
    Local,
}

/// Section `logging`.
#[derive(Debug, Clone)]
pub struct LoggingConfig {
    pub level: LogLevel,
    pub format: LogFormat,
    pub file: Option<String>,
    pub timestamps: bool,
    pub thread_ids: bool,
}

/// What a `LoggingConfig` holds.
pub struct LoggingConfigView {
    pub level: LogLevel,
    pub format: LogFormat,
    pub file: Option<Seq<char>>,
    pub timestamps: bool,
    pub thread_ids: bool,
}

impl View for LoggingConfig {
    type V = LoggingConfigView;

    open spec fn view(&self) -> LoggingConfigView {
        LoggingConfigView {
            level: self.level,
            format: self.format,
            file: optional_text(self.file),
            timestamps: self.timestamps,
            thread_ids: self.thread_ids,
        }
    }
}

/// Section `commands.explain`.
#[derive(Debug, Clone)]
pub struct ExplainConfig {
    pub enabled: bool,
    pub format: Option<String>,
}

/// What an `ExplainConfig` holds.
pub struct ExplainConfigView {
    pub enabled: bool,
    pub format: Option<Seq<char>>,
}

impl View for ExplainConfig {
    type V = ExplainConfigView;

    open spec fn view(&self) -> ExplainConfigView {
        ExplainConfigView { enabled: self.enabled, format: optional_text(self.format) }
    }
}

/// Section `commands`.
#[derive(Debug, Clone)]
pub struct CommandsConfig {
    pub default: Option<String>,
    pub explain: Option<ExplainConfig>,
}

/// What a `CommandsConfig` holds.
pub struct CommandsConfigView {
    pub default: Option<Seq<char>>,
    pub explain: Option<ExplainConfigView>,
}

impl View for CommandsConfig {
    type V = CommandsConfigView;

    open spec fn view(&self) -> CommandsConfigView {
        CommandsConfigView {
            default: optional_text(self.default),
            explain: match self.explain {
                Some(explain) => Some(explain@),
                None => None,
            },
        }
    }
}

/// Section `ai`.
#[derive(Debug, Clone)]
pub struct AiConfig {
    pub provider: AiProvider,
    pub model: String,
    pub api_key: Option<String>,
    pub endpoint: Option<String>,
}

/// What an `AiConfig` holds.
pub struct AiConfigView {
    pub provider: AiProvider,
    pub model: Seq<char>,
    pub api_key: Option<Seq<char>>,
    pub endpoint: Option<Seq<char>>,
}

impl View for AiConfig {
    type V = AiConfigView;

    open spec fn view(&self) -> AiConfigView {
        AiConfigView {
            provider: self.provider,
            model: self.model@,
            api_key: optional_text(self.api_key),
            endpoint: optional_text(self.endpoint),
        }
    }
}

/// Section `output`.
#[derive(Debug, Clone)]
pub struct OutputConfig {
    pub format: String,
    pub color: bool,
    pub pager: String,
}

/// What an `OutputConfig` holds.
pub struct OutputConfigView {
    pub format: Seq<char>,
    pub color: bool,
    pub pager: Seq<char>,
}

impl View for OutputConfig {
    type V = OutputConfigView;

    open spec fn view(&self) -> OutputConfigView {
        OutputConfigView { format: self.format@, color: self.color, pager: self.pager@ }
    }
}

/// Section `performance`: limits that must each be positive.
#[derive(Debug, Clone)]
pub struct PerformanceConfig {
    pub max_file_size: u64,
    pub timeout: u64,
    pub threads: usize,
}

/// The whole configuration.
#[derive(Debug, Clone)]
pub struct Config {
    pub logging: LoggingConfig,
    pub commands: CommandsConfig,
    pub ai: Option<AiConfig>,
    pub output: OutputConfig,
    pub performance: PerformanceConfig,
}

/// What a `Config` holds.
pub struct ConfigView {
    pub logging: LoggingConfigView,
    pub commands: CommandsConfigView,
    pub ai: Option<AiConfigView>,
    pub output: OutputConfigView,
    pub performance: PerformanceConfig,
}

impl View for Config {
    type V = ConfigView;

    open spec fn view(&self) -> ConfigView {
        ConfigView {
            logging: self.logging@,
            commands: self.commands@,
            ai: match self.ai {
                Some(ai) => Some(ai@),
                None => None,
            },
            output: self.output@,
            performance: self.performance,
        }
    }
}

fn default_log_level() -> (level: LogLevel)
    ensures
        level == LogLevel::Info,
{
    LogLevel::Info
}

fn default_log_format() -> (format: LogFormat)
    ensures
        format == LogFormat::Pretty,
{
    LogFormat::Pretty
}

fn default_output_format() -> (format: String)
    ensures
        format@ == "text"@,
{
    String::from_str("text")
}

fn default_pager() -> (pager: String)
    ensures
        pager@ == "auto"@,
{
    String::from_str("auto")
}

fn default_max_file_size() -> (limit: u64)
    ensures
        limit == 100,
{
    100
}

fn default_timeout() -> (limit: u64)
    ensures
        limit == 30,
{
    30
}

fn default_threads() -> (limit: usize)
    ensures
        limit == 4,
{
    4
}

fn default_true() -> (flag: bool)
    ensures
        flag,
{
    true
}

fn default_false() -> (flag: bool)
    ensures
        !flag,
{
    false
}

impl LoggingConfig {
    /// Level `Info`, format `Pretty`, no file, timestamps, no thread ids.
    pub open spec fn default_view() -> LoggingConfigView {
        LoggingConfigView {
            level: LogLevel::Info,
            format: LogFormat::Pretty,
            file: None,
            timestamps: true,
            thread_ids: false,
        }
    }
}

impl Default for LoggingConfig {
    fn default() -> (config: Self)
        ensures
            config@ == LoggingConfig::default_view(),
    {
        Self {
            level: default_log_level(),
            format: default_log_format(),
            file: None,
            timestamps: default_true(),
            thread_ids: default_false(),
        }
    }
}

impl ExplainConfig {
    /// Enabled, with no format of its own.
    pub open spec fn default_view() -> ExplainConfigView {
        ExplainConfigView { enabled: true, format: None }
    }
}

impl Default for ExplainConfig {
    fn default() -> (config: Self)
        ensures
            config@ == ExplainConfig::default_view(),
    {
        Self { enabled: default_true(), format: None }
    }
}

impl CommandsConfig {
    /// No default command; `explain` with its own defaults.
    pub open spec fn default_view() -> CommandsConfigView {
        CommandsConfigView { default: None, explain: Some(ExplainConfig::default_view()) }
    }
}

impl Default for CommandsConfig {
    fn default() -> (config: Self)
        ensures
            config@ == CommandsConfig::default_view(),
    {
        Self { default: None, explain: Some(ExplainConfig::default()) }
    }
}

impl OutputConfig {
    /// Format "text", colour, pager "auto".
    pub open spec fn default_view() -> OutputConfigView {
        OutputConfigView { format: "text"@, color: true, pager: "auto"@ }
    }
}

impl Default for OutputConfig {
    fn default() -> (config: Self)
        ensures
            config@ == OutputConfig::default_view(),
    {
        Self { format: default_output_format(), color: default_true(), pager: default_pager() }
    }
}

impl PerformanceConfig {
    /// At most 100 for the file size, 30 for the timeout, 4 threads.
    pub open spec fn default_value() -> PerformanceConfig {
        PerformanceConfig { max_file_size: 100, timeout: 30, threads: 4 }
    }
}

impl Default for PerformanceConfig {
    fn default() -> (config: Self)
        ensures
            config == PerformanceConfig::default_value(),
    {
        Self {
            max_file_size: default_max_file_size(),
            timeout: default_timeout(),
            threads: default_threads(),
        }
    }
}

impl Config {
    /// Every section at its default, and no `ai` section.
    pub open spec fn default_view() -> ConfigView {
        ConfigView {
            logging: LoggingConfig::default_view(),
            commands: CommandsConfig::default_view(),
            ai: None,
            output: OutputConfig::default_view(),
            performance: PerformanceConfig::default_value(),
        }
    }
}

impl Default for Config {
    fn default() -> (config: Self)
        ensures
            config@ == Config::default_view(),
    {
        Self {
            logging: LoggingConfig::default(),
            commands: CommandsConfig::default(),
            ai: None,
            output: OutputConfig::default(),
            performance: PerformanceConfig::default(),
        }
    }
}

/// The environment variable that names a path of the configuration file.
pub const CONFIG_PATH_VARIABLE: &'static str = "GROUNDHOG_CONFIG";

/// What was found at one candidate path.
#[derive(Debug)]
pub enum ConfigSource {
    /// Nothing exists at the path.
    Missing,
    /// Something exists at the path, but it could not be read.
    Unreadable,
    /// The file was read, and decoding it failed with this diagnostic.
    Malformed { diagnostic: String },
    /// The file was read and decoded.
    Parsed { config: Config },
}

impl ConfigSource {
    /// Whether anything exists at the path.
    pub open spec fn is_present_spec(&self) -> bool {
        !(self is Missing)
    }

    /// Whether anything exists at the path.
    pub fn is_present(&self) -> (found: bool)
        ensures
            found == self.is_present_spec(),
    {
        match self {
            ConfigSource::Missing => false,
            _ => true,
        }
    }
}

/// `base` extended by `component`: an absolute `component` replaces `base`;
/// otherwise the two are joined by one `/`, which is left out where `base`
/// is empty or ends in `/` already.
pub open spec fn joined_path(base: Seq<char>, component: Seq<char>) -> Seq<char> {
    if component.len() > 0 && component[0] == '/' {
        component
    } else if base.len() == 0 || base.last() == '/' {
        base + component
    } else {
        base + "/"@ + component
    }
}

/// The configuration file of the user whose home directory is `home`.
pub open spec fn user_config_path(home: Seq<char>) -> Seq<char> {
    joined_path(joined_path(home, ".groundhog"@), "config.toml"@)
}

/// The list of zero or one element that an optional value stands for.
pub open spec fn optional_entry(value: Option<Seq<char>>) -> Seq<Seq<char>> {
    match value {
        Some(text) => seq![text],
        None => Seq::empty(),
    }
}

/// The candidate paths in order of precedence: the explicit path, the path
/// from the environment, the file in the current directory, the file of
/// the user, the file of the system.
pub open spec fn search_paths(
    explicit_path: Option<Seq<char>>,
    env_path: Option<Seq<char>>,
    home_dir: Option<Seq<char>>,
) -> Seq<Seq<char>> {
    optional_entry(explicit_path) + optional_entry(env_path) + seq!["./groundhog.toml"@]
        + optional_entry(
        match home_dir {
            Some(home) => Some(user_config_path(home)),
            None => None,
        },
    ) + seq!["/etc/groundhog/config.toml"@]
}

/// The first candidate at which something exists, among those that both
/// lists cover from index `from` on.
pub open spec fn first_existing(count: int, found: Seq<ConfigSource>, from: int) -> Option<int>
    decreases count - from,
{
    if from < 0 || from >= count || from >= found.len() {
        None
    } else if found[from].is_present_spec() {
        Some(from)
    } else {
        first_existing(count, found, from + 1)
    }
}

/// Extends `base` by `component`.
pub fn join_path(base: &str, component: &str) -> (path: String)
    ensures
        path@ == joined_path(base@, component@),
{
    let base_len = base.unicode_len();
    if component.unicode_len() > 0 && component.get_char(0) == '/' {
        String::from_str(component)
    } else if base_len == 0 || base.get_char(base_len - 1) == '/' {
        let mut path = String::from_str(base);
        path.append(component);
        path
    } else {
        let mut path = String::from_str(base);
        path.append("/");
        path.append(component);
        path
    }
}

impl Config {
    /// The key of the first limit that is zero, in the order
    /// `max_file_size`, `timeout`, `threads`; none if all are positive.
    pub open spec fn first_zero_limit(&self) -> Option<Seq<char>> {
        if self.performance.max_file_size == 0 {
            Some("performance.max_file_size"@)
        } else if self.performance.timeout == 0 {
            Some("performance.timeout"@)
        } else if self.performance.threads == 0 {
            Some("performance.threads"@)
        } else {
            None
        }
    }

    /// Whether `result` is what loading the file at `path` gives when
    /// `found` is what was found there: the defaults where nothing exists,
    /// the decoded configuration where there is one, `Config/NotFound` for
    /// a file that cannot be read, and `Config/InvalidFormat` with the
    /// decoder's diagnostic for a malformed one.
    pub open spec fn is_loaded_from(
        path: Seq<char>,
        found: ConfigSource,
        result: Result<Config, GroundhogError>,
    ) -> bool {
        match found {
            ConfigSource::Missing => result matches Ok(config) && config@ == Config::default_view(),
            ConfigSource::Unreadable => result matches Err(
                GroundhogError::Config(ConfigError::NotFound { path: at }),
            ) && at@ == path,
            ConfigSource::Malformed { diagnostic } => result matches Err(
                GroundhogError::Config(ConfigError::InvalidFormat { path: at, line, source }),
            ) && at@ == path && line is None && source@ == diagnostic@,
            ConfigSource::Parsed { config: parsed } => result matches Ok(config) && config@
                == parsed@,
        }
    }

    /// Whether `result` is what the search over `paths` gives when `found`
    /// lists, in the same order, what was found at the candidates: what
    /// loading the first existing candidate gives, and the defaults if
    /// there is none. A candidate that `found` does not reach counts as
    /// missing.
    pub open spec fn is_resolved_from(
        paths: Seq<Seq<char>>,
        found: Seq<ConfigSource>,
        result: Result<Config, GroundhogError>,
    ) -> bool {
        match first_existing(paths.len() as int, found, 0) {
            Some(index) => Config::is_loaded_from(paths[index], found[index], result),
            None => result matches Ok(config) && config@ == Config::default_view(),
        }
    }

    /// Lists the candidate paths of the configuration file in order of
    /// precedence. `env_path` is the path that the environment names, if it
    /// names one, and `home_dir` the home directory of the user, if known.
    pub fn get_config_search_paths(
        explicit_path: Option<String>,
        env_path: Option<String>,
        home_dir: Option<String>,
    ) -> (paths: Vec<String>)
        ensures
            paths.deep_view() == search_paths(
                optional_text(explicit_path),
                optional_text(env_path),
                optional_text(home_dir),
            ),
    {
        let mut paths: Vec<String> = Vec::new();
        if let Some(path) = explicit_path {
            paths.push(path);
        }
        if let Some(path) = env_path {
            paths.push(path);
        }
        paths.push(String::from_str("./groundhog.toml"));
        if let Some(home) = home_dir {
            let directory = join_path(home.as_str(), ".groundhog");
            paths.push(join_path(directory.as_str(), "config.toml"));
        }
        paths.push(String::from_str("/etc/groundhog/config.toml"));
        assert(paths.deep_view() =~= search_paths(
            optional_text(explicit_path),
            optional_text(env_path),
            optional_text(home_dir),
        ));
        paths
    }

    /// Checks that every performance limit is positive.
    pub fn validate(&self) -> (result: Result<(), GroundhogError>)
        ensures
            result is Ok <==> self.first_zero_limit() is None,
            result is Ok <==> self.performance.max_file_size > 0 && self.performance.timeout > 0
                && self.performance.threads > 0,
            result matches Err(error) ==> error matches GroundhogError::Config(
                ConfigError::InvalidValue { key, value, expected },
            ) && Some(key@) == self.first_zero_limit() && value@ == "0"@ && expected@
                == "positive integer"@,
    {
        if self.performance.max_file_size == 0 {
            return Err(invalid_limit("performance.max_file_size"));
        }
        if self.performance.timeout == 0 {
            return Err(invalid_limit("performance.timeout"));
        }
        if self.performance.threads == 0 {
            return Err(invalid_limit("performance.threads"));
        }
        Ok(())
    }

    /// Gives the configuration for the file at `path`, of which `found`
    /// says what was found there.
    pub fn load_from_file(path: String, found: ConfigSource) -> (result: Result<
        Config,
        GroundhogError,
    >)
        ensures
            Config::is_loaded_from(path@, found, result),
    {
        match found {
            ConfigSource::Missing => Ok(Config::default()),
            ConfigSource::Unreadable => Err(
                GroundhogError::Config(ConfigError::NotFound { path }),
            ),
            ConfigSource::Malformed { diagnostic } => Err(
                GroundhogError::Config(
                    ConfigError::InvalidFormat { path, line: None, source: diagnostic },
                ),
            ),
            ConfigSource::Parsed { config } => Ok(config),
        }
    }

    /// Gives the configuration of the first candidate in `paths` at which
    /// something exists, and the defaults if there is none. `found` lists
    /// what was found at the candidates, in the order of `paths`; it may
    /// end with the first candidate that exists.
    pub fn load_hierarchical(paths: Vec<String>, found: Vec<ConfigSource>) -> (result: Result<
        Config,
        GroundhogError,
    >)
        ensures
            Config::is_resolved_from(paths.deep_view(), found@, result),
    {
        let mut sources = found;
        let mut index: usize = 0;
        while index < paths.len() && index < sources.len()
            invariant
                sources@ == found@,
                index <= paths.len(),
                index <= sources.len(),
                first_existing(paths.len() as int, found@, 0) == first_existing(
                    paths.len() as int,
                    found@,
                    index as int,
                ),
            decreases paths.len() - index,
        {
            if sources[index].is_present() {
                let path = paths[index].clone();
                let source = sources.swap_remove(index);
                assert(paths.deep_view()[index as int] == path@);
                return Config::load_from_file(path, source);
            }
            index = index + 1;
        }
        Ok(Config::default())
    }

    /// Gives the text of a new configuration file: a comment header, then
    /// `serialized`, the default configuration in the file format. Where
    /// producing or storing it failed, `serialized` holds the diagnostic,
    /// and the failure is reported as `Config/InvalidFormat` for `path`.
    pub fn create_default_file(path: String, serialized: Result<String, String>) -> (result:
        Result<String, GroundhogError>)
        ensures
            match serialized {
                Ok(body) => result matches Ok(content) && content@
                    == "# Groundhog Configuration File\n# Version: 0.1.0\n\n"@ + body@,
                Err(diagnostic) => result matches Err(
                    GroundhogError::Config(ConfigError::InvalidFormat { path: at, line, source }),
                ) && at@ == path@ && line is None && source@ == diagnostic@,
            },
    {
        match serialized {
            Ok(body) => {
                let mut content = String::from_str(
                    "# Groundhog Configuration File\n# Version: 0.1.0\n\n",
                );
                content.append(body.as_str());
                Ok(content)
            },
            Err(diagnostic) => Err(
                GroundhogError::Config(
                    ConfigError::InvalidFormat { path, line: None, source: diagnostic },
                ),
            ),
        }
    }
}

/// The failure that reports the limit under `key` as zero.
fn invalid_limit(key: &str) -> (error: GroundhogError)
    ensures
        error matches GroundhogError::Config(ConfigError::InvalidValue { key: named, value, expected })
            && named@ == key@ && value@ == "0"@ && expected@ == "positive integer"@,
{
    GroundhogError::Config(
        ConfigError::InvalidValue {
            key: String::from_str(key),
            value: String::from_str("0"),
            expected: String::from_str("positive integer"),
        },
    )
}

/// Where nothing exists at any candidate from `from` on, none is the first
/// existing one.
proof fn first_existing_of_missing(count: int, found: Seq<ConfigSource>, from: int)
    requires
        forall|i: int| 0 <= i < found.len() ==> found[i] is Missing,
    ensures
        first_existing(count, found, from) is None,
    decreases count - from,
{
    if 0 <= from && from < count && from < found.len() {
        first_existing_of_missing(count, found, from + 1);
    }
}

/// The first existing candidate from `from` on lies in range, something
/// exists at it, and nothing exists at the candidates before it.
proof fn first_existing_is_first(count: int, found: Seq<ConfigSource>, from: int)
    requires
        0 <= from,
    ensures
        match first_existing(count, found, from) {
            Some(index) => from <= index < count && index < found.len()
                && found[index].is_present_spec() && forall|i: int|
                from <= i < index ==> found[i] is Missing,
            None => forall|i: int| from <= i < count && i < found.len() ==> found[i] is Missing,
        },
    decreases count - from,
{
    if from < count && from < found.len() && !found[from].is_present_spec() {
        first_existing_is_first(count, found, from + 1);
    }
}

/// Two records that agree up to and including the candidate `upto` have
/// the same first existing candidate, if one of them has it at `upto` or
/// before.
proof fn first_existing_of_equal_prefix(
    count: int,
    found: Seq<ConfigSource>,
    other: Seq<ConfigSource>,
    from: int,
    upto: int,
)
    requires
        0 <= from <= upto < found.len(),
        upto < other.len(),
        forall|i: int| 0 <= i <= upto ==> found[i] == other[i],
        first_existing(count, found, from) matches Some(index) && index <= upto,
    ensures
        first_existing(count, other, from) == first_existing(count, found, from),
    decreases count - from,
{
    if from < count && !found[from].is_present_spec() {
        first_existing_is_first(count, found, from + 1);
        first_existing_of_equal_prefix(count, found, other, from + 1, upto);
    }
}

impl Config {
    /// Where no candidate exists, the search gives the default
    /// configuration and no error, whatever the candidates are.
    pub proof fn missing_sources_resolve_to_defaults(
        paths: Seq<Seq<char>>,
        found: Seq<ConfigSource>,
        result: Result<Config, GroundhogError>,
    )
        requires
            forall|i: int| 0 <= i < found.len() ==> found[i] is Missing,
            Config::is_resolved_from(paths, found, result),
        ensures
            result matches Ok(config) && config@ == Config::default_view(),
    {
        first_existing_of_missing(paths.len() as int, found, 0);
    }

    /// The search is decided by the first candidate that exists: nothing
    /// exists at the candidates before it, and it alone is loaded, also
    /// where loading it fails.
    pub proof fn first_existing_source_decides(
        paths: Seq<Seq<char>>,
        found: Seq<ConfigSource>,
        result: Result<Config, GroundhogError>,
        index: int,
    )
        requires
            0 <= index < paths.len(),
            index < found.len(),
            found[index].is_present_spec(),
            forall|i: int| 0 <= i < index ==> found[i] is Missing,
        ensures
            Config::is_resolved_from(paths, found, result) <==> Config::is_loaded_from(
                paths[index],
                found[index],
                result,
            ),
    {
        first_existing_is_first(paths.len() as int, found, 0);
    }

    /// What was found at the candidates after the first existing one has
    /// no part in the result: two records that agree up to it resolve
    /// alike.
    pub proof fn later_sources_are_not_consulted(
        paths: Seq<Seq<char>>,
        found: Seq<ConfigSource>,
        other: Seq<ConfigSource>,
        result: Result<Config, GroundhogError>,
    )
        requires
            first_existing(paths.len() as int, found, 0) matches Some(index) && index
                < other.len() && forall|i: int| 0 <= i <= index ==> found[i] == other[i],
        ensures
            Config::is_resolved_from(paths, found, result) <==> Config::is_resolved_from(
                paths,
                other,
                result,
            ),
    {
        first_existing_is_first(paths.len() as int, found, 0);
        let index = first_existing(paths.len() as int, found, 0).unwrap();
        first_existing_of_equal_prefix(paths.len() as int, found, other, 0, index);
    }

    /// A malformed file at the first existing candidate ends the search
    /// with `Config/InvalidFormat`, and the process with exit code 65.
    pub proof fn malformed_source_is_a_data_error(
        paths: Seq<Seq<char>>,
        found: Seq<ConfigSource>,
        result: Result<Config, GroundhogError>,
    )
        requires
            first_existing(paths.len() as int, found, 0) matches Some(index) && found[index]
                is Malformed,
            Config::is_resolved_from(paths, found, result),
        ensures
            result matches Err(error) && error matches GroundhogError::Config(
                ConfigError::InvalidFormat { .. },
            ) && error.exit_code_spec() == 65,
    {
    }

    /// A configuration with a limit of zero names a limit that is zero,
    /// and the first such in the order of the section; one without has
    /// nothing to name.
    pub proof fn zero_limit_is_named(&self)
        ensures
            self.performance.max_file_size == 0 ==> self.first_zero_limit() == Some(
                "performance.max_file_size"@,
            ),
            self.performance.max_file_size > 0 && self.performance.timeout == 0
                ==> self.first_zero_limit() == Some("performance.timeout"@),
            self.performance.max_file_size > 0 && self.performance.timeout > 0
                && self.performance.threads == 0 ==> self.first_zero_limit() == Some(
                "performance.threads"@,
            ),
            self.performance.max_file_size > 0 && self.performance.timeout > 0
                && self.performance.threads > 0 ==> self.first_zero_limit() is None,
    {
    }

    /// The default configuration passes validation.
    pub proof fn default_limits_are_positive()
        ensures
            Config::default_view().performance.max_file_size > 0,
            Config::default_view().performance.timeout > 0,
            Config::default_view().performance.threads > 0,
    {
    }
}

} // verus!
