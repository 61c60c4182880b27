//! The error taxonomy: one enum per category, the technical text of every
//! variant, the message shown to the user and the process exit code.

use vstd::prelude::*;
use vstd::string::*;
use vstd::std_specs::convert::FromSpecImpl;
use crate::infrastructure::text::{decimal, decimal_string};

verus! {

/// Diagnostics of the JSON decoder, carried through unread.
#[verifier::external_type_specification]
#[verifier::external_body]
pub struct ExJsonError(serde_json::Error);

/// Diagnostics of the TOML decoder, carried through unread.
#[verifier::external_type_specification]
#[verifier::external_body]
pub struct ExTomlError(toml::de::Error);

/// An operating-system I/O failure, carried through unread.
#[verifier::external_type_specification]
#[verifier::external_body]
pub struct ExIoError(std::io::Error);

/// Failures of command dispatch.
#[derive(Debug)]
pub enum CommandError {
    NotFound { command: String },
    InvalidArguments { command: String, message: String },
    ExecutionFailed { command: String, source: String },
    PermissionDenied { command: String },
}

/// Failures of locating, decoding and validating the configuration.
#[derive(Debug)]
pub enum ConfigError {
    NotFound { path: String },
    InvalidFormat { path: String, line: Option<usize>, source: String },
    MissingKey { key: String },
    InvalidValue { key: String, value: String, expected: String },
}

/// Failures of file-system access.
#[derive(Debug)]
pub enum FileSystemError {
    NotFound { path: String },
    PermissionDenied { path: String },
    NotReadable { path: String },
    NotWritable { path: String },
    DirectoryNotAccessible { path: String },
    InvalidFormat { path: String, expected: String, source: String },
    Io(std::io::Error),
}

/// Failures of network access.
#[derive(Debug)]
pub enum NetworkError {
    ConnectionFailed { url: String, source: String },
    Timeout { timeout_ms: u64 },
    Http { status: u16, message: String },
    InvalidUrl { url: String },
    AuthenticationFailed,
}

/// Failures of decoding structured text.
#[allow(inconsistent_fields)]
#[derive(Debug)]
pub enum ParseError {
    Json { input: String, line: Option<usize>, column: Option<usize>, source: serde_json::Error },
    Yaml { input: String, source: String },
    Toml { input: String, source: toml::de::Error },
    Syntax { line: usize, column: usize, message: String },
}

/// Failures inside the application itself.
#[derive(Debug)]
pub enum InternalError {
    UnexpectedState { message: String },
    ResourceExhausted { resource: String },
    InitializationFailed { component: String, source: String },
    ConfigValidation { message: String },
}

/// Every failure the application reports, by category.
#[derive(Debug)]
pub enum GroundhogError {
    Command(CommandError),
    Config(ConfigError),
    FileSystem(FileSystemError),
    Network(NetworkError),
    Parse(ParseError),
    Internal(InternalError),
    TUIError(String),
}

impl CommandError {
    /// The technical text of the failure.
    pub open spec fn message(&self) -> Seq<char> {
        match self {
            CommandError::NotFound { command } => "Command '"@ + command@ + "' not found"@,
            CommandError::InvalidArguments { command, message } => "Invalid arguments for command '"@
                + command@ + "': "@ + message@,
            CommandError::ExecutionFailed { command, .. } => "Command '"@ + command@
                + "' execution failed"@,
            CommandError::PermissionDenied { command } => "Permission denied for command '"@
                + command@ + "'"@,
        }
    }

    /// Renders the technical text of the failure.
    pub fn to_string(&self) -> (text: String)
        ensures
            text@ == self.message(),
    {
        match self {
            CommandError::NotFound { command } => quoted("Command '", command, "' not found"),
            CommandError::InvalidArguments { command, message } => {
                let mut text = quoted("Invalid arguments for command '", command, "': ");
                text.append(message.as_str());
                text
            },
            CommandError::ExecutionFailed { command, .. } => quoted(
                "Command '",
                command,
                "' execution failed",
            ),
            CommandError::PermissionDenied { command } => quoted(
                "Permission denied for command '",
                command,
                "'",
            ),
        }
    }
}

impl ConfigError {
    /// The technical text of the failure.
    pub open spec fn message(&self) -> Seq<char> {
        match self {
            ConfigError::NotFound { path } => "Configuration file not found at '"@ + path@ + "'"@,
            ConfigError::InvalidFormat { .. } => "Configuration file has invalid format"@,
            ConfigError::MissingKey { key } => "Missing required configuration key '"@ + key@
                + "'"@,
            ConfigError::InvalidValue { key, value, .. } => "Invalid value for configuration key '"@
                + key@ + "': "@ + value@,
        }
    }

    /// Renders the technical text of the failure.
    pub fn to_string(&self) -> (text: String)
        ensures
            text@ == self.message(),
    {
        match self {
            ConfigError::NotFound { path } => quoted(
                "Configuration file not found at '",
                path,
                "'",
            ),
            ConfigError::InvalidFormat { .. } => String::from_str(
                "Configuration file has invalid format",
            ),
            ConfigError::MissingKey { key } => quoted(
                "Missing required configuration key '",
                key,
                "'",
            ),
            ConfigError::InvalidValue { key, value, .. } => {
                let mut text = quoted("Invalid value for configuration key '", key, "': ");
                text.append(value.as_str());
                text
            },
        }
    }
}

impl FileSystemError {
    /// The technical text of the failure.
    pub open spec fn message(&self) -> Seq<char> {
        match self {
            FileSystemError::NotFound { path } => "File not found: '"@ + path@ + "'"@,
            FileSystemError::PermissionDenied { path } => "Permission denied accessing '"@ + path@
                + "'"@,
            FileSystemError::NotReadable { path } => "File '"@ + path@ + "' is not readable"@,
            FileSystemError::NotWritable { path } => "File '"@ + path@ + "' is not writable"@,
            FileSystemError::DirectoryNotAccessible { path } => "Directory '"@ + path@
                + "' is not accessible"@,
            FileSystemError::InvalidFormat { path, .. } => "Invalid file format for '"@ + path@
                + "'"@,
            FileSystemError::Io(_) => "I/O error"@,
        }
    }

    /// Renders the technical text of the failure.
    pub fn to_string(&self) -> (text: String)
        ensures
            text@ == self.message(),
    {
        match self {
            FileSystemError::NotFound { path } => quoted("File not found: '", path, "'"),
            FileSystemError::PermissionDenied { path } => quoted(
                "Permission denied accessing '",
                path,
                "'",
            ),
            FileSystemError::NotReadable { path } => quoted("File '", path, "' is not readable"),
            FileSystemError::NotWritable { path } => quoted("File '", path, "' is not writable"),
            FileSystemError::DirectoryNotAccessible { path } => quoted(
                "Directory '",
                path,
                "' is not accessible",
            ),
            FileSystemError::InvalidFormat { path, .. } => quoted(
                "Invalid file format for '",
                path,
                "'",
            ),
            FileSystemError::Io(_) => String::from_str("I/O error"),
        }
    }
}

impl NetworkError {
    /// The technical text of the failure.
    pub open spec fn message(&self) -> Seq<char> {
        match self {
            NetworkError::ConnectionFailed { url, .. } => "Failed to connect to '"@ + url@ + "'"@,
            NetworkError::Timeout { timeout_ms } => "Request timeout after "@ + decimal(
                *timeout_ms as nat,
            ) + "ms"@,
            NetworkError::Http { status, message } => "HTTP error "@ + decimal(*status as nat)
                + ": "@ + message@,
            NetworkError::InvalidUrl { url } => "Invalid URL: '"@ + url@ + "'"@,
            NetworkError::AuthenticationFailed => "Authentication failed"@,
        }
    }

    /// Renders the technical text of the failure.
    pub fn to_string(&self) -> (text: String)
        ensures
            text@ == self.message(),
    {
        match self {
            NetworkError::ConnectionFailed { url, .. } => quoted("Failed to connect to '", url, "'"),
            NetworkError::Timeout { timeout_ms } => {
                let number = decimal_string(*timeout_ms);
                quoted("Request timeout after ", &number, "ms")
            },
            NetworkError::Http { status, message } => {
                let number = decimal_string(*status as u64);
                let mut text = quoted("HTTP error ", &number, ": ");
                text.append(message.as_str());
                text
            },
            NetworkError::InvalidUrl { url } => quoted("Invalid URL: '", url, "'"),
            NetworkError::AuthenticationFailed => String::from_str("Authentication failed"),
        }
    }
}

impl ParseError {
    /// The technical text of the failure.
    pub open spec fn message(&self) -> Seq<char> {
        match self {
            ParseError::Json { .. } => "JSON parsing failed"@,
            ParseError::Yaml { .. } => "YAML parsing failed"@,
            ParseError::Toml { .. } => "TOML parsing failed"@,
            ParseError::Syntax { line, column, .. } => "Invalid syntax at line "@ + decimal(
                *line as nat,
            ) + ", column "@ + decimal(*column as nat),
        }
    }

    /// Renders the technical text of the failure.
    pub fn to_string(&self) -> (text: String)
        ensures
            text@ == self.message(),
    {
        match self {
            ParseError::Json { .. } => String::from_str("JSON parsing failed"),
            ParseError::Yaml { .. } => String::from_str("YAML parsing failed"),
            ParseError::Toml { .. } => String::from_str("TOML parsing failed"),
            ParseError::Syntax { line, column, .. } => {
                let line_text = decimal_string(*line as u64);
                let column_text = decimal_string(*column as u64);
                let mut text = quoted("Invalid syntax at line ", &line_text, ", column ");
                text.append(column_text.as_str());
                text
            },
        }
    }
}

impl InternalError {
    /// The technical text of the failure.
    pub open spec fn message(&self) -> Seq<char> {
        match self {
            InternalError::UnexpectedState { message } => "Unexpected application state: "@
                + message@,
            InternalError::ResourceExhausted { resource } => "Resource exhausted: "@ + resource@,
            InternalError::InitializationFailed { component, .. } => "Initialization failed: "@
                + component@,
            InternalError::ConfigValidation { message } => "Configuration validation failed: "@
                + message@,
        }
    }

    /// Renders the technical text of the failure.
    pub fn to_string(&self) -> (text: String)
        ensures
            text@ == self.message(),
    {
        match self {
            InternalError::UnexpectedState { message } => prefixed(
                "Unexpected application state: ",
                message,
            ),
            InternalError::ResourceExhausted { resource } => prefixed(
                "Resource exhausted: ",
                resource,
            ),
            InternalError::InitializationFailed { component, .. } => prefixed(
                "Initialization failed: ",
                component,
            ),
            InternalError::ConfigValidation { message } => prefixed(
                "Configuration validation failed: ",
                message,
            ),
        }
    }
}

/// `before`, then `middle`, then `after`.
fn quoted(before: &str, middle: &String, after: &str) -> (text: String)
    ensures
        text@ == before@ + middle@ + after@,
{
    let mut text = String::from_str(before);
    text.append(middle.as_str());
    text.append(after);
    text
}

/// `before`, then `rest`.
fn prefixed(before: &str, rest: &String) -> (text: String)
    ensures
        text@ == before@ + rest@,
{
    let mut text = String::from_str(before);
    text.append(rest.as_str());
    text
}

impl GroundhogError {
    /// The technical text of the failure: the category, and for a terminal
    /// failure the message of the backend.
    pub open spec fn message(&self) -> Seq<char> {
        match self {
            GroundhogError::Command(_) => "Command execution failed"@,
            GroundhogError::Config(_) => "Configuration error"@,
            GroundhogError::FileSystem(_) => "File system operation failed"@,
            GroundhogError::Network(_) => "Network operation failed"@,
            GroundhogError::Parse(_) => "Parsing error"@,
            GroundhogError::Internal(_) => "Internal application error"@,
            GroundhogError::TUIError(detail) => "TUI error: "@ + detail@,
        }
    }

    /// The message shown to the user: for a command or a file that was not
    /// found and for a file that may not be accessed, what failed and what
    /// to do about it; for every other failure the technical text.
    pub open spec fn user_message_spec(&self) -> Seq<char> {
        match self {
            GroundhogError::Command(CommandError::NotFound { command }) => "Command '"@ + command@
                + "' not found. Run 'groundhog --help' to see available commands."@,
            GroundhogError::Config(ConfigError::NotFound { path }) =>
                "Configuration file not found at '"@ + path@
                + "'.\nTry running 'groundhog config init' to create a default configuration."@,
            GroundhogError::FileSystem(FileSystemError::NotFound { path }) => "File not found: '"@
                + path@ + "'\nPlease check the path and try again."@,
            GroundhogError::FileSystem(FileSystemError::PermissionDenied { path }) =>
                "Permission denied accessing '"@ + path@
                + "'\nPlease check file permissions or run with appropriate privileges."@,
            _ => self.message(),
        }
    }

    /// The exit code of the process that ends with this failure.
    /// - 64, wrong usage: a command that was not found or got invalid
    ///   arguments.
    /// - 65, malformed data: a configuration or another file of invalid
    ///   format, and every failure of decoding.
    /// - 66, missing input: a configuration or another file that was not
    ///   found.
    /// - 77, missing permission: a command or a file that may not be
    ///   used.
    /// - 74, I/O: the generic file-system failure.
    /// - 69, unavailable service: every network failure.
    /// - 1, everything else: a command that failed while it ran, a missing
    ///   key or an invalid value of the configuration, a file or directory
    ///   that is not readable, writable or accessible, every internal
    ///   failure, and every failure of the terminal.
    pub open spec fn exit_code_spec(&self) -> int {
        match self {
            GroundhogError::Command(CommandError::NotFound { .. }) => 64,
            GroundhogError::Command(CommandError::InvalidArguments { .. }) => 64,
            GroundhogError::Config(ConfigError::InvalidFormat { .. }) => 65,
            GroundhogError::FileSystem(FileSystemError::InvalidFormat { .. }) => 65,
            GroundhogError::Parse(_) => 65,
            GroundhogError::Config(ConfigError::NotFound { .. }) => 66,
            GroundhogError::FileSystem(FileSystemError::NotFound { .. }) => 66,
            GroundhogError::Command(CommandError::PermissionDenied { .. }) => 77,
            GroundhogError::FileSystem(FileSystemError::PermissionDenied { .. }) => 77,
            GroundhogError::FileSystem(FileSystemError::Io(_)) => 74,
            GroundhogError::Network(_) => 69,
            _ => 1,
        }
    }

    /// Renders the technical text of the failure.
    pub fn to_string(&self) -> (text: String)
        ensures
            text@ == self.message(),
    {
        match self {
            GroundhogError::Command(_) => String::from_str("Command execution failed"),
            GroundhogError::Config(_) => String::from_str("Configuration error"),
            GroundhogError::FileSystem(_) => String::from_str("File system operation failed"),
            GroundhogError::Network(_) => String::from_str("Network operation failed"),
            GroundhogError::Parse(_) => String::from_str("Parsing error"),
            GroundhogError::Internal(_) => String::from_str("Internal application error"),
            GroundhogError::TUIError(detail) => prefixed("TUI error: ", detail),
        }
    }

    /// Returns the message shown to the user, with a suggestion where one
    /// is known.
    pub fn user_message(&self) -> (text: String)
        ensures
            text@ == self.user_message_spec(),
    {
        match self {
            GroundhogError::Command(CommandError::NotFound { command }) => quoted(
                "Command '",
                command,
                "' not found. Run 'groundhog --help' to see available commands.",
            ),
            GroundhogError::Config(ConfigError::NotFound { path }) => quoted(
                "Configuration file not found at '",
                path,
                "'.\nTry running 'groundhog config init' to create a default configuration.",
            ),
            GroundhogError::FileSystem(FileSystemError::NotFound { path }) => quoted(
                "File not found: '",
                path,
                "'\nPlease check the path and try again.",
            ),
            GroundhogError::FileSystem(FileSystemError::PermissionDenied { path }) => quoted(
                "Permission denied accessing '",
                path,
                "'\nPlease check file permissions or run with appropriate privileges.",
            ),
            _ => self.to_string(),
        }
    }

    /// Returns the exit code of the process that ends with this failure.
    pub fn exit_code(&self) -> (code: i32)
        ensures
            code == self.exit_code_spec(),
            code == 1 || code == 64 || code == 65 || code == 66 || code == 69 || code == 74
                || code == 77,
    {
        match self {
            GroundhogError::Command(CommandError::NotFound { .. }) => 64,
            GroundhogError::Command(CommandError::InvalidArguments { .. }) => 64,
            GroundhogError::Config(ConfigError::InvalidFormat { .. }) => 65,
            GroundhogError::FileSystem(FileSystemError::InvalidFormat { .. }) => 65,
            GroundhogError::Parse(_) => 65,
            GroundhogError::Config(ConfigError::NotFound { .. }) => 66,
            GroundhogError::FileSystem(FileSystemError::NotFound { .. }) => 66,
            GroundhogError::Command(CommandError::PermissionDenied { .. }) => 77,
            GroundhogError::FileSystem(FileSystemError::PermissionDenied { .. }) => 77,
            GroundhogError::FileSystem(FileSystemError::Io(_)) => 74,
            GroundhogError::Network(_) => 69,
            _ => 1,
        }
    }
}

/// A dispatch failure becomes a failure of the `Command` category.
impl From<CommandError> for GroundhogError {
    fn from(error: CommandError) -> (wrapped: Self) {
        GroundhogError::Command(error)
    }
}

impl FromSpecImpl<CommandError> for GroundhogError {
    open spec fn obeys_from_spec() -> bool {
        true
    }

    open spec fn from_spec(error: CommandError) -> Self {
        GroundhogError::Command(error)
    }
}

/// A configuration failure becomes a failure of the `Config` category.
impl From<ConfigError> for GroundhogError {
    fn from(error: ConfigError) -> (wrapped: Self) {
        GroundhogError::Config(error)
    }
}

impl FromSpecImpl<ConfigError> for GroundhogError {
    open spec fn obeys_from_spec() -> bool {
        true
    }

    open spec fn from_spec(error: ConfigError) -> Self {
        GroundhogError::Config(error)
    }
}

/// A file-system failure becomes a failure of the `FileSystem` category.
impl From<FileSystemError> for GroundhogError {
    fn from(error: FileSystemError) -> (wrapped: Self) {
        GroundhogError::FileSystem(error)
    }
}

impl FromSpecImpl<FileSystemError> for GroundhogError {
    open spec fn obeys_from_spec() -> bool {
        true
    }

    open spec fn from_spec(error: FileSystemError) -> Self {
        GroundhogError::FileSystem(error)
    }
}

/// A network failure becomes a failure of the `Network` category.
impl From<NetworkError> for GroundhogError {
    fn from(error: NetworkError) -> (wrapped: Self) {
        GroundhogError::Network(error)
    }
}

impl FromSpecImpl<NetworkError> for GroundhogError {
    open spec fn obeys_from_spec() -> bool {
        true
    }

    open spec fn from_spec(error: NetworkError) -> Self {
        GroundhogError::Network(error)
    }
}

/// A decoding failure becomes a failure of the `Parse` category.
impl From<ParseError> for GroundhogError {
    fn from(error: ParseError) -> (wrapped: Self) {
        GroundhogError::Parse(error)
    }
}

impl FromSpecImpl<ParseError> for GroundhogError {
    open spec fn obeys_from_spec() -> bool {
        true
    }

    open spec fn from_spec(error: ParseError) -> Self {
        GroundhogError::Parse(error)
    }
}

/// An internal failure becomes a failure of the `Internal` category.
impl From<InternalError> for GroundhogError {
    fn from(error: InternalError) -> (wrapped: Self) {
        GroundhogError::Internal(error)
    }
}

impl FromSpecImpl<InternalError> for GroundhogError {
    open spec fn obeys_from_spec() -> bool {
        true
    }

    open spec fn from_spec(error: InternalError) -> Self {
        GroundhogError::Internal(error)
    }
}

/// An operating-system I/O failure becomes the generic file-system failure.
impl From<std::io::Error> for FileSystemError {
    fn from(error: std::io::Error) -> (wrapped: Self) {
        FileSystemError::Io(error)
    }
}

impl FromSpecImpl<std::io::Error> for FileSystemError {
    open spec fn obeys_from_spec() -> bool {
        true
    }

    open spec fn from_spec(error: std::io::Error) -> Self {
        FileSystemError::Io(error)
    }
}

impl CommandError {
    /// Whether the two failures are the same variant, whatever they carry.
    pub open spec fn same_variant(&self, other: &Self) -> bool {
        match (self, other) {
            (CommandError::NotFound { .. }, CommandError::NotFound { .. }) => true,
            (CommandError::InvalidArguments { .. }, CommandError::InvalidArguments { .. }) => true,
            (CommandError::ExecutionFailed { .. }, CommandError::ExecutionFailed { .. }) => true,
            (CommandError::PermissionDenied { .. }, CommandError::PermissionDenied { .. }) => true,
            _ => false,
        }
    }
}

impl ConfigError {
    /// Whether the two failures are the same variant, whatever they carry.
    pub open spec fn same_variant(&self, other: &Self) -> bool {
        match (self, other) {
            (ConfigError::NotFound { .. }, ConfigError::NotFound { .. }) => true,
            (ConfigError::InvalidFormat { .. }, ConfigError::InvalidFormat { .. }) => true,
            (ConfigError::MissingKey { .. }, ConfigError::MissingKey { .. }) => true,
            (ConfigError::InvalidValue { .. }, ConfigError::InvalidValue { .. }) => true,
            _ => false,
        }
    }
}

impl FileSystemError {
    /// Whether the two failures are the same variant, whatever they carry.
    pub open spec fn same_variant(&self, other: &Self) -> bool {
        match (self, other) {
            (FileSystemError::NotFound { .. }, FileSystemError::NotFound { .. }) => true,
            (FileSystemError::PermissionDenied { .. }, FileSystemError::PermissionDenied { .. }) =>
                true,
            (FileSystemError::NotReadable { .. }, FileSystemError::NotReadable { .. }) => true,
            (FileSystemError::NotWritable { .. }, FileSystemError::NotWritable { .. }) => true,
            (
                FileSystemError::DirectoryNotAccessible { .. },
                FileSystemError::DirectoryNotAccessible { .. },
            ) => true,
            (FileSystemError::InvalidFormat { .. }, FileSystemError::InvalidFormat { .. }) => true,
            (FileSystemError::Io(_), FileSystemError::Io(_)) => true,
            _ => false,
        }
    }
}

impl NetworkError {
    /// Whether the two failures are the same variant, whatever they carry.
    pub open spec fn same_variant(&self, other: &Self) -> bool {
        match (self, other) {
            (NetworkError::ConnectionFailed { .. }, NetworkError::ConnectionFailed { .. }) => true,
            (NetworkError::Timeout { .. }, NetworkError::Timeout { .. }) => true,
            (NetworkError::Http { .. }, NetworkError::Http { .. }) => true,
            (NetworkError::InvalidUrl { .. }, NetworkError::InvalidUrl { .. }) => true,
            (NetworkError::AuthenticationFailed, NetworkError::AuthenticationFailed) => true,
            _ => false,
        }
    }
}

impl ParseError {
    /// Whether the two failures are the same variant, whatever they carry.
    pub open spec fn same_variant(&self, other: &Self) -> bool {
        match (self, other) {
            (ParseError::Json { .. }, ParseError::Json { .. }) => true,
            (ParseError::Yaml { .. }, ParseError::Yaml { .. }) => true,
            (ParseError::Toml { .. }, ParseError::Toml { .. }) => true,
            (ParseError::Syntax { .. }, ParseError::Syntax { .. }) => true,
            _ => false,
        }
    }
}

impl InternalError {
    /// Whether the two failures are the same variant, whatever they carry.
    pub open spec fn same_variant(&self, other: &Self) -> bool {
        match (self, other) {
            (InternalError::UnexpectedState { .. }, InternalError::UnexpectedState { .. }) => true,
            (InternalError::ResourceExhausted { .. }, InternalError::ResourceExhausted { .. }) =>
                true,
            (
                InternalError::InitializationFailed { .. },
                InternalError::InitializationFailed { .. },
            ) => true,
            (InternalError::ConfigValidation { .. }, InternalError::ConfigValidation { .. }) =>
                true,
            _ => false,
        }
    }
}

impl GroundhogError {
    /// Whether the two failures are the same variant of the same category,
    /// whatever they carry.
    pub open spec fn same_variant(&self, other: &Self) -> bool {
        match (self, other) {
            (GroundhogError::Command(a), GroundhogError::Command(b)) => a.same_variant(b),
            (GroundhogError::Config(a), GroundhogError::Config(b)) => a.same_variant(b),
            (GroundhogError::FileSystem(a), GroundhogError::FileSystem(b)) => a.same_variant(b),
            (GroundhogError::Network(a), GroundhogError::Network(b)) => a.same_variant(b),
            (GroundhogError::Parse(a), GroundhogError::Parse(b)) => a.same_variant(b),
            (GroundhogError::Internal(a), GroundhogError::Internal(b)) => a.same_variant(b),
            (GroundhogError::TUIError(_), GroundhogError::TUIError(_)) => true,
            _ => false,
        }
    }

    /// The exit code is a function of the variant alone: two failures of
    /// the same variant end the process with the same code, whatever
    /// command, path or message they carry.
    pub proof fn exit_code_depends_on_variant_only(&self, other: &Self)
        requires
            self.same_variant(other),
        ensures
            self.exit_code_spec() == other.exit_code_spec(),
    {
    }

    /// Every failure maps to one of the seven exit codes in use.
    pub proof fn exit_code_is_documented(&self)
        ensures
            self.exit_code_spec() == 1 || self.exit_code_spec() == 64 || self.exit_code_spec()
                == 65 || self.exit_code_spec() == 66 || self.exit_code_spec() == 69
                || self.exit_code_spec() == 74 || self.exit_code_spec() == 77,
    {
    }

    /// A failure without a suggestion of its own is shown to the user by
    /// its technical text.
    pub proof fn user_message_falls_back_to_technical_text(&self)
        requires
            !(self matches GroundhogError::Command(CommandError::NotFound { .. })),
            !(self matches GroundhogError::Config(ConfigError::NotFound { .. })),
            !(self matches GroundhogError::FileSystem(FileSystemError::NotFound { .. })),
            !(self matches GroundhogError::FileSystem(FileSystemError::PermissionDenied { .. })),
        ensures
            self.user_message_spec() == self.message(),
    {
    }
}

} // verus!
