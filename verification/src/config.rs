//! The configuration record that the daemon and its controller share, and
//! its JSON form.

use crate::json::{
    holds_texts, json_document, json_text, lemma_first_member_at, member_texts, DocumentError,
    Json, Problem,
};
use vstd::prelude::*;
use vstd::string::StrSliceExecFns;
use vstd::string::StringSliceAdditionalSpecFns;
use vstd::utf8::{decode_utf8, valid_utf8};

verus! {

/// `std::string::FromUtf8Error`: why bytes are no UTF-8. It is carried as
/// it is.
#[verifier::external_type_specification]
#[verifier::external_body]
pub struct ExFromUtf8Error(std::string::FromUtf8Error);

/// `std::io::Error`: why reading or writing failed. It is carried as it
/// is, from the one who read or wrote into the failure that reports it.
#[verifier::external_type_specification]
#[verifier::external_body]
pub struct ExIoError(std::io::Error);

/// How much the daemon logs.
#[derive(Clone, Copy, Debug, PartialEq, Eq, Hash, Structural)]
pub enum LogLevel {
    Off,
    Error,
    Warn,
    Info,
    Debug,
    Trace,
}

/// Whether `name` is the word `upper`, each letter in either case; `lower`
/// is `upper` in small letters.
pub open spec fn spelled(name: Seq<char>, upper: Seq<char>, lower: Seq<char>) -> bool {
    &&& name.len() == upper.len()
    &&& name.len() == lower.len()
    &&& forall|i: int| 0 <= i < name.len() ==> name[i] == upper[i] || name[i] == lower[i]
}

/// The level that a text names. A name is one of the six words OFF, ERROR,
/// WARN, INFO, DEBUG and TRACE, each letter in either case.
pub open spec fn level_named(name: Seq<char>) -> Option<LogLevel> {
    if spelled(name, "OFF"@, "off"@) {
        Some(LogLevel::Off)
    } else if spelled(name, "ERROR"@, "error"@) {
        Some(LogLevel::Error)
    } else if spelled(name, "WARN"@, "warn"@) {
        Some(LogLevel::Warn)
    } else if spelled(name, "INFO"@, "info"@) {
        Some(LogLevel::Info)
    } else if spelled(name, "DEBUG"@, "debug"@) {
        Some(LogLevel::Debug)
    } else if spelled(name, "TRACE"@, "trace"@) {
        Some(LogLevel::Trace)
    } else {
        None
    }
}

/// Tells whether `name` is the word `upper`, each letter in either case.
fn spells(name: &str, upper: &str, lower: &str) -> (r: bool)
    ensures
        r == spelled(name@, upper@, lower@),
{
    let n: usize = name.unicode_len();
    if upper.unicode_len() != n || lower.unicode_len() != n {
        return false;
    }
    let mut i: usize = 0;
    while i < n
        invariant
            i <= n,
            n == name@.len(),
            n == upper@.len(),
            n == lower@.len(),
            forall|j: int| 0 <= j < i ==> name@[j] == upper@[j] || name@[j] == lower@[j],
        decreases n - i,
    {
        let c: char = name.get_char(i);
        if c != upper.get_char(i) && c != lower.get_char(i) {
            return false;
        }
        i += 1;
    }
    true
}

impl LogLevel {
    /// The word for this level, in capitals.
    pub open spec fn label(self) -> Seq<char> {
        match self {
            LogLevel::Off => "OFF"@,
            LogLevel::Error => "ERROR"@,
            LogLevel::Warn => "WARN"@,
            LogLevel::Info => "INFO"@,
            LogLevel::Debug => "DEBUG"@,
            LogLevel::Trace => "TRACE"@,
        }
    }

    /// The word for this level, in capitals.
    pub fn name(&self) -> (r: &'static str)
        ensures
            r@ == self.label(),
    {
        match self {
            LogLevel::Off => "OFF",
            LogLevel::Error => "ERROR",
            LogLevel::Warn => "WARN",
            LogLevel::Info => "INFO",
            LogLevel::Debug => "DEBUG",
            LogLevel::Trace => "TRACE",
        }
    }

    /// The level that `name` names, if it names one.
    pub fn from_name(name: &str) -> (r: Option<LogLevel>)
        ensures
            r == level_named(name@),
    {
        if spells(name, "OFF", "off") {
            Some(LogLevel::Off)
        } else if spells(name, "ERROR", "error") {
            Some(LogLevel::Error)
        } else if spells(name, "WARN", "warn") {
            Some(LogLevel::Warn)
        } else if spells(name, "INFO", "info") {
            Some(LogLevel::Info)
        } else if spells(name, "DEBUG", "debug") {
            Some(LogLevel::Debug)
        } else if spells(name, "TRACE", "trace") {
            Some(LogLevel::Trace)
        } else {
            None
        }
    }
}

/// Every level is named by its own word.
pub proof fn law_level_name_round_trip(level: LogLevel)
    ensures
        level_named(level.label()) == Some(level),
{
    reveal_strlit("OFF");
    reveal_strlit("off");
    reveal_strlit("ERROR");
    reveal_strlit("error");
    reveal_strlit("WARN");
    reveal_strlit("warn");
    reveal_strlit("INFO");
    reveal_strlit("info");
    reveal_strlit("DEBUG");
    reveal_strlit("debug");
    reveal_strlit("TRACE");
    reveal_strlit("trace");
    match level {
        LogLevel::Off => {},
        LogLevel::Error => {},
        LogLevel::Warn => {
            assert("WARN"@[0] == 'W');
        },
        LogLevel::Info => {
            assert("INFO"@[0] == 'I');
        },
        LogLevel::Debug => {
            assert("DEBUG"@[0] == 'D');
        },
        LogLevel::Trace => {
            assert("TRACE"@[0] == 'T');
        },
    }
}

/// What can go wrong with a configuration. A failure of an outer step holds
/// the failure of the step inside it.
#[derive(Debug)]
#[allow(inconsistent_fields)]
pub enum ConfigError {
    /// The text read is no configuration.
    ReaderParseError { err: DocumentError },
    /// The configuration could not be written as JSON.
    WriterWriteError { err: serde_json::Error },
    /// The bytes hold no configuration.
    BytesParseError { err: Box<ConfigError> },
    /// The configuration could not be written as bytes.
    BytesWriteError { err: Box<ConfigError> },
    /// The string holds no configuration.
    StringParseError { err: Box<ConfigError> },
    /// The bytes written are no UTF-8.
    UnicodeError { err: std::string::FromUtf8Error },
    /// The configuration could not be written as a string.
    StringWriteError { err: Box<ConfigError> },
    /// The file could not be created.
    FileCreateError { path: String, err: std::io::Error },
    /// The file could not be opened.
    FileOpenError { path: String, err: std::io::Error },
    /// The file holds no configuration.
    FileParseError { path: String, err: Box<ConfigError> },
    /// The configuration could not be written to the file.
    FileWriteError { path: String, err: Box<ConfigError> },
    /// A path of the configuration is relative: the field, and what it holds.
    RelativePathFound { field: String, delinquint: String },
}

/// A `ConfigError` in plain values. An error that was handed in from
/// outside stays in it as it is.
#[allow(inconsistent_fields)]
pub enum ConfigFailure {
    ReaderParse { problem: Problem },
    WriterWrite,
    BytesParse { cause: Box<ConfigFailure> },
    BytesWrite { cause: Box<ConfigFailure> },
    StringParse { cause: Box<ConfigFailure> },
    Unicode,
    StringWrite { cause: Box<ConfigFailure> },
    FileCreate { path: Seq<char>, err: std::io::Error },
    FileOpen { path: Seq<char>, err: std::io::Error },
    FileParse { path: Seq<char>, cause: Box<ConfigFailure> },
    FileWrite { path: Seq<char>, cause: Box<ConfigFailure> },
    RelativePath { field: Seq<char>, delinquint: Seq<char> },
}

impl ConfigError {
    /// The failure in plain values.
    pub open spec fn failure(self) -> ConfigFailure
        decreases self,
    {
        match self {
            ConfigError::ReaderParseError { err } => ConfigFailure::ReaderParse { problem: err@ },
            ConfigError::WriterWriteError { .. } => ConfigFailure::WriterWrite,
            ConfigError::BytesParseError { err } => ConfigFailure::BytesParse {
                cause: Box::new((*err).failure()),
            },
            ConfigError::BytesWriteError { err } => ConfigFailure::BytesWrite {
                cause: Box::new((*err).failure()),
            },
            ConfigError::StringParseError { err } => ConfigFailure::StringParse {
                cause: Box::new((*err).failure()),
            },
            ConfigError::UnicodeError { .. } => ConfigFailure::Unicode,
            ConfigError::StringWriteError { err } => ConfigFailure::StringWrite {
                cause: Box::new((*err).failure()),
            },
            ConfigError::FileCreateError { path, err } => ConfigFailure::FileCreate {
                path: path@,
                err,
            },
            ConfigError::FileOpenError { path, err } => ConfigFailure::FileOpen { path: path@, err },
            ConfigError::FileParseError { path, err } => ConfigFailure::FileParse {
                path: path@,
                cause: Box::new((*err).failure()),
            },
            ConfigError::FileWriteError { path, err } => ConfigFailure::FileWrite {
                path: path@,
                cause: Box::new((*err).failure()),
            },
            ConfigError::RelativePathFound { field, delinquint } => ConfigFailure::RelativePath {
                field: field@,
                delinquint: delinquint@,
            },
        }
    }
}

impl View for ConfigError {
    type V = ConfigFailure;

    open spec fn view(&self) -> ConfigFailure {
        self.failure()
    }
}

/// The configuration of the daemon.
#[derive(Debug, PartialEq, Eq)]
pub struct Config {
    /// How much the daemon logs.
    pub log_level: LogLevel,
    /// The path of the socket of the control channel.
    pub control_socket_path: String,
    /// The address and port on which the daemon listens for data channels.
    pub listen_address: String,
    /// The path of the file with the server's certificate chain.
    pub server_cert_path: String,
    /// The path of the file with the server's private key.
    pub server_key_path: String,
    /// The path of the file with the user directory.
    pub user_directory_path: String,
}

/// A `Config` in plain values.
pub struct ConfigView {
    pub log_level: LogLevel,
    pub control_socket_path: Seq<char>,
    pub listen_address: Seq<char>,
    pub server_cert_path: Seq<char>,
    pub server_key_path: Seq<char>,
    pub user_directory_path: Seq<char>,
}

impl View for Config {
    type V = ConfigView;

    open spec fn view(&self) -> ConfigView {
        ConfigView {
            log_level: self.log_level,
            control_socket_path: self.control_socket_path@,
            listen_address: self.listen_address@,
            server_cert_path: self.server_cert_path@,
            server_key_path: self.server_key_path@,
            user_directory_path: self.user_directory_path@,
        }
    }
}

impl Clone for Config {
    fn clone(&self) -> (r: Config)
        ensures
            r == *self,
    {
        Config {
            log_level: self.log_level,
            control_socket_path: self.control_socket_path.clone(),
            listen_address: self.listen_address.clone(),
            server_cert_path: self.server_cert_path.clone(),
            server_key_path: self.server_key_path.clone(),
            user_directory_path: self.user_directory_path.clone(),
        }
    }
}

/// Whether a path starts at the root of the file system.
pub open spec fn is_absolute(path: Seq<char>) -> bool {
    path.len() > 0 && path[0] == '/'
}

/// Tells whether a path starts at the root of the file system.
fn starts_at_root(path: &str) -> (r: bool)
    ensures
        r == is_absolute(path@),
{
    path.unicode_len() > 0 && path.get_char(0) == '/'
}

/// `String::from_utf8`: the string that the bytes spell in UTF-8, and an
/// error exactly where the bytes are no UTF-8.
#[verifier::external_body]
fn string_of_utf8(bytes: Vec<u8>) -> (r: Result<String, std::string::FromUtf8Error>)
    ensures
        match r {
            Ok(text) => valid_utf8(bytes@) && text@ == decode_utf8(bytes@),
            Err(_) => !valid_utf8(bytes@),
        },
{
    String::from_utf8(bytes)
}

impl ConfigView {
    /// The members of the JSON form, in their order.
    pub open spec fn members(self) -> Seq<(Seq<char>, Seq<char>)> {
        seq![
            ("log_level"@, self.log_level.label()),
            ("control_socket_path"@, self.control_socket_path),
            ("listen_address"@, self.listen_address),
            ("server_cert_path"@, self.server_cert_path),
            ("server_key_path"@, self.server_key_path),
            ("user_directory_path"@, self.user_directory_path),
        ]
    }

    /// The first field, in the order of the record, whose path is relative.
    pub open spec fn relative_path(self) -> Option<(Seq<char>, Seq<char>)> {
        if !is_absolute(self.control_socket_path) {
            Some(("control_socket_path"@, self.control_socket_path))
        } else if !is_absolute(self.server_cert_path) {
            Some(("server_cert_path"@, self.server_cert_path))
        } else if !is_absolute(self.server_key_path) {
            Some(("server_key_path"@, self.server_key_path))
        } else if !is_absolute(self.user_directory_path) {
            Some(("user_directory_path"@, self.user_directory_path))
        } else {
            None
        }
    }

    /// Whether every path of the configuration is absolute.
    pub open spec fn resolved(self) -> bool {
        self.relative_path() is None
    }
}

/// The configuration that a document holds. The fields are looked for in
/// the order of the record, and the first that fails decides the problem;
/// members that the record does not know are passed over.
pub open spec fn config_of_json(doc: Json) -> Result<ConfigView, Problem> {
    if !(doc is Record) {
        Err(Problem::NotARecord)
    } else {
        match doc.text_member("log_level"@) {
            Err(p) => Err(p),
            Ok(name) => match level_named(name) {
                None => Err(Problem::UnknownLevel { name }),
                Some(log_level) => match doc.text_member("control_socket_path"@) {
                    Err(p) => Err(p),
                    Ok(control_socket_path) => match doc.text_member("listen_address"@) {
                        Err(p) => Err(p),
                        Ok(listen_address) => match doc.text_member("server_cert_path"@) {
                            Err(p) => Err(p),
                            Ok(server_cert_path) => match doc.text_member("server_key_path"@) {
                                Err(p) => Err(p),
                                Ok(server_key_path) => match doc.text_member(
                                    "user_directory_path"@,
                                ) {
                                    Err(p) => Err(p),
                                    Ok(user_directory_path) => Ok(
                                        ConfigView {
                                            log_level,
                                            control_socket_path,
                                            listen_address,
                                            server_cert_path,
                                            server_key_path,
                                            user_directory_path,
                                        },
                                    ),
                                },
                            },
                        },
                    },
                },
            },
        }
    }
}

/// The configuration that a JSON text holds.
pub open spec fn config_of_text(text: Seq<u8>) -> Result<ConfigView, Problem> {
    match json_document(text) {
        None => Err(Problem::Syntax),
        Some(doc) => config_of_json(doc),
    }
}

/// The content of a file as it was read, in plain values; where the file
/// could not be opened, the error that says why stays as it is.
pub open spec fn content_view(content: Result<Vec<u8>, std::io::Error>) -> Result<
    Seq<u8>,
    std::io::Error,
> {
    match content {
        Ok(text) => Ok(text@),
        Err(err) => Err(err),
    }
}

/// What reading a configuration from a reader over a JSON text gives.
pub open spec fn config_of_reader(text: Seq<u8>) -> Result<ConfigView, ConfigFailure> {
    match config_of_text(text) {
        Ok(config) => Ok(config),
        Err(problem) => Err(ConfigFailure::ReaderParse { problem }),
    }
}

/// What reading a configuration from bytes of JSON text gives: a failure
/// holds the failure of the reader.
pub open spec fn config_of_bytes(text: Seq<u8>) -> Result<ConfigView, ConfigFailure> {
    match config_of_reader(text) {
        Ok(config) => Ok(config),
        Err(cause) => Err(ConfigFailure::BytesParse { cause: Box::new(cause) }),
    }
}

/// What reading a configuration from a string of JSON text gives, given
/// the bytes of the string: a failure holds the failure of the bytes.
pub open spec fn config_of_string(text: Seq<u8>) -> Result<ConfigView, ConfigFailure> {
    match config_of_bytes(text) {
        Ok(config) => Ok(config),
        Err(cause) => Err(ConfigFailure::StringParse { cause: Box::new(cause) }),
    }
}

/// What reading a configuration from the file at `path` gives, given its
/// content or why the file could not be opened: the failure to open holds
/// the very error that was handed in, and a failure to read holds the
/// failure of the reader.
pub open spec fn config_of_file(path: Seq<char>, content: Result<Seq<u8>, std::io::Error>) -> Result<
    ConfigView,
    ConfigFailure,
> {
    match content {
        Err(err) => Err(ConfigFailure::FileOpen { path, err }),
        Ok(text) => match config_of_reader(text) {
            Ok(config) => Ok(config),
            Err(cause) => Err(ConfigFailure::FileParse { path, cause: Box::new(cause) }),
        },
    }
}

impl Config {
    /// Reads a configuration from a document.
    pub fn from_json(doc: &Json) -> (r: Result<Config, DocumentError>)
        ensures
            match r {
                Ok(config) => config_of_json(*doc) == Ok::<ConfigView, Problem>(config@),
                Err(e) => config_of_json(*doc) == Err::<ConfigView, Problem>(e@),
            },
    {
        match doc {
            Json::Record(_) => {},
            _ => {
                return Err(DocumentError::NotARecord);
            },
        }
        let name = doc.text_field("log_level")?;
        let log_level = match LogLevel::from_name(name.as_str()) {
            Some(level) => level,
            None => {
                return Err(DocumentError::UnknownLevel { name });
            },
        };
        let control_socket_path = doc.text_field("control_socket_path")?;
        let listen_address = doc.text_field("listen_address")?;
        let server_cert_path = doc.text_field("server_cert_path")?;
        let server_key_path = doc.text_field("server_key_path")?;
        let user_directory_path = doc.text_field("user_directory_path")?;
        Ok(
            Config {
                log_level,
                control_socket_path,
                listen_address,
                server_cert_path,
                server_key_path,
                user_directory_path,
            },
        )
    }

    /// Reads a configuration from the JSON text that a reader holds.
    pub fn from_reader(reader: &[u8]) -> (r: Result<Config, ConfigError>)
        ensures
            match r {
                Ok(config) => config_of_reader(reader@) == Ok::<ConfigView, ConfigFailure>(config@),
                Err(e) => config_of_reader(reader@) == Err::<ConfigView, ConfigFailure>(e@),
            },
    {
        match Json::parse(reader) {
            Ok(doc) => match Config::from_json(&doc) {
                Ok(config) => Ok(config),
                Err(err) => Err(ConfigError::ReaderParseError { err }),
            },
            Err(err) => Err(ConfigError::ReaderParseError { err: DocumentError::Syntax { err } }),
        }
    }

    /// Reads a configuration from the file at `path`, given its content as
    /// it was read, or why the file could not be opened.
    pub fn from_file(path: &str, content: Result<Vec<u8>, std::io::Error>) -> (r: Result<
        Config,
        ConfigError,
    >)
        ensures
            match r {
                Ok(config) => config_of_file(path@, content_view(content)) == Ok::<
                    ConfigView,
                    ConfigFailure,
                >(config@),
                Err(e) => config_of_file(path@, content_view(content)) == Err::<
                    ConfigView,
                    ConfigFailure,
                >(e@),
            },
    {
        let handle = match content {
            Ok(handle) => handle,
            Err(err) => {
                return Err(ConfigError::FileOpenError { path: path.to_owned(), err });
            },
        };
        match Config::from_reader(handle.as_slice()) {
            Ok(res) => Ok(res),
            Err(err) => Err(
                ConfigError::FileParseError { path: path.to_owned(), err: Box::new(err) },
            ),
        }
    }

    /// Reads a configuration from bytes of JSON text.
    pub fn from_bytes(value: &[u8]) -> (r: Result<Config, ConfigError>)
        ensures
            match r {
                Ok(config) => config_of_bytes(value@) == Ok::<ConfigView, ConfigFailure>(config@),
                Err(e) => config_of_bytes(value@) == Err::<ConfigView, ConfigFailure>(e@),
            },
    {
        match Config::from_reader(value) {
            Ok(config) => Ok(config),
            Err(err) => Err(ConfigError::BytesParseError { err: Box::new(err) }),
        }
    }

    /// Reads a configuration from a string of JSON text.
    pub fn from_string(value: &str) -> (r: Result<Config, ConfigError>)
        ensures
            match r {
                Ok(config) => config_of_string(value.spec_bytes()) == Ok::<
                    ConfigView,
                    ConfigFailure,
                >(config@),
                Err(e) => config_of_string(value.spec_bytes()) == Err::<ConfigView, ConfigFailure>(
                    e@,
                ),
            },
    {
        match Config::from_bytes(value.as_bytes()) {
            Ok(config) => Ok(config),
            Err(err) => Err(ConfigError::StringParseError { err: Box::new(err) }),
        }
    }

    /// The members of the JSON form, in their order.
    pub fn members(&self) -> (r: Vec<(String, String)>)
        ensures
            member_texts(r@) == self@.members(),
    {
        let mut r: Vec<(String, String)> = Vec::new();
        r.push(("log_level".to_owned(), self.log_level.name().to_owned()));
        r.push(("control_socket_path".to_owned(), self.control_socket_path.clone()));
        r.push(("listen_address".to_owned(), self.listen_address.clone()));
        r.push(("server_cert_path".to_owned(), self.server_cert_path.clone()));
        r.push(("server_key_path".to_owned(), self.server_key_path.clone()));
        r.push(("user_directory_path".to_owned(), self.user_directory_path.clone()));
        assert(member_texts(r@) == self@.members());
        r
    }

    /// Writes the configuration as JSON text behind what `writer` holds: on
    /// one line, or laid out over several where `pretty`. The text is valid
    /// UTF-8, and writing it to a byte vector does not fail.
    pub fn to_writer(&self, writer: &mut Vec<u8>, pretty: bool) -> (r: Result<(), ConfigError>)
        ensures
            r is Ok,
            json_text(self@.members(), pretty) matches Some(text) && valid_utf8(text)
                && final(writer)@ == old(writer)@ + text,
    {
        let members = self.members();
        match Json::render(&members, pretty) {
            Ok(text) => {
                let mut text = text;
                writer.append(&mut text);
                Ok(())
            },
            Err(err) => Err(ConfigError::WriterWriteError { err }),
        }
    }

    /// Writes the configuration as bytes of JSON text. It does not fail.
    pub fn to_bytes(&self, pretty: bool) -> (r: Result<Vec<u8>, ConfigError>)
        ensures
            r matches Ok(text) && json_text(self@.members(), pretty) == Some(text@) && valid_utf8(
                text@,
            ),
    {
        let mut res: Vec<u8> = Vec::new();
        match self.to_writer(&mut res, pretty) {
            Ok(_) => {
                assert(res@ == json_text(self@.members(), pretty).unwrap());
                Ok(res)
            },
            Err(err) => Err(ConfigError::BytesWriteError { err: Box::new(err) }),
        }
    }

    /// Writes the configuration as a string of JSON text: the string that
    /// the bytes of `to_bytes` spell. It does not fail.
    pub fn to_string(&self, pretty: bool) -> (r: Result<String, ConfigError>)
        ensures
            r matches Ok(text) && json_text(self@.members(), pretty) matches Some(bytes)
                && valid_utf8(bytes) && text@ == decode_utf8(bytes),
    {
        match self.to_bytes(pretty) {
            Ok(res) => match string_of_utf8(res) {
                Ok(res) => Ok(res),
                Err(err) => Err(ConfigError::UnicodeError { err }),
            },
            Err(err) => Err(ConfigError::StringWriteError { err: Box::new(err) }),
        }
    }

    /// Writes the configuration as the content of the file at `path`,
    /// given what came of creating the file: the bytes of JSON text that
    /// are to be written to it, which are those of `to_bytes`. It fails
    /// exactly where the file could not be created, with the error that
    /// says why.
    pub fn to_file(&self, path: &str, created: Result<(), std::io::Error>, pretty: bool) -> (r:
        Result<Vec<u8>, ConfigError>)
        ensures
            match r {
                Ok(text) => created is Ok && json_text(self@.members(), pretty) == Some(text@)
                    && valid_utf8(text@),
                Err(e) => created matches Err(err) && e@ == (ConfigFailure::FileCreate {
                    path: path@,
                    err,
                }),
            },
    {
        match created {
            Ok(_) => {},
            Err(err) => {
                return Err(ConfigError::FileCreateError { path: path.to_owned(), err });
            },
        }
        let mut handle: Vec<u8> = Vec::new();
        match self.to_writer(&mut handle, pretty) {
            Ok(_) => {
                assert(handle@ == json_text(self@.members(), pretty).unwrap());
                Ok(handle)
            },
            Err(err) => Err(
                ConfigError::FileWriteError { path: path.to_owned(), err: Box::new(err) },
            ),
        }
    }

    /// Checks that every path of the configuration is absolute, and fails
    /// on the first field, in the order of the record, whose path is not.
    /// The configuration is left as it is.
    pub fn resolve(&mut self) -> (r: Result<(), ConfigError>)
        ensures
            *final(self) == *old(self),
            match r {
                Ok(_) => old(self)@.resolved(),
                Err(e) => old(self)@.relative_path() matches Some(found) && e@ == (
                ConfigFailure::RelativePath { field: found.0, delinquint: found.1 }),
            },
    {
        if !starts_at_root(self.control_socket_path.as_str()) {
            Err(
                ConfigError::RelativePathFound {
                    field: "control_socket_path".to_owned(),
                    delinquint: self.control_socket_path.clone(),
                },
            )
        } else if !starts_at_root(self.server_cert_path.as_str()) {
            Err(
                ConfigError::RelativePathFound {
                    field: "server_cert_path".to_owned(),
                    delinquint: self.server_cert_path.clone(),
                },
            )
        } else if !starts_at_root(self.server_key_path.as_str()) {
            Err(
                ConfigError::RelativePathFound {
                    field: "server_key_path".to_owned(),
                    delinquint: self.server_key_path.clone(),
                },
            )
        } else if !starts_at_root(self.user_directory_path.as_str()) {
            Err(
                ConfigError::RelativePathFound {
                    field: "user_directory_path".to_owned(),
                    delinquint: self.user_directory_path.clone(),
                },
            )
        } else {
            Ok(())
        }
    }
}

impl Default for Config {
    /// The configuration of a daemon that nothing was said to.
    fn default() -> (r: Config)
        ensures
            r@ == (ConfigView {
                log_level: LogLevel::Debug,
                control_socket_path: "/run/filehost/ctl.sock"@,
                listen_address: "127.0.0.1:8719"@,
                server_cert_path: "/etc/filehost/server.crt"@,
                server_key_path: "/etc/filehost/server.key"@,
                user_directory_path: "/etc/filehost/users.json"@,
            }),
    {
        Config {
            log_level: LogLevel::Debug,
            control_socket_path: "/run/filehost/ctl.sock".to_owned(),
            listen_address: "127.0.0.1:8719".to_owned(),
            server_cert_path: "/etc/filehost/server.crt".to_owned(),
            server_key_path: "/etc/filehost/server.key".to_owned(),
            user_directory_path: "/etc/filehost/users.json".to_owned(),
        }
    }
}

/// The names of the six members differ from one another.
proof fn lemma_member_names_differ()
    ensures
        "log_level"@.len() == 9,
        "control_socket_path"@.len() == 19,
        "listen_address"@.len() == 14,
        "server_cert_path"@.len() == 16,
        "server_key_path"@.len() == 15,
        "user_directory_path"@.len() == 19,
        "control_socket_path"@[0] == 'c',
        "user_directory_path"@[0] == 'u',
{
    reveal_strlit("log_level");
    reveal_strlit("control_socket_path");
    reveal_strlit("listen_address");
    reveal_strlit("server_cert_path");
    reveal_strlit("server_key_path");
    reveal_strlit("user_directory_path");
}

/// A configuration is read back from the record of its members: from any
/// document that holds exactly the members of the JSON form of `config`,
/// each as a string, the configuration read is `config`.
pub proof fn law_config_round_trip_document(config: ConfigView, doc: Json)
    requires
        holds_texts(doc, config.members()),
    ensures
        config_of_json(doc) == Ok::<ConfigView, Problem>(config),
{
    lemma_member_names_differ();
    law_level_name_round_trip(config.log_level);
    let members = config.members();
    let found = doc->Record_0@;
    assert forall|i: int| 0 <= i < 6 implies (#[trigger] found[i]).0@ == members[i].0 && (
    found[i].1 matches Json::Text(text) && text@ == members[i].1) by {}
    assert(found[0].0@ == "log_level"@);
    assert(found[1].0@ == "control_socket_path"@);
    assert(found[2].0@ == "listen_address"@);
    assert(found[3].0@ == "server_cert_path"@);
    assert(found[4].0@ == "server_key_path"@);
    assert(found[5].0@ == "user_directory_path"@);
    lemma_first_member_at(found, "log_level"@, 0);
    lemma_first_member_at(found, "control_socket_path"@, 1);
    lemma_first_member_at(found, "listen_address"@, 2);
    lemma_first_member_at(found, "server_cert_path"@, 3);
    lemma_first_member_at(found, "server_key_path"@, 4);
    lemma_first_member_at(found, "user_directory_path"@, 5);
}

/// Reading gives back what was written, as far as the JSON text does: where
/// the text written for `config`, read as JSON, is the record of the members
/// written, the configuration read from that text is `config`, whether it
/// is read from a reader, from bytes, from the string that the bytes spell
/// or from a file with that content.
pub proof fn law_config_round_trip_text(
    config: ConfigView,
    pretty: bool,
    text: Seq<u8>,
    path: Seq<char>,
)
    requires
        json_text(config.members(), pretty) == Some(text),
        json_document(text) matches Some(doc) && holds_texts(doc, config.members()),
    ensures
        config_of_text(text) == Ok::<ConfigView, Problem>(config),
        config_of_reader(text) == Ok::<ConfigView, ConfigFailure>(config),
        config_of_bytes(text) == Ok::<ConfigView, ConfigFailure>(config),
        config_of_string(text) == Ok::<ConfigView, ConfigFailure>(config),
        config_of_file(path, Ok(text)) == Ok::<ConfigView, ConfigFailure>(config),
        valid_utf8(text) ==> vstd::utf8::encode_utf8(decode_utf8(text)) == text,
{
    law_config_round_trip_document(config, json_document(text).unwrap());
    if valid_utf8(text) {
        vstd::utf8::decode_utf8_encode_utf8(text);
    }
}

} // verus!
