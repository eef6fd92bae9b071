use filehost::config::{Config, ConfigError, LogLevel};
use filehost::json::{DocumentError, Json};

fn sample() -> Config {
    Config {
        log_level: LogLevel::Info,
        control_socket_path: "/run/fh/ctl.sock".to_string(),
        listen_address: "0.0.0.0:7391".to_string(),
        server_cert_path: "/etc/fh/cert.pem".to_string(),
        server_key_path: "/etc/fh/key.pem".to_string(),
        user_directory_path: "/etc/fh/users.json".to_string(),
    }
}

const SAMPLE_COMPACT: &str = "{\"log_level\":\"INFO\",\"control_socket_path\":\"/run/fh/ctl.sock\",\"listen_address\":\"0.0.0.0:7391\",\"server_cert_path\":\"/etc/fh/cert.pem\",\"server_key_path\":\"/etc/fh/key.pem\",\"user_directory_path\":\"/etc/fh/users.json\"}";

const SAMPLE_PRETTY: &str = "{\n  \"log_level\": \"INFO\",\n  \"control_socket_path\": \"/run/fh/ctl.sock\",\n  \"listen_address\": \"0.0.0.0:7391\",\n  \"server_cert_path\": \"/etc/fh/cert.pem\",\n  \"server_key_path\": \"/etc/fh/key.pem\",\n  \"user_directory_path\": \"/etc/fh/users.json\"\n}";

fn with_field(field: &str, value: &str) -> String {
    let mut members = sample().members();
    for member in members.iter_mut() {
        if member.0 == field {
            member.1 = value.to_string();
        }
    }
    String::from_utf8(Json::render(&members, false).unwrap()).unwrap()
}

fn without_field(field: &str) -> String {
    let members: Vec<(String, String)> =
        sample().members().into_iter().filter(|m| m.0 != field).collect();
    String::from_utf8(Json::render(&members, false).unwrap()).unwrap()
}

fn problem(err: ConfigError) -> DocumentError {
    match err {
        ConfigError::ReaderParseError { err } => err,
        ConfigError::BytesParseError { err } => problem(*err),
        ConfigError::StringParseError { err } => problem(*err),
        ConfigError::FileParseError { err, .. } => problem(*err),
        other => panic!("no failure to read: {:?}", other),
    }
}

#[test]
fn level_names_are_capitals() {
    assert_eq!(LogLevel::Off.name(), "OFF");
    assert_eq!(LogLevel::Error.name(), "ERROR");
    assert_eq!(LogLevel::Warn.name(), "WARN");
    assert_eq!(LogLevel::Info.name(), "INFO");
    assert_eq!(LogLevel::Debug.name(), "DEBUG");
    assert_eq!(LogLevel::Trace.name(), "TRACE");
}

#[test]
fn level_is_named_in_either_case() {
    assert_eq!(LogLevel::from_name("OFF"), Some(LogLevel::Off));
    assert_eq!(LogLevel::from_name("error"), Some(LogLevel::Error));
    assert_eq!(LogLevel::from_name("Warn"), Some(LogLevel::Warn));
    assert_eq!(LogLevel::from_name("iNfO"), Some(LogLevel::Info));
    assert_eq!(LogLevel::from_name("debug"), Some(LogLevel::Debug));
    assert_eq!(LogLevel::from_name("TRACE"), Some(LogLevel::Trace));
}

#[test]
fn level_is_not_named_by_other_words() {
    assert_eq!(LogLevel::from_name(""), None);
    assert_eq!(LogLevel::from_name("verbose"), None);
    assert_eq!(LogLevel::from_name("DEBU"), None);
    assert_eq!(LogLevel::from_name("DEBUGG"), None);
    assert_eq!(LogLevel::from_name(" INFO"), None);
    assert_eq!(LogLevel::from_name("WARNING"), None);
    assert_eq!(LogLevel::from_name("4"), None);
    assert_eq!(LogLevel::from_name("tr\u{e4}ce"), None);
}

#[test]
fn level_round_trips_through_its_name() {
    for level in [
        LogLevel::Off,
        LogLevel::Error,
        LogLevel::Warn,
        LogLevel::Info,
        LogLevel::Debug,
        LogLevel::Trace,
    ] {
        assert_eq!(LogLevel::from_name(level.name()), Some(level));
    }
}

#[test]
fn members_are_the_six_fields_in_order() {
    let expected: Vec<(String, String)> = [
        ("log_level", "INFO"),
        ("control_socket_path", "/run/fh/ctl.sock"),
        ("listen_address", "0.0.0.0:7391"),
        ("server_cert_path", "/etc/fh/cert.pem"),
        ("server_key_path", "/etc/fh/key.pem"),
        ("user_directory_path", "/etc/fh/users.json"),
    ]
    .iter()
    .map(|m| (m.0.to_string(), m.1.to_string()))
    .collect();
    assert_eq!(sample().members(), expected);
}

#[test]
fn to_bytes_writes_json_on_one_line() {
    assert_eq!(sample().to_bytes(false).unwrap(), SAMPLE_COMPACT.as_bytes());
}

#[test]
fn to_bytes_writes_json_over_several_lines() {
    assert_eq!(sample().to_bytes(true).unwrap(), SAMPLE_PRETTY.as_bytes());
}

#[test]
fn to_string_writes_the_same_as_to_bytes() {
    assert_eq!(sample().to_string(false).unwrap(), SAMPLE_COMPACT);
    assert_eq!(sample().to_string(true).unwrap(), SAMPLE_PRETTY);
}

#[test]
fn to_writer_writes_behind_what_is_there() {
    let mut out = b"# ".to_vec();
    sample().to_writer(&mut out, false).unwrap();
    assert_eq!(out, format!("# {}", SAMPLE_COMPACT).into_bytes());
}

#[test]
fn to_file_gives_the_content_of_the_file() {
    assert_eq!(
        sample().to_file("/tmp/config.json", Ok(()), true).unwrap(),
        SAMPLE_PRETTY.as_bytes()
    );
    assert_eq!(
        sample().to_file("/tmp/config.json", Ok(()), false).unwrap(),
        sample().to_bytes(false).unwrap()
    );
}

#[test]
fn to_file_fails_on_a_file_that_was_not_created() {
    let created = Err(std::io::Error::new(std::io::ErrorKind::PermissionDenied, "denied"));
    match sample().to_file("/etc/filehost/config.json", created, true) {
        Err(ConfigError::FileCreateError { path, err }) => {
            assert_eq!(path, "/etc/filehost/config.json");
            assert_eq!(err.kind(), std::io::ErrorKind::PermissionDenied);
        }
        other => panic!("{:?}", other),
    }
}

#[test]
fn from_bytes_reads_a_configuration() {
    assert_eq!(Config::from_bytes(SAMPLE_COMPACT.as_bytes()).unwrap(), sample());
    assert_eq!(Config::from_bytes(SAMPLE_PRETTY.as_bytes()).unwrap(), sample());
}

#[test]
fn from_string_reads_a_configuration() {
    assert_eq!(Config::from_string(SAMPLE_COMPACT).unwrap(), sample());
    assert_eq!(Config::from_string(SAMPLE_PRETTY).unwrap(), sample());
}

#[test]
fn from_reader_reads_a_configuration() {
    assert_eq!(Config::from_reader(SAMPLE_PRETTY.as_bytes()).unwrap(), sample());
}

#[test]
fn from_file_reads_the_content_of_a_file() {
    let content = Ok(SAMPLE_COMPACT.as_bytes().to_vec());
    assert_eq!(Config::from_file("/etc/fh/config.json", content).unwrap(), sample());
}

#[test]
fn from_json_reads_a_document() {
    let doc = Json::parse(SAMPLE_COMPACT.as_bytes()).unwrap();
    assert_eq!(Config::from_json(&doc).unwrap(), sample());
}

#[test]
fn reading_passes_over_members_it_does_not_know_and_their_order() {
    let text = "{\"user_directory_path\":\"/u\",\"extra\":[1,2],\"server_key_path\":\"/k\",\"server_cert_path\":\"/c\",\"listen_address\":\"a:1\",\"control_socket_path\":\"/s\",\"log_level\":\"trace\"}";
    let expected = Config {
        log_level: LogLevel::Trace,
        control_socket_path: "/s".to_string(),
        listen_address: "a:1".to_string(),
        server_cert_path: "/c".to_string(),
        server_key_path: "/k".to_string(),
        user_directory_path: "/u".to_string(),
    };
    assert_eq!(Config::from_string(text).unwrap(), expected);
}

#[test]
fn configuration_round_trips_through_its_text() {
    let levels = [
        LogLevel::Off,
        LogLevel::Error,
        LogLevel::Warn,
        LogLevel::Info,
        LogLevel::Debug,
        LogLevel::Trace,
    ];
    let texts = ["", "/", "/a/b", "relative/path", "with \"quotes\" and \\ and \n", "\u{fc}\u{4e2d}\u{1f600}", "127.0.0.1:1"];
    for (i, level) in levels.iter().enumerate() {
        let config = Config {
            log_level: *level,
            control_socket_path: texts[i % texts.len()].to_string(),
            listen_address: texts[(i + 1) % texts.len()].to_string(),
            server_cert_path: texts[(i + 2) % texts.len()].to_string(),
            server_key_path: texts[(i + 3) % texts.len()].to_string(),
            user_directory_path: texts[(i + 4) % texts.len()].to_string(),
        };
        for pretty in [false, true] {
            let bytes = config.to_bytes(pretty).unwrap();
            assert_eq!(Config::from_bytes(&bytes).unwrap(), config);
            let string = config.to_string(pretty).unwrap();
            assert_eq!(Config::from_string(&string).unwrap(), config);
            assert_eq!(string.as_bytes(), &bytes[..]);
        }
    }
}

#[test]
fn default_round_trips_and_is_resolved() {
    let mut config = Config::default();
    assert_eq!(config.log_level, LogLevel::Debug);
    assert_eq!(config.control_socket_path, "/run/filehost/ctl.sock");
    assert_eq!(config.listen_address, "127.0.0.1:8719");
    assert_eq!(config.server_cert_path, "/etc/filehost/server.crt");
    assert_eq!(config.server_key_path, "/etc/filehost/server.key");
    assert_eq!(config.user_directory_path, "/etc/filehost/users.json");
    assert!(config.resolve().is_ok());
    let text = config.to_string(false).unwrap();
    assert_eq!(Config::from_string(&text).unwrap(), config);
}

#[test]
fn clone_is_equal() {
    assert_eq!(sample().clone(), sample());
}

#[test]
fn reading_fails_on_text_that_is_no_json() {
    for text in ["", "{", "not json", "{\"log_level\":}"] {
        let err = Config::from_bytes(text.as_bytes()).unwrap_err();
        assert!(matches!(problem(err), DocumentError::Syntax { .. }));
    }
}

#[test]
fn reading_fails_on_a_document_that_is_no_record() {
    for text in ["null", "3", "\"text\"", "[]", "[\"INFO\",\"/a\",\"b\",\"/c\",\"/d\",\"/e\"]"] {
        let err = Config::from_bytes(text.as_bytes()).unwrap_err();
        assert!(matches!(problem(err), DocumentError::NotARecord));
    }
}

#[test]
fn reading_fails_on_each_missing_field() {
    for field in [
        "log_level",
        "control_socket_path",
        "listen_address",
        "server_cert_path",
        "server_key_path",
        "user_directory_path",
    ] {
        let err = Config::from_string(&without_field(field)).unwrap_err();
        assert!(matches!(
            problem(err),
            DocumentError::MissingField { field: missing } if missing == field
        ));
    }
    let err = Config::from_string("{}").unwrap_err();
    assert!(matches!(
        problem(err),
        DocumentError::MissingField { field } if field == "log_level"
    ));
}

#[test]
fn reading_fails_on_a_field_that_is_no_string() {
    let text = SAMPLE_COMPACT.replace("\"0.0.0.0:7391\"", "7391");
    let err = Config::from_string(&text).unwrap_err();
    assert!(matches!(
        problem(err),
        DocumentError::InvalidType { field } if field == "listen_address"
    ));
    let text = SAMPLE_COMPACT.replace("\"INFO\"", "3");
    let err = Config::from_string(&text).unwrap_err();
    assert!(matches!(
        problem(err),
        DocumentError::InvalidType { field } if field == "log_level"
    ));
    let text = SAMPLE_COMPACT.replace("\"/etc/fh/users.json\"", "null");
    let err = Config::from_string(&text).unwrap_err();
    assert!(matches!(
        problem(err),
        DocumentError::InvalidType { field } if field == "user_directory_path"
    ));
}

#[test]
fn reading_fails_on_an_unknown_level() {
    let err = Config::from_string(&with_field("log_level", "LOUD")).unwrap_err();
    assert!(matches!(
        problem(err),
        DocumentError::UnknownLevel { name } if name == "LOUD"
    ));
}

#[test]
fn the_first_field_that_fails_decides() {
    let text = "{\"log_level\":\"LOUD\",\"listen_address\":3}";
    let err = Config::from_string(text).unwrap_err();
    assert!(matches!(problem(err), DocumentError::UnknownLevel { .. }));
    let text = "{\"log_level\":\"INFO\",\"listen_address\":3}";
    let err = Config::from_string(text).unwrap_err();
    assert!(matches!(
        problem(err),
        DocumentError::MissingField { field } if field == "control_socket_path"
    ));
}

#[test]
fn failures_to_read_are_wrapped_step_by_step() {
    let err = Config::from_reader(b"{").unwrap_err();
    assert!(matches!(err, ConfigError::ReaderParseError { .. }));
    let err = Config::from_bytes(b"{").unwrap_err();
    match err {
        ConfigError::BytesParseError { err } => {
            assert!(matches!(*err, ConfigError::ReaderParseError { .. }))
        }
        other => panic!("{:?}", other),
    }
    let err = Config::from_string("{").unwrap_err();
    match err {
        ConfigError::StringParseError { err } => match *err {
            ConfigError::BytesParseError { err } => {
                assert!(matches!(*err, ConfigError::ReaderParseError { .. }))
            }
            other => panic!("{:?}", other),
        },
        other => panic!("{:?}", other),
    }
    let err = Config::from_file("/c.json", Ok(b"{".to_vec())).unwrap_err();
    match err {
        ConfigError::FileParseError { path, err } => {
            assert_eq!(path, "/c.json");
            assert!(matches!(*err, ConfigError::ReaderParseError { .. }))
        }
        other => panic!("{:?}", other),
    }
}

#[test]
fn from_file_fails_on_a_file_that_was_not_opened() {
    let content = Err(std::io::Error::new(std::io::ErrorKind::NotFound, "gone"));
    let err = Config::from_file("/missing.json", content).unwrap_err();
    match err {
        ConfigError::FileOpenError { path, err } => {
            assert_eq!(path, "/missing.json");
            assert_eq!(err.kind(), std::io::ErrorKind::NotFound);
        }
        other => panic!("{:?}", other),
    }
}

#[test]
fn resolve_accepts_absolute_paths_and_changes_nothing() {
    let mut config = sample();
    assert!(config.resolve().is_ok());
    assert_eq!(config, sample());
}

#[test]
fn resolve_names_the_first_relative_path() {
    let cases = [
        ("control_socket_path", "ctl.sock"),
        ("server_cert_path", "./cert.pem"),
        ("server_key_path", "../key.pem"),
        ("user_directory_path", ""),
    ];
    for (field, value) in cases {
        let mut config = Config::from_string(&with_field(field, value)).unwrap();
        let before = config.clone();
        match config.resolve() {
            Err(ConfigError::RelativePathFound { field: found, delinquint }) => {
                assert_eq!(found, field);
                assert_eq!(delinquint, value);
            }
            other => panic!("{:?}", other),
        }
        assert_eq!(config, before);
    }
    let mut config = sample();
    config.server_key_path = "key.pem".to_string();
    config.server_cert_path = "cert.pem".to_string();
    assert!(matches!(
        config.resolve(),
        Err(ConfigError::RelativePathFound { field, .. }) if field == "server_cert_path"
    ));
}

#[test]
fn resolve_does_not_look_at_the_listen_address() {
    let mut config = sample();
    config.listen_address = "localhost:1".to_string();
    assert!(config.resolve().is_ok());
}
