use eventstore::options::{
    BatchAppendOptions, CommonOperationOptions, DeleteStreamOptions, OperationKind, Options,
    ReadAllOptions, RestartPersistentSubscriptionSubsystem,
};
use eventstore::request::{
    build_request_metadata, check_command, check_settings, command_deadline, new_request,
};
use eventstore::settings::{ClientSettings, Credentials};
use eventstore::time::Duration;
use eventstore::types::{ExpectedRevision, Position, ReadDirection, StreamPosition};
use tonic::metadata::MetadataMap;

fn no_settings() -> ClientSettings {
    ClientSettings { default_user_credentials: None, connection_name: None, default_deadline: None }
}

fn credentials(login: &[u8], password: &[u8]) -> Credentials {
    Credentials { login: login.to_vec(), password: password.to_vec() }
}

fn regular() -> RestartPersistentSubscriptionSubsystem {
    RestartPersistentSubscriptionSubsystem { common_operation_options: CommonOperationOptions::default() }
}

fn streaming() -> BatchAppendOptions {
    BatchAppendOptions { common_operation_options: CommonOperationOptions::default() }
}

fn value(metadata: &MetadataMap, key: &'static str) -> Option<String> {
    metadata.get(key).map(|value| value.to_str().unwrap().to_owned())
}

fn seconds(secs: u64) -> Duration {
    Duration::from_secs(secs)
}

#[test]
fn commands_want_the_leader_unless_told_otherwise() {
    let metadata = build_request_metadata(&no_settings(), &CommonOperationOptions::default());
    assert_eq!(value(&metadata, "requires-leader").unwrap(), "true");
    assert_eq!(metadata.len(), 1);
    let follower = regular().requires_leader(false);
    let metadata = build_request_metadata(&no_settings(), follower.common_operation_options());
    assert!(metadata.is_empty());
}

#[test]
fn credentials_are_sent_as_basic_authorization() {
    let options = regular().authenticated(credentials(b"admin", b"changeit"));
    let metadata = build_request_metadata(&no_settings(), options.common_operation_options());
    assert_eq!(value(&metadata, "authorization").unwrap(), "Basic YWRtaW46Y2hhbmdlaXQ=");
}

#[test]
fn credentials_are_padded_to_four_characters() {
    let cases: [(&[u8], &[u8], &str); 5] = [
        (b"", b"", "Basic Og=="),
        (b"a", b"", "Basic YTo="),
        (b"a", b"b", "Basic YTpi"),
        (b"~~~", b"???", "Basic fn5+Oj8/Pw=="),
        ("\u{7ff}".as_bytes(), b"0", "Basic 3786MA=="),
    ];
    for (login, password, wanted) in cases {
        let options = regular().authenticated(credentials(login, password));
        let metadata = build_request_metadata(&no_settings(), options.common_operation_options());
        assert_eq!(value(&metadata, "authorization").unwrap(), wanted);
    }
}

#[test]
fn each_key_has_one_value() {
    let settings = ClientSettings {
        default_user_credentials: Some(credentials(b"a", b"b")),
        connection_name: Some("c".to_owned()),
        default_deadline: None,
    };
    let request = new_request(&settings, &regular(), ());
    for key in ["authorization", "connection-name", "grpc-timeout", "requires-leader"] {
        assert_eq!(request.metadata.get_all(key).iter().count(), 1);
    }
    assert_eq!(request.metadata.len(), 4);
}

#[test]
fn credentials_that_are_no_text_are_replaced() {
    let options = regular().authenticated(credentials(b"a\xff", b""));
    let metadata = build_request_metadata(&no_settings(), options.common_operation_options());
    // The replacement character takes three bytes.
    assert_eq!(value(&metadata, "authorization").unwrap(), "Basic Ye+/vTo=");
}

#[test]
fn options_come_before_settings() {
    let mut settings = no_settings();
    settings.default_user_credentials = Some(credentials(b"ops", b"changeit"));
    let metadata = build_request_metadata(&settings, regular().common_operation_options());
    assert_eq!(value(&metadata, "authorization").unwrap(), "Basic b3BzOmNoYW5nZWl0");
    let options = regular().authenticated(credentials(b"admin", b"changeit"));
    let metadata = build_request_metadata(&settings, options.common_operation_options());
    assert_eq!(value(&metadata, "authorization").unwrap(), "Basic YWRtaW46Y2hhbmdlaXQ=");
}

#[test]
fn connections_can_have_a_name() {
    let mut settings = no_settings();
    settings.connection_name = Some("back office".to_owned());
    assert!(check_settings(&settings));
    let metadata = build_request_metadata(&settings, &CommonOperationOptions::default());
    assert_eq!(value(&metadata, "connection-name").unwrap(), "back office");
    assert_eq!(metadata.len(), 2);
}

#[test]
fn names_that_cannot_be_sent_are_told() {
    for (name, expected) in
        [("", true), ("a\tb", true), ("é", true), ("a\nb", false), ("\u{7f}", false), ("\0", false)]
    {
        let mut settings = no_settings();
        settings.connection_name = Some(name.to_owned());
        assert_eq!(check_settings(&settings), expected, "{:?}", name);
        assert_eq!(check_command(&settings, &regular()), expected, "{:?}", name);
        if expected {
            let metadata = build_request_metadata(&settings, &CommonOperationOptions::default());
            assert_eq!(metadata.get("connection-name").unwrap().as_bytes(), name.as_bytes());
        }
    }
}

fn timeout(settings: &ClientSettings, options: &impl Options) -> Option<String> {
    assert!(check_command(settings, options));
    let request = new_request(settings, options, 7u8);
    assert_eq!(request.message, 7);
    value(&request.metadata, "grpc-timeout")
}

#[test]
fn regular_commands_end() {
    assert_eq!(regular().kind(), OperationKind::Regular);
    assert_eq!(timeout(&no_settings(), &regular()).unwrap(), "10000000u");
    let mut settings = no_settings();
    settings.default_deadline = Some(seconds(3));
    assert_eq!(timeout(&settings, &regular()).unwrap(), "3000000u");
    assert_eq!(timeout(&settings, &regular().deadline(seconds(2))).unwrap(), "2000000u");
}

#[test]
fn commands_that_go_on_end_only_if_asked() {
    assert_eq!(streaming().kind(), OperationKind::Streaming);
    assert_eq!(timeout(&no_settings(), &streaming()), None);
    let mut settings = no_settings();
    settings.default_deadline = Some(seconds(3));
    assert_eq!(timeout(&settings, &streaming()), None);
    assert_eq!(timeout(&settings, &streaming().deadline(seconds(2))).unwrap(), "2000000u");
}

#[test]
fn timeouts_use_the_finest_unit_that_fits() {
    let cases = [
        (Duration { secs: 0, nanos: 0 }, "0n"),
        (Duration { secs: 0, nanos: 99_999_999 }, "99999999n"),
        (Duration { secs: 0, nanos: 100_000_000 }, "100000u"),
        (seconds(99), "99000000u"),
        (Duration { secs: 99, nanos: 999_999_999 }, "99999999u"),
        (seconds(100), "100000m"),
        (seconds(99_999), "99999000m"),
        (seconds(100_000), "100000S"),
        (seconds(99_999_999), "99999999S"),
        (seconds(100_000_000), "1666666M"),
        (seconds(5_999_999_999), "99999999M"),
        (seconds(6_000_000_000), "1666666H"),
        (seconds(359_999_999_999), "99999999H"),
    ];
    for (deadline, text) in cases {
        assert_eq!(timeout(&no_settings(), &regular().deadline(deadline)).unwrap(), text);
    }
}

#[test]
fn deadlines_that_cannot_be_sent_are_told() {
    assert!(!check_command(&no_settings(), &regular().deadline(seconds(360_000_000_000))));
    let odd = Duration { secs: 0, nanos: 1_000_000_000 };
    assert!(!check_command(&no_settings(), &regular().deadline(odd)));
    let mut settings = no_settings();
    settings.default_deadline = Some(seconds(u64::MAX));
    assert!(!check_command(&settings, &regular()));
    assert!(check_command(&settings, &streaming()));
    assert_eq!(command_deadline(&settings, &streaming()), None);
    assert_eq!(command_deadline(&settings, &regular()), Some(seconds(u64::MAX)));
}

#[test]
fn metadata_has_no_other_keys() {
    let settings = ClientSettings {
        default_user_credentials: Some(credentials(b"a", b"b")),
        connection_name: Some("c".to_owned()),
        default_deadline: None,
    };
    let request = new_request(&settings, &regular(), ());
    let mut keys: Vec<String> = request
        .metadata
        .keys()
        .map(|key| match key {
            tonic::metadata::KeyRef::Ascii(key) => key.as_str().to_owned(),
            tonic::metadata::KeyRef::Binary(key) => key.as_str().to_owned(),
        })
        .collect();
    keys.sort();
    assert_eq!(keys, ["authorization", "connection-name", "grpc-timeout", "requires-leader"]);
}

#[test]
fn builders_change_one_thing() {
    let options = DeleteStreamOptions {
        version: ExpectedRevision::Exact(3),
        common_operation_options: CommonOperationOptions::default(),
    };
    let options = options.deadline(seconds(1)).requires_leader(false);
    assert_eq!(options.version, ExpectedRevision::Exact(3));
    assert_eq!(options.common_operation_options.deadline, Some(seconds(1)));
    assert!(!options.common_operation_options.requires_leader);
    assert!(options.common_operation_options.credentials.is_none());
    let options = ReadAllOptions {
        direction: ReadDirection::Backward,
        position: StreamPosition::Position(Position { commit: 1, prepare: 2 }),
        resolve_link_tos: true,
        common_operation_options: CommonOperationOptions::default(),
    }
    .authenticated(credentials(b"x", b"y"));
    assert_eq!(options.direction, ReadDirection::Backward);
    assert_eq!(options.common_operation_options.credentials.unwrap().login, b"x");
    assert!(options.common_operation_options.requires_leader);
}

#[test]
fn spans_are_counted_in_milliseconds() {
    assert_eq!(Duration::from_millis(1_234_567), Duration { secs: 1234, nanos: 567_000_000 });
    assert_eq!(Duration { secs: 2, nanos: 1_999_999 }.as_millis(), 2001);
    assert_eq!(Duration { secs: u64::MAX, nanos: 0 }.as_millis(), u64::MAX as u128 * 1000);
}
