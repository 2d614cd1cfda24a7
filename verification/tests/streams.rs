use eventstore::commands::append::{append_to_stream, append_to_stream_result, check_append_resp};
use eventstore::commands::batch::{
    batch_append, batch_append_request, batch_append_request_at, batch_deadline,
    convert_batch_append_resp, next_batch_step, read_batch_append_resp, BatchInput, BatchReq,
    BatchStep,
};
use eventstore::commands::delete::{
    delete_stream, delete_stream_result, tombstone_stream, tombstone_stream_result,
};
use eventstore::commands::event::{stream_identifier, to_proto_uuid};
use eventstore::commands::read::{read_all, read_stream, ReadNext, ReadStep, ReadStream};
use eventstore::commands::start::{filter_into_proto, ps_create_filter_into_proto};
use eventstore::ids::Uuid;
use eventstore::options::{
    AppendToStreamOptions, BatchAppendOptions, CommonOperationOptions, DeleteStreamOptions,
    ReadAllOptions, ReadStreamOptions, TombstoneStreamOptions,
};
use eventstore::settings::ClientSettings;
use eventstore::string_map::StringMap;
use eventstore::time::Duration;
use eventstore::types::{
    CurrentRevision, Error, EventData, ExpectedRevision, Features, Position, ReadDirection,
    ReadEvent, StreamPosition, SubscriptionFilter, WriteResult,
};
use eventstore::wire::shared;
use eventstore::wire::streams;

fn common() -> CommonOperationOptions {
    CommonOperationOptions::default()
}

fn settings() -> ClientSettings {
    ClientSettings { default_user_credentials: None, connection_name: None, default_deadline: None }
}

fn event(byte: u8) -> EventData {
    EventData {
        id_opt: Some(Uuid { bytes: [byte; 16] }),
        payload: vec![byte],
        metadata: StringMap::new(),
        custom_metadata: None,
    }
}

fn id_text(id: &Option<shared::Uuid>) -> String {
    match id {
        Some(shared::Uuid { value: Some(shared::UuidValue::String(text)) }) => text.clone(),
        other => panic!("{:?}", other),
    }
}

fn recorded(stream: &str) -> shared::RecordedEvent {
    shared::RecordedEvent {
        id: Some(to_proto_uuid(Uuid::nil())),
        stream_identifier: Some(stream_identifier(stream)),
        stream_revision: 1,
        prepare_position: 2,
        commit_position: 3,
        metadata: StringMap::new(),
        custom_metadata: vec![],
        data: vec![],
    }
}

#[test]
fn appends_send_a_header_and_then_each_event() {
    let options = AppendToStreamOptions {
        version: streams::ExpectedStreamRevision::Revision(4),
        common_operation_options: common(),
    };
    let events = vec![event(1), event(2), event(3)];
    let request = append_to_stream(&settings(), "orders", &options, events.into_iter());
    assert_eq!(request.metadata.get("grpc-timeout").unwrap(), "10000000u");
    let mut payload = request.message;
    match payload.next().unwrap().content {
        Some(streams::AppendContent::Options(header)) => {
            assert_eq!(header.stream_identifier.unwrap().stream_name, b"orders");
            assert_eq!(
                header.expected_stream_revision,
                Some(streams::ExpectedStreamRevision::Revision(4))
            );
        }
        other => panic!("{:?}", other),
    }
    for byte in 1..=3u8 {
        match payload.next().unwrap().content {
            Some(streams::AppendContent::ProposedMessage(message)) => {
                assert_eq!(message.data, [byte]);
                assert_eq!(id_text(&message.id), id_text(&Some(to_proto_uuid(Uuid { bytes: [byte; 16] }))));
            }
            other => panic!("{:?}", other),
        }
    }
    assert!(payload.next().is_none());
    assert!(payload.next().is_none());
}

fn success(
    current: Option<streams::CurrentRevisionOption>,
    position: Option<shared::PositionOption>,
) -> streams::AppendResp {
    streams::AppendResp {
        result: Some(streams::AppendResult::Success(streams::AppendSuccess {
            current_revision_option: current,
            position_option: position,
        })),
    }
}

fn wrong_version(
    current: Option<streams::CurrentRevisionOption>,
    expected: Option<streams::ExpectedRevisionOption>,
) -> streams::AppendResp {
    streams::AppendResp {
        result: Some(streams::AppendResult::WrongExpectedVersion(streams::WrongExpectedVersion {
            current_revision_option: current,
            expected_revision_option: expected,
        })),
    }
}

const LOG_POSITION: shared::PositionOption =
    shared::PositionOption::Position(shared::Position { commit_position: 5, prepare_position: 6 });

#[test]
fn successful_appends_tell_the_next_version() {
    let resp = success(Some(streams::CurrentRevisionOption::CurrentRevision(9)), Some(LOG_POSITION));
    assert!(check_append_resp(&resp));
    assert_eq!(
        append_to_stream_result(resp).unwrap(),
        WriteResult { next_expected_version: 9, position: Position { commit: 5, prepare: 6 } }
    );
    let resp = success(
        Some(streams::CurrentRevisionOption::NoStream),
        Some(shared::PositionOption::NoPosition),
    );
    assert_eq!(
        append_to_stream_result(resp).unwrap(),
        WriteResult { next_expected_version: 0, position: Position::start() }
    );
}

#[test]
fn failed_appends_tell_both_versions() {
    let cases = [
        (streams::ExpectedRevisionOption::ExpectedRevision(3), ExpectedRevision::Exact(3)),
        (streams::ExpectedRevisionOption::ExpectedAny, ExpectedRevision::Any),
        (streams::ExpectedRevisionOption::ExpectedStreamExists, ExpectedRevision::StreamExists),
        (streams::ExpectedRevisionOption::ExpectedNoStream, ExpectedRevision::NoStream),
    ];
    for (sent, wanted) in cases {
        let resp = wrong_version(Some(streams::CurrentRevisionOption::CurrentRevision(8)), Some(sent));
        match append_to_stream_result(resp) {
            Err(Error::WrongExpectedVersion { current, expected }) => {
                assert_eq!(current, CurrentRevision::Current(8));
                assert_eq!(expected, wanted);
            }
            other => panic!("{:?}", other),
        }
        let resp = wrong_version(Some(streams::CurrentRevisionOption::NoStream), Some(sent));
        assert!(matches!(
            append_to_stream_result(resp),
            Err(Error::WrongExpectedVersion { current: CurrentRevision::NoStream, .. })
        ));
    }
}

#[test]
fn incomplete_answers_to_appends_are_told() {
    let revision = Some(streams::CurrentRevisionOption::CurrentRevision(1));
    assert!(!check_append_resp(&streams::AppendResp { result: None }));
    assert!(!check_append_resp(&success(None, Some(LOG_POSITION))));
    assert!(!check_append_resp(&success(revision, None)));
    assert!(!check_append_resp(&wrong_version(revision, None)));
    assert!(!check_append_resp(&wrong_version(
        None,
        Some(streams::ExpectedRevisionOption::ExpectedAny)
    )));
}

fn features(batch_append: bool) -> Features {
    Features {
        batch_append,
        persistent_subscription_to_all: true,
        persistent_subscription_management: true,
    }
}

fn batch_options() -> BatchAppendOptions {
    BatchAppendOptions { common_operation_options: common() }
}

#[test]
fn batches_need_a_server_that_knows_them() {
    assert!(matches!(
        batch_append(&settings(), &batch_options(), features(false)),
        Err(Error::UnsupportedFeature)
    ));
    let request = batch_append(&settings(), &batch_options(), features(true)).ok().unwrap();
    assert!(request.metadata.get("grpc-timeout").is_none());
    assert_eq!(request.metadata.get("requires-leader").unwrap(), "true");
}

fn batch(expected_revision: ExpectedRevision) -> BatchReq {
    BatchReq {
        id: Uuid { bytes: [7; 16] },
        stream_name: "orders".to_owned(),
        events: vec![event(1), event(2)],
        expected_revision,
    }
}

fn span(secs: u64, nanos: u32) -> Duration {
    Duration { secs, nanos }
}

#[test]
fn batches_hold_all_of_the_request() {
    let sent =
        batch_append_request_at(batch(ExpectedRevision::Exact(3)), &common(), Ok(span(1_000, 5)))
            .unwrap();
    assert_eq!(id_text(&sent.correlation_id), "07070707-0707-0707-0707-070707070707");
    let options = sent.options.unwrap();
    assert_eq!(options.stream_identifier.unwrap().stream_name, b"orders");
    assert_eq!(options.deadline, Some(shared::Timestamp { seconds: 1_010, nanos: 5 }));
    assert_eq!(
        options.expected_stream_position,
        Some(streams::ExpectedStreamPosition::StreamPosition(3))
    );
    let payloads: Vec<Vec<u8>> =
        sent.proposed_messages.into_iter().map(|message| message.data).collect();
    assert_eq!(payloads, [[1], [2]]);
    assert!(sent.is_final);
}

#[test]
fn deadlines_are_counted_from_the_epoch() {
    let cases = [
        (Ok(span(1, 999_999_999)), span(0, 1), Some((2, 0))),
        (Err(span(3, 500_000_000)), span(10, 0), Some((6, 500_000_000))),
        (Err(span(10, 0)), span(10, 0), Some((0, 0))),
        (Err(span(10, 1)), span(10, 0), None),
        (Ok(span(i64::MAX as u64, 0)), span(0, 999_999_999), Some((i64::MAX, 999_999_999))),
        (Ok(span(i64::MAX as u64, 0)), span(1, 0), None),
        (Ok(span(u64::MAX, 0)), span(u64::MAX, 0), None),
    ];
    for (now, timeout, wanted) in cases {
        let wanted = wanted.map(|(seconds, nanos)| shared::Timestamp { seconds, nanos });
        assert_eq!(batch_deadline(now, timeout), wanted);
    }
    let far = BatchAppendOptions { common_operation_options: common() }.deadline(span(u64::MAX, 0));
    let far = far.common_operation_options;
    assert!(batch_append_request_at(batch(ExpectedRevision::Any), &far, Ok(span(0, 0))).is_none());
}

#[test]
fn batches_end_at_a_time_to_come() {
    let before = std::time::SystemTime::now().duration_since(std::time::UNIX_EPOCH).unwrap();
    let sent = batch_append_request(batch(ExpectedRevision::Any), &common()).unwrap();
    let after = std::time::SystemTime::now().duration_since(std::time::UNIX_EPOCH).unwrap();
    let deadline = sent.options.unwrap().deadline.unwrap();
    let deadline = std::time::Duration::new(deadline.seconds as u64, deadline.nanos as u32);
    let ten = std::time::Duration::from_secs(10);
    assert!(before + ten <= deadline && deadline <= after + ten);
}

fn batch_resp(
    sent: streams::BatchAppendReq,
    result: streams::BatchAppendResult,
) -> streams::BatchAppendResp {
    let options = sent.options.unwrap();
    streams::BatchAppendResp {
        correlation_id: sent.correlation_id,
        stream_identifier: options.stream_identifier,
        expected_stream_position: options.expected_stream_position,
        result: Some(result),
    }
}

#[test]
fn outcomes_are_of_their_batch() {
    for expected in [
        ExpectedRevision::Any,
        ExpectedRevision::NoStream,
        ExpectedRevision::StreamExists,
        ExpectedRevision::Exact(12),
    ] {
        let sent = batch_append_request_at(batch(expected), &common(), Ok(span(0, 0))).unwrap();
        let success = streams::BatchAppendSuccess {
            current_revision_option: Some(streams::CurrentRevisionOption::CurrentRevision(13)),
            position_option: Some(LOG_POSITION),
        };
        let resp = batch_resp(sent, streams::BatchAppendResult::Success(success));
        let out = convert_batch_append_resp(resp);
        assert_eq!(out.correlation_id, Uuid { bytes: [7; 16] });
        let written = out.result.unwrap();
        assert_eq!(written.stream_name, "orders");
        assert_eq!(written.current_revision, Some(13));
        assert_eq!(written.position, Some(Position { commit: 5, prepare: 6 }));
        assert_eq!(written.expected_version, Some(expected));
    }
}

#[test]
fn failed_batches_have_a_status_code() {
    for (code, wanted) in [(0, 0), (6, 6), (9, 9), (16, 16), (17, 2), (-1, 2), (i32::MAX, 2)] {
        let sent =
            batch_append_request_at(batch(ExpectedRevision::Any), &common(), Ok(span(0, 0))).unwrap();
        let status = streams::Status { code, message: "why".to_owned() };
        let resp = batch_resp(sent, streams::BatchAppendResult::Error(status));
        match read_batch_append_resp(resp).unwrap().result {
            Err(Error::Grpc { code, message }) => {
                assert_eq!(code, wanted);
                assert_eq!(message, "why");
            }
            other => panic!("{:?}", other),
        }
    }
}

#[test]
fn answers_to_batches_can_leave_things_out() {
    let success =
        streams::BatchAppendSuccess { current_revision_option: None, position_option: None };
    let resp = streams::BatchAppendResp {
        correlation_id: Some(to_proto_uuid(Uuid::nil())),
        stream_identifier: Some(stream_identifier("")),
        expected_stream_position: None,
        result: Some(streams::BatchAppendResult::Success(success)),
    };
    let written = read_batch_append_resp(resp).unwrap().result.unwrap();
    assert_eq!(written.current_revision, None);
    assert_eq!(written.position, None);
    assert_eq!(written.expected_version, None);
    assert_eq!(written.stream_name, "");
}

#[test]
fn incomplete_answers_to_batches_are_told() {
    let id = || Some(to_proto_uuid(Uuid::nil()));
    let status = || {
        Some(streams::BatchAppendResult::Error(streams::Status { code: 1, message: String::new() }))
    };
    let resp = |correlation_id, stream_identifier, result| streams::BatchAppendResp {
        correlation_id,
        stream_identifier,
        expected_stream_position: None,
        result,
    };
    let stream = || Some(stream_identifier("x"));
    let garbled = Some(shared::StreamIdentifier { stream_name: vec![0xc3] });
    assert!(read_batch_append_resp(resp(id(), stream(), status())).is_some());
    assert!(read_batch_append_resp(resp(None, stream(), status())).is_none());
    assert!(read_batch_append_resp(resp(id(), None, status())).is_none());
    assert!(read_batch_append_resp(resp(id(), garbled, status())).is_none());
    assert!(read_batch_append_resp(resp(id(), stream(), None)).is_none());
    assert!(read_batch_append_resp(resp(Some(shared::Uuid { value: None }), stream(), status())).is_none());
}

fn answer(byte: u8, result: streams::BatchAppendResult) -> BatchInput {
    BatchInput::Received(Some(streams::BatchAppendResp {
        correlation_id: Some(to_proto_uuid(Uuid { bytes: [byte; 16] })),
        stream_identifier: Some(stream_identifier("orders")),
        expected_stream_position: None,
        result: Some(result),
    }))
}

fn failed_call() -> Error {
    Error::Grpc { code: 14, message: "gone".to_owned() }
}

#[test]
fn outcomes_come_in_order_and_then_the_error() {
    let written = streams::BatchAppendSuccess {
        current_revision_option: Some(streams::CurrentRevisionOption::NoStream),
        position_option: Some(shared::PositionOption::NoPosition),
    };
    let refused = streams::Status { code: 9, message: "no".to_owned() };
    let inputs = vec![
        answer(1, streams::BatchAppendResult::Success(written)),
        answer(2, streams::BatchAppendResult::Error(refused)),
        answer(3, streams::BatchAppendResult::Success(written)),
        BatchInput::Failed(failed_call()),
    ];
    let mut told = vec![];
    let mut ended = false;
    for input in inputs {
        assert!(!ended);
        match next_batch_step(input) {
            BatchStep::Forward(out) => told.push((out.correlation_id, out.result.is_ok())),
            BatchStep::ReportTellAndStop(error) => {
                assert!(matches!(error, Error::Grpc { code: 14, .. }));
                ended = true;
            }
            _ => panic!("not told"),
        }
    }
    assert!(ended);
    let id = |byte: u8| Uuid { bytes: [byte; 16] };
    assert_eq!(told, [(id(1), true), (id(2), false), (id(3), true)]);
}

#[test]
fn calls_for_batches_end() {
    assert!(matches!(
        next_batch_step(BatchInput::Refused(failed_call())),
        BatchStep::TellAndStop(Error::Grpc { code: 14, .. })
    ));
    assert!(matches!(next_batch_step(BatchInput::Received(None)), BatchStep::Stop));
    assert!(matches!(next_batch_step(BatchInput::ClientGone), BatchStep::Stop));
    let incomplete = streams::BatchAppendResp {
        correlation_id: None,
        stream_identifier: None,
        expected_stream_position: None,
        result: None,
    };
    assert!(matches!(
        next_batch_step(BatchInput::Received(Some(incomplete))),
        BatchStep::Malformed
    ));
}

#[test]
fn streams_are_read_from_a_revision() {
    let cases = [
        (StreamPosition::Start, shared::RevisionOption::Start, ReadDirection::Forward, 0),
        (StreamPosition::End, shared::RevisionOption::End, ReadDirection::Backward, 1),
        (StreamPosition::Position(5), shared::RevisionOption::Revision(5), ReadDirection::Forward, 0),
    ];
    for (position, start, direction, code) in cases {
        let options = ReadStreamOptions {
            direction,
            position,
            resolve_link_tos: true,
            common_operation_options: common(),
        };
        let sent = read_stream(&settings(), &options, "orders", 20).message.options.unwrap();
        match sent.stream_option {
            Some(streams::StreamOption::Stream(stream)) => {
                assert_eq!(stream.stream_identifier.unwrap().stream_name, b"orders");
                assert_eq!(stream.revision_option, Some(start));
            }
            other => panic!("{:?}", other),
        }
        assert!(sent.resolve_links);
        assert!(matches!(sent.filter_option, Some(shared::FilterOption::NoFilter)));
        assert_eq!(sent.count_option, Some(streams::CountOption::Count(20)));
        assert_eq!(sent.uuid_option, Some(streams::UuidOption::String));
        assert_eq!(sent.control_option, None);
        assert_eq!(sent.read_direction, code);
    }
}

#[test]
fn all_is_read_from_a_log_position() {
    let wire = shared::Position { commit_position: 1, prepare_position: 2 };
    let cases = [
        (StreamPosition::Start, shared::AllOption::Start),
        (StreamPosition::End, shared::AllOption::End),
        (
            StreamPosition::Position(Position { commit: 1, prepare: 2 }),
            shared::AllOption::Position(wire),
        ),
    ];
    for (position, start) in cases {
        let options = ReadAllOptions {
            direction: ReadDirection::Backward,
            position,
            resolve_link_tos: false,
            common_operation_options: common(),
        };
        let sent = read_all(&settings(), &options, u64::MAX).message.options.unwrap();
        match sent.stream_option {
            Some(streams::StreamOption::All(all)) => assert_eq!(all.all_option, Some(start)),
            other => panic!("{:?}", other),
        }
        assert_eq!(sent.read_direction, 1);
        assert_eq!(sent.count_option, Some(streams::CountOption::Count(u64::MAX)));
    }
}

fn read_step(content: Option<streams::ReadContent>) -> ReadStep {
    let reader = ReadStream { channel_id: Uuid { bytes: [3; 16] } };
    reader.next_read_event(Ok(Some(streams::ReadResp { content })))
}

fn read_message(link: Option<shared::RecordedEvent>) -> streams::ReadEvent {
    streams::ReadEvent { event: Some(recorded("orders")), link, position: None }
}

#[test]
fn reads_give_events_and_positions() {
    match read_step(Some(streams::ReadContent::Event(read_message(None)))) {
        ReadStep::Return(Ok(Some(ReadEvent::Event(read)))) => {
            assert_eq!(read.event.unwrap().stream_id, "orders")
        }
        other => panic!("{:?}", other),
    }
    assert!(matches!(
        read_step(Some(streams::ReadContent::FirstStreamPosition(4))),
        ReadStep::Return(Ok(Some(ReadEvent::FirstStreamPosition(4))))
    ));
    assert!(matches!(
        read_step(Some(streams::ReadContent::LastStreamPosition(5))),
        ReadStep::Return(Ok(Some(ReadEvent::LastStreamPosition(5))))
    ));
    let position = shared::Position { commit_position: 8, prepare_position: 7 };
    assert!(matches!(
        read_step(Some(streams::ReadContent::LastAllStreamPosition(position))),
        ReadStep::Return(Ok(Some(ReadEvent::LastAllStreamPosition(Position {
            commit: 8,
            prepare: 7
        }))))
    ));
}

#[test]
fn reads_pass_over_other_messages() {
    let confirmation = streams::ReadContent::Confirmation { subscription_id: "x".to_owned() };
    assert!(matches!(read_step(Some(confirmation)), ReadStep::Again));
    let position = shared::Position { commit_position: 8, prepare_position: 7 };
    assert!(matches!(
        read_step(Some(streams::ReadContent::Checkpoint(position))),
        ReadStep::Again
    ));
}

#[test]
fn reads_end_or_fail() {
    let reader = ReadStream { channel_id: Uuid { bytes: [3; 16] } };
    assert!(matches!(
        read_step(Some(streams::ReadContent::StreamNotFound)),
        ReadStep::Return(Err(Error::ResourceNotFound))
    ));
    assert!(matches!(reader.next_read_event(Ok(None)), ReadStep::Return(Ok(None))));
    match reader.next_read_event(Err(Error::AccessDenied)) {
        ReadStep::Report { channel_id, error } => {
            assert_eq!(channel_id, Uuid { bytes: [3; 16] });
            assert!(error.is_access_denied());
        }
        other => panic!("{:?}", other),
    }
}

#[test]
fn reads_tell_malformed_messages() {
    assert!(matches!(read_step(None), ReadStep::Malformed));
    let mut broken = recorded("x");
    broken.id = Some(shared::Uuid { value: Some(shared::UuidValue::String("x".to_owned())) });
    assert!(matches!(
        read_step(Some(streams::ReadContent::Event(read_message(Some(broken))))),
        ReadStep::Malformed
    ));
}

#[test]
fn readers_of_events_pass_over_positions() {
    let reader = ReadStream { channel_id: Uuid::nil() };
    assert!(matches!(reader.next(None), ReadNext::Return(None)));
    assert!(matches!(reader.next(Some(ReadEvent::LastStreamPosition(1))), ReadNext::Again));
    assert!(matches!(reader.next(Some(ReadEvent::FirstStreamPosition(1))), ReadNext::Again));
    let position = ReadEvent::LastAllStreamPosition(Position::start());
    assert!(matches!(reader.next(Some(position)), ReadNext::Again));
    match read_step(Some(streams::ReadContent::Event(read_message(None)))) {
        ReadStep::Return(Ok(read)) => match reader.next(read) {
            ReadNext::Return(Some(event)) => assert_eq!(event.get_original_event().revision, 1),
            other => panic!("{:?}", other),
        },
        other => panic!("{:?}", other),
    }
}

#[test]
fn deletions_say_what_they_expect() {
    let cases = [
        (ExpectedRevision::Any, streams::ExpectedStreamRevision::Any),
        (ExpectedRevision::NoStream, streams::ExpectedStreamRevision::NoStream),
        (ExpectedRevision::StreamExists, streams::ExpectedStreamRevision::StreamExists),
        (ExpectedRevision::Exact(6), streams::ExpectedStreamRevision::Revision(6)),
    ];
    for (version, wanted) in cases {
        let options = DeleteStreamOptions { version, common_operation_options: common() };
        let sent = delete_stream(&settings(), "orders", &options).message.options.unwrap();
        assert_eq!(sent.stream_identifier.unwrap().stream_name, b"orders");
        assert_eq!(sent.expected_stream_revision, Some(wanted));
        let options = TombstoneStreamOptions { version, common_operation_options: common() };
        let sent = tombstone_stream(&settings(), "orders", &options).message.options.unwrap();
        assert_eq!(sent.stream_identifier.unwrap().stream_name, b"orders");
        assert_eq!(sent.expected_stream_revision, Some(wanted));
    }
}

#[test]
fn deletions_tell_where_they_are() {
    let cases = [
        (Some(LOG_POSITION), Some(Position { commit: 5, prepare: 6 })),
        (Some(shared::PositionOption::NoPosition), None),
        (None, None),
    ];
    for (position_option, wanted) in cases {
        assert_eq!(delete_stream_result(streams::DeleteResp { position_option }), wanted);
        assert_eq!(tombstone_stream_result(streams::TombstoneResp { position_option }), wanted);
    }
}

#[test]
fn filters_look_at_streams_or_types() {
    for based_on_stream in [false, true] {
        for max in [None, Some(32)] {
            for regex in [None, Some("^a".to_owned())] {
                let filter = SubscriptionFilter {
                    based_on_stream,
                    max,
                    regex: regex.clone(),
                    prefixes: vec!["x".to_owned(), "y".to_owned()],
                };
                for sent in [ps_create_filter_into_proto(&filter), filter_into_proto(filter.clone())] {
                    let expression = match sent.filter {
                        Some(shared::Filter::StreamIdentifier(expression)) => {
                            assert!(based_on_stream);
                            expression
                        }
                        Some(shared::Filter::EventType(expression)) => {
                            assert!(!based_on_stream);
                            expression
                        }
                        None => panic!("no filter"),
                    };
                    assert_eq!(expression.regex, regex.clone().unwrap_or_default());
                    assert_eq!(expression.prefix, ["x", "y"]);
                    let window = match max {
                        Some(max) => shared::FilterWindow::Max(max),
                        None => shared::FilterWindow::Count,
                    };
                    assert_eq!(sent.window, Some(window));
                    assert_eq!(sent.checkpoint_interval_multiplier, 1);
                }
            }
        }
    }
}
