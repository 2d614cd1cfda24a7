use eventstore::commands::event::{stream_identifier, to_proto_uuid};
use eventstore::commands::persistent::{
    check_supported, create_persistent_subscription, delete_persistent_subscription,
    subscribe_to_persistent_subscription, update_persistent_subscription, PersistentInput,
    PersistentStep, PersistentSubscription,
};
use eventstore::commands::ps_admin::{
    check_starts, get_persistent_subscription_info, get_persistent_subscription_info_result,
    list_all_persistent_subscriptions, list_persistent_subscriptions_for_stream,
    list_persistent_subscriptions_result, replay_parked_messages,
    restart_persistent_subscription_subsystem, Route,
};
use eventstore::commands::ps_info::{
    check_start, connection_from_wire, subscription_info_from_wire, AllStream, BothTypeOfStream,
    RegularStream, StreamKind, StreamPositionTypeSelector,
};
use eventstore::commands::ps_settings::{
    convert_settings_create, convert_settings_update, ps_to_deprecated_revision_value,
};
use eventstore::ids::Uuid;
use eventstore::options::{
    CommonOperationOptions, DeletePersistentSubscriptionOptions,
    GetPersistentSubscriptionInfoOptions, ListPersistentSubscriptionsOptions,
    PersistentSubscriptionOptions, PersistentSubscriptionToAllOptions, ReplayParkedMessagesOptions,
    RestartPersistentSubscriptionSubsystem, SubscribeToPersistentSubscriptionOptions,
};
use eventstore::settings::ClientSettings;
use eventstore::string_map::StringMap;
use eventstore::time::Duration;
use eventstore::types::{
    Error, Features, NakAction, PersistentSubscriptionEvent, PersistentSubscriptionSettings,
    Position, RecordedEvent, ResolvedEvent, RevisionOrPosition, StreamPosition,
    SubscriptionFilter, SystemConsumerStrategy,
};
use eventstore::wire::persistent;
use eventstore::wire::shared;
use eventstore::wire::streams::UuidOption;
use tonic::metadata::MetadataMap;

fn common() -> CommonOperationOptions {
    CommonOperationOptions::default()
}

fn client() -> ClientSettings {
    ClientSettings { default_user_credentials: None, connection_name: None, default_deadline: None }
}

fn features(to_all: bool, management: bool) -> Features {
    Features {
        batch_append: false,
        persistent_subscription_to_all: to_all,
        persistent_subscription_management: management,
    }
}

fn settings<A>(
    start_from: StreamPosition<A>,
    consumer_strategy_name: SystemConsumerStrategy,
) -> PersistentSubscriptionSettings<A> {
    PersistentSubscriptionSettings {
        resolve_link_tos: true,
        start_from,
        extra_statistics: true,
        message_timeout: Duration::from_millis(30_500),
        max_retry_count: 1,
        live_buffer_size: 2,
        read_batch_size: 3,
        history_buffer_size: 4,
        checkpoint_after: Duration { secs: 2, nanos: 1_999_999 },
        checkpoint_lower_bound: 5,
        checkpoint_upper_bound: 6,
        max_subscriber_count: 7,
        consumer_strategy_name,
    }
}

fn stream_options(strategy: SystemConsumerStrategy) -> PersistentSubscriptionOptions {
    PersistentSubscriptionOptions {
        setts: settings(StreamPosition::Position(11), strategy),
        common_operation_options: common(),
    }
}

fn all_options(filter: Option<SubscriptionFilter>) -> PersistentSubscriptionToAllOptions {
    let start = StreamPosition::Position(Position { commit: 2, prepare: 1 });
    PersistentSubscriptionToAllOptions {
        setts: settings(start, SystemConsumerStrategy::RoundRobin),
        filter,
        common_operation_options: common(),
    }
}

fn name(identifier: Option<shared::StreamIdentifier>) -> Vec<u8> {
    identifier.unwrap().stream_name
}

#[test]
fn starting_places_have_a_revision() {
    assert_eq!(ps_to_deprecated_revision_value::<u64>(StreamPosition::Start), 0);
    assert_eq!(ps_to_deprecated_revision_value::<u64>(StreamPosition::End), u64::MAX);
    assert_eq!(ps_to_deprecated_revision_value(StreamPosition::Position(17u64)), 17);
    let position = Position { commit: 3, prepare: 3 };
    assert_eq!(ps_to_deprecated_revision_value(StreamPosition::Position(position)), 0);
    assert_eq!(ps_to_deprecated_revision_value::<Position>(StreamPosition::Start), 0);
    assert_eq!(ps_to_deprecated_revision_value::<Position>(StreamPosition::End), 0);
}

#[test]
fn the_end_has_a_revision_in_a_regular_stream_alone() {
    let regular = settings(StreamPosition::<u64>::End, SystemConsumerStrategy::Pinned);
    assert_eq!(convert_settings_create(&regular).unwrap().revision, u64::MAX);
    assert_eq!(convert_settings_update(&regular).unwrap().revision, u64::MAX);
    let all = settings(StreamPosition::<Position>::End, SystemConsumerStrategy::Pinned);
    assert_eq!(convert_settings_create(&all).unwrap().revision, 0);
    assert_eq!(convert_settings_update(&all).unwrap().revision, 0);
}

#[test]
fn settings_are_written_in_full() {
    let given = settings(StreamPosition::Position(11u64), SystemConsumerStrategy::Pinned);
    let updated = convert_settings_update(&given).unwrap();
    assert_eq!(
        updated,
        persistent::UpdateSettings {
            resolve_links: true,
            revision: 11,
            extra_statistics: true,
            message_timeout_ms: Some(30_500),
            max_retry_count: 1,
            checkpoint_after_ms: Some(2_001),
            min_checkpoint_count: 5,
            max_checkpoint_count: 6,
            max_subscriber_count: 7,
            live_buffer_size: 2,
            read_batch_size: 3,
            history_buffer_size: 4,
            named_consumer_strategy: 2,
        }
    );
    let created = convert_settings_create(&given).unwrap();
    assert_eq!(created.revision, 11);
    assert_eq!(created.message_timeout_ms, Some(30_500));
    assert_eq!(created.checkpoint_after_ms, Some(2_001));
    assert_eq!(created.history_buffer_size, 4);
    assert_eq!(created.named_consumer_strategy, 2);
    assert_eq!(created.consumer_strategy, "Pinned");
}

#[test]
fn strategies_have_numbers_where_servers_know_them() {
    let known = [
        (SystemConsumerStrategy::DispatchToSingle, 0),
        (SystemConsumerStrategy::RoundRobin, 1),
        (SystemConsumerStrategy::Pinned, 2),
    ];
    for (strategy, code) in known {
        let given = settings(StreamPosition::<u64>::Start, strategy);
        assert_eq!(convert_settings_update(&given).unwrap().named_consumer_strategy, code);
        assert_eq!(convert_settings_create(&given).unwrap().named_consumer_strategy, code);
    }
    let unknown = [
        SystemConsumerStrategy::PinnedByCorrelation,
        SystemConsumerStrategy::Custom("mine".to_owned()),
    ];
    for strategy in unknown {
        let given = settings(StreamPosition::<u64>::Start, strategy);
        assert!(matches!(convert_settings_update(&given), Err(Error::UnsupportedFeature)));
        assert!(matches!(convert_settings_create(&given), Err(Error::UnsupportedFeature)));
    }
}

#[test]
fn strategies_read_back_by_name() {
    for text in ["DispatchToSingle", "RoundRobin", "Pinned", "PinnedByCorrelation", "mine", "", "pinned"] {
        assert_eq!(SystemConsumerStrategy::from_string(text.to_owned()).to_string(), text);
    }
    assert!(matches!(
        SystemConsumerStrategy::from_string("Pinned".to_owned()),
        SystemConsumerStrategy::Pinned
    ));
    assert!(matches!(
        SystemConsumerStrategy::from_string("pinned".to_owned()),
        SystemConsumerStrategy::Custom(_)
    ));
}

#[test]
fn subscriptions_to_a_stream_are_created() {
    let options = stream_options(SystemConsumerStrategy::RoundRobin);
    let request =
        create_persistent_subscription(&client(), features(false, false), "orders", "g", &options)
            .ok()
            .unwrap();
    assert_eq!(request.metadata.get("grpc-timeout").unwrap(), "10000000u");
    let sent = request.message.options.unwrap();
    match sent.stream_option {
        Some(persistent::CreateStreamOption::Stream(stream)) => {
            assert_eq!(name(stream.stream_identifier), b"orders");
            assert_eq!(stream.revision_option, Some(shared::RevisionOption::Revision(11)));
        }
        other => panic!("{:?}", other),
    }
    assert_eq!(name(sent.stream_identifier), b"orders");
    assert_eq!(sent.group_name, "g");
    assert_eq!(sent.settings.unwrap().consumer_strategy, "RoundRobin");
}

#[test]
fn subscriptions_to_all_are_created_where_servers_know_them() {
    let refused = create_persistent_subscription(
        &client(),
        features(false, true),
        "",
        "g",
        &all_options(None),
    );
    assert!(matches!(refused, Err(Error::UnsupportedFeature)));
    let filter = SubscriptionFilter {
        based_on_stream: false,
        max: None,
        regex: Some("^a".to_owned()),
        prefixes: vec![],
    };
    let request = create_persistent_subscription(
        &client(),
        features(true, false),
        "",
        "g",
        &all_options(Some(filter)),
    );
    let sent = request.ok().unwrap().message.options.unwrap();
    let position = shared::Position { commit_position: 2, prepare_position: 1 };
    match sent.stream_option {
        Some(persistent::CreateStreamOption::All(all)) => {
            assert_eq!(all.all_option, Some(shared::AllOption::Position(position)));
            match all.filter_option {
                Some(shared::FilterOption::Filter(filter)) => {
                    assert!(matches!(filter.filter, Some(shared::Filter::EventType(_))))
                }
                other => panic!("{:?}", other),
            }
        }
        other => panic!("{:?}", other),
    }
    assert_eq!(sent.settings.unwrap().revision, 0);
}

#[test]
fn subscriptions_are_updated() {
    let options = stream_options(SystemConsumerStrategy::DispatchToSingle);
    let sent =
        update_persistent_subscription(&client(), features(false, false), "orders", "g", &options)
            .ok()
            .unwrap()
            .message
            .options
            .unwrap();
    assert!(matches!(sent.stream_option, Some(persistent::UpdateStreamOption::Stream(_))));
    assert_eq!(name(sent.stream_identifier), b"orders");
    assert_eq!(sent.group_name, "g");
    assert_eq!(sent.settings.unwrap().named_consumer_strategy, 0);
    let options = all_options(None);
    let refused =
        update_persistent_subscription(&client(), features(false, false), "", "g", &options);
    assert!(matches!(refused, Err(Error::UnsupportedFeature)));
    let sent = update_persistent_subscription(&client(), features(true, false), "", "g", &options);
    assert!(matches!(
        sent.ok().unwrap().message.options.unwrap().stream_option,
        Some(persistent::UpdateStreamOption::All(_))
    ));
    let options = stream_options(SystemConsumerStrategy::PinnedByCorrelation);
    let refused =
        update_persistent_subscription(&client(), features(true, true), "orders", "g", &options);
    assert!(matches!(refused, Err(Error::UnsupportedFeature)));
}

#[test]
fn subscriptions_that_are_not_supported_are_told() {
    let pinned = stream_options(SystemConsumerStrategy::Pinned);
    assert!(check_supported(&pinned, features(false, false)));
    let unknown = stream_options(SystemConsumerStrategy::Custom("mine".to_owned()));
    assert!(!check_supported(&unknown, features(true, true)));
    assert!(!check_supported(&all_options(None), features(false, true)));
    assert!(check_supported(&all_options(None), features(true, false)));
}

#[test]
fn subscriptions_are_deleted() {
    let options = DeletePersistentSubscriptionOptions { common_operation_options: common() };
    let delete = |to_all: bool, known: bool| {
        delete_persistent_subscription(&client(), features(known, false), "orders", "g", &options, to_all)
    };
    assert!(matches!(delete(true, false), Err(Error::UnsupportedFeature)));
    let sent = delete(true, true).ok().unwrap().message.options.unwrap();
    assert!(matches!(sent.stream_option, Some(persistent::StreamOption::All)));
    let sent = delete(false, false).ok().unwrap().message.options.unwrap();
    match sent.stream_option {
        Some(persistent::StreamOption::StreamIdentifier(stream)) => {
            assert_eq!(stream.stream_name, b"orders")
        }
        other => panic!("{:?}", other),
    }
    assert_eq!(sent.group_name, "g");
}

#[test]
fn subscriptions_are_consumed() {
    let consume = |buffer_size: usize, to_all: bool, known: bool| {
        let options = SubscribeToPersistentSubscriptionOptions {
            buffer_size,
            common_operation_options: common(),
        };
        subscribe_to_persistent_subscription(
            &client(),
            features(known, false),
            "orders",
            "g",
            &options,
            to_all,
        )
    };
    assert!(matches!(consume(10, true, false), Err(Error::UnsupportedFeature)));
    let request = consume(10, true, true).ok().unwrap();
    assert!(request.metadata.get("grpc-timeout").is_none());
    match request.message.content {
        Some(persistent::ReadReqContent::Options(sent)) => {
            assert!(matches!(sent.stream_option, Some(persistent::StreamOption::All)));
            assert_eq!(sent.group_name, "g");
            assert_eq!(sent.buffer_size, 10);
            assert_eq!(sent.uuid_option, Some(UuidOption::String));
        }
        other => panic!("{:?}", other),
    }
    match consume(1 << 31, false, false).ok().unwrap().message.content {
        Some(persistent::ReadReqContent::Options(sent)) => {
            assert!(matches!(
                sent.stream_option,
                Some(persistent::StreamOption::StreamIdentifier(_))
            ));
            assert_eq!(sent.buffer_size, i32::MIN);
        }
        other => panic!("{:?}", other),
    }
}

fn consumer() -> PersistentSubscription {
    PersistentSubscription {
        channel_id: Uuid { bytes: [4; 16] },
        stream_id: "orders".to_owned(),
        group_name: "g".to_owned(),
    }
}

fn wire_event(id: Option<shared::Uuid>) -> persistent::ReadEvent {
    persistent::ReadEvent {
        event: Some(shared::RecordedEvent {
            id,
            stream_identifier: Some(stream_identifier("orders")),
            stream_revision: 1,
            prepare_position: 2,
            commit_position: 3,
            metadata: StringMap::new(),
            custom_metadata: vec![],
            data: vec![],
        }),
        link: None,
        position: None,
        count: Some(persistent::Count::RetryCount(2)),
    }
}

fn received(content: Option<persistent::ReadRespContent>) -> PersistentStep {
    let input = PersistentInput::Received(Some(persistent::ReadResp { content }));
    consumer().next_subscription_event(input)
}

#[test]
fn consumers_get_events_and_a_confirmation() {
    let event = wire_event(Some(to_proto_uuid(Uuid::nil())));
    match received(Some(persistent::ReadRespContent::Event(event))) {
        PersistentStep::Return(Ok(appeared)) => {
            match &appeared {
                PersistentSubscriptionEvent::EventAppeared { retry_count, .. } => {
                    assert_eq!(*retry_count, 2)
                }
                other => panic!("{:?}", other),
            }
            assert_eq!(consumer().next(appeared).unwrap().get_original_event().revision, 1);
        }
        other => panic!("{:?}", other),
    }
    let confirmed = persistent::ReadRespContent::SubscriptionConfirmation {
        subscription_id: "s1".to_owned(),
    };
    match received(Some(confirmed)) {
        PersistentStep::Return(Ok(confirmed)) => {
            assert!(matches!(&confirmed, PersistentSubscriptionEvent::Confirmed(id) if id == "s1"));
            assert!(consumer().next(confirmed).is_none());
        }
        other => panic!("{:?}", other),
    }
}

#[test]
fn consumers_tell_malformed_messages() {
    assert!(matches!(received(None), PersistentStep::Malformed));
    assert!(matches!(
        received(Some(persistent::ReadRespContent::Event(wire_event(None)))),
        PersistentStep::Malformed
    ));
    assert!(matches!(
        consumer().next_subscription_event(PersistentInput::Received(None)),
        PersistentStep::Malformed
    ));
}

fn failed(exception: Option<&'static str>) -> PersistentStep {
    let mut metadata = MetadataMap::new();
    if let Some(exception) = exception {
        metadata.insert("exception", exception.parse().unwrap());
    }
    let error = Error::Grpc { code: 1, message: "cancelled".to_owned() };
    consumer().next_subscription_event(PersistentInput::Failed { metadata, error })
}

#[test]
fn consumers_tell_a_dropped_subscription() {
    match failed(Some("persistent-subscription-dropped")) {
        PersistentStep::Return(Err(Error::IllegalStateError(message))) => {
            assert_eq!(message, "Persistent subscription on 'orders' and group 'g' has dropped")
        }
        other => panic!("{:?}", other),
    }
}

#[test]
fn the_first_exception_counts() {
    let failed_with = |first: &'static str, second: &'static str| {
        let mut metadata = MetadataMap::new();
        metadata.append("exception", first.parse().unwrap());
        metadata.append("exception", second.parse().unwrap());
        let error = Error::Grpc { code: 1, message: "cancelled".to_owned() };
        consumer().next_subscription_event(PersistentInput::Failed { metadata, error })
    };
    assert!(matches!(
        failed_with("persistent-subscription-dropped", "stream-deleted"),
        PersistentStep::Return(Err(Error::IllegalStateError(_)))
    ));
    assert!(matches!(
        failed_with("stream-deleted", "persistent-subscription-dropped"),
        PersistentStep::Report { .. }
    ));
}

#[test]
fn consumers_report_any_other_failure() {
    for exception in [None, Some(""), Some("stream-deleted"), Some("Persistent-Subscription-Dropped")] {
        match failed(exception) {
            PersistentStep::Report { channel_id, error } => {
                assert_eq!(channel_id, Uuid { bytes: [4; 16] });
                assert!(matches!(error, Error::Grpc { code: 1, .. }));
            }
            other => panic!("{:?}", other),
        }
    }
}

fn resolved(event: Option<u8>, link: Option<u8>) -> ResolvedEvent {
    let recorded = |byte: u8| RecordedEvent {
        stream_id: "orders".to_owned(),
        id: Uuid { bytes: [byte; 16] },
        revision: 0,
        event_type: String::new(),
        data: vec![],
        metadata: StringMap::new(),
        custom_metadata: vec![],
        is_json: false,
        position: Position::start(),
    };
    ResolvedEvent { event: event.map(recorded), link: link.map(recorded), commit_position: None }
}

fn texts(ids: Vec<shared::Uuid>) -> Vec<String> {
    ids.into_iter()
        .map(|id| match id.value {
            Some(shared::UuidValue::String(text)) => text,
            other => panic!("{:?}", other),
        })
        .collect()
}

const ONES: &str = "01010101-0101-0101-0101-010101010101";
const TWOS: &str = "02020202-0202-0202-0202-020202020202";

#[test]
fn events_are_acknowledged() {
    match consumer().ack(resolved(Some(1), Some(2))).content {
        Some(persistent::ReadReqContent::Ack(ack)) => {
            assert!(ack.id.is_empty());
            assert_eq!(texts(ack.ids), [TWOS]);
        }
        other => panic!("{:?}", other),
    }
    let ids = vec![Uuid { bytes: [1; 16] }, Uuid { bytes: [2; 16] }];
    match consumer().ack_ids(ids).content {
        Some(persistent::ReadReqContent::Ack(ack)) => assert_eq!(texts(ack.ids), [ONES, TWOS]),
        other => panic!("{:?}", other),
    }
}

#[test]
fn events_are_refused() {
    let actions = [
        (NakAction::Unknown, 0),
        (NakAction::Park, 1),
        (NakAction::Retry, 2),
        (NakAction::Skip, 3),
        (NakAction::Stop, 4),
    ];
    for (action, code) in actions {
        match consumer().nack(resolved(Some(1), None), action, "broken").content {
            Some(persistent::ReadReqContent::Nack(nack)) => {
                assert!(nack.id.is_empty());
                assert_eq!(texts(nack.ids), [ONES]);
                assert_eq!(nack.action, code);
                assert_eq!(nack.reason, "broken");
            }
            other => panic!("{:?}", other),
        }
    }
    match consumer().nack_ids(vec![], NakAction::Skip, "").content {
        Some(persistent::ReadReqContent::Nack(nack)) => assert!(nack.ids.is_empty()),
        other => panic!("{:?}", other),
    }
}

#[test]
fn acknowledgements_can_be_ignored() {
    assert!(consumer().ack_result(true).is_ok());
    match consumer().ack_result(false) {
        Err(Error::IllegalStateError(message)) => {
            assert_eq!(message, "Ack was ignored as the transaction no longer exists")
        }
        other => panic!("{:?}", other),
    }
}

fn connection() -> persistent::ConnectionInfo {
    let measurement = |key: &str, value: i64| persistent::Measurement { key: key.to_owned(), value };
    persistent::ConnectionInfo {
        from: "10.0.0.1".to_owned(),
        username: "ops".to_owned(),
        average_items_per_second: 12,
        total_items: 34,
        count_since_last_measurement: 5,
        observed_measurements: vec![
            measurement("mean", 1),
            measurement("median", 2),
            measurement("mean", 3),
        ],
        available_slots: 6,
        in_flight_messages: 7,
        connection_name: "back office".to_owned(),
    }
}

fn info(start_from: &str) -> persistent::SubscriptionInfo {
    persistent::SubscriptionInfo {
        event_source: "orders".to_owned(),
        group_name: "g".to_owned(),
        status: "Live".to_owned(),
        connections: vec![connection()],
        average_per_second: 1,
        total_items: 2,
        count_since_last_measurement: 3,
        last_checkpointed_event_position: "4".to_owned(),
        last_known_event_position: "C:6/P:5".to_owned(),
        resolve_link_tos: true,
        start_from: start_from.to_owned(),
        message_timeout_milliseconds: 30_500,
        extra_statistics: true,
        max_retry_count: 7,
        live_buffer_size: 8,
        buffer_size: 9,
        read_batch_size: 10,
        check_point_after_milliseconds: 2_000,
        min_check_point_count: 11,
        max_check_point_count: 12,
        read_buffer_count: 13,
        live_buffer_count: 14,
        retry_buffer_count: 15,
        total_in_flight_messages: 16,
        outstanding_messages_count: 17,
        named_consumer_strategy: "RoundRobin".to_owned(),
        max_subscriber_count: 18,
        parked_message_count: 19,
    }
}

#[test]
fn connections_keep_the_last_measurement() {
    let read = connection_from_wire(connection());
    assert_eq!(read.from, "10.0.0.1");
    assert_eq!(read.username, "ops");
    assert_eq!(read.average_items_per_second, 12);
    assert_eq!(read.total_items, 34);
    assert_eq!(read.count_since_last_measurement, 5);
    assert_eq!(read.available_slots, 6);
    assert_eq!(read.in_flight_messages, 7);
    assert_eq!(read.connection_name, "back office");
    assert_eq!(read.extra_statistics.0.get("mean"), Some(&3));
    assert_eq!(read.extra_statistics.0.get("median"), Some(&2));
    assert_eq!(read.extra_statistics.0.entries().len(), 2);
}

#[test]
fn descriptions_are_read_in_full() {
    let read = subscription_info_from_wire(&RegularStream("orders".to_owned()), info("5")).unwrap();
    assert_eq!(read.event_source, "orders");
    assert_eq!(read.group_name, "g");
    assert_eq!(read.status, "Live");
    assert_eq!(read.connections.len(), 1);
    let settings = read.settings.unwrap();
    assert!(settings.resolve_link_tos && settings.extra_statistics);
    assert_eq!(settings.start_from, StreamPosition::Position(5));
    assert_eq!(settings.message_timeout, Duration::from_millis(30_500));
    assert_eq!(settings.checkpoint_after, Duration::from_secs(2));
    assert_eq!(settings.max_retry_count, 7);
    assert_eq!(settings.live_buffer_size, 8);
    assert_eq!(settings.history_buffer_size, 9);
    assert_eq!(settings.read_batch_size, 10);
    assert_eq!(settings.checkpoint_lower_bound, 11);
    assert_eq!(settings.checkpoint_upper_bound, 12);
    assert_eq!(settings.max_subscriber_count, 18);
    assert!(matches!(settings.consumer_strategy_name, SystemConsumerStrategy::RoundRobin));
    let stats = read.stats;
    assert_eq!(stats.average_per_second, 1);
    assert_eq!(stats.total_items, 2);
    assert_eq!(stats.count_since_last_measurement, 3);
    assert_eq!(stats.last_checkpointed_event_revision, Some(4));
    assert_eq!(stats.last_checkpointed_position, None);
    assert_eq!(stats.last_known_event_revision, None);
    assert_eq!(stats.last_known_position, Some(Position { commit: 6, prepare: 5 }));
    assert_eq!(stats.read_buffer_count, 13);
    assert_eq!(stats.live_buffer_count, 14);
    assert_eq!(stats.retry_buffer_count, 15);
    assert_eq!(stats.total_in_flight_messages, 16);
    assert_eq!(stats.outstanding_messages_count, 17);
    assert_eq!(stats.parked_message_count, 19);
}

#[test]
fn places_that_cannot_be_read_are_left_out_of_descriptions() {
    let mut given = info("-1");
    given.last_known_event_position = String::new();
    given.last_checkpointed_event_position = "-1".to_owned();
    let read = subscription_info_from_wire(&AllStream, given).unwrap();
    assert_eq!(read.settings.unwrap().start_from, StreamPosition::End);
    assert_eq!(read.stats.last_known_event_revision, None);
    assert_eq!(read.stats.last_known_position, None);
    assert_eq!(read.stats.last_checkpointed_event_revision, None);
    assert_eq!(read.stats.last_checkpointed_position, None);
}

#[test]
fn starting_places_that_cannot_be_read_are_an_error() {
    match subscription_info_from_wire(&BothTypeOfStream, info("nowhere")) {
        Err(Error::InternalParsingError(message)) => {
            assert_eq!(message, "Can't parse stream position: nowhere")
        }
        other => panic!("{:?}", other),
    }
}

#[test]
fn starting_places_are_of_the_kind_of_the_stream() {
    let orders = RegularStream("orders".to_owned());
    assert!(check_start(&orders, "5") && !check_start(&orders, "C:5/P:5"));
    assert!(!check_start(&AllStream, "5") && check_start(&AllStream, "C:5/P:5"));
    assert!(check_start(&BothTypeOfStream, "5") && check_start(&BothTypeOfStream, "C:5/P:5"));
    assert!(check_start(&AllStream, "0") && check_start(&AllStream, "nowhere"));
    let revision = RevisionOrPosition::Revision(5);
    let position = RevisionOrPosition::Position(Position { commit: 2, prepare: 1 });
    assert_eq!(orders.select(revision), 5);
    assert_eq!(AllStream.select(position), Position { commit: 2, prepare: 1 });
    assert_eq!(BothTypeOfStream.select(revision), revision);
    assert_eq!(BothTypeOfStream.select(position), position);
}

#[test]
fn streams_have_names() {
    let orders = RegularStream("orders".to_owned());
    assert!(!orders.is_all());
    assert_eq!(orders.name(), "orders");
    assert!(AllStream.is_all());
    assert_eq!(AllStream.name(), "$all");
}

fn list(subscriptions: Vec<persistent::SubscriptionInfo>) -> persistent::ListResp {
    persistent::ListResp { subscriptions }
}

#[test]
fn lists_are_read_in_order() {
    let resp = list(vec![info("5"), info("C:2/P:1"), info("-1")]);
    assert!(check_starts(&BothTypeOfStream, &resp));
    let starts: Vec<StreamPosition<RevisionOrPosition>> =
        list_persistent_subscriptions_result(&BothTypeOfStream, resp)
            .unwrap()
            .into_iter()
            .map(|read| read.settings.unwrap().start_from)
            .collect();
    let position = RevisionOrPosition::Position(Position { commit: 2, prepare: 1 });
    assert_eq!(
        starts,
        [
            StreamPosition::Position(RevisionOrPosition::Revision(5)),
            StreamPosition::Position(position),
            StreamPosition::End,
        ]
    );
}

#[test]
fn lists_fail_at_the_first_that_cannot_be_read() {
    let resp = list(vec![info("C:2/P:1"), info("first"), info("second"), info("5")]);
    assert!(check_starts(&AllStream, &resp));
    match list_persistent_subscriptions_result(&AllStream, resp) {
        Err(Error::InternalParsingError(message)) => {
            assert_eq!(message, "Can't parse stream position: first")
        }
        other => panic!("{:?}", other),
    }
    assert!(!check_starts(&AllStream, &list(vec![info("0"), info("5"), info("first")])));
}

#[test]
fn descriptions_can_be_missing() {
    let resp = persistent::GetInfoResp { subscription_info: None };
    assert!(matches!(
        get_persistent_subscription_info_result(&AllStream, resp),
        Err(Error::ResourceNotFound)
    ));
    let resp = persistent::GetInfoResp { subscription_info: Some(info("C:2/P:1")) };
    let read = get_persistent_subscription_info_result(&AllStream, resp).unwrap();
    assert_eq!(
        read.settings.unwrap().start_from,
        StreamPosition::Position(Position { commit: 2, prepare: 1 })
    );
}

#[test]
fn lists_go_over_http_where_servers_do_not_know_them() {
    let options = ListPersistentSubscriptionsOptions { common_operation_options: common() };
    assert!(matches!(
        list_all_persistent_subscriptions(&client(), features(true, false), &options),
        Route::Http
    ));
    match list_all_persistent_subscriptions(&client(), features(false, true), &options) {
        Route::Grpc(request) => assert!(matches!(
            request.message.options.unwrap().list_option,
            Some(persistent::ListOption::ListAllSubscriptions)
        )),
        Route::Http => panic!("over HTTP"),
    }
    let orders = RegularStream("orders".to_owned());
    let known = features(false, false);
    assert!(matches!(
        list_persistent_subscriptions_for_stream(&client(), known, &orders, &options),
        Ok(Route::Http)
    ));
    assert!(matches!(
        list_persistent_subscriptions_for_stream(&client(), known, &AllStream, &options),
        Err(Error::UnsupportedFeature)
    ));
    let known = features(true, false);
    assert!(matches!(
        list_persistent_subscriptions_for_stream(&client(), known, &AllStream, &options),
        Ok(Route::Http)
    ));
    let known = features(false, true);
    match list_persistent_subscriptions_for_stream(&client(), known, &orders, &options) {
        Ok(Route::Grpc(request)) => match request.message.options.unwrap().list_option {
            Some(persistent::ListOption::ListForStream(
                persistent::StreamOption::StreamIdentifier(stream),
            )) => assert_eq!(stream.stream_name, b"orders"),
            other => panic!("{:?}", other),
        },
        _ => panic!("no request"),
    }
    match list_persistent_subscriptions_for_stream(&client(), known, &AllStream, &options) {
        Ok(Route::Grpc(request)) => assert!(matches!(
            request.message.options.unwrap().list_option,
            Some(persistent::ListOption::ListForStream(persistent::StreamOption::All))
        )),
        _ => panic!("no request"),
    }
}

#[test]
fn parked_messages_are_replayed() {
    let replay = |stop_at: Option<usize>, known: Features| {
        let options = ReplayParkedMessagesOptions { stop_at, common_operation_options: common() };
        replay_parked_messages(&client(), known, &AllStream, "g", &options)
    };
    assert!(matches!(replay(None, features(false, false)), Err(Error::UnsupportedFeature)));
    assert!(matches!(replay(None, features(true, false)), Ok(Route::Http)));
    for (stop_at, wanted) in [
        (None, persistent::StopAtOption::NoLimit),
        (Some(0), persistent::StopAtOption::StopAt(0)),
        (Some(25), persistent::StopAtOption::StopAt(25)),
    ] {
        match replay(stop_at, features(false, true)) {
            Ok(Route::Grpc(request)) => {
                let sent = request.message.options.unwrap();
                assert_eq!(sent.group_name, "g");
                assert!(matches!(sent.stream_option, Some(persistent::StreamOption::All)));
                assert_eq!(sent.stop_at_option, Some(wanted));
            }
            _ => panic!("no request"),
        }
    }
}

#[test]
fn subscriptions_are_described() {
    let options = GetPersistentSubscriptionInfoOptions { common_operation_options: common() };
    let orders = RegularStream("orders".to_owned());
    let ask = |known: Features| {
        get_persistent_subscription_info(&client(), known, &orders, "g", &options)
    };
    assert!(matches!(ask(features(false, false)), Ok(Route::Http)));
    match ask(features(false, true)) {
        Ok(Route::Grpc(request)) => {
            let sent = request.message.options.unwrap();
            assert_eq!(sent.group_name, "g");
            match sent.stream_option {
                Some(persistent::StreamOption::StreamIdentifier(stream)) => {
                    assert_eq!(stream.stream_name, b"orders")
                }
                other => panic!("{:?}", other),
            }
        }
        _ => panic!("no request"),
    }
    let known = features(false, false);
    assert!(matches!(
        get_persistent_subscription_info(&client(), known, &AllStream, "g", &options),
        Err(Error::UnsupportedFeature)
    ));
}

#[test]
fn the_subsystem_is_restarted() {
    let options = RestartPersistentSubscriptionSubsystem { common_operation_options: common() };
    assert!(matches!(
        restart_persistent_subscription_subsystem(&client(), features(true, false), &options),
        Route::Http
    ));
    match restart_persistent_subscription_subsystem(&client(), features(true, true), &options) {
        Route::Grpc(request) => {
            assert_eq!(request.metadata.get("grpc-timeout").unwrap(), "10000000u")
        }
        Route::Http => panic!("over HTTP"),
    }
}
