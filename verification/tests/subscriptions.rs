use eventstore::commands::event::{stream_identifier, to_proto_uuid};
use eventstore::commands::subscription::{
    subscribe_to_all, subscribe_to_stream, AfterReport, Subscription, SubscriptionInput,
    SubscriptionStep,
};
use eventstore::ids::Uuid;
use eventstore::options::{
    CommonOperationOptions, SubscribeToAllOptions, SubscribeToStreamOptions,
};
use eventstore::settings::ClientSettings;
use eventstore::string_map::StringMap;
use eventstore::time::Duration;
use eventstore::types::{
    Error, Position, RetryOptions, StreamPosition, SubscriptionEvent, SubscriptionFilter,
};
use eventstore::wire::shared;
use eventstore::wire::streams;

fn settings() -> ClientSettings {
    ClientSettings { default_user_credentials: None, connection_name: None, default_deadline: None }
}

fn to_stream(retry: Option<RetryOptions>) -> Subscription {
    let options = SubscribeToStreamOptions {
        position: StreamPosition::Start,
        resolve_link_tos: true,
        retry,
        common_operation_options: CommonOperationOptions::default(),
    };
    subscribe_to_stream(&settings(), "orders", &options)
}

fn to_all(filter: Option<SubscriptionFilter>) -> Subscription {
    let options = SubscribeToAllOptions {
        position: StreamPosition::End,
        resolve_link_tos: false,
        filter,
        retry: None,
        common_operation_options: CommonOperationOptions::default(),
    };
    subscribe_to_all(&settings(), &options)
}

fn retries(limit: usize) -> Option<RetryOptions> {
    Some(RetryOptions { limit, delay: Duration::from_millis(250) })
}

fn channel(byte: u8) -> Uuid {
    Uuid { bytes: [byte; 16] }
}

fn lost() -> Error {
    Error::Grpc { code: 14, message: "gone".to_owned() }
}

fn recorded(revision: u64) -> shared::RecordedEvent {
    shared::RecordedEvent {
        id: Some(to_proto_uuid(Uuid::nil())),
        stream_identifier: Some(stream_identifier("orders")),
        stream_revision: revision,
        prepare_position: revision + 100,
        commit_position: revision + 200,
        metadata: StringMap::new(),
        custom_metadata: vec![],
        data: vec![],
    }
}

fn message(content: streams::ReadContent) -> SubscriptionInput {
    SubscriptionInput::Received(Some(streams::ReadResp { content: Some(content) }))
}

fn event_message(
    event: Option<shared::RecordedEvent>,
    link: Option<shared::RecordedEvent>,
) -> SubscriptionInput {
    message(streams::ReadContent::Event(streams::ReadEvent { event, link, position: None }))
}

fn connect(subscription: &mut Subscription) {
    assert!(matches!(
        subscription.next_subscription_event(SubscriptionInput::Resume),
        SubscriptionStep::SelectNode
    ));
    assert!(matches!(
        subscription.next_subscription_event(SubscriptionInput::Selected(channel(1))),
        SubscriptionStep::Connect
    ));
    assert!(matches!(
        subscription.next_subscription_event(SubscriptionInput::Connected),
        SubscriptionStep::Poll
    ));
}

fn revision_option(subscription: &Subscription) -> Option<shared::RevisionOption> {
    match &subscription.read_req().options.unwrap().stream_option {
        Some(streams::StreamOption::Stream(stream)) => {
            assert_eq!(stream.stream_identifier.as_ref().unwrap().stream_name, b"orders");
            stream.revision_option
        }
        other => panic!("{:?}", other),
    }
}

fn report(step: SubscriptionStep) -> (Uuid, Error, AfterReport) {
    match step {
        SubscriptionStep::Report { channel_id, error, next } => (channel_id, error, next),
        _ => panic!("no report"),
    }
}

#[test]
fn subscriptions_go_on_forward() {
    let subscription = to_stream(None);
    let sent = subscription.read_req().options.unwrap();
    assert_eq!(revision_option(&subscription), Some(shared::RevisionOption::Start));
    assert!(sent.resolve_links);
    assert!(matches!(sent.filter_option, Some(shared::FilterOption::NoFilter)));
    assert_eq!(sent.count_option, Some(streams::CountOption::Subscription));
    assert_eq!(sent.uuid_option, Some(streams::UuidOption::String));
    assert_eq!(sent.control_option, None);
    assert_eq!(sent.read_direction, 0);
    assert_eq!(subscription.metadata().get("requires-leader").unwrap(), "true");
    assert!(subscription.metadata().get("grpc-timeout").is_none());
}

#[test]
fn subscriptions_to_all_can_be_filtered() {
    let sent = to_all(None).read_req().options.unwrap();
    assert!(matches!(sent.filter_option, Some(shared::FilterOption::NoFilter)));
    assert!(matches!(
        sent.stream_option,
        Some(streams::StreamOption::All(streams::AllOptions {
            all_option: Some(shared::AllOption::End)
        }))
    ));
    let filter = SubscriptionFilter {
        based_on_stream: true,
        max: Some(8),
        regex: None,
        prefixes: vec!["order-".to_owned()],
    };
    match &to_all(Some(filter)).read_req().options.unwrap().filter_option {
        Some(shared::FilterOption::Filter(options)) => {
            assert_eq!(options.window, Some(shared::FilterWindow::Max(8)));
            match &options.filter {
                Some(shared::Filter::StreamIdentifier(expression)) => {
                    assert_eq!(expression.prefix, ["order-"])
                }
                other => panic!("{:?}", other),
            }
        }
        other => panic!("{:?}", other),
    }
}

#[test]
fn subscriptions_resume_at_the_last_event() {
    let mut subscription = to_stream(retries(3));
    connect(&mut subscription);
    for revision in 0..4 {
        let step = subscription.next_subscription_event(event_message(Some(recorded(revision)), None));
        match step {
            SubscriptionStep::Return(Ok(SubscriptionEvent::EventAppeared(event))) => {
                assert_eq!(event.get_original_event().revision, revision)
            }
            _ => panic!("no event"),
        }
        assert!(matches!(
            subscription.next_subscription_event(SubscriptionInput::Resume),
            SubscriptionStep::Poll
        ));
    }
    let (channel_id, error, next) =
        report(subscription.next_subscription_event(SubscriptionInput::Dropped(lost())));
    assert_eq!(channel_id, channel(1));
    assert!(matches!(error, Error::Grpc { code: 14, .. }));
    assert!(matches!(next, AfterReport::Reconnect));
    assert_eq!(revision_option(&subscription), Some(shared::RevisionOption::Revision(3)));
    connect(&mut subscription);
}

#[test]
fn subscriptions_with_links_resume_at_the_link() {
    let mut subscription = to_stream(None);
    connect(&mut subscription);
    subscription.next_subscription_event(event_message(Some(recorded(50)), Some(recorded(8))));
    assert_eq!(revision_option(&subscription), Some(shared::RevisionOption::Revision(8)));
}

#[test]
fn subscriptions_to_all_resume_at_a_log_position() {
    let mut subscription = to_all(None);
    connect(&mut subscription);
    subscription.next_subscription_event(event_message(Some(recorded(5)), None));
    let position = shared::Position { commit_position: 205, prepare_position: 105 };
    match &subscription.read_req().options.unwrap().stream_option {
        Some(streams::StreamOption::All(all)) => {
            assert_eq!(all.all_option, Some(shared::AllOption::Position(position)))
        }
        other => panic!("{:?}", other),
    }
}

#[test]
fn subscriptions_pass_on_what_the_server_says() {
    let mut subscription = to_stream(None);
    connect(&mut subscription);
    let position = shared::Position { commit_position: 9, prepare_position: 8 };
    let wanted = Position { commit: 9, prepare: 8 };
    let confirmed = streams::ReadContent::Confirmation { subscription_id: "s1".to_owned() };
    match subscription.next_subscription_event(message(confirmed)) {
        SubscriptionStep::Return(Ok(SubscriptionEvent::Confirmed(id))) => assert_eq!(id, "s1"),
        _ => panic!("not confirmed"),
    }
    match subscription.next_subscription_event(message(streams::ReadContent::Checkpoint(position))) {
        SubscriptionStep::Return(Ok(SubscriptionEvent::Checkpoint(read))) => assert_eq!(read, wanted),
        _ => panic!("no checkpoint"),
    }
    let last = streams::ReadContent::LastAllStreamPosition(position);
    match subscription.next_subscription_event(message(last)) {
        SubscriptionStep::Return(Ok(SubscriptionEvent::LastAllPosition(read))) => {
            assert_eq!(read, wanted)
        }
        _ => panic!("no position"),
    }
    assert!(matches!(
        subscription
            .next_subscription_event(message(streams::ReadContent::FirstStreamPosition(2))),
        SubscriptionStep::Return(Ok(SubscriptionEvent::FirstStreamPosition(2)))
    ));
    assert!(matches!(
        subscription.next_subscription_event(message(streams::ReadContent::LastStreamPosition(3))),
        SubscriptionStep::Return(Ok(SubscriptionEvent::LastStreamPosition(3)))
    ));
    assert_eq!(revision_option(&subscription), Some(shared::RevisionOption::Start));
}

#[test]
fn attempts_stay_within_the_limit() {
    for limit in [0usize, 1, 2, 5] {
        let mut subscription = to_stream(retries(limit));
        for attempt in 1..=limit.max(1) {
            subscription.next_subscription_event(SubscriptionInput::Resume);
            subscription.next_subscription_event(SubscriptionInput::Selected(channel(attempt as u8)));
            assert_eq!((subscription.attempts(), subscription.limit()), (attempt, limit));
            assert!(subscription.retry_enabled());
            let (channel_id, _, next) =
                report(subscription.next_subscription_event(SubscriptionInput::ConnectFailed(lost())));
            assert_eq!(channel_id, channel(attempt as u8));
            match next {
                AfterReport::ReconnectAfter(delay) => {
                    assert!(attempt < limit);
                    assert_eq!(delay, Duration::from_millis(250));
                }
                AfterReport::Fail => assert!(attempt >= limit),
                AfterReport::Reconnect => panic!("no wait"),
            }
        }
    }
}

#[test]
fn attempts_are_counted_anew_once_the_connection_is_lost() {
    let mut subscription = to_stream(retries(2));
    subscription.next_subscription_event(SubscriptionInput::Resume);
    subscription.next_subscription_event(SubscriptionInput::Selected(channel(1)));
    let failed = subscription.next_subscription_event(SubscriptionInput::ConnectFailed(lost()));
    assert!(matches!(report(failed).2, AfterReport::ReconnectAfter(_)));
    connect(&mut subscription);
    let dropped = subscription.next_subscription_event(SubscriptionInput::Dropped(lost()));
    assert!(matches!(report(dropped).2, AfterReport::Reconnect));
    let failed = subscription.next_subscription_event(SubscriptionInput::ConnectFailed(lost()));
    assert!(matches!(report(failed).2, AfterReport::ReconnectAfter(_)));
    let failed = subscription.next_subscription_event(SubscriptionInput::ConnectFailed(lost()));
    assert!(matches!(report(failed).2, AfterReport::Fail));
}

#[test]
fn denied_access_is_final() {
    let mut subscription = to_stream(retries(9));
    let failed =
        subscription.next_subscription_event(SubscriptionInput::ConnectFailed(Error::AccessDenied));
    assert!(matches!(report(failed), (_, Error::AccessDenied, AfterReport::Fail)));
    connect(&mut subscription);
    let dropped = subscription.next_subscription_event(SubscriptionInput::Dropped(Error::AccessDenied));
    assert!(matches!(report(dropped), (_, Error::AccessDenied, AfterReport::Fail)));
}

#[test]
fn without_retries_every_failure_is_told() {
    let mut subscription = to_stream(None);
    let failed = subscription.next_subscription_event(SubscriptionInput::ConnectFailed(lost()));
    assert!(matches!(report(failed).2, AfterReport::Fail));
    connect(&mut subscription);
    let dropped = subscription.next_subscription_event(SubscriptionInput::Dropped(lost()));
    assert!(matches!(report(dropped).2, AfterReport::Fail));
    let unfound = subscription
        .next_subscription_event(SubscriptionInput::SelectFailed(Error::ResourceNotFound));
    assert!(matches!(unfound, SubscriptionStep::Return(Err(Error::ResourceNotFound))));
}

#[test]
fn subscriptions_tell_malformed_messages() {
    let mut subscription = to_stream(None);
    connect(&mut subscription);
    let broken = [
        SubscriptionInput::Received(None),
        SubscriptionInput::Received(Some(streams::ReadResp { content: None })),
        message(streams::ReadContent::StreamNotFound),
        event_message(None, None),
        event_message(Some(shared::RecordedEvent { id: None, ..recorded(1) }), None),
    ];
    for input in broken {
        assert!(matches!(
            subscription.next_subscription_event(input),
            SubscriptionStep::Malformed
        ));
    }
    assert_eq!(revision_option(&subscription), Some(shared::RevisionOption::Start));
}

#[test]
fn subscribers_to_events_get_events_alone() {
    let mut subscription = to_stream(None);
    assert!(subscription.next(SubscriptionEvent::Confirmed("x".to_owned())).is_none());
    assert!(subscription.next(SubscriptionEvent::Checkpoint(Position::start())).is_none());
    assert!(subscription.next(SubscriptionEvent::LastStreamPosition(1)).is_none());
    connect(&mut subscription);
    match subscription.next_subscription_event(event_message(None, Some(recorded(4)))) {
        SubscriptionStep::Return(Ok(event)) => {
            let event = subscription.next(event).unwrap();
            assert!(event.event.is_none());
            assert_eq!(event.link.unwrap().revision, 4);
        }
        _ => panic!("no event"),
    }
}
