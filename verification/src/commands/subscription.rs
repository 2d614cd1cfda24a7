//! Subscriptions: reads that go on, and that start over where they left off when the
//! connection is lost.
use crate::commands::event::{
    check_read_event, convert_proto_read_event, is_read_event, read_event_is_readable,
    stream_identifier,
};
use crate::commands::read::{reads_all, reads_stream};
use crate::commands::start::{
    all_option, clone_strings, filter_into_proto, from_wire_position, is_filter_option, position_of,
    revision_option, texts, to_all_option, to_revision_option, to_wire_position, wire_position,
};
use crate::ids::Uuid;
use crate::options::{Options, SubscribeToAllOptions, SubscribeToStreamOptions};
use crate::request::{
    build_request_metadata, metadata_entries, request_metadata, settings_can_be_sent,
};
use crate::settings::ClientSettings;
use crate::time::Duration;
use crate::types::{
    Error, RecordedEvent, ResolvedEvent, RetryOptions, SubscriptionEvent,
};
use crate::wire::shared;
use crate::wire::streams;
use tonic::metadata::MetadataMap;
use vstd::prelude::*;

verus! {

/// A subscription.
pub struct Subscription {
    /// The channel that the subscription was last asked for over.
    channel_id: Uuid,
    /// Whether the server is answering.
    connected: bool,
    /// Which attempt at connecting this is.
    attempts: usize,
    /// How many attempts at connecting there are.
    limit: usize,
    retry_enabled: bool,
    /// How long to wait between attempts.
    delay: Duration,
    /// What to ask the server for.
    options: streams::ReadOptions,
    metadata: MetadataMap,
}

/// What there is to know of a subscription.
pub struct SubscriptionState {
    pub channel_id: Seq<u8>,
    pub connected: bool,
    pub attempts: nat,
    pub limit: nat,
    pub retry_enabled: bool,
    pub delay: Duration,
    pub options: streams::ReadOptions,
    pub metadata: Map<Seq<char>, Seq<Seq<u8>>>,
}

impl View for Subscription {
    type V = SubscriptionState;

    closed spec fn view(&self) -> SubscriptionState {
        SubscriptionState {
            channel_id: self.channel_id@,
            connected: self.connected,
            attempts: self.attempts as nat,
            limit: self.limit as nat,
            retry_enabled: self.retry_enabled,
            delay: self.delay,
            options: self.options,
            metadata: metadata_entries(self.metadata),
        }
    }
}

impl SubscriptionState {
    /// Attempts are counted from one and stay within the limit, there is just one where there
    /// are no retries, and it is known what to subscribe to.
    pub open spec fn well_formed(self) -> bool {
        &&& self.attempts >= 1
        &&& self.attempts == 1 || self.attempts <= self.limit
        &&& !self.retry_enabled ==> self.limit == 1
        &&& self.options.stream_option is Some
    }
}

/// What happens to a subscription.
pub enum SubscriptionInput {
    /// The caller wants the next event.
    Resume,
    /// The node to connect to was found, with its channel.
    Selected(Uuid),
    /// No node to connect to was found.
    SelectFailed(Error),
    /// The server is answering.
    Connected,
    /// The server refused, or could not be reached.
    ConnectFailed(Error),
    /// A message, or the end of the answer.
    Received(Option<streams::ReadResp>),
    /// The connection was lost.
    Dropped(Error),
}

/// What becomes of a subscription once a failure has been reported.
pub enum AfterReport {
    /// The caller gets the error.
    Fail,
    /// It connects anew.
    Reconnect,
    /// It connects anew, after a wait.
    ReconnectAfter(Duration),
}

/// What a subscription does next.
pub enum SubscriptionStep {
    /// Find a node to connect to.
    SelectNode,
    /// Ask the server, over the channel that was found.
    Connect,
    /// Wait for the next message.
    Poll,
    /// Give this to the caller.
    Return(Result<SubscriptionEvent, Error>),
    /// Report that the channel failed.
    Report { channel_id: Uuid, error: Error, next: AfterReport },
    /// The message is none that a server sends: it lacks a part that is always there.
    Malformed,
}

/// What to ask the server for to go on behind an event.
pub open spec fn resume_after(
    options: streams::ReadOptions,
    event: RecordedEvent,
) -> streams::ReadOptions {
    streams::ReadOptions {
        stream_option: match options.stream_option {
            Some(streams::StreamOption::Stream(stream)) => Some(
                streams::StreamOption::Stream(
                    streams::StreamOptions {
                        revision_option: Some(shared::RevisionOption::Revision(event.revision)),
                        ..stream
                    },
                ),
            ),
            Some(streams::StreamOption::All(_)) => Some(
                streams::StreamOption::All(
                    streams::AllOptions {
                        all_option: Some(
                            shared::AllOption::Position(wire_position(event.position)),
                        ),
                    },
                ),
            ),
            None => None,
        },
        ..options
    }
}

/// Whether two filters look for the same.
pub open spec fn is_same_filter(
    sent: Option<shared::FilterOption>,
    filter: Option<shared::FilterOption>,
) -> bool {
    match filter {
        Some(shared::FilterOption::Filter(options)) => sent matches Some(
            shared::FilterOption::Filter(sent),
        ) && {
            &&& match options.filter {
                Some(shared::Filter::StreamIdentifier(expression)) => sent.filter matches Some(
                    shared::Filter::StreamIdentifier(copy),
                ) && is_same_expression(copy, expression),
                Some(shared::Filter::EventType(expression)) => sent.filter matches Some(
                    shared::Filter::EventType(copy),
                ) && is_same_expression(copy, expression),
                None => sent.filter is None,
            }
            &&& sent.window == options.window
            &&& sent.checkpoint_interval_multiplier == options.checkpoint_interval_multiplier
        },
        Some(shared::FilterOption::NoFilter) => sent == Some(shared::FilterOption::NoFilter),
        None => sent is None,
    }
}

/// Whether two expressions look for the same.
pub open spec fn is_same_expression(
    copy: shared::FilterExpression,
    expression: shared::FilterExpression,
) -> bool {
    copy.regex@ == expression.regex@ && texts(copy.prefix@) == texts(expression.prefix@)
}

/// Whether two identifiers, if there are any, name the same stream.
pub open spec fn is_same_stream(
    copy: Option<shared::StreamIdentifier>,
    identifier: Option<shared::StreamIdentifier>,
) -> bool {
    match identifier {
        Some(identifier) => copy matches Some(copy) && copy.stream_name@
            == identifier.stream_name@,
        None => copy is None,
    }
}

/// Whether two reads ask for the same.
pub open spec fn is_same_read(sent: streams::ReadOptions, options: streams::ReadOptions) -> bool {
    &&& match options.stream_option {
        Some(streams::StreamOption::Stream(stream)) => sent.stream_option matches Some(
            streams::StreamOption::Stream(copy),
        ) && {
            &&& is_same_stream(copy.stream_identifier, stream.stream_identifier)
            &&& copy.revision_option == stream.revision_option
        },
        Some(streams::StreamOption::All(_)) => sent.stream_option == options.stream_option,
        None => sent.stream_option is None,
    }
    &&& sent.resolve_links == options.resolve_links
    &&& is_same_filter(sent.filter_option, options.filter_option)
    &&& sent.count_option == options.count_option
    &&& sent.uuid_option == options.uuid_option
    &&& sent.control_option == options.control_option
    &&& sent.read_direction == options.read_direction
}

fn copy_expression(expression: &shared::FilterExpression) -> (r: shared::FilterExpression)
    ensures
        is_same_expression(r, *expression),
{
    shared::FilterExpression {
        regex: expression.regex.clone(),
        prefix: clone_strings(&expression.prefix),
    }
}

fn copy_filter(filter: &Option<shared::FilterOption>) -> (r: Option<shared::FilterOption>)
    ensures
        is_same_filter(r, *filter),
{
    match filter {
        Some(shared::FilterOption::Filter(options)) => {
            let filter = match &options.filter {
                Some(shared::Filter::StreamIdentifier(expression)) => Some(
                    shared::Filter::StreamIdentifier(copy_expression(expression)),
                ),
                Some(shared::Filter::EventType(expression)) => Some(
                    shared::Filter::EventType(copy_expression(expression)),
                ),
                None => None,
            };
            Some(
                shared::FilterOption::Filter(
                    shared::FilterOptions {
                        filter,
                        window: options.window,
                        checkpoint_interval_multiplier: options.checkpoint_interval_multiplier,
                    },
                ),
            )
        },
        Some(shared::FilterOption::NoFilter) => Some(shared::FilterOption::NoFilter),
        None => None,
    }
}

fn copy_stream(identifier: &Option<shared::StreamIdentifier>) -> (r: Option<
    shared::StreamIdentifier,
>)
    ensures
        is_same_stream(r, *identifier),
{
    match identifier {
        Some(identifier) => {
            let stream_name: Vec<u8> = identifier.stream_name.clone();
            assert(stream_name@ =~= identifier.stream_name@);
            Some(shared::StreamIdentifier { stream_name })
        },
        None => None,
    }
}

fn copy_read(options: &streams::ReadOptions) -> (r: streams::ReadOptions)
    ensures
        is_same_read(r, *options),
{
    let stream_option = match &options.stream_option {
        Some(streams::StreamOption::Stream(stream)) => Some(
            streams::StreamOption::Stream(
                streams::StreamOptions {
                    stream_identifier: copy_stream(&stream.stream_identifier),
                    revision_option: stream.revision_option,
                },
            ),
        ),
        Some(streams::StreamOption::All(all)) => Some(streams::StreamOption::All(*all)),
        None => None,
    };
    streams::ReadOptions {
        stream_option,
        resolve_links: options.resolve_links,
        filter_option: copy_filter(&options.filter_option),
        count_option: options.count_option,
        uuid_option: options.uuid_option,
        control_option: options.control_option,
        read_direction: options.read_direction,
    }
}

/// Whether a failed attempt at connecting is followed by another.
pub open spec fn tries_again(s: SubscriptionState, error: Error) -> bool {
    !(error is AccessDenied) && s.attempts < s.limit
}

/// Whether a lost connection is made anew.
pub open spec fn reconnects(s: SubscriptionState, error: Error) -> bool {
    !(error is AccessDenied) && s.retry_enabled
}

/// What a subscription makes of a message, and what it is then.
pub open spec fn message_step(
    s: SubscriptionState,
    content: streams::ReadContent,
    step: SubscriptionStep,
    after: SubscriptionState,
) -> bool {
    let listening = SubscriptionState { connected: true, ..s };
    match content {
        streams::ReadContent::Event(event) => if read_event_is_readable(event) && (event.event
            is Some || event.link is Some) {
            step matches SubscriptionStep::Return(Ok(SubscriptionEvent::EventAppeared(resolved)))
                && {
                &&& is_read_event(resolved, event)
                &&& after == SubscriptionState {
                    options: resume_after(s.options, resolved.original()),
                    ..listening
                }
            }
        } else {
            step is Malformed && after == s
        },
        streams::ReadContent::Confirmation { subscription_id } => {
            &&& step == SubscriptionStep::Return(
                Ok(SubscriptionEvent::Confirmed(subscription_id)),
            )
            &&& after == listening
        },
        streams::ReadContent::Checkpoint(position) => {
            &&& step == SubscriptionStep::Return(
                Ok(SubscriptionEvent::Checkpoint(position_of(position))),
            )
            &&& after == listening
        },
        streams::ReadContent::FirstStreamPosition(revision) => {
            &&& step == SubscriptionStep::Return(
                Ok(SubscriptionEvent::FirstStreamPosition(revision)),
            )
            &&& after == listening
        },
        streams::ReadContent::LastStreamPosition(revision) => {
            &&& step == SubscriptionStep::Return(
                Ok(SubscriptionEvent::LastStreamPosition(revision)),
            )
            &&& after == listening
        },
        streams::ReadContent::LastAllStreamPosition(position) => {
            &&& step == SubscriptionStep::Return(
                Ok(SubscriptionEvent::LastAllPosition(position_of(position))),
            )
            &&& after == listening
        },
        streams::ReadContent::StreamNotFound => step is Malformed && after == s,
    }
}

/// What a subscription does when something happens to it, and what it is then.
pub open spec fn subscription_step(
    s: SubscriptionState,
    input: SubscriptionInput,
    step: SubscriptionStep,
    after: SubscriptionState,
) -> bool {
    match input {
        SubscriptionInput::Resume => {
            &&& step == if s.connected {
                SubscriptionStep::Poll
            } else {
                SubscriptionStep::SelectNode
            }
            &&& after == s
        },
        SubscriptionInput::Selected(channel_id) => {
            &&& step == SubscriptionStep::Connect
            &&& after == SubscriptionState { channel_id: channel_id@, ..s }
        },
        SubscriptionInput::SelectFailed(error) => {
            &&& step == SubscriptionStep::Return(Err(error))
            &&& after == s
        },
        SubscriptionInput::Connected => {
            &&& step == SubscriptionStep::Poll
            &&& after == SubscriptionState { connected: true, ..s }
        },
        SubscriptionInput::ConnectFailed(error) => {
            &&& step matches SubscriptionStep::Report { channel_id, error: reported, next } && {
                &&& channel_id@ == s.channel_id
                &&& reported == error
                &&& next == if tries_again(s, error) {
                    AfterReport::ReconnectAfter(s.delay)
                } else {
                    AfterReport::Fail
                }
            }
            &&& after == if tries_again(s, error) {
                SubscriptionState { connected: false, attempts: s.attempts + 1, ..s }
            } else {
                SubscriptionState { connected: false, ..s }
            }
        },
        SubscriptionInput::Dropped(error) => {
            &&& step matches SubscriptionStep::Report { channel_id, error: reported, next } && {
                &&& channel_id@ == s.channel_id
                &&& reported == error
                &&& next == if reconnects(s, error) {
                    AfterReport::Reconnect
                } else {
                    AfterReport::Fail
                }
            }
            &&& after == SubscriptionState { connected: false, attempts: 1, ..s }
        },
        SubscriptionInput::Received(received) => match received {
            Some(resp) => match resp.content {
                Some(content) => message_step(s, content, step, after),
                None => step is Malformed && after == s,
            },
            None => step is Malformed && after == s,
        },
    }
}

impl Subscription {
    /// A subscription that has not been asked for yet.
    fn new(
        retry: Option<RetryOptions>,
        metadata: MetadataMap,
        options: streams::ReadOptions,
    ) -> (r: Subscription)
        requires
            options.stream_option is Some,
        ensures
            r@.well_formed(),
            r@ == new_state(retry, metadata_entries(metadata), options),
    {
        let (limit, delay, retry_enabled): (usize, Duration, bool) = match retry {
            Some(retry) => (retry.limit, retry.delay, true),
            None => (1, Duration::from_secs(0), false),
        };
        Subscription {
            channel_id: Uuid::nil(),
            connected: false,
            attempts: 1,
            limit,
            retry_enabled,
            delay,
            options,
            metadata,
        }
    }

    /// What to ask the server for.
    pub fn read_req(&self) -> (r: streams::ReadReq)
        ensures
            r.options matches Some(sent) && is_same_read(sent, self@.options),
    {
        streams::ReadReq { options: Some(copy_read(&self.options)) }
    }

    /// Which attempt at connecting this is.
    pub fn attempts(&self) -> (r: usize)
        ensures
            r == self@.attempts,
    {
        self.attempts
    }

    /// How many attempts at connecting there are.
    pub fn limit(&self) -> (r: usize)
        ensures
            r == self@.limit,
    {
        self.limit
    }

    /// Whether a lost connection is made anew.
    pub fn retry_enabled(&self) -> (r: bool)
        ensures
            r == self@.retry_enabled,
    {
        self.retry_enabled
    }

    /// The metadata that goes with it.
    pub fn metadata(&self) -> (r: &MetadataMap)
        ensures
            metadata_entries(*r) == self@.metadata,
    {
        &self.metadata
    }

    /// The caller of a subscription to events alone gets those, and nothing else.
    pub fn next(&self, event: SubscriptionEvent) -> (r: Option<ResolvedEvent>)
        ensures
            r == match event {
                SubscriptionEvent::EventAppeared(event) => Some(event),
                _ => None,
            },
    {
        match event {
            SubscriptionEvent::EventAppeared(event) => Some(event),
            _ => None,
        }
    }

    /// Goes on behind an event, should the connection be lost.
    fn resume_after(&mut self, event: &RecordedEvent)
        requires
            old(self)@.options.stream_option is Some,
        ensures
            final(self)@ == (SubscriptionState {
                options: resume_after(old(self)@.options, *event),
                ..old(self)@
            }),
    {
        match &mut self.options.stream_option {
            Some(streams::StreamOption::Stream(stream)) => {
                stream.revision_option = Some(shared::RevisionOption::Revision(event.revision));
            },
            Some(streams::StreamOption::All(all)) => {
                all.all_option = Some(
                    shared::AllOption::Position(to_wire_position(event.position)),
                );
            },
            None => {},
        }
    }

    /// What the subscription makes of a message.
    fn receive(&mut self, content: streams::ReadContent) -> (r: SubscriptionStep)
        requires
            old(self)@.well_formed(),
        ensures
            final(self)@.well_formed(),
            message_step(old(self)@, content, r, final(self)@),
    {
        match content {
            streams::ReadContent::Event(event) => {
                if !check_read_event(&event) || (event.event.is_none() && event.link.is_none()) {
                    return SubscriptionStep::Malformed;
                }
                let event = convert_proto_read_event(event);
                self.connected = true;
                self.resume_after(event.get_original_event());
                SubscriptionStep::Return(Ok(SubscriptionEvent::EventAppeared(event)))
            },
            streams::ReadContent::Confirmation { subscription_id } => {
                self.connected = true;
                SubscriptionStep::Return(Ok(SubscriptionEvent::Confirmed(subscription_id)))
            },
            streams::ReadContent::Checkpoint(position) => {
                self.connected = true;
                SubscriptionStep::Return(
                    Ok(SubscriptionEvent::Checkpoint(from_wire_position(position))),
                )
            },
            streams::ReadContent::FirstStreamPosition(revision) => {
                self.connected = true;
                SubscriptionStep::Return(Ok(SubscriptionEvent::FirstStreamPosition(revision)))
            },
            streams::ReadContent::LastStreamPosition(revision) => {
                self.connected = true;
                SubscriptionStep::Return(Ok(SubscriptionEvent::LastStreamPosition(revision)))
            },
            streams::ReadContent::LastAllStreamPosition(position) => {
                self.connected = true;
                SubscriptionStep::Return(
                    Ok(SubscriptionEvent::LastAllPosition(from_wire_position(position))),
                )
            },
            streams::ReadContent::StreamNotFound => SubscriptionStep::Malformed,
        }
    }

    /// What the subscription does when something happens to it.
    pub fn next_subscription_event(&mut self, input: SubscriptionInput) -> (r: SubscriptionStep)
        requires
            old(self)@.well_formed(),
        ensures
            final(self)@.well_formed(),
            subscription_step(old(self)@, input, r, final(self)@),
    {
        match input {
            SubscriptionInput::Resume => if self.connected {
                SubscriptionStep::Poll
            } else {
                SubscriptionStep::SelectNode
            },
            SubscriptionInput::Selected(channel_id) => {
                self.channel_id = channel_id;
                SubscriptionStep::Connect
            },
            SubscriptionInput::SelectFailed(error) => SubscriptionStep::Return(Err(error)),
            SubscriptionInput::Connected => {
                self.connected = true;
                SubscriptionStep::Poll
            },
            SubscriptionInput::ConnectFailed(error) => {
                self.connected = false;
                if !error.is_access_denied() && self.attempts < self.limit {
                    self.attempts = self.attempts + 1;
                    SubscriptionStep::Report {
                        channel_id: self.channel_id,
                        error,
                        next: AfterReport::ReconnectAfter(self.delay),
                    }
                } else {
                    SubscriptionStep::Report {
                        channel_id: self.channel_id,
                        error,
                        next: AfterReport::Fail,
                    }
                }
            },
            SubscriptionInput::Dropped(error) => {
                self.connected = false;
                self.attempts = 1;
                let next = if error.is_access_denied() || !self.retry_enabled {
                    AfterReport::Fail
                } else {
                    AfterReport::Reconnect
                };
                SubscriptionStep::Report { channel_id: self.channel_id, error, next }
            },
            SubscriptionInput::Received(received) => match received {
                Some(resp) => match resp.content {
                    Some(content) => self.receive(content),
                    None => SubscriptionStep::Malformed,
                },
                None => SubscriptionStep::Malformed,
            },
        }
    }
}

/// A subscription that has not been asked for yet.
pub open spec fn new_state(
    retry: Option<RetryOptions>,
    metadata: Map<Seq<char>, Seq<Seq<u8>>>,
    options: streams::ReadOptions,
) -> SubscriptionState {
    SubscriptionState {
        channel_id: Seq::new(16, |i: int| 0u8),
        connected: false,
        attempts: 1,
        limit: match retry {
            Some(retry) => retry.limit as nat,
            None => 1,
        },
        retry_enabled: retry is Some,
        delay: match retry {
            Some(retry) => retry.delay,
            None => Duration { secs: 0, nanos: 0 },
        },
        options,
        metadata,
    }
}

/// Whether options are those of a subscription: forward and without end, with identifiers as
/// text.
pub open spec fn is_subscription_read(options: streams::ReadOptions, resolve_links: bool) -> bool {
    &&& options.resolve_links == resolve_links
    &&& options.count_option == Some(streams::CountOption::Subscription)
    &&& options.uuid_option == Some(streams::UuidOption::String)
    &&& options.control_option is None
    &&& options.read_direction == 0
}

/// Subscribes to a stream.
pub fn subscribe_to_stream(
    settings: &ClientSettings,
    stream_id: &str,
    options: &SubscribeToStreamOptions,
) -> (r: Subscription)
    requires
        settings_can_be_sent(*settings),
    ensures
        r@.well_formed(),
        r@ == new_state(
            options.retry,
            request_metadata(*settings, options.common()),
            r@.options,
        ),
        reads_stream(r@.options.stream_option, stream_id@, revision_option(options.position)),
        is_subscription_read(r@.options, options.resolve_link_tos),
        r@.options.filter_option == Some(shared::FilterOption::NoFilter),
{
    let stream_options = streams::StreamOptions {
        stream_identifier: Some(stream_identifier(stream_id)),
        revision_option: Some(to_revision_option(options.position)),
    };
    let req_options = streams::ReadOptions {
        stream_option: Some(streams::StreamOption::Stream(stream_options)),
        resolve_links: options.resolve_link_tos,
        filter_option: Some(shared::FilterOption::NoFilter),
        count_option: Some(streams::CountOption::Subscription),
        uuid_option: Some(streams::UuidOption::String),
        control_option: None,
        read_direction: 0,
    };
    let metadata = build_request_metadata(settings, options.common_operation_options());
    Subscription::new(options.retry, metadata, req_options)
}

/// Subscribes to `$all`.
pub fn subscribe_to_all(settings: &ClientSettings, options: &SubscribeToAllOptions) -> (r:
    Subscription)
    requires
        settings_can_be_sent(*settings),
    ensures
        r@.well_formed(),
        r@ == new_state(
            options.retry,
            request_metadata(*settings, options.common()),
            r@.options,
        ),
        reads_all(r@.options.stream_option, all_option(options.position)),
        is_subscription_read(r@.options, options.resolve_link_tos),
        r@.options.filter_option matches Some(filter) && is_filter_option(filter, options.filter),
{
    let stream_options = streams::AllOptions {
        all_option: Some(to_all_option(options.position)),
    };
    let filter_option = match &options.filter {
        Some(filter) => shared::FilterOption::Filter(filter_into_proto(filter.clone())),
        None => shared::FilterOption::NoFilter,
    };
    let req_options = streams::ReadOptions {
        stream_option: Some(streams::StreamOption::All(stream_options)),
        resolve_links: options.resolve_link_tos,
        filter_option: Some(filter_option),
        count_option: Some(streams::CountOption::Subscription),
        uuid_option: Some(streams::UuidOption::String),
        control_option: None,
        read_direction: 0,
    };
    let metadata = build_request_metadata(settings, options.common_operation_options());
    Subscription::new(options.retry, metadata, req_options)
}

/// A course of a subscription: what happened to it, what it did each time, and what it was in
/// between.
pub open spec fn is_run(
    states: Seq<SubscriptionState>,
    inputs: Seq<SubscriptionInput>,
    steps: Seq<SubscriptionStep>,
) -> bool {
    &&& states.len() == inputs.len() + 1
    &&& steps.len() == inputs.len()
    &&& forall|i: int|
        #![trigger inputs[i]]
        0 <= i < inputs.len() ==> subscription_step(
            states[i],
            inputs[i],
            steps[i],
            states[i + 1],
        )
}

/// The event that a step gives to the caller, if it gives one.
pub open spec fn delivered(step: SubscriptionStep) -> Option<ResolvedEvent> {
    match step {
        SubscriptionStep::Return(Ok(SubscriptionEvent::EventAppeared(event))) => Some(event),
        _ => None,
    }
}

/// The last event that was given to the caller, if any was.
pub open spec fn last_delivered(steps: Seq<SubscriptionStep>) -> Option<ResolvedEvent>
    decreases steps.len(),
{
    if steps.len() == 0 {
        None
    } else if delivered(steps.last()) is Some {
        delivered(steps.last())
    } else {
        last_delivered(steps.drop_last())
    }
}

proof fn lemma_run_prefix(
    states: Seq<SubscriptionState>,
    inputs: Seq<SubscriptionInput>,
    steps: Seq<SubscriptionStep>,
)
    requires
        is_run(states, inputs, steps),
        inputs.len() > 0,
    ensures
        is_run(states.drop_last(), inputs.drop_last(), steps.drop_last()),
        subscription_step(
            states[states.len() - 2],
            inputs.last(),
            steps.last(),
            states.last(),
        ),
{
    assert(subscription_step(
        states[inputs.len() - 1],
        inputs[inputs.len() - 1],
        steps[inputs.len() - 1],
        states[inputs.len() as int],
    ));
    assert forall|i: int|
        #![trigger inputs.drop_last()[i]]
        0 <= i < inputs.drop_last().len() implies subscription_step(
        states.drop_last()[i],
        inputs.drop_last()[i],
        steps.drop_last()[i],
        states.drop_last()[i + 1],
    ) by {
        assert(inputs[i] == inputs.drop_last()[i]);
    }
}

/// Whatever happens to a subscription, it asks the server for what it was first made for, but
/// from the last event on that it gave to the caller.
pub proof fn law_asks_from_last_event(
    states: Seq<SubscriptionState>,
    inputs: Seq<SubscriptionInput>,
    steps: Seq<SubscriptionStep>,
)
    requires
        is_run(states, inputs, steps),
    ensures
        states.last().options == match last_delivered(steps) {
            Some(event) => resume_after(states[0].options, event.original()),
            None => states[0].options,
        },
        states.last().metadata == states[0].metadata,
        states.last().limit == states[0].limit,
        states.last().delay == states[0].delay,
        states.last().retry_enabled == states[0].retry_enabled,
    decreases inputs.len(),
{
    if inputs.len() > 0 {
        lemma_run_prefix(states, inputs, steps);
        law_asks_from_last_event(states.drop_last(), inputs.drop_last(), steps.drop_last());
    }
}

/// Going on behind an event starts there: at its revision in a regular stream, at its log
/// position in `$all`.
pub proof fn law_resumes_at_the_event(options: streams::ReadOptions, event: RecordedEvent)
    ensures
        options.stream_option matches Some(streams::StreamOption::Stream(stream)) ==> resume_after(
            options,
            event,
        ).stream_option == Some(
            streams::StreamOption::Stream(
                streams::StreamOptions {
                    stream_identifier: stream.stream_identifier,
                    revision_option: Some(shared::RevisionOption::Revision(event.revision)),
                },
            ),
        ),
        options.stream_option is Some && options.stream_option->0 is All ==> reads_all(
            resume_after(options, event).stream_option,
            shared::AllOption::Position(wire_position(event.position)),
        ),
{
}

/// Whether what happened is part of connecting, with no access denied.
pub open spec fn is_connecting(input: SubscriptionInput) -> bool {
    match input {
        SubscriptionInput::Resume => true,
        SubscriptionInput::Selected(_) => true,
        SubscriptionInput::ConnectFailed(error) => !(error is AccessDenied),
        _ => false,
    }
}

/// How many attempts at connecting failed.
pub open spec fn failures(inputs: Seq<SubscriptionInput>) -> nat
    decreases inputs.len(),
{
    if inputs.len() == 0 {
        0
    } else if inputs.last() is ConnectFailed {
        failures(inputs.drop_last()) + 1
    } else {
        failures(inputs.drop_last())
    }
}

/// A subscription that starts to connect makes as many attempts as its limit says, and at
/// least one: an attempt that fails is followed by another, after the delay, just as long as
/// fewer have failed.
pub proof fn law_attempts_stay_within_limit(
    states: Seq<SubscriptionState>,
    inputs: Seq<SubscriptionInput>,
    steps: Seq<SubscriptionStep>,
)
    requires
        is_run(states, inputs, steps),
        states[0].attempts == 1,
        forall|i: int| 0 <= i < inputs.len() ==> is_connecting(#[trigger] inputs[i]),
    ensures
        1 + failures(inputs) <= states[0].limit ==> states.last().attempts == 1 + failures(inputs),
        1 + failures(inputs) > states[0].limit ==> states.last().attempts == if states[0].limit
            > 1 {
            states[0].limit
        } else {
            1
        },
        inputs.len() > 0 && inputs.last() is ConnectFailed ==> steps.last()->next == if failures(
            inputs,
        ) < states[0].limit {
            AfterReport::ReconnectAfter(states[0].delay)
        } else {
            AfterReport::Fail
        },
    decreases inputs.len(),
{
    if inputs.len() > 0 {
        lemma_run_prefix(states, inputs, steps);
        assert forall|i: int| 0 <= i < inputs.drop_last().len() implies is_connecting(
            #[trigger] inputs.drop_last()[i],
        ) by {
            assert(inputs[i] == inputs.drop_last()[i]);
        }
        assert(is_connecting(inputs[inputs.len() - 1]));
        law_attempts_stay_within_limit(states.drop_last(), inputs.drop_last(), steps.drop_last());
        law_asks_from_last_event(states.drop_last(), inputs.drop_last(), steps.drop_last());
    }
}

/// A user that may not read is told so at once, whether connecting or connected.
pub proof fn law_access_denied_is_final(
    s: SubscriptionState,
    input: SubscriptionInput,
    step: SubscriptionStep,
    after: SubscriptionState,
)
    requires
        subscription_step(s, input, step, after),
        input == SubscriptionInput::ConnectFailed(Error::AccessDenied) || input
            == SubscriptionInput::Dropped(Error::AccessDenied),
    ensures
        step matches SubscriptionStep::Report { error, next, .. } && error == Error::AccessDenied
            && next == AfterReport::Fail,
{
}

/// Without retries, every failure goes to the caller.
pub proof fn law_no_retries_means_none(
    s: SubscriptionState,
    input: SubscriptionInput,
    step: SubscriptionStep,
    after: SubscriptionState,
)
    requires
        s.well_formed(),
        !s.retry_enabled,
        subscription_step(s, input, step, after),
        input is ConnectFailed || input is Dropped,
    ensures
        step matches SubscriptionStep::Report { next, .. } && next == AfterReport::Fail,
{
}

} // verus!
