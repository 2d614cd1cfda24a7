//! What subscriptions are for.
use crate::commands::event::check_read_event;
use crate::commands::subscription::{
    is_run, subscribe_to_all, subscribe_to_stream, subscription_step, AfterReport, Subscription,
    SubscriptionInput, SubscriptionState, SubscriptionStep,
};
use crate::laws::event::is_resolution_of;
use crate::laws::streams::{
    filters, holds_filter, lemma_filter, starts_at_position, starts_at_revision,
};
use crate::options::{SubscribeToAllOptions, SubscribeToStreamOptions};
use crate::request::{build_request_metadata, metadata_entries};
use crate::settings::ClientSettings;
use crate::time::Duration;
use crate::types::{Error, ResolvedEvent, RetryOptions, SubscriptionEvent};
use crate::wire::{shared, streams};
use tonic::metadata::MetadataMap;
use vstd::prelude::*;
use vstd::utf8::encode_utf8;

verus! {

/// Whether two reads ask for the same, but for the place to start at.
pub open spec fn asks_for_the_same(after: streams::ReadOptions, before: streams::ReadOptions) -> bool {
    &&& after.filter_option == before.filter_option
    &&& after.resolve_links == before.resolve_links
    &&& after.count_option == before.count_option
    &&& after.uuid_option == before.uuid_option
    &&& after.control_option == before.control_option
    &&& after.read_direction == before.read_direction
    &&& before.stream_option is None ==> after.stream_option is None
    &&& before.stream_option matches Some(streams::StreamOption::Stream(stream)) ==> (
    after.stream_option matches Some(streams::StreamOption::Stream(same))
        && same.stream_identifier == stream.stream_identifier)
    &&& before.stream_option matches Some(streams::StreamOption::All(_)) ==> (
    after.stream_option matches Some(streams::StreamOption::All(_)))
}

/// Whether a subscription is set up the same: who runs it, how often and after what wait it connects
/// anew, and what it asks for, but for the place to start at.
pub open spec fn is_set_up_the_same(after: SubscriptionState, before: SubscriptionState) -> bool {
    &&& after.metadata == before.metadata
    &&& after.limit == before.limit
    &&& after.delay == before.delay
    &&& after.retry_enabled == before.retry_enabled
    &&& asks_for_the_same(after.options, before.options)
}

/// Whether what is asked for starts at a recorded event: at its revision in a regular stream, at its
/// log position in `$all`.
pub open spec fn starts_at_event(
    options: streams::ReadOptions,
    event: shared::RecordedEvent,
) -> bool {
    &&& options.stream_option matches Some(streams::StreamOption::Stream(stream))
        ==> stream.revision_option == Some(shared::RevisionOption::Revision(event.stream_revision))
    &&& options.stream_option matches Some(streams::StreamOption::All(all)) ==> (
    all.all_option matches Some(shared::AllOption::Position(position)) && position.commit_position
        == event.commit_position && position.prepare_position == event.prepare_position)
}

/// The event of the stream of a message: the link where there is one.
pub open spec fn original_of(event: streams::ReadEvent) -> shared::RecordedEvent {
    if event.link is Some {
        event.link->0
    } else {
        event.event->0
    }
}

/// Whether a message gives the caller an event.
pub open spec fn gives_event(input: SubscriptionInput, step: SubscriptionStep) -> bool {
    &&& step matches SubscriptionStep::Return(Ok(SubscriptionEvent::EventAppeared(_)))
    &&& input matches SubscriptionInput::Received(Some(resp))
        && resp.content matches Some(streams::ReadContent::Event(_))
}

/// The event of the stream of a message that gives the caller an event.
pub open spec fn given_event(input: SubscriptionInput) -> shared::RecordedEvent {
    original_of(input->Received_0->0.content->0->Event_0)
}

/// Whatever happens to a subscription, it stays set up the same. It moves the place to start at only
/// when it gives the caller an event, and then to that event.
pub proof fn law_step_moves_the_start_alone(
    before: SubscriptionState,
    input: SubscriptionInput,
    step: SubscriptionStep,
    after: SubscriptionState,
)
    requires
        subscription_step(before, input, step, after),
    ensures
        is_set_up_the_same(after, before),
        gives_event(input, step) ==> starts_at_event(after.options, given_event(input)),
        !gives_event(input, step) ==> after.options == before.options,
        delivers(step) ==> gives_event(input, step),
{
}

/// Whether a step gives the caller an event.
pub open spec fn delivers(step: SubscriptionStep) -> bool {
    step matches SubscriptionStep::Return(Ok(SubscriptionEvent::EventAppeared(_)))
}

/// In the whole course of a subscription, lost connections included, every part of what it asks the
/// server for stays the one that it was created with, but for the place to start at: the filter, the
/// stream, the resolution of links, and all the rest.
pub proof fn law_subscription_keeps_its_filter(
    states: Seq<SubscriptionState>,
    inputs: Seq<SubscriptionInput>,
    steps: Seq<SubscriptionStep>,
)
    requires
        is_run(states, inputs, steps),
    ensures
        is_set_up_the_same(states.last(), states[0]),
        states.last().options.filter_option == states[0].options.filter_option,
        states.last().options.resolve_links == states[0].options.resolve_links,
        states.last().options.count_option == states[0].options.count_option,
        states.last().options.uuid_option == states[0].options.uuid_option,
        states.last().options.control_option == states[0].options.control_option,
        states.last().options.read_direction == states[0].options.read_direction,
    decreases inputs.len(),
{
    if inputs.len() > 0 {
        lemma_last_step(states, inputs, steps);
        law_subscription_keeps_its_filter(
            states.drop_last(),
            inputs.drop_last(),
            steps.drop_last(),
        );
        law_step_moves_the_start_alone(
            states[states.len() - 2],
            inputs.last(),
            steps.last(),
            states.last(),
        );
    }
}

proof fn lemma_last_step(
    states: Seq<SubscriptionState>,
    inputs: Seq<SubscriptionInput>,
    steps: Seq<SubscriptionStep>,
)
    requires
        is_run(states, inputs, steps),
        inputs.len() > 0,
    ensures
        is_run(states.drop_last(), inputs.drop_last(), steps.drop_last()),
        subscription_step(
            states[states.len() - 2],
            inputs.last(),
            steps.last(),
            states.last(),
        ),
{
    assert(subscription_step(
        states[inputs.len() - 1],
        inputs[inputs.len() - 1],
        steps[inputs.len() - 1],
        states[inputs.len() as int],
    ));
    assert forall|i: int|
        #![trigger inputs.drop_last()[i]]
        0 <= i < inputs.drop_last().len() implies subscription_step(
        states.drop_last()[i],
        inputs.drop_last()[i],
        steps.drop_last()[i],
        states.drop_last()[i + 1],
    ) by {
        assert(inputs[i] == inputs.drop_last()[i]);
    }
}

/// In the whole course of a subscription, the place to start at is the last event that was given to
/// the caller, or the first place where none was.
pub proof fn law_subscription_resumes_at_the_last_event(
    states: Seq<SubscriptionState>,
    inputs: Seq<SubscriptionInput>,
    steps: Seq<SubscriptionStep>,
    last: int,
)
    requires
        is_run(states, inputs, steps),
        -1 <= last < inputs.len(),
        last >= 0 ==> delivers(steps[last]),
        forall|i: int| last < i < steps.len() ==> !delivers(#[trigger] steps[i]),
    ensures
        last == -1 ==> states.last().options == states[0].options,
        last >= 0 ==> starts_at_event(states.last().options, given_event(inputs[last])),
    decreases inputs.len(),
{
    if inputs.len() > 0 {
        lemma_last_step(states, inputs, steps);
        law_step_moves_the_start_alone(
            states[states.len() - 2],
            inputs.last(),
            steps.last(),
            states.last(),
        );
        if last < inputs.len() - 1 {
            assert(!delivers(steps[steps.len() - 1]));
            assert forall|i: int| last < i < steps.drop_last().len() implies !delivers(
                #[trigger] steps.drop_last()[i],
            ) by {
                assert(steps[i] == steps.drop_last()[i]);
            }
            law_subscription_resumes_at_the_last_event(
                states.drop_last(),
                inputs.drop_last(),
                steps.drop_last(),
                last,
            );
        }
    }
}

/// A lost connection is made anew at once, and a failed attempt is followed by another after the wait,
/// just as long as retries are wanted and left and the user may read. Each failure is reported for the
/// channel that was found last.
pub proof fn law_subscription_connects_anew(
    subscription: Ghost<&mut Subscription>,
    input: SubscriptionInput,
    r: SubscriptionStep,
)
    requires
        call_ensures(Subscription::next_subscription_event, (subscription@, input), r),
    ensures
        ({
            let before = (*subscription@)@;
            let after = final(subscription@)@;
            &&& is_set_up_the_same(after, before)
            &&& input is Resume ==> after == before && (if before.connected {
                r is Poll
            } else {
                r is SelectNode
            })
            &&& input matches SubscriptionInput::Selected(channel_id) ==> {
                &&& r is Connect
                &&& after.channel_id == channel_id@
                &&& after.connected == before.connected
                &&& after.attempts == before.attempts
                &&& after.options == before.options
            }
            &&& input matches SubscriptionInput::SelectFailed(error) ==> r
                == SubscriptionStep::Return(Err(error)) && after == before
            &&& input is Connected ==> {
                &&& r is Poll
                &&& after.connected
                &&& after.channel_id == before.channel_id
                &&& after.attempts == before.attempts
                &&& after.options == before.options
            }
            &&& input matches SubscriptionInput::ConnectFailed(error) ==> {
                let again = error != Error::AccessDenied && before.attempts < before.limit;
                &&& r matches SubscriptionStep::Report { channel_id, error: reported, next } && {
                    &&& channel_id@ == before.channel_id
                    &&& reported == error
                    &&& again ==> next == AfterReport::ReconnectAfter(before.delay)
                    &&& !again ==> next == AfterReport::Fail
                }
                &&& !after.connected
                &&& again ==> after.attempts == before.attempts + 1
                &&& !again ==> after.attempts == before.attempts
                &&& after.options == before.options
                &&& after.channel_id == before.channel_id
            }
            &&& input matches SubscriptionInput::Dropped(error) ==> {
                let again = error != Error::AccessDenied && before.retry_enabled;
                &&& r matches SubscriptionStep::Report { channel_id, error: reported, next } && {
                    &&& channel_id@ == before.channel_id
                    &&& reported == error
                    &&& again ==> next == AfterReport::Reconnect
                    &&& !again ==> next == AfterReport::Fail
                }
                &&& !after.connected
                &&& after.attempts == 1
                &&& after.options == before.options
                &&& after.channel_id == before.channel_id
            }
        }),
{
}

/// A subscription gives the caller each thing that the server says, events with their links, and goes
/// on listening. It starts over at an event that it gave, should the connection be lost, and at nothing
/// else. A message that lacks a part changes nothing.
pub proof fn law_subscription_gives_what_it_hears(
    subscription: Ghost<&mut Subscription>,
    received: Option<streams::ReadResp>,
    r: SubscriptionStep,
)
    requires
        call_ensures(
            Subscription::next_subscription_event,
            (subscription@, SubscriptionInput::Received(received)),
            r,
        ),
    ensures
        ({
            let before = (*subscription@)@;
            let after = final(subscription@)@;
            &&& is_set_up_the_same(after, before)
            &&& after.attempts == before.attempts
            &&& after.channel_id == before.channel_id
            &&& r is Malformed ==> after == before
            &&& !(r is Malformed) ==> after.connected
            &&& received is None ==> r is Malformed
            &&& received matches Some(resp) ==> {
                &&& resp.content is None ==> r is Malformed
                &&& resp.content matches Some(streams::ReadContent::StreamNotFound)
                    ==> r is Malformed
                &&& resp.content matches Some(
                    streams::ReadContent::Confirmation { subscription_id },
                ) ==> r == SubscriptionStep::Return(
                    Ok(SubscriptionEvent::Confirmed(subscription_id)),
                ) && after.options == before.options
                &&& resp.content matches Some(streams::ReadContent::Checkpoint(position)) ==> {
                    &&& r matches SubscriptionStep::Return(Ok(SubscriptionEvent::Checkpoint(read)))
                        && read.commit == position.commit_position && read.prepare
                        == position.prepare_position
                    &&& after.options == before.options
                }
                &&& resp.content matches Some(streams::ReadContent::FirstStreamPosition(revision))
                    ==> r == SubscriptionStep::Return(
                    Ok(SubscriptionEvent::FirstStreamPosition(revision)),
                ) && after.options == before.options
                &&& resp.content matches Some(streams::ReadContent::LastStreamPosition(revision))
                    ==> r == SubscriptionStep::Return(
                    Ok(SubscriptionEvent::LastStreamPosition(revision)),
                ) && after.options == before.options
                &&& resp.content matches Some(
                    streams::ReadContent::LastAllStreamPosition(position),
                ) ==> {
                    &&& r matches SubscriptionStep::Return(
                        Ok(SubscriptionEvent::LastAllPosition(read)),
                    ) && read.commit == position.commit_position && read.prepare
                        == position.prepare_position
                    &&& after.options == before.options
                }
                &&& resp.content matches Some(streams::ReadContent::Event(event)) ==> {
                    &&& forall|readable: bool| #[trigger]
                        call_ensures(check_read_event, (&event,), readable) ==> (r is Malformed
                            == !(readable && (event.event is Some || event.link is Some)))
                    &&& !(r is Malformed) ==> {
                        &&& r matches SubscriptionStep::Return(
                            Ok(SubscriptionEvent::EventAppeared(read)),
                        ) && is_resolution_of(read, event.event, event.link, event.position)
                        &&& starts_at_event(after.options, original_of(event))
                    }
                }
            }
        }),
{
}

/// What a subscription asks the server for, when it connects, is all that it holds: the stream, the
/// place to start at, the filter, and the rest.
pub proof fn law_request_asks_for_all_of_it(subscription: &Subscription, r: streams::ReadReq)
    requires
        call_ensures(Subscription::read_req, (subscription,), r),
    ensures
        r.options matches Some(sent) && asks(sent, subscription@.options),
{
    lemma_asks(r.options->0, subscription@.options);
}

/// Whether expressions look for the same.
pub open spec fn looks_for(
    sent: shared::FilterExpression,
    wanted: shared::FilterExpression,
) -> bool {
    &&& sent.regex@ == wanted.regex@
    &&& sent.prefix@.len() == wanted.prefix@.len()
    &&& forall|i: int|
        0 <= i < wanted.prefix@.len() ==> (#[trigger] sent.prefix@[i])@ == wanted.prefix@[i]@
}

/// Whether a message asks for what is wanted.
pub open spec fn asks(sent: streams::ReadOptions, wanted: streams::ReadOptions) -> bool {
    &&& sent.resolve_links == wanted.resolve_links
    &&& sent.count_option == wanted.count_option
    &&& sent.uuid_option == wanted.uuid_option
    &&& sent.control_option == wanted.control_option
    &&& sent.read_direction == wanted.read_direction
    &&& wanted.stream_option matches Some(streams::StreamOption::All(all)) ==> sent.stream_option
        == Some(streams::StreamOption::All(all))
    &&& wanted.stream_option matches Some(streams::StreamOption::Stream(stream)) ==> (
    sent.stream_option matches Some(streams::StreamOption::Stream(same)) && {
        &&& same.revision_option == stream.revision_option
        &&& stream.stream_identifier matches Some(identifier) ==> (
        same.stream_identifier matches Some(copy) && copy.stream_name@ == identifier.stream_name@)
    })
    &&& wanted.filter_option == Some(shared::FilterOption::NoFilter) ==> sent.filter_option == Some(
        shared::FilterOption::NoFilter,
    )
    &&& wanted.filter_option matches Some(shared::FilterOption::Filter(filter)) ==> (
    sent.filter_option matches Some(shared::FilterOption::Filter(copy)) && {
        &&& copy.window == filter.window
        &&& copy.checkpoint_interval_multiplier == filter.checkpoint_interval_multiplier
        &&& filter.filter matches Some(shared::Filter::StreamIdentifier(expression)) ==> (
        copy.filter matches Some(shared::Filter::StreamIdentifier(same)) && looks_for(
            same,
            expression,
        ))
        &&& filter.filter matches Some(shared::Filter::EventType(expression)) ==> (
        copy.filter matches Some(shared::Filter::EventType(same)) && looks_for(same, expression))
    })
}

proof fn lemma_asks(sent: streams::ReadOptions, wanted: streams::ReadOptions)
    requires
        crate::commands::subscription::is_same_read(sent, wanted),
    ensures
        asks(sent, wanted),
{
    if let Some(shared::FilterOption::Filter(filter)) = wanted.filter_option {
        let copy = sent.filter_option->0->Filter_0;
        if let Some(shared::Filter::StreamIdentifier(expression)) = filter.filter {
            lemma_looks_for(copy.filter->0->StreamIdentifier_0, expression);
        }
        if let Some(shared::Filter::EventType(expression)) = filter.filter {
            lemma_looks_for(copy.filter->0->EventType_0, expression);
        }
    }
}

proof fn lemma_looks_for(sent: shared::FilterExpression, wanted: shared::FilterExpression)
    requires
        crate::commands::subscription::is_same_expression(sent, wanted),
    ensures
        looks_for(sent, wanted),
{
    let copy = crate::commands::start::texts(sent.prefix@);
    let texts = crate::commands::start::texts(wanted.prefix@);
    assert(copy.len() == texts.len());
    assert forall|i: int| 0 <= i < wanted.prefix@.len() implies (#[trigger] sent.prefix@[i])@
        == wanted.prefix@[i]@ by {
        assert(copy[i] == texts[i]);
    }
}

/// Whether a subscription is new, with the retries that were asked for.
pub open spec fn is_new(state: SubscriptionState, retry: Option<RetryOptions>) -> bool {
    &&& !state.connected
    &&& state.attempts == 1
    &&& state.retry_enabled == retry is Some
    &&& retry matches Some(retry) ==> state.limit == retry.limit && state.delay == retry.delay
    &&& retry is None ==> state.limit == 1 && state.delay == (Duration { secs: 0, nanos: 0 })
    &&& state.channel_id.len() == 16
    &&& forall|i: int| 0 <= i < 16 ==> state.channel_id[i] == 0
}

/// A subscription to a stream asks for that stream, without filter, from where its options say, and
/// goes on forward without end.
pub proof fn law_subscription_to_a_stream(
    settings: &ClientSettings,
    stream_id: &str,
    options: &SubscribeToStreamOptions,
    r: Subscription,
    metadata: MetadataMap,
)
    requires
        call_ensures(subscribe_to_stream, (settings, stream_id, options), r),
        call_ensures(
            build_request_metadata,
            (settings, &options.common_operation_options),
            metadata,
        ),
    ensures
        is_new(r@, options.retry),
        r@.metadata == metadata_entries(metadata),
        r@.options.stream_option matches Some(streams::StreamOption::Stream(stream)) && {
            &&& stream.stream_identifier matches Some(identifier) && identifier.stream_name@
                == encode_utf8(stream_id@)
            &&& starts_at_revision(options.position, stream.revision_option)
        },
        r@.options.resolve_links == options.resolve_link_tos,
        r@.options.filter_option == Some(shared::FilterOption::NoFilter),
        r@.options.count_option == Some(streams::CountOption::Subscription),
        r@.options.uuid_option == Some(streams::UuidOption::String),
        r@.options.control_option is None,
        r@.options.read_direction == 0,
{
}

/// A subscription to `$all` asks for it with the filter of its options, from where they say, and goes
/// on forward without end.
pub proof fn law_subscription_to_all(
    settings: &ClientSettings,
    options: &SubscribeToAllOptions,
    r: Subscription,
    metadata: MetadataMap,
)
    requires
        call_ensures(subscribe_to_all, (settings, options), r),
        call_ensures(
            build_request_metadata,
            (settings, &options.common_operation_options),
            metadata,
        ),
    ensures
        is_new(r@, options.retry),
        r@.metadata == metadata_entries(metadata),
        r@.options.stream_option matches Some(streams::StreamOption::All(all))
            && starts_at_position(options.position, all.all_option),
        r@.options.resolve_links == options.resolve_link_tos,
        options.filter is None ==> r@.options.filter_option == Some(shared::FilterOption::NoFilter),
        options.filter matches Some(filter) ==> (r@.options.filter_option matches Some(
            shared::FilterOption::Filter(sent),
        ) && filters(sent, filter)),
        r@.options.count_option == Some(streams::CountOption::Subscription),
        r@.options.uuid_option == Some(streams::UuidOption::String),
        r@.options.control_option is None,
        r@.options.read_direction == 0,
{
    if options.filter is Some {
        lemma_filter(r@.options.filter_option->0->Filter_0, options.filter->0);
    }
}

/// A subscription to `$all` that was created with a filter asks for that filter whenever it connects,
/// whatever has happened to it by then, and for `$all` from the last event that it gave.
pub proof fn law_filter_outlives_connections(
    settings: &ClientSettings,
    options: &SubscribeToAllOptions,
    created: Subscription,
    states: Seq<SubscriptionState>,
    inputs: Seq<SubscriptionInput>,
    steps: Seq<SubscriptionStep>,
    now: &Subscription,
    r: streams::ReadReq,
)
    requires
        call_ensures(subscribe_to_all, (settings, options), created),
        is_run(states, inputs, steps),
        states[0] == created@,
        states.last() == now@,
        call_ensures(Subscription::read_req, (now,), r),
    ensures
        r.options matches Some(sent) && {
            &&& sent.stream_option matches Some(streams::StreamOption::All(_))
            &&& sent.resolve_links == options.resolve_link_tos
            &&& sent.count_option == Some(streams::CountOption::Subscription)
            &&& options.filter is None ==> sent.filter_option == Some(shared::FilterOption::NoFilter)
            &&& options.filter matches Some(filter) ==> (sent.filter_option matches Some(
                shared::FilterOption::Filter(sent),
            ) && {
                &&& filter.based_on_stream ==> (sent.filter matches Some(
                    shared::Filter::StreamIdentifier(expression),
                ) && holds_filter(expression, filter))
                &&& !filter.based_on_stream ==> (sent.filter matches Some(
                    shared::Filter::EventType(expression),
                ) && holds_filter(expression, filter))
                &&& filter.max matches Some(max) ==> sent.window == Some(
                    shared::FilterWindow::Max(max),
                )
                &&& filter.max is None ==> sent.window == Some(shared::FilterWindow::Count)
            })
        },
{
    law_subscription_keeps_its_filter(states, inputs, steps);
    law_request_asks_for_all_of_it(now, r);
    if options.filter is Some {
        lemma_filter(created@.options.filter_option->0->Filter_0, options.filter->0);
    }
}

/// A subscription tells what it is: its metadata, which attempt this is, how many there are, and
/// whether it connects anew.
pub proof fn law_subscription_tells_what_it_is(
    subscription: &Subscription,
    metadata: &MetadataMap,
    attempts: usize,
    limit: usize,
    retry_enabled: bool,
)
    requires
        call_ensures(Subscription::metadata, (subscription,), metadata),
        call_ensures(Subscription::attempts, (subscription,), attempts),
        call_ensures(Subscription::limit, (subscription,), limit),
        call_ensures(Subscription::retry_enabled, (subscription,), retry_enabled),
    ensures
        metadata_entries(*metadata) == subscription@.metadata,
        attempts == subscription@.attempts,
        limit == subscription@.limit,
        retry_enabled == subscription@.retry_enabled,
{
}

/// The caller of a subscription to events alone gets each event as it was given, and nothing else.
pub proof fn law_subscriber_gets_events(
    subscription: &Subscription,
    event: SubscriptionEvent,
    r: Option<ResolvedEvent>,
)
    requires
        call_ensures(Subscription::next, (subscription, event), r),
    ensures
        event matches SubscriptionEvent::EventAppeared(appeared) ==> r == Some(appeared),
        r is Some ==> event is EventAppeared,
{
}

} // verus!
