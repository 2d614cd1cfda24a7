//! What persistent subscriptions are for.
use crate::commands::event::{
    check_persistent_event, convert_persistent_proto_read_event, raw_uuid_to_uuid,
};
use crate::commands::persistent::{
    check_supported, create_persistent_subscription, delete_persistent_subscription,
    subscribe_to_persistent_subscription, update_persistent_subscription, PersistentInput,
    PersistentStep, PersistentSubscription,
};
use crate::commands::ps_settings::{convert_settings_create, convert_settings_update, PsSettings};
use crate::ids::Uuid;
use crate::laws::event::is_resolution_of;
use crate::laws::streams::{filters, lemma_filter, starts_at_position, starts_at_revision};
use crate::options::{
    DeletePersistentSubscriptionOptions, PersistentSubscriptionOptions,
    PersistentSubscriptionToAllOptions, SubscribeToPersistentSubscriptionOptions,
};
use crate::request::{metadata_entries, new_request, Request};
use crate::settings::ClientSettings;
use crate::types::{
    Error, Features, NakAction, PersistentSubscriptionEvent, PersistentSubscriptionSettings,
    ResolvedEvent, SystemConsumerStrategy,
};
use crate::wire::{persistent, shared};
use vstd::prelude::*;
use vstd::utf8::encode_utf8;

verus! {

/// Whether released servers know a strategy.
pub open spec fn is_released(strategy: SystemConsumerStrategy) -> bool {
    strategy is DispatchToSingle || strategy is RoundRobin || strategy is Pinned
}

/// A persistent subscription to a regular stream is created with its stream, its group and each of its
/// settings, unless no released server knows its strategy.
pub proof fn law_subscription_is_created(
    client: &ClientSettings,
    features: Features,
    stream: &str,
    group: &str,
    options: &PersistentSubscriptionOptions,
    r: Result<Request<persistent::CreateReq>, Error>,
    any: Request<()>,
    supported: bool,
)
    requires
        call_ensures(
            create_persistent_subscription::<PersistentSubscriptionOptions>,
            (client, features, stream, group, options),
            r,
        ),
        call_ensures(new_request::<(), PersistentSubscriptionOptions>, (client, options, ()), any),
        call_ensures(
            check_supported::<PersistentSubscriptionOptions>,
            (options, features),
            supported,
        ),
    ensures
        r is Ok == is_released(options.setts.consumer_strategy_name),
        supported == r is Ok,
        r matches Err(error) ==> error == Error::UnsupportedFeature,
        r matches Ok(request) ==> {
            &&& metadata_entries(request.metadata) == metadata_entries(any.metadata)
            &&& request.message.options matches Some(sent) && {
                &&& sent.group_name@ == group@
                &&& sent.stream_identifier matches Some(identifier) && identifier.stream_name@
                    == encode_utf8(stream@)
                &&& sent.stream_option matches Some(persistent::CreateStreamOption::Stream(of)) && {
                    &&& of.stream_identifier matches Some(identifier) && identifier.stream_name@
                        == encode_utf8(stream@)
                    &&& starts_at_revision(options.setts.start_from, of.revision_option)
                }
                &&& sent.settings matches Some(created) && {
                    &&& created.resolve_links == options.setts.resolve_link_tos
                    &&& created.extra_statistics == options.setts.extra_statistics
                    &&& created.max_retry_count == options.setts.max_retry_count
                    &&& created.min_checkpoint_count == options.setts.checkpoint_lower_bound
                    &&& created.max_checkpoint_count == options.setts.checkpoint_upper_bound
                    &&& created.max_subscriber_count == options.setts.max_subscriber_count
                    &&& created.live_buffer_size == options.setts.live_buffer_size
                    &&& created.read_batch_size == options.setts.read_batch_size
                    &&& created.history_buffer_size == options.setts.history_buffer_size
                    &&& forall|settings: Result<persistent::CreateSettings, Error>| #[trigger]
                        call_ensures(
                            convert_settings_create::<u64>,
                            (&options.setts,),
                            settings,
                        ) ==> (settings matches Ok(given) && {
                            &&& created.revision == given.revision
                            &&& created.message_timeout_ms == given.message_timeout_ms
                            &&& created.checkpoint_after_ms == given.checkpoint_after_ms
                            &&& created.named_consumer_strategy == given.named_consumer_strategy
                            &&& created.consumer_strategy@ == given.consumer_strategy@
                        })
                }
            }
        },
{
}

/// A persistent subscription to `$all` is created with its filter, its group and each of its settings,
/// where the server knows such subscriptions and released servers know its strategy.
pub proof fn law_subscription_to_all_is_created(
    client: &ClientSettings,
    features: Features,
    stream: &str,
    group: &str,
    options: &PersistentSubscriptionToAllOptions,
    r: Result<Request<persistent::CreateReq>, Error>,
    any: Request<()>,
    supported: bool,
)
    requires
        call_ensures(
            create_persistent_subscription::<PersistentSubscriptionToAllOptions>,
            (client, features, stream, group, options),
            r,
        ),
        call_ensures(
            new_request::<(), PersistentSubscriptionToAllOptions>,
            (client, options, ()),
            any,
        ),
        call_ensures(
            check_supported::<PersistentSubscriptionToAllOptions>,
            (options, features),
            supported,
        ),
    ensures
        r is Ok == (is_released(options.setts.consumer_strategy_name)
            && features.persistent_subscription_to_all),
        supported == r is Ok,
        r matches Err(error) ==> error == Error::UnsupportedFeature,
        r matches Ok(request) ==> {
            &&& metadata_entries(request.metadata) == metadata_entries(any.metadata)
            &&& request.message.options matches Some(sent) && {
                &&& sent.group_name@ == group@
                &&& sent.stream_option matches Some(persistent::CreateStreamOption::All(of)) && {
                    &&& starts_at_position(options.setts.start_from, of.all_option)
                    &&& options.filter is None ==> of.filter_option == Some(
                        shared::FilterOption::NoFilter,
                    )
                    &&& options.filter matches Some(filter) ==> (of.filter_option matches Some(
                        shared::FilterOption::Filter(of),
                    ) && filters(of, filter))
                }
                &&& sent.settings matches Some(created) && {
                    &&& created.resolve_links == options.setts.resolve_link_tos
                    &&& created.revision == 0
                    &&& created.extra_statistics == options.setts.extra_statistics
                    &&& created.max_retry_count == options.setts.max_retry_count
                    &&& created.min_checkpoint_count == options.setts.checkpoint_lower_bound
                    &&& created.max_checkpoint_count == options.setts.checkpoint_upper_bound
                    &&& created.max_subscriber_count == options.setts.max_subscriber_count
                    &&& created.live_buffer_size == options.setts.live_buffer_size
                    &&& created.read_batch_size == options.setts.read_batch_size
                    &&& created.history_buffer_size == options.setts.history_buffer_size
                }
            }
        },
{
    if r is Ok && options.filter is Some {
        let sent = r->Ok_0.message.options->0.stream_option->0->All_0;
        lemma_filter(sent.filter_option->0->Filter_0, options.filter->0);
    }
}

/// A persistent subscription is updated to each of the settings that were given, in the stream and the
/// group that were named, under the same conditions as it is created.
pub proof fn law_subscription_is_updated<Opts: PsSettings>(
    client: &ClientSettings,
    features: Features,
    stream: &str,
    group: &str,
    options: &Opts,
    r: Result<Request<persistent::UpdateReq>, Error>,
    created: Result<Request<persistent::CreateReq>, Error>,
    given: &PersistentSubscriptionSettings<Opts::Pos>,
    settings: Result<persistent::UpdateSettings, Error>,
)
    requires
        call_ensures(
            update_persistent_subscription::<Opts>,
            (client, features, stream, group, options),
            r,
        ),
        call_ensures(
            create_persistent_subscription::<Opts>,
            (client, features, stream, group, options),
            created,
        ),
        call_ensures(Opts::settings, (options,), given),
        call_ensures(convert_settings_update::<Opts::Pos>, (given,), settings),
    ensures
        r is Ok == created is Ok,
        r matches Err(error) ==> error == Error::UnsupportedFeature,
        r matches Ok(request) ==> {
            &&& metadata_entries(request.metadata) == metadata_entries(created->Ok_0.metadata)
            &&& request.message.options matches Some(sent) && {
                &&& sent.group_name@ == group@
                &&& sent.stream_identifier matches Some(identifier) && identifier.stream_name@
                    == encode_utf8(stream@)
                &&& sent.settings matches Some(sent) && settings
                    == Ok::<persistent::UpdateSettings, Error>(sent)
                &&& sent.stream_option matches Some(option) && options.is_update_option(
                    option,
                    encode_utf8(stream@),
                )
            }
        },
{
}

/// An updated persistent subscription is to the stream that was named, or to `$all`, from where its
/// settings say.
pub proof fn law_updates_are_to_the_stream(
    client: &ClientSettings,
    features: Features,
    stream: &str,
    group: &str,
    options: &PersistentSubscriptionOptions,
    r: Result<Request<persistent::UpdateReq>, Error>,
    all_options: &PersistentSubscriptionToAllOptions,
    all: Result<Request<persistent::UpdateReq>, Error>,
)
    requires
        call_ensures(
            update_persistent_subscription::<PersistentSubscriptionOptions>,
            (client, features, stream, group, options),
            r,
        ),
        call_ensures(
            update_persistent_subscription::<PersistentSubscriptionToAllOptions>,
            (client, features, stream, group, all_options),
            all,
        ),
    ensures
        r is Ok == is_released(options.setts.consumer_strategy_name),
        all is Ok == (is_released(all_options.setts.consumer_strategy_name)
            && features.persistent_subscription_to_all),
        r is Ok ==> (r->Ok_0.message.options->0.stream_option matches Some(
            persistent::UpdateStreamOption::Stream(of),
        ) && {
            &&& of.stream_identifier matches Some(identifier) && identifier.stream_name@
                == encode_utf8(stream@)
            &&& starts_at_revision(options.setts.start_from, of.revision_option)
        }),
        all is Ok ==> (all->Ok_0.message.options->0.stream_option matches Some(
            persistent::UpdateStreamOption::All(of),
        ) && starts_at_position(all_options.setts.start_from, of.all_option)),
{
}

/// Whether what is named is `$all`, or else the stream.
pub open spec fn names(
    option: Option<persistent::StreamOption>,
    to_all: bool,
    stream: Seq<char>,
) -> bool {
    &&& to_all ==> option == Some(persistent::StreamOption::All)
    &&& !to_all ==> (option matches Some(persistent::StreamOption::StreamIdentifier(identifier))
        && identifier.stream_name@ == encode_utf8(stream))
}

/// A persistent subscription is deleted by its stream and its group, unless it is to `$all` and the
/// server does not know such subscriptions.
pub proof fn law_subscription_is_deleted(
    client: &ClientSettings,
    features: Features,
    stream: &str,
    group: &str,
    options: &DeletePersistentSubscriptionOptions,
    to_all: bool,
    r: Result<Request<persistent::DeleteReq>, Error>,
    any: Request<()>,
)
    requires
        call_ensures(
            delete_persistent_subscription,
            (client, features, stream, group, options, to_all),
            r,
        ),
        call_ensures(
            new_request::<(), DeletePersistentSubscriptionOptions>,
            (client, options, ()),
            any,
        ),
    ensures
        r is Ok == (!to_all || features.persistent_subscription_to_all),
        r matches Err(error) ==> error == Error::UnsupportedFeature,
        r matches Ok(request) ==> {
            &&& metadata_entries(request.metadata) == metadata_entries(any.metadata)
            &&& request.message.options matches Some(sent) && sent.group_name@ == group@ && names(
                sent.stream_option,
                to_all,
                stream@,
            )
        },
{
}

/// A persistent subscription is consumed by its stream and its group, with as many events at a time as
/// were asked for, unless it is to `$all` and the server does not know such subscriptions.
pub proof fn law_subscription_is_consumed(
    client: &ClientSettings,
    features: Features,
    stream: &str,
    group: &str,
    options: &SubscribeToPersistentSubscriptionOptions,
    to_all: bool,
    r: Result<Request<persistent::ReadReq>, Error>,
    any: Request<()>,
)
    requires
        call_ensures(
            subscribe_to_persistent_subscription,
            (client, features, stream, group, options, to_all),
            r,
        ),
        call_ensures(
            new_request::<(), SubscribeToPersistentSubscriptionOptions>,
            (client, options, ()),
            any,
        ),
    ensures
        r is Ok == (!to_all || features.persistent_subscription_to_all),
        r matches Err(error) ==> error == Error::UnsupportedFeature,
        r matches Ok(request) ==> {
            &&& metadata_entries(request.metadata) == metadata_entries(any.metadata)
            &&& request.message.content matches Some(persistent::ReadReqContent::Options(sent)) && {
                &&& sent.group_name@ == group@
                &&& names(sent.stream_option, to_all, stream@)
                &&& sent.buffer_size == options.buffer_size as i32
                &&& sent.uuid_option == Some(crate::wire::streams::UuidOption::String)
            }
        },
{
}

/// A consumer gets each event with its link and its count, and the confirmation. It is told that the
/// subscription was dropped just where the server says so, with the names of both, and any other
/// failure is reported for its channel.
pub proof fn law_consumer_gets_what_it_hears(
    consumer: &PersistentSubscription,
    input: PersistentInput,
    r: PersistentStep,
)
    requires
        call_ensures(PersistentSubscription::next_subscription_event, (consumer, input), r),
    ensures
        input matches PersistentInput::Received(None) ==> r is Malformed,
        input matches PersistentInput::Received(Some(resp)) ==> {
            &&& resp.content is None ==> r is Malformed
            &&& resp.content matches Some(
                persistent::ReadRespContent::SubscriptionConfirmation { subscription_id },
            ) ==> r == PersistentStep::Return(
                Ok(PersistentSubscriptionEvent::Confirmed(subscription_id)),
            )
            &&& resp.content matches Some(persistent::ReadRespContent::Event(event)) ==> {
                &&& forall|readable: bool| #[trigger]
                    call_ensures(check_persistent_event, (&event,), readable) ==> (r is Malformed
                        == !readable)
                &&& !(r is Malformed) ==> (r matches PersistentStep::Return(
                    Ok(PersistentSubscriptionEvent::EventAppeared { retry_count, event: read }),
                ) && {
                    &&& is_resolution_of(read, event.event, event.link, event.position)
                    &&& event.count matches Some(persistent::Count::RetryCount(count))
                        ==> retry_count == count as usize
                    &&& !(event.count matches Some(persistent::Count::RetryCount(_)))
                        ==> retry_count == 0
                })
            }
        },
        input matches PersistentInput::Failed { metadata, error } ==> {
            let entries = metadata_entries(metadata);
            let dropped = entries.contains_key("exception"@) && entries["exception"@].len() > 0
                && entries["exception"@][0] == encode_utf8("persistent-subscription-dropped"@);
            &&& dropped ==> (r matches PersistentStep::Return(Err(Error::IllegalStateError(text)))
                && text@ == "Persistent subscription on '"@ + consumer.stream_id@ + "' and group '"@
                + consumer.group_name@ + "' has dropped"@)
            &&& !dropped ==> r == (PersistentStep::Report {
                channel_id: consumer.channel_id,
                error,
            })
        },
{
}

/// The caller of a consumer of events alone gets each event as it was handed out, and nothing else.
pub proof fn law_consumer_of_events(
    consumer: &PersistentSubscription,
    event: PersistentSubscriptionEvent,
    r: Option<ResolvedEvent>,
)
    requires
        call_ensures(PersistentSubscription::next, (consumer, event), r),
    ensures
        event matches PersistentSubscriptionEvent::EventAppeared { event: appeared, .. } ==> r
            == Some(appeared),
        event is Confirmed ==> r is None,
{
}

/// Whether identifiers on the wire are read as those given, in turn.
pub open spec fn are_read_as(sent: Seq<shared::Uuid>, ids: Seq<Uuid>) -> bool {
    &&& sent.len() == ids.len()
    &&& forall|i: int, read: Uuid|
        0 <= i < ids.len() && #[trigger] call_ensures(raw_uuid_to_uuid, (sent[i],), read)
            ==> read@ == ids[i]@
}

/// Acknowledged are just the events that were named, in turn.
pub proof fn law_acknowledged_are_those_named(
    consumer: &PersistentSubscription,
    ids: Vec<Uuid>,
    r: persistent::ReadReq,
)
    requires
        call_ensures(PersistentSubscription::ack_ids, (consumer, ids), r),
    ensures
        r.content matches Some(persistent::ReadReqContent::Ack(ack)) && ack.id@.len() == 0
            && are_read_as(ack.ids@, ids@),
{
}

/// Refused are just the events that were named, in turn, with the number of the action and the reason
/// that were given.
pub proof fn law_refused_are_those_named(
    consumer: &PersistentSubscription,
    ids: Vec<Uuid>,
    action: NakAction,
    reason: &str,
    r: persistent::ReadReq,
)
    requires
        call_ensures(PersistentSubscription::nack_ids, (consumer, ids, action, reason), r),
    ensures
        r.content matches Some(persistent::ReadReqContent::Nack(nack)) && {
            &&& nack.id@.len() == 0
            &&& are_read_as(nack.ids@, ids@)
            &&& nack.reason@ == reason@
            &&& action == NakAction::Unknown ==> nack.action == 0
            &&& action == NakAction::Park ==> nack.action == 1
            &&& action == NakAction::Retry ==> nack.action == 2
            &&& action == NakAction::Skip ==> nack.action == 3
            &&& action == NakAction::Stop ==> nack.action == 4
        },
{
}

/// The identifier that is acknowledged, or refused, for an event that a subscription handed out is that
/// of the link of its message, where it has one, and otherwise that of its event.
pub proof fn law_the_link_is_acknowledged(
    event: persistent::ReadEvent,
    appeared: PersistentSubscriptionEvent,
    consumer: &PersistentSubscription,
    acknowledged: persistent::ReadReq,
    action: NakAction,
    reason: &str,
    refused: persistent::ReadReq,
    id: Uuid,
    read: Uuid,
)
    requires
        call_ensures(convert_persistent_proto_read_event, (event,), appeared),
        event.link is Some || event.event is Some,
        call_ensures(
            PersistentSubscription::ack,
            (consumer, appeared->EventAppeared_event),
            acknowledged,
        ),
        call_ensures(
            PersistentSubscription::nack,
            (consumer, appeared->EventAppeared_event, action, reason),
            refused,
        ),
        event.link matches Some(link) ==> call_ensures(raw_uuid_to_uuid, (link.id->0,), id),
        event.link is None ==> call_ensures(raw_uuid_to_uuid, (event.event->0.id->0,), id),
    ensures
        acknowledged.content matches Some(persistent::ReadReqContent::Ack(ack)) && {
            &&& ack.id@.len() == 0
            &&& ack.ids@.len() == 1
            &&& call_ensures(raw_uuid_to_uuid, (ack.ids@[0],), read) ==> read@ == id@
        },
        refused.content matches Some(persistent::ReadReqContent::Nack(nack)) && {
            &&& nack.ids@.len() == 1
            &&& call_ensures(raw_uuid_to_uuid, (nack.ids@[0],), read) ==> read@ == id@
            &&& nack.reason@ == reason@
        },
{
}

/// The caller is told of an acknowledgement that was sent, and of one that the server no longer wants.
pub proof fn law_ignored_acknowledgements(
    consumer: &PersistentSubscription,
    sent: bool,
    r: Result<(), Error>,
)
    requires
        call_ensures(PersistentSubscription::ack_result, (consumer, sent), r),
    ensures
        r is Ok == sent,
        r matches Err(error) ==> (error matches Error::IllegalStateError(text) && text@
            == "Ack was ignored as the transaction no longer exists"@),
{
}

} // verus!
