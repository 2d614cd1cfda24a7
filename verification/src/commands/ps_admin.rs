//! Looking after persistent subscriptions.
use crate::commands::persistent::{is_stream_option, knows_stream, to_stream_option};
use crate::commands::position::{parse_stream_position, text_start};
use crate::commands::ps_info::{
    check_start, info_result, is_info, selected_start, start_error, start_fits,
    subscription_info_from_wire, StreamKind, StreamPositionTypeSelector,
};
use crate::options::{
    GetPersistentSubscriptionInfoOptions, ListPersistentSubscriptionsOptions, Options,
    ReplayParkedMessagesOptions, RestartPersistentSubscriptionSubsystem,
};
use crate::request::{can_be_sent, command_metadata, metadata_entries, new_request, Request};
use crate::settings::ClientSettings;
use crate::types::{Error, Features, PersistentSubscriptionInfo};
use crate::wire::persistent;
use vstd::prelude::*;

verus! {

/// How a command goes to the server: over HTTP where the server does not have it as a call.
pub enum Route<Message> {
    Http,
    Grpc(Request<Message>),
}

/// Whether a request has the metadata of the command.
pub open spec fn has_metadata<Message, Opts: Options>(
    request: Request<Message>,
    settings: ClientSettings,
    options: Opts,
) -> bool {
    metadata_entries(request.metadata) == command_metadata(
        settings,
        options.common(),
        options.operation_kind(),
    )
}

/// Whether the server does not have the command, for the stream, in any way.
pub open spec fn is_unknown_command(to_all: bool, features: Features) -> bool {
    !features.persistent_subscription_management && !knows_stream(to_all, features)
}

/// Lists all persistent subscriptions.
pub fn list_all_persistent_subscriptions(
    settings: &ClientSettings,
    features: Features,
    op_options: &ListPersistentSubscriptionsOptions,
) -> (r: Route<persistent::ListReq>)
    requires
        features.persistent_subscription_management ==> can_be_sent(*settings, *op_options),
    ensures
        !features.persistent_subscription_management ==> r is Http,
        features.persistent_subscription_management ==> (r matches Route::Grpc(request) && {
            &&& has_metadata(request, *settings, *op_options)
            &&& request.message.options matches Some(sent) && sent.list_option == Some(
                persistent::ListOption::ListAllSubscriptions,
            )
        }),
{
    if !features.persistent_subscription_management {
        return Route::Http;
    }
    Route::Grpc(
        internal_list_persistent_subscriptions(
            settings,
            op_options,
            persistent::ListOption::ListAllSubscriptions,
        ),
    )
}

/// Lists the persistent subscriptions to a stream.
pub fn list_persistent_subscriptions_for_stream<StreamName: StreamKind>(
    settings: &ClientSettings,
    features: Features,
    stream_name: &StreamName,
    op_options: &ListPersistentSubscriptionsOptions,
) -> (r: Result<Route<persistent::ListReq>, Error>)
    requires
        features.persistent_subscription_management ==> can_be_sent(*settings, *op_options),
    ensures
        is_unknown_command(stream_name.all(), features) ==> r == Err::<
            Route<persistent::ListReq>,
            Error,
        >(Error::UnsupportedFeature),
        !is_unknown_command(stream_name.all(), features) && !features
            .persistent_subscription_management ==> (r matches Ok(route) && route is Http),
        features.persistent_subscription_management ==> (r matches Ok(Route::Grpc(request)) && {
            &&& has_metadata(request, *settings, *op_options)
            &&& request.message.options matches Some(sent) && sent.list_option matches Some(
                persistent::ListOption::ListForStream(option),
            ) && is_stream_option(Some(option), stream_name.all(), stream_name.stream_name())
        }),
{
    if !features.persistent_subscription_management {
        if stream_name.is_all() && !features.persistent_subscription_to_all {
            return Err(Error::UnsupportedFeature);
        }
        return Ok(Route::Http);
    }
    let stream_option = to_stream_option(stream_name.is_all(), stream_name.name());
    Ok(
        Route::Grpc(
            internal_list_persistent_subscriptions(
                settings,
                op_options,
                persistent::ListOption::ListForStream(stream_option),
            ),
        ),
    )
}

/// Lists persistent subscriptions.
pub fn internal_list_persistent_subscriptions(
    settings: &ClientSettings,
    op_options: &ListPersistentSubscriptionsOptions,
    list_option: persistent::ListOption,
) -> (r: Request<persistent::ListReq>)
    requires
        can_be_sent(*settings, *op_options),
    ensures
        has_metadata(r, *settings, *op_options),
        r.message.options == Some(persistent::ListOptions { list_option: Some(list_option) }),
{
    let options = persistent::ListOptions { list_option: Some(list_option) };
    new_request(settings, op_options, persistent::ListReq { options: Some(options) })
}

/// Whether the starting places of all subscriptions before the given one can be read.
pub open spec fn starts_are_readable(
    subscriptions: Seq<persistent::SubscriptionInfo>,
    end: int,
) -> bool {
    forall|i: int|
        0 <= i < end ==> text_start((#[trigger] subscriptions[i]).start_from@) is Some
}

/// Whether the starting places are of a kind that the stream has, as far as they can be read.
pub open spec fn starts_fit<Selector: StreamPositionTypeSelector>(
    selector: Selector,
    subscriptions: Seq<persistent::SubscriptionInfo>,
) -> bool {
    forall|i: int|
        0 <= i < subscriptions.len() && starts_are_readable(subscriptions, i) ==> start_fits(
            selector,
            (#[trigger] subscriptions[i]).start_from@,
        )
}

/// Tells whether the starting places are of a kind that the stream has, as far as they can be
/// read.
pub fn check_starts<Selector: StreamPositionTypeSelector>(
    selector: &Selector,
    resp: &persistent::ListResp,
) -> (r: bool)
    ensures
        r == starts_fit(*selector, resp.subscriptions@),
{
    let mut i: usize = 0;
    while i < resp.subscriptions.len()
        invariant
            i <= resp.subscriptions@.len(),
            starts_are_readable(resp.subscriptions@, i as int),
            forall|j: int|
                0 <= j < i ==> start_fits(
                    *selector,
                    (#[trigger] resp.subscriptions@[j]).start_from@,
                ),
        decreases resp.subscriptions@.len() - i,
    {
        let start_from = resp.subscriptions[i].start_from.as_str();
        if !check_start(selector, start_from) {
            assert(!start_fits(*selector, resp.subscriptions@[i as int].start_from@));
            return false;
        }
        if parse_stream_position(start_from).is_err() {
            proof {
                let unreadable = i as int;
                assert forall|j: int|
                    0 <= j < resp.subscriptions@.len() && starts_are_readable(
                        resp.subscriptions@,
                        j,
                    ) implies start_fits(
                    *selector,
                    (#[trigger] resp.subscriptions@[j]).start_from@,
                ) by {
                    if j > unreadable {
                        assert(text_start(resp.subscriptions@[unreadable].start_from@) is None);
                    }
                }
            }
            return true;
        }
        i = i + 1;
    }
    true
}

/// Whether descriptions are those that came over the wire.
pub open spec fn are_infos<Selector: StreamPositionTypeSelector>(
    selector: Selector,
    infos: Seq<PersistentSubscriptionInfo<Selector::Value>>,
    subscriptions: Seq<persistent::SubscriptionInfo>,
) -> bool {
    &&& infos.len() == subscriptions.len()
    &&& forall|i: int|
        0 <= i < infos.len() ==> is_info(
            #[trigger] infos[i],
            subscriptions[i],
            selected_start(selector, text_start(subscriptions[i].start_from@)->0),
        )
}

/// Whether the starting place of this subscription is the first that cannot be read.
pub open spec fn is_first_unreadable(
    subscriptions: Seq<persistent::SubscriptionInfo>,
    i: int,
) -> bool {
    &&& 0 <= i < subscriptions.len()
    &&& starts_are_readable(subscriptions, i)
    &&& text_start(subscriptions[i].start_from@) is None
}

/// Reads the answer to listing persistent subscriptions. The first that cannot be read is the
/// error.
pub fn list_persistent_subscriptions_result<Selector: StreamPositionTypeSelector>(
    selector: &Selector,
    resp: persistent::ListResp,
) -> (r: Result<Vec<PersistentSubscriptionInfo<Selector::Value>>, Error>)
    requires
        starts_fit(*selector, resp.subscriptions@),
    ensures
        match r {
            Ok(infos) => {
                &&& starts_are_readable(resp.subscriptions@, resp.subscriptions@.len() as int)
                &&& are_infos(*selector, infos@, resp.subscriptions@)
            },
            Err(error) => exists|i: int| #[trigger]
                is_first_unreadable(resp.subscriptions@, i) && (error matches
                    Error::InternalParsingError(message) && message@ == start_error(
                    resp.subscriptions@[i].start_from@,
                )),
        },
{
    let mut infos: Vec<PersistentSubscriptionInfo<Selector::Value>> = Vec::new();
    let ghost subscriptions = resp.subscriptions@;
    for subscription in it: resp.subscriptions
        invariant
            it.seq() == subscriptions,
            subscriptions == resp.subscriptions@,
            starts_fit(*selector, subscriptions),
            starts_are_readable(subscriptions, it.index() as int),
            infos@.len() == it.index(),
            forall|i: int|
                0 <= i < infos@.len() ==> is_info(
                    #[trigger] infos@[i],
                    subscriptions[i],
                    selected_start(*selector, text_start(subscriptions[i].start_from@)->0),
                ),
    {
        assert(subscription == subscriptions[it.index() as int]);
        match subscription_info_from_wire(selector, subscription) {
            Ok(info) => infos.push(info),
            Err(error) => {
                assert(is_first_unreadable(subscriptions, it.index() as int));
                return Err(error);
            },
        }
    }
    Ok(infos)
}

/// How many parked messages to replay, on the wire.
pub open spec fn stop_at_option(stop_at: Option<usize>) -> persistent::StopAtOption {
    match stop_at {
        Some(value) => persistent::StopAtOption::StopAt(value as i64),
        None => persistent::StopAtOption::NoLimit,
    }
}

/// Replays parked messages.
pub fn replay_parked_messages<StreamName: StreamKind>(
    settings: &ClientSettings,
    features: Features,
    stream_name: &StreamName,
    group_name: &str,
    op_options: &ReplayParkedMessagesOptions,
) -> (r: Result<Route<persistent::ReplayParkedReq>, Error>)
    requires
        features.persistent_subscription_management ==> can_be_sent(*settings, *op_options),
    ensures
        is_unknown_command(stream_name.all(), features) ==> r == Err::<
            Route<persistent::ReplayParkedReq>,
            Error,
        >(Error::UnsupportedFeature),
        !is_unknown_command(stream_name.all(), features) && !features
            .persistent_subscription_management ==> (r matches Ok(route) && route is Http),
        features.persistent_subscription_management ==> (r matches Ok(Route::Grpc(request)) && {
            &&& has_metadata(request, *settings, *op_options)
            &&& request.message.options matches Some(sent) && {
                &&& sent.group_name@ == group_name@
                &&& is_stream_option(
                    sent.stream_option,
                    stream_name.all(),
                    stream_name.stream_name(),
                )
                &&& sent.stop_at_option == Some(stop_at_option(op_options.stop_at))
            }
        }),
{
    if !features.persistent_subscription_management {
        if stream_name.is_all() && !features.persistent_subscription_to_all {
            return Err(Error::UnsupportedFeature);
        }
        return Ok(Route::Http);
    }
    let stop_at_option = match op_options.stop_at {
        Some(value) => persistent::StopAtOption::StopAt(
            #[verifier::truncate]
            (value as i64),
        ),
        None => persistent::StopAtOption::NoLimit,
    };
    let options = persistent::ReplayParkedOptions {
        group_name: group_name.to_owned(),
        stream_option: Some(to_stream_option(stream_name.is_all(), stream_name.name())),
        stop_at_option: Some(stop_at_option),
    };
    Ok(
        Route::Grpc(
            new_request(
                settings,
                op_options,
                persistent::ReplayParkedReq { options: Some(options) },
            ),
        ),
    )
}

/// Describes a persistent subscription.
pub fn get_persistent_subscription_info<StreamName: StreamKind>(
    settings: &ClientSettings,
    features: Features,
    stream_name: &StreamName,
    group_name: &str,
    op_options: &GetPersistentSubscriptionInfoOptions,
) -> (r: Result<Route<persistent::GetInfoReq>, Error>)
    requires
        features.persistent_subscription_management ==> can_be_sent(*settings, *op_options),
    ensures
        is_unknown_command(stream_name.all(), features) ==> r == Err::<
            Route<persistent::GetInfoReq>,
            Error,
        >(Error::UnsupportedFeature),
        !is_unknown_command(stream_name.all(), features) && !features
            .persistent_subscription_management ==> (r matches Ok(route) && route is Http),
        features.persistent_subscription_management ==> (r matches Ok(Route::Grpc(request)) && {
            &&& has_metadata(request, *settings, *op_options)
            &&& request.message.options matches Some(sent) && {
                &&& sent.group_name@ == group_name@
                &&& is_stream_option(
                    sent.stream_option,
                    stream_name.all(),
                    stream_name.stream_name(),
                )
            }
        }),
{
    if !features.persistent_subscription_management {
        if stream_name.is_all() && !features.persistent_subscription_to_all {
            return Err(Error::UnsupportedFeature);
        }
        return Ok(Route::Http);
    }
    let options = persistent::GetInfoOptions {
        group_name: group_name.to_owned(),
        stream_option: Some(to_stream_option(stream_name.is_all(), stream_name.name())),
    };
    Ok(
        Route::Grpc(
            new_request(settings, op_options, persistent::GetInfoReq { options: Some(options) }),
        ),
    )
}

/// Reads the description of a persistent subscription, if there is such a subscription.
pub fn get_persistent_subscription_info_result<Selector: StreamPositionTypeSelector>(
    selector: &Selector,
    resp: persistent::GetInfoResp,
) -> (r: Result<PersistentSubscriptionInfo<Selector::Value>, Error>)
    requires
        resp.subscription_info matches Some(info) ==> start_fits(*selector, info.start_from@),
    ensures
        match resp.subscription_info {
            Some(info) => info_result(*selector, info, r),
            None => r matches Err(error) && error == Error::ResourceNotFound,
        },
{
    match resp.subscription_info {
        Some(info) => subscription_info_from_wire(selector, info),
        None => Err(Error::ResourceNotFound),
    }
}

/// Restarts the persistent subscriptions of the server.
pub fn restart_persistent_subscription_subsystem(
    settings: &ClientSettings,
    features: Features,
    op_options: &RestartPersistentSubscriptionSubsystem,
) -> (r: Route<()>)
    requires
        features.persistent_subscription_management ==> can_be_sent(*settings, *op_options),
    ensures
        !features.persistent_subscription_management ==> r is Http,
        features.persistent_subscription_management ==> (r matches Route::Grpc(request)
            && has_metadata(request, *settings, *op_options)),
{
    if !features.persistent_subscription_management {
        return Route::Http;
    }
    Route::Grpc(new_request(settings, op_options, ()))
}

} // verus!
