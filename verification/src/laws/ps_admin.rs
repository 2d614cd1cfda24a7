//! What looking after persistent subscriptions is for.
use crate::commands::position::parse_stream_position;
use crate::commands::ps_admin::{
    check_starts, get_persistent_subscription_info, get_persistent_subscription_info_result,
    internal_list_persistent_subscriptions, is_first_unreadable, list_all_persistent_subscriptions,
    list_persistent_subscriptions_for_stream, list_persistent_subscriptions_result,
    replay_parked_messages, restart_persistent_subscription_subsystem, starts_are_readable, Route,
};
use crate::commands::ps_info::{
    check_start, StreamKind, StreamPositionTypeSelector,
};
use crate::laws::persistent::names;
use crate::laws::ps_info::{is_connection_of, is_description_of, lemma_connection};
use crate::options::{
    GetPersistentSubscriptionInfoOptions, ListPersistentSubscriptionsOptions,
    ReplayParkedMessagesOptions, RestartPersistentSubscriptionSubsystem,
};
use crate::request::{metadata_entries, new_request, Request};
use crate::settings::ClientSettings;
use crate::types::{
    Error, Features, PersistentSubscriptionInfo, RevisionOrPosition, StreamPosition,
};
use crate::wire::persistent;
use vstd::prelude::*;

verus! {

/// All persistent subscriptions are listed by a call where the server has one, and over HTTP
/// otherwise.
pub proof fn law_all_are_listed(
    settings: &ClientSettings,
    features: Features,
    options: &ListPersistentSubscriptionsOptions,
    r: Route<persistent::ListReq>,
    option: persistent::ListOption,
    listed: Request<persistent::ListReq>,
    any: Request<()>,
)
    requires
        call_ensures(list_all_persistent_subscriptions, (settings, features, options), r),
        call_ensures(
            internal_list_persistent_subscriptions,
            (settings, options, option),
            listed,
        ),
        call_ensures(
            new_request::<(), ListPersistentSubscriptionsOptions>,
            (settings, options, ()),
            any,
        ),
    ensures
        r is Http == !features.persistent_subscription_management,
        r matches Route::Grpc(request) ==> {
            &&& metadata_entries(request.metadata) == metadata_entries(any.metadata)
            &&& request.message.options matches Some(sent) && sent.list_option == Some(
                persistent::ListOption::ListAllSubscriptions,
            )
        },
        metadata_entries(listed.metadata) == metadata_entries(any.metadata),
        listed.message.options matches Some(sent) && sent.list_option == Some(option),
{
}

/// Whether a command for a stream goes the way that the server has: a call, or HTTP, or none where it
/// is for `$all` and the server does not know subscriptions to it.
pub open spec fn goes_its_way<Message>(
    r: Result<Route<Message>, Error>,
    features: Features,
    to_all: bool,
) -> bool {
    &&& features.persistent_subscription_management ==> (r matches Ok(Route::Grpc(_)))
    &&& !features.persistent_subscription_management && (!to_all
        || features.persistent_subscription_to_all) ==> (r matches Ok(Route::Http))
    &&& !features.persistent_subscription_management && to_all
        && !features.persistent_subscription_to_all ==> (r matches Err(error) && error
        == Error::UnsupportedFeature)
}

/// The persistent subscriptions to a stream are listed by the way that the server has, for just that
/// stream.
pub proof fn law_those_of_a_stream_are_listed<StreamName: StreamKind>(
    settings: &ClientSettings,
    features: Features,
    stream_name: &StreamName,
    options: &ListPersistentSubscriptionsOptions,
    r: Result<Route<persistent::ListReq>, Error>,
    any: Request<()>,
    to_all: bool,
    name: &str,
)
    requires
        call_ensures(
            list_persistent_subscriptions_for_stream::<StreamName>,
            (settings, features, stream_name, options),
            r,
        ),
        call_ensures(
            new_request::<(), ListPersistentSubscriptionsOptions>,
            (settings, options, ()),
            any,
        ),
        call_ensures(StreamName::is_all, (stream_name,), to_all),
        call_ensures(StreamName::name, (stream_name,), name),
    ensures
        goes_its_way(r, features, to_all),
        r matches Ok(Route::Grpc(request)) ==> {
            &&& metadata_entries(request.metadata) == metadata_entries(any.metadata)
            &&& request.message.options matches Some(sent) && (sent.list_option matches Some(
                persistent::ListOption::ListForStream(option),
            ) && names(Some(option), to_all, name@))
        },
{
}

/// The parked messages of a group are replayed by the way that the server has, up to as many as were
/// asked for, or all of them.
pub proof fn law_parked_messages_are_replayed<StreamName: StreamKind>(
    settings: &ClientSettings,
    features: Features,
    stream_name: &StreamName,
    group: &str,
    options: &ReplayParkedMessagesOptions,
    r: Result<Route<persistent::ReplayParkedReq>, Error>,
    any: Request<()>,
    to_all: bool,
    name: &str,
)
    requires
        call_ensures(
            replay_parked_messages::<StreamName>,
            (settings, features, stream_name, group, options),
            r,
        ),
        call_ensures(
            new_request::<(), ReplayParkedMessagesOptions>,
            (settings, options, ()),
            any,
        ),
        call_ensures(StreamName::is_all, (stream_name,), to_all),
        call_ensures(StreamName::name, (stream_name,), name),
    ensures
        goes_its_way(r, features, to_all),
        r matches Ok(Route::Grpc(request)) ==> {
            &&& metadata_entries(request.metadata) == metadata_entries(any.metadata)
            &&& request.message.options matches Some(sent) && {
                &&& sent.group_name@ == group@
                &&& names(sent.stream_option, to_all, name@)
                &&& options.stop_at is None ==> sent.stop_at_option == Some(
                    persistent::StopAtOption::NoLimit,
                )
                &&& options.stop_at matches Some(stop_at) ==> (sent.stop_at_option matches Some(
                    persistent::StopAtOption::StopAt(sent),
                ) && sent == stop_at as i64)
            }
        },
{
}

/// A group is described by the way that the server has.
pub proof fn law_group_is_described<StreamName: StreamKind>(
    settings: &ClientSettings,
    features: Features,
    stream_name: &StreamName,
    group: &str,
    options: &GetPersistentSubscriptionInfoOptions,
    r: Result<Route<persistent::GetInfoReq>, Error>,
    any: Request<()>,
    to_all: bool,
    name: &str,
)
    requires
        call_ensures(
            get_persistent_subscription_info::<StreamName>,
            (settings, features, stream_name, group, options),
            r,
        ),
        call_ensures(
            new_request::<(), GetPersistentSubscriptionInfoOptions>,
            (settings, options, ()),
            any,
        ),
        call_ensures(StreamName::is_all, (stream_name,), to_all),
        call_ensures(StreamName::name, (stream_name,), name),
    ensures
        goes_its_way(r, features, to_all),
        r matches Ok(Route::Grpc(request)) ==> {
            &&& metadata_entries(request.metadata) == metadata_entries(any.metadata)
            &&& request.message.options matches Some(sent) && sent.group_name@ == group@ && names(
                sent.stream_option,
                to_all,
                name@,
            )
        },
{
}

/// The subsystem is restarted by a call where the server has one, and over HTTP otherwise.
pub proof fn law_subsystem_is_restarted(
    settings: &ClientSettings,
    features: Features,
    options: &RestartPersistentSubscriptionSubsystem,
    r: Route<()>,
    any: Request<()>,
)
    requires
        call_ensures(restart_persistent_subscription_subsystem, (settings, features, options), r),
        call_ensures(
            new_request::<(), RestartPersistentSubscriptionSubsystem>,
            (settings, options, ()),
            any,
        ),
    ensures
        r is Http == !features.persistent_subscription_management,
        r matches Route::Grpc(request) ==> metadata_entries(request.metadata) == metadata_entries(
            any.metadata,
        ),
{
}

/// There is a description just where the server has one, part for part, with a starting place that can
/// be read.
pub proof fn law_missing_descriptions<Selector: StreamPositionTypeSelector>(
    selector: &Selector,
    resp: persistent::GetInfoResp,
    r: Result<PersistentSubscriptionInfo<Selector::Value>, Error>,
    text: &str,
    start: Result<StreamPosition<RevisionOrPosition>, Error>,
)
    requires
        call_ensures(
            get_persistent_subscription_info_result::<Selector>,
            (selector, resp),
            r,
        ),
        resp.subscription_info matches Some(info) ==> text@ == info.start_from@,
        call_ensures(parse_stream_position, (text,), start),
    ensures
        resp.subscription_info is None ==> r
            == Err::<PersistentSubscriptionInfo<Selector::Value>, Error>(Error::ResourceNotFound),
        resp.subscription_info matches Some(info) ==> {
            &&& r is Ok == start is Ok
            &&& r matches Ok(read) ==> is_description_of(read, info)
            &&& r matches Err(error) ==> (error matches Error::InternalParsingError(message)
                && message@ == "Can't parse stream position: "@ + info.start_from@)
        },
{
    if r is Ok {
        lemma_connections(r->Ok_0, resp.subscription_info->0);
    }
}

proof fn lemma_connections<A>(
    read: PersistentSubscriptionInfo<A>,
    told: persistent::SubscriptionInfo,
)
    requires
        read.connections@.len() == told.connections@.len(),
        forall|i: int|
            0 <= i < read.connections@.len() ==> crate::commands::ps_info::is_connection(
                #[trigger] read.connections@[i],
                told.connections@[i],
            ),
    ensures
        forall|i: int|
            0 <= i < told.connections@.len() ==> is_connection_of(
                #[trigger] read.connections@[i],
                told.connections@[i],
            ),
{
    assert forall|i: int| 0 <= i < told.connections@.len() implies is_connection_of(
        #[trigger] read.connections@[i],
        told.connections@[i],
    ) by {
        lemma_connection(read.connections@[i], told.connections@[i]);
    }
}

/// A list has each description of the answer, part for part and in turn. It is an error where a
/// starting place cannot be read, the first such place.
pub proof fn law_list_has_each_description<Selector: StreamPositionTypeSelector>(
    selector: &Selector,
    resp: persistent::ListResp,
    r: Result<Vec<PersistentSubscriptionInfo<Selector::Value>>, Error>,
    i: int,
    text: &str,
    start: Result<StreamPosition<RevisionOrPosition>, Error>,
)
    requires
        call_ensures(list_persistent_subscriptions_result::<Selector>, (selector, resp), r),
        0 <= i < resp.subscriptions@.len(),
        text@ == resp.subscriptions@[i].start_from@,
        call_ensures(parse_stream_position, (text,), start),
    ensures
        r matches Ok(read) ==> {
            &&& read@.len() == resp.subscriptions@.len()
            &&& is_description_of(read@[i], resp.subscriptions@[i])
            &&& start is Ok
            &&& start matches Ok(StreamPosition::Start) ==> read@[i].settings->0.start_from is Start
            &&& start matches Ok(StreamPosition::End) ==> read@[i].settings->0.start_from is End
            &&& start matches Ok(StreamPosition::Position(place)) ==> read@[i].settings->0.start_from
                == StreamPosition::Position(selector.selected(place))
        },
        start is Err ==> r is Err,
        r matches Err(error) ==> (error matches Error::InternalParsingError(message) && exists|j: int|
            #[trigger] is_first_unreadable(resp.subscriptions@, j) && message@
                == "Can't parse stream position: "@ + resp.subscriptions@[j].start_from@),
{
    if r is Ok {
        let read = r->Ok_0;
        assert(starts_are_readable(resp.subscriptions@, resp.subscriptions@.len() as int));
        assert(crate::commands::ps_info::is_info(
            read@[i],
            resp.subscriptions@[i],
            crate::commands::ps_info::selected_start(
                *selector,
                crate::commands::position::text_start(resp.subscriptions@[i].start_from@)->0,
            ),
        ));
        lemma_connections(read@[i], resp.subscriptions@[i]);
    }
}

/// The first starting place that cannot be read is one that cannot, with none before it.
pub proof fn law_first_unreadable_start(
    subscriptions: Seq<persistent::SubscriptionInfo>,
    first: int,
    i: int,
    text: &str,
    start: Result<StreamPosition<RevisionOrPosition>, Error>,
)
    requires
        is_first_unreadable(subscriptions, first),
        0 <= i <= first,
        text@ == subscriptions[i].start_from@,
        call_ensures(parse_stream_position, (text,), start),
    ensures
        start is Ok == (i < first),
{
}

/// The starting places of a list fit their stream where each of them does, and it takes one that does
/// not, behind places that can be read, for them not to.
pub proof fn law_starts_of_a_list_fit<Selector: StreamPositionTypeSelector>(
    selector: &Selector,
    resp: &persistent::ListResp,
    r: bool,
    i: int,
    text: &str,
    fits: bool,
)
    requires
        call_ensures(check_starts::<Selector>, (selector, resp), r),
        0 <= i < resp.subscriptions@.len(),
        text@ == resp.subscriptions@[i].start_from@,
        call_ensures(check_start::<Selector>, (selector, text), fits),
    ensures
        r && starts_are_readable(resp.subscriptions@, i) ==> fits,
        !r ==> exists|j: int|
            0 <= j < resp.subscriptions@.len() && starts_are_readable(resp.subscriptions@, j)
                && !crate::commands::ps_info::start_fits(
                *selector,
                (#[trigger] resp.subscriptions@[j]).start_from@,
            ),
{
}

/// Starting places can be read up to an end just where each before it can.
pub proof fn law_readable_starts(
    subscriptions: Seq<persistent::SubscriptionInfo>,
    end: int,
    i: int,
    text: &str,
    start: Result<StreamPosition<RevisionOrPosition>, Error>,
)
    requires
        0 <= end < subscriptions.len(),
        0 <= i <= end,
        text@ == subscriptions[i].start_from@,
        call_ensures(parse_stream_position, (text,), start),
        starts_are_readable(subscriptions, end),
    ensures
        i < end ==> start is Ok,
        starts_are_readable(subscriptions, 0),
        i == end && start is Ok ==> starts_are_readable(subscriptions, end + 1),
{
}

} // verus!
