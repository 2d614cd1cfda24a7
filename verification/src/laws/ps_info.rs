//! What descriptions of persistent subscriptions are for.
use crate::commands::position::{parse_revision_or_position, parse_stream_position};
use crate::commands::ps_info::{
    check_start, connection_from_wire, is_connection, law_last_measurement_counts, measurements,
    subscription_info_from_wire, AllStream, BothTypeOfStream, RegularStream, StreamKind,
    StreamPositionTypeSelector,
};
use crate::types::{
    Error, PersistentSubscriptionConnectionInfo, PersistentSubscriptionInfo, Position,
    RevisionOrPosition, StreamPosition, SystemConsumerStrategy,
};
use crate::wire::persistent;
use vstd::prelude::*;

verus! {

/// Whether a connection is the one that came over the wire, part for part.
pub open spec fn is_connection_of(
    read: PersistentSubscriptionConnectionInfo,
    told: persistent::ConnectionInfo,
) -> bool {
    &&& read.from == told.from
    &&& read.username == told.username
    &&& read.average_items_per_second == told.average_items_per_second
    &&& read.total_items == told.total_items as usize
    &&& read.count_since_last_measurement == told.count_since_last_measurement as usize
    &&& read.available_slots == told.available_slots as usize
    &&& read.in_flight_messages == told.in_flight_messages as usize
    &&& read.connection_name == told.connection_name
    &&& forall|i: int|
        0 <= i < told.observed_measurements@.len() && (forall|j: int|
            i < j < told.observed_measurements@.len() ==> (
            #[trigger] told.observed_measurements@[j]).key@ != told.observed_measurements@[i].key@)
            ==> {
            let measurement = #[trigger] told.observed_measurements@[i];
            &&& read.extra_statistics.0@.contains_key(measurement.key@)
            &&& read.extra_statistics.0@[measurement.key@] == measurement.value
        }
    &&& forall|key: Seq<char>| #[trigger]
        read.extra_statistics.0@.contains_key(key) ==> exists|j: int|
            0 <= j < told.observed_measurements@.len() && (
            #[trigger] told.observed_measurements@[j]).key@ == key
}

/// A connection is read part for part. Of measurements of one name, it has the last.
pub proof fn law_connection_is_read(
    conn: persistent::ConnectionInfo,
    r: PersistentSubscriptionConnectionInfo,
)
    requires
        call_ensures(connection_from_wire, (conn,), r),
    ensures
        is_connection_of(r, conn),
{
    lemma_connection(r, conn);
}

/// A connection that came over the wire has all of its parts.
pub proof fn lemma_connection(
    read: PersistentSubscriptionConnectionInfo,
    told: persistent::ConnectionInfo,
)
    requires
        is_connection(read, told),
    ensures
        is_connection_of(read, told),
{
    let observed = told.observed_measurements@;
    assert forall|i: int|
        0 <= i < observed.len() && (forall|j: int|
            i < j < observed.len() ==> (#[trigger] observed[j]).key@ != observed[i].key@) implies {
        let measurement = #[trigger] observed[i];
        &&& read.extra_statistics.0@.contains_key(measurement.key@)
        &&& read.extra_statistics.0@[measurement.key@] == measurement.value
    } by {
        law_last_measurement_counts(observed, i);
    }
    assert forall|key: Seq<char>| #[trigger]
        read.extra_statistics.0@.contains_key(key) implies exists|j: int|
        0 <= j < observed.len() && (#[trigger] observed[j]).key@ == key by {
        if observed.len() > 0 {
            law_last_measurement_counts(observed, observed.len() - 1);
            assert(measurements(observed).contains_key(key));
        }
    }
}

/// Whether a description is the one that came over the wire, part for part, but for its places.
pub open spec fn is_description_of<A>(
    read: PersistentSubscriptionInfo<A>,
    told: persistent::SubscriptionInfo,
) -> bool {
    &&& read.event_source == told.event_source
    &&& read.group_name == told.group_name
    &&& read.status == told.status
    &&& read.connections@.len() == told.connections@.len()
    &&& forall|i: int|
        0 <= i < told.connections@.len() ==> is_connection_of(
            #[trigger] read.connections@[i],
            told.connections@[i],
        )
    &&& read.settings matches Some(settings) && {
        &&& settings.resolve_link_tos == told.resolve_link_tos
        &&& settings.extra_statistics == told.extra_statistics
        &&& settings.max_retry_count == told.max_retry_count
        &&& settings.live_buffer_size == told.live_buffer_size
        &&& settings.read_batch_size == told.read_batch_size
        &&& settings.history_buffer_size == told.buffer_size
        &&& settings.checkpoint_lower_bound == told.min_check_point_count
        &&& settings.checkpoint_upper_bound == told.max_check_point_count
        &&& settings.max_subscriber_count == told.max_subscriber_count
        &&& settings.message_timeout.secs * 1_000_000_000 + settings.message_timeout.nanos == (
        told.message_timeout_milliseconds as u64) * 1_000_000
        &&& settings.checkpoint_after.secs * 1_000_000_000 + settings.checkpoint_after.nanos == (
        told.check_point_after_milliseconds as u64) * 1_000_000
        &&& settings.message_timeout.nanos < 1_000_000_000
        &&& settings.checkpoint_after.nanos < 1_000_000_000
        &&& forall|strategy: SystemConsumerStrategy| #[trigger]
            call_ensures(
                SystemConsumerStrategy::from_string,
                (told.named_consumer_strategy,),
                strategy,
            ) ==> strategy.name() == settings.consumer_strategy_name.name() && (strategy is Custom
                == settings.consumer_strategy_name is Custom)
    }
    &&& read.stats.average_per_second == told.average_per_second
    &&& read.stats.total_items == told.total_items as usize
    &&& read.stats.count_since_last_measurement == told.count_since_last_measurement as usize
    &&& read.stats.read_buffer_count == told.read_buffer_count as usize
    &&& read.stats.live_buffer_count == told.live_buffer_count as usize
    &&& read.stats.retry_buffer_count == told.retry_buffer_count as usize
    &&& read.stats.total_in_flight_messages == told.total_in_flight_messages as usize
    &&& read.stats.outstanding_messages_count == told.outstanding_messages_count as usize
    &&& read.stats.parked_message_count == told.parked_message_count as usize
}

/// Whether a place is told as a revision or as a log position, as it is.
pub open spec fn is_told(
    place: Result<RevisionOrPosition, Error>,
    revision: Option<u64>,
    position: Option<Position>,
) -> bool {
    &&& place matches Ok(RevisionOrPosition::Revision(read)) ==> revision == Some(read)
        && position is None
    &&& place matches Ok(RevisionOrPosition::Position(read)) ==> position == Some(read)
        && revision is None
    &&& place is Err ==> revision is None && position is None
}

/// A description is read part for part, for any kind of stream. It is an error just where its starting
/// place cannot be read.
pub proof fn law_description_is_read<Selector: StreamPositionTypeSelector>(
    selector: &Selector,
    info: persistent::SubscriptionInfo,
    r: Result<PersistentSubscriptionInfo<Selector::Value>, Error>,
)
    requires
        call_ensures(subscription_info_from_wire::<Selector>, (selector, info), r),
    ensures
        r matches Ok(read) ==> is_description_of(read, info),
        r matches Err(error) ==> (error matches Error::InternalParsingError(message) && message@
            == "Can't parse stream position: "@ + info.start_from@),
{
    if r is Ok {
        let read = r->Ok_0;
        assert forall|i: int| 0 <= i < info.connections@.len() implies is_connection_of(
            #[trigger] read.connections@[i],
            info.connections@[i],
        ) by {
            lemma_connection(read.connections@[i], info.connections@[i]);
        }
    }
}

/// The places of a description are those that its texts stand for. Its starting place is of the kind
/// that the stream has.
pub proof fn law_places_of_a_description<Selector: StreamPositionTypeSelector>(
    selector: &Selector,
    info: persistent::SubscriptionInfo,
    r: Result<PersistentSubscriptionInfo<Selector::Value>, Error>,
    known_text: &str,
    known: Result<RevisionOrPosition, Error>,
    checkpointed_text: &str,
    checkpointed: Result<RevisionOrPosition, Error>,
    start_text: &str,
    start: Result<StreamPosition<RevisionOrPosition>, Error>,
)
    requires
        call_ensures(subscription_info_from_wire::<Selector>, (selector, info), r),
        known_text@ == info.last_known_event_position@,
        call_ensures(parse_revision_or_position, (known_text,), known),
        checkpointed_text@ == info.last_checkpointed_event_position@,
        call_ensures(parse_revision_or_position, (checkpointed_text,), checkpointed),
        start_text@ == info.start_from@,
        call_ensures(parse_stream_position, (start_text,), start),
    ensures
        r is Ok == start is Ok,
        r matches Ok(read) ==> {
            &&& is_told(known, read.stats.last_known_event_revision, read.stats.last_known_position)
            &&& is_told(
                checkpointed,
                read.stats.last_checkpointed_event_revision,
                read.stats.last_checkpointed_position,
            )
            &&& start matches Ok(StreamPosition::Start) ==> read.settings->0.start_from is Start
            &&& start matches Ok(StreamPosition::End) ==> read.settings->0.start_from is End
            &&& start matches Ok(StreamPosition::Position(place)) ==> read.settings->0.start_from
                == StreamPosition::Position(selector.selected(place))
        },
{
}

/// A regular stream has revisions, `$all` has log positions, and any stream has either, each as it is.
pub proof fn law_streams_have_their_places(
    stream: &RegularStream,
    revision: u64,
    position: Position,
    place: RevisionOrPosition,
    of_stream: u64,
    of_all: Position,
    of_any: RevisionOrPosition,
    stream_takes: bool,
    all_takes: bool,
    any_takes: bool,
)
    requires
        call_ensures(
            RegularStream::select,
            (stream, RevisionOrPosition::Revision(revision)),
            of_stream,
        ),
        call_ensures(
            AllStream::select,
            (&AllStream, RevisionOrPosition::Position(position)),
            of_all,
        ),
        call_ensures(BothTypeOfStream::select, (&BothTypeOfStream, place), of_any),
        call_ensures(RegularStream::accepts, (stream, &place), stream_takes),
        call_ensures(AllStream::accepts, (&AllStream, &place), all_takes),
        call_ensures(BothTypeOfStream::accepts, (&BothTypeOfStream, &place), any_takes),
    ensures
        of_stream == revision,
        of_all == position,
        of_any == place,
        stream_takes <==> place is Revision,
        all_takes <==> place is Position,
        any_takes,
        stream.selected(RevisionOrPosition::Revision(revision)) == revision,
        AllStream.selected(RevisionOrPosition::Position(position)) == position,
        BothTypeOfStream.selected(place) == place,
{
}

/// A starting place fits a stream unless it is a place of a kind that the stream does not have.
pub proof fn law_starts_fit_their_stream<Selector: StreamPositionTypeSelector>(
    selector: &Selector,
    text: &str,
    r: bool,
    start: Result<StreamPosition<RevisionOrPosition>, Error>,
)
    requires
        call_ensures(check_start::<Selector>, (selector, text), r),
        call_ensures(parse_stream_position, (text,), start),
    ensures
        start matches Ok(StreamPosition::Position(place)) ==> r == selector.can_select(place),
        !(start matches Ok(StreamPosition::Position(_))) ==> r,
{
}

/// A regular stream is called what it is called, and `$all` is `$all`.
pub proof fn law_streams_have_their_names(
    stream: &RegularStream,
    name: &str,
    is_all: bool,
    all_name: &str,
    all_is_all: bool,
)
    requires
        call_ensures(RegularStream::name, (stream,), name),
        call_ensures(RegularStream::is_all, (stream,), is_all),
        call_ensures(AllStream::name, (&AllStream,), all_name),
        call_ensures(AllStream::is_all, (&AllStream,), all_is_all),
    ensures
        name@ == stream.0@,
        !is_all,
        all_name@ == "$all"@,
        all_is_all,
{
}

} // verus!
