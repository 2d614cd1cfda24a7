//! Persistent subscriptions, as the server describes them.
use crate::commands::position::{
    parse_revision_or_position, parse_stream_position, text_place, text_start,
};
use crate::string_map::StringMap;
use crate::time::Duration;
use crate::types::{
    Error, PersistentSubscriptionConnectionInfo, PersistentSubscriptionInfo,
    PersistentSubscriptionMeasurements, PersistentSubscriptionSettings,
    PersistentSubscriptionStats, Position, RevisionOrPosition, StreamPosition,
    SystemConsumerStrategy,
};
use crate::wire::persistent;
use vstd::prelude::*;

verus! {

/// A regular stream.
pub struct RegularStream(pub String);

/// The stream of all events.
pub struct AllStream;

/// Any stream.
pub struct BothTypeOfStream;

/// Picks the kind of places that a stream has.
pub trait StreamPositionTypeSelector {
    type Value;

    /// Whether the stream has places of this kind.
    spec fn can_select(&self, value: RevisionOrPosition) -> bool;

    /// The place in the stream.
    spec fn selected(&self, value: RevisionOrPosition) -> Self::Value;

    /// Tells whether the stream has places of this kind.
    fn accepts(&self, value: &RevisionOrPosition) -> (r: bool)
        ensures
            r == self.can_select(*value),
    ;

    /// The place in the stream.
    fn select(&self, value: RevisionOrPosition) -> (r: Self::Value)
        requires
            self.can_select(value),
        ensures
            r == self.selected(value),
    ;
}

/// A stream that can be named.
pub trait StreamKind {
    /// Whether it is the stream of all events.
    spec fn all(&self) -> bool;

    /// What the stream is called.
    spec fn stream_name(&self) -> Seq<char>;

    fn is_all(&self) -> (r: bool)
        ensures
            r == self.all(),
    ;

    fn name(&self) -> (r: &str)
        ensures
            r@ == self.stream_name(),
    ;
}

impl StreamPositionTypeSelector for AllStream {
    type Value = Position;

    open spec fn can_select(&self, value: RevisionOrPosition) -> bool {
        value is Position
    }

    open spec fn selected(&self, value: RevisionOrPosition) -> Position {
        value->Position_0
    }

    fn accepts(&self, value: &RevisionOrPosition) -> (r: bool) {
        match value {
            RevisionOrPosition::Position(_) => true,
            RevisionOrPosition::Revision(_) => false,
        }
    }

    fn select(&self, value: RevisionOrPosition) -> (r: Position) {
        match value {
            RevisionOrPosition::Position(position) => position,
            RevisionOrPosition::Revision(_) => Position::start(),
        }
    }
}

impl StreamKind for AllStream {
    open spec fn all(&self) -> bool {
        true
    }

    open spec fn stream_name(&self) -> Seq<char> {
        "$all"@
    }

    fn is_all(&self) -> (r: bool) {
        true
    }

    fn name(&self) -> (r: &str) {
        "$all"
    }
}

impl StreamKind for RegularStream {
    open spec fn all(&self) -> bool {
        false
    }

    open spec fn stream_name(&self) -> Seq<char> {
        self.0@
    }

    fn is_all(&self) -> (r: bool) {
        false
    }

    fn name(&self) -> (r: &str) {
        self.0.as_str()
    }
}

impl StreamPositionTypeSelector for RegularStream {
    type Value = u64;

    open spec fn can_select(&self, value: RevisionOrPosition) -> bool {
        value is Revision
    }

    open spec fn selected(&self, value: RevisionOrPosition) -> u64 {
        value->Revision_0
    }

    fn accepts(&self, value: &RevisionOrPosition) -> (r: bool) {
        match value {
            RevisionOrPosition::Revision(_) => true,
            RevisionOrPosition::Position(_) => false,
        }
    }

    fn select(&self, value: RevisionOrPosition) -> (r: u64) {
        match value {
            RevisionOrPosition::Revision(revision) => revision,
            RevisionOrPosition::Position(_) => 0,
        }
    }
}

impl StreamPositionTypeSelector for BothTypeOfStream {
    type Value = RevisionOrPosition;

    open spec fn can_select(&self, value: RevisionOrPosition) -> bool {
        true
    }

    open spec fn selected(&self, value: RevisionOrPosition) -> RevisionOrPosition {
        value
    }

    fn accepts(&self, value: &RevisionOrPosition) -> (r: bool) {
        true
    }

    fn select(&self, value: RevisionOrPosition) -> (r: RevisionOrPosition) {
        value
    }
}

/// Measurements by name. Of measurements of the same name, the last counts.
pub open spec fn measurements(observed: Seq<persistent::Measurement>) -> Map<Seq<char>, i64>
    decreases observed.len(),
{
    if observed.len() == 0 {
        Map::empty()
    } else {
        measurements(observed.drop_last()).insert(observed.last().key@, observed.last().value)
    }
}

/// Whether a connection is the one that came over the wire. Counts are taken as they are, however
/// wide a count is here.
pub open spec fn is_connection(
    r: PersistentSubscriptionConnectionInfo,
    conn: persistent::ConnectionInfo,
) -> bool {
    &&& r.from == conn.from
    &&& r.username == conn.username
    &&& r.average_items_per_second == conn.average_items_per_second
    &&& r.total_items == conn.total_items as usize
    &&& r.count_since_last_measurement == conn.count_since_last_measurement as usize
    &&& r.available_slots == conn.available_slots as usize
    &&& r.in_flight_messages == conn.in_flight_messages as usize
    &&& r.connection_name == conn.connection_name
    &&& r.extra_statistics.0@ == measurements(conn.observed_measurements@)
}

/// Reads measurements.
fn measurements_from_wire(observed: Vec<persistent::Measurement>) -> (r: StringMap<i64>)
    ensures
        r@ == measurements(observed@),
{
    let mut r: StringMap<i64> = StringMap::new();
    let mut i: usize = 0;
    while i < observed.len()
        invariant
            i <= observed@.len(),
            r@ == measurements(observed@.take(i as int)),
        decreases observed@.len() - i,
    {
        r.insert(observed[i].key.clone(), observed[i].value);
        i = i + 1;
        assert(observed@.take(i as int).drop_last() =~= observed@.take(i - 1));
    }
    assert(observed@.take(i as int) =~= observed@);
    r
}

/// Reads a connection.
pub fn connection_from_wire(conn: persistent::ConnectionInfo) -> (r:
    PersistentSubscriptionConnectionInfo)
    ensures
        is_connection(r, conn),
{
    PersistentSubscriptionConnectionInfo {
        from: conn.from,
        username: conn.username,
        average_items_per_second: conn.average_items_per_second,
        total_items: conn.total_items as usize,
        count_since_last_measurement: conn.count_since_last_measurement as usize,
        available_slots: conn.available_slots as usize,
        in_flight_messages: conn.in_flight_messages as usize,
        connection_name: conn.connection_name,
        extra_statistics: PersistentSubscriptionMeasurements(
            measurements_from_wire(conn.observed_measurements),
        ),
    }
}

/// Reads connections.
fn connections_from_wire(connections: Vec<persistent::ConnectionInfo>) -> (r: Vec<
    PersistentSubscriptionConnectionInfo,
>)
    ensures
        r@.len() == connections@.len(),
        forall|i: int| 0 <= i < r@.len() ==> is_connection(#[trigger] r@[i], connections@[i]),
{
    let mut r: Vec<PersistentSubscriptionConnectionInfo> = Vec::new();
    for conn in it: connections
        invariant
            it.seq() == connections@,
            r@.len() == it.index(),
            forall|i: int| 0 <= i < r@.len() ==> is_connection(#[trigger] r@[i], connections@[i]),
    {
        r.push(connection_from_wire(conn));
    }
    r
}

/// The revision that a text stands for, if it stands for one.
pub open spec fn text_revision(text: Seq<char>) -> Option<u64> {
    match text_place(text) {
        Some(RevisionOrPosition::Revision(revision)) => Some(revision),
        _ => None,
    }
}

/// The log position that a text stands for, if it stands for one.
pub open spec fn text_log_position(text: Seq<char>) -> Option<Position> {
    match text_place(text) {
        Some(RevisionOrPosition::Position(position)) => Some(position),
        _ => None,
    }
}

fn place_of(text: &str) -> (r: (Option<u64>, Option<Position>))
    ensures
        r == (text_revision(text@), text_log_position(text@)),
{
    match parse_revision_or_position(text) {
        Ok(RevisionOrPosition::Revision(revision)) => (Some(revision), None),
        Ok(RevisionOrPosition::Position(position)) => (None, Some(position)),
        Err(_) => (None, None),
    }
}

/// A starting place, of the kind that the stream has.
pub open spec fn selected_start<Selector: StreamPositionTypeSelector>(
    selector: Selector,
    start: StreamPosition<RevisionOrPosition>,
) -> StreamPosition<Selector::Value> {
    match start {
        StreamPosition::Start => StreamPosition::Start,
        StreamPosition::End => StreamPosition::End,
        StreamPosition::Position(place) => StreamPosition::Position(selector.selected(place)),
    }
}

/// Whether a starting place, if it can be read at all, is of a kind that the stream has.
pub open spec fn start_fits<Selector: StreamPositionTypeSelector>(
    selector: Selector,
    start_from: Seq<char>,
) -> bool {
    text_start(start_from) matches Some(StreamPosition::Position(place)) ==> selector.can_select(
        place,
    )
}

/// Tells whether a starting place, if it can be read at all, is of a kind that the stream has.
pub fn check_start<Selector: StreamPositionTypeSelector>(selector: &Selector, start_from: &str) -> (r:
    bool)
    ensures
        r == start_fits(*selector, start_from@),
{
    match parse_stream_position(start_from) {
        Ok(StreamPosition::Position(place)) => selector.accepts(&place),
        Ok(_) => true,
        Err(_) => true,
    }
}

/// Whether a span is of so many milliseconds, as an unsigned number.
pub open spec fn is_millis(span: Duration, millis: i32) -> bool {
    span.well_formed() && span.total_nanos() == (millis as u64) * 1_000_000
}

/// Whether settings are those that came over the wire.
pub open spec fn is_settings<A>(
    settings: PersistentSubscriptionSettings<A>,
    info: persistent::SubscriptionInfo,
    start_from: StreamPosition<A>,
) -> bool {
    &&& settings.resolve_link_tos == info.resolve_link_tos
    &&& settings.start_from == start_from
    &&& settings.extra_statistics == info.extra_statistics
    &&& is_millis(settings.message_timeout, info.message_timeout_milliseconds)
    &&& settings.max_retry_count == info.max_retry_count
    &&& settings.live_buffer_size == info.live_buffer_size
    &&& settings.read_batch_size == info.read_batch_size
    &&& settings.history_buffer_size == info.buffer_size
    &&& is_millis(settings.checkpoint_after, info.check_point_after_milliseconds)
    &&& settings.checkpoint_lower_bound == info.min_check_point_count
    &&& settings.checkpoint_upper_bound == info.max_check_point_count
    &&& settings.max_subscriber_count == info.max_subscriber_count
    &&& settings.consumer_strategy_name.is_named(info.named_consumer_strategy@)
}

/// How far a subscription has come, by what came over the wire.
pub open spec fn subscription_stats(
    info: persistent::SubscriptionInfo,
) -> PersistentSubscriptionStats {
    PersistentSubscriptionStats {
        average_per_second: info.average_per_second,
        total_items: info.total_items as usize,
        count_since_last_measurement: info.count_since_last_measurement as usize,
        last_checkpointed_event_revision: text_revision(info.last_checkpointed_event_position@),
        last_known_event_revision: text_revision(info.last_known_event_position@),
        last_checkpointed_position: text_log_position(info.last_checkpointed_event_position@),
        last_known_position: text_log_position(info.last_known_event_position@),
        read_buffer_count: info.read_buffer_count as usize,
        live_buffer_count: info.live_buffer_count as usize,
        retry_buffer_count: info.retry_buffer_count as usize,
        total_in_flight_messages: info.total_in_flight_messages as usize,
        outstanding_messages_count: info.outstanding_messages_count as usize,
        parked_message_count: info.parked_message_count as usize,
    }
}

/// Whether a description is the one that came over the wire.
pub open spec fn is_info<A>(
    r: PersistentSubscriptionInfo<A>,
    info: persistent::SubscriptionInfo,
    start_from: StreamPosition<A>,
) -> bool {
    &&& r.event_source == info.event_source
    &&& r.group_name == info.group_name
    &&& r.status == info.status
    &&& r.connections@.len() == info.connections@.len()
    &&& forall|i: int|
        0 <= i < r.connections@.len() ==> is_connection(
            #[trigger] r.connections@[i],
            info.connections@[i],
        )
    &&& r.settings matches Some(settings) && is_settings(settings, info, start_from)
    &&& r.stats == subscription_stats(info)
}

/// What is said of a starting place that cannot be read.
pub open spec fn start_error(start_from: Seq<char>) -> Seq<char> {
    "Can't parse stream position: "@ + start_from
}

/// What comes of reading a description: an error where its starting place cannot be read.
pub open spec fn info_result<Selector: StreamPositionTypeSelector>(
    selector: Selector,
    info: persistent::SubscriptionInfo,
    r: Result<PersistentSubscriptionInfo<Selector::Value>, Error>,
) -> bool {
    match text_start(info.start_from@) {
        Some(start) => r matches Ok(read) && is_info(read, info, selected_start(selector, start)),
        None => r matches Err(Error::InternalParsingError(message)) && message@ == start_error(
            info.start_from@,
        ),
    }
}

/// Reads a description.
pub fn subscription_info_from_wire<Selector: StreamPositionTypeSelector>(
    selector: &Selector,
    info: persistent::SubscriptionInfo,
) -> (r: Result<PersistentSubscriptionInfo<Selector::Value>, Error>)
    requires
        start_fits(*selector, info.start_from@),
    ensures
        info_result(*selector, info, r),
{
    let consumer_strategy_name = SystemConsumerStrategy::from_string(info.named_consumer_strategy);
    let connections = connections_from_wire(info.connections);
    let (last_known_event_revision, last_known_position) = place_of(
        info.last_known_event_position.as_str(),
    );
    let (last_checkpointed_event_revision, last_checkpointed_position) = place_of(
        info.last_checkpointed_event_position.as_str(),
    );
    let start_from = match parse_stream_position(info.start_from.as_str()) {
        Ok(StreamPosition::Start) => StreamPosition::Start,
        Ok(StreamPosition::End) => StreamPosition::End,
        Ok(StreamPosition::Position(place)) => StreamPosition::Position(selector.select(place)),
        Err(_) => {
            return Err(
                Error::InternalParsingError(
                    "Can't parse stream position: ".to_owned().concat(info.start_from.as_str()),
                ),
            );
        },
    };
    let stats = PersistentSubscriptionStats {
        average_per_second: info.average_per_second,
        total_items: info.total_items as usize,
        count_since_last_measurement: info.count_since_last_measurement as usize,
        last_checkpointed_event_revision,
        last_known_event_revision,
        last_checkpointed_position,
        last_known_position,
        read_buffer_count: info.read_buffer_count as usize,
        live_buffer_count: info.live_buffer_count as usize,
        retry_buffer_count: info.retry_buffer_count as usize,
        total_in_flight_messages: info.total_in_flight_messages as usize,
        outstanding_messages_count: info.outstanding_messages_count as usize,
        parked_message_count: info.parked_message_count as usize,
    };
    Ok(
        PersistentSubscriptionInfo {
            event_source: info.event_source,
            group_name: info.group_name,
            status: info.status,
            connections,
            settings: Some(
                PersistentSubscriptionSettings {
                    resolve_link_tos: info.resolve_link_tos,
                    start_from,
                    extra_statistics: info.extra_statistics,
                    message_timeout: Duration::from_millis(
                        info.message_timeout_milliseconds as u64,
                    ),
                    max_retry_count: info.max_retry_count,
                    live_buffer_size: info.live_buffer_size,
                    read_batch_size: info.read_batch_size,
                    history_buffer_size: info.buffer_size,
                    checkpoint_after: Duration::from_millis(
                        info.check_point_after_milliseconds as u64,
                    ),
                    checkpoint_lower_bound: info.min_check_point_count,
                    checkpoint_upper_bound: info.max_check_point_count,
                    max_subscriber_count: info.max_subscriber_count,
                    consumer_strategy_name,
                },
            ),
            stats,
        },
    )
}

/// Measurements are there under just the names that were observed, each with the value that was
/// observed last under its name.
pub proof fn law_last_measurement_counts(observed: Seq<persistent::Measurement>, i: int)
    requires
        0 <= i < observed.len(),
        forall|j: int| i < j < observed.len() ==> (#[trigger] observed[j]).key@ != observed[i].key@,
    ensures
        measurements(observed).contains_key(observed[i].key@),
        measurements(observed)[observed[i].key@] == observed[i].value,
        forall|key: Seq<char>| #[trigger]
            measurements(observed).contains_key(key) ==> exists|j: int|
                0 <= j < observed.len() && (#[trigger] observed[j]).key@ == key,
    decreases observed.len(),
{
    lemma_measurement_names(observed);
    let rest = observed.drop_last();
    if i < rest.len() {
        assert(observed.last().key@ != observed[i].key@);
        assert forall|j: int| i < j < rest.len() implies (#[trigger] rest[j]).key@
            != rest[i].key@ by {
            assert(rest[j] == observed[j]);
        }
        law_last_measurement_counts(rest, i);
    }
}

proof fn lemma_measurement_names(observed: Seq<persistent::Measurement>)
    ensures
        forall|key: Seq<char>| #[trigger]
            measurements(observed).contains_key(key) ==> exists|j: int|
                0 <= j < observed.len() && (#[trigger] observed[j]).key@ == key,
    decreases observed.len(),
{
    if observed.len() > 0 {
        let rest = observed.drop_last();
        lemma_measurement_names(rest);
        assert forall|key: Seq<char>| #[trigger]
            measurements(observed).contains_key(key) implies exists|j: int|
            0 <= j < observed.len() && (#[trigger] observed[j]).key@ == key by {
            if key == observed.last().key@ {
                assert(observed[observed.len() - 1].key@ == key);
            } else {
                assert(measurements(rest).contains_key(key));
                let j = choose|j: int| 0 <= j < rest.len() && (#[trigger] rest[j]).key@ == key;
                assert(observed[j].key@ == key);
            }
        }
    }
}

} // verus!
