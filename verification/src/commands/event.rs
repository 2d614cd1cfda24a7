//! Events on the wire.
use crate::ids::{big_endian, hyphenated, id_of_text, id_text, is_random_id, parse_id, random_id, Uuid};
use crate::string_map::StringMap;
use crate::text::{from_utf8, law_utf8_reads_back, same_text};
use crate::types::{
    EventData, PersistentSubscriptionEvent, Position, RecordedEvent, ResolvedEvent,
};
use crate::wire::shared::{self, UuidValue};
use crate::wire::{persistent, streams};
use vstd::prelude::*;
use vstd::utf8::{decode_utf8, encode_utf8, valid_utf8};

verus! {

/// Whether an identifier that came over the wire stands for one.
pub open spec fn uuid_is_readable(id: shared::Uuid) -> bool {
    match id.value {
        Some(UuidValue::Structured { .. }) => true,
        Some(UuidValue::String(text)) => id_of_text(text@) is Some,
        None => false,
    }
}

/// The identifier that came over the wire: two words, the more significant one first, or what a
/// text stands for.
pub open spec fn uuid_bytes(id: shared::Uuid) -> Seq<u8> {
    match id.value {
        Some(
            UuidValue::Structured { most_significant_bits, least_significant_bits },
        ) => big_endian(most_significant_bits as u64) + big_endian(least_significant_bits as u64),
        Some(UuidValue::String(text)) => id_of_text(text@)->0,
        None => Seq::empty(),
    }
}

/// Tells whether an identifier that came over the wire stands for one.
pub fn check_uuid(id: &shared::Uuid) -> (r: bool)
    ensures
        r == uuid_is_readable(*id),
{
    match &id.value {
        Some(UuidValue::Structured { .. }) => true,
        Some(UuidValue::String(text)) => parse_id(text.as_str()).is_some(),
        None => false,
    }
}

/// Reads an identifier.
pub fn raw_uuid_to_uuid(src: shared::Uuid) -> (r: Uuid)
    requires
        uuid_is_readable(src),
    ensures
        r@ == uuid_bytes(src),
{
    match src.value {
        Some(
            UuidValue::Structured { most_significant_bits, least_significant_bits },
        ) => Uuid::from_words(most_significant_bits, least_significant_bits),
        Some(UuidValue::String(text)) => parse_id(text.as_str()).unwrap(),
        None => Uuid::nil(),
    }
}

/// Whether an identifier on the wire is the usual text of `id`, which reads back as `id`.
pub open spec fn is_uuid_text(sent: shared::Uuid, id: Seq<u8>) -> bool {
    &&& sent.value matches Some(UuidValue::String(text)) && text@ == hyphenated(id)
    &&& uuid_is_readable(sent)
    &&& uuid_bytes(sent) == id
}

/// Writes an identifier.
pub fn to_proto_uuid(id: Uuid) -> (r: shared::Uuid)
    ensures
        is_uuid_text(r, id@),
{
    shared::Uuid { value: Some(UuidValue::String(id_text(id))) }
}

/// Names a stream on the wire.
pub fn stream_identifier(stream: &str) -> (r: shared::StreamIdentifier)
    ensures
        r.stream_name@ == encode_utf8(stream@),
{
    shared::StreamIdentifier { stream_name: stream.as_bytes_vec() }
}

/// Whether a message proposes the event under the identifier.
pub open spec fn is_proposal(
    message: streams::ProposedMessage,
    event: EventData,
    id: Seq<u8>,
) -> bool {
    &&& message.id matches Some(sent) && is_uuid_text(sent, id)
    &&& message.metadata == event.metadata
    &&& message.custom_metadata@ == match event.custom_metadata {
        Some(bytes) => bytes@,
        None => Seq::empty(),
    }
    &&& message.data@ == event.payload@
}

/// Whether an identifier is right for an event: its own, or a random one where it has none.
pub open spec fn is_event_id(event: EventData, id: Seq<u8>) -> bool {
    match event.id_opt {
        Some(own) => id == own@,
        None => is_random_id(id),
    }
}

/// Proposes an event under an identifier.
pub fn propose(event: EventData, id: Uuid) -> (r: streams::ProposedMessage)
    ensures
        is_proposal(r, event, id@),
{
    let custom_metadata: Vec<u8> = match event.custom_metadata {
        Some(bytes) => bytes,
        None => Vec::new(),
    };
    streams::ProposedMessage {
        id: Some(to_proto_uuid(id)),
        metadata: event.metadata,
        custom_metadata,
        data: event.payload,
    }
}

/// The identifier of an event, or a random one where it has none.
fn event_id(event: &EventData) -> (r: Uuid)
    ensures
        is_event_id(*event, r@),
{
    match event.id_opt {
        Some(id) => id,
        None => random_id(),
    }
}

/// Whether a message proposes the event.
pub open spec fn proposes(message: streams::ProposedMessage, event: EventData) -> bool {
    exists|id: Seq<u8>| #[trigger] is_event_id(event, id) && is_proposal(message, event, id)
}

/// Makes an event a message of a batch.
pub fn convert_event_data_to_batch_proposed_message(event: EventData) -> (r:
    streams::ProposedMessage)
    ensures
        proposes(r, event),
{
    let id = event_id(&event);
    let ghost given = event;
    let message = propose(event, id);
    assert(is_event_id(given, id@));
    message
}

/// Whether a message of an append proposes the event.
pub open spec fn appends(sent: streams::AppendReq, event: EventData) -> bool {
    sent.content matches Some(streams::AppendContent::ProposedMessage(message)) && proposes(
        message,
        event,
    )
}

/// Makes an event a message of an append.
pub fn convert_event_data(event: EventData) -> (r: streams::AppendReq)
    ensures
        appends(r, event),
{
    let message = convert_event_data_to_batch_proposed_message(event);
    streams::AppendReq { content: Some(streams::AppendContent::ProposedMessage(message)) }
}

/// Whether an event that came over the wire has an identifier and the name of its stream.
pub open spec fn event_is_readable(event: shared::RecordedEvent) -> bool {
    &&& event.id matches Some(id) && uuid_is_readable(id)
    &&& event.stream_identifier matches Some(stream) && valid_utf8(stream.stream_name@)
}

/// Whether an event that came over the wire, if there is one, can be read.
pub open spec fn optional_event_is_readable(event: Option<shared::RecordedEvent>) -> bool {
    event matches Some(event) ==> event_is_readable(event)
}

/// The type of an event, by its metadata.
pub open spec fn event_type(metadata: Map<Seq<char>, String>) -> Seq<char> {
    if metadata.contains_key("type"@) {
        metadata["type"@]@
    } else {
        "<no-event-type-provided>"@
    }
}

/// Whether an event holds JSON, by its metadata.
pub open spec fn is_json(metadata: Map<Seq<char>, String>) -> bool {
    metadata.contains_key("content-type"@) && metadata["content-type"@]@ == "application/json"@
}

/// Whether an event is the one that came over the wire.
pub open spec fn is_recorded_event(r: RecordedEvent, event: shared::RecordedEvent) -> bool {
    &&& r.id@ == uuid_bytes(event.id->0)
    &&& r.stream_id@ == decode_utf8(event.stream_identifier->0.stream_name@)
    &&& r.revision == event.stream_revision
    &&& r.position == (Position {
        commit: event.commit_position,
        prepare: event.prepare_position,
    })
    &&& r.event_type@ == event_type(event.metadata@)
    &&& r.is_json == is_json(event.metadata@)
    &&& r.metadata == event.metadata
    &&& r.custom_metadata == event.custom_metadata
    &&& r.data == event.data
}

/// Whether two events, if there are any, are the same.
pub open spec fn is_optional_recorded_event(
    r: Option<RecordedEvent>,
    event: Option<shared::RecordedEvent>,
) -> bool {
    match event {
        Some(event) => r matches Some(r) && is_recorded_event(r, event),
        None => r is None,
    }
}

/// Tells whether an event that came over the wire can be read.
fn check_event(event: &shared::RecordedEvent) -> (r: bool)
    ensures
        r == event_is_readable(*event),
{
    let id_is_readable = match &event.id {
        Some(id) => check_uuid(id),
        None => false,
    };
    let stream_is_readable = match &event.stream_identifier {
        Some(stream) => from_utf8(stream.stream_name.as_slice()).is_some(),
        None => false,
    };
    id_is_readable && stream_is_readable
}

fn check_optional_event(event: &Option<shared::RecordedEvent>) -> (r: bool)
    ensures
        r == optional_event_is_readable(*event),
{
    match event {
        Some(event) => check_event(event),
        None => true,
    }
}

/// The type of an event, by its metadata.
pub fn metadata_event_type(metadata: &StringMap<String>) -> (r: String)
    ensures
        r@ == event_type(metadata@),
{
    match metadata.get("type") {
        Some(event_type) => event_type.clone(),
        None => "<no-event-type-provided>".to_owned(),
    }
}

/// Whether an event holds JSON, by its metadata.
pub fn metadata_is_json(metadata: &StringMap<String>) -> (r: bool)
    ensures
        r == is_json(metadata@),
{
    match metadata.get("content-type") {
        Some(content_type) => same_text(content_type.as_str(), "application/json"),
        None => false,
    }
}

/// Reads an event.
pub fn convert_proto_recorded_event(event: shared::RecordedEvent) -> (r: RecordedEvent)
    requires
        event_is_readable(event),
    ensures
        is_recorded_event(r, event),
{
    let id = raw_uuid_to_uuid(event.id.unwrap());
    let position = Position { commit: event.commit_position, prepare: event.prepare_position };
    let event_type = metadata_event_type(&event.metadata);
    let is_json = metadata_is_json(&event.metadata);
    let stream_id = from_utf8(event.stream_identifier.unwrap().stream_name.as_slice()).unwrap();
    RecordedEvent {
        id,
        stream_id,
        revision: event.stream_revision,
        position,
        event_type,
        is_json,
        metadata: event.metadata,
        custom_metadata: event.custom_metadata,
        data: event.data,
    }
}

fn convert_optional_event(event: Option<shared::RecordedEvent>) -> (r: Option<RecordedEvent>)
    requires
        optional_event_is_readable(event),
    ensures
        is_optional_recorded_event(r, event),
{
    match event {
        Some(event) => Some(convert_proto_recorded_event(event)),
        None => None,
    }
}

/// The commit position of an event that was read, if there is one.
pub open spec fn commit_position(position: Option<shared::CommitPosition>) -> Option<u64> {
    match position {
        Some(shared::CommitPosition::CommitPosition(position)) => Some(position),
        _ => None,
    }
}

fn convert_commit_position(position: Option<shared::CommitPosition>) -> (r: Option<u64>)
    ensures
        r == commit_position(position),
{
    match position {
        Some(shared::CommitPosition::CommitPosition(position)) => Some(position),
        Some(shared::CommitPosition::NoPosition) => None,
        None => None,
    }
}

/// Whether all events of a message can be read.
pub open spec fn read_event_is_readable(event: streams::ReadEvent) -> bool {
    optional_event_is_readable(event.event) && optional_event_is_readable(event.link)
}

/// Whether an event is the one that was read.
pub open spec fn is_read_event(r: ResolvedEvent, event: streams::ReadEvent) -> bool {
    &&& is_optional_recorded_event(r.event, event.event)
    &&& is_optional_recorded_event(r.link, event.link)
    &&& r.commit_position == commit_position(event.position)
}

/// Tells whether all events of a message can be read.
pub fn check_read_event(event: &streams::ReadEvent) -> (r: bool)
    ensures
        r == read_event_is_readable(*event),
{
    check_optional_event(&event.event) && check_optional_event(&event.link)
}

/// Reads an event and the link that led to it.
pub fn convert_proto_read_event(event: streams::ReadEvent) -> (r: ResolvedEvent)
    requires
        read_event_is_readable(event),
    ensures
        is_read_event(r, event),
{
    let commit_position = convert_commit_position(event.position);
    ResolvedEvent {
        event: convert_optional_event(event.event),
        link: convert_optional_event(event.link),
        commit_position,
    }
}

/// Whether all events of a message of a persistent subscription can be read.
pub open spec fn persistent_event_is_readable(event: persistent::ReadEvent) -> bool {
    optional_event_is_readable(event.event) && optional_event_is_readable(event.link)
}

/// How often an event has been handed out before.
pub open spec fn retry_count(count: Option<persistent::Count>) -> usize {
    match count {
        Some(persistent::Count::RetryCount(count)) => count as usize,
        _ => 0,
    }
}

/// Whether an event of a persistent subscription is the one that came over the wire.
pub open spec fn is_persistent_event(
    r: PersistentSubscriptionEvent,
    event: persistent::ReadEvent,
) -> bool {
    r matches PersistentSubscriptionEvent::EventAppeared { retry_count: count, event: resolved } && {
        &&& count == retry_count(event.count)
        &&& is_optional_recorded_event(resolved.event, event.event)
        &&& is_optional_recorded_event(resolved.link, event.link)
        &&& resolved.commit_position == commit_position(event.position)
    }
}

/// Tells whether all events of a message of a persistent subscription can be read.
pub fn check_persistent_event(event: &persistent::ReadEvent) -> (r: bool)
    ensures
        r == persistent_event_is_readable(*event),
{
    check_optional_event(&event.event) && check_optional_event(&event.link)
}

/// Reads an event of a persistent subscription.
pub fn convert_persistent_proto_read_event(event: persistent::ReadEvent) -> (r:
    PersistentSubscriptionEvent)
    requires
        persistent_event_is_readable(event),
    ensures
        is_persistent_event(r, event),
{
    let commit_position = convert_commit_position(event.position);
    let resolved = ResolvedEvent {
        event: convert_optional_event(event.event),
        link: convert_optional_event(event.link),
        commit_position,
    };
    let retry_count: usize = match event.count {
        Some(persistent::Count::RetryCount(count)) => count as usize,
        Some(persistent::Count::NoRetryCount) => 0,
        None => 0,
    };
    PersistentSubscriptionEvent::EventAppeared { retry_count, event: resolved }
}

/// What was proposed is what is read, where the server recorded it as it was sent: the
/// identifier, the data and the metadata of the event, and the name of the stream.
pub proof fn law_proposed_event_reads_back(
    message: streams::ProposedMessage,
    event: EventData,
    id: Seq<u8>,
    stream: Seq<char>,
    recorded: shared::RecordedEvent,
    read: RecordedEvent,
)
    requires
        is_proposal(message, event, id),
        recorded.id == message.id,
        recorded.metadata == message.metadata,
        recorded.custom_metadata == message.custom_metadata,
        recorded.data == message.data,
        recorded.stream_identifier matches Some(identifier) && identifier.stream_name@
            == encode_utf8(stream),
        is_recorded_event(read, recorded),
    ensures
        event_is_readable(recorded),
        read.id@ == id,
        read.stream_id@ == stream,
        read.metadata == event.metadata,
        read.data@ == event.payload@,
        read.custom_metadata@ == match event.custom_metadata {
            Some(bytes) => bytes@,
            None => Seq::empty(),
        },
{
    law_utf8_reads_back(stream);
}

} // verus!
