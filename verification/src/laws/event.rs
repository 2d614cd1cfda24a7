//! What reading and writing events is for.
use crate::commands::event::{
    check_persistent_event, check_read_event, check_uuid, convert_event_data,
    convert_event_data_to_batch_proposed_message, convert_persistent_proto_read_event,
    convert_proto_read_event, convert_proto_recorded_event, metadata_event_type, metadata_is_json,
    propose, raw_uuid_to_uuid, stream_identifier, to_proto_uuid,
};
use crate::ids::{id_of_text, Uuid};
use crate::string_map::StringMap;
use crate::text::law_utf8_reads_back;
use crate::types::{
    EventData, PersistentSubscriptionEvent, RecordedEvent, ResolvedEvent,
};
use crate::wire::shared::{self, UuidValue};
use crate::wire::{persistent, streams};
use vstd::prelude::*;
use vstd::utf8::{decode_utf8, encode_utf8, valid_utf8};

verus! {

/// An identifier that is written comes back as it was when it is read, and can always be read.
pub proof fn law_identifier_reads_back(id: Uuid, sent: shared::Uuid, is_id: bool, read: Uuid)
    requires
        call_ensures(to_proto_uuid, (id,), sent),
        call_ensures(check_uuid, (&sent,), is_id),
        call_ensures(raw_uuid_to_uuid, (sent,), read),
    ensures
        is_id,
        read@ == id@,
{
}

/// Identifiers that are written alike are the same.
pub proof fn law_identifiers_differ_on_the_wire(
    id: Uuid,
    sent: shared::Uuid,
    other: Uuid,
    other_sent: shared::Uuid,
)
    requires
        call_ensures(to_proto_uuid, (id,), sent),
        call_ensures(to_proto_uuid, (other,), other_sent),
        sent == other_sent,
    ensures
        id@ == other@,
{
}

/// An identifier of two words is their bytes, each word with its most significant byte first. One of
/// a text is what the text stands for. There is no other.
pub proof fn law_identifier_is_read(id: shared::Uuid, is_id: bool, read: Uuid)
    requires
        call_ensures(check_uuid, (&id,), is_id),
        is_id ==> call_ensures(raw_uuid_to_uuid, (id,), read),
    ensures
        id.value is None ==> !is_id,
        id.value matches Some(UuidValue::String(text)) ==> {
            &&& is_id == (id_of_text(text@) is Some)
            &&& is_id ==> id_of_text(text@) == Some(read@)
        },
        id.value matches Some(
            UuidValue::Structured { most_significant_bits, least_significant_bits },
        ) ==> {
            let high = most_significant_bits as u64;
            let low = least_significant_bits as u64;
            &&& is_id
            &&& read@.len() == 16
            &&& read@[0] == (high >> 56u64) as u8 && read@[1] == (high >> 48u64) as u8
            &&& read@[2] == (high >> 40u64) as u8 && read@[3] == (high >> 32u64) as u8
            &&& read@[4] == (high >> 24u64) as u8 && read@[5] == (high >> 16u64) as u8
            &&& read@[6] == (high >> 8u64) as u8 && read@[7] == (high >> 0u64) as u8
            &&& read@[8] == (low >> 56u64) as u8 && read@[9] == (low >> 48u64) as u8
            &&& read@[10] == (low >> 40u64) as u8 && read@[11] == (low >> 32u64) as u8
            &&& read@[12] == (low >> 24u64) as u8 && read@[13] == (low >> 16u64) as u8
            &&& read@[14] == (low >> 8u64) as u8 && read@[15] == (low >> 0u64) as u8
        },
{
}

/// Whether a message proposes an event as it is, with its own identifier if it has one and a random
/// one otherwise.
pub open spec fn carries_event(message: streams::ProposedMessage, event: EventData) -> bool {
    &&& message.data@ == event.payload@
    &&& message.metadata == event.metadata
    &&& event.custom_metadata matches Some(bytes) ==> message.custom_metadata@ == bytes@
    &&& event.custom_metadata is None ==> message.custom_metadata@.len() == 0
    &&& message.id is Some
    &&& forall|id: Uuid| #[trigger]
        call_ensures(raw_uuid_to_uuid, (message.id->0,), id) ==> {
            &&& event.id_opt matches Some(own) ==> id@ == own@
            &&& event.id_opt is None ==> id@[6] / 16 == 4 && id@[8] / 64 == 2
        }
}

/// An event is proposed as it is: all of its data and metadata, under its own identifier if it has
/// one. Appends and batches propose it alike.
pub proof fn law_event_is_proposed_whole(
    event: EventData,
    message: streams::ProposedMessage,
    appended: streams::AppendReq,
)
    requires
        call_ensures(convert_event_data_to_batch_proposed_message, (event,), message),
        call_ensures(convert_event_data, (event,), appended),
    ensures
        carries_event(message, event),
        appended.content matches Some(streams::AppendContent::ProposedMessage(message))
            && carries_event(message, event),
{
}

/// An event that is proposed under an identifier, recorded as it was sent, and read, is the same
/// event: its identifier, its stream, its data, its metadata, and its custom metadata.
pub proof fn law_event_makes_the_round(
    event: EventData,
    id: Uuid,
    message: streams::ProposedMessage,
    stream: &str,
    identifier: shared::StreamIdentifier,
    recorded: shared::RecordedEvent,
    read: RecordedEvent,
)
    requires
        call_ensures(propose, (event, id), message),
        call_ensures(stream_identifier, (stream,), identifier),
        call_ensures(convert_proto_recorded_event, (recorded,), read),
        recorded.id == message.id,
        recorded.stream_identifier == Some(identifier),
        recorded.metadata == message.metadata,
        recorded.custom_metadata == message.custom_metadata,
        recorded.data == message.data,
    ensures
        read.id@ == id@,
        read.stream_id@ == stream@,
        read.data@ == event.payload@,
        read.metadata == event.metadata,
        event.custom_metadata matches Some(bytes) ==> read.custom_metadata@ == bytes@,
        event.custom_metadata is None ==> read.custom_metadata@.len() == 0,
{
    law_utf8_reads_back(stream@);
}

/// Streams of different names are different on the wire.
pub proof fn law_streams_differ_on_the_wire(
    stream: &str,
    identifier: shared::StreamIdentifier,
    other: &str,
    other_identifier: shared::StreamIdentifier,
)
    requires
        call_ensures(stream_identifier, (stream,), identifier),
        call_ensures(stream_identifier, (other,), other_identifier),
        identifier.stream_name@ == other_identifier.stream_name@,
    ensures
        stream@ == other@,
        decode_utf8(identifier.stream_name@) == stream@,
        identifier.stream_name@ == encode_utf8(stream@),
{
    law_utf8_reads_back(stream@);
    law_utf8_reads_back(other@);
}

/// Whether an event is the one that came over the wire, part for part. Its type and its format are
/// what its metadata says.
pub open spec fn is_event_of(read: RecordedEvent, event: shared::RecordedEvent) -> bool {
    &&& forall|id: Uuid| #[trigger]
        call_ensures(raw_uuid_to_uuid, (event.id->0,), id) ==> read.id@ == id@
    &&& read.stream_id@ == decode_utf8(event.stream_identifier->0.stream_name@)
    &&& read.revision == event.stream_revision
    &&& read.position.commit == event.commit_position
    &&& read.position.prepare == event.prepare_position
    &&& read.data == event.data
    &&& read.custom_metadata == event.custom_metadata
    &&& read.metadata == event.metadata
    &&& if event.metadata@.contains_key("type"@) {
        read.event_type@ == event.metadata@["type"@]@
    } else {
        read.event_type@ == "<no-event-type-provided>"@
    }
    &&& read.is_json == (event.metadata@.contains_key("content-type"@)
        && event.metadata@["content-type"@]@ == "application/json"@)
}

/// A recorded event is read part for part.
pub proof fn law_recorded_event_is_read(event: shared::RecordedEvent, read: RecordedEvent)
    requires
        call_ensures(convert_proto_recorded_event, (event,), read),
    ensures
        is_event_of(read, event),
{
}

/// The type and the format of an event are what its metadata says.
pub proof fn law_metadata_tells_type_and_format(
    metadata: &StringMap<String>,
    event_type: String,
    is_json: bool,
)
    requires
        call_ensures(metadata_event_type, (metadata,), event_type),
        call_ensures(metadata_is_json, (metadata,), is_json),
    ensures
        metadata@.contains_key("type"@) ==> event_type@ == metadata@["type"@]@,
        !metadata@.contains_key("type"@) ==> event_type@ == "<no-event-type-provided>"@,
        is_json <==> metadata@.contains_key("content-type"@) && metadata@["content-type"@]@
            == "application/json"@,
{
}

/// Whether a resolved event has the event and the link of a message, each just where the message has
/// it.
pub open spec fn is_resolution_of(
    read: ResolvedEvent,
    event: Option<shared::RecordedEvent>,
    link: Option<shared::RecordedEvent>,
    position: Option<shared::CommitPosition>,
) -> bool {
    &&& read.event is Some == event is Some
    &&& event is Some ==> is_event_of(read.event->0, event->0)
    &&& read.link is Some == link is Some
    &&& link is Some ==> is_event_of(read.link->0, link->0)
    &&& position matches Some(shared::CommitPosition::CommitPosition(commit))
        ==> read.commit_position == Some(commit)
    &&& position == Some(shared::CommitPosition::NoPosition) || position is None
        ==> read.commit_position is None
}

/// An event that is read has the event, the link and the commit position of its message, each just
/// where the message has it.
pub proof fn law_read_event_keeps_its_link(event: streams::ReadEvent, read: ResolvedEvent)
    requires
        call_ensures(convert_proto_read_event, (event,), read),
    ensures
        is_resolution_of(read, event.event, event.link, event.position),
{
}

/// An event that a persistent subscription hands out has the event, the link and the commit position
/// of its message, each just where the message has it, and has been handed out as often before as the
/// message says.
pub proof fn law_persistent_event_keeps_its_link(
    event: persistent::ReadEvent,
    read: PersistentSubscriptionEvent,
)
    requires
        call_ensures(convert_persistent_proto_read_event, (event,), read),
    ensures
        read matches PersistentSubscriptionEvent::EventAppeared { retry_count, event: resolved } && {
            &&& is_resolution_of(resolved, event.event, event.link, event.position)
            &&& event.count matches Some(persistent::Count::RetryCount(count)) ==> retry_count
                == count as usize
            &&& event.count == Some(persistent::Count::NoRetryCount) || event.count is None
                ==> retry_count == 0
        },
{
}

/// Reads and persistent subscriptions make the same of the same events.
pub proof fn law_both_services_read_alike(
    event: streams::ReadEvent,
    read: ResolvedEvent,
    handed_out: persistent::ReadEvent,
    appeared: PersistentSubscriptionEvent,
)
    requires
        call_ensures(convert_proto_read_event, (event,), read),
        call_ensures(convert_persistent_proto_read_event, (handed_out,), appeared),
        event.event == handed_out.event,
        event.link == handed_out.link,
        event.position == handed_out.position,
    ensures
        appeared matches PersistentSubscriptionEvent::EventAppeared { event: resolved, .. } && {
            &&& resolved.commit_position == read.commit_position
            &&& resolved.event is Some == read.event is Some
            &&& resolved.link is Some == read.link is Some
            &&& read.event is Some ==> resolved.event->0.id@ == read.event->0.id@
                && resolved.event->0.stream_id@ == read.event->0.stream_id@
                && resolved.event->0.revision == read.event->0.revision
            &&& read.link is Some ==> resolved.link->0.id@ == read.link->0.id@
                && resolved.link->0.stream_id@ == read.link->0.stream_id@
                && resolved.link->0.revision == read.link->0.revision
        },
{
}

/// Whether an event, if there is one, has an identifier and the name of its stream.
pub open spec fn has_its_parts(event: Option<shared::RecordedEvent>) -> bool {
    event matches Some(event) ==> {
        &&& event.id is Some
        &&& forall|is_id: bool| #[trigger]
            call_ensures(check_uuid, (&event.id->0,), is_id) ==> is_id
        &&& event.stream_identifier matches Some(stream) && valid_utf8(stream.stream_name@)
    }
}

/// A message that can be read has events and links with all of their parts.
pub proof fn law_readable_messages_have_their_parts(
    event: &streams::ReadEvent,
    r: bool,
    handed_out: &persistent::ReadEvent,
    other: bool,
)
    requires
        call_ensures(check_read_event, (event,), r),
        call_ensures(check_persistent_event, (handed_out,), other),
    ensures
        r ==> has_its_parts(event.event) && has_its_parts(event.link),
        other ==> has_its_parts(handed_out.event) && has_its_parts(handed_out.link),
{
}

/// A message whose events and links have all of their parts can be read.
pub proof fn law_messages_with_their_parts_are_readable(
    event: &streams::ReadEvent,
    r: bool,
    event_id: bool,
    link_id: bool,
    handed_out: &persistent::ReadEvent,
    other: bool,
)
    requires
        call_ensures(check_read_event, (event,), r),
        call_ensures(check_persistent_event, (handed_out,), other),
        event.event == handed_out.event,
        event.link == handed_out.link,
        event.event matches Some(event) ==> {
            &&& event.id is Some && call_ensures(check_uuid, (&event.id->0,), event_id) && event_id
            &&& event.stream_identifier matches Some(stream) && valid_utf8(stream.stream_name@)
        },
        event.link matches Some(link) ==> {
            &&& link.id is Some && call_ensures(check_uuid, (&link.id->0,), link_id) && link_id
            &&& link.stream_identifier matches Some(stream) && valid_utf8(stream.stream_name@)
        },
    ensures
        r,
        other,
{
}

} // verus!
