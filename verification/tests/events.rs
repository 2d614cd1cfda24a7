use eventstore::commands::event::{
    check_read_event, check_uuid, convert_event_data, convert_event_data_to_batch_proposed_message,
    convert_persistent_proto_read_event, convert_proto_read_event, convert_proto_recorded_event,
    metadata_event_type, metadata_is_json, propose, raw_uuid_to_uuid, stream_identifier,
    to_proto_uuid,
};
use eventstore::ids::Uuid;
use eventstore::string_map::StringMap;
use eventstore::types::{EventData, PersistentSubscriptionEvent, Position, ResolvedEvent};
use eventstore::wire::persistent;
use eventstore::wire::shared::{self, UuidValue};
use eventstore::wire::streams;

const ID: &str = "00112233-4455-6677-8899-aabbccddeeff";

fn id() -> Uuid {
    Uuid {
        bytes: [
            0x00, 0x11, 0x22, 0x33, 0x44, 0x55, 0x66, 0x77, 0x88, 0x99, 0xaa, 0xbb, 0xcc, 0xdd, 0xee,
            0xff,
        ],
    }
}

fn text_id(text: &str) -> shared::Uuid {
    shared::Uuid { value: Some(UuidValue::String(text.to_owned())) }
}

fn structured_id(most_significant_bits: i64, least_significant_bits: i64) -> shared::Uuid {
    shared::Uuid {
        value: Some(UuidValue::Structured { most_significant_bits, least_significant_bits }),
    }
}

fn sent_text(id: &shared::Uuid) -> String {
    match &id.value {
        Some(UuidValue::String(text)) => text.clone(),
        other => panic!("{:?}", other),
    }
}

fn metadata(entries: &[(&str, &str)]) -> StringMap<String> {
    let mut map = StringMap::new();
    for (key, value) in entries {
        map.insert(key.to_string(), value.to_string());
    }
    map
}

fn event(id_opt: Option<Uuid>) -> EventData {
    EventData {
        id_opt,
        payload: vec![1, 2, 3],
        metadata: metadata(&[("type", "created"), ("content-type", "application/json")]),
        custom_metadata: Some(vec![9]),
    }
}

fn recorded(stream: &str) -> shared::RecordedEvent {
    shared::RecordedEvent {
        id: Some(text_id(ID)),
        stream_identifier: Some(stream_identifier(stream)),
        stream_revision: 7,
        prepare_position: 40,
        commit_position: 41,
        metadata: metadata(&[("type", "created"), ("content-type", "application/json")]),
        custom_metadata: vec![9],
        data: vec![1, 2, 3],
    }
}

#[test]
fn identifiers_are_read_in_both_forms() {
    assert_eq!(raw_uuid_to_uuid(text_id(ID)), id());
    assert_eq!(raw_uuid_to_uuid(text_id("00112233445566778899AABBCCDDEEFF")), id());
    assert_eq!(
        raw_uuid_to_uuid(text_id("urn:uuid:00112233-4455-6677-8899-aabbccddeeff")),
        id()
    );
    assert_eq!(
        raw_uuid_to_uuid(structured_id(0x0011_2233_4455_6677, 0x8899_aabb_ccdd_eeff_u64 as i64)),
        id()
    );
    assert_eq!(raw_uuid_to_uuid(structured_id(-1, 0)).bytes[..8], [0xff; 8]);
    assert_eq!(raw_uuid_to_uuid(structured_id(-1, 0)).bytes[8..], [0; 8]);
    assert_eq!(raw_uuid_to_uuid(structured_id(0, 0)), Uuid::nil());
}

#[test]
fn identifiers_that_cannot_be_read_are_told() {
    assert!(check_uuid(&text_id(ID)));
    assert!(check_uuid(&structured_id(1, 2)));
    assert!(!check_uuid(&text_id("")));
    assert!(!check_uuid(&text_id("00112233-4455-6677-8899-aabbccddeefg")));
    assert!(!check_uuid(&text_id("0011223344556677-8899-aabbccddeeff")));
    assert!(!check_uuid(&shared::Uuid { value: None }));
}

#[test]
fn identifiers_are_written_as_text() {
    assert_eq!(sent_text(&to_proto_uuid(id())), ID);
    assert_eq!(sent_text(&to_proto_uuid(Uuid::nil())), "00000000-0000-0000-0000-000000000000");
    assert_eq!(raw_uuid_to_uuid(to_proto_uuid(id())), id());
}

#[test]
fn different_words_make_different_identifiers() {
    let words = [i64::MIN, -1, 0, 1, 256, i64::MAX];
    for high in words {
        for low in words {
            let made = Uuid::from_words(high, low);
            assert_eq!(made.bytes[..8], high.to_be_bytes());
            assert_eq!(made.bytes[8..], low.to_be_bytes());
            assert_eq!(made == Uuid::from_words(0, 1), (high, low) == (0, 1));
        }
    }
}

#[test]
fn events_keep_their_identifier() {
    let message = convert_event_data_to_batch_proposed_message(event(Some(id())));
    assert_eq!(sent_text(&message.id.unwrap()), ID);
    assert_eq!(message.data, [1, 2, 3]);
    assert_eq!(message.custom_metadata, [9]);
    assert_eq!(message.metadata.get("type").unwrap(), "created");
}

#[test]
fn events_without_identifier_get_a_random_one() {
    let first = raw_uuid_to_uuid(convert_event_data_to_batch_proposed_message(event(None)).id.unwrap());
    let second = match convert_event_data(event(None)).content {
        Some(streams::AppendContent::ProposedMessage(message)) => {
            raw_uuid_to_uuid(message.id.unwrap())
        }
        other => panic!("{:?}", other),
    };
    for made in [first, second] {
        assert_eq!(made.bytes[6] >> 4, 4);
        assert_eq!(made.bytes[8] >> 6, 2);
    }
    assert_ne!(first, second);
}

#[test]
fn no_custom_metadata_is_empty() {
    let mut given = event(Some(id()));
    given.custom_metadata = None;
    assert!(propose(given, id()).custom_metadata.is_empty());
}

#[test]
fn recorded_events_are_read() {
    let read = convert_proto_recorded_event(recorded("straße"));
    assert_eq!(read.id, id());
    assert_eq!(read.stream_id, "straße");
    assert_eq!(read.revision, 7);
    assert_eq!(read.position, Position { commit: 41, prepare: 40 });
    assert_eq!(read.event_type, "created");
    assert!(read.is_json);
    assert_eq!(read.metadata.get("content-type").unwrap(), "application/json");
    assert_eq!(read.custom_metadata, [9]);
    assert_eq!(read.data, [1, 2, 3]);
}

#[test]
fn types_and_formats_come_from_metadata() {
    let none = metadata(&[]);
    assert_eq!(metadata_event_type(&none), "<no-event-type-provided>");
    assert!(!metadata_is_json(&none));
    let empty = metadata(&[("type", ""), ("content-type", "")]);
    assert_eq!(metadata_event_type(&empty), "");
    assert!(!metadata_is_json(&empty));
    let other = metadata(&[("Type", "x"), ("content-type", "application/JSON")]);
    assert_eq!(metadata_event_type(&other), "<no-event-type-provided>");
    assert!(!metadata_is_json(&other));
}

#[test]
fn proposed_events_read_back() {
    let message = propose(event(None), id());
    let read = convert_proto_recorded_event(shared::RecordedEvent {
        id: message.id,
        metadata: message.metadata,
        custom_metadata: message.custom_metadata,
        data: message.data,
        stream_identifier: Some(stream_identifier("orders")),
        stream_revision: 0,
        prepare_position: 0,
        commit_position: 0,
    });
    assert_eq!(read.id, id());
    assert_eq!(read.stream_id, "orders");
    assert_eq!(read.data, [1, 2, 3]);
    assert_eq!(read.custom_metadata, [9]);
    assert_eq!(read.event_type, "created");
}

#[test]
fn resolved_events_keep_event_and_link() {
    let read = convert_proto_read_event(streams::ReadEvent {
        event: Some(recorded("target")),
        link: Some(recorded("links")),
        position: Some(shared::CommitPosition::CommitPosition(5)),
    });
    assert_eq!(read.event.as_ref().unwrap().stream_id, "target");
    assert_eq!(read.link.as_ref().unwrap().stream_id, "links");
    assert_eq!(read.commit_position, Some(5));
    assert_eq!(read.get_original_event().stream_id, "links");
    let read = convert_proto_read_event(streams::ReadEvent {
        event: Some(recorded("target")),
        link: None,
        position: Some(shared::CommitPosition::NoPosition),
    });
    assert!(read.link.is_none());
    assert_eq!(read.commit_position, None);
    assert_eq!(read.get_original_event().stream_id, "target");
}

#[test]
fn events_that_cannot_be_read_are_told() {
    let mut nameless = recorded("x");
    nameless.stream_identifier = None;
    let mut unnamed = recorded("x");
    unnamed.id = None;
    let mut garbled = recorded("x");
    garbled.stream_identifier = Some(shared::StreamIdentifier { stream_name: vec![0xff] });
    for broken in [nameless, unnamed, garbled] {
        let message = streams::ReadEvent { event: Some(recorded("y")), link: Some(broken), position: None };
        assert!(!check_read_event(&message));
    }
    assert!(check_read_event(&streams::ReadEvent { event: None, link: None, position: None }));
}

#[test]
fn persistent_events_count_their_retries() {
    let counts = [
        (Some(persistent::Count::RetryCount(3)), 3),
        (Some(persistent::Count::NoRetryCount), 0),
        (None, 0),
        (Some(persistent::Count::RetryCount(-1)), usize::MAX),
    ];
    for (count, expected) in counts {
        let read = convert_persistent_proto_read_event(persistent::ReadEvent {
            event: Some(recorded("x")),
            link: None,
            position: Some(shared::CommitPosition::CommitPosition(8)),
            count,
        });
        match read {
            PersistentSubscriptionEvent::EventAppeared { retry_count, event } => {
                assert_eq!(retry_count, expected);
                assert_eq!(event.commit_position, Some(8));
                let ResolvedEvent { event, link, .. } = event;
                assert_eq!(event.unwrap().id, id());
                assert!(link.is_none());
            }
            other => panic!("{:?}", other),
        }
    }
}

#[test]
fn a_key_has_one_value() {
    let mut map: StringMap<i64> = StringMap::new();
    assert!(map.get("a").is_none());
    map.insert("a".to_owned(), 1);
    map.insert("b".to_owned(), 2);
    map.insert("a".to_owned(), 3);
    assert_eq!(map.get("a"), Some(&3));
    assert_eq!(map.get("b"), Some(&2));
    assert_eq!(map.get("c"), None);
    assert_eq!(map.entries().len(), 2);
    assert!(map.entries().contains(&("a".to_owned(), 3)));
}
