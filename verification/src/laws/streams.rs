//! What reading and deleting streams is for.
use crate::commands::delete::{
    delete_stream, delete_stream_result, tombstone_stream, tombstone_stream_result,
};
use crate::commands::event::check_read_event;
use crate::commands::read::{read_all, read_stream, ReadNext, ReadStep, ReadStream};
use crate::commands::start::{filter_into_proto, ps_create_filter_into_proto};
use crate::laws::event::is_resolution_of;
use crate::options::{
    DeleteStreamOptions, ReadAllOptions, ReadStreamOptions, TombstoneStreamOptions,
};
use crate::request::{metadata_entries, new_request, Request};
use crate::settings::ClientSettings;
use crate::text::law_utf8_reads_back;
use crate::types::{
    Error, ExpectedRevision, Position, ReadDirection, ReadEvent, StreamPosition,
    SubscriptionFilter,
};
use crate::wire::{shared, streams};
use vstd::prelude::*;
use vstd::utf8::encode_utf8;

verus! {

/// Whether a starting place in a regular stream is the one on the wire.
pub open spec fn starts_at_revision(
    start: StreamPosition<u64>,
    sent: Option<shared::RevisionOption>,
) -> bool {
    &&& start == StreamPosition::<u64>::Start ==> sent == Some(shared::RevisionOption::Start)
    &&& start == StreamPosition::<u64>::End ==> sent == Some(shared::RevisionOption::End)
    &&& start matches StreamPosition::Position(revision) ==> sent == Some(
        shared::RevisionOption::Revision(revision),
    )
}

/// Whether a starting place in `$all` is the one on the wire.
pub open spec fn starts_at_position(
    start: StreamPosition<Position>,
    sent: Option<shared::AllOption>,
) -> bool {
    &&& start == StreamPosition::<Position>::Start ==> sent == Some(shared::AllOption::Start)
    &&& start == StreamPosition::<Position>::End ==> sent == Some(shared::AllOption::End)
    &&& start matches StreamPosition::Position(position) ==> (sent matches Some(
        shared::AllOption::Position(told),
    ) && told.commit_position == position.commit && told.prepare_position == position.prepare)
}

/// Whether an expression holds the expression and the prefixes of a filter, in turn.
pub open spec fn holds_filter(
    expression: shared::FilterExpression,
    filter: SubscriptionFilter,
) -> bool {
    &&& filter.regex matches Some(regex) ==> expression.regex@ == regex@
    &&& filter.regex is None ==> expression.regex@.len() == 0
    &&& expression.prefix@.len() == filter.prefixes@.len()
    &&& forall|i: int|
        0 <= i < filter.prefixes@.len() ==> (#[trigger] expression.prefix@[i])@
            == filter.prefixes@[i]@
}

/// Whether options are those of a filter: on streams or on types, as the filter says, with its
/// window.
pub open spec fn filters(options: shared::FilterOptions, filter: SubscriptionFilter) -> bool {
    &&& filter.based_on_stream ==> (options.filter matches Some(
        shared::Filter::StreamIdentifier(expression),
    ) && holds_filter(expression, filter))
    &&& !filter.based_on_stream ==> (options.filter matches Some(
        shared::Filter::EventType(expression),
    ) && holds_filter(expression, filter))
    &&& filter.max matches Some(max) ==> options.window == Some(shared::FilterWindow::Max(max))
    &&& filter.max is None ==> options.window == Some(shared::FilterWindow::Count)
    &&& options.checkpoint_interval_multiplier == 1
}

/// A filter is written whole, for a subscription and for a persistent one alike.
pub proof fn law_filter_is_written_whole(
    filter: SubscriptionFilter,
    r: shared::FilterOptions,
    other: shared::FilterOptions,
)
    requires
        call_ensures(filter_into_proto, (filter,), r),
        call_ensures(ps_create_filter_into_proto, (&filter,), other),
    ensures
        filters(r, filter),
        filters(other, filter),
{
    reveal_strlit("");
    lemma_filter(r, filter);
    lemma_filter(other, filter);
}

/// What a filter is on the wire holds all of its parts.
pub proof fn lemma_filter(options: shared::FilterOptions, filter: SubscriptionFilter)
    requires
        crate::commands::start::is_filter(options, filter),
    ensures
        filters(options, filter),
{
    reveal_strlit("");
    let expression = if filter.based_on_stream {
        options.filter->0->StreamIdentifier_0
    } else {
        options.filter->0->EventType_0
    };
    let sent = crate::commands::start::texts(expression.prefix@);
    let wanted = crate::commands::start::texts(filter.prefixes@);
    assert(sent.len() == wanted.len());
    assert forall|i: int| 0 <= i < filter.prefixes@.len() implies (
    #[trigger] expression.prefix@[i])@ == filter.prefixes@[i]@ by {
        assert(sent[i] == wanted[i]);
    }
}

/// A stream is read from where its options say, in their direction, as many events as asked for, and
/// with links resolved just where they say so.
pub proof fn law_read_asks_for_the_stream(
    settings: &ClientSettings,
    options: &ReadStreamOptions,
    stream: &str,
    count: u64,
    r: Request<streams::ReadReq>,
    any: Request<()>,
)
    requires
        call_ensures(read_stream, (settings, options, stream, count), r),
        call_ensures(new_request::<(), ReadStreamOptions>, (settings, options, ()), any),
    ensures
        metadata_entries(r.metadata) == metadata_entries(any.metadata),
        r.message.options matches Some(sent) && {
            &&& sent.stream_option matches Some(streams::StreamOption::Stream(read)) && {
                &&& read.stream_identifier matches Some(identifier) && identifier.stream_name@
                    == encode_utf8(stream@)
                &&& starts_at_revision(options.position, read.revision_option)
            }
            &&& sent.resolve_links == options.resolve_link_tos
            &&& sent.filter_option == Some(shared::FilterOption::NoFilter)
            &&& sent.count_option == Some(streams::CountOption::Count(count))
            &&& sent.uuid_option == Some(streams::UuidOption::String)
            &&& sent.control_option is None
            &&& options.direction == ReadDirection::Forward ==> sent.read_direction == 0
            &&& options.direction == ReadDirection::Backward ==> sent.read_direction == 1
        },
{
}

/// `$all` is read from where its options say, in their direction, as many events as asked for, and
/// with links resolved just where they say so.
pub proof fn law_read_asks_for_all(
    settings: &ClientSettings,
    options: &ReadAllOptions,
    count: u64,
    r: Request<streams::ReadReq>,
    any: Request<()>,
)
    requires
        call_ensures(read_all, (settings, options, count), r),
        call_ensures(new_request::<(), ReadAllOptions>, (settings, options, ()), any),
    ensures
        metadata_entries(r.metadata) == metadata_entries(any.metadata),
        r.message.options matches Some(sent) && {
            &&& sent.stream_option matches Some(streams::StreamOption::All(read))
                && starts_at_position(options.position, read.all_option)
            &&& sent.resolve_links == options.resolve_link_tos
            &&& sent.filter_option == Some(shared::FilterOption::NoFilter)
            &&& sent.count_option == Some(streams::CountOption::Count(count))
            &&& sent.uuid_option == Some(streams::UuidOption::String)
            &&& sent.control_option is None
            &&& options.direction == ReadDirection::Forward ==> sent.read_direction == 0
            &&& options.direction == ReadDirection::Backward ==> sent.read_direction == 1
        },
{
}

/// Two reads that ask for the same are of the same stream, from the same place, in the same
/// direction, and of as many events.
pub proof fn law_reads_that_differ_ask_differently(
    settings: &ClientSettings,
    options: &ReadStreamOptions,
    stream: &str,
    count: u64,
    r: Request<streams::ReadReq>,
    other_options: &ReadStreamOptions,
    other_stream: &str,
    other_count: u64,
    other: Request<streams::ReadReq>,
)
    requires
        call_ensures(read_stream, (settings, options, stream, count), r),
        call_ensures(read_stream, (settings, other_options, other_stream, other_count), other),
        r.message == other.message,
    ensures
        stream@ == other_stream@,
        count == other_count,
        options.position == other_options.position,
        options.direction == other_options.direction,
        options.resolve_link_tos == other_options.resolve_link_tos,
{
    law_utf8_reads_back(stream@);
    law_utf8_reads_back(other_stream@);
}

/// A read gives each event of its answer, link included, and each place that the server tells. It
/// passes over confirmations and checkpoints. It ends with its answer, and fails where there is no
/// stream or the call breaks off, which is reported for its channel.
pub proof fn law_read_gives_its_answer(
    reader: &ReadStream,
    received: Result<Option<streams::ReadResp>, Error>,
    r: ReadStep,
)
    requires
        call_ensures(ReadStream::next_read_event, (reader, received), r),
    ensures
        received matches Err(error) ==> r == (ReadStep::Report {
            channel_id: reader.channel_id,
            error,
        }),
        received matches Ok(None) ==> r == ReadStep::Return(Ok(None)),
        received matches Ok(Some(resp)) ==> {
            &&& resp.content is None ==> r is Malformed
            &&& resp.content matches Some(streams::ReadContent::StreamNotFound) ==> r
                == ReadStep::Return(Err(Error::ResourceNotFound))
            &&& resp.content matches Some(streams::ReadContent::FirstStreamPosition(revision)) ==> r
                == ReadStep::Return(Ok(Some(ReadEvent::FirstStreamPosition(revision))))
            &&& resp.content matches Some(streams::ReadContent::LastStreamPosition(revision)) ==> r
                == ReadStep::Return(Ok(Some(ReadEvent::LastStreamPosition(revision))))
            &&& resp.content matches Some(streams::ReadContent::LastAllStreamPosition(position)) ==> (
            r matches ReadStep::Return(Ok(Some(ReadEvent::LastAllStreamPosition(read))))
                && read.commit == position.commit_position && read.prepare
                == position.prepare_position)
            &&& resp.content matches Some(streams::ReadContent::Confirmation { .. }) ==> r is Again
            &&& resp.content matches Some(streams::ReadContent::Checkpoint(_)) ==> r is Again
            &&& resp.content matches Some(streams::ReadContent::Event(event)) ==> {
                &&& forall|readable: bool| #[trigger]
                    call_ensures(check_read_event, (&event,), readable) ==> (r is Malformed
                        == !readable)
                &&& !(r is Malformed) ==> (r matches ReadStep::Return(
                    Ok(Some(ReadEvent::Event(read))),
                ) && is_resolution_of(read, event.event, event.link, event.position))
            }
        },
{
}

/// A reader of events alone gets each event as it was read, goes on behind anything else, and ends
/// with the read.
pub proof fn law_reader_gets_events(reader: &ReadStream, read: Option<ReadEvent>, r: ReadNext)
    requires
        call_ensures(ReadStream::next, (reader, read), r),
    ensures
        read matches Some(ReadEvent::Event(event)) ==> r == ReadNext::Return(Some(event)),
        read is Some && !(read->0 is Event) ==> r is Again,
        read is None ==> r == ReadNext::Return(None),
{
}

/// Whether what is sent expects the same of a stream.
pub open spec fn expects(
    expected: ExpectedRevision,
    sent: Option<streams::ExpectedStreamRevision>,
) -> bool {
    &&& expected == ExpectedRevision::Any ==> sent == Some(streams::ExpectedStreamRevision::Any)
    &&& expected == ExpectedRevision::NoStream ==> sent == Some(
        streams::ExpectedStreamRevision::NoStream,
    )
    &&& expected == ExpectedRevision::StreamExists ==> sent == Some(
        streams::ExpectedStreamRevision::StreamExists,
    )
    &&& expected matches ExpectedRevision::Exact(revision) ==> sent == Some(
        streams::ExpectedStreamRevision::Revision(revision),
    )
}

/// Deleting a stream names it and expects of it what the options say.
pub proof fn law_delete_names_the_stream(
    settings: &ClientSettings,
    stream: &str,
    options: &DeleteStreamOptions,
    r: Request<streams::DeleteReq>,
    any: Request<()>,
)
    requires
        call_ensures(delete_stream, (settings, stream, options), r),
        call_ensures(new_request::<(), DeleteStreamOptions>, (settings, options, ()), any),
    ensures
        metadata_entries(r.metadata) == metadata_entries(any.metadata),
        r.message.options matches Some(sent) && {
            &&& sent.stream_identifier matches Some(identifier) && identifier.stream_name@
                == encode_utf8(stream@)
            &&& expects(options.version, sent.expected_stream_revision)
        },
{
}

/// Deleting a stream for good names it and expects of it what the options say.
pub proof fn law_tombstone_names_the_stream(
    settings: &ClientSettings,
    stream: &str,
    options: &TombstoneStreamOptions,
    r: Request<streams::TombstoneReq>,
    any: Request<()>,
)
    requires
        call_ensures(tombstone_stream, (settings, stream, options), r),
        call_ensures(new_request::<(), TombstoneStreamOptions>, (settings, options, ()), any),
    ensures
        metadata_entries(r.metadata) == metadata_entries(any.metadata),
        r.message.options matches Some(sent) && {
            &&& sent.stream_identifier matches Some(identifier) && identifier.stream_name@
                == encode_utf8(stream@)
            &&& expects(options.version, sent.expected_stream_revision)
        },
{
}

/// A deletion tells its log position just where the server does.
pub proof fn law_deletion_tells_its_position(
    resp: streams::DeleteResp,
    r: Option<Position>,
    other_resp: streams::TombstoneResp,
    other: Option<Position>,
)
    requires
        call_ensures(delete_stream_result, (resp,), r),
        call_ensures(tombstone_stream_result, (other_resp,), other),
    ensures
        resp.position_option matches Some(shared::PositionOption::Position(position)) ==> (
        r matches Some(read) && read.commit == position.commit_position && read.prepare
            == position.prepare_position),
        r is Some ==> resp.position_option matches Some(shared::PositionOption::Position(_)),
        other_resp.position_option matches Some(shared::PositionOption::Position(position)) ==> (
        other matches Some(read) && read.commit == position.commit_position && read.prepare
            == position.prepare_position),
        other is Some ==> other_resp.position_option matches Some(
            shared::PositionOption::Position(_),
        ),
{
}

} // verus!
