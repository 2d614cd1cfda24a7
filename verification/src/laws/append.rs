//! What an append is for.
use crate::commands::append::{
    append_to_stream, append_to_stream_result, check_append_resp, AppendPayload,
};
use crate::commands::event::raw_uuid_to_uuid;
use crate::ids::Uuid;
use crate::options::AppendToStreamOptions;
use crate::request::Request;
use crate::settings::ClientSettings;
use crate::text::law_utf8_reads_back;
use crate::types::{CurrentRevision, Error, EventData, ExpectedRevision, Position, WriteResult};
use crate::wire::{shared, streams};
use vstd::prelude::*;
use vstd::std_specs::iter::IteratorSpec;
use vstd::utf8::encode_utf8;

verus! {

/// An append starts with the name of its stream and the very revision that its options expect,
/// whichever of the four kinds that is, and goes on with the events that it was given.
pub proof fn law_append_carries_its_expected_revision<I: Iterator<Item = EventData>>(
    settings: &ClientSettings,
    stream: &str,
    options: &AppendToStreamOptions,
    events: I,
    r: Request<AppendPayload<I>>,
)
    requires
        call_ensures(append_to_stream::<I>, (settings, stream, options, events), r),
    ensures
        r.message.events == events,
        r.message.header matches Some(header) && (header.content matches Some(
            streams::AppendContent::Options(sent),
        ) && {
            &&& sent.expected_stream_revision == Some(options.version)
            &&& sent.stream_identifier matches Some(identifier) && identifier.stream_name@
                == encode_utf8(stream@)
        }),
{
}

/// Two appends that start alike go to the same stream and expect the same of it.
pub proof fn law_appends_that_differ_start_differently<I: Iterator<Item = EventData>>(
    settings: &ClientSettings,
    stream: &str,
    options: &AppendToStreamOptions,
    events: I,
    r: Request<AppendPayload<I>>,
    other_stream: &str,
    other_options: &AppendToStreamOptions,
    other_events: I,
    other: Request<AppendPayload<I>>,
)
    requires
        call_ensures(append_to_stream::<I>, (settings, stream, options, events), r),
        call_ensures(
            append_to_stream::<I>,
            (settings, other_stream, other_options, other_events),
            other,
        ),
        r.message.header == other.message.header,
    ensures
        stream@ == other_stream@,
        options.version == other_options.version,
{
    law_utf8_reads_back(stream@);
    law_utf8_reads_back(other_stream@);
}

/// What an append sends next is what it starts with, where that is still to come, and otherwise
/// the next event as it is: its data, its metadata, and its identifier, or a random one. An event
/// is taken only when it is sent.
pub proof fn law_append_sends_the_next_event<I: Iterator<Item = EventData>>(
    payload: Ghost<&mut AppendPayload<I>>,
    r: Option<streams::AppendReq>,
)
    requires
        call_ensures(AppendPayload::<I>::next, (payload@,), r),
    ensures
        final(payload@).header is None,
        (*payload@).header is Some ==> r == (*payload@).header && final(payload@).events
            == (*payload@).events,
        (*payload@).header is None && (*payload@).events.obeys_prophetic_iter_laws()
            && (*payload@).events.remaining().len() == 0 ==> r is None,
        (*payload@).header is None && (*payload@).events.obeys_prophetic_iter_laws()
            && (*payload@).events.remaining().len() > 0 ==> {
            let event = (*payload@).events.remaining()[0];
            &&& final(payload@).events.remaining() == (*payload@).events.remaining().drop_first()
            &&& r matches Some(sent) && (sent.content matches Some(
                streams::AppendContent::ProposedMessage(message),
            ) && {
                &&& message.data@ == event.payload@
                &&& message.metadata == event.metadata
                &&& event.custom_metadata matches Some(bytes) ==> message.custom_metadata@ == bytes@
                &&& event.custom_metadata is None ==> message.custom_metadata@.len() == 0
                &&& message.id is Some
                &&& forall|id: Uuid| #[trigger]
                    call_ensures(raw_uuid_to_uuid, (message.id->0,), id) ==> {
                        &&& event.id_opt matches Some(own) ==> id@ == own@
                        &&& event.id_opt is None ==> id@[6] / 16 == 4 && id@[8] / 64 == 2
                    }
            })
        },
{
}

/// A successful append gives the revision and the log position that the server tells, or zero where
/// it tells none. A failed one gives both revisions, each as the server tells it.
pub proof fn law_append_outcome(resp: streams::AppendResp, r: Result<WriteResult, Error>)
    requires
        call_ensures(append_to_stream_result, (resp,), r),
        resp.result is Some,
    ensures
        resp.result matches Some(streams::AppendResult::Success(told)) ==> (r matches Ok(
            written,
        ) && {
            &&& told.current_revision_option matches Some(
                streams::CurrentRevisionOption::CurrentRevision(revision),
            ) ==> written.next_expected_version == revision
            &&& told.current_revision_option == Some(streams::CurrentRevisionOption::NoStream)
                ==> written.next_expected_version == 0
            &&& told.position_option matches Some(shared::PositionOption::Position(position)) ==> {
                &&& written.position.commit == position.commit_position
                &&& written.position.prepare == position.prepare_position
            }
            &&& told.position_option == Some(shared::PositionOption::NoPosition)
                ==> written.position == (Position { commit: 0, prepare: 0 })
        }),
        resp.result matches Some(streams::AppendResult::WrongExpectedVersion(told)) ==> (r matches Err(
            Error::WrongExpectedVersion { current, expected },
        ) && {
            &&& told.current_revision_option matches Some(
                streams::CurrentRevisionOption::CurrentRevision(revision),
            ) ==> current == CurrentRevision::Current(revision)
            &&& told.current_revision_option == Some(streams::CurrentRevisionOption::NoStream)
                ==> current == CurrentRevision::NoStream
            &&& told.expected_revision_option matches Some(
                streams::ExpectedRevisionOption::ExpectedRevision(revision),
            ) ==> expected == ExpectedRevision::Exact(revision)
            &&& told.expected_revision_option == Some(
                streams::ExpectedRevisionOption::ExpectedAny,
            ) ==> expected == ExpectedRevision::Any
            &&& told.expected_revision_option == Some(
                streams::ExpectedRevisionOption::ExpectedStreamExists,
            ) ==> expected == ExpectedRevision::StreamExists
            &&& told.expected_revision_option == Some(
                streams::ExpectedRevisionOption::ExpectedNoStream,
            ) ==> expected == ExpectedRevision::NoStream
        }),
{
}

/// An answer to an append is complete just where it tells both of what its kind of answer has to.
pub proof fn law_complete_append_answers(resp: &streams::AppendResp, r: bool)
    requires
        call_ensures(check_append_resp, (resp,), r),
    ensures
        resp.result is None ==> !r,
        resp.result matches Some(streams::AppendResult::Success(told)) ==> r == (
        told.current_revision_option is Some && told.position_option is Some),
        resp.result matches Some(streams::AppendResult::WrongExpectedVersion(told)) ==> r == (
        told.current_revision_option is Some && told.expected_revision_option is Some),
{
}

} // verus!
