//! Appending events to a stream.
use crate::commands::event::{appends, convert_event_data, stream_identifier};
use crate::commands::start::{from_wire_position, position_of};
use crate::options::{AppendToStreamOptions, Options};
use crate::request::{can_be_sent, command_metadata, metadata_entries, new_request, Request};
use crate::settings::ClientSettings;
use crate::types::{CurrentRevision, Error, EventData, ExpectedRevision, Position, WriteResult};
use crate::wire::shared;
use crate::wire::streams;
use vstd::prelude::*;
use vstd::std_specs::iter::IteratorSpec;
use vstd::utf8::encode_utf8;

verus! {

/// Whether a message is what an append starts with.
pub open spec fn is_append_header(
    header: streams::AppendReq,
    stream: Seq<char>,
    version: streams::ExpectedStreamRevision,
) -> bool {
    header.content matches Some(streams::AppendContent::Options(options)) && {
        &&& options.stream_identifier matches Some(identifier) && identifier.stream_name@
            == encode_utf8(stream)
        &&& options.expected_stream_revision == Some(version)
    }
}

/// What an append sends: what it starts with, then each event in turn.
pub struct AppendPayload<I> {
    pub header: Option<streams::AppendReq>,
    pub events: I,
}

/// What an append has yet to send.
pub struct Unsent {
    pub header: Option<streams::AppendReq>,
    pub events: Seq<EventData>,
}

/// What an append sends next, if anything, and what it has yet to send then.
pub open spec fn append_step(
    unsent: Unsent,
    sent: Option<streams::AppendReq>,
    after: Unsent,
) -> bool {
    &&& after.header is None
    &&& if unsent.header is Some {
        sent == unsent.header && after.events == unsent.events
    } else if unsent.events.len() > 0 {
        &&& sent matches Some(message) && appends(message, unsent.events[0])
        &&& after.events == unsent.events.drop_first()
    } else {
        sent is None && after.events == unsent.events
    }
}

impl<I: Iterator<Item = EventData>> AppendPayload<I> {
    /// The next message. An event is not asked for before its turn.
    pub fn next(&mut self) -> (r: Option<streams::AppendReq>)
        ensures
            final(self).header is None,
            old(self).header is Some ==> r == old(self).header && final(self).events == old(
                self,
            ).events,
            old(self).events.obeys_prophetic_iter_laws() ==> append_step(
                Unsent { header: old(self).header, events: old(self).events.remaining() },
                r,
                Unsent { header: final(self).header, events: final(self).events.remaining() },
            ),
            final(self).events.obeys_prophetic_iter_laws() == old(
                self,
            ).events.obeys_prophetic_iter_laws(),
    {
        match self.header.take() {
            Some(header) => Some(header),
            None => match self.events.next() {
                Some(event) => Some(convert_event_data(event)),
                None => None,
            },
        }
    }
}

/// Appends events to a stream.
pub fn append_to_stream<I: Iterator<Item = EventData>>(
    settings: &ClientSettings,
    stream: &str,
    options: &AppendToStreamOptions,
    events: I,
) -> (r: Request<AppendPayload<I>>)
    requires
        can_be_sent(*settings, *options),
    ensures
        metadata_entries(r.metadata) == command_metadata(
            *settings,
            options.common(),
            options.operation_kind(),
        ),
        r.message.header matches Some(header) && is_append_header(header, stream@, options.version),
        r.message.events == events,
{
    let header = streams::AppendReq {
        content: Some(
            streams::AppendContent::Options(
                streams::AppendOptions {
                    stream_identifier: Some(stream_identifier(stream)),
                    expected_stream_revision: Some(options.version),
                },
            ),
        ),
    };
    new_request(settings, options, AppendPayload { header: Some(header), events })
}

/// A course of an append: what it sent each time, and what it had yet to send in between.
pub open spec fn is_append_run(
    states: Seq<Unsent>,
    sent: Seq<Option<streams::AppendReq>>,
) -> bool {
    &&& states.len() == sent.len() + 1
    &&& forall|i: int|
        #![trigger sent[i]]
        0 <= i < sent.len() ==> append_step(states[i], sent[i], states[i + 1])
}

/// An append sends what it starts with, then one message for each event, in the order of the
/// events, and then nothing more.
pub proof fn law_events_are_sent_in_order(
    states: Seq<Unsent>,
    sent: Seq<Option<streams::AppendReq>>,
    i: int,
)
    requires
        is_append_run(states, sent),
        states[0].header is Some,
        0 <= i < sent.len(),
    ensures
        i == 0 ==> sent[i] == states[0].header,
        0 < i <= states[0].events.len() ==> (sent[i] matches Some(message) && appends(
            message,
            states[0].events[i - 1],
        )),
        i > states[0].events.len() ==> sent[i] is None,
{
    lemma_unsent(states, sent, i);
}

proof fn lemma_unsent(states: Seq<Unsent>, sent: Seq<Option<streams::AppendReq>>, i: int)
    requires
        is_append_run(states, sent),
        states[0].header is Some,
        0 <= i < sent.len(),
    ensures
        append_step(states[i], sent[i], states[i + 1]),
        i > 0 ==> states[i].header is None,
        i > 0 ==> states[i].events == if i - 1 <= states[0].events.len() {
            states[0].events.skip(i - 1)
        } else {
            Seq::empty()
        },
    decreases i,
{
    assert(append_step(states[i], sent[i], states[i + 1]));
    if i > 0 {
        lemma_unsent(states, sent, i - 1);
        let all = states[0].events;
        if i == 1 {
            assert(all.skip(0) =~= all);
        } else if i - 1 <= all.len() {
            assert(all.skip(i - 2).drop_first() =~= all.skip(i - 1));
        } else if i - 2 == all.len() {
            assert(all.skip(i - 2) =~= Seq::empty());
        }
    }
}

/// Whether the answer to an append says all that it has to.
pub open spec fn append_resp_is_complete(resp: streams::AppendResp) -> bool {
    match resp.result {
        Some(streams::AppendResult::Success(success)) => {
            success.current_revision_option is Some && success.position_option is Some
        },
        Some(streams::AppendResult::WrongExpectedVersion(error)) => {
            error.current_revision_option is Some && error.expected_revision_option is Some
        },
        None => false,
    }
}

/// Tells whether the answer to an append says all that it has to.
pub fn check_append_resp(resp: &streams::AppendResp) -> (r: bool)
    ensures
        r == append_resp_is_complete(*resp),
{
    match resp.result {
        Some(streams::AppendResult::Success(success)) => {
            success.current_revision_option.is_some() && success.position_option.is_some()
        },
        Some(streams::AppendResult::WrongExpectedVersion(error)) => {
            error.current_revision_option.is_some() && error.expected_revision_option.is_some()
        },
        None => false,
    }
}

/// What a write expected, as the server tells it.
pub open spec fn expected_revision_of(expected: streams::ExpectedRevisionOption) -> ExpectedRevision {
    match expected {
        streams::ExpectedRevisionOption::ExpectedRevision(revision) => ExpectedRevision::Exact(
            revision,
        ),
        streams::ExpectedRevisionOption::ExpectedAny => ExpectedRevision::Any,
        streams::ExpectedRevisionOption::ExpectedStreamExists => ExpectedRevision::StreamExists,
        streams::ExpectedRevisionOption::ExpectedNoStream => ExpectedRevision::NoStream,
    }
}

/// What the answer to an append amounts to.
pub open spec fn append_result(resp: streams::AppendResp) -> Result<WriteResult, Error> {
    match resp.result->0 {
        streams::AppendResult::Success(success) => Ok(
            WriteResult {
                next_expected_version: match success.current_revision_option->0 {
                    streams::CurrentRevisionOption::CurrentRevision(revision) => revision,
                    streams::CurrentRevisionOption::NoStream => 0,
                },
                position: match success.position_option->0 {
                    shared::PositionOption::Position(position) => position_of(position),
                    shared::PositionOption::NoPosition => Position { commit: 0, prepare: 0 },
                },
            },
        ),
        streams::AppendResult::WrongExpectedVersion(error) => Err(
            Error::WrongExpectedVersion {
                current: match error.current_revision_option->0 {
                    streams::CurrentRevisionOption::CurrentRevision(
                        revision,
                    ) => CurrentRevision::Current(revision),
                    streams::CurrentRevisionOption::NoStream => CurrentRevision::NoStream,
                },
                expected: expected_revision_of(error.expected_revision_option->0),
            },
        ),
    }
}

/// Reads the answer to an append.
pub fn append_to_stream_result(resp: streams::AppendResp) -> (r: Result<WriteResult, Error>)
    requires
        append_resp_is_complete(resp),
    ensures
        r == append_result(resp),
{
    match resp.result.unwrap() {
        streams::AppendResult::Success(success) => {
            let next_expected_version: u64 = match success.current_revision_option.unwrap() {
                streams::CurrentRevisionOption::CurrentRevision(revision) => revision,
                streams::CurrentRevisionOption::NoStream => 0,
            };
            let position = match success.position_option.unwrap() {
                shared::PositionOption::Position(position) => from_wire_position(position),
                shared::PositionOption::NoPosition => Position::start(),
            };
            Ok(WriteResult { next_expected_version, position })
        },
        streams::AppendResult::WrongExpectedVersion(error) => {
            let current = match error.current_revision_option.unwrap() {
                streams::CurrentRevisionOption::CurrentRevision(
                    revision,
                ) => CurrentRevision::Current(revision),
                streams::CurrentRevisionOption::NoStream => CurrentRevision::NoStream,
            };
            let expected = match error.expected_revision_option.unwrap() {
                streams::ExpectedRevisionOption::ExpectedRevision(
                    revision,
                ) => ExpectedRevision::Exact(revision),
                streams::ExpectedRevisionOption::ExpectedAny => ExpectedRevision::Any,
                streams::ExpectedRevisionOption::ExpectedStreamExists =>
                    ExpectedRevision::StreamExists,
                streams::ExpectedRevisionOption::ExpectedNoStream => ExpectedRevision::NoStream,
            };
            Err(Error::WrongExpectedVersion { current, expected })
        },
    }
}

} // verus!
