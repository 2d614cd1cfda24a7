//! Reading streams.
use crate::commands::event::{
    check_read_event, convert_proto_read_event, is_read_event, read_event_is_readable,
    stream_identifier,
};
use crate::commands::start::{
    all_option, from_wire_position, position_of, revision_option, to_all_option, to_revision_option,
};
use crate::ids::Uuid;
use crate::options::{Options, ReadAllOptions, ReadStreamOptions};
use crate::request::{can_be_sent, command_metadata, metadata_entries, new_request, Request};
use crate::settings::ClientSettings;
use crate::types::{Error, ReadDirection, ReadEvent, ResolvedEvent};
use crate::wire::shared;
use crate::wire::streams;
use vstd::prelude::*;
use vstd::utf8::encode_utf8;

verus! {

/// The number of a direction, on the wire.
pub open spec fn direction_code(direction: ReadDirection) -> i32 {
    match direction {
        ReadDirection::Forward => 0,
        ReadDirection::Backward => 1,
    }
}

fn to_direction_code(direction: ReadDirection) -> (r: i32)
    ensures
        r == direction_code(direction),
{
    match direction {
        ReadDirection::Forward => 0,
        ReadDirection::Backward => 1,
    }
}

/// Whether what to read from is the regular stream, from the given place.
pub open spec fn reads_stream(
    option: Option<streams::StreamOption>,
    stream: Seq<char>,
    start: shared::RevisionOption,
) -> bool {
    option matches Some(streams::StreamOption::Stream(options)) && {
        &&& options.stream_identifier matches Some(identifier) && identifier.stream_name@
            == encode_utf8(stream)
        &&& options.revision_option == Some(start)
    }
}

/// Whether what to read from is `$all`, from the given place.
pub open spec fn reads_all(
    option: Option<streams::StreamOption>,
    start: shared::AllOption,
) -> bool {
    option == Some(
        streams::StreamOption::All(streams::AllOptions { all_option: Some(start) }),
    )
}

/// Whether options are those of a plain read: no filter, a count of events, identifiers as
/// text, and the given direction.
pub open spec fn is_plain_read(
    options: streams::ReadOptions,
    resolve_links: bool,
    count: u64,
    direction: ReadDirection,
) -> bool {
    &&& options.resolve_links == resolve_links
    &&& options.filter_option == Some(shared::FilterOption::NoFilter)
    &&& options.count_option == Some(streams::CountOption::Count(count))
    &&& options.uuid_option == Some(streams::UuidOption::String)
    &&& options.control_option is None
    &&& options.read_direction == direction_code(direction)
}

/// Reads a stream.
pub fn read_stream(
    settings: &ClientSettings,
    options: &ReadStreamOptions,
    stream: &str,
    count: u64,
) -> (r: Request<streams::ReadReq>)
    requires
        can_be_sent(*settings, *options),
    ensures
        metadata_entries(r.metadata) == command_metadata(
            *settings,
            options.common(),
            options.operation_kind(),
        ),
        r.message.options matches Some(sent) && {
            &&& reads_stream(sent.stream_option, stream@, revision_option(options.position))
            &&& is_plain_read(sent, options.resolve_link_tos, count, options.direction)
        },
{
    let stream_options = streams::StreamOptions {
        stream_identifier: Some(stream_identifier(stream)),
        revision_option: Some(to_revision_option(options.position)),
    };
    let req_options = streams::ReadOptions {
        stream_option: Some(streams::StreamOption::Stream(stream_options)),
        resolve_links: options.resolve_link_tos,
        filter_option: Some(shared::FilterOption::NoFilter),
        count_option: Some(streams::CountOption::Count(count)),
        uuid_option: Some(streams::UuidOption::String),
        control_option: None,
        read_direction: to_direction_code(options.direction),
    };
    new_request(settings, options, streams::ReadReq { options: Some(req_options) })
}

/// Reads `$all`.
pub fn read_all(settings: &ClientSettings, options: &ReadAllOptions, count: u64) -> (r: Request<
    streams::ReadReq,
>)
    requires
        can_be_sent(*settings, *options),
    ensures
        metadata_entries(r.metadata) == command_metadata(
            *settings,
            options.common(),
            options.operation_kind(),
        ),
        r.message.options matches Some(sent) && {
            &&& reads_all(sent.stream_option, all_option(options.position))
            &&& is_plain_read(sent, options.resolve_link_tos, count, options.direction)
        },
{
    let stream_options = streams::AllOptions {
        all_option: Some(to_all_option(options.position)),
    };
    let req_options = streams::ReadOptions {
        stream_option: Some(streams::StreamOption::All(stream_options)),
        resolve_links: options.resolve_link_tos,
        filter_option: Some(shared::FilterOption::NoFilter),
        count_option: Some(streams::CountOption::Count(count)),
        uuid_option: Some(streams::UuidOption::String),
        control_option: None,
        read_direction: to_direction_code(options.direction),
    };
    new_request(settings, options, streams::ReadReq { options: Some(req_options) })
}

/// A read that is under way, over a channel.
#[derive(Debug)]
pub struct ReadStream {
    pub channel_id: Uuid,
}

/// What a read does next.
#[derive(Debug)]
pub enum ReadStep {
    /// Give this to the caller.
    Return(Result<Option<ReadEvent>, Error>),
    /// Report that the channel failed, and give the error to the caller.
    Report { channel_id: Uuid, error: Error },
    /// Wait for the next message.
    Again,
    /// The message is none that a server sends: it lacks a part that is always there.
    Malformed,
}

/// What a reader of events alone does next.
#[derive(Debug)]
pub enum ReadNext {
    /// Give this to the caller.
    Return(Option<ResolvedEvent>),
    /// Go on reading.
    Again,
}

/// What a read makes of a message.
pub open spec fn read_message_step(content: streams::ReadContent, step: ReadStep) -> bool {
    match content {
        streams::ReadContent::StreamNotFound => step == ReadStep::Return(
            Err(Error::ResourceNotFound),
        ),
        streams::ReadContent::Event(event) => if read_event_is_readable(event) {
            step matches ReadStep::Return(Ok(Some(ReadEvent::Event(resolved)))) && is_read_event(
                resolved,
                event,
            )
        } else {
            step is Malformed
        },
        streams::ReadContent::FirstStreamPosition(revision) => step == ReadStep::Return(
            Ok(Some(ReadEvent::FirstStreamPosition(revision))),
        ),
        streams::ReadContent::LastStreamPosition(revision) => step == ReadStep::Return(
            Ok(Some(ReadEvent::LastStreamPosition(revision))),
        ),
        streams::ReadContent::LastAllStreamPosition(position) => step == ReadStep::Return(
            Ok(Some(ReadEvent::LastAllStreamPosition(position_of(position)))),
        ),
        streams::ReadContent::Confirmation { .. } => step is Again,
        streams::ReadContent::Checkpoint(_) => step is Again,
    }
}

impl ReadStream {
    /// What the read does with what came over the channel: a failure, the end of the answer,
    /// or a message.
    pub fn next_read_event(&self, received: Result<Option<streams::ReadResp>, Error>) -> (r:
        ReadStep)
        ensures
            match received {
                Err(error) => r == (ReadStep::Report { channel_id: self.channel_id, error }),
                Ok(None) => r == ReadStep::Return(Ok(None)),
                Ok(Some(resp)) => match resp.content {
                    Some(content) => read_message_step(content, r),
                    None => r is Malformed,
                },
            },
    {
        let resp = match received {
            Err(error) => return ReadStep::Report { channel_id: self.channel_id, error },
            Ok(None) => return ReadStep::Return(Ok(None)),
            Ok(Some(resp)) => resp,
        };
        match resp.content {
            None => ReadStep::Malformed,
            Some(streams::ReadContent::StreamNotFound) => ReadStep::Return(
                Err(Error::ResourceNotFound),
            ),
            Some(streams::ReadContent::Event(event)) => {
                if !check_read_event(&event) {
                    return ReadStep::Malformed;
                }
                ReadStep::Return(Ok(Some(ReadEvent::Event(convert_proto_read_event(event)))))
            },
            Some(streams::ReadContent::FirstStreamPosition(revision)) => ReadStep::Return(
                Ok(Some(ReadEvent::FirstStreamPosition(revision))),
            ),
            Some(streams::ReadContent::LastStreamPosition(revision)) => ReadStep::Return(
                Ok(Some(ReadEvent::LastStreamPosition(revision))),
            ),
            Some(streams::ReadContent::LastAllStreamPosition(position)) => ReadStep::Return(
                Ok(Some(ReadEvent::LastAllStreamPosition(from_wire_position(position)))),
            ),
            Some(streams::ReadContent::Confirmation { .. }) => ReadStep::Again,
            Some(streams::ReadContent::Checkpoint(_)) => ReadStep::Again,
        }
    }

    /// What a reader of events alone does with what was read.
    pub fn next(&self, read: Option<ReadEvent>) -> (r: ReadNext)
        ensures
            r == match read {
                Some(ReadEvent::Event(event)) => ReadNext::Return(Some(event)),
                Some(_) => ReadNext::Again,
                None => ReadNext::Return(None),
            },
    {
        match read {
            Some(ReadEvent::Event(event)) => ReadNext::Return(Some(event)),
            Some(_) => ReadNext::Again,
            None => ReadNext::Return(None),
        }
    }
}

} // verus!
