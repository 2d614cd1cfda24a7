//! Deleting streams.
use crate::commands::event::stream_identifier;
use crate::commands::start::{from_position_option, optional_position_of};
use crate::options::{DeleteStreamOptions, Options, TombstoneStreamOptions};
use crate::request::{can_be_sent, command_metadata, metadata_entries, new_request, Request};
use crate::settings::ClientSettings;
use crate::types::{ExpectedRevision, Position};
use crate::wire::streams;
use vstd::prelude::*;
use vstd::utf8::encode_utf8;

verus! {

/// What a write expects of the stream, on the wire.
pub open spec fn expected_stream_revision(
    expected: ExpectedRevision,
) -> streams::ExpectedStreamRevision {
    match expected {
        ExpectedRevision::Any => streams::ExpectedStreamRevision::Any,
        ExpectedRevision::NoStream => streams::ExpectedStreamRevision::NoStream,
        ExpectedRevision::StreamExists => streams::ExpectedStreamRevision::StreamExists,
        ExpectedRevision::Exact(revision) => streams::ExpectedStreamRevision::Revision(revision),
    }
}

fn to_expected_stream_revision(expected: ExpectedRevision) -> (r: streams::ExpectedStreamRevision)
    ensures
        r == expected_stream_revision(expected),
{
    match expected {
        ExpectedRevision::Any => streams::ExpectedStreamRevision::Any,
        ExpectedRevision::NoStream => streams::ExpectedStreamRevision::NoStream,
        ExpectedRevision::StreamExists => streams::ExpectedStreamRevision::StreamExists,
        ExpectedRevision::Exact(revision) => streams::ExpectedStreamRevision::Revision(revision),
    }
}

/// Whether options name the stream, and what is expected of it.
pub open spec fn is_delete_options(
    options: streams::DeleteOptions,
    stream: Seq<char>,
    expected: ExpectedRevision,
) -> bool {
    &&& options.stream_identifier matches Some(identifier) && identifier.stream_name@
        == encode_utf8(stream)
    &&& options.expected_stream_revision == Some(expected_stream_revision(expected))
}

/// Deletes a stream.
pub fn delete_stream(settings: &ClientSettings, stream: &str, options: &DeleteStreamOptions) -> (r:
    Request<streams::DeleteReq>)
    requires
        can_be_sent(*settings, *options),
    ensures
        metadata_entries(r.metadata) == command_metadata(
            *settings,
            options.common(),
            options.operation_kind(),
        ),
        r.message.options matches Some(sent) && is_delete_options(sent, stream@, options.version),
{
    let req_options = streams::DeleteOptions {
        stream_identifier: Some(stream_identifier(stream)),
        expected_stream_revision: Some(to_expected_stream_revision(options.version)),
    };
    new_request(settings, options, streams::DeleteReq { options: Some(req_options) })
}

/// Reads the answer to deleting a stream: where in the log that is, if the server says.
pub fn delete_stream_result(resp: streams::DeleteResp) -> (r: Option<Position>)
    ensures
        r == optional_position_of(resp.position_option),
{
    from_position_option(resp.position_option)
}

/// Deletes a stream for good.
pub fn tombstone_stream(
    settings: &ClientSettings,
    stream: &str,
    options: &TombstoneStreamOptions,
) -> (r: Request<streams::TombstoneReq>)
    requires
        can_be_sent(*settings, *options),
    ensures
        metadata_entries(r.metadata) == command_metadata(
            *settings,
            options.common(),
            options.operation_kind(),
        ),
        r.message.options matches Some(sent) && is_delete_options(sent, stream@, options.version),
{
    let req_options = streams::DeleteOptions {
        stream_identifier: Some(stream_identifier(stream)),
        expected_stream_revision: Some(to_expected_stream_revision(options.version)),
    };
    new_request(settings, options, streams::TombstoneReq { options: Some(req_options) })
}

/// Reads the answer to deleting a stream for good: where in the log that is, if the server says.
pub fn tombstone_stream_result(resp: streams::TombstoneResp) -> (r: Option<Position>)
    ensures
        r == optional_position_of(resp.position_option),
{
    from_position_option(resp.position_option)
}

} // verus!
