//! What batches are for.
use crate::commands::batch::{
    batch_append, batch_append_request, batch_append_request_at, batch_deadline,
    convert_batch_append_resp, epoch_offset, next_batch_step, read_batch_append_resp, BatchInput,
    BatchOut, BatchReq, BatchStep,
};
use crate::commands::event::{check_uuid, raw_uuid_to_uuid};
use crate::ids::Uuid;
use crate::options::{BatchAppendOptions, CommonOperationOptions};
use crate::request::{metadata_entries, new_request, Request};
use crate::settings::ClientSettings;
use crate::time::Duration;
use crate::types::{Error, ExpectedRevision, Features};
use crate::wire::{shared, streams};
use std::time::SystemTime;
use vstd::prelude::*;
use vstd::utf8::{decode_utf8, encode_utf8, valid_utf8};

verus! {

/// The nanoseconds of a span.
pub open spec fn nanos_of(span: Duration) -> int {
    span.secs * 1_000_000_000 + span.nanos
}

/// The nanoseconds from the Unix epoch to a point in time that is so long after or before it.
pub open spec fn nanos_from_epoch(now: Result<Duration, Duration>) -> int {
    match now {
        Ok(after) => nanos_of(after),
        Err(before) => -nanos_of(before),
    }
}

/// A deadline is written down as the sum of now and the time that is left, to the nanosecond, unless
/// it is before the epoch or more seconds after it than can be written down.
pub proof fn law_deadline_is_now_and_the_time_left(
    now: Result<Duration, Duration>,
    timeout: Duration,
    r: Option<shared::Timestamp>,
)
    requires
        call_ensures(batch_deadline, (now, timeout), r),
    ensures
        r matches Some(written) ==> {
            &&& written.seconds * 1_000_000_000 + written.nanos == nanos_from_epoch(now) + nanos_of(
                timeout,
            )
            &&& 0 <= written.nanos < 1_000_000_000
            &&& written.seconds >= 0
        },
        r is None <==> {
            let sum = nanos_from_epoch(now) + nanos_of(timeout);
            sum < 0 || sum >= (i64::MAX + 1) * 1_000_000_000
        },
{
}

/// A batch that is written at some time is due at exactly that time and the deadline that its options
/// carry, however short or long. Ten seconds are left only where the options carry none.
pub proof fn law_batch_keeps_its_deadline(
    req: BatchReq,
    options: &CommonOperationOptions,
    now: Result<Duration, Duration>,
    r: Option<streams::BatchAppendReq>,
)
    requires
        call_ensures(batch_append_request_at, (req, options, now), r),
    ensures
        r matches Some(sent) ==> (sent.options matches Some(sent) && (sent.deadline matches Some(
            due,
        ) && {
            &&& 0 <= due.nanos < 1_000_000_000
            &&& options.deadline matches Some(deadline) ==> due.seconds * 1_000_000_000 + due.nanos
                == nanos_from_epoch(now) + nanos_of(deadline)
            &&& options.deadline is None ==> due.seconds * 1_000_000_000 + due.nanos
                == nanos_from_epoch(now) + 10_000_000_000
        })),
        options.deadline matches Some(deadline) && 0 <= nanos_from_epoch(now) + nanos_of(deadline)
            < (i64::MAX + 1) * 1_000_000_000 ==> r is Some,
        options.deadline is None && 0 <= nanos_from_epoch(now) + 10_000_000_000 < (i64::MAX + 1)
            * 1_000_000_000 ==> r is Some,
{
}

/// A batch that is written now is due at a point in time and the deadline that its options carry, or
/// ten seconds where they carry none.
pub proof fn law_batch_is_due_from_now_on(
    req: BatchReq,
    options: &CommonOperationOptions,
    r: Option<streams::BatchAppendReq>,
)
    requires
        call_ensures(batch_append_request, (req, options), r),
    ensures
        r matches Some(sent) ==> exists|now: SystemTime|
            ({
                let due = sent.options->0.deadline->0;
                due.seconds * 1_000_000_000 + due.nanos == nanos_from_epoch(
                    #[trigger] epoch_offset(now),
                ) + match options.deadline {
                    Some(deadline) => nanos_of(deadline),
                    None => 10_000_000_000,
                }
            }),
{
}

/// Of two batches that are written at the same time, the one with the longer deadline is due later,
/// by just as much.
pub proof fn law_longer_deadlines_are_due_later(
    req: BatchReq,
    options: &CommonOperationOptions,
    r: Option<streams::BatchAppendReq>,
    other_req: BatchReq,
    other_options: &CommonOperationOptions,
    other: Option<streams::BatchAppendReq>,
    now: Result<Duration, Duration>,
)
    requires
        call_ensures(batch_append_request_at, (req, options, now), r),
        call_ensures(batch_append_request_at, (other_req, other_options, now), other),
        options.deadline is Some,
        other_options.deadline is Some,
        r is Some,
        other is Some,
    ensures
        ({
            let due = r->0.options->0.deadline->0;
            let other_due = other->0.options->0.deadline->0;
            (due.seconds - other_due.seconds) * 1_000_000_000 + (due.nanos - other_due.nanos)
                == nanos_of(options.deadline->0) - nanos_of(other_options.deadline->0)
        }),
{
}

/// Whether a message carries a batch: its identifier, its stream, what it expects of the stream, and
/// each of its events, in turn.
pub open spec fn carries_batch(sent: streams::BatchAppendReq, req: BatchReq) -> bool {
    &&& sent.is_final
    &&& sent.correlation_id is Some
    &&& forall|id: Uuid| #[trigger]
        call_ensures(raw_uuid_to_uuid, (sent.correlation_id->0,), id) ==> id@ == req.id@
    &&& sent.options matches Some(options) && {
        &&& options.stream_identifier matches Some(identifier) && identifier.stream_name@
            == encode_utf8(req.stream_name@)
        &&& req.expected_revision matches ExpectedRevision::Exact(revision)
            ==> options.expected_stream_position == Some(
            streams::ExpectedStreamPosition::StreamPosition(revision),
        )
        &&& req.expected_revision == ExpectedRevision::NoStream ==> options.expected_stream_position
            == Some(streams::ExpectedStreamPosition::NoStream)
        &&& req.expected_revision == ExpectedRevision::StreamExists
            ==> options.expected_stream_position == Some(
            streams::ExpectedStreamPosition::StreamExists,
        )
        &&& req.expected_revision == ExpectedRevision::Any ==> options.expected_stream_position
            == Some(streams::ExpectedStreamPosition::Any)
    }
    &&& sent.proposed_messages@.len() == req.events@.len()
    &&& forall|i: int|
        #![trigger sent.proposed_messages@[i]]
        0 <= i < req.events@.len() ==> {
            let message = sent.proposed_messages@[i];
            let event = req.events@[i];
            &&& message.data@ == event.payload@
            &&& message.metadata == event.metadata
            &&& event.custom_metadata matches Some(bytes) ==> message.custom_metadata@ == bytes@
            &&& event.custom_metadata is None ==> message.custom_metadata@.len() == 0
            &&& message.id is Some
            &&& event.id_opt matches Some(own) ==> forall|id: Uuid| #[trigger]
                call_ensures(raw_uuid_to_uuid, (message.id->0,), id) ==> id@ == own@
        }
}

/// A batch is sent with its identifier, its stream, what it expects of the stream, and each of its
/// events, in turn, at whatever time.
pub proof fn law_batch_is_sent_whole(
    req: BatchReq,
    options: &CommonOperationOptions,
    now: Result<Duration, Duration>,
    r: Option<streams::BatchAppendReq>,
    at_once: Option<streams::BatchAppendReq>,
)
    requires
        call_ensures(batch_append_request_at, (req, options, now), r),
        call_ensures(batch_append_request, (req, options), at_once),
    ensures
        r matches Some(sent) ==> carries_batch(sent, req),
        at_once matches Some(sent) ==> carries_batch(sent, req),
{
}

/// A call for batches is opened just where the server knows about batches, with the metadata of any
/// request of its options.
pub proof fn law_batch_call_is_opened(
    settings: &ClientSettings,
    options: &BatchAppendOptions,
    features: Features,
    r: Result<Request<()>, Error>,
    any: Request<()>,
)
    requires
        call_ensures(batch_append, (settings, options, features), r),
        call_ensures(new_request::<(), BatchAppendOptions>, (settings, options, ()), any),
    ensures
        r is Ok == features.batch_append,
        r matches Err(error) ==> error == Error::UnsupportedFeature,
        r matches Ok(request) ==> metadata_entries(request.metadata) == metadata_entries(
            any.metadata,
        ),
{
}

/// Whether an outcome is what the server answered: under the same identifier, what was written or
/// why nothing was.
pub open spec fn is_outcome_of(out: BatchOut, resp: streams::BatchAppendResp) -> bool {
    &&& forall|id: Uuid| #[trigger]
        call_ensures(raw_uuid_to_uuid, (resp.correlation_id->0,), id) ==> out.correlation_id@
            == id@
    &&& resp.result matches Some(streams::BatchAppendResult::Success(told)) ==> (
    out.result matches Ok(written) && {
        &&& written.stream_name@ == decode_utf8(resp.stream_identifier->0.stream_name@)
        &&& told.current_revision_option matches Some(
            streams::CurrentRevisionOption::CurrentRevision(revision),
        ) ==> written.current_revision == Some(revision)
        &&& told.current_revision_option == Some(streams::CurrentRevisionOption::NoStream)
            || told.current_revision_option is None ==> written.current_revision is None
        &&& told.position_option matches Some(shared::PositionOption::Position(position)) ==> (
        written.position matches Some(read) && read.commit == position.commit_position
            && read.prepare == position.prepare_position)
        &&& told.position_option == Some(shared::PositionOption::NoPosition)
            || told.position_option is None ==> written.position is None
        &&& resp.expected_stream_position matches Some(
            streams::ExpectedStreamPosition::StreamPosition(revision),
        ) ==> written.expected_version == Some(ExpectedRevision::Exact(revision))
        &&& resp.expected_stream_position == Some(streams::ExpectedStreamPosition::Any)
            ==> written.expected_version == Some(ExpectedRevision::Any)
        &&& resp.expected_stream_position == Some(streams::ExpectedStreamPosition::NoStream)
            ==> written.expected_version == Some(ExpectedRevision::NoStream)
        &&& resp.expected_stream_position == Some(streams::ExpectedStreamPosition::StreamExists)
            ==> written.expected_version == Some(ExpectedRevision::StreamExists)
        &&& resp.expected_stream_position is None ==> written.expected_version is None
    })
    &&& resp.result matches Some(streams::BatchAppendResult::Error(status)) ==> (
    out.result matches Err(Error::Grpc { code, message }) && {
        &&& message == status.message
        &&& 0 <= status.code <= 16 ==> code == status.code
        &&& status.code < 0 || status.code > 16 ==> code == 2
    })
}

/// The outcome of a batch is what the server answered. An answer that lacks its identifier, the name
/// of its stream or its result is no outcome, and any other is.
pub proof fn law_batch_outcome(
    resp: streams::BatchAppendResp,
    r: Option<BatchOut>,
    out: BatchOut,
    is_id: bool,
)
    requires
        call_ensures(read_batch_append_resp, (resp,), r),
        resp.correlation_id is Some ==> call_ensures(
            check_uuid,
            (&resp.correlation_id->0,),
            is_id,
        ),
        r is Some ==> call_ensures(convert_batch_append_resp, (resp,), out),
    ensures
        r is Some <==> {
            &&& resp.correlation_id is Some && is_id
            &&& resp.stream_identifier is Some && valid_utf8(
                resp.stream_identifier->0.stream_name@,
            )
            &&& resp.result is Some
        },
        r matches Some(read) ==> is_outcome_of(read, resp) && is_outcome_of(out, resp),
{
}

/// A call for batches goes on behind each answer, whatever it says of its batch, and ends at anything
/// else. The client is told of a refusal, and of a failure, which is reported as well.
pub proof fn law_batch_call_goes_on(input: BatchInput, r: BatchStep)
    requires
        call_ensures(next_batch_step, (input,), r),
    ensures
        input matches BatchInput::Refused(error) ==> r == BatchStep::TellAndStop(error),
        input matches BatchInput::Failed(error) ==> r == BatchStep::ReportTellAndStop(error),
        input is ClientGone ==> r is Stop,
        input matches BatchInput::Received(None) ==> r is Stop,
        input matches BatchInput::Received(Some(resp)) ==> (forall|read: Option<BatchOut>| #[trigger]
            call_ensures(read_batch_append_resp, (resp,), read) ==> (r is Forward == read is Some && (
            r is Malformed == read is None))),
        input matches BatchInput::Received(Some(resp)) ==> r matches BatchStep::Forward(out)
            ==> is_outcome_of(out, resp),
{
}

} // verus!
