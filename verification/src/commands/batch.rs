//! Appending events in batches, over one call.
use crate::commands::event::{
    check_uuid, convert_event_data_to_batch_proposed_message, is_uuid_text, proposes,
    raw_uuid_to_uuid, stream_identifier, to_proto_uuid, uuid_bytes, uuid_is_readable,
};
use crate::commands::start::{from_position_option, optional_position_of};
use crate::ids::Uuid;
use crate::options::{BatchAppendOptions, CommonOperationOptions, Options};
use crate::request::{can_be_sent, command_metadata, metadata_entries, new_request, Request};
use crate::settings::ClientSettings;
use crate::text::{from_utf8, law_utf8_reads_back};
use crate::time::Duration;
use crate::types::{Error, EventData, ExpectedRevision, Features, Position};
use crate::wire::shared;
use crate::wire::streams;
use std::time::SystemTime;
use vstd::prelude::*;
use vstd::utf8::{decode_utf8, encode_utf8, valid_utf8};

verus! {

/// A batch of events.
pub struct BatchReq {
    pub id: Uuid,
    pub stream_name: String,
    pub events: Vec<EventData>,
    pub expected_revision: ExpectedRevision,
}

/// What a batch led to.
#[derive(Debug)]
pub struct BatchWriteResult {
    pub stream_name: String,
    pub current_revision: Option<u64>,
    pub position: Option<Position>,
    pub expected_version: Option<ExpectedRevision>,
}

/// What a batch led to, with the identifier of the batch.
#[derive(Debug)]
pub struct BatchOut {
    pub correlation_id: Uuid,
    pub result: Result<BatchWriteResult, Error>,
}

/// Opens a call for batches, if the server knows about them. Batches are sent over it as they
/// come.
pub fn batch_append(
    settings: &ClientSettings,
    options: &BatchAppendOptions,
    features: Features,
) -> (r: Result<Request<()>, Error>)
    requires
        features.batch_append ==> can_be_sent(*settings, *options),
    ensures
        !features.batch_append ==> r == Err::<Request<()>, Error>(Error::UnsupportedFeature),
        features.batch_append ==> (r matches Ok(request) && metadata_entries(request.metadata)
            == command_metadata(*settings, options.common(), options.operation_kind())),
{
    if !features.batch_append {
        return Err(Error::UnsupportedFeature);
    }
    Ok(new_request(settings, options, ()))
}

/// What a batch expects of the stream, on the wire.
pub open spec fn expected_stream_position(
    expected: ExpectedRevision,
) -> streams::ExpectedStreamPosition {
    match expected {
        ExpectedRevision::Exact(revision) => streams::ExpectedStreamPosition::StreamPosition(
            revision,
        ),
        ExpectedRevision::NoStream => streams::ExpectedStreamPosition::NoStream,
        ExpectedRevision::StreamExists => streams::ExpectedStreamPosition::StreamExists,
        ExpectedRevision::Any => streams::ExpectedStreamPosition::Any,
    }
}

fn to_expected_stream_position(expected: ExpectedRevision) -> (r: streams::ExpectedStreamPosition)
    ensures
        r == expected_stream_position(expected),
{
    match expected {
        ExpectedRevision::Exact(revision) => streams::ExpectedStreamPosition::StreamPosition(
            revision,
        ),
        ExpectedRevision::NoStream => streams::ExpectedStreamPosition::NoStream,
        ExpectedRevision::StreamExists => streams::ExpectedStreamPosition::StreamExists,
        ExpectedRevision::Any => streams::ExpectedStreamPosition::Any,
    }
}

/// What a batch expected of the stream, as the server tells it.
pub open spec fn expected_revision_of(
    expected: streams::ExpectedStreamPosition,
) -> ExpectedRevision {
    match expected {
        streams::ExpectedStreamPosition::Any => ExpectedRevision::Any,
        streams::ExpectedStreamPosition::NoStream => ExpectedRevision::NoStream,
        streams::ExpectedStreamPosition::StreamExists => ExpectedRevision::StreamExists,
        streams::ExpectedStreamPosition::StreamPosition(revision) => ExpectedRevision::Exact(
            revision,
        ),
    }
}

fn from_expected_stream_position(expected: streams::ExpectedStreamPosition) -> (r:
    ExpectedRevision)
    ensures
        r == expected_revision_of(expected),
{
    match expected {
        streams::ExpectedStreamPosition::Any => ExpectedRevision::Any,
        streams::ExpectedStreamPosition::NoStream => ExpectedRevision::NoStream,
        streams::ExpectedStreamPosition::StreamExists => ExpectedRevision::StreamExists,
        streams::ExpectedStreamPosition::StreamPosition(revision) => ExpectedRevision::Exact(
            revision,
        ),
    }
}

/// What a batch expects of the stream comes back from the server as it was sent.
pub proof fn law_expected_revision_reads_back(expected: ExpectedRevision)
    ensures
        expected_revision_of(expected_stream_position(expected)) == expected,
{
}

/// `std::time::SystemTime`, a point in time by the clock of the machine.
#[verifier::external_type_specification]
#[verifier::external_body]
pub struct ExSystemTime(SystemTime);

/// `std::time::SystemTime::now`. What the clock says is left open.
pub assume_specification[ SystemTime::now ]() -> SystemTime;

/// How long after the Unix epoch a point in time is or, as the error, how long before.
pub uninterp spec fn epoch_offset(time: SystemTime) -> Result<Duration, Duration>;

/// Calls `std::time::SystemTime::duration_since` on the Unix epoch: how long after the epoch a
/// point in time is or, as the error, how long before, named `epoch_offset`. Either is a span of
/// time. How long it is for a given point in time is left open.
#[verifier::external_body]
fn since_epoch(time: SystemTime) -> (r: Result<Duration, Duration>)
    ensures
        r == epoch_offset(time),
        r matches Ok(after) ==> after.well_formed(),
        r matches Err(before) ==> before.well_formed(),
{
    time.duration_since(SystemTime::UNIX_EPOCH)
        .map(|after| Duration { secs: after.as_secs(), nanos: after.subsec_nanos() })
        .map_err(
        |error| Duration { secs: error.duration().as_secs(), nanos: error.duration().subsec_nanos() },
    )
}

/// The nanoseconds from the Unix epoch to a deadline, where now is so long after or before the
/// epoch.
pub open spec fn deadline_nanos(now: Result<Duration, Duration>, timeout: Duration) -> int {
    match now {
        Ok(after) => (after.total_nanos() + timeout.total_nanos()) as int,
        Err(before) => timeout.total_nanos() - before.total_nanos(),
    }
}

/// Whether a deadline can be written down: it is not before the epoch, nor too many seconds
/// after.
pub open spec fn is_deadline(nanos: int) -> bool {
    0 <= nanos && nanos / 1_000_000_000 <= i64::MAX
}

/// A deadline, written down.
pub open spec fn deadline_timestamp(nanos: int) -> shared::Timestamp {
    shared::Timestamp {
        seconds: (nanos / 1_000_000_000) as i64,
        nanos: (nanos % 1_000_000_000) as i32,
    }
}

fn total_nanos(span: Duration) -> (r: i128)
    ensures
        r == span.total_nanos(),
{
    span.secs as i128 * 1_000_000_000 + span.nanos as i128
}

/// Writes down a deadline, if that can be.
pub fn batch_deadline(now: Result<Duration, Duration>, timeout: Duration) -> (r: Option<
    shared::Timestamp,
>)
    ensures
        r == if is_deadline(deadline_nanos(now, timeout)) {
            Some(deadline_timestamp(deadline_nanos(now, timeout)))
        } else {
            None
        },
{
    let nanos: i128 = match now {
        Ok(after) => total_nanos(after) + total_nanos(timeout),
        Err(before) => total_nanos(timeout) - total_nanos(before),
    };
    if nanos < 0 {
        return None;
    }
    let seconds: i128 = nanos / 1_000_000_000;
    if seconds > i64::MAX as i128 {
        return None;
    }
    Some(
        shared::Timestamp {
            seconds: seconds as i64,
            nanos: (nanos % 1_000_000_000) as i32,
        },
    )
}

/// How long a batch may take: what the options say, or else ten seconds.
pub open spec fn batch_timeout(options: CommonOperationOptions) -> Duration {
    match options.deadline {
        Some(deadline) => deadline,
        None => Duration { secs: 10, nanos: 0 },
    }
}

/// Whether a message is the batch, but for its deadline.
pub open spec fn is_batch(sent: streams::BatchAppendReq, req: BatchReq) -> bool {
    &&& sent.correlation_id matches Some(id) && is_uuid_text(id, req.id@)
    &&& sent.options matches Some(options) && {
        &&& options.stream_identifier matches Some(identifier) && identifier.stream_name@
            == encode_utf8(req.stream_name@)
        &&& options.expected_stream_position == Some(
            expected_stream_position(req.expected_revision),
        )
    }
    &&& sent.proposed_messages@.len() == req.events@.len()
    &&& forall|i: int|
        0 <= i < req.events@.len() ==> proposes(
            #[trigger] sent.proposed_messages@[i],
            req.events@[i],
        )
    &&& sent.is_final
}

/// The deadline of a batch.
pub open spec fn sent_deadline(sent: streams::BatchAppendReq) -> Option<shared::Timestamp> {
    sent.options->0.deadline
}

/// Whether a message, if there is one, is the batch with its deadline, where now is so long after or
/// before the Unix epoch. There is one just where the deadline can be written down.
pub open spec fn is_batch_at(
    r: Option<streams::BatchAppendReq>,
    req: BatchReq,
    options: CommonOperationOptions,
    now: Result<Duration, Duration>,
) -> bool {
    let deadline = deadline_nanos(now, batch_timeout(options));
    match r {
        Some(sent) => {
            &&& is_deadline(deadline)
            &&& is_batch(sent, req)
            &&& sent_deadline(sent) == Some(deadline_timestamp(deadline))
        },
        None => !is_deadline(deadline),
    }
}

/// Proposes events, in turn.
fn propose_all(events: Vec<EventData>) -> (r: Vec<streams::ProposedMessage>)
    ensures
        r@.len() == events@.len(),
        forall|i: int| 0 <= i < r@.len() ==> proposes(#[trigger] r@[i], events@[i]),
{
    let mut r: Vec<streams::ProposedMessage> = Vec::new();
    for event in it: events
        invariant
            it.seq() == events@,
            r@.len() == it.index(),
            forall|i: int| 0 <= i < r@.len() ==> proposes(#[trigger] r@[i], events@[i]),
    {
        r.push(convert_event_data_to_batch_proposed_message(event));
    }
    r
}

/// Writes a batch, if its deadline can be written down, where now is so long after or before the
/// Unix epoch.
pub fn batch_append_request_at(
    req: BatchReq,
    options: &CommonOperationOptions,
    now: Result<Duration, Duration>,
) -> (r: Option<streams::BatchAppendReq>)
    ensures
        is_batch_at(r, req, *options, now),
{
    let timeout = match options.deadline {
        Some(deadline) => deadline,
        None => Duration::from_secs(10),
    };
    let deadline = match batch_deadline(now, timeout) {
        Some(deadline) => deadline,
        None => return None,
    };
    let batch_options = streams::BatchAppendOptions {
        stream_identifier: Some(stream_identifier(req.stream_name.as_str())),
        deadline: Some(deadline),
        expected_stream_position: Some(to_expected_stream_position(req.expected_revision)),
    };
    Some(
        streams::BatchAppendReq {
            correlation_id: Some(to_proto_uuid(req.id)),
            options: Some(batch_options),
            proposed_messages: propose_all(req.events),
            is_final: true,
        },
    )
}

/// Writes a batch that is sent now, if its deadline can be written down. Now is a point in time: what
/// the clock says.
pub fn batch_append_request(req: BatchReq, options: &CommonOperationOptions) -> (r: Option<
    streams::BatchAppendReq,
>)
    ensures
        exists|now: SystemTime| is_batch_at(r, req, *options, #[trigger] epoch_offset(now)),
        r matches Some(sent) ==> {
            &&& is_batch(sent, req)
            &&& sent_deadline(sent) matches Some(deadline) && 0 <= deadline.seconds && 0
                <= deadline.nanos < 1_000_000_000
        },
{
    batch_append_request_at(req, options, since_epoch(SystemTime::now()))
}

/// Calls `tonic::Code::from`: the status codes from 0 to 16 are themselves, and any other number
/// is the unknown one, 2.
#[verifier::external_body]
fn status_code(code: i32) -> (r: i32)
    ensures
        r == if 0 <= code <= 16 { code } else { 2 },
{
    tonic::Code::from(code) as i32
}

/// Whether the answer to a batch says all that it has to.
pub open spec fn batch_resp_is_readable(resp: streams::BatchAppendResp) -> bool {
    &&& resp.stream_identifier matches Some(stream) && valid_utf8(stream.stream_name@)
    &&& resp.correlation_id matches Some(id) && uuid_is_readable(id)
    &&& resp.result is Some
}

/// Whether an outcome is the one that came over the wire.
pub open spec fn is_batch_out(out: BatchOut, resp: streams::BatchAppendResp) -> bool {
    &&& out.correlation_id@ == uuid_bytes(resp.correlation_id->0)
    &&& match resp.result->0 {
        streams::BatchAppendResult::Success(success) => out.result matches Ok(written) && {
            &&& written.stream_name@ == decode_utf8(resp.stream_identifier->0.stream_name@)
            &&& written.current_revision == match success.current_revision_option {
                Some(streams::CurrentRevisionOption::CurrentRevision(revision)) => Some(revision),
                _ => None,
            }
            &&& written.position == optional_position_of(success.position_option)
            &&& written.expected_version == match resp.expected_stream_position {
                Some(expected) => Some(expected_revision_of(expected)),
                None => None,
            }
        },
        streams::BatchAppendResult::Error(status) => out.result matches Err(
            Error::Grpc { code, message },
        ) && {
            &&& code == if 0 <= status.code <= 16 {
                status.code
            } else {
                2
            }
            &&& message == status.message
        },
    }
}

/// Reads the answer to a batch.
pub fn convert_batch_append_resp(resp: streams::BatchAppendResp) -> (r: BatchOut)
    requires
        batch_resp_is_readable(resp),
    ensures
        is_batch_out(r, resp),
{
    let stream_name = from_utf8(resp.stream_identifier.unwrap().stream_name.as_slice()).unwrap();
    let correlation_id = raw_uuid_to_uuid(resp.correlation_id.unwrap());
    let result = match resp.result.unwrap() {
        streams::BatchAppendResult::Success(success) => {
            let current_revision: Option<u64> = match success.current_revision_option {
                Some(streams::CurrentRevisionOption::CurrentRevision(revision)) => Some(revision),
                Some(streams::CurrentRevisionOption::NoStream) => None,
                None => None,
            };
            let expected_version = match resp.expected_stream_position {
                Some(expected) => Some(from_expected_stream_position(expected)),
                None => None,
            };
            Ok(
                BatchWriteResult {
                    stream_name,
                    current_revision,
                    position: from_position_option(success.position_option),
                    expected_version,
                },
            )
        },
        streams::BatchAppendResult::Error(status) => Err(
            Error::Grpc { code: status_code(status.code), message: status.message },
        ),
    };
    BatchOut { correlation_id, result }
}

/// What a batch led to comes back under the identifier of the batch, where the server answers under
/// the one that was sent. Where it repeats the stream and what was expected of it, a success names
/// those of the batch.
pub proof fn law_outcome_is_of_its_batch(
    req: BatchReq,
    sent: streams::BatchAppendReq,
    resp: streams::BatchAppendResp,
    out: BatchOut,
)
    requires
        is_batch(sent, req),
        resp.correlation_id == sent.correlation_id,
        resp.stream_identifier == sent.options->0.stream_identifier,
        resp.expected_stream_position == sent.options->0.expected_stream_position,
        resp.result is Some,
        is_batch_out(out, resp),
    ensures
        batch_resp_is_readable(resp),
        out.correlation_id@ == req.id@,
        out.result matches Ok(written) ==> {
            &&& written.stream_name@ == req.stream_name@
            &&& written.expected_version == Some(req.expected_revision)
        },
{
    law_utf8_reads_back(req.stream_name@);
    law_expected_revision_reads_back(req.expected_revision);
}

/// Reads the answer to a batch, if it says all that it has to.
pub fn read_batch_append_resp(resp: streams::BatchAppendResp) -> (r: Option<BatchOut>)
    ensures
        match r {
            Some(out) => batch_resp_is_readable(resp) && is_batch_out(out, resp),
            None => !batch_resp_is_readable(resp),
        },
{
    let stream_is_readable = match &resp.stream_identifier {
        Some(stream) => from_utf8(stream.stream_name.as_slice()).is_some(),
        None => false,
    };
    let id_is_readable = match &resp.correlation_id {
        Some(id) => check_uuid(id),
        None => false,
    };
    if stream_is_readable && id_is_readable && resp.result.is_some() {
        Some(convert_batch_append_resp(resp))
    } else {
        None
    }
}

/// What happens to a call for batches.
pub enum BatchInput {
    /// The server refused the call, or could not be reached.
    Refused(Error),
    /// An answer to a batch, or the end of the answers.
    Received(Option<streams::BatchAppendResp>),
    /// The call broke off.
    Failed(Error),
    /// Nobody listens to the outcomes any more.
    ClientGone,
}

/// What is done next about a call for batches.
pub enum BatchStep {
    /// Tell the client the outcome of a batch, and wait for the next answer.
    Forward(BatchOut),
    /// Tell the client the error. The call is over.
    TellAndStop(Error),
    /// Report that the channel failed, and tell the client the error. The call is over.
    ReportTellAndStop(Error),
    /// The call is over.
    Stop,
    /// The answer is none that a server sends: it lacks a part that is always there.
    Malformed,
}

/// What the client of a call for batches is told.
pub enum BatchMsg {
    Out(BatchOut),
    Error(Error),
}

/// What is done when something happens to a call for batches.
pub open spec fn batch_step(input: BatchInput, step: BatchStep) -> bool {
    match input {
        BatchInput::Refused(error) => step == BatchStep::TellAndStop(error),
        BatchInput::Failed(error) => step == BatchStep::ReportTellAndStop(error),
        BatchInput::Received(None) => step is Stop,
        BatchInput::ClientGone => step is Stop,
        BatchInput::Received(Some(resp)) => if batch_resp_is_readable(resp) {
            step matches BatchStep::Forward(out) && is_batch_out(out, resp)
        } else {
            step is Malformed
        },
    }
}

/// What is done when something happens to a call for batches.
pub fn next_batch_step(input: BatchInput) -> (r: BatchStep)
    ensures
        batch_step(input, r),
{
    match input {
        BatchInput::Refused(error) => BatchStep::TellAndStop(error),
        BatchInput::Failed(error) => BatchStep::ReportTellAndStop(error),
        BatchInput::Received(None) => BatchStep::Stop,
        BatchInput::ClientGone => BatchStep::Stop,
        BatchInput::Received(Some(resp)) => match read_batch_append_resp(resp) {
            Some(out) => BatchStep::Forward(out),
            None => BatchStep::Malformed,
        },
    }
}

/// A course of a call for batches: what happened to it, and what was done each time. It goes on
/// only once an outcome has been told.
pub open spec fn is_batch_session(inputs: Seq<BatchInput>, steps: Seq<BatchStep>) -> bool {
    &&& steps.len() == inputs.len()
    &&& forall|i: int|
        #![trigger inputs[i]]
        #![trigger steps[i]]
        0 <= i < inputs.len() ==> batch_step(inputs[i], steps[i]) && (i + 1 < inputs.len()
            ==> steps[i] is Forward)
}

/// What the client is told at a step, if anything.
pub open spec fn told_at(step: BatchStep) -> Option<BatchMsg> {
    match step {
        BatchStep::Forward(out) => Some(BatchMsg::Out(out)),
        BatchStep::TellAndStop(error) => Some(BatchMsg::Error(error)),
        BatchStep::ReportTellAndStop(error) => Some(BatchMsg::Error(error)),
        BatchStep::Stop => None,
        BatchStep::Malformed => None,
    }
}

/// All that the client is told, in turn.
pub open spec fn told(steps: Seq<BatchStep>) -> Seq<BatchMsg>
    decreases steps.len(),
{
    if steps.len() == 0 {
        Seq::empty()
    } else {
        match told_at(steps.last()) {
            Some(message) => told(steps.drop_last()).push(message),
            None => told(steps.drop_last()),
        }
    }
}

/// Whether a client is told the outcome that an answer tells.
pub open spec fn tells_outcome(message: BatchMsg, input: BatchInput) -> bool {
    input matches BatchInput::Received(Some(resp)) && batch_resp_is_readable(resp) && (
    message matches BatchMsg::Out(out) && is_batch_out(out, resp))
}

/// The client of a call for batches is told the outcome of each answer, in the order of the
/// answers, that of a failed batch as well. An error of the call comes behind them all, and nothing
/// comes behind it.
pub proof fn law_outcomes_come_in_order(inputs: Seq<BatchInput>, steps: Seq<BatchStep>)
    requires
        is_batch_session(inputs, steps),
        inputs.len() > 0,
    ensures
        forall|i: int|
            0 <= i < inputs.len() - 1 ==> tells_outcome(#[trigger] told(steps)[i], inputs[i]),
        match inputs.last() {
            BatchInput::Refused(error) => told(steps) == told(steps.drop_last()).push(
                BatchMsg::Error(error),
            ),
            BatchInput::Failed(error) => told(steps) == told(steps.drop_last()).push(
                BatchMsg::Error(error),
            ),
            BatchInput::Received(Some(resp)) if batch_resp_is_readable(resp) => {
                &&& told(steps).len() == inputs.len()
                &&& tells_outcome(told(steps).last(), inputs.last())
            },
            _ => told(steps) == told(steps.drop_last()),
        },
        told(steps.drop_last()).len() == inputs.len() - 1,
        forall|i: int|
            0 <= i < steps.len() && !((#[trigger] steps[i]) is Forward) ==> i == steps.len() - 1,
{
    let before = inputs.drop_last();
    let done = steps.drop_last();
    assert(batch_step(inputs[inputs.len() - 1], steps[inputs.len() - 1]));
    assert forall|i: int| 0 <= i < before.len() implies (#[trigger] done[i]) is Forward
        && batch_step(before[i], done[i]) by {
        assert(inputs[i] == before[i]);
        assert(steps[i] == done[i]);
    }
    lemma_outcomes(before, done);
}

proof fn lemma_outcomes(inputs: Seq<BatchInput>, steps: Seq<BatchStep>)
    requires
        steps.len() == inputs.len(),
        forall|i: int|
            0 <= i < inputs.len() ==> (#[trigger] steps[i]) is Forward && batch_step(
                inputs[i],
                steps[i],
            ),
    ensures
        told(steps).len() == inputs.len(),
        forall|i: int| 0 <= i < inputs.len() ==> tells_outcome(#[trigger] told(steps)[i], inputs[i]),
    decreases inputs.len(),
{
    if inputs.len() > 0 {
        let before = inputs.drop_last();
        let done = steps.drop_last();
        let last = inputs.len() - 1;
        assert forall|i: int| 0 <= i < before.len() implies (#[trigger] done[i]) is Forward
            && batch_step(before[i], done[i]) by {
            assert(steps[i] == done[i]);
        }
        lemma_outcomes(before, done);
        assert(steps[last] is Forward && batch_step(inputs[last], steps[last]));
        assert forall|i: int| 0 <= i < inputs.len() implies tells_outcome(
            #[trigger] told(steps)[i],
            inputs[i],
        ) by {
            if i < last {
                assert(tells_outcome(told(done)[i], before[i]));
            }
        }
    }
}

} // verus!
