//! Messages of the streams service.
use crate::string_map::StringMap;
use crate::wire::shared;
use vstd::prelude::*;

verus! {

/// What a write expects of the stream.
#[derive(Clone, Copy, Debug, PartialEq, Eq, Structural)]
pub enum ExpectedStreamRevision {
    Revision(u64),
    NoStream,
    Any,
    StreamExists,
}

/// What an append starts with.
#[derive(Debug)]
pub struct AppendOptions {
    pub stream_identifier: Option<shared::StreamIdentifier>,
    pub expected_stream_revision: Option<ExpectedStreamRevision>,
}

/// An event to be written.
#[derive(Debug)]
pub struct ProposedMessage {
    pub id: Option<shared::Uuid>,
    pub metadata: StringMap<String>,
    pub custom_metadata: Vec<u8>,
    pub data: Vec<u8>,
}

#[derive(Debug)]
pub enum AppendContent {
    Options(AppendOptions),
    ProposedMessage(ProposedMessage),
}

/// One message of an append.
#[derive(Debug)]
pub struct AppendReq {
    pub content: Option<AppendContent>,
}

/// The revision of the stream after an append.
#[derive(Clone, Copy, Debug, PartialEq, Eq, Structural)]
pub enum CurrentRevisionOption {
    CurrentRevision(u64),
    NoStream,
}

/// The revision of the stream that a failed append expected.
#[derive(Clone, Copy, Debug, PartialEq, Eq, Structural)]
pub enum ExpectedRevisionOption {
    ExpectedRevision(u64),
    ExpectedAny,
    ExpectedStreamExists,
    ExpectedNoStream,
}

#[derive(Clone, Copy, Debug, PartialEq, Eq, Structural)]
pub struct AppendSuccess {
    pub current_revision_option: Option<CurrentRevisionOption>,
    pub position_option: Option<shared::PositionOption>,
}

#[derive(Clone, Copy, Debug, PartialEq, Eq, Structural)]
pub struct WrongExpectedVersion {
    pub current_revision_option: Option<CurrentRevisionOption>,
    pub expected_revision_option: Option<ExpectedRevisionOption>,
}

#[derive(Clone, Copy, Debug, PartialEq, Eq, Structural)]
pub enum AppendResult {
    Success(AppendSuccess),
    WrongExpectedVersion(WrongExpectedVersion),
}

/// The answer to an append.
#[derive(Clone, Copy, Debug, PartialEq, Eq, Structural)]
pub struct AppendResp {
    pub result: Option<AppendResult>,
}

/// What a batch expects of the stream.
#[derive(Clone, Copy, Debug, PartialEq, Eq, Structural)]
pub enum ExpectedStreamPosition {
    StreamPosition(u64),
    NoStream,
    Any,
    StreamExists,
}

#[derive(Debug)]
pub struct BatchAppendOptions {
    pub stream_identifier: Option<shared::StreamIdentifier>,
    pub deadline: Option<shared::Timestamp>,
    pub expected_stream_position: Option<ExpectedStreamPosition>,
}

/// A batch of events to be written.
#[derive(Debug)]
pub struct BatchAppendReq {
    pub correlation_id: Option<shared::Uuid>,
    pub options: Option<BatchAppendOptions>,
    pub proposed_messages: Vec<ProposedMessage>,
    pub is_final: bool,
}

#[derive(Clone, Copy, Debug, PartialEq, Eq, Structural)]
pub struct BatchAppendSuccess {
    pub current_revision_option: Option<CurrentRevisionOption>,
    pub position_option: Option<shared::PositionOption>,
}

/// Why a batch failed.
#[derive(Debug)]
pub struct Status {
    pub code: i32,
    pub message: String,
}

#[derive(Debug)]
pub enum BatchAppendResult {
    Success(BatchAppendSuccess),
    Error(Status),
}

/// The answer to a batch.
#[derive(Debug)]
pub struct BatchAppendResp {
    pub correlation_id: Option<shared::Uuid>,
    pub stream_identifier: Option<shared::StreamIdentifier>,
    pub expected_stream_position: Option<ExpectedStreamPosition>,
    pub result: Option<BatchAppendResult>,
}

#[derive(Debug)]
pub struct StreamOptions {
    pub stream_identifier: Option<shared::StreamIdentifier>,
    pub revision_option: Option<shared::RevisionOption>,
}

#[derive(Clone, Copy, Debug, PartialEq, Eq, Structural)]
pub struct AllOptions {
    pub all_option: Option<shared::AllOption>,
}

/// What to read from.
#[derive(Debug)]
pub enum StreamOption {
    Stream(StreamOptions),
    All(AllOptions),
}

/// How many events to read, or to go on reading as they are written.
#[derive(Clone, Copy, Debug, PartialEq, Eq, Structural)]
pub enum CountOption {
    Count(u64),
    Subscription,
}

/// The form that identifiers are wanted in.
#[derive(Clone, Copy, Debug, PartialEq, Eq, Structural)]
pub enum UuidOption {
    Structured,
    String,
}

/// Which version of the control messages is understood.
#[derive(Clone, Copy, Debug, PartialEq, Eq, Structural)]
pub struct ControlOption {
    pub compatibility: u32,
}

#[derive(Debug)]
pub struct ReadOptions {
    pub stream_option: Option<StreamOption>,
    pub resolve_links: bool,
    pub filter_option: Option<shared::FilterOption>,
    pub count_option: Option<CountOption>,
    pub uuid_option: Option<UuidOption>,
    pub control_option: Option<ControlOption>,
    pub read_direction: i32,
}

/// A read, or a subscription.
#[derive(Debug)]
pub struct ReadReq {
    pub options: Option<ReadOptions>,
}

/// An event that was read.
#[derive(Debug)]
pub struct ReadEvent {
    pub event: Option<shared::RecordedEvent>,
    pub link: Option<shared::RecordedEvent>,
    pub position: Option<shared::CommitPosition>,
}

#[derive(Debug)]
pub enum ReadContent {
    Event(ReadEvent),
    Confirmation { subscription_id: String },
    Checkpoint(shared::Position),
    StreamNotFound,
    FirstStreamPosition(u64),
    LastStreamPosition(u64),
    LastAllStreamPosition(shared::Position),
}

/// One message of the answer to a read.
#[derive(Debug)]
pub struct ReadResp {
    pub content: Option<ReadContent>,
}

#[derive(Debug)]
pub struct DeleteOptions {
    pub stream_identifier: Option<shared::StreamIdentifier>,
    pub expected_stream_revision: Option<ExpectedStreamRevision>,
}

/// Deletes a stream.
#[derive(Debug)]
pub struct DeleteReq {
    pub options: Option<DeleteOptions>,
}

#[derive(Clone, Copy, Debug, PartialEq, Eq, Structural)]
pub struct DeleteResp {
    pub position_option: Option<shared::PositionOption>,
}

/// Deletes a stream for good.
#[derive(Debug)]
pub struct TombstoneReq {
    pub options: Option<DeleteOptions>,
}

#[derive(Clone, Copy, Debug, PartialEq, Eq, Structural)]
pub struct TombstoneResp {
    pub position_option: Option<shared::PositionOption>,
}

} // verus!
