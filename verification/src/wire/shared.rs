//! Parts that messages of all services share.
use crate::string_map::StringMap;
use vstd::prelude::*;

verus! {

/// An identifier, in one of two forms.
#[derive(Debug)]
pub enum UuidValue {
    Structured { most_significant_bits: i64, least_significant_bits: i64 },
    String(String),
}

/// An identifier.
#[derive(Debug)]
pub struct Uuid {
    pub value: Option<UuidValue>,
}

/// The name of a stream, as UTF-8.
#[derive(Debug)]
pub struct StreamIdentifier {
    pub stream_name: Vec<u8>,
}

/// A place in the transaction log.
#[derive(Clone, Copy, Debug, PartialEq, Eq, Structural)]
pub struct Position {
    pub commit_position: u64,
    pub prepare_position: u64,
}

/// A place in the transaction log, or none.
#[derive(Clone, Copy, Debug, PartialEq, Eq, Structural)]
pub enum PositionOption {
    Position(Position),
    NoPosition,
}

/// Where to start in a regular stream.
#[derive(Clone, Copy, Debug, PartialEq, Eq, Structural)]
pub enum RevisionOption {
    Revision(u64),
    Start,
    End,
}

/// Where to start in `$all`.
#[derive(Clone, Copy, Debug, PartialEq, Eq, Structural)]
pub enum AllOption {
    Position(Position),
    Start,
    End,
}

/// A point in time: seconds since the Unix epoch, and the nanoseconds on top of them.
#[derive(Clone, Copy, Debug, PartialEq, Eq, Structural)]
pub struct Timestamp {
    pub seconds: i64,
    pub nanos: i32,
}

/// What a filter looks for: a regular expression, or prefixes.
#[derive(Debug)]
pub struct FilterExpression {
    pub regex: String,
    pub prefix: Vec<String>,
}

/// What a filter looks at.
#[derive(Debug)]
pub enum Filter {
    StreamIdentifier(FilterExpression),
    EventType(FilterExpression),
}

/// How many events are looked at before a checkpoint.
#[derive(Clone, Copy, Debug, PartialEq, Eq, Structural)]
pub enum FilterWindow {
    Max(u32),
    Count,
}

/// A filter on `$all`.
#[derive(Debug)]
pub struct FilterOptions {
    pub filter: Option<Filter>,
    pub window: Option<FilterWindow>,
    pub checkpoint_interval_multiplier: u32,
}

/// A filter on `$all`, or none.
#[derive(Debug)]
pub enum FilterOption {
    Filter(FilterOptions),
    NoFilter,
}

/// An event as it was written.
#[derive(Debug)]
pub struct RecordedEvent {
    pub id: Option<Uuid>,
    pub stream_identifier: Option<StreamIdentifier>,
    pub stream_revision: u64,
    pub prepare_position: u64,
    pub commit_position: u64,
    pub metadata: StringMap<String>,
    pub custom_metadata: Vec<u8>,
    pub data: Vec<u8>,
}

/// The commit position of an event that was read, or none.
#[derive(Clone, Copy, Debug, PartialEq, Eq, Structural)]
pub enum CommitPosition {
    CommitPosition(u64),
    NoPosition,
}

} // verus!
