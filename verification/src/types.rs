//! What commands take and give back.
use crate::ids::Uuid;
use crate::string_map::StringMap;
use crate::text::same_text;
use crate::time::Duration;
use vstd::prelude::*;

verus! {

/// A place in the transaction log.
#[derive(Clone, Copy, Debug, PartialEq, Eq, Structural)]
pub struct Position {
    pub commit: u64,
    pub prepare: u64,
}

impl Position {
    /// The beginning of the transaction log.
    pub fn start() -> (r: Position)
        ensures
            r == (Position { commit: 0, prepare: 0 }),
    {
        Position { commit: 0, prepare: 0 }
    }
}

/// Where to start in a stream.
#[derive(Clone, Copy, Debug, PartialEq, Eq, Structural)]
pub enum StreamPosition<A> {
    Start,
    End,
    Position(A),
}

/// A place in a stream: a revision in a regular one, a log position in `$all`.
#[derive(Clone, Copy, Debug, PartialEq, Eq, Structural)]
pub enum RevisionOrPosition {
    Revision(u64),
    Position(Position),
}

/// Which way to read.
#[derive(Clone, Copy, Debug, PartialEq, Eq, Structural)]
pub enum ReadDirection {
    Forward,
    Backward,
}

/// What a write expects of the stream.
#[derive(Clone, Copy, Debug, PartialEq, Eq, Structural)]
pub enum ExpectedRevision {
    Any,
    StreamExists,
    NoStream,
    Exact(u64),
}

/// What the stream was at when a write failed.
#[derive(Clone, Copy, Debug, PartialEq, Eq, Structural)]
pub enum CurrentRevision {
    Current(u64),
    NoStream,
}

/// Why a command failed.
#[derive(Debug)]
pub enum Error {
    /// The server, or every released server, cannot do it.
    UnsupportedFeature,
    /// There is no such stream or subscription.
    ResourceNotFound,
    /// The user may not do it.
    AccessDenied,
    /// The command makes no sense any more.
    IllegalStateError(String),
    /// The server's answer cannot be read.
    InternalParsingError(String),
    /// The stream was not at the revision that the write expected.
    WrongExpectedVersion { current: CurrentRevision, expected: ExpectedRevision },
    /// Any other failure of the call, with its status code.
    Grpc { code: i32, message: String },
}

impl Error {
    /// Whether the user may not do it.
    pub fn is_access_denied(&self) -> (r: bool)
        ensures
            r == (*self is AccessDenied),
    {
        match self {
            Error::AccessDenied => true,
            _ => false,
        }
    }
}

/// An event to be written.
#[derive(Debug)]
pub struct EventData {
    /// The identifier of the event. One is made up where there is none.
    pub id_opt: Option<Uuid>,
    pub payload: Vec<u8>,
    pub metadata: StringMap<String>,
    pub custom_metadata: Option<Vec<u8>>,
}

/// An event as it was written.
#[derive(Debug)]
pub struct RecordedEvent {
    pub stream_id: String,
    pub id: Uuid,
    pub revision: u64,
    pub event_type: String,
    pub data: Vec<u8>,
    pub metadata: StringMap<String>,
    pub custom_metadata: Vec<u8>,
    pub is_json: bool,
    pub position: Position,
}

/// An event that was read, and the link that led to it.
#[derive(Debug)]
pub struct ResolvedEvent {
    pub event: Option<RecordedEvent>,
    pub link: Option<RecordedEvent>,
    pub commit_position: Option<u64>,
}

impl ResolvedEvent {
    /// Whether there is an event at all: the one that was read, or the link to it.
    pub open spec fn has_original(self) -> bool {
        self.link is Some || self.event is Some
    }

    /// The event of the stream that was read: the link, if there is one.
    pub open spec fn original(self) -> RecordedEvent {
        match self.link {
            Some(link) => link,
            None => self.event->0,
        }
    }

    /// The event of the stream that was read: the link, if there is one.
    pub fn get_original_event(&self) -> (r: &RecordedEvent)
        requires
            self.has_original(),
        ensures
            *r == self.original(),
    {
        match &self.link {
            Some(link) => link,
            None => self.event.as_ref().unwrap(),
        }
    }
}

/// What a write led to.
#[derive(Clone, Copy, Debug, PartialEq, Eq, Structural)]
pub struct WriteResult {
    pub next_expected_version: u64,
    pub position: Position,
}

/// What comes out of reading a stream.
#[derive(Debug)]
pub enum ReadEvent {
    Event(ResolvedEvent),
    FirstStreamPosition(u64),
    LastStreamPosition(u64),
    LastAllStreamPosition(Position),
}

/// What comes out of a subscription.
#[derive(Debug)]
pub enum SubscriptionEvent {
    EventAppeared(ResolvedEvent),
    Confirmed(String),
    Checkpoint(Position),
    FirstStreamPosition(u64),
    LastStreamPosition(u64),
    LastAllPosition(Position),
}

/// What comes out of a persistent subscription.
#[derive(Debug)]
pub enum PersistentSubscriptionEvent {
    EventAppeared { retry_count: usize, event: ResolvedEvent },
    Confirmed(String),
}

/// How a subscription tries again to connect: how often, and how long it waits in between.
#[derive(Clone, Copy, Debug, PartialEq, Eq, Structural)]
pub struct RetryOptions {
    pub limit: usize,
    pub delay: Duration,
}

/// Which events of `$all` are wanted.
#[derive(Debug)]
pub struct SubscriptionFilter {
    /// Whether names of streams are looked at, rather than types of events.
    pub based_on_stream: bool,
    pub max: Option<u32>,
    pub regex: Option<String>,
    pub prefixes: Vec<String>,
}

/// What is to become of an event that could not be processed.
#[derive(Clone, Copy, Debug, PartialEq, Eq, Structural)]
pub enum NakAction {
    Unknown,
    Park,
    Retry,
    Skip,
    Stop,
}

/// How a persistent subscription hands out events to its consumers.
#[derive(Debug)]
pub enum SystemConsumerStrategy {
    DispatchToSingle,
    RoundRobin,
    Pinned,
    PinnedByCorrelation,
    Custom(String),
}

impl SystemConsumerStrategy {
    /// The name of the strategy.
    pub open spec fn name(self) -> Seq<char> {
        match self {
            SystemConsumerStrategy::DispatchToSingle => "DispatchToSingle"@,
            SystemConsumerStrategy::RoundRobin => "RoundRobin"@,
            SystemConsumerStrategy::Pinned => "Pinned"@,
            SystemConsumerStrategy::PinnedByCorrelation => "PinnedByCorrelation"@,
            SystemConsumerStrategy::Custom(name) => name@,
        }
    }

    /// Whether the strategy is the one that a name stands for: a strategy of the server, or
    /// else a custom one.
    pub open spec fn is_named(self, name: Seq<char>) -> bool {
        if name == "DispatchToSingle"@ {
            self is DispatchToSingle
        } else if name == "RoundRobin"@ {
            self is RoundRobin
        } else if name == "Pinned"@ {
            self is Pinned
        } else if name == "PinnedByCorrelation"@ {
            self is PinnedByCorrelation
        } else {
            self matches SystemConsumerStrategy::Custom(custom) && custom@ == name
        }
    }

    /// The name of the strategy.
    pub fn to_string(&self) -> (r: String)
        ensures
            r@ == self.name(),
    {
        match self {
            SystemConsumerStrategy::DispatchToSingle => "DispatchToSingle".to_owned(),
            SystemConsumerStrategy::RoundRobin => "RoundRobin".to_owned(),
            SystemConsumerStrategy::Pinned => "Pinned".to_owned(),
            SystemConsumerStrategy::PinnedByCorrelation => "PinnedByCorrelation".to_owned(),
            SystemConsumerStrategy::Custom(name) => name.clone(),
        }
    }

    /// The strategy that a name stands for.
    pub fn from_string(name: String) -> (r: SystemConsumerStrategy)
        ensures
            r.is_named(name@),
    {
        let text = name.as_str();
        if same_text(text, "DispatchToSingle") {
            SystemConsumerStrategy::DispatchToSingle
        } else if same_text(text, "RoundRobin") {
            SystemConsumerStrategy::RoundRobin
        } else if same_text(text, "Pinned") {
            SystemConsumerStrategy::Pinned
        } else if same_text(text, "PinnedByCorrelation") {
            SystemConsumerStrategy::PinnedByCorrelation
        } else {
            SystemConsumerStrategy::Custom(name)
        }
    }
}

/// The name of what a name stands for is the name.
pub proof fn law_strategy_keeps_its_name(strategy: SystemConsumerStrategy, name: Seq<char>)
    requires
        strategy.is_named(name),
    ensures
        strategy.name() == name,
{
}

/// The settings of a persistent subscription.
#[derive(Debug)]
pub struct PersistentSubscriptionSettings<A> {
    pub resolve_link_tos: bool,
    pub start_from: StreamPosition<A>,
    pub extra_statistics: bool,
    pub message_timeout: Duration,
    pub max_retry_count: i32,
    pub live_buffer_size: i32,
    pub read_batch_size: i32,
    pub history_buffer_size: i32,
    pub checkpoint_after: Duration,
    pub checkpoint_lower_bound: i32,
    pub checkpoint_upper_bound: i32,
    pub max_subscriber_count: i32,
    pub consumer_strategy_name: SystemConsumerStrategy,
}

/// Further measurements of a connection, by name.
#[derive(Debug)]
pub struct PersistentSubscriptionMeasurements(pub StringMap<i64>);

/// A connection of a persistent subscription.
#[derive(Debug)]
pub struct PersistentSubscriptionConnectionInfo {
    pub from: String,
    pub username: String,
    /// A whole number, as the server counts it.
    pub average_items_per_second: i32,
    pub total_items: usize,
    pub count_since_last_measurement: usize,
    pub available_slots: usize,
    pub in_flight_messages: usize,
    pub connection_name: String,
    pub extra_statistics: PersistentSubscriptionMeasurements,
}

/// How far a persistent subscription has come.
#[derive(Debug)]
pub struct PersistentSubscriptionStats {
    /// A whole number, as the server counts it.
    pub average_per_second: i32,
    pub total_items: usize,
    pub count_since_last_measurement: usize,
    pub last_checkpointed_event_revision: Option<u64>,
    pub last_known_event_revision: Option<u64>,
    pub last_checkpointed_position: Option<Position>,
    pub last_known_position: Option<Position>,
    pub read_buffer_count: usize,
    pub live_buffer_count: usize,
    pub retry_buffer_count: usize,
    pub total_in_flight_messages: usize,
    pub outstanding_messages_count: usize,
    pub parked_message_count: usize,
}

/// A persistent subscription, as the server describes it.
#[derive(Debug)]
pub struct PersistentSubscriptionInfo<A> {
    pub event_source: String,
    pub group_name: String,
    pub status: String,
    pub connections: Vec<PersistentSubscriptionConnectionInfo>,
    pub settings: Option<PersistentSubscriptionSettings<A>>,
    pub stats: PersistentSubscriptionStats,
}

/// What the server can do, as far as commands ask.
#[derive(Clone, Copy, Debug, PartialEq, Eq, Structural)]
pub struct Features {
    pub batch_append: bool,
    pub persistent_subscription_to_all: bool,
    pub persistent_subscription_management: bool,
}

/// A strategy of the server is the one that its name stands for.
pub proof fn law_strategy_reads_back(
    strategy: SystemConsumerStrategy,
    read: SystemConsumerStrategy,
)
    requires
        !(strategy is Custom),
        read.is_named(strategy.name()),
    ensures
        read == strategy,
{
    reveal_strlit("DispatchToSingle");
    reveal_strlit("RoundRobin");
    reveal_strlit("Pinned");
    reveal_strlit("PinnedByCorrelation");
    assert("DispatchToSingle"@.len() == 16);
    assert("RoundRobin"@.len() == 10);
    assert("Pinned"@.len() == 6);
    assert("PinnedByCorrelation"@.len() == 19);
}

} // verus!
