//! Messages of the persistent subscriptions service.
use crate::wire::shared;
use crate::wire::streams::UuidOption;
use vstd::prelude::*;

verus! {

/// The settings of a new persistent subscription.
#[derive(Debug)]
pub struct CreateSettings {
    pub resolve_links: bool,
    /// Where to start, for servers that do not know the stream option.
    pub revision: u64,
    pub extra_statistics: bool,
    pub message_timeout_ms: Option<i32>,
    pub max_retry_count: i32,
    pub checkpoint_after_ms: Option<i32>,
    pub min_checkpoint_count: i32,
    pub max_checkpoint_count: i32,
    pub max_subscriber_count: i32,
    pub live_buffer_size: i32,
    pub read_batch_size: i32,
    pub history_buffer_size: i32,
    pub named_consumer_strategy: i32,
    pub consumer_strategy: String,
}

/// The new settings of a persistent subscription.
#[derive(Clone, Copy, Debug, PartialEq, Eq, Structural)]
pub struct UpdateSettings {
    pub resolve_links: bool,
    /// Where to start, for servers that do not know the stream option.
    pub revision: u64,
    pub extra_statistics: bool,
    pub message_timeout_ms: Option<i32>,
    pub max_retry_count: i32,
    pub checkpoint_after_ms: Option<i32>,
    pub min_checkpoint_count: i32,
    pub max_checkpoint_count: i32,
    pub max_subscriber_count: i32,
    pub live_buffer_size: i32,
    pub read_batch_size: i32,
    pub history_buffer_size: i32,
    pub named_consumer_strategy: i32,
}

#[derive(Debug)]
pub struct StreamOptions {
    pub stream_identifier: Option<shared::StreamIdentifier>,
    pub revision_option: Option<shared::RevisionOption>,
}

#[derive(Debug)]
pub struct CreateAllOptions {
    pub filter_option: Option<shared::FilterOption>,
    pub all_option: Option<shared::AllOption>,
}

/// What a new persistent subscription is to.
#[derive(Debug)]
pub enum CreateStreamOption {
    Stream(StreamOptions),
    All(CreateAllOptions),
}

#[derive(Debug)]
pub struct CreateOptions {
    pub stream_option: Option<CreateStreamOption>,
    /// The stream, for servers that do not know the stream option.
    pub stream_identifier: Option<shared::StreamIdentifier>,
    pub group_name: String,
    pub settings: Option<CreateSettings>,
}

/// Creates a persistent subscription.
#[derive(Debug)]
pub struct CreateReq {
    pub options: Option<CreateOptions>,
}

#[derive(Clone, Copy, Debug, PartialEq, Eq, Structural)]
pub struct UpdateAllOptions {
    pub all_option: Option<shared::AllOption>,
}

/// What an updated persistent subscription is to.
#[derive(Debug)]
pub enum UpdateStreamOption {
    Stream(StreamOptions),
    All(UpdateAllOptions),
}

#[derive(Debug)]
pub struct UpdateOptions {
    pub group_name: String,
    pub stream_option: Option<UpdateStreamOption>,
    /// The stream, for servers that do not know the stream option.
    pub stream_identifier: Option<shared::StreamIdentifier>,
    pub settings: Option<UpdateSettings>,
}

/// Updates a persistent subscription.
#[derive(Debug)]
pub struct UpdateReq {
    pub options: Option<UpdateOptions>,
}

/// A regular stream, or `$all`.
#[derive(Debug)]
pub enum StreamOption {
    StreamIdentifier(shared::StreamIdentifier),
    All,
}

#[derive(Debug)]
pub struct DeleteOptions {
    pub stream_option: Option<StreamOption>,
    pub group_name: String,
}

/// Deletes a persistent subscription.
#[derive(Debug)]
pub struct DeleteReq {
    pub options: Option<DeleteOptions>,
}

#[derive(Debug)]
pub struct ReadOptions {
    pub stream_option: Option<StreamOption>,
    pub group_name: String,
    pub buffer_size: i32,
    pub uuid_option: Option<UuidOption>,
}

/// Tells the server that events have been processed.
#[derive(Debug)]
pub struct Ack {
    pub id: Vec<u8>,
    pub ids: Vec<shared::Uuid>,
}

/// Tells the server that events could not be processed.
#[derive(Debug)]
pub struct Nack {
    pub id: Vec<u8>,
    pub ids: Vec<shared::Uuid>,
    pub action: i32,
    pub reason: String,
}

#[derive(Debug)]
pub enum ReadReqContent {
    Options(ReadOptions),
    Ack(Ack),
    Nack(Nack),
}

/// One message to a persistent subscription.
#[derive(Debug)]
pub struct ReadReq {
    pub content: Option<ReadReqContent>,
}

/// How often an event has been handed out before.
#[derive(Clone, Copy, Debug, PartialEq, Eq, Structural)]
pub enum Count {
    RetryCount(i32),
    NoRetryCount,
}

/// An event of a persistent subscription.
#[derive(Debug)]
pub struct ReadEvent {
    pub event: Option<shared::RecordedEvent>,
    pub link: Option<shared::RecordedEvent>,
    pub position: Option<shared::CommitPosition>,
    pub count: Option<Count>,
}

#[derive(Debug)]
pub enum ReadRespContent {
    Event(ReadEvent),
    SubscriptionConfirmation { subscription_id: String },
}

/// One message of a persistent subscription.
#[derive(Debug)]
pub struct ReadResp {
    pub content: Option<ReadRespContent>,
}

/// Which persistent subscriptions to list.
#[derive(Debug)]
pub enum ListOption {
    ListAllSubscriptions,
    ListForStream(StreamOption),
}

#[derive(Debug)]
pub struct ListOptions {
    pub list_option: Option<ListOption>,
}

/// Lists persistent subscriptions.
#[derive(Debug)]
pub struct ListReq {
    pub options: Option<ListOptions>,
}

#[derive(Debug)]
pub struct ListResp {
    pub subscriptions: Vec<SubscriptionInfo>,
}

/// How many parked messages to replay.
#[derive(Clone, Copy, Debug, PartialEq, Eq, Structural)]
pub enum StopAtOption {
    StopAt(i64),
    NoLimit,
}

#[derive(Debug)]
pub struct ReplayParkedOptions {
    pub group_name: String,
    pub stream_option: Option<StreamOption>,
    pub stop_at_option: Option<StopAtOption>,
}

/// Replays parked messages.
#[derive(Debug)]
pub struct ReplayParkedReq {
    pub options: Option<ReplayParkedOptions>,
}

#[derive(Debug)]
pub struct GetInfoOptions {
    pub group_name: String,
    pub stream_option: Option<StreamOption>,
}

/// Describes a persistent subscription.
#[derive(Debug)]
pub struct GetInfoReq {
    pub options: Option<GetInfoOptions>,
}

#[derive(Debug)]
pub struct GetInfoResp {
    pub subscription_info: Option<SubscriptionInfo>,
}

#[derive(Debug)]
pub struct Measurement {
    pub key: String,
    pub value: i64,
}

/// A connection of a persistent subscription.
#[derive(Debug)]
pub struct ConnectionInfo {
    pub from: String,
    pub username: String,
    pub average_items_per_second: i32,
    pub total_items: i64,
    pub count_since_last_measurement: i64,
    pub observed_measurements: Vec<Measurement>,
    pub available_slots: i32,
    pub in_flight_messages: i32,
    pub connection_name: String,
}

/// A persistent subscription, as the server describes it.
#[derive(Debug)]
pub struct SubscriptionInfo {
    pub event_source: String,
    pub group_name: String,
    pub status: String,
    pub connections: Vec<ConnectionInfo>,
    pub average_per_second: i32,
    pub total_items: i64,
    pub count_since_last_measurement: i64,
    pub last_checkpointed_event_position: String,
    pub last_known_event_position: String,
    pub resolve_link_tos: bool,
    pub start_from: String,
    pub message_timeout_milliseconds: i32,
    pub extra_statistics: bool,
    pub max_retry_count: i32,
    pub live_buffer_size: i32,
    pub buffer_size: i32,
    pub read_batch_size: i32,
    pub check_point_after_milliseconds: i32,
    pub min_check_point_count: i32,
    pub max_check_point_count: i32,
    pub read_buffer_count: i32,
    pub live_buffer_count: i64,
    pub retry_buffer_count: i32,
    pub total_in_flight_messages: i32,
    pub outstanding_messages_count: i32,
    pub named_consumer_strategy: String,
    pub max_subscriber_count: i32,
    pub parked_message_count: i64,
}

} // verus!
