//! Settings of persistent subscriptions, on the wire.
use crate::commands::ps_info::is_millis;
use crate::commands::start::{
    all_option, is_filter_option, ps_create_filter_into_proto, revision_option, to_all_option,
    to_revision_option,
};
use crate::options::{Options, PersistentSubscriptionOptions, PersistentSubscriptionToAllOptions};
use crate::time::Duration;
use crate::types::{
    Error, PersistentSubscriptionSettings, Position, StreamPosition, SystemConsumerStrategy,
};
use crate::wire::persistent;
use crate::wire::shared;
use vstd::prelude::*;

verus! {

/// A place that a persistent subscription can start from. Servers up to version 21 know
/// revisions only. They ignore the place of a subscription to `$all`, for which zero stands,
/// wherever it starts.
pub trait PsPosition: Copy {
    /// The revision that stands for the end of the stream.
    spec fn deprecated_end() -> u64;

    /// The revision that stands for the end of the stream.
    fn to_deprecated_end() -> (r: u64)
        ensures
            r == Self::deprecated_end(),
    ;

    /// The revision that stands for the place, if there is one.
    spec fn deprecated_value(self) -> Option<u64>;

    /// The revision that stands for the place, if there is one.
    fn to_deprecated_value(self) -> (r: Option<u64>)
        ensures
            r == self.deprecated_value(),
    ;
}

impl PsPosition for u64 {
    open spec fn deprecated_end() -> u64 {
        u64::MAX
    }

    fn to_deprecated_end() -> (r: u64) {
        u64::MAX
    }

    open spec fn deprecated_value(self) -> Option<u64> {
        Some(self)
    }

    fn to_deprecated_value(self) -> (r: Option<u64>) {
        Some(self)
    }
}

impl PsPosition for Position {
    open spec fn deprecated_end() -> u64 {
        0
    }

    fn to_deprecated_end() -> (r: u64) {
        0
    }

    open spec fn deprecated_value(self) -> Option<u64> {
        None
    }

    fn to_deprecated_value(self) -> (r: Option<u64>) {
        None
    }
}

/// The revision that stands for a starting place: in a regular stream, zero for the start and the
/// largest for the end; in `$all`, zero for any place.
pub open spec fn deprecated_revision<A: PsPosition>(value: StreamPosition<A>) -> u64 {
    match value {
        StreamPosition::Start => 0,
        StreamPosition::End => A::deprecated_end(),
        StreamPosition::Position(value) => match value.deprecated_value() {
            Some(revision) => revision,
            None => 0,
        },
    }
}

/// The revision that stands for a starting place.
pub fn ps_to_deprecated_revision_value<A: PsPosition>(value: StreamPosition<A>) -> (r: u64)
    ensures
        r == deprecated_revision(value),
{
    match value {
        StreamPosition::Start => 0,
        StreamPosition::End => A::to_deprecated_end(),
        StreamPosition::Position(value) => match value.to_deprecated_value() {
            Some(revision) => revision,
            None => 0,
        },
    }
}

/// The number of a strategy, if released servers know it.
pub open spec fn strategy_code(strategy: SystemConsumerStrategy) -> Option<i32> {
    match strategy {
        SystemConsumerStrategy::DispatchToSingle => Some(0),
        SystemConsumerStrategy::RoundRobin => Some(1),
        SystemConsumerStrategy::Pinned => Some(2),
        SystemConsumerStrategy::PinnedByCorrelation => None,
        SystemConsumerStrategy::Custom(_) => None,
    }
}

fn to_strategy_code(strategy: &SystemConsumerStrategy) -> (r: Option<i32>)
    ensures
        r == strategy_code(*strategy),
{
    match strategy {
        SystemConsumerStrategy::DispatchToSingle => Some(0),
        SystemConsumerStrategy::RoundRobin => Some(1),
        SystemConsumerStrategy::Pinned => Some(2),
        SystemConsumerStrategy::PinnedByCorrelation => None,
        SystemConsumerStrategy::Custom(_) => None,
    }
}

/// Settings on the wire. Spans of time are in milliseconds, as far as they fit.
pub open spec fn update_settings<A: PsPosition>(
    settings: PersistentSubscriptionSettings<A>,
) -> persistent::UpdateSettings {
    persistent::UpdateSettings {
        resolve_links: settings.resolve_link_tos,
        revision: deprecated_revision(settings.start_from),
        extra_statistics: settings.extra_statistics,
        message_timeout_ms: Some(settings.message_timeout.total_millis() as i32),
        max_retry_count: settings.max_retry_count,
        checkpoint_after_ms: Some(settings.checkpoint_after.total_millis() as i32),
        min_checkpoint_count: settings.checkpoint_lower_bound,
        max_checkpoint_count: settings.checkpoint_upper_bound,
        max_subscriber_count: settings.max_subscriber_count,
        live_buffer_size: settings.live_buffer_size,
        read_batch_size: settings.read_batch_size,
        history_buffer_size: settings.history_buffer_size,
        named_consumer_strategy: strategy_code(settings.consumer_strategy_name)->0,
    }
}

/// Whether the settings of a new subscription are those of an update, and the name of the
/// strategy.
pub open spec fn is_create_settings(
    created: persistent::CreateSettings,
    updated: persistent::UpdateSettings,
    strategy: SystemConsumerStrategy,
) -> bool {
    &&& created.resolve_links == updated.resolve_links
    &&& created.revision == updated.revision
    &&& created.extra_statistics == updated.extra_statistics
    &&& created.message_timeout_ms == updated.message_timeout_ms
    &&& created.max_retry_count == updated.max_retry_count
    &&& created.checkpoint_after_ms == updated.checkpoint_after_ms
    &&& created.min_checkpoint_count == updated.min_checkpoint_count
    &&& created.max_checkpoint_count == updated.max_checkpoint_count
    &&& created.max_subscriber_count == updated.max_subscriber_count
    &&& created.live_buffer_size == updated.live_buffer_size
    &&& created.read_batch_size == updated.read_batch_size
    &&& created.history_buffer_size == updated.history_buffer_size
    &&& created.named_consumer_strategy == updated.named_consumer_strategy
    &&& created.consumer_strategy@ == strategy.name()
}

/// Writes the settings of a new persistent subscription. Strategies that no released server
/// knows are refused.
pub fn convert_settings_create<A: PsPosition>(settings: &PersistentSubscriptionSettings<A>) -> (r:
    Result<persistent::CreateSettings, Error>)
    ensures
        match strategy_code(settings.consumer_strategy_name) {
            Some(_) => r matches Ok(created) && is_create_settings(
                created,
                update_settings(*settings),
                settings.consumer_strategy_name,
            ),
            None => r matches Err(error) && error == Error::UnsupportedFeature,
        },
{
    let named_consumer_strategy: i32 = match to_strategy_code(&settings.consumer_strategy_name) {
        Some(code) => code,
        None => return Err(Error::UnsupportedFeature),
    };
    let revision: u64 = ps_to_deprecated_revision_value(settings.start_from);
    let consumer_strategy = settings.consumer_strategy_name.to_string();
    Ok(
        persistent::CreateSettings {
            resolve_links: settings.resolve_link_tos,
            revision,
            extra_statistics: settings.extra_statistics,
            message_timeout_ms: Some(
                #[verifier::truncate]
                (settings.message_timeout.as_millis() as i32),
            ),
            max_retry_count: settings.max_retry_count,
            checkpoint_after_ms: Some(
                #[verifier::truncate]
                (settings.checkpoint_after.as_millis() as i32),
            ),
            min_checkpoint_count: settings.checkpoint_lower_bound,
            max_checkpoint_count: settings.checkpoint_upper_bound,
            max_subscriber_count: settings.max_subscriber_count,
            live_buffer_size: settings.live_buffer_size,
            read_batch_size: settings.read_batch_size,
            history_buffer_size: settings.history_buffer_size,
            named_consumer_strategy,
            consumer_strategy,
        },
    )
}

/// Writes the new settings of a persistent subscription. Strategies that no released server
/// knows are refused.
pub fn convert_settings_update<A: PsPosition>(settings: &PersistentSubscriptionSettings<A>) -> (r:
    Result<persistent::UpdateSettings, Error>)
    ensures
        r == match strategy_code(settings.consumer_strategy_name) {
            Some(_) => Ok(update_settings(*settings)),
            None => Err(Error::UnsupportedFeature),
        },
{
    let named_consumer_strategy: i32 = match to_strategy_code(&settings.consumer_strategy_name) {
        Some(code) => code,
        None => return Err(Error::UnsupportedFeature),
    };
    let revision: u64 = ps_to_deprecated_revision_value(settings.start_from);
    Ok(
        persistent::UpdateSettings {
            resolve_links: settings.resolve_link_tos,
            revision,
            extra_statistics: settings.extra_statistics,
            message_timeout_ms: Some(
                #[verifier::truncate]
                (settings.message_timeout.as_millis() as i32),
            ),
            max_retry_count: settings.max_retry_count,
            checkpoint_after_ms: Some(
                #[verifier::truncate]
                (settings.checkpoint_after.as_millis() as i32),
            ),
            min_checkpoint_count: settings.checkpoint_lower_bound,
            max_checkpoint_count: settings.checkpoint_upper_bound,
            max_subscriber_count: settings.max_subscriber_count,
            live_buffer_size: settings.live_buffer_size,
            read_batch_size: settings.read_batch_size,
            history_buffer_size: settings.history_buffer_size,
            named_consumer_strategy,
        },
    )
}

/// What a persistent subscription is to, and how it is set up.
pub trait PsSettings: Options {
    type Pos: PsPosition;

    /// The settings.
    spec fn subscription_settings(&self) -> PersistentSubscriptionSettings<Self::Pos>;

    /// Whether the subscription is to `$all`.
    spec fn is_to_all(&self) -> bool;

    /// Whether an option says what a new subscription is to, where it is named after the stream.
    spec fn is_create_option(&self, option: persistent::CreateStreamOption, stream: Seq<u8>) -> bool;

    /// Whether an option says what an updated subscription is to, where it is named after the
    /// stream.
    spec fn is_update_option(&self, option: persistent::UpdateStreamOption, stream: Seq<u8>) -> bool;

    fn settings(&self) -> (r: &PersistentSubscriptionSettings<Self::Pos>)
        ensures
            *r == self.subscription_settings(),
    ;

    fn to_create_options(&self, stream_identifier: shared::StreamIdentifier) -> (r:
        persistent::CreateStreamOption)
        ensures
            self.is_create_option(r, stream_identifier.stream_name@),
            r is All == self.is_to_all(),
    ;

    fn to_update_options(&self, stream_identifier: shared::StreamIdentifier) -> (r:
        persistent::UpdateStreamOption)
        ensures
            self.is_update_option(r, stream_identifier.stream_name@),
            r is All == self.is_to_all(),
    ;
}

/// Whether options are of the stream, from the given place.
pub open spec fn is_stream_options(
    options: persistent::StreamOptions,
    stream: Seq<u8>,
    start: shared::RevisionOption,
) -> bool {
    &&& options.stream_identifier matches Some(identifier) && identifier.stream_name@ == stream
    &&& options.revision_option == Some(start)
}

impl PsSettings for PersistentSubscriptionOptions {
    type Pos = u64;

    open spec fn subscription_settings(&self) -> PersistentSubscriptionSettings<u64> {
        self.setts
    }

    open spec fn is_to_all(&self) -> bool {
        false
    }

    open spec fn is_create_option(
        &self,
        option: persistent::CreateStreamOption,
        stream: Seq<u8>,
    ) -> bool {
        option matches persistent::CreateStreamOption::Stream(options) && is_stream_options(
            options,
            stream,
            revision_option(self.setts.start_from),
        )
    }

    open spec fn is_update_option(
        &self,
        option: persistent::UpdateStreamOption,
        stream: Seq<u8>,
    ) -> bool {
        option matches persistent::UpdateStreamOption::Stream(options) && is_stream_options(
            options,
            stream,
            revision_option(self.setts.start_from),
        )
    }

    fn settings(&self) -> (r: &PersistentSubscriptionSettings<u64>) {
        &self.setts
    }

    fn to_create_options(&self, stream_identifier: shared::StreamIdentifier) -> (r:
        persistent::CreateStreamOption) {
        persistent::CreateStreamOption::Stream(
            persistent::StreamOptions {
                stream_identifier: Some(stream_identifier),
                revision_option: Some(to_revision_option(self.setts.start_from)),
            },
        )
    }

    fn to_update_options(&self, stream_identifier: shared::StreamIdentifier) -> (r:
        persistent::UpdateStreamOption) {
        persistent::UpdateStreamOption::Stream(
            persistent::StreamOptions {
                stream_identifier: Some(stream_identifier),
                revision_option: Some(to_revision_option(self.setts.start_from)),
            },
        )
    }
}

impl PsSettings for PersistentSubscriptionToAllOptions {
    type Pos = Position;

    open spec fn subscription_settings(&self) -> PersistentSubscriptionSettings<Position> {
        self.setts
    }

    open spec fn is_to_all(&self) -> bool {
        true
    }

    open spec fn is_create_option(
        &self,
        option: persistent::CreateStreamOption,
        stream: Seq<u8>,
    ) -> bool {
        option matches persistent::CreateStreamOption::All(options) && {
            &&& options.filter_option matches Some(filter) && is_filter_option(filter, self.filter)
            &&& options.all_option == Some(all_option(self.setts.start_from))
        }
    }

    open spec fn is_update_option(
        &self,
        option: persistent::UpdateStreamOption,
        stream: Seq<u8>,
    ) -> bool {
        option matches persistent::UpdateStreamOption::All(options) && options.all_option == Some(
            all_option(self.setts.start_from),
        )
    }

    fn settings(&self) -> (r: &PersistentSubscriptionSettings<Position>) {
        &self.setts
    }

    fn to_create_options(&self, stream_identifier: shared::StreamIdentifier) -> (r:
        persistent::CreateStreamOption) {
        let filter_option = match &self.filter {
            Some(filter) => shared::FilterOption::Filter(ps_create_filter_into_proto(filter)),
            None => shared::FilterOption::NoFilter,
        };
        persistent::CreateStreamOption::All(
            persistent::CreateAllOptions {
                filter_option: Some(filter_option),
                all_option: Some(to_all_option(self.setts.start_from)),
            },
        )
    }

    fn to_update_options(&self, stream_identifier: shared::StreamIdentifier) -> (r:
        persistent::UpdateStreamOption) {
        persistent::UpdateStreamOption::All(
            persistent::UpdateAllOptions {
                all_option: Some(to_all_option(self.setts.start_from)),
            },
        )
    }
}

/// A span of whole milliseconds that fits on the wire comes back as it was sent.
pub proof fn law_span_reads_back(span: Duration, read: Duration)
    requires
        span.well_formed(),
        span.total_nanos() % 1_000_000 == 0,
        span.total_millis() <= i32::MAX,
        is_millis(read, span.total_millis() as i32),
    ensures
        read == span,
{
}

/// What stands for the starting place of a subscription to a regular stream is its revision, zero
/// for the start, and the largest revision for the end. For any starting place of a subscription to
/// `$all` it is zero.
pub proof fn law_deprecated_revision(revision: u64, all: StreamPosition<Position>)
    ensures
        deprecated_revision(StreamPosition::Position(revision)) == revision,
        deprecated_revision(StreamPosition::<u64>::Start) == 0,
        deprecated_revision(StreamPosition::<u64>::End) == u64::MAX,
        deprecated_revision(all) == 0,
{
}

} // verus!
