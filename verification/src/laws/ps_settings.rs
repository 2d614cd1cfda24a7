//! What the settings of persistent subscriptions are for.
use crate::commands::position::{law_start_reads_back, position_text};
use crate::commands::ps_info::{subscription_info_from_wire, AllStream, RegularStream};
use crate::commands::ps_settings::{
    convert_settings_create, convert_settings_update, law_span_reads_back,
    ps_to_deprecated_revision_value, PsPosition, PsSettings,
};
use crate::laws::streams::{filters, lemma_filter, starts_at_position, starts_at_revision};
use crate::options::{PersistentSubscriptionOptions, PersistentSubscriptionToAllOptions};
use crate::text::decimal;
use crate::time::Duration;
use crate::types::{
    law_strategy_reads_back, Error, PersistentSubscriptionInfo, PersistentSubscriptionSettings,
    Position, StreamPosition, SystemConsumerStrategy,
};
use crate::wire::{persistent, shared};
use vstd::prelude::*;

verus! {

/// Whether released servers know a strategy, and what number they know it by.
pub open spec fn is_numbered(strategy: SystemConsumerStrategy, number: i32) -> bool {
    ||| strategy is DispatchToSingle && number == 0
    ||| strategy is RoundRobin && number == 1
    ||| strategy is Pinned && number == 2
}

/// Whether a span fits on the wire.
pub open spec fn fits(span: Duration) -> bool {
    span.secs * 1_000_000_000 + span.nanos < (i32::MAX + 1) * 1_000_000
}

/// Whether a number is that of the milliseconds of a span, rounded down.
pub open spec fn is_span(sent: Option<i32>, span: Duration) -> bool {
    sent matches Some(millis) && millis * 1_000_000 <= span.secs * 1_000_000_000 + span.nanos < (
    millis + 1) * 1_000_000
}

/// A new persistent subscription is created with each of the settings that were given, or not at all
/// where no released server knows its strategy.
pub proof fn law_created_settings_are_those_given<A: PsPosition>(
    settings: &PersistentSubscriptionSettings<A>,
    r: Result<persistent::CreateSettings, Error>,
    revision: u64,
)
    requires
        call_ensures(convert_settings_create::<A>, (settings,), r),
        call_ensures(
            ps_to_deprecated_revision_value::<A>,
            (settings.start_from,),
            revision,
        ),
    ensures
        settings.consumer_strategy_name is PinnedByCorrelation
            || settings.consumer_strategy_name is Custom ==> r
            == Err::<persistent::CreateSettings, Error>(Error::UnsupportedFeature),
        !(settings.consumer_strategy_name is PinnedByCorrelation)
            && !(settings.consumer_strategy_name is Custom) ==> r is Ok,
        r matches Ok(sent) ==> {
            &&& sent.resolve_links == settings.resolve_link_tos
            &&& sent.extra_statistics == settings.extra_statistics
            &&& sent.max_retry_count == settings.max_retry_count
            &&& sent.min_checkpoint_count == settings.checkpoint_lower_bound
            &&& sent.max_checkpoint_count == settings.checkpoint_upper_bound
            &&& sent.max_subscriber_count == settings.max_subscriber_count
            &&& sent.live_buffer_size == settings.live_buffer_size
            &&& sent.read_batch_size == settings.read_batch_size
            &&& sent.history_buffer_size == settings.history_buffer_size
            &&& sent.revision == revision
            &&& is_numbered(settings.consumer_strategy_name, sent.named_consumer_strategy)
            &&& sent.consumer_strategy@ == settings.consumer_strategy_name.name()
            &&& fits(settings.message_timeout) ==> is_span(
                sent.message_timeout_ms,
                settings.message_timeout,
            )
            &&& fits(settings.checkpoint_after) ==> is_span(
                sent.checkpoint_after_ms,
                settings.checkpoint_after,
            )
            &&& sent.message_timeout_ms == Some(
                ((settings.message_timeout.secs * 1_000_000_000 + settings.message_timeout.nanos)
                    / 1_000_000) as i32,
            )
            &&& sent.checkpoint_after_ms == Some(
                ((settings.checkpoint_after.secs * 1_000_000_000 + settings.checkpoint_after.nanos)
                    / 1_000_000) as i32,
            )
        },
{
}

/// A persistent subscription is updated to each of the settings that were given, or not at all where
/// no released server knows its strategy.
pub proof fn law_updated_settings_are_those_given<A: PsPosition>(
    settings: &PersistentSubscriptionSettings<A>,
    r: Result<persistent::UpdateSettings, Error>,
    revision: u64,
)
    requires
        call_ensures(convert_settings_update::<A>, (settings,), r),
        call_ensures(
            ps_to_deprecated_revision_value::<A>,
            (settings.start_from,),
            revision,
        ),
    ensures
        settings.consumer_strategy_name is PinnedByCorrelation
            || settings.consumer_strategy_name is Custom ==> r
            == Err::<persistent::UpdateSettings, Error>(Error::UnsupportedFeature),
        !(settings.consumer_strategy_name is PinnedByCorrelation)
            && !(settings.consumer_strategy_name is Custom) ==> r is Ok,
        r matches Ok(sent) ==> {
            &&& sent.resolve_links == settings.resolve_link_tos
            &&& sent.extra_statistics == settings.extra_statistics
            &&& sent.max_retry_count == settings.max_retry_count
            &&& sent.min_checkpoint_count == settings.checkpoint_lower_bound
            &&& sent.max_checkpoint_count == settings.checkpoint_upper_bound
            &&& sent.max_subscriber_count == settings.max_subscriber_count
            &&& sent.live_buffer_size == settings.live_buffer_size
            &&& sent.read_batch_size == settings.read_batch_size
            &&& sent.history_buffer_size == settings.history_buffer_size
            &&& sent.revision == revision
            &&& is_numbered(settings.consumer_strategy_name, sent.named_consumer_strategy)
            &&& fits(settings.message_timeout) ==> is_span(
                sent.message_timeout_ms,
                settings.message_timeout,
            )
            &&& fits(settings.checkpoint_after) ==> is_span(
                sent.checkpoint_after_ms,
                settings.checkpoint_after,
            )
            &&& sent.message_timeout_ms == Some(
                ((settings.message_timeout.secs * 1_000_000_000 + settings.message_timeout.nanos)
                    / 1_000_000) as i32,
            )
            &&& sent.checkpoint_after_ms == Some(
                ((settings.checkpoint_after.secs * 1_000_000_000 + settings.checkpoint_after.nanos)
                    / 1_000_000) as i32,
            )
        },
{
}

/// Creating a subscription and updating it to the same settings send the same.
pub proof fn law_create_and_update_agree<A: PsPosition>(
    settings: &PersistentSubscriptionSettings<A>,
    created: Result<persistent::CreateSettings, Error>,
    updated: Result<persistent::UpdateSettings, Error>,
)
    requires
        call_ensures(convert_settings_create::<A>, (settings,), created),
        call_ensures(convert_settings_update::<A>, (settings,), updated),
    ensures
        created is Ok == updated is Ok,
        created is Ok ==> {
            let created = created->Ok_0;
            updated == Ok::<persistent::UpdateSettings, Error>(
                persistent::UpdateSettings {
                    resolve_links: created.resolve_links,
                    revision: created.revision,
                    extra_statistics: created.extra_statistics,
                    message_timeout_ms: created.message_timeout_ms,
                    max_retry_count: created.max_retry_count,
                    checkpoint_after_ms: created.checkpoint_after_ms,
                    min_checkpoint_count: created.min_checkpoint_count,
                    max_checkpoint_count: created.max_checkpoint_count,
                    max_subscriber_count: created.max_subscriber_count,
                    live_buffer_size: created.live_buffer_size,
                    read_batch_size: created.read_batch_size,
                    history_buffer_size: created.history_buffer_size,
                    named_consumer_strategy: created.named_consumer_strategy,
                },
            )
        },
{
}

/// Whether a description repeats the settings that a subscription was created with.
pub open spec fn repeats(
    info: persistent::SubscriptionInfo,
    sent: persistent::CreateSettings,
) -> bool {
    &&& info.resolve_link_tos == sent.resolve_links
    &&& info.extra_statistics == sent.extra_statistics
    &&& sent.message_timeout_ms == Some(info.message_timeout_milliseconds)
    &&& info.max_retry_count == sent.max_retry_count
    &&& sent.checkpoint_after_ms == Some(info.check_point_after_milliseconds)
    &&& info.min_check_point_count == sent.min_checkpoint_count
    &&& info.max_check_point_count == sent.max_checkpoint_count
    &&& info.max_subscriber_count == sent.max_subscriber_count
    &&& info.live_buffer_size == sent.live_buffer_size
    &&& info.read_batch_size == sent.read_batch_size
    &&& info.buffer_size == sent.history_buffer_size
    &&& info.named_consumer_strategy@ == sent.consumer_strategy@
}

/// Whether the spans of settings are of whole milliseconds and fit on the wire.
pub open spec fn has_whole_spans<A>(settings: PersistentSubscriptionSettings<A>) -> bool {
    &&& settings.message_timeout.nanos < 1_000_000_000
    &&& settings.message_timeout.nanos % 1_000_000 == 0
    &&& fits(settings.message_timeout)
    &&& settings.checkpoint_after.nanos < 1_000_000_000
    &&& settings.checkpoint_after.nanos % 1_000_000 == 0
    &&& fits(settings.checkpoint_after)
}

/// A subscription to a regular stream that is created and then described has the settings that it was
/// given, where its spans are of whole milliseconds that fit on the wire.
pub proof fn law_settings_make_the_round(
    settings: &PersistentSubscriptionSettings<u64>,
    sent: persistent::CreateSettings,
    selector: &RegularStream,
    info: persistent::SubscriptionInfo,
    r: Result<PersistentSubscriptionInfo<u64>, Error>,
)
    requires
        call_ensures(
            convert_settings_create::<u64>,
            (settings,),
            Ok::<persistent::CreateSettings, Error>(sent),
        ),
        call_ensures(subscription_info_from_wire::<RegularStream>, (selector, info), r),
        repeats(info, sent),
        has_whole_spans(*settings),
        settings.start_from is Start ==> info.start_from@ == "0"@,
        settings.start_from is End ==> info.start_from@ == "-1"@,
        settings.start_from matches StreamPosition::Position(revision) ==> revision > 0
            && info.start_from@ == decimal(revision as nat),
    ensures
        r matches Ok(read) && (read.settings matches Some(read) && {
            &&& read.start_from == settings.start_from
            &&& read.resolve_link_tos == settings.resolve_link_tos
            &&& read.extra_statistics == settings.extra_statistics
            &&& read.message_timeout == settings.message_timeout
            &&& read.max_retry_count == settings.max_retry_count
            &&& read.live_buffer_size == settings.live_buffer_size
            &&& read.read_batch_size == settings.read_batch_size
            &&& read.history_buffer_size == settings.history_buffer_size
            &&& read.checkpoint_after == settings.checkpoint_after
            &&& read.checkpoint_lower_bound == settings.checkpoint_lower_bound
            &&& read.checkpoint_upper_bound == settings.checkpoint_upper_bound
            &&& read.max_subscriber_count == settings.max_subscriber_count
            &&& read.consumer_strategy_name == settings.consumer_strategy_name
        }),
{
    lemma_starts(settings.start_from, info.start_from@);
    let read = r->Ok_0.settings->0;
    law_span_reads_back(settings.message_timeout, read.message_timeout);
    law_span_reads_back(settings.checkpoint_after, read.checkpoint_after);
    law_strategy_reads_back(settings.consumer_strategy_name, read.consumer_strategy_name);
}

proof fn lemma_starts(start: StreamPosition<u64>, text: Seq<char>)
    requires
        start is Start ==> text == "0"@,
        start is End ==> text == "-1"@,
        start matches StreamPosition::Position(revision) ==> revision > 0 && text == decimal(
            revision as nat,
        ),
    ensures
        crate::commands::position::text_start(text) matches Some(read) && {
            &&& start is Start ==> read is Start
            &&& start is End ==> read is End
            &&& start matches StreamPosition::Position(revision) ==> read
                == StreamPosition::Position(crate::types::RevisionOrPosition::Revision(revision))
        },
{
    reveal_strlit("-1");
    reveal_strlit("0");
    reveal_strlit("C:-1/P:-1");
    assert("-1"@.len() == 2);
    assert("0"@.len() == 1);
    assert("C:-1/P:-1"@.len() == 9);
    if let StreamPosition::Position(revision) = start {
        law_start_reads_back(revision, Position { commit: 1, prepare: 1 });
    }
}

/// A subscription to `$all` that is created and then described has the settings that it was given,
/// where its spans are of whole milliseconds that fit on the wire.
pub proof fn law_settings_of_all_make_the_round(
    settings: &PersistentSubscriptionSettings<Position>,
    sent: persistent::CreateSettings,
    info: persistent::SubscriptionInfo,
    r: Result<PersistentSubscriptionInfo<Position>, Error>,
)
    requires
        call_ensures(
            convert_settings_create::<Position>,
            (settings,),
            Ok::<persistent::CreateSettings, Error>(sent),
        ),
        call_ensures(subscription_info_from_wire::<AllStream>, (&AllStream, info), r),
        repeats(info, sent),
        has_whole_spans(*settings),
        settings.start_from is Start ==> info.start_from@ == "C:0/P:0"@,
        settings.start_from is End ==> info.start_from@ == "C:-1/P:-1"@,
        settings.start_from matches StreamPosition::Position(position) ==> (position.commit > 0
            || position.prepare > 0) && info.start_from@ == position_text(position),
    ensures
        sent.revision == 0,
        r matches Ok(read) && (read.settings matches Some(read) && {
            &&& read.start_from == settings.start_from
            &&& read.resolve_link_tos == settings.resolve_link_tos
            &&& read.extra_statistics == settings.extra_statistics
            &&& read.message_timeout == settings.message_timeout
            &&& read.max_retry_count == settings.max_retry_count
            &&& read.live_buffer_size == settings.live_buffer_size
            &&& read.read_batch_size == settings.read_batch_size
            &&& read.history_buffer_size == settings.history_buffer_size
            &&& read.checkpoint_after == settings.checkpoint_after
            &&& read.checkpoint_lower_bound == settings.checkpoint_lower_bound
            &&& read.checkpoint_upper_bound == settings.checkpoint_upper_bound
            &&& read.max_subscriber_count == settings.max_subscriber_count
            &&& read.consumer_strategy_name == settings.consumer_strategy_name
        }),
{
    reveal_strlit("-1");
    reveal_strlit("C:0/P:0");
    reveal_strlit("C:-1/P:-1");
    assert("-1"@.len() == 2);
    assert("C:0/P:0"@.len() == 7);
    assert("C:-1/P:-1"@.len() == 9);
    if let StreamPosition::Position(position) = settings.start_from {
        law_start_reads_back(1, position);
    }
    let read = r->Ok_0.settings->0;
    law_span_reads_back(settings.message_timeout, read.message_timeout);
    law_span_reads_back(settings.checkpoint_after, read.checkpoint_after);
    law_strategy_reads_back(settings.consumer_strategy_name, read.consumer_strategy_name);
}

/// What stands for a starting place, for servers that know revisions only: the revision itself in a
/// regular stream, with zero for its start and the largest for its end, and zero for any place of
/// `$all`.
pub proof fn law_old_servers_get_a_revision(
    start: StreamPosition<u64>,
    r: u64,
    place: StreamPosition<Position>,
    other: u64,
)
    requires
        call_ensures(ps_to_deprecated_revision_value::<u64>, (start,), r),
        call_ensures(ps_to_deprecated_revision_value::<Position>, (place,), other),
    ensures
        start is Start ==> r == 0,
        start is End ==> r == u64::MAX,
        start matches StreamPosition::Position(revision) ==> r == revision,
        other == 0,
{
}

/// A subscription to a regular stream names it, and starts where its settings say.
pub proof fn law_options_name_the_stream(
    options: &PersistentSubscriptionOptions,
    identifier: shared::StreamIdentifier,
    settings: &PersistentSubscriptionSettings<u64>,
    created: persistent::CreateStreamOption,
    updated: persistent::UpdateStreamOption,
)
    requires
        call_ensures(PersistentSubscriptionOptions::settings, (options,), settings),
        call_ensures(
            PersistentSubscriptionOptions::to_create_options,
            (options, identifier),
            created,
        ),
        call_ensures(
            PersistentSubscriptionOptions::to_update_options,
            (options, identifier),
            updated,
        ),
    ensures
        *settings == options.setts,
        created matches persistent::CreateStreamOption::Stream(sent) && {
            &&& sent.stream_identifier matches Some(same) && same.stream_name@
                == identifier.stream_name@
            &&& starts_at_revision(options.setts.start_from, sent.revision_option)
        },
        updated matches persistent::UpdateStreamOption::Stream(sent) && {
            &&& sent.stream_identifier matches Some(same) && same.stream_name@
                == identifier.stream_name@
            &&& starts_at_revision(options.setts.start_from, sent.revision_option)
        },
        !options.is_to_all(),
        options.subscription_settings() == options.setts,
{
}

/// A subscription to `$all` starts where its settings say, and is created with its filter.
pub proof fn law_options_carry_the_filter(
    options: &PersistentSubscriptionToAllOptions,
    identifier: shared::StreamIdentifier,
    settings: &PersistentSubscriptionSettings<Position>,
    created: persistent::CreateStreamOption,
    updated: persistent::UpdateStreamOption,
)
    requires
        call_ensures(PersistentSubscriptionToAllOptions::settings, (options,), settings),
        call_ensures(
            PersistentSubscriptionToAllOptions::to_create_options,
            (options, identifier),
            created,
        ),
        call_ensures(
            PersistentSubscriptionToAllOptions::to_update_options,
            (options, identifier),
            updated,
        ),
    ensures
        *settings == options.setts,
        created matches persistent::CreateStreamOption::All(sent) && {
            &&& starts_at_position(options.setts.start_from, sent.all_option)
            &&& options.filter is None ==> sent.filter_option == Some(shared::FilterOption::NoFilter)
            &&& options.filter matches Some(filter) ==> (sent.filter_option matches Some(
                shared::FilterOption::Filter(sent),
            ) && filters(sent, filter))
        },
        updated matches persistent::UpdateStreamOption::All(sent) && starts_at_position(
            options.setts.start_from,
            sent.all_option,
        ),
        options.is_to_all(),
        options.subscription_settings() == options.setts,
{
    if options.filter is Some {
        lemma_filter(created->All_0.filter_option->0->Filter_0, options.filter->0);
    }
}

} // verus!
