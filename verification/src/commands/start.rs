//! Where to start, and what to look for, on the wire.
use crate::types::{Position, StreamPosition, SubscriptionFilter};
use crate::wire::shared;
use vstd::prelude::*;

verus! {

/// A log position, on the wire.
pub open spec fn wire_position(position: Position) -> shared::Position {
    shared::Position { commit_position: position.commit, prepare_position: position.prepare }
}

/// A log position that came over the wire.
pub open spec fn position_of(position: shared::Position) -> Position {
    Position { commit: position.commit_position, prepare: position.prepare_position }
}

/// A log position that came over the wire, if there is one.
pub open spec fn optional_position_of(position: Option<shared::PositionOption>) -> Option<
    Position,
> {
    match position {
        Some(shared::PositionOption::Position(position)) => Some(position_of(position)),
        _ => None,
    }
}

/// Where to start in a regular stream, on the wire.
pub open spec fn revision_option(start: StreamPosition<u64>) -> shared::RevisionOption {
    match start {
        StreamPosition::Start => shared::RevisionOption::Start,
        StreamPosition::End => shared::RevisionOption::End,
        StreamPosition::Position(revision) => shared::RevisionOption::Revision(revision),
    }
}

/// Where to start in `$all`, on the wire.
pub open spec fn all_option(start: StreamPosition<Position>) -> shared::AllOption {
    match start {
        StreamPosition::Start => shared::AllOption::Start,
        StreamPosition::End => shared::AllOption::End,
        StreamPosition::Position(position) => shared::AllOption::Position(wire_position(position)),
    }
}

/// Writes a log position.
pub(crate) fn to_wire_position(position: Position) -> (r: shared::Position)
    ensures
        r == wire_position(position),
{
    shared::Position { commit_position: position.commit, prepare_position: position.prepare }
}

/// Reads a log position.
pub(crate) fn from_wire_position(position: shared::Position) -> (r: Position)
    ensures
        r == position_of(position),
{
    Position { commit: position.commit_position, prepare: position.prepare_position }
}

/// Reads a log position, if there is one.
pub(crate) fn from_position_option(position: Option<shared::PositionOption>) -> (r: Option<
    Position,
>)
    ensures
        r == optional_position_of(position),
{
    match position {
        Some(shared::PositionOption::Position(position)) => Some(from_wire_position(position)),
        Some(shared::PositionOption::NoPosition) => None,
        None => None,
    }
}

/// Writes where to start in a regular stream.
pub(crate) fn to_revision_option(start: StreamPosition<u64>) -> (r: shared::RevisionOption)
    ensures
        r == revision_option(start),
{
    match start {
        StreamPosition::Start => shared::RevisionOption::Start,
        StreamPosition::End => shared::RevisionOption::End,
        StreamPosition::Position(revision) => shared::RevisionOption::Revision(revision),
    }
}

/// Writes where to start in `$all`.
pub(crate) fn to_all_option(start: StreamPosition<Position>) -> (r: shared::AllOption)
    ensures
        r == all_option(start),
{
    match start {
        StreamPosition::Start => shared::AllOption::Start,
        StreamPosition::End => shared::AllOption::End,
        StreamPosition::Position(position) => shared::AllOption::Position(
            to_wire_position(position),
        ),
    }
}

/// What strings hold.
pub open spec fn texts(strings: Seq<String>) -> Seq<Seq<char>> {
    strings.map_values(|s: String| s@)
}

/// Whether an expression looks for what the filter looks for.
pub open spec fn is_filter_expression(
    expression: shared::FilterExpression,
    filter: SubscriptionFilter,
) -> bool {
    &&& expression.regex@ == match filter.regex {
        Some(regex) => regex@,
        None => ""@,
    }
    &&& texts(expression.prefix@) == texts(filter.prefixes@)
}

/// Whether options are the filter, on the wire.
pub open spec fn is_filter(options: shared::FilterOptions, filter: SubscriptionFilter) -> bool {
    &&& if filter.based_on_stream {
        options.filter matches Some(shared::Filter::StreamIdentifier(expression))
            && is_filter_expression(expression, filter)
    } else {
        options.filter matches Some(shared::Filter::EventType(expression))
            && is_filter_expression(expression, filter)
    }
    &&& options.window == Some(
        match filter.max {
            Some(max) => shared::FilterWindow::Max(max),
            None => shared::FilterWindow::Count,
        },
    )
    &&& options.checkpoint_interval_multiplier == 1
}

/// Whether an option is the filter, if there is one.
pub open spec fn is_filter_option(
    option: shared::FilterOption,
    filter: Option<SubscriptionFilter>,
) -> bool {
    match filter {
        Some(filter) => option matches shared::FilterOption::Filter(options) && is_filter(
            options,
            filter,
        ),
        None => option is NoFilter,
    }
}

/// Copies strings.
pub(crate) fn clone_strings(strings: &Vec<String>) -> (r: Vec<String>)
    ensures
        texts(r@) == texts(strings@),
{
    let mut r: Vec<String> = Vec::new();
    let mut i: usize = 0;
    while i < strings.len()
        invariant
            i <= strings@.len(),
            r@ == strings@.take(i as int),
        decreases strings@.len() - i,
    {
        r.push(strings[i].clone());
        i = i + 1;
        assert(r@ =~= strings@.take(i as int));
    }
    assert(strings@.take(i as int) =~= strings@);
    r
}

/// Copies a string, if there is one.
fn clone_string_option(string: &Option<String>) -> (r: Option<String>)
    ensures
        r == *string,
{
    match string {
        Some(string) => Some(string.clone()),
        None => None,
    }
}

impl Clone for SubscriptionFilter {
    fn clone(&self) -> (r: Self)
        ensures
            r.based_on_stream == self.based_on_stream,
            r.max == self.max,
            r.regex == self.regex,
            texts(r.prefixes@) == texts(self.prefixes@),
    {
        SubscriptionFilter {
            based_on_stream: self.based_on_stream,
            max: self.max,
            regex: clone_string_option(&self.regex),
            prefixes: clone_strings(&self.prefixes),
        }
    }
}

/// Writes a filter.
pub fn filter_into_proto(filter: SubscriptionFilter) -> (r: shared::FilterOptions)
    ensures
        is_filter(r, filter),
{
    let window = match filter.max {
        Some(max) => shared::FilterWindow::Max(max),
        None => shared::FilterWindow::Count,
    };
    let regex: String = match filter.regex {
        Some(regex) => regex,
        None => "".to_owned(),
    };
    let expression = shared::FilterExpression { regex, prefix: filter.prefixes };
    let filter = if filter.based_on_stream {
        shared::Filter::StreamIdentifier(expression)
    } else {
        shared::Filter::EventType(expression)
    };
    shared::FilterOptions {
        filter: Some(filter),
        window: Some(window),
        checkpoint_interval_multiplier: 1,
    }
}

/// Writes the filter of a new persistent subscription.
pub fn ps_create_filter_into_proto(filter: &SubscriptionFilter) -> (r: shared::FilterOptions)
    ensures
        is_filter(r, *filter),
{
    let window = match filter.max {
        Some(max) => shared::FilterWindow::Max(max),
        None => shared::FilterWindow::Count,
    };
    let regex: String = match &filter.regex {
        Some(regex) => regex.clone(),
        None => "".to_owned(),
    };
    let expression = shared::FilterExpression { regex, prefix: clone_strings(&filter.prefixes) };
    let filter = if filter.based_on_stream {
        shared::Filter::StreamIdentifier(expression)
    } else {
        shared::Filter::EventType(expression)
    };
    shared::FilterOptions {
        filter: Some(filter),
        window: Some(window),
        checkpoint_interval_multiplier: 1,
    }
}

/// A log position comes back from the wire as it was sent.
pub proof fn law_wire_position_reads_back(position: Position)
    ensures
        position_of(wire_position(position)) == position,
{
}

} // verus!
