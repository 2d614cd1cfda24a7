//! What identifiers, spans, maps, numbers and strategies are for.
use crate::ids::{hyphenated, Uuid};
use crate::settings::{ClientSettings, Credentials};
use crate::string_map::StringMap;
use crate::text::{chars_of, decimal, decimal_value, parse_u64, read_u64, same_text};
use crate::time::Duration;
use crate::types::{Error, Position, RecordedEvent, ResolvedEvent, SystemConsumerStrategy};
use vstd::prelude::*;

verus! {

/// The identifier of no words is all zeroes, and that of two words is their bytes, the more
/// significant word first.
pub proof fn law_identifier_of_words(nil: Uuid, zero: Uuid, high: i64, low: i64, made: Uuid)
    requires
        call_ensures(Uuid::nil, (), nil),
        call_ensures(Uuid::from_words, (0i64, 0i64), zero),
        call_ensures(Uuid::from_words, (high, low), made),
    ensures
        nil@.len() == 16,
        forall|i: int| 0 <= i < 16 ==> nil@[i] == 0,
        nil@ == zero@,
        made@.len() == 16,
        made@[0] == ((high as u64) >> 56u64) as u8,
        made@[7] == ((high as u64) >> 0u64) as u8,
        made@[8] == ((low as u64) >> 56u64) as u8,
        made@[15] == ((low as u64) >> 0u64) as u8,
{
    assert((0u64 >> 56u64) as u8 == 0) by (bit_vector);
    assert((0u64 >> 48u64) as u8 == 0) by (bit_vector);
    assert((0u64 >> 40u64) as u8 == 0) by (bit_vector);
    assert((0u64 >> 32u64) as u8 == 0) by (bit_vector);
    assert((0u64 >> 24u64) as u8 == 0) by (bit_vector);
    assert((0u64 >> 16u64) as u8 == 0) by (bit_vector);
    assert((0u64 >> 8u64) as u8 == 0) by (bit_vector);
    assert((0u64 >> 0u64) as u8 == 0) by (bit_vector);
    assert(nil@ =~= zero@);
}

/// The text of an identifier has thirty-six characters, with hyphens behind the eighth, the twelfth,
/// the sixteenth and the twentieth digit.
pub proof fn law_identifier_text(bytes: Seq<u8>)
    requires
        bytes.len() == 16,
    ensures
        hyphenated(bytes).len() == 36,
        hyphenated(bytes)[8] == '-',
        hyphenated(bytes)[13] == '-',
        hyphenated(bytes)[18] == '-',
        hyphenated(bytes)[23] == '-',
{
}

/// Spans of whole milliseconds are of so many milliseconds, and spans of whole seconds of a thousand
/// times as many.
pub proof fn law_spans_are_measured(
    millis: u64,
    span: Duration,
    measured: u128,
    secs: u64,
    other: Duration,
    other_measured: u128,
)
    requires
        call_ensures(Duration::from_millis, (millis,), span),
        call_ensures(Duration::as_millis, (&span,), measured),
        call_ensures(Duration::from_secs, (secs,), other),
        call_ensures(Duration::as_millis, (&other,), other_measured),
    ensures
        measured == millis,
        span.nanos < 1_000_000_000,
        other_measured == secs * 1000,
        other.nanos == 0,
{
}

/// A span in milliseconds is rounded down.
pub proof fn law_millis_are_rounded_down(span: Duration, r: u128)
    requires
        call_ensures(Duration::as_millis, (&span,), r),
    ensures
        r * 1_000_000 <= span.secs * 1_000_000_000 + span.nanos < (r + 1) * 1_000_000,
{
}

/// A key has the value that it was given last, and every other key keeps its own.
pub proof fn law_map_keeps_values<V>(
    map: Ghost<&mut StringMap<V>>,
    key: String,
    value: V,
    sought: &str,
    before: Option<&V>,
    after: Option<&V>,
)
    requires
        call_ensures(StringMap::<V>::insert, (map@, key, value), ()),
        call_ensures(StringMap::<V>::get, (&*map@, sought), before),
        call_ensures(StringMap::<V>::get, (&*final(map@), sought), after),
    ensures
        sought@ == key@ ==> after == Some(&value),
        sought@ != key@ ==> after is Some == before is Some,
        sought@ != key@ && after is Some ==> *after->0 == *before->0,
{
}

/// A new map has no keys, and the entries of a map are its keys with their values.
pub proof fn law_map_has_its_entries<V>(
    empty: StringMap<V>,
    map: &StringMap<V>,
    entries: &Vec<(String, V)>,
    i: int,
    key: Seq<char>,
)
    requires
        call_ensures(StringMap::<V>::new, (), empty),
        call_ensures(StringMap::<V>::entries, (map,), entries),
        0 <= i < entries@.len(),
    ensures
        !empty@.contains_key(key),
        map@.contains_key(entries@[i].0@),
        map@[entries@[i].0@] == entries@[i].1,
        map@.contains_key(key) ==> exists|j: int|
            0 <= j < entries@.len() && #[trigger] entries@[j].0@ == key,
{
}

/// A digit more makes a number ten times as large, and as much larger as the digit says.
pub proof fn law_digits_are_decimal(digits: Seq<char>, digit: char)
    requires
        '0' <= digit && digit <= '9',
    ensures
        decimal_value(Seq::empty()) == 0,
        decimal_value(digits.push(digit)) == 10 * decimal_value(digits) + (digit as int
            - '0' as int),
{
    assert(digits.push(digit).drop_last() =~= digits);
}

/// The digits of a number have its value, and none in front that says nothing.
pub proof fn law_numbers_are_written(n: nat)
    ensures
        decimal_value(decimal(n)) == n,
        decimal(n).len() > 0,
        n > 0 ==> decimal(n)[0] != '0',
        forall|i: int| 0 <= i < decimal(n).len() ==> '0' <= #[trigger] decimal(n)[i] && decimal(
            n,
        )[i] <= '9',
    decreases n,
{
    if n >= 10 {
        law_numbers_are_written(n / 10);
        assert(decimal(n).drop_last() =~= decimal(n / 10));
    } else {
        assert(decimal(n).drop_last() =~= Seq::empty());
        assert(decimal_value(Seq::<char>::empty()) == 0);
    }
}

/// Whether all characters are digits, and there is one.
pub open spec fn all_digits(text: Seq<char>) -> bool {
    text.len() > 0 && forall|i: int|
        0 <= i < text.len() ==> '0' <= #[trigger] text[i] && text[i] <= '9'
}

/// A number is read off digits alone, behind one plus sign at most, and only where it is not too
/// large.
pub proof fn law_whole_numbers_are_read(input: &str, r: Option<u64>)
    requires
        call_ensures(parse_u64, (input,), r),
    ensures
        ({
            let digits = if input@.len() > 0 && input@[0] == '+' {
                input@.subrange(1, input@.len() as int)
            } else {
                input@
            };
            &&& r is Some <==> all_digits(digits) && decimal_value(digits) <= u64::MAX
            &&& r is Some ==> r->0 == decimal_value(digits)
        }),
{
    let digits = if input@.len() > 0 && input@[0] == '+' {
        input@.subrange(1, input@.len() as int)
    } else {
        input@
    };
    if input@.len() > 0 && input@[0] == '+' {
        assert(digits =~= input@.drop_first());
    }
    lemma_leading_run(digits);
    assert(digits.take(digits.len() as int) =~= digits);
}

proof fn lemma_leading_run(text: Seq<char>)
    ensures
        crate::text::leading_digits(text) <= text.len(),
        text.len() > 0 ==> (crate::text::leading_digits(text) == text.len() <==> all_digits(text)),
    decreases text.len(),
{
    if text.len() > 0 {
        let rest = text.drop_first();
        lemma_leading_run(rest);
        if all_digits(text) {
            assert forall|i: int| 0 <= i < rest.len() implies '0' <= #[trigger] rest[i] && rest[i]
                <= '9' by {
                assert(rest[i] == text[i + 1]);
            }
        }
        if crate::text::leading_digits(text) == text.len() {
            assert forall|i: int| 0 <= i < text.len() implies '0' <= #[trigger] text[i] && text[i]
                <= '9' by {
                if i > 0 {
                    assert(text[i] == rest[i - 1]);
                }
            }
        }
    }
}

/// A number is read off all the digits that stand at a place, and the place behind them is told.
pub proof fn law_numbers_are_read_in_place(
    text: &Vec<char>,
    from: usize,
    digits: Seq<char>,
    r: Option<(u64, usize)>,
)
    requires
        call_ensures(read_u64, (text, from), r),
        from + digits.len() <= text@.len(),
        text@.subrange(from as int, from + digits.len()) == digits,
        from + digits.len() == text@.len() || !('0' <= text@[from + digits.len()] && text@[from
            + digits.len()] <= '9'),
        forall|i: int| 0 <= i < digits.len() ==> '0' <= #[trigger] digits[i] && digits[i] <= '9',
    ensures
        digits.len() > 0 && decimal_value(digits) <= u64::MAX ==> r == Some(
            (decimal_value(digits) as u64, (from + digits.len()) as usize),
        ),
        digits.len() == 0 || decimal_value(digits) > u64::MAX ==> r is None,
{
    let rest = text@.skip(from as int);
    assert(rest.take(digits.len() as int) =~= digits);
    lemma_run_stops(rest, digits.len() as int);
}

/// The digits in front of a text end where the first other character stands.
pub proof fn lemma_run_stops(text: Seq<char>, n: int)
    requires
        0 <= n <= text.len(),
        forall|i: int| 0 <= i < n ==> '0' <= #[trigger] text[i] && text[i] <= '9',
        n == text.len() || !('0' <= text[n] && text[n] <= '9'),
    ensures
        crate::text::leading_digits(text) == n,
    decreases n,
{
    if n > 0 {
        let rest = text.drop_first();
        assert('0' <= text[0] && text[0] <= '9');
        assert forall|i: int| 0 <= i < n - 1 implies '0' <= #[trigger] rest[i] && rest[i]
            <= '9' by {
            assert(rest[i] == text[i + 1]);
        }
        if n < text.len() {
            assert(rest[n - 1] == text[n]);
        }
        lemma_run_stops(rest, n - 1);
    }
}

/// The characters of a text are all of it, in turn.
pub proof fn law_characters_of_a_text(text: &str, r: Vec<char>)
    requires
        call_ensures(chars_of, (text,), r),
    ensures
        r@ == text@,
{
}

/// Texts are the same just where their characters are.
pub proof fn law_same_texts(a: &str, b: &str, r: bool)
    requires
        call_ensures(same_text, (a, b), r),
    ensures
        r <==> a@ == b@,
{
}

/// The event of the stream that was read is the link where there is one, and the event otherwise.
pub proof fn law_links_come_first(event: &ResolvedEvent, r: &RecordedEvent)
    requires
        call_ensures(ResolvedEvent::get_original_event, (event,), r),
    ensures
        event.link matches Some(link) ==> *r == link,
        event.link is None && event.event is Some ==> *r == event.event->0,
{
}

/// A user may not do a thing just where the error says so, the log starts at zero, and a command that
/// names nobody runs as the user of the settings.
pub proof fn law_plain_answers(
    error: &Error,
    denied: bool,
    start: Position,
    settings: &ClientSettings,
    user: &Option<Credentials>,
)
    requires
        call_ensures(Error::is_access_denied, (error,), denied),
        call_ensures(Position::start, (), start),
        call_ensures(ClientSettings::default_authenticated_user, (settings,), user),
    ensures
        denied <==> *error == Error::AccessDenied,
        start.commit == 0 && start.prepare == 0,
        *user == settings.default_user_credentials,
{
}

/// A strategy is named as the server names it, and a name stands for the strategy that has it.
pub proof fn law_strategies_have_names(
    strategy: &SystemConsumerStrategy,
    name: String,
    read: SystemConsumerStrategy,
)
    requires
        call_ensures(SystemConsumerStrategy::to_string, (strategy,), name),
        call_ensures(SystemConsumerStrategy::from_string, (name,), read),
    ensures
        *strategy is DispatchToSingle <==> name@ == "DispatchToSingle"@ && !(*strategy is Custom),
        *strategy is RoundRobin <==> name@ == "RoundRobin"@ && !(*strategy is Custom),
        *strategy is Pinned <==> name@ == "Pinned"@ && !(*strategy is Custom),
        *strategy is PinnedByCorrelation <==> name@ == "PinnedByCorrelation"@ && !(
        *strategy is Custom),
        *strategy matches SystemConsumerStrategy::Custom(custom) ==> name@ == custom@,
        !(*strategy is Custom) ==> read == *strategy,
        read matches SystemConsumerStrategy::Custom(custom) ==> custom@ == name@,
{
    reveal_strlit("DispatchToSingle");
    reveal_strlit("RoundRobin");
    reveal_strlit("Pinned");
    reveal_strlit("PinnedByCorrelation");
    assert("DispatchToSingle"@.len() == 16);
    assert("RoundRobin"@.len() == 10);
    assert("Pinned"@.len() == 6);
    assert("PinnedByCorrelation"@.len() == 19);
}

} // verus!
