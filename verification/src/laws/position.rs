//! What reading places off texts is for.
use crate::commands::position::{
    parse_position, parse_position_start_from, parse_revision_or_position, parse_stream_position,
};
use crate::laws::basics::{all_digits, lemma_run_stops};
use crate::text::{decimal_value, leading_digits, parse_u64};
use crate::types::{Error, Position, RevisionOrPosition, StreamPosition};
use vstd::prelude::*;

verus! {

/// Whether a text is a log position: two runs of digits in their places, and what follows them.
pub open spec fn is_position_and(
    input: Seq<char>,
    commit: Seq<char>,
    prepare: Seq<char>,
    rest: Seq<char>,
) -> bool {
    &&& input == "C:"@ + commit + "/P:"@ + prepare + rest
    &&& all_digits(commit)
    &&& all_digits(prepare)
    &&& rest.len() == 0 || !('0' <= rest[0] && rest[0] <= '9')
}

/// A log position is read off two runs of digits in their places, whatever follows them, unless one
/// of the numbers is too large.
pub proof fn law_positions_are_read(
    input: &str,
    commit: Seq<char>,
    prepare: Seq<char>,
    rest: Seq<char>,
    r: Option<(Position, usize)>,
    position: Result<Position, Error>,
)
    requires
        call_ensures(parse_position_start_from, (input,), r),
        call_ensures(parse_position, (input,), position),
        is_position_and(input@, commit, prepare, rest),
    ensures
        decimal_value(commit) <= u64::MAX && decimal_value(prepare) <= u64::MAX ==> {
            &&& r matches Some((read, n)) && read.commit == decimal_value(commit) && read.prepare
                == decimal_value(prepare) && n == input@.len() - rest.len()
            &&& position matches Ok(read) && read.commit == decimal_value(commit) && read.prepare
                == decimal_value(prepare)
        },
        decimal_value(commit) > u64::MAX || decimal_value(prepare) > u64::MAX ==> r is None
            && position is Err,
{
    reveal_strlit("C:");
    reveal_strlit("/P:");
    let s = input@;
    let n = commit.len() as int;
    let m = prepare.len() as int;
    assert(s.take(2) =~= "C:"@);
    let behind = "/P:"@ + prepare + rest;
    assert(s.skip(2) =~= commit + behind);
    assert forall|i: int| 0 <= i < n implies '0' <= #[trigger] s.skip(2)[i] && s.skip(2)[i]
        <= '9' by {
        assert(s.skip(2)[i] == commit[i]);
    }
    assert(s.skip(2)[n] == '/');
    lemma_run_stops(s.skip(2), n);
    assert(s.skip(2).take(n) =~= commit);
    assert(s.skip(2 + n).take(3) =~= "/P:"@);
    assert(s.skip(5 + n) =~= prepare + rest);
    assert forall|i: int| 0 <= i < m implies '0' <= #[trigger] s.skip(5 + n)[i] && s.skip(5 + n)[i]
        <= '9' by {
        assert(s.skip(5 + n)[i] == prepare[i]);
    }
    if rest.len() > 0 {
        assert(s.skip(5 + n)[m] == rest[0]);
    }
    lemma_run_stops(s.skip(5 + n), m);
    assert(s.skip(5 + n).take(m) =~= prepare);
}

proof fn lemma_run(text: Seq<char>)
    ensures
        leading_digits(text) <= text.len(),
        forall|i: int|
            0 <= i < leading_digits(text) ==> '0' <= #[trigger] text[i] && text[i] <= '9',
        leading_digits(text) < text.len() ==> !('0' <= text[leading_digits(text) as int]
            && text[leading_digits(text) as int] <= '9'),
    decreases text.len(),
{
    if text.len() > 0 && '0' <= text[0] && text[0] <= '9' {
        let rest = text.drop_first();
        lemma_run(rest);
        assert forall|i: int| 0 <= i < leading_digits(text) implies '0' <= #[trigger] text[i]
            && text[i] <= '9' by {
            if i > 0 {
                assert(rest[i - 1] == text[i]);
            }
        }
        if leading_digits(text) < text.len() {
            assert(text[leading_digits(text) as int] == rest[leading_digits(rest) as int]);
        }
    }
}

/// A log position is read off nothing else: a text off which one is read holds its two numbers in
/// their places. What is said of any other text names it.
pub proof fn law_positions_are_read_off_nothing_else(
    input: &str,
    r: Option<(Position, usize)>,
    position: Result<Position, Error>,
)
    requires
        call_ensures(parse_position_start_from, (input,), r),
        call_ensures(parse_position, (input,), position),
    ensures
        r is Some == position is Ok,
        position matches Ok(read) ==> exists|commit: Seq<char>, prepare: Seq<char>, rest: Seq<char>|
            #[trigger] is_position_and(input@, commit, prepare, rest) && decimal_value(commit)
                == read.commit && decimal_value(prepare) == read.prepare,
        position matches Err(error) ==> (error matches Error::InternalParsingError(message)
            && message@ == "Failed to parse a transaction log position: '"@ + input@ + "'"@),
{
    reveal_strlit("C:");
    reveal_strlit("/P:");
    if position is Ok {
        let s = input@;
        let n = leading_digits(s.skip(2)) as int;
        let m = leading_digits(s.skip(5 + n)) as int;
        lemma_run(s.skip(2));
        lemma_run(s.skip(5 + n));
        let commit = s.skip(2).take(n);
        let prepare = s.skip(5 + n).take(m);
        let rest = s.skip(5 + n).skip(m);
        assert forall|i: int| 0 <= i < n implies '0' <= #[trigger] commit[i] && commit[i]
            <= '9' by {
            assert(commit[i] == s.skip(2)[i]);
        }
        assert forall|i: int| 0 <= i < m implies '0' <= #[trigger] prepare[i] && prepare[i]
            <= '9' by {
            assert(prepare[i] == s.skip(5 + n)[i]);
        }
        if rest.len() > 0 {
            assert(rest[0] == s.skip(5 + n)[m]);
        }
        let slash = s.skip(2 + n).take(3);
        let front = s.take(2);
        assert(slash == "/P:"@);
        assert(front == "C:"@);
        assert(s =~= front + commit + slash + prepare + rest) by {
            assert(s.skip(2 + n).take(3)[0] == s[2 + n]);
            assert(s.skip(2 + n).take(3)[1] == s[3 + n]);
            assert(s.skip(2 + n).take(3)[2] == s[4 + n]);
        }
        assert(is_position_and(s, commit, prepare, rest));
    }
}

/// A place is a revision where the text is a number, and otherwise the log position that it starts
/// with. What is said of any other text names it.
pub proof fn law_places_are_read(
    input: &str,
    number: Option<u64>,
    position: Result<Position, Error>,
    place: Result<RevisionOrPosition, Error>,
)
    requires
        call_ensures(parse_u64, (input,), number),
        call_ensures(parse_position, (input,), position),
        call_ensures(parse_revision_or_position, (input,), place),
    ensures
        number matches Some(revision) ==> place == Ok::<RevisionOrPosition, Error>(
            RevisionOrPosition::Revision(revision),
        ),
        number is None && position is Ok ==> place == Ok::<RevisionOrPosition, Error>(
            RevisionOrPosition::Position(position->Ok_0),
        ),
        number is None && position is Err ==> (place matches Err(
            Error::InternalParsingError(message),
        ) && message@
            == "Failed to parse either a stream revision or a transaction log position: '"@ + input@
            + "'"@),
{
}

/// A starting place is an end of the stream just for the texts of that end, and otherwise the place
/// that is read off the text.
pub proof fn law_starts_are_read(
    input: &str,
    place: Result<RevisionOrPosition, Error>,
    start: Result<StreamPosition<RevisionOrPosition>, Error>,
)
    requires
        call_ensures(parse_revision_or_position, (input,), place),
        call_ensures(parse_stream_position, (input,), start),
    ensures
        input@ == "-1"@ || input@ == "C:-1/P:-1"@ <==> (start matches Ok(StreamPosition::End)),
        input@ == "0"@ || input@ == "C:0/P:0"@ <==> (start matches Ok(StreamPosition::Start)),
        start matches Ok(StreamPosition::Position(read)) ==> place
            == Ok::<RevisionOrPosition, Error>(read),
        start is Err ==> place is Err,
        place is Ok ==> start is Ok,
        start matches Err(error) ==> (error matches Error::InternalParsingError(message) && message@
            == "Failed to parse either a stream revision or a transaction log position: '"@ + input@
            + "'"@),
{
    reveal_strlit("-1");
    reveal_strlit("0");
    reveal_strlit("C:-1/P:-1");
    reveal_strlit("C:0/P:0");
    assert("-1"@.len() == 2);
    assert("0"@.len() == 1);
    assert("C:-1/P:-1"@.len() == 9);
    assert("C:0/P:0"@.len() == 7);
}

} // verus!
