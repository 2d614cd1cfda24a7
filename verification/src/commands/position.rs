//! Places in a stream, as the server writes them.
use crate::text::{
    chars_of, decimal, is_digit, law_leading_u64_reads_decimal, law_whole_u64_reads_decimal,
    leading_u64, parse_u64, read_u64, same_text, whole_u64,
};
use crate::types::{Error, Position, RevisionOrPosition, StreamPosition};
use vstd::prelude::*;

verus! {

/// Whether `s` starts with `prefix`.
pub open spec fn starts_with(s: Seq<char>, prefix: Seq<char>) -> bool {
    prefix.len() <= s.len() && s.take(prefix.len() as int) == prefix
}

/// The log position that a text starts with, written `C:<commit>/P:<prepare>`, and how many
/// characters it takes. Anything may follow.
pub open spec fn leading_position(s: Seq<char>) -> Option<(Position, nat)> {
    if !starts_with(s, "C:"@) {
        None
    } else {
        match leading_u64(s.skip(2)) {
            None => None,
            Some((commit, n)) => if !starts_with(s.skip(2 + n as int), "/P:"@) {
                None
            } else {
                match leading_u64(s.skip(5 + n as int)) {
                    None => None,
                    Some((prepare, m)) => Some((Position { commit, prepare }, 5 + n + m)),
                }
            },
        }
    }
}

/// The place that a text stands for: a revision, or a log position.
pub open spec fn text_place(s: Seq<char>) -> Option<RevisionOrPosition> {
    match whole_u64(s) {
        Some(revision) => Some(RevisionOrPosition::Revision(revision)),
        None => match leading_position(s) {
            Some((position, _)) => Some(RevisionOrPosition::Position(position)),
            None => None,
        },
    }
}

/// The starting place that a text stands for.
pub open spec fn text_start(s: Seq<char>) -> Option<StreamPosition<RevisionOrPosition>> {
    if s == "-1"@ || s == "C:-1/P:-1"@ {
        Some(StreamPosition::End)
    } else if s == "0"@ || s == "C:0/P:0"@ {
        Some(StreamPosition::Start)
    } else {
        match text_place(s) {
            Some(place) => Some(StreamPosition::Position(place)),
            None => None,
        }
    }
}

/// Whether `prefix` stands in `s` at `from`.
fn has_at(s: &Vec<char>, from: usize, prefix: &str) -> (r: bool)
    requires
        from <= s@.len(),
    ensures
        r == starts_with(s@.skip(from as int), prefix@),
        r ==> from + prefix@.len() <= usize::MAX,
{
    let wanted = chars_of(prefix);
    let len: usize = s.len();
    if len - from < wanted.len() {
        return false;
    }
    let mut i: usize = 0;
    while i < wanted.len()
        invariant
            i <= wanted@.len(),
            len == s@.len(),
            from + wanted@.len() <= len,
            wanted@ == prefix@,
            forall|j: int| 0 <= j < i ==> s@[from + j] == wanted@[j],
        decreases wanted@.len() - i,
    {
        if s[from + i] != wanted[i] {
            proof {
                let front = s@.skip(from as int).take(prefix@.len() as int);
                assert(front[i as int] == s@[from + i]);
            }
            return false;
        }
        i = i + 1;
    }
    assert(s@.skip(from as int).take(prefix@.len() as int) =~= prefix@);
    true
}

/// Reads the log position that a text starts with, and how many characters it takes.
pub fn parse_position_start_from(input: &str) -> (r: Option<(Position, usize)>)
    ensures
        match leading_position(input@) {
            Some((position, n)) => r == Some((position, n as usize)) && n <= input@.len() && n
                <= usize::MAX,
            None => r is None,
        },
{
    proof {
        reveal_strlit("C:");
        reveal_strlit("/P:");
    }
    let s = chars_of(input);
    assert(s@.skip(0) =~= s@);
    if !has_at(&s, 0, "C:") {
        return None;
    }
    let (commit, slash) = match read_u64(&s, 2) {
        Some(read) => read,
        None => return None,
    };
    if !has_at(&s, slash, "/P:") {
        return None;
    }
    let (prepare, end) = match read_u64(&s, slash + 3) {
        Some(read) => read,
        None => return None,
    };
    Some((Position { commit, prepare }, end))
}

/// What is said of a text that is neither a revision nor a log position.
pub open spec fn place_error(input: Seq<char>) -> Seq<char> {
    "Failed to parse either a stream revision or a transaction log position: '"@ + input + "'"@
}

/// What is said of a text that is no log position.
pub open spec fn position_error(input: Seq<char>) -> Seq<char> {
    "Failed to parse a transaction log position: '"@ + input + "'"@
}

/// Reads a place in a stream.
pub fn parse_revision_or_position(input: &str) -> (r: Result<RevisionOrPosition, Error>)
    ensures
        match text_place(input@) {
            Some(place) => r == Ok::<RevisionOrPosition, Error>(place),
            None => r matches Err(Error::InternalParsingError(message)) && message@
                == place_error(input@),
        },
{
    if let Some(revision) = parse_u64(input) {
        Ok(RevisionOrPosition::Revision(revision))
    } else if let Ok(position) = parse_position(input) {
        Ok(RevisionOrPosition::Position(position))
    } else {
        Err(
            Error::InternalParsingError(
                "Failed to parse either a stream revision or a transaction log position: '"
                    .to_owned().concat(input).concat("'"),
            ),
        )
    }
}

/// Reads a place in the transaction log.
pub fn parse_position(input: &str) -> (r: Result<Position, Error>)
    ensures
        match leading_position(input@) {
            Some((position, _)) => r == Ok::<Position, Error>(position),
            None => r matches Err(Error::InternalParsingError(message)) && message@
                == position_error(input@),
        },
{
    if let Some((position, _)) = parse_position_start_from(input) {
        Ok(position)
    } else {
        Err(
            Error::InternalParsingError(
                "Failed to parse a transaction log position: '".to_owned().concat(input).concat("'"),
            ),
        )
    }
}

/// Reads where to start in a stream.
pub fn parse_stream_position(input: &str) -> (r: Result<
    StreamPosition<RevisionOrPosition>,
    Error,
>)
    ensures
        match text_start(input@) {
            Some(start) => r == Ok::<StreamPosition<RevisionOrPosition>, Error>(start),
            None => r matches Err(Error::InternalParsingError(message)) && message@
                == place_error(input@),
        },
{
    if same_text(input, "-1") || same_text(input, "C:-1/P:-1") {
        return Ok(StreamPosition::End);
    } else if same_text(input, "0") || same_text(input, "C:0/P:0") {
        return Ok(StreamPosition::Start);
    }
    match parse_revision_or_position(input) {
        Ok(place) => Ok(StreamPosition::Position(place)),
        Err(error) => Err(error),
    }
}

/// A log position, as the server writes it.
pub open spec fn position_text(position: Position) -> Seq<char> {
    "C:"@ + decimal(position.commit as nat) + "/P:"@ + decimal(position.prepare as nat)
}

/// A revision, as the server writes it, reads back as that revision.
pub proof fn law_revision_reads_back(revision: u64)
    ensures
        text_place(decimal(revision as nat)) == Some(RevisionOrPosition::Revision(revision)),
{
    law_whole_u64_reads_decimal(revision);
}

/// A log position, as the server writes it, reads back as that position, even where a text
/// follows that does not go on with a digit.
pub proof fn law_position_reads_back(position: Position, rest: Seq<char>)
    requires
        rest.len() == 0 || !is_digit(rest[0]),
    ensures
        leading_position(position_text(position) + rest) == Some(
            (position, position_text(position).len()),
        ),
        text_place(position_text(position) + rest) == Some(
            RevisionOrPosition::Position(position),
        ),
{
    reveal_strlit("C:");
    reveal_strlit("/P:");
    let commit = decimal(position.commit as nat);
    let prepare = decimal(position.prepare as nat);
    let s = position_text(position) + rest;
    let n = commit.len() as int;
    assert(s.take(2) =~= "C:"@);
    let behind_commit = "/P:"@ + prepare + rest;
    assert(s.skip(2) =~= commit + behind_commit);
    law_leading_u64_reads_decimal(position.commit, behind_commit);
    assert(s.skip(2 + n).take(3) =~= "/P:"@);
    assert(s.skip(5 + n) =~= prepare + rest);
    law_leading_u64_reads_decimal(position.prepare, rest);
    assert(position_text(position).len() == 5 + n + prepare.len());
    assert(s[0] == 'C');
    assert(whole_u64(s) is None);
}

/// A starting place that is neither end of the stream reads back as written: a revision
/// above zero, or a log position other than the very first.
pub proof fn law_start_reads_back(revision: u64, position: Position)
    requires
        revision > 0,
        position.commit > 0 || position.prepare > 0,
    ensures
        text_start(decimal(revision as nat)) == Some(
            StreamPosition::Position(RevisionOrPosition::Revision(revision)),
        ),
        text_start(position_text(position)) == Some(
            StreamPosition::Position(RevisionOrPosition::Position(position)),
        ),
{
    reveal_strlit("-1");
    reveal_strlit("0");
    reveal_strlit("C:");
    reveal_strlit("/P:");
    reveal_strlit("C:-1/P:-1");
    reveal_strlit("C:0/P:0");
    law_revision_reads_back(revision);
    law_whole_u64_reads_decimal(0);
    let zero = Position { commit: 0, prepare: 0 };
    law_position_reads_back(zero, Seq::empty());
    law_position_reads_back(position, Seq::empty());
    assert(position_text(zero) + Seq::empty() =~= position_text(zero));
    assert(position_text(position) + Seq::empty() =~= position_text(position));
    assert(decimal(0) =~= "0"@);
    assert(position_text(zero) =~= "C:0/P:0"@);
    assert(whole_u64("-1"@) is None) by {
        assert(!is_digit("-1"@[0]));
    }
    assert("C:-1/P:-1"@[0] == 'C');
    assert(whole_u64("C:-1/P:-1"@) is None);
    assert(whole_u64("C:0/P:0"@) is None);
    assert(text_place("C:-1/P:-1"@) is None) by {
        assert("C:-1/P:-1"@.skip(2)[0] == '-');
    }
    assert(position_text(position)[0] == 'C');
}

/// No other text stands for an end of a stream, and the texts that do are no places in it, but
/// for those that stand for its start.
pub proof fn law_ends_have_their_own_texts(s: Seq<char>)
    ensures
        text_start(s) == Some(StreamPosition::<RevisionOrPosition>::End) <==> s == "-1"@ || s
            == "C:-1/P:-1"@,
        text_start(s) == Some(StreamPosition::<RevisionOrPosition>::End) ==> text_place(s) is None,
        text_start(s) == Some(StreamPosition::<RevisionOrPosition>::Start) <==> s == "0"@ || s
            == "C:0/P:0"@,
        text_start(s) is None ==> text_place(s) is None,
{
    reveal_strlit("-1");
    reveal_strlit("0");
    reveal_strlit("C:");
    reveal_strlit("C:-1/P:-1");
    reveal_strlit("C:0/P:0");
    assert("-1"@.len() != "0"@.len());
    assert("-1"@.len() != "C:0/P:0"@.len());
    assert("C:-1/P:-1"@.len() != "0"@.len());
    assert("C:-1/P:-1"@.len() != "C:0/P:0"@.len());
    assert("-1"@[0] == '-');
    assert("C:"@[0] == 'C');
    assert("-1"@.take(2)[0] == '-');
    assert("C:-1/P:-1"@[0] == 'C');
    assert("C:-1/P:-1"@.skip(2)[0] == '-');
}

} // verus!
