use eventstore::commands::position::{
    parse_position, parse_position_start_from, parse_revision_or_position, parse_stream_position,
};
use eventstore::text::parse_u64;
use eventstore::types::{Error, Position, RevisionOrPosition, StreamPosition};

fn revision(n: u64) -> RevisionOrPosition {
    RevisionOrPosition::Revision(n)
}

fn position(commit: u64, prepare: u64) -> RevisionOrPosition {
    RevisionOrPosition::Position(Position { commit, prepare })
}

fn message(error: Error) -> String {
    match error {
        Error::InternalParsingError(message) => message,
        other => panic!("{:?}", other),
    }
}

#[test]
fn reads_a_position() {
    assert_eq!(parse_position("C:12/P:34").unwrap(), Position { commit: 12, prepare: 34 });
    assert_eq!(
        parse_position("C:18446744073709551615/P:0").unwrap(),
        Position { commit: u64::MAX, prepare: 0 }
    );
}

#[test]
fn ignores_what_follows_a_position() {
    assert_eq!(
        parse_position_start_from("C:12/P:34 and more").unwrap(),
        (Position { commit: 12, prepare: 34 }, 9)
    );
    assert_eq!(parse_position("C:1/P:2/P:3").unwrap(), Position { commit: 1, prepare: 2 });
}

#[test]
fn refuses_what_is_no_position() {
    for text in [
        "",
        "C:",
        "C:1",
        "C:1/P:",
        "C:/P:1",
        "c:1/p:2",
        " C:1/P:2",
        "C:+1/P:2",
        "C:-1/P:-1",
        "C:18446744073709551616/P:0",
        "C:0/P:18446744073709551616",
        "C:1/P:٣",
        "12",
    ] {
        assert_eq!(
            message(parse_position(text).unwrap_err()),
            format!("Failed to parse a transaction log position: '{}'", text)
        );
    }
}

#[test]
fn reads_a_place() {
    assert_eq!(parse_revision_or_position("0").unwrap(), revision(0));
    assert_eq!(parse_revision_or_position("42").unwrap(), revision(42));
    assert_eq!(parse_revision_or_position("+42").unwrap(), revision(42));
    assert_eq!(parse_revision_or_position("0042").unwrap(), revision(42));
    assert_eq!(parse_revision_or_position("18446744073709551615").unwrap(), revision(u64::MAX));
    assert_eq!(parse_revision_or_position("C:7/P:6").unwrap(), position(7, 6));
}

#[test]
fn refuses_what_is_no_place() {
    for text in ["", "+", "-1", "1 ", " 1", "1_0", "18446744073709551616", "x", "é", "C:7"] {
        assert_eq!(
            message(parse_revision_or_position(text).unwrap_err()),
            format!(
                "Failed to parse either a stream revision or a transaction log position: '{}'",
                text
            )
        );
    }
}

#[test]
fn reads_where_to_start() {
    assert_eq!(parse_stream_position("-1").unwrap(), StreamPosition::End);
    assert_eq!(parse_stream_position("C:-1/P:-1").unwrap(), StreamPosition::End);
    assert_eq!(parse_stream_position("0").unwrap(), StreamPosition::Start);
    assert_eq!(parse_stream_position("C:0/P:0").unwrap(), StreamPosition::Start);
    assert_eq!(parse_stream_position("00").unwrap(), StreamPosition::Position(revision(0)));
    assert_eq!(parse_stream_position("5").unwrap(), StreamPosition::Position(revision(5)));
    assert_eq!(
        parse_stream_position("C:5/P:4").unwrap(),
        StreamPosition::Position(position(5, 4))
    );
    assert_eq!(
        message(parse_stream_position("-2").unwrap_err()),
        "Failed to parse either a stream revision or a transaction log position: '-2'"
    );
}

#[test]
fn written_places_read_back() {
    for n in [1u64, 9, 10, 99, 100, 12345, u64::MAX - 1, u64::MAX] {
        assert_eq!(parse_revision_or_position(&n.to_string()).unwrap(), revision(n));
        assert_eq!(
            parse_stream_position(&n.to_string()).unwrap(),
            StreamPosition::Position(revision(n))
        );
        let text = format!("C:{}/P:{}", n, n - 1);
        assert_eq!(
            parse_stream_position(&text).unwrap(),
            StreamPosition::Position(position(n, n - 1))
        );
        assert_eq!(parse_position(&format!("{}.", text)).unwrap().commit, n);
    }
}

#[test]
fn numbers_are_read_as_by_the_standard_library() {
    for text in [
        "", "0", "+0", "-0", "+", "++1", "7", "007", "1a", "a1", " 1", "1 ", "१", "18446744073709551615",
        "18446744073709551616", "99999999999999999999999", "+18446744073709551615",
    ] {
        assert_eq!(parse_u64(text), text.parse::<u64>().ok(), "{}", text);
    }
}

fn nom_position(input: &str) -> nom::IResult<&str, (u64, u64)> {
    let (input, _) = nom::bytes::complete::tag("C:")(input)?;
    let (input, commit) = nom::character::complete::u64(input)?;
    let (input, _) = nom::bytes::complete::tag("/P:")(input)?;
    let (input, prepare) = nom::character::complete::u64(input)?;
    Ok((input, (commit, prepare)))
}

#[test]
fn positions_are_read_as_by_combinators() {
    for text in [
        "", "C", "C:", "C:1", "C:1/", "C:1/P:", "C:1/P:2", "C:1/P:2x", "C:01/P:002/", "C:1P:2",
        "C:x/P:2", "C:1/P:x", "C:99999999999999999999/P:1", "C:1/P:99999999999999999999",
        "C:18446744073709551615/P:18446744073709551615", "C:1/P:2é", "éC:1/P:2", "C:1é/P:2",
    ] {
        let expected = nom::combinator::complete(nom_position)(text)
            .ok()
            .map(|(rest, read)| (read, text.chars().count() - rest.chars().count()));
        let read = parse_position_start_from(text).map(|(p, n)| ((p.commit, p.prepare), n));
        assert_eq!(read, expected, "{}", text);
    }
}
