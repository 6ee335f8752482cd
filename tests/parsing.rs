use chess_moves::{parse, ParseError};

#[test]
fn parse_simple_move() {
    let op = parse("move A2,A4").unwrap();
    assert_eq!(op.op, "move");
    assert_eq!(op.from, 8);
    assert_eq!(op.to, 24);
}

#[test]
fn parse_ignores_surrounding_whitespace_and_extra_tokens() {
    let op = parse("  \tgo\n  B1,C3   and more").unwrap();
    assert_eq!(op.op, "go");
    assert_eq!(op.from, 1);
    assert_eq!(op.to, 18);
}

#[test]
fn parse_unicode_whitespace_separates_tokens() {
    let op = parse("go\u{3000}H8,H1").unwrap();
    assert_eq!(op.op, "go");
    assert_eq!(op.from, 63);
    assert_eq!(op.to, 7);
}

#[test]
fn parse_ignores_extra_comma_parts() {
    let op = parse("move A2,B3,C4").unwrap();
    assert_eq!(op.from, 8);
    assert_eq!(op.to, 17);
}

#[test]
fn parse_missing_tokens() {
    assert_eq!(parse("").unwrap_err(), ParseError::MissingToken);
    assert_eq!(parse("   ").unwrap_err(), ParseError::MissingToken);
    assert_eq!(parse("move").unwrap_err(), ParseError::MissingToken);
    assert_eq!(parse("  move  ").unwrap_err(), ParseError::MissingToken);
}

#[test]
fn parse_missing_second_coordinate() {
    assert_eq!(parse("move A2").unwrap_err(), ParseError::MissingCoordinate);
}

#[test]
fn parse_malformed_coordinates() {
    assert_eq!(parse("move A2,").unwrap_err(), ParseError::MalformedCoordinate);
    assert_eq!(parse("move ,A2").unwrap_err(), ParseError::MalformedCoordinate);
    assert_eq!(parse("move A2,Bx").unwrap_err(), ParseError::MalformedCoordinate);
    assert_eq!(parse("move A,B3").unwrap_err(), ParseError::MalformedCoordinate);
}
