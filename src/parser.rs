//! Move text: algebraic coordinates ("A2") and move lines ("move A2,A4").
use vstd::prelude::*;
use vstd::string::*;

verus! {

/// Why a piece of move text could not be read.
#[derive(Clone, Copy, Debug, PartialEq, Eq, Structural)]
pub enum ParseError {
    /// The line has fewer than two whitespace-separated tokens.
    MissingToken,
    /// The second token holds no comma, so it names fewer than two squares.
    MissingCoordinate,
    /// A coordinate is shorter than two characters, its column character lies
    /// below 'A', or its row character is not a digit from '1' to '9'.
    MalformedCoordinate,
}

/// A parsed move: the command word and the two square indices.
#[derive(Debug)]
pub struct Operation {
    pub op: String,
    pub from: usize,
    pub to: usize,
}

/// Whitespace as Unicode's White_Space property defines it.
pub open spec fn is_space(c: char) -> bool {
    let u = c as u32;
    ||| 0x09 <= u <= 0x0d
    ||| u == 0x20
    ||| u == 0x85
    ||| u == 0xa0
    ||| u == 0x1680
    ||| 0x2000 <= u <= 0x200a
    ||| u == 0x2028
    ||| u == 0x2029
    ||| u == 0x202f
    ||| u == 0x205f
    ||| u == 0x3000
}

/// Index of a coordinate: the first character is the column, counted from
/// 'A' with no upper bound; the second is the row, '1' standing for row 0.
/// Characters after the second are not read.
pub open spec fn coordinate(s: Seq<char>) -> Result<int, ParseError> {
    if s.len() < 2 || (s[0] as u32) < ('A' as u32) || !('1' <= s[1] && s[1] <= '9') {
        Err(ParseError::MalformedCoordinate)
    } else {
        Ok((s[0] as u32 - 'A' as u32) + (s[1] as u32 - '1' as u32) * 8)
    }
}

/// First index at or after `i` that holds no whitespace (or the length).
pub open spec fn skip_spaces(s: Seq<char>, i: int) -> int
    decreases s.len() - i,
{
    if 0 <= i < s.len() && is_space(s[i]) {
        skip_spaces(s, i + 1)
    } else {
        i
    }
}

/// First index at or after `i` that holds whitespace (or the length).
pub open spec fn skip_token(s: Seq<char>, i: int) -> int
    decreases s.len() - i,
{
    if 0 <= i < s.len() && !is_space(s[i]) {
        skip_token(s, i + 1)
    } else {
        i
    }
}

/// First index at or after `i` that holds a comma (or the length).
pub open spec fn find_comma(s: Seq<char>, i: int) -> int
    decreases s.len() - i,
{
    if 0 <= i < s.len() && s[i] != ',' {
        find_comma(s, i + 1)
    } else {
        i
    }
}

/// Reading of a move line: the first whitespace-separated token is the
/// command; the second is split on commas, and its first two parts are the
/// origin and destination coordinates. Further tokens and parts are ignored.
pub open spec fn parse_move(s: Seq<char>) -> Result<(Seq<char>, int, int), ParseError> {
    let a0 = skip_spaces(s, 0);
    let a1 = skip_token(s, a0);
    let b0 = skip_spaces(s, a1);
    let b1 = skip_token(s, b0);
    if b0 >= s.len() {
        Err(ParseError::MissingToken)
    } else {
        let pair = s.subrange(b0, b1);
        let c = find_comma(pair, 0);
        if c >= pair.len() {
            Err(ParseError::MissingCoordinate)
        } else {
            let d = find_comma(pair, c + 1);
            match coordinate(pair.subrange(0, c)) {
                Err(e) => Err(e),
                Ok(from) => match coordinate(pair.subrange(c + 1, d)) {
                    Err(e) => Err(e),
                    Ok(to) => Ok((s.subrange(a0, a1), from, to)),
                },
            }
        }
    }
}

/// Index of an algebraic coordinate such as "A2" (column letter, then row
/// digit): `column + (row - 1) * 8`. The column letter is not bounded above,
/// so a letter past 'H' or the digit '9' gives an index off the board.
pub fn convert_to_idx(chess_move: &str) -> (r: Result<usize, ParseError>)
    ensures
        match r {
            Ok(idx) => coordinate(chess_move@) == Ok::<int, ParseError>(idx as int),
            Err(e) => coordinate(chess_move@) == Err::<int, ParseError>(e),
        },
{
    if chess_move.unicode_len() < 2 {
        return Err(ParseError::MalformedCoordinate);
    }
    let col = chess_move.get_char(0);
    let row = chess_move.get_char(1);
    if (col as u32) < ('A' as u32) || !('1' <= row && row <= '9') {
        return Err(ParseError::MalformedCoordinate);
    }
    let idx: u32 = (col as u32 - 'A' as u32) + (row as u32 - '1' as u32) * 8;
    Ok(idx as usize)
}

/// Whether a character is whitespace.
fn is_space_char(c: char) -> (r: bool)
    ensures
        r == is_space(c),
{
    let u = c as u32;
    (0x09 <= u && u <= 0x0d) || u == 0x20 || u == 0x85 || u == 0xa0 || u == 0x1680 || (0x2000
        <= u && u <= 0x200a) || u == 0x2028 || u == 0x2029 || u == 0x202f || u == 0x205f || u
        == 0x3000
}

/// The characters of a string, in order.
fn chars_of(s: &str) -> (r: Vec<char>)
    ensures
        r@ == s@,
{
    let n = s.unicode_len();
    let mut r: Vec<char> = Vec::new();
    for i in 0..n
        invariant
            n == s@.len(),
            r@ == s@.subrange(0, i as int),
    {
        r.push(s.get_char(i));
    }
    r
}

/// First index at or after `i` whose character is (`space`) or is not
/// (`!space`) whitespace, or the length.
fn scan(cs: &Vec<char>, i: usize, space: bool) -> (r: usize)
    requires
        i <= cs@.len(),
    ensures
        space ==> r == skip_spaces(cs@, i as int),
        !space ==> r == skip_token(cs@, i as int),
        i <= r <= cs@.len(),
{
    let mut j = i;
    while j < cs.len() && is_space_char(cs[j]) == space
        invariant
            i <= j <= cs@.len(),
            space ==> skip_spaces(cs@, j as int) == skip_spaces(cs@, i as int),
            !space ==> skip_token(cs@, j as int) == skip_token(cs@, i as int),
        decreases cs@.len() - j,
    {
        j = j + 1;
    }
    j
}

/// First index at or after `i` and below `end` that holds a comma, or `end`.
fn scan_comma(cs: &Vec<char>, i: usize, end: usize) -> (r: usize)
    requires
        i <= end <= cs@.len(),
    ensures
        r == find_comma(cs@.subrange(0, end as int), i as int),
        i <= r <= end,
{
    let ghost part = cs@.subrange(0, end as int);
    let mut j = i;
    while j < end && cs[j] != ','
        invariant
            i <= j <= end <= cs@.len(),
            part == cs@.subrange(0, end as int),
            find_comma(part, j as int) == find_comma(part, i as int),
        decreases end - j,
    {
        j = j + 1;
    }
    j
}

/// Reads a move line `<command> <FROM>,<TO>`, such as "move A2,A4". Tokens
/// are separated by whitespace; the second token is split on commas and its
/// first two parts are read as coordinates (see `convert_to_idx`).
pub fn parse(content: &str) -> (r: Result<Operation, ParseError>)
    ensures
        match r {
            Ok(op) => parse_move(content@) == Ok::<(Seq<char>, int, int), ParseError>(
                (op.op@, op.from as int, op.to as int),
            ),
            Err(e) => parse_move(content@) == Err::<(Seq<char>, int, int), ParseError>(e),
        },
{
    let cs = chars_of(content);
    let ghost s = content@;
    let a0 = scan(&cs, 0, true);
    let a1 = scan(&cs, a0, false);
    let b0 = scan(&cs, a1, true);
    let b1 = scan(&cs, b0, false);
    if b0 >= cs.len() {
        return Err(ParseError::MissingToken);
    }
    let c = scan_comma(&cs, b0, b1);
    let ghost pair = s.subrange(b0 as int, b1 as int);
    proof {
        lemma_find_comma_shift(s, b0 as int, b1 as int, b0 as int);
    }
    if c >= b1 {
        return Err(ParseError::MissingCoordinate);
    }
    let d = scan_comma(&cs, c + 1, b1);
    proof {
        lemma_find_comma_shift(s, b0 as int, b1 as int, c + 1);
        assert(pair.subrange(0, c - b0) == s.subrange(b0 as int, c as int));
        assert(pair.subrange(c + 1 - b0, d - b0) == s.subrange(c + 1, d as int));
    }
    let from = match convert_to_idx(content.substring_char(b0, c)) {
        Ok(idx) => idx,
        Err(e) => return Err(e),
    };
    let to = match convert_to_idx(content.substring_char(c + 1, d)) {
        Ok(idx) => idx,
        Err(e) => return Err(e),
    };
    let op = content.substring_char(a0, a1).to_owned();
    Ok(Operation { op, from, to })
}

/// Looking for a comma in a window of `s` is looking in `s` cut at the
/// window's end, shifted by the window's start.
proof fn lemma_find_comma_shift(s: Seq<char>, lo: int, hi: int, i: int)
    requires
        0 <= lo <= i <= hi <= s.len(),
    ensures
        find_comma(s.subrange(lo, hi), i - lo) + lo == find_comma(s.subrange(0, hi), i),
    decreases hi - i,
{
    if i < hi {
        lemma_find_comma_shift(s, lo, hi, i + 1);
    }
}

} // verus!
