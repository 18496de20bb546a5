//! Decoding of position texts.
//!
//! A position text has fields separated by single spaces: the piece placement,
//! the side to move, the castling rights, the en-passant target, and the two
//! move counters. `well_formed` says what shape the fields have. `decode` holds
//! a text to that shape and lets the chess crate make the board of a text that
//! has it; the chess crate may still refuse a position that cannot arise in play.

use std::str::FromStr;
use vstd::prelude::*;
use vstd::string::is_ascii_spec_bytes;
use vstd::utf8::is_ascii_chars;

verus! {

/// The chess crate's board. Nothing is known of what it holds; it is carried from
/// `decode` to the engine as it is.
#[verifier::external_type_specification]
#[verifier::external_body]
pub struct ExBoard(chess::Board);

/// The chess crate's error. Nothing is known of what it holds.
#[verifier::external_type_specification]
#[verifier::external_body]
pub struct ExError(chess::Error);

/// Why a position text was not decoded.
#[derive(Clone, Copy, Debug, PartialEq, Eq, Structural)]
pub enum DecodeError {
    /// The text is not a position.
    InvalidPosition,
}

/// The number of characters from index `from` up to the next space or the end of
/// the text: the length of the field that starts at `from`.
pub open spec fn field_len(text: Seq<char>, from: int) -> nat
    decreases text.len() - from,
{
    if 0 <= from < text.len() && text[from] != ' ' {
        1 + field_len(text, from + 1)
    } else {
        0
    }
}

/// Whether `c` stands for a piece in a piece placement.
pub open spec fn is_piece_letter(c: char) -> bool {
    c == 'p' || c == 'n' || c == 'b' || c == 'r' || c == 'q' || c == 'k' || c == 'P' || c == 'N'
        || c == 'B' || c == 'R' || c == 'Q' || c == 'K'
}

/// The number of squares that a character of a piece placement fills: a digit
/// from 1 to 8 that many, a piece letter one, anything else none.
pub open spec fn squares_taken(c: char) -> int {
    if '1' <= c && c <= '8' {
        c as int - 48
    } else if is_piece_letter(c) {
        1
    } else {
        0
    }
}

/// Whether the characters from `at` up to `end` complete a piece placement of which
/// `rank` ranks are finished and `file` squares of the current rank are filled.
/// A placement is complete with eight ranks of exactly eight squares each, the
/// ranks separated by `/`.
pub open spec fn completes_grid(text: Seq<char>, at: int, end: int, rank: int, file: int) -> bool
    decreases end - at,
{
    if at < 0 || at >= end || at >= text.len() {
        rank == 7 && file == 8
    } else if text[at] == '/' {
        file == 8 && rank < 7 && completes_grid(text, at + 1, end, rank + 1, 0)
    } else {
        squares_taken(text[at]) > 0 && file + squares_taken(text[at]) <= 8 && completes_grid(
            text,
            at + 1,
            end,
            rank,
            file + squares_taken(text[at]),
        )
    }
}

/// The number of `/` among the characters from `at` up to `end`.
pub open spec fn separators(text: Seq<char>, at: int, end: int) -> int
    decreases end - at,
{
    if at < 0 || at >= end || at >= text.len() {
        0
    } else if text[at] == '/' {
        1 + separators(text, at + 1, end)
    } else {
        separators(text, at + 1, end)
    }
}

/// The number of squares that the characters from `at` up to `end` fill.
pub open spec fn squares_filled(text: Seq<char>, at: int, end: int) -> int
    decreases end - at,
{
    if at < 0 || at >= end || at >= text.len() {
        0
    } else {
        squares_taken(text[at]) + squares_filled(text, at + 1, end)
    }
}

proof fn rest_of_grid_fills_the_rest(text: Seq<char>, at: int, end: int, rank: int, file: int)
    requires
        completes_grid(text, at, end, rank, file),
        0 <= rank <= 7,
        0 <= file <= 8,
    ensures
        separators(text, at, end) == 7 - rank,
        squares_filled(text, at, end) == 8 * (7 - rank) + (8 - file),
    decreases end - at,
{
    if at < 0 || at >= end || at >= text.len() {
    } else if text[at] == '/' {
        rest_of_grid_fills_the_rest(text, at + 1, end, rank + 1, 0);
    } else {
        rest_of_grid_fills_the_rest(text, at + 1, end, rank, file + squares_taken(text[at]));
    }
}

/// A complete piece placement has seven separators and fills the 64 squares of
/// the board.
pub proof fn complete_grid_fills_the_board(text: Seq<char>, end: int)
    requires
        completes_grid(text, 0, end, 0, 0),
    ensures
        separators(text, 0, end) == 7,
        squares_filled(text, 0, end) == 64,
{
    rest_of_grid_fills_the_rest(text, 0, end, 0, 0);
}

/// Whether `c` occurs in the text before index `end`.
pub open spec fn occurs_before(text: Seq<char>, c: char, end: int) -> bool {
    exists|at: int| 0 <= at < end && at < text.len() && #[trigger] text[at] == c
}

/// The letter of the king of the side that a side-to-move field names, if the
/// field names a side.
pub open spec fn mover_king(side: char) -> Option<char> {
    if side == 'w' || side == 'W' {
        Some('K')
    } else if side == 'b' || side == 'B' {
        Some('k')
    } else {
        None
    }
}

/// Whether the characters from `from` up to `end` are a castling field: a single
/// `-`, or one to four letters, each of them `K`, `Q`, `k` or `q`.
pub open spec fn is_rights_field(text: Seq<char>, from: int, end: int) -> bool {
    ||| end == from + 1 && text[from] == '-'
    ||| {
        &&& 1 <= end - from <= 4
        &&& forall|at: int|
            from <= at < end ==> {
                let c = #[trigger] text[at];
                c == 'K' || c == 'Q' || c == 'k' || c == 'q'
            }
    }
}

/// Whether the characters from `from` up to `end` are an en-passant field: a
/// single `-`, or the name of a square.
pub open spec fn is_target_field(text: Seq<char>, from: int, end: int) -> bool {
    ||| end == from + 1 && text[from] == '-'
    ||| end == from + 2 && 'a' <= text[from] <= 'h' && '1' <= text[from + 1] <= '8'
}

/// Whether the characters from `from` up to `end` are a counter: one decimal digit
/// or more.
pub open spec fn is_counter_field(text: Seq<char>, from: int, end: int) -> bool {
    &&& from < end
    &&& forall|at: int| from <= at < end ==> '0' <= #[trigger] text[at] <= '9'
}

/// Whether the text ends well after its en-passant field, which ends at `at`:
/// either the text ends there, or one counter follows, or two, each after a single
/// space, and then the text ends.
pub open spec fn counters_follow(text: Seq<char>, at: int) -> bool {
    let half_end = at + 1 + field_len(text, at + 1);
    let full_end = half_end + 1 + field_len(text, half_end + 1);
    ||| at == text.len()
    ||| half_end == text.len() && is_counter_field(text, at + 1, half_end)
    ||| {
        &&& half_end < text.len()
        &&& full_end == text.len()
        &&& is_counter_field(text, at + 1, half_end)
        &&& is_counter_field(text, half_end + 1, full_end)
    }
}

/// The shape of a position text. It is ASCII and its fields are separated by
/// single spaces. The first field is a complete piece placement, the second one
/// letter that names the side to move, the third a castling field and the fourth
/// an en-passant field; up to two counters may follow. The placement holds a king
/// of the side to move.
pub open spec fn well_formed(text: Seq<char>) -> bool {
    let grid_end = field_len(text, 0) as int;
    let side_end = grid_end + 1 + field_len(text, grid_end + 1);
    let rights_end = side_end + 1 + field_len(text, side_end + 1);
    let target_end = rights_end + 1 + field_len(text, rights_end + 1);
    &&& is_ascii_chars(text)
    &&& rights_end < text.len()
    &&& side_end == grid_end + 2
    &&& completes_grid(text, 0, grid_end, 0, 0)
    &&& mover_king(text[grid_end + 1]) matches Some(king) && occurs_before(text, king, grid_end)
    &&& is_rights_field(text, side_end + 1, rights_end)
    &&& is_target_field(text, rights_end + 1, target_end)
    &&& counters_follow(text, target_end)
}

/// Whether `bytes` holds the characters of `text`, one byte for each.
spec fn spells(bytes: Seq<u8>, text: Seq<char>) -> bool {
    &&& bytes.len() == text.len()
    &&& forall|i: int|
        0 <= i < text.len() ==> #[trigger] text[i] <= '\u{7f}' && bytes[i] == text[i] as u8
            && bytes[i] as char == text[i]
}

/// The index at which the field that starts at `from` ends.
fn field_end(bytes: &[u8], from: usize, Ghost(text): Ghost<Seq<char>>) -> (end: usize)
    requires
        spells(bytes@, text),
        from <= bytes.len(),
    ensures
        end == from + field_len(text, from as int),
        end <= bytes.len(),
{
    let mut i: usize = from;
    while i < bytes.len() && bytes[i] != ' ' as u8
        invariant
            spells(bytes@, text),
            from <= i <= bytes.len(),
            field_len(text, from as int) == (i - from) + field_len(text, i as int),
        decreases bytes.len() - i,
    {
        assert(text[i as int] != ' ');
        i += 1;
    }
    assert(i < bytes.len() ==> text[i as int] == ' ');
    i
}

/// The number of squares that a byte of a piece placement fills.
fn square_width(b: u8) -> (width: u8)
    requires
        b < 128,
    ensures
        width == squares_taken(b as char),
{
    if '1' as u8 <= b && b <= '8' as u8 {
        b - '0' as u8
    } else if b == 'p' as u8 || b == 'n' as u8 || b == 'b' as u8 || b == 'r' as u8 || b == 'q' as u8
        || b == 'k' as u8 || b == 'P' as u8 || b == 'N' as u8 || b == 'B' as u8 || b == 'R' as u8
        || b == 'Q' as u8 || b == 'K' as u8 {
        1
    } else {
        0
    }
}

/// Whether the bytes before `end` are a complete piece placement.
fn grid_is_complete(bytes: &[u8], end: usize, Ghost(text): Ghost<Seq<char>>) -> (ok: bool)
    requires
        spells(bytes@, text),
        end <= bytes.len(),
    ensures
        ok == completes_grid(text, 0, end as int, 0, 0),
{
    let mut i: usize = 0;
    let mut rank: u8 = 0;
    let mut file: u8 = 0;
    while i < end
        invariant
            spells(bytes@, text),
            i <= end <= bytes.len(),
            rank <= 7,
            file <= 8,
            completes_grid(text, 0, end as int, 0, 0) == completes_grid(
                text,
                i as int,
                end as int,
                rank as int,
                file as int,
            ),
        decreases end - i,
    {
        let b = bytes[i];
        assert(b as char == text[i as int]);
        if b == '/' as u8 {
            if file != 8 || rank >= 7 {
                return false;
            }
            rank += 1;
            file = 0;
        } else {
            let width = square_width(b);
            if width == 0 || file + width > 8 {
                return false;
            }
            file += width;
        }
        i += 1;
    }
    rank == 7 && file == 8
}

/// Whether `wanted` stands among the bytes before `end`.
fn found_before(bytes: &[u8], wanted: u8, end: usize, Ghost(text): Ghost<Seq<char>>) -> (found:
    bool)
    requires
        spells(bytes@, text),
        end <= bytes.len(),
        wanted < 128,
    ensures
        found == occurs_before(text, wanted as char, end as int),
{
    let mut i: usize = 0;
    while i < end
        invariant
            spells(bytes@, text),
            i <= end <= bytes.len(),
            wanted < 128,
            !occurs_before(text, wanted as char, i as int),
        decreases end - i,
    {
        if bytes[i] == wanted {
            assert(text[i as int] == wanted as char);
            return true;
        }
        assert(text[i as int] != wanted as char);
        i += 1;
    }
    false
}

/// Whether the bytes from `from` up to `end` are a castling field.
fn rights_field_ok(bytes: &[u8], from: usize, end: usize, Ghost(text): Ghost<Seq<char>>) -> (ok:
    bool)
    requires
        spells(bytes@, text),
        from <= end <= bytes.len(),
    ensures
        ok == is_rights_field(text, from as int, end as int),
{
    if end - from == 1 && bytes[from] == '-' as u8 {
        assert(text[from as int] == '-');
        return true;
    }
    assert(from < end ==> bytes[from as int] as char == text[from as int]);
    if end - from < 1 || end - from > 4 {
        return false;
    }
    let mut i: usize = from;
    while i < end
        invariant
            spells(bytes@, text),
            from <= i <= end <= bytes.len(),
            !(end == from + 1 && text[from as int] == '-'),
            forall|at: int|
                from <= at < i ==> {
                    let c = #[trigger] text[at];
                    c == 'K' || c == 'Q' || c == 'k' || c == 'q'
                },
        decreases end - i,
    {
        let b = bytes[i];
        assert(b as char == text[i as int]);
        if !(b == 'K' as u8 || b == 'Q' as u8 || b == 'k' as u8 || b == 'q' as u8) {
            return false;
        }
        i += 1;
    }
    true
}

/// Whether the bytes from `from` up to `end` are an en-passant field.
fn target_field_ok(bytes: &[u8], from: usize, end: usize, Ghost(text): Ghost<Seq<char>>) -> (ok:
    bool)
    requires
        spells(bytes@, text),
        from <= end <= bytes.len(),
    ensures
        ok == is_target_field(text, from as int, end as int),
{
    if end - from == 1 {
        assert(bytes[from as int] as char == text[from as int]);
        bytes[from] == '-' as u8
    } else if end - from == 2 {
        assert(bytes[from as int] as char == text[from as int]);
        assert(bytes[from + 1] as char == text[from + 1]);
        'a' as u8 <= bytes[from] && bytes[from] <= 'h' as u8 && '1' as u8 <= bytes[from + 1] && bytes[from + 1]
            <= '8' as u8
    } else {
        false
    }
}

/// Whether the bytes from `from` up to `end` are a counter.
fn counter_field_ok(bytes: &[u8], from: usize, end: usize, Ghost(text): Ghost<Seq<char>>) -> (ok:
    bool)
    requires
        spells(bytes@, text),
        from <= end <= bytes.len(),
    ensures
        ok == is_counter_field(text, from as int, end as int),
{
    if from == end {
        return false;
    }
    let mut i: usize = from;
    while i < end
        invariant
            spells(bytes@, text),
            from <= i <= end <= bytes.len(),
            forall|at: int| from <= at < i ==> '0' <= #[trigger] text[at] <= '9',
        decreases end - i,
    {
        let b = bytes[i];
        assert(b as char == text[i as int]);
        if b < '0' as u8 || b > '9' as u8 {
            return false;
        }
        i += 1;
    }
    true
}

/// Whether the bytes end well after the en-passant field, which ends at `at`.
fn counters_ok(bytes: &[u8], at: usize, Ghost(text): Ghost<Seq<char>>) -> (ok: bool)
    requires
        spells(bytes@, text),
        at <= bytes.len(),
    ensures
        ok == counters_follow(text, at as int),
{
    if at == bytes.len() {
        return true;
    }
    let half_end = field_end(bytes, at + 1, Ghost(text));
    if !counter_field_ok(bytes, at + 1, half_end, Ghost(text)) {
        return false;
    }
    if half_end == bytes.len() {
        return true;
    }
    let full_end = field_end(bytes, half_end + 1, Ghost(text));
    full_end == bytes.len() && counter_field_ok(bytes, half_end + 1, full_end, Ghost(text))
}

/// Whether a position text has the shape that `well_formed` describes.
pub fn is_well_formed(text: &str) -> (ok: bool)
    ensures
        ok == well_formed(text@),
{
    if !text.is_ascii() {
        return false;
    }
    let bytes = text.as_bytes();
    proof {
        is_ascii_spec_bytes(text);
        assert(spells(bytes@, text@));
    }
    let grid_end = field_end(bytes, 0, Ghost(text@));
    if grid_end >= bytes.len() {
        return false;
    }
    let side_end = field_end(bytes, grid_end + 1, Ghost(text@));
    if side_end - grid_end != 2 || side_end >= bytes.len() {
        return false;
    }
    let rights_end = field_end(bytes, side_end + 1, Ghost(text@));
    if rights_end >= bytes.len() {
        return false;
    }
    let side = bytes[grid_end + 1];
    assert(side as char == text@[grid_end + 1]);
    let king: u8 = if side == 'w' as u8 || side == 'W' as u8 {
        'K' as u8
    } else if side == 'b' as u8 || side == 'B' as u8 {
        'k' as u8
    } else {
        return false;
    };
    let target_end = field_end(bytes, rights_end + 1, Ghost(text@));
    grid_is_complete(bytes, grid_end, Ghost(text@)) && found_before(
        bytes,
        king,
        grid_end,
        Ghost(text@),
    ) && rights_field_ok(bytes, side_end + 1, rights_end, Ghost(text@)) && target_field_ok(
        bytes,
        rights_end + 1,
        target_end,
        Ghost(text@),
    ) && counters_ok(bytes, target_end, Ghost(text@))
}

/// The board that `chess::Board::from_str` makes of a text, and `None` for a text
/// that it refuses.
pub uninterp spec fn parsed_board(text: Seq<char>) -> Option<chess::Board>;

/// Calls `chess::Board::from_str`. Believed, not proved: what comes back depends on
/// the text alone, so it is `parsed_board` of the text. The call is kept to
/// well-formed texts: there the piece placement puts a king of the side to move on
/// the board, which the outside function's look-ups by the king's square rely on.
#[verifier::external_body]
fn parse_board(text: &str) -> (parsed: Result<chess::Board, chess::Error>)
    requires
        well_formed(text@),
    ensures
        parsed matches Ok(board) ==> parsed_board(text@) == Some(board),
        parsed is Err ==> parsed_board(text@) is None,
{
    chess::Board::from_str(text)
}

/// The board that a position text decodes to: what the chess crate makes of a
/// well-formed text, and nothing for any other text.
pub open spec fn decoded(text: Seq<char>) -> Option<chess::Board> {
    if well_formed(text) {
        parsed_board(text)
    } else {
        None
    }
}

/// A text that is not well-formed decodes to no board.
pub proof fn ill_formed_text_decodes_to_nothing(text: Seq<char>)
    requires
        !well_formed(text),
    ensures
        decoded(text) is None,
{
}

/// Turns the chess crate's verdict on a text into this library's: the board as it
/// is, and any refusal as `InvalidPosition`.
pub fn settle(parsed: Result<chess::Board, chess::Error>) -> (outcome: Result<
    chess::Board,
    DecodeError,
>)
    ensures
        outcome == match parsed {
            Ok(board) => Ok::<chess::Board, DecodeError>(board),
            Err(_) => Err(DecodeError::InvalidPosition),
        },
{
    match parsed {
        Ok(board) => Ok(board),
        Err(_) => Err(DecodeError::InvalidPosition),
    }
}

/// Decodes a position text into a board. A text that is not well-formed, or that
/// the chess crate refuses, is answered with `InvalidPosition`; nothing else
/// happens.
pub fn decode(text: &str) -> (outcome: Result<chess::Board, DecodeError>)
    ensures
        outcome == match decoded(text@) {
            Some(board) => Ok::<chess::Board, DecodeError>(board),
            None => Err(DecodeError::InvalidPosition),
        },
{
    if is_well_formed(text) {
        settle(parse_board(text))
    } else {
        Err(DecodeError::InvalidPosition)
    }
}

} // verus!
