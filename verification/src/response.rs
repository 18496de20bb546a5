//! The engine's output and the response envelope that is made from it.

use vstd::prelude::*;

verus! {

/// The kind of piece that a pawn turns into when a move promotes it.
#[derive(Clone, Copy, Debug, PartialEq, Eq, Structural)]
pub enum PieceKind {
    Pawn,
    Knight,
    Bishop,
    Rook,
    Queen,
    King,
}

/// The letter that move notation uses for a piece kind.
pub open spec fn piece_letter(kind: PieceKind) -> char {
    match kind {
        PieceKind::Pawn => 'p',
        PieceKind::Knight => 'n',
        PieceKind::Bishop => 'b',
        PieceKind::Rook => 'r',
        PieceKind::Queen => 'q',
        PieceKind::King => 'k',
    }
}

/// The file letter, `a` to `h`, of the square with index `square` (0 is a1, 7 is h1, 63 is h8).
pub open spec fn file_letter(square: int) -> char {
    ((97 + square % 8) as u8) as char
}

/// The rank digit, `1` to `8`, of the square with index `square`.
pub open spec fn rank_digit(square: int) -> char {
    ((49 + square / 8) as u8) as char
}

/// The two characters that name a square: its file letter, then its rank digit.
pub open spec fn square_name(square: int) -> Seq<char> {
    seq![file_letter(square), rank_digit(square)]
}

/// Whether a text has the shape of move notation: two squares, each a file letter
/// from `a` to `h` and a rank digit from `1` to `8`, and after them at most one
/// piece letter.
pub open spec fn is_move_notation(text: Seq<char>) -> bool {
    &&& text.len() == 4 || text.len() == 5
    &&& 'a' <= text[0] <= 'h'
    &&& '1' <= text[1] <= '8'
    &&& 'a' <= text[2] <= 'h'
    &&& '1' <= text[3] <= '8'
    &&& text.len() == 5 ==> exists|kind: PieceKind| text[4] == #[trigger] piece_letter(kind)
}

/// The move that the engine chose: the square it leaves, the square it reaches, and
/// the piece kind it promotes to, if any. Both squares are indices below 64.
#[derive(Clone, Copy, Debug, PartialEq, Eq)]
pub struct EngineMove {
    source: u8,
    dest: u8,
    promotion: Option<PieceKind>,
}

impl EngineMove {
    /// Whether both squares of the move are on the board. Every move that was made
    /// by `new` is.
    #[verifier::type_invariant]
    pub closed spec fn on_board(self) -> bool {
        self.source < 64 && self.dest < 64
    }

    /// Index of the square that the move leaves.
    pub closed spec fn source_index(self) -> int {
        self.source as int
    }

    /// Index of the square that the move reaches.
    pub closed spec fn dest_index(self) -> int {
        self.dest as int
    }

    /// The promotion of the move, if it has one.
    pub closed spec fn promoted_to(self) -> Option<PieceKind> {
        self.promotion
    }

    /// The canonical notation of the move: source square, destination square, and
    /// the promotion's letter where there is one.
    pub open spec fn notation(self) -> Seq<char> {
        let squares = square_name(self.source_index()) + square_name(self.dest_index());
        match self.promoted_to() {
            None => squares,
            Some(kind) => squares.push(piece_letter(kind)),
        }
    }

    /// A move between two squares, or `None` when a square index is not on the board.
    pub fn new(source: u8, dest: u8, promotion: Option<PieceKind>) -> (made: Option<EngineMove>)
        ensures
            made.is_some() <==> source < 64 && dest < 64,
            made matches Some(mv) ==> mv.source_index() == source && mv.dest_index() == dest
                && mv.promoted_to() == promotion,
    {
        if source < 64 && dest < 64 {
            Some(EngineMove { source, dest, promotion })
        } else {
            None
        }
    }

    /// Index of the square that the move leaves.
    pub fn source(&self) -> (index: u8)
        ensures
            index == self.source_index(),
            index < 64,
    {
        proof {
            use_type_invariant(self);
        }
        self.source
    }

    /// Index of the square that the move reaches.
    pub fn dest(&self) -> (index: u8)
        ensures
            index == self.dest_index(),
            index < 64,
    {
        proof {
            use_type_invariant(self);
        }
        self.dest
    }

    /// The promotion of the move, if it has one.
    pub fn promotion(&self) -> (kind: Option<PieceKind>)
        ensures
            kind == self.promoted_to(),
    {
        self.promotion
    }
}

/// Calls `chess::ChessMove::new` on the squares `chess::ALL_SQUARES[source]` and
/// `chess::ALL_SQUARES[dest]` and the matching `chess::Piece`, then the move's
/// `to_string`. Believed, not proved: the text is the source square's file letter and
/// rank digit, the same for the destination, and the lower-case letter of the
/// promotion where there is one, as the `Display` impls of `ChessMove`, `Square` and
/// `Piece` write them. Indexing `ALL_SQUARES` needs both indices below 64.
#[verifier::external_body]
fn move_text(source: u8, dest: u8, promotion: Option<PieceKind>) -> (text: String)
    requires
        source < 64,
        dest < 64,
    ensures
        text@ == match promotion {
            None => square_name(source as int) + square_name(dest as int),
            Some(kind) => (square_name(source as int) + square_name(dest as int)).push(
                piece_letter(kind),
            ),
        },
{
    let piece = match promotion {
        None => None,
        Some(PieceKind::Pawn) => Some(chess::Piece::Pawn),
        Some(PieceKind::Knight) => Some(chess::Piece::Knight),
        Some(PieceKind::Bishop) => Some(chess::Piece::Bishop),
        Some(PieceKind::Rook) => Some(chess::Piece::Rook),
        Some(PieceKind::Queen) => Some(chess::Piece::Queen),
        Some(PieceKind::King) => Some(chess::Piece::King),
    };
    let from = chess::ALL_SQUARES[source as usize];
    let to = chess::ALL_SQUARES[dest as usize];
    chess::ChessMove::new(from, to, piece).to_string()
}

/// The notation of a move on the board has the shape of move notation: four
/// characters for a plain move, five for a promotion.
pub proof fn notation_is_well_shaped(mv: EngineMove)
    requires
        mv.on_board(),
    ensures
        is_move_notation(mv.notation()),
        mv.notation().len() == if mv.promoted_to() is Some { 5int } else { 4int },
{
    let text = mv.notation();
    assert(text[0] == file_letter(mv.source_index()));
    assert(text[1] == rank_digit(mv.source_index()));
    assert(text[2] == file_letter(mv.dest_index()));
    assert(text[3] == rank_digit(mv.dest_index()));
    if let Some(kind) = mv.promoted_to() {
        assert(text[4] == piece_letter(kind));
    }
}

/// Two moves on the board with the same notation are the same move.
pub proof fn notation_tells_moves_apart(first: EngineMove, second: EngineMove)
    requires
        first.on_board(),
        second.on_board(),
        first.notation() == second.notation(),
    ensures
        first == second,
{
    let one = first.notation();
    let other = second.notation();
    assert(one[0] == file_letter(first.source_index()));
    assert(one[1] == rank_digit(first.source_index()));
    assert(one[2] == file_letter(first.dest_index()));
    assert(one[3] == rank_digit(first.dest_index()));
    assert(other[0] == file_letter(second.source_index()));
    assert(other[1] == rank_digit(second.source_index()));
    assert(other[2] == file_letter(second.dest_index()));
    assert(other[3] == rank_digit(second.dest_index()));
    assert(one.len() == other.len());
    if let Some(kind) = first.promoted_to() {
        assert(one[4] == piece_letter(kind));
        assert(second.promoted_to() is Some);
        assert(other[4] == piece_letter(second.promoted_to().unwrap()));
    }
}

/// The canonical notation of a move, as text.
pub fn render_move(mv: &EngineMove) -> (text: String)
    ensures
        text@ == mv.notation(),
        is_move_notation(text@),
{
    proof {
        use_type_invariant(mv);
        notation_is_well_shaped(*mv);
    }
    move_text(mv.source, mv.dest, mv.promotion)
}

/// What a search reports beside the move it chose.
#[derive(Clone, Copy, Debug, PartialEq, Eq, Structural)]
pub struct Statistics {
    /// The depth that the search reached, in plies.
    pub depth_reached: u32,
    /// The number of positions that the search visited.
    pub nodes_searched: u64,
    /// The score of the chosen move, in centipawns, for the side to move.
    pub evaluation: i64,
}

impl Statistics {
    /// The empty record: every count and the score are zero.
    pub open spec fn zero() -> Statistics {
        Statistics { depth_reached: 0, nodes_searched: 0, evaluation: 0 }
    }
}

impl Default for Statistics {
    fn default() -> (empty: Statistics)
        ensures
            empty == Statistics::zero(),
    {
        Statistics { depth_reached: 0, nodes_searched: 0, evaluation: 0 }
    }
}

/// What the engine hands back from one search: the move it chose and, where it
/// kept any, its statistics.
#[derive(Clone, Copy, Debug, PartialEq, Eq)]
pub struct SearchOutput {
    pub chosen: EngineMove,
    pub statistics: Option<Statistics>,
}

/// The response to one request: the chosen move in canonical notation, and the
/// statistics of the search.
#[derive(Clone, Debug, PartialEq, Eq)]
pub struct EngineReturn {
    pub engine_move: String,
    pub engine_stats: Statistics,
}

/// An `EngineReturn` as contracts see it.
pub struct EngineReturnModel {
    pub engine_move: Seq<char>,
    pub engine_stats: Statistics,
}

impl View for EngineReturn {
    type V = EngineReturnModel;

    open spec fn view(&self) -> EngineReturnModel {
        EngineReturnModel { engine_move: self.engine_move@, engine_stats: self.engine_stats }
    }
}

/// The statistics that a response carries: the engine's own where it kept any, the
/// empty record where it kept none.
pub open spec fn resolved_statistics(statistics: Option<Statistics>) -> Statistics {
    match statistics {
        Some(kept) => kept,
        None => Statistics::zero(),
    }
}

/// The response that belongs to an engine output.
pub open spec fn response_of(output: SearchOutput) -> EngineReturnModel {
    EngineReturnModel {
        engine_move: output.chosen.notation(),
        engine_stats: resolved_statistics(output.statistics),
    }
}

/// The response is a function of the engine's output alone: equal outputs have
/// equal responses.
pub proof fn equal_outputs_give_equal_responses(first: SearchOutput, second: SearchOutput)
    requires
        first == second,
    ensures
        response_of(first) == response_of(second),
{
}

/// Where the engine kept no statistics, the response carries the empty record,
/// whatever the move.
pub proof fn absent_statistics_give_the_empty_record(output: SearchOutput)
    requires
        output.statistics is None,
    ensures
        response_of(output).engine_stats == Statistics::zero(),
        response_of(output).engine_stats.depth_reached == 0,
        response_of(output).engine_stats.nodes_searched == 0,
        response_of(output).engine_stats.evaluation == 0,
{
}

/// Where the engine kept statistics, the response carries exactly those.
pub proof fn present_statistics_are_forwarded(output: SearchOutput, kept: Statistics)
    requires
        output.statistics == Some(kept),
    ensures
        response_of(output).engine_stats == kept,
{
}

/// A response names the move of the output it was made from and of no other: two
/// outputs whose responses name the same move chose the same move.
pub proof fn response_names_its_own_move(first: SearchOutput, second: SearchOutput)
    requires
        first.chosen.on_board(),
        second.chosen.on_board(),
        response_of(first).engine_move == response_of(second).engine_move,
    ensures
        first.chosen == second.chosen,
{
    notation_tells_moves_apart(first.chosen, second.chosen);
}

/// Shapes the engine's output into the response: the move is written in canonical
/// notation, the statistics are forwarded as they are, and where there are none the
/// response carries the empty record.
pub fn adapt(output: SearchOutput) -> (response: EngineReturn)
    ensures
        response@ == response_of(output),
        is_move_notation(response@.engine_move),
{
    let engine_move = render_move(&output.chosen);
    let engine_stats = match output.statistics {
        Some(kept) => kept,
        None => Statistics::default(),
    };
    EngineReturn { engine_move, engine_stats }
}

} // verus!
