//! The chess oracle: the single-board rule engine of the `chess` crate,
//! consumed opaquely. A position is a `chess::Board` value; what the game
//! logic may observe of it is named by the uninterpreted functions below, and
//! each oracle call the logic makes goes through one trusted wrapper whose
//! contract states, over those names, what the crate's own code shows.
//!
//! A square is named by its index in 0..64, rank-major (`a1` is 0, `h8` is
//! 63), exactly as the crate counts squares. The occupancy of a position is a
//! map from occupied square index to the piece kind and color standing there.

use vstd::prelude::*;
use crate::types::{BoardState, Color, Piece, Square};

verus! {

#[verifier::external_type_specification]
#[verifier::external_body]
pub struct ExBoard(chess::Board);

/// Which piece and color occupy each occupied square of the position.
pub uninterp spec fn board_occ(b: chess::Board) -> Map<int, (Piece, Color)>;

/// The side to move.
pub uninterp spec fn side_of(b: chess::Board) -> Color;

/// The square index of the given side's king.
pub uninterp spec fn king_sq_of(b: chess::Board, c: Color) -> int;

/// Ongoing, stalemate or checkmate, as the oracle's move generator reports.
pub uninterp spec fn status_of(b: chess::Board) -> BoardState;

/// Whether the normal move from `src` to `dst`, promoting to `promo` if
/// given, is legal in the position.
pub uninterp spec fn legal_of(b: chess::Board, src: int, dst: int, promo: Option<Piece>) -> bool;

/// The FEN text of the position.
pub uninterp spec fn fen_of(b: chess::Board) -> Seq<char>;

/// Whether the side to move stands in check.
pub uninterp spec fn in_check_of(b: chess::Board) -> bool;

/// The FEN of the standard starting position.
pub open spec fn start_fen() -> Seq<char> {
    "rnbqkbnr/pppppppp/8/8/8/8/PPPPPPPP/RNBQKBNR w KQkq - 0 1"@
}

/// Relies on `chess::Board::default`: the standard starting position, with
/// the standard FEN and White to move.
#[verifier::external_body]
pub(crate) fn new_board() -> (r: chess::Board)
    ensures
        fen_of(r) == start_fen(),
        side_of(r) == Color::White,
{
    chess::Board::default()
}

/// Relies on the `Display` impl of `chess::Board`: FEN text determined by
/// the position alone.
#[verifier::external_body]
pub(crate) fn board_fen(b: &chess::Board) -> (r: String)
    ensures
        r@ == fen_of(*b),
{
    b.to_string()
}

/// Relies on `chess::Board::side_to_move`.
#[verifier::external_body]
pub(crate) fn side_to_move(b: &chess::Board) -> (r: Color)
    ensures
        r == side_of(*b),
{
    match b.side_to_move() {
        chess::Color::White => Color::White,
        chess::Color::Black => Color::Black,
    }
}

/// Relies on `chess::Board::piece_on`.
#[verifier::external_body]
pub(crate) fn piece_on(b: &chess::Board, sq: Square) -> (r: Option<Piece>)
    requires
        sq.wf(),
    ensures
        r == if board_occ(*b).dom().contains(sq.ix()) {
            Some(board_occ(*b)[sq.ix()].0)
        } else {
            None::<Piece>
        },
{
    let csq = chess::Square::make_square(
        chess::Rank::from_index(sq.rank as usize),
        chess::File::from_index(sq.file as usize),
    );
    match b.piece_on(csq) {
        None => None,
        Some(chess::Piece::Pawn) => Some(Piece::Pawn),
        Some(chess::Piece::Knight) => Some(Piece::Knight),
        Some(chess::Piece::Bishop) => Some(Piece::Bishop),
        Some(chess::Piece::Rook) => Some(Piece::Rook),
        Some(chess::Piece::Queen) => Some(Piece::Queen),
        Some(chess::Piece::King) => Some(Piece::King),
    }
}

/// Relies on `chess::Board::color_on`.
#[verifier::external_body]
pub(crate) fn color_on(b: &chess::Board, sq: Square) -> (r: Option<Color>)
    requires
        sq.wf(),
    ensures
        r == if board_occ(*b).dom().contains(sq.ix()) {
            Some(board_occ(*b)[sq.ix()].1)
        } else {
            None::<Color>
        },
{
    let csq = chess::Square::make_square(
        chess::Rank::from_index(sq.rank as usize),
        chess::File::from_index(sq.file as usize),
    );
    match b.color_on(csq) {
        None => None,
        Some(chess::Color::White) => Some(Color::White),
        Some(chess::Color::Black) => Some(Color::Black),
    }
}

/// Relies on `chess::Board::king_square`.
#[verifier::external_body]
pub(crate) fn king_square(b: &chess::Board, c: Color) -> (r: Square)
    ensures
        r.wf(),
        r.ix() == king_sq_of(*b, c),
{
    let cc = match c {
        Color::White => chess::Color::White,
        Color::Black => chess::Color::Black,
    };
    let ks = b.king_square(cc);
    Square { file: ks.get_file().to_index() as u8, rank: ks.get_rank().to_index() as u8 }
}

/// Relies on `chess::Board::status`.
#[verifier::external_body]
pub(crate) fn board_status(b: &chess::Board) -> (r: BoardState)
    ensures
        r == status_of(*b),
{
    match b.status() {
        chess::BoardStatus::Ongoing => BoardState::Ongoing,
        chess::BoardStatus::Stalemate => BoardState::Stalemate,
        chess::BoardStatus::Checkmate => BoardState::Checkmate,
    }
}

/// Relies on `chess::Board::legal`: membership in the generated legal-move
/// list, whose promotions are only to queen, knight, rook or bishop.
#[verifier::external_body]
pub(crate) fn legal_move(b: &chess::Board, src: Square, dst: Square, promo: Option<Piece>) -> (r: bool)
    requires
        src.wf(),
        dst.wf(),
    ensures
        r == legal_of(*b, src.ix(), dst.ix(), promo),
        r ==> promo != Some(Piece::King),
{
    let s = chess::Square::make_square(
        chess::Rank::from_index(src.rank as usize), chess::File::from_index(src.file as usize));
    let d = chess::Square::make_square(
        chess::Rank::from_index(dst.rank as usize), chess::File::from_index(dst.file as usize));
    let p = match promo {
        None => None, Some(Piece::Pawn) => Some(chess::Piece::Pawn),
        Some(Piece::Knight) => Some(chess::Piece::Knight),
        Some(Piece::Bishop) => Some(chess::Piece::Bishop),
        Some(Piece::Rook) => Some(chess::Piece::Rook),
        Some(Piece::Queen) => Some(chess::Piece::Queen), Some(Piece::King) => Some(chess::Piece::King),
    };
    b.legal(chess::ChessMove::new(s, d, p))
}

/// Relies on `chess::Board::make_move_new`, called on legal moves only; the
/// resulting position has the turn handed to the opponent.
#[verifier::external_body]
pub(crate) fn make_move(b: &chess::Board, src: Square, dst: Square, promo: Option<Piece>) -> (r:
    chess::Board)
    requires
        src.wf(),
        dst.wf(),
        legal_of(*b, src.ix(), dst.ix(), promo),
    ensures
        side_of(r) == side_of(*b).spec_flip(),
{
    let s = chess::Square::make_square(
        chess::Rank::from_index(src.rank as usize), chess::File::from_index(src.file as usize));
    let d = chess::Square::make_square(
        chess::Rank::from_index(dst.rank as usize), chess::File::from_index(dst.file as usize));
    let p = match promo {
        None => None, Some(Piece::Pawn) => Some(chess::Piece::Pawn),
        Some(Piece::Knight) => Some(chess::Piece::Knight),
        Some(Piece::Bishop) => Some(chess::Piece::Bishop),
        Some(Piece::Rook) => Some(chess::Piece::Rook),
        Some(Piece::Queen) => Some(chess::Piece::Queen), Some(Piece::King) => Some(chess::Piece::King),
    };
    b.make_move_new(chess::ChessMove::new(s, d, p))
}

/// Relies on `chess::Board::null_move`: it yields a position exactly when
/// the side to move is not in check.
#[verifier::external_body]
pub(crate) fn null_move_ok(b: &chess::Board) -> (r: bool)
    ensures
        r == !in_check_of(*b),
{
    b.null_move().is_some()
}

/// Whether the oracle lets the square be cleared: it refuses when the
/// removal would leave the side not to move in check.
pub uninterp spec fn clear_ok_of(b: chess::Board, sq: int) -> bool;

/// The position the clearing yields when the oracle accepts it.
pub uninterp spec fn cleared_of(b: chess::Board, sq: int) -> chess::Board;

/// Relies on `chess::Board::clear_square`: on success the square is emptied
/// and the side to move is kept; the verdict and the position depend on
/// the arguments alone. A king may not be cleared: the crate's own
/// transforms misbehave on a board without one.
#[allow(deprecated)]
#[verifier::external_body]
pub(crate) fn clear_square(b: &chess::Board, sq: Square) -> (r: Option<chess::Board>)
    requires
        sq.wf(),
        board_occ(*b).dom().contains(sq.ix()) ==> board_occ(*b)[sq.ix()].0 != Piece::King,
    ensures
        r is Some <==> clear_ok_of(*b, sq.ix()),
        r is Some ==> {
            &&& r.unwrap() == cleared_of(*b, sq.ix())
            &&& board_occ(r.unwrap()) == board_occ(*b).remove(sq.ix())
            &&& side_of(r.unwrap()) == side_of(*b)
        },
{
    let csq = chess::Square::make_square(
        chess::Rank::from_index(sq.rank as usize),
        chess::File::from_index(sq.file as usize),
    );
    b.clear_square(csq)
}

/// Whether placing `p` of color `c` on square `sq` and handing the turn to
/// the opponent yields a position the oracle accepts.
pub uninterp spec fn place_ok_of(b: chess::Board, p: Piece, c: Color, sq: int) -> bool;

/// The position that placement yields when the oracle accepts it.
pub uninterp spec fn place_of(b: chess::Board, p: Piece, c: Color, sq: int) -> chess::Board;

/// Relies on `chess::BoardBuilder` (`from::<&Board>`, `piece`,
/// `side_to_move`) and `chess::Board::try_from::<&BoardBuilder>`: the
/// position rebuilt with exactly the one square overwritten and the side
/// handed to the opponent, or nothing when the rebuilt position is not a
/// valid board. The verdict and the position depend on the arguments
/// alone. The overwritten square may not hold a king: the crate's
/// validation reads the rebuilt board before it counts kings.
#[verifier::external_body]
pub(crate) fn try_place(b: &chess::Board, p: Piece, c: Color, sq: Square) -> (r: Option<
    chess::Board,
>)
    requires
        sq.wf(),
        board_occ(*b).dom().contains(sq.ix()) ==> board_occ(*b)[sq.ix()].0 != Piece::King,
    ensures
        r is Some <==> place_ok_of(*b, p, c, sq.ix()),
        r is Some ==> {
            &&& r.unwrap() == place_of(*b, p, c, sq.ix())
            &&& board_occ(r.unwrap()) == board_occ(*b).insert(sq.ix(), (p, c))
            &&& side_of(r.unwrap()) == c.spec_flip()
        },
{
    let csq = chess::Square::make_square(
        chess::Rank::from_index(sq.rank as usize), chess::File::from_index(sq.file as usize));
    let cc = match c { Color::White => chess::Color::White, Color::Black => chess::Color::Black };
    let cp = match p {
        Piece::Pawn => chess::Piece::Pawn, Piece::Knight => chess::Piece::Knight,
        Piece::Bishop => chess::Piece::Bishop, Piece::Rook => chess::Piece::Rook,
        Piece::Queen => chess::Piece::Queen, Piece::King => chess::Piece::King,
    };
    let mut bb = chess::BoardBuilder::from(b);
    bb.piece(csq, cp, cc);
    bb.side_to_move(match cc { chess::Color::White => chess::Color::Black, _ => chess::Color::White });
    chess::Board::try_from(&bb).ok()
}

/// Relies on chrono's `Utc::now().timestamp_millis()` for the wall clock;
/// nothing is assumed of the reading.
#[verifier::external_body]
pub(crate) fn now_ms() -> i64 {
    chrono::Utc::now().timestamp_millis()
}

} // verus!
