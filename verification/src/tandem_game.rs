//! The tandem game: the move descriptor and its textual protocol, the pair
//! of boards with their cross-board rules, clock synchronization, the
//! lifecycle (start, finish, reset) and the snapshot serializer.

use vstd::prelude::*;
use vstd::string::StringExecFns;
use crate::chess_game::{
    json_of_game, spares_of, spec_add_pawn, spec_add_piece, spec_decrease, sync_game, time_sum,
    ChessGame, START_TIME_MS,
};
use crate::oracle::{
    board_occ, board_status, clear_ok_of, clear_square, cleared_of, in_check_of, king_sq_of,
    king_square, legal_move, legal_of, make_move, now_ms, null_move_ok, piece_on, color_on,
    place_of, place_ok_of, side_of, side_to_move, status_of, try_place,
};
use crate::text::{
    bool_text, dec_digits, digit_char, lemma_parse_single_digit, lemma_split_semi_free,
    lemma_split_semi_sep, parse_u8, semi_free, spec_bool_text, spec_parse_u8, split_fields,
    split_semi, u64_dec,
};
use crate::types::{
    parse_square, spec_parse_square, spec_square_text, square_text, BoardState, Color, Piece,
    Square,
};

verus! {

/// A parsed move line: `board;color;source;target;piece;promotion`.
pub struct TandemMove {
    /// Which board is played, 1 or 2.
    pub board: u8,
    /// The side the client says it is moving.
    pub color: Color,
    /// Source square, or the literal `spare` for a drop.
    pub source: String,
    /// Target square.
    pub target: String,
    /// Two-character drop spec such as `wQ`; read only for drops.
    pub piece: String,
    /// Square on the other board naming the piece a promotion consumes, or
    /// empty.
    pub promotion: String,
}

/// The descriptor's text fields as sequences.
#[verifier::ext_equal]
pub ghost struct MoveDesc {
    pub board: u8,
    pub color: Color,
    pub source: Seq<char>,
    pub target: Seq<char>,
    pub piece: Seq<char>,
    pub promotion: Seq<char>,
}

impl View for TandemMove {
    type V = MoveDesc;

    open spec fn view(&self) -> MoveDesc {
        MoveDesc {
            board: self.board,
            color: self.color,
            source: self.source@,
            target: self.target@,
            piece: self.piece@,
            promotion: self.promotion@,
        }
    }
}

/// What a move line parses to: exactly six semicolon-separated fields; the
/// first must be the number 1 or 2; a color field of `W` means White and
/// anything else Black.
pub open spec fn spec_parse_move(s: Seq<char>) -> Option<MoveDesc> {
    let parts = split_semi(s);
    if parts.len() != 6 {
        None
    } else {
        let b = match spec_parse_u8(parts[0]) {
            Some(v) => v,
            None => 0u8,
        };
        if b != 1 && b != 2 {
            None
        } else {
            Some(
                MoveDesc {
                    board: b,
                    color: if parts[1] == "W"@ {
                        Color::White
                    } else {
                        Color::Black
                    },
                    source: parts[2],
                    target: parts[3],
                    piece: parts[4],
                    promotion: parts[5],
                },
            )
        }
    }
}

/// The line a descriptor prints back to.
pub open spec fn spec_move_line(m: MoveDesc) -> Seq<char> {
    dec_digits(m.board as int) + ";"@ + (if m.color is White {
        "W"@
    } else {
        "B"@
    }) + ";"@ + m.source + ";"@ + m.target + ";"@ + m.piece + ";"@ + m.promotion
}

impl TandemMove {
    /// Parse a move line; `None` if it is not one.
    pub fn from_string(tandem_string: String) -> (r: Option<TandemMove>)
        ensures
            r is Some <==> spec_parse_move(tandem_string@) is Some,
            r is Some ==> r.unwrap()@ == spec_parse_move(tandem_string@).unwrap(),
    {
        let fields = split_fields(tandem_string.as_str());
        if fields.len() != 6 {
            return None;
        }
        let board = match parse_u8(fields[0].as_str()) {
            Some(v) => v,
            None => 0,
        };
        if board != 1 && board != 2 {
            return None;
        }
        let w = String::from_str("W");
        let color = if fields[1] == w {
            Color::White
        } else {
            Color::Black
        };
        let r = TandemMove {
            board,
            color,
            source: fields[2].clone(),
            target: fields[3].clone(),
            piece: fields[4].clone(),
            promotion: fields[5].clone(),
        };
        proof {
            assert(r@ =~= spec_parse_move(tandem_string@).unwrap());
        }
        Some(r)
    }

    /// Print the descriptor back to a move line. Parsing the printed line
    /// yields the descriptor back; the round-trip law is
    /// [`lemma_move_line_round_trip`].
    pub fn to_line(&self) -> (r: String)
        ensures
            r@ == spec_move_line(self@),
    {
        let mut r = u64_dec(self.board as u64);
        r.append(";");
        r.append(if matches!(self.color, Color::White) {
            "W"
        } else {
            "B"
        });
        r.append(";");
        r.append(self.source.as_str());
        r.append(";");
        r.append(self.target.as_str());
        r.append(";");
        r.append(self.piece.as_str());
        r.append(";");
        r.append(self.promotion.as_str());
        proof {
            assert(r@ =~= spec_move_line(self@));
        }
        r
    }
}

/// The two boards of one tandem game, with the shared lifecycle.
pub struct TandemGame {
    /// The two boards; board 1 of the protocol is index 0.
    pub games: Vec<ChessGame>,
    /// Set at the first accepted move; clocks only advance once set.
    pub started: bool,
    /// Latched by a flag-fall or a contact/knight mate; only `reset` clears
    /// it.
    pub finished: bool,
    /// Wall-clock milliseconds of the last synchronization, 0 before the
    /// game starts.
    pub last_sync: i64,
}

/// What one clock synchronization leaves behind.
#[verifier::ext_equal]
pub ghost struct SyncOut {
    pub g0: ChessGame,
    pub g1: ChessGame,
    pub finished: bool,
    pub last_sync: int,
}

/// Clock synchronization at wall time `now`: before the game starts it is a
/// no-op; otherwise the elapsed time since the last synchronization (none
/// on the seeding tick) is debited from the running side of each board, and
/// a flag fall on either board finishes the game.
pub open spec fn sync_tandem(t: TandemGame, now: int) -> SyncOut {
    if !t.started {
        SyncOut {
            g0: t.games@[0],
            g1: t.games@[1],
            finished: t.finished,
            last_sync: t.last_sync as int,
        }
    } else {
        let ls = if t.last_sync == 0 {
            now
        } else {
            t.last_sync as int
        };
        let dif = if now - ls > 0 {
            now - ls
        } else {
            0
        };
        let g0 = sync_game(t.games@[0], dif);
        let g1 = sync_game(t.games@[1], dif);
        SyncOut {
            g0,
            g1,
            finished: t.finished || g0.white_time == 0 || g0.black_time == 0 || g1.white_time == 0
                || g1.black_time == 0,
            last_sync: now,
        }
    }
}

/// The state after a synchronization at `now`.
pub open spec fn sync_post(t0: TandemGame, now: int, t1: TandemGame) -> bool {
    let s = sync_tandem(t0, now);
    &&& t1.games@.len() == 2
    &&& t1.games@[0] == s.g0
    &&& t1.games@[1] == s.g1
    &&& t1.finished == s.finished
    &&& t1.last_sync == s.last_sync
    &&& t1.started == t0.started
}

/// A board with its truncated-seconds readout refreshed.
pub open spec fn refresh_sum(g: ChessGame) -> ChessGame {
    ChessGame { last_time_sum: time_sum(g) as i64, ..g }
}

/// What a tick poll reports: nothing once finished, else whether either
/// board's truncated-seconds sum moved since its last refresh.
pub open spec fn spec_should_update_ret(t: TandemGame, now: int) -> bool {
    if t.finished {
        false
    } else {
        let s = sync_tandem(t, now);
        s.g0.last_time_sum != time_sum(s.g0) || s.g1.last_time_sum != time_sum(s.g1)
    }
}

/// The state a tick poll leaves behind: untouched once finished, else the
/// synchronized state with both readouts refreshed.
pub open spec fn should_update_post(t0: TandemGame, now: int, t1: TandemGame) -> bool {
    if t0.finished {
        t1 == t0
    } else {
        let s = sync_tandem(t0, now);
        &&& t1.games@.len() == 2
        &&& t1.games@[0] == refresh_sum(s.g0)
        &&& t1.games@[1] == refresh_sum(s.g1)
        &&& t1.finished == s.finished
        &&& t1.last_sync == s.last_sync
        &&& t1.started == t0.started
    }
}

/// A two-character drop spec: `w` or `b`, then one of `PNBRQ`.
pub open spec fn spec_parse_drop(s: Seq<char>) -> Option<(Color, Piece)> {
    if s.len() != 2 {
        None
    } else {
        let c = if s[0] == 'w' {
            Some(Color::White)
        } else if s[0] == 'b' {
            Some(Color::Black)
        } else {
            None::<Color>
        };
        let p = if s[1] == 'P' {
            Some(Piece::Pawn)
        } else if s[1] == 'N' {
            Some(Piece::Knight)
        } else if s[1] == 'B' {
            Some(Piece::Bishop)
        } else if s[1] == 'R' {
            Some(Piece::Rook)
        } else if s[1] == 'Q' {
            Some(Piece::Queen)
        } else {
            None::<Piece>
        };
        if c is Some && p is Some {
            Some((c.unwrap(), p.unwrap()))
        } else {
            None
        }
    }
}

/// Parse a drop spec such as `wQ`.
fn parse_drop(s: &str) -> (r: Option<(Color, Piece)>)
    ensures
        r == spec_parse_drop(s@),
{
    if s.unicode_len() != 2 {
        return None;
    }
    let c0 = s.get_char(0);
    let c1 = s.get_char(1);
    let c = if c0 == 'w' {
        Color::White
    } else if c0 == 'b' {
        Color::Black
    } else {
        return None;
    };
    let p = if c1 == 'P' {
        Piece::Pawn
    } else if c1 == 'N' {
        Piece::Knight
    } else if c1 == 'B' {
        Piece::Bishop
    } else if c1 == 'R' {
        Piece::Rook
    } else if c1 == 'Q' {
        Piece::Queen
    } else {
        return None;
    };
    Some((c, p))
}

/// The anti-cheese mate test: the position is checkmate, and the piece just
/// placed or moved either is a knight or stands at Chebyshev distance at
/// most one from the mated king. A far-range mate fails the test: the
/// variant leaves it defusable by a drop.
pub open spec fn spec_mate_by(b: chess::Board, piece: Piece, target: Square, color: Color) -> bool {
    let k = king_sq_of(b, color.spec_flip());
    let close = -1 <= k / 8 - target.rank as int <= 1 && -1 <= k % 8 - target.file as int <= 1;
    status_of(b) == BoardState::Checkmate && (close || piece == Piece::Knight)
}

fn mate_by(board: &chess::Board, piece: Piece, target: Square, color: Color) -> (r: bool)
    requires
        target.wf(),
    ensures
        r == spec_mate_by(*board, piece, target, color),
{
    let k = king_square(board, color.flip());
    let dr = if k.rank >= target.rank {
        k.rank - target.rank
    } else {
        target.rank - k.rank
    };
    let df = if k.file >= target.file {
        k.file - target.file
    } else {
        target.file - k.file
    };
    let close = dr <= 1 && df <= 1;
    let st = board_status(board);
    proof {
        assert((k.rank as int * 8 + k.file as int) / 8 == k.rank as int);
        assert((k.rank as int * 8 + k.file as int) % 8 == k.file as int);
    }
    st == BoardState::Checkmate && (close || piece == Piece::Knight)
}

/// Place a spare on the board and hand the turn to the opponent, as the
/// oracle's set-piece transform does; nothing if the oracle rejects the
/// position, the piece is a pawn bound for a back rank, or the anti-cheese
/// mate rule strikes.
fn set_piece_on_board(board: &chess::Board, piece: Piece, color: Color, target: Square) -> (r:
    Option<chess::Board>)
    requires
        target.wf(),
        board_occ(*board).dom().contains(target.ix()) ==> board_occ(*board)[target.ix()].0
            != Piece::King,
    ensures
        r is Some <==> {
            &&& !(piece == Piece::Pawn && (target.rank == 0 || target.rank == 7))
            &&& place_ok_of(*board, piece, color, target.ix())
            &&& !spec_mate_by(place_of(*board, piece, color, target.ix()), piece, target, color)
        },
        r is Some ==> {
            &&& r.unwrap() == place_of(*board, piece, color, target.ix())
            &&& board_occ(r.unwrap()) == board_occ(*board).insert(target.ix(), (piece, color))
            &&& side_of(r.unwrap()) == color.spec_flip()
            &&& !spec_mate_by(r.unwrap(), piece, target, color)
        },
{
    let target_x = target.rank;
    if (target_x == 7 || target_x == 0) && piece == Piece::Pawn {
        return None;
    }
    let new_board = match try_place(board, piece, color, target) {
        Some(v) => v,
        None => {
            return None;
        },
    };
    if mate_by(&new_board, piece, target, color) {
        None
    } else {
        Some(new_board)
    }
}

/// What an accepted drop did to the board it was played on: `gb` is that
/// board as the entry synchronization left it, `fb` the same board
/// afterwards, `piece_s` the drop spec field of the move line.
pub open spec fn drop_applied(gb: ChessGame, piece_s: Seq<char>, tgt: Square, fb: ChessGame) -> bool {
    &&& !board_occ(gb.board).dom().contains(tgt.ix())
    &&& spec_parse_drop(piece_s) is Some
    &&& {
        let dc = spec_parse_drop(piece_s).unwrap().0;
        let dp = spec_parse_drop(piece_s).unwrap().1;
        &&& !(dp == Piece::Pawn && (tgt.rank == 0 || tgt.rank == 7))
        &&& spares_of(gb, dc).can_take(dp)
        &&& board_occ(fb.board) == board_occ(gb.board).insert(tgt.ix(), (dp, dc))
        &&& side_of(fb.board) == dc.spec_flip()
        &&& !spec_mate_by(fb.board, dp, tgt, dc)
        &&& fb.turn == gb.turn.spec_flip()
        &&& fb.white_time == gb.white_time
        &&& fb.black_time == gb.black_time
        &&& fb.last_move_capture == gb.last_move_capture
        &&& fb.last_time_sum == time_sum(gb)
        &&& fb.white_sp == spec_decrease(gb, dc, dp).white_sp
        &&& fb.black_sp == spec_decrease(gb, dc, dp).black_sp
        &&& fb.last_move@ == "spare-"@ + spec_square_text(tgt)
    }
}

/// Exactly when a drop goes through on a board: empty target, well-formed
/// drop spec, no pawn bound for a back rank, a placement the oracle accepts
/// that is no anti-cheese mate, and a spare to pay with.
pub open spec fn drop_allowed(gb: ChessGame, piece_s: Seq<char>, tgt: Square) -> bool {
    &&& !board_occ(gb.board).dom().contains(tgt.ix())
    &&& spec_parse_drop(piece_s) is Some
    &&& {
        let dc = spec_parse_drop(piece_s).unwrap().0;
        let dp = spec_parse_drop(piece_s).unwrap().1;
        &&& !(dp == Piece::Pawn && (tgt.rank == 0 || tgt.rank == 7))
        &&& place_ok_of(gb.board, dp, dc, tgt.ix())
        &&& !spec_mate_by(place_of(gb.board, dp, dc, tgt.ix()), dp, tgt, dc)
        &&& spares_of(gb, dc).can_take(dp)
    }
}

/// What an accepted drop did: it changes only the board it was played on,
/// and never finishes the game.
pub open spec fn drop_post(
    gb: ChessGame,
    go: ChessGame,
    m: MoveDesc,
    tgt: Square,
    fb: ChessGame,
    fo: ChessGame,
    fin: bool,
) -> bool {
    &&& drop_applied(gb, m.piece, tgt, fb)
    &&& fo == go
    &&& fin == false
}

/// Play a drop on this board: the target must be empty, the drop spec
/// well-formed, pawns may not reach a back rank, the oracle must accept the
/// placement without an anti-cheese mate, and the spare is paid for from
/// the dropping color's inventory. Nothing changes on failure.
fn apply_drop(g: &mut ChessGame, piece_str: &String, target: Square) -> (r: bool)
    requires
        old(g).wf(),
        target.wf(),
    ensures
        final(g).wf(),
        !r ==> *final(g) == *old(g),
        r ==> drop_applied(*old(g), piece_str@, target, *final(g)),
        r == drop_allowed(*old(g), piece_str@, target),
{
    if piece_on(&g.board, target).is_some() {
        return false;
    }
    let drop_spec = match parse_drop(piece_str.as_str()) {
        Some(v) => v,
        None => {
            return false;
        },
    };
    let dcolor = drop_spec.0;
    let dpiece = drop_spec.1;
    if dpiece == Piece::Pawn && (target.rank == 0 || target.rank == 7) {
        return false;
    }
    let board_new = match set_piece_on_board(&g.board, dpiece, dcolor, target) {
        Some(v) => v,
        None => {
            return false;
        },
    };
    if !g.decrease_count(&dcolor, dpiece) {
        return false;
    }
    let mut mv = String::from_str("spare-");
    mv.append(square_text(target).as_str());
    proof {
        assert(mv@ =~= "spare-"@ + spec_square_text(target));
    }
    g.board = board_new;
    g.change_turn(mv);
    true
}

/// What an accepted normal move did, in the same terms.
pub open spec fn normal_post(
    gb: ChessGame,
    go: ChessGame,
    m: MoveDesc,
    tgt: Square,
    fb: ChessGame,
    fo: ChessGame,
    fin: bool,
) -> bool {
    &&& spec_parse_square(m.source) is Some
    &&& {
        let src = spec_parse_square(m.source).unwrap();
        &&& board_occ(gb.board).dom().contains(src.ix())
        &&& {
            let moved = board_occ(gb.board)[src.ix()].0;
            let is_promotion = moved == Piece::Pawn && (tgt.rank == 0 || tgt.rank == 7);
            let promo_sq = spec_parse_square(m.promotion);
            let promo_piece = if is_promotion && promo_sq is Some && board_occ(go.board).dom()
                .contains(promo_sq.unwrap().ix()) {
                Some(board_occ(go.board)[promo_sq.unwrap().ix()].0)
            } else {
                None::<Piece>
            };
            let captured = if board_occ(gb.board).dom().contains(tgt.ix()) {
                Some(board_occ(gb.board)[tgt.ix()].0)
            } else {
                None::<Piece>
            };
            &&& legal_of(gb.board, src.ix(), tgt.ix(), promo_piece)
            &&& (is_promotion ==> {
                &&& promo_sq is Some
                &&& board_occ(go.board).dom().contains(promo_sq.unwrap().ix())
                &&& board_occ(go.board)[promo_sq.unwrap().ix()].1 == m.color
                &&& board_occ(fo.board) == board_occ(go.board).remove(promo_sq.unwrap().ix())
                &&& side_of(fo.board) == side_of(go.board)
                &&& !in_check_of(fo.board)
            })
            &&& (!is_promotion ==> fo.board == go.board)
            &&& {
                let after_pawn = if is_promotion {
                    spec_add_pawn(go, m.color)
                } else {
                    go
                };
                let after_cap = if captured is Some {
                    spec_add_piece(after_pawn, m.color, captured.unwrap())
                } else {
                    after_pawn
                };
                &&& fo.white_sp == after_cap.white_sp
                &&& fo.black_sp == after_cap.black_sp
                &&& fo.white_time == go.white_time
                &&& fo.black_time == go.black_time
                &&& fo.turn == go.turn
                &&& fo.last_move_capture == go.last_move_capture
                &&& fo.last_time_sum == go.last_time_sum
                &&& fo.last_move == go.last_move
            }
            &&& fb.last_move_capture == (captured is Some)
            &&& fb.turn == gb.turn.spec_flip()
            &&& fb.white_time == gb.white_time
            &&& fb.black_time == gb.black_time
            &&& fb.white_sp == gb.white_sp
            &&& fb.black_sp == gb.black_sp
            &&& fb.last_time_sum == time_sum(gb)
            &&& fb.last_move@ == spec_square_text(src) + "-"@ + spec_square_text(tgt)
            &&& side_of(fb.board) == side_of(gb.board).spec_flip()
            &&& fin == spec_mate_by(fb.board, moved, tgt, m.color)
        }
    }
}

/// The board a move names, as the entry synchronization left it.
pub open spec fn synced_board(s: SyncOut, m: MoveDesc) -> ChessGame {
    if m.board == 1 {
        s.g0
    } else {
        s.g1
    }
}

/// The other board, as the entry synchronization left it.
pub open spec fn synced_other(s: SyncOut, m: MoveDesc) -> ChessGame {
    if m.board == 1 {
        s.g1
    } else {
        s.g0
    }
}

/// The board a move names, in the state after the move.
pub open spec fn board_after(t: TandemGame, m: MoveDesc) -> ChessGame {
    if m.board == 1 {
        t.games@[0]
    } else {
        t.games@[1]
    }
}

/// The other board, in the state after the move.
pub open spec fn other_after(t: TandemGame, m: MoveDesc) -> ChessGame {
    if m.board == 1 {
        t.games@[1]
    } else {
        t.games@[0]
    }
}

/// Everything an accepted move guarantees.
pub open spec fn accept_post(t0: TandemGame, now: int, m: MoveDesc, t1: TandemGame) -> bool {
    let s = sync_tandem(t0, now);
    &&& !s.finished
    &&& (m.board == 1 || m.board == 2)
    &&& t1.started
    &&& t1.games@.len() == 2
    &&& t1.last_sync == s.last_sync
    &&& spec_parse_square(m.target) is Some
    &&& {
        let tgt = spec_parse_square(m.target).unwrap();
        let gb = synced_board(s, m);
        let go = synced_other(s, m);
        let fb = board_after(t1, m);
        let fo = other_after(t1, m);
        &&& side_of(gb.board) == m.color
        &&& (board_occ(gb.board).dom().contains(tgt.ix()) ==> board_occ(gb.board)[tgt.ix()].0
            != Piece::King)
        &&& if m.source == "spare"@ {
            drop_post(gb, go, m, tgt, fb, fo, t1.finished)
        } else {
            normal_post(gb, go, m, tgt, fb, fo, t1.finished)
        }
    }
}

/// A move on which acceptance is owed: a normal move, not a promotion, on
/// a live game, with the right side to move, a clean target and the
/// oracle's blessing. Everything else that could still reject — a drop's
/// placement, a promotion's source — is decided by the oracle along the
/// way; here nothing is left to decide.
pub open spec fn plain_move_accepted(t0: TandemGame, now: int, m: MoveDesc) -> bool {
    let s = sync_tandem(t0, now);
    &&& !s.finished
    &&& (m.board == 1 || m.board == 2)
    &&& m.source != "spare"@
    &&& spec_parse_square(m.target) is Some
    &&& spec_parse_square(m.source) is Some
    &&& {
        let tgt = spec_parse_square(m.target).unwrap();
        let src = spec_parse_square(m.source).unwrap();
        let gb = synced_board(s, m);
        &&& side_of(gb.board) == m.color
        &&& (board_occ(gb.board).dom().contains(tgt.ix()) ==> board_occ(gb.board)[tgt.ix()].0
            != Piece::King)
        &&& board_occ(gb.board).dom().contains(src.ix())
        &&& !(board_occ(gb.board)[src.ix()].0 == Piece::Pawn && (tgt.rank == 0 || tgt.rank == 7))
        &&& legal_of(gb.board, src.ix(), tgt.ix(), None)
    }
}

/// A cross-board promotion on which acceptance is owed: a live game, the
/// right side to move, a pawn bound for a back rank, a promotion source of
/// the mover's color on the other board, the oracle's blessing on the move,
/// and a removal the oracle accepts that leaves no check behind.
pub open spec fn plain_promotion_accepted(t0: TandemGame, now: int, m: MoveDesc) -> bool {
    let s = sync_tandem(t0, now);
    &&& !s.finished
    &&& (m.board == 1 || m.board == 2)
    &&& m.source != "spare"@
    &&& spec_parse_square(m.target) is Some
    &&& spec_parse_square(m.source) is Some
    &&& spec_parse_square(m.promotion) is Some
    &&& {
        let tgt = spec_parse_square(m.target).unwrap();
        let src = spec_parse_square(m.source).unwrap();
        let psq = spec_parse_square(m.promotion).unwrap();
        let gb = synced_board(s, m);
        let go = synced_other(s, m);
        &&& side_of(gb.board) == m.color
        &&& (board_occ(gb.board).dom().contains(tgt.ix()) ==> board_occ(gb.board)[tgt.ix()].0
            != Piece::King)
        &&& board_occ(gb.board).dom().contains(src.ix())
        &&& board_occ(gb.board)[src.ix()].0 == Piece::Pawn
        &&& (tgt.rank == 0 || tgt.rank == 7)
        &&& board_occ(go.board).dom().contains(psq.ix())
        &&& board_occ(go.board)[psq.ix()].1 == m.color
        &&& legal_of(gb.board, src.ix(), tgt.ix(), Some(board_occ(go.board)[psq.ix()].0))
        &&& clear_ok_of(go.board, psq.ix())
        &&& !in_check_of(cleared_of(go.board, psq.ix()))
    }
}

/// A drop on which acceptance is owed: a live game, the right side to
/// move, and a drop [`drop_allowed`] on the named board.
pub open spec fn plain_drop_accepted(t0: TandemGame, now: int, m: MoveDesc) -> bool {
    let s = sync_tandem(t0, now);
    &&& !s.finished
    &&& (m.board == 1 || m.board == 2)
    &&& m.source == "spare"@
    &&& spec_parse_square(m.target) is Some
    &&& side_of(synced_board(s, m).board) == m.color
    &&& drop_allowed(synced_board(s, m), m.piece, spec_parse_square(m.target).unwrap())
}

/// The contract of a move submission: after the entry synchronization, a
/// finished game accepts nothing, a rejection changes nothing further, an
/// acceptance changes exactly what [`accept_post`] says, and no plain
/// legal move, allowed drop, or well-sourced promotion is ever rejected.
pub open spec fn move_post(t0: TandemGame, now: int, m: MoveDesc, t1: TandemGame, r: bool) -> bool {
    let s = sync_tandem(t0, now);
    &&& (s.finished ==> !r)
    &&& (!r ==> sync_post(t0, now, t1))
    &&& (r ==> accept_post(t0, now, m, t1))
    &&& (plain_move_accepted(t0, now, m) ==> r)
    &&& (plain_drop_accepted(t0, now, m) ==> r)
    &&& (plain_promotion_accepted(t0, now, m) ==> r)
}

/// The snapshot document sent to clients: the caller's validity verdict and
/// both boards.
pub open spec fn json_of_tandem(t: TandemGame, valid: bool) -> Seq<char> {
    "{\"valid\":"@ + spec_bool_text(valid) + ",\"board_1\":"@ + json_of_game(t.games@[0])
        + ",\"board_2\":"@ + json_of_game(t.games@[1]) + "}"@
}

impl TandemGame {
    /// Two well-formed boards, a nonnegative synchronization stamp, and
    /// untouched clocks while the game has not started.
    pub open spec fn wf(&self) -> bool {
        &&& self.games@.len() == 2
        &&& self.games@[0].wf()
        &&& self.games@[1].wf()
        &&& self.last_sync >= 0
        &&& !self.started ==> {
            &&& self.games@[0].white_time == START_TIME_MS
            &&& self.games@[0].black_time == START_TIME_MS
            &&& self.games@[1].white_time == START_TIME_MS
            &&& self.games@[1].black_time == START_TIME_MS
            &&& self.last_sync == 0
        }
    }

    /// A game as `new` makes it.
    pub open spec fn is_fresh(&self) -> bool {
        &&& self.games@.len() == 2
        &&& self.games@[0].is_fresh()
        &&& self.games@[1].is_fresh()
        &&& !self.started
        &&& !self.finished
        &&& self.last_sync == 0
    }

    pub fn new() -> (r: Self)
        ensures
            r.wf(),
            r.is_fresh(),
    {
        let mut games: Vec<ChessGame> = Vec::new();
        games.push(ChessGame::new());
        games.push(ChessGame::new());
        TandemGame { games, started: false, finished: false, last_sync: 0 }
    }

    /// Back to a fresh game, whatever happened before.
    pub fn reset(&mut self)
        ensures
            final(self).wf(),
            final(self).is_fresh(),
    {
        let mut games: Vec<ChessGame> = Vec::new();
        games.push(ChessGame::new());
        games.push(ChessGame::new());
        self.games = games;
        self.started = false;
        self.finished = false;
        self.last_sync = 0;
    }

    /// The snapshot for clients; `valid` is the caller's verdict on the
    /// event that triggered it.
    pub fn get_fen(&self, valid: bool) -> (r: String)
        requires
            self.wf(),
        ensures
            r@ == json_of_tandem(*self, valid),
    {
        let mut r = String::from_str("{\"valid\":");
        r.append(bool_text(valid));
        r.append(",\"board_1\":");
        r.append(self.games[0].to_string().as_str());
        r.append(",\"board_2\":");
        r.append(self.games[1].to_string().as_str());
        r.append("}");
        proof {
            assert(r@ =~= json_of_tandem(*self, valid));
        }
        r
    }

    /// Synchronize both clocks against the wall time `now`.
    pub fn synchronize_time_at(&mut self, now: i64)
        requires
            old(self).wf(),
            now >= 0,
        ensures
            final(self).wf(),
            sync_post(*old(self), now as int, *final(self)),
            old(self).finished ==> final(self).finished,
    {
        if !self.started {
            return ;
        }
        if self.last_sync == 0 {
            self.last_sync = now;
        }
        let time_dif: i64 = if now > self.last_sync {
            now - self.last_sync
        } else {
            0
        };
        self.last_sync = now;
        let flagged0 = {
            let g = &mut self.games[0];
            g.synchronize_time(time_dif);
            g.flagged()
        };
        let flagged1 = {
            let g = &mut self.games[1];
            g.synchronize_time(time_dif);
            g.flagged()
        };
        if flagged0 || flagged1 {
            self.finished = true;
        }
    }

    /// Synchronize both clocks against the wall clock now.
    pub fn synchronize_time(&mut self)
        requires
            old(self).wf(),
        ensures
            final(self).wf(),
            exists|now: int| #![auto] now >= 0 && sync_post(*old(self), now, *final(self)),
            old(self).finished ==> final(self).finished,
    {
        let t = now_ms();
        let t: i64 = if t < 0 {
            0
        } else {
            t
        };
        self.synchronize_time_at(t);
    }

    /// Synchronize at `now`, then report whether either board's clock
    /// readout moved since the last poll. Nothing is reported once
    /// finished.
    pub fn should_update_at(&mut self, now: i64) -> (r: bool)
        requires
            old(self).wf(),
            now >= 0,
        ensures
            final(self).wf(),
            should_update_post(*old(self), now as int, *final(self)),
            r == spec_should_update_ret(*old(self), now as int),
            old(self).finished ==> final(self).finished,
    {
        if self.finished {
            return false;
        }
        self.synchronize_time_at(now);
        let a = {
            let g = &mut self.games[0];
            g.should_update()
        };
        let b = {
            let g = &mut self.games[1];
            g.should_update()
        };
        a || b
    }

    /// Play a normal move on board `b_ind`, everything after the shared
    /// preconditions: source lookup, promotion sourcing, legality, capture
    /// crediting, the commit, and the mate latch. Nothing changes on
    /// failure.
    #[verifier::rlimit(100)]
    fn move_normal(&mut self, tandem_move: &TandemMove, b_ind: usize, target: Square) -> (r: bool)
        requires
            old(self).wf(),
            !old(self).finished,
            b_ind <= 1,
            target.wf(),
            spec_parse_square(tandem_move@.target) == Some(target),
            board_occ(old(self).games@[b_ind as int].board).dom().contains(target.ix())
                ==> board_occ(old(self).games@[b_ind as int].board)[target.ix()].0 != Piece::King,
        ensures
            final(self).wf(),
            final(self).games@.len() == 2,
            final(self).started == old(self).started,
            final(self).last_sync == old(self).last_sync,
            !r ==> *final(self) == *old(self),
            r ==> normal_post(
                old(self).games@[b_ind as int],
                old(self).games@[1 - b_ind as int],
                tandem_move@,
                target,
                final(self).games@[b_ind as int],
                final(self).games@[1 - b_ind as int],
                final(self).finished,
            ),
            ({
                let gb = old(self).games@[b_ind as int];
                let src = spec_parse_square(tandem_move@.source);
                &&& src is Some
                &&& board_occ(gb.board).dom().contains(src.unwrap().ix())
                &&& !(board_occ(gb.board)[src.unwrap().ix()].0 == Piece::Pawn && (target.rank == 0
                    || target.rank == 7))
                &&& legal_of(gb.board, src.unwrap().ix(), target.ix(), None)
            }) ==> r,
            ({
                let gb = old(self).games@[b_ind as int];
                let go = old(self).games@[1 - b_ind as int];
                let src = spec_parse_square(tandem_move@.source);
                let psq = spec_parse_square(tandem_move@.promotion);
                &&& src is Some
                &&& psq is Some
                &&& board_occ(gb.board).dom().contains(src.unwrap().ix())
                &&& board_occ(gb.board)[src.unwrap().ix()].0 == Piece::Pawn
                &&& (target.rank == 0 || target.rank == 7)
                &&& board_occ(go.board).dom().contains(psq.unwrap().ix())
                &&& board_occ(go.board)[psq.unwrap().ix()].1 == tandem_move@.color
                &&& legal_of(
                    gb.board,
                    src.unwrap().ix(),
                    target.ix(),
                    Some(board_occ(go.board)[psq.unwrap().ix()].0),
                )
                &&& clear_ok_of(go.board, psq.unwrap().ix())
                &&& !in_check_of(cleared_of(go.board, psq.unwrap().ix()))
            }) ==> r,
    {
        let o_ind: usize = 1 - b_ind;
        let board = self.games[b_ind].board;
        let other_board = self.games[o_ind].board;
        let source = match parse_square(tandem_move.source.as_str()) {
            Some(v) => v,
            None => {
                return false;
            },
        };
        let piece_source = match piece_on(&board, source) {
            Some(v) => v,
            None => {
                return false;
            },
        };
        let is_promotion = piece_source == Piece::Pawn && (target.rank == 0 || target.rank == 7);
        let promotion_target_op = parse_square(tandem_move.promotion.as_str());
        let mut promotion_piece_op: Option<Piece> = None;
        if is_promotion {
            match promotion_target_op {
                Some(v) => {
                    promotion_piece_op = piece_on(&other_board, v);
                    match color_on(&other_board, v) {
                        Some(c) => {
                            if c != tandem_move.color {
                                return false;
                            }
                        },
                        None => {
                            return false;
                        },
                    }
                },
                None => {},
            }
        }
        if !legal_move(&board, source, target, promotion_piece_op) {
            return false;
        }
        if is_promotion {
            let promotion_target = match promotion_target_op {
                Some(v) => v,
                None => {
                    return false;
                },
            };
            let board_other = match clear_square(&other_board, promotion_target) {
                Some(v) => v,
                None => {
                    return false;
                },
            };
            if !null_move_ok(&board_other) {
                return false;
            }
            let g = &mut self.games[o_ind];
            g.board = board_other;
            g.add_pawn(&tandem_move.color);
        }
        match piece_on(&board, target) {
            Some(v) => {
                {
                    let g = &mut self.games[o_ind];
                    g.add_piece(&tandem_move.color, v);
                }
                let g = &mut self.games[b_ind];
                g.last_move_capture(true);
            },
            None => {
                let g = &mut self.games[b_ind];
                g.last_move_capture(false);
            },
        }
        let mut mv = square_text(source);
        mv.append("-");
        mv.append(square_text(target).as_str());
        proof {
            assert(mv@ =~= spec_square_text(source) + "-"@ + spec_square_text(target));
        }
        let new_board = make_move(&board, source, target, promotion_piece_op);
        {
            let g = &mut self.games[b_ind];
            g.change_turn(mv);
            g.board = new_board;
        }
        if mate_by(&self.games[b_ind].board, piece_source, target, tandem_move.color) {
            self.finished = true;
        }
        true
    }

    /// Submit a move at wall time `now`. Returns whether it was accepted;
    /// a rejected move changes nothing beyond the entry clock
    /// synchronization.
    #[verifier::rlimit(100)]
    pub fn move_piece_at(&mut self, tandem_move: &TandemMove, now: i64) -> (r: bool)
        requires
            old(self).wf(),
            now >= 0,
        ensures
            final(self).wf(),
            move_post(*old(self), now as int, tandem_move@, *final(self), r),
            old(self).finished ==> !r && final(self).finished,
    {
        self.synchronize_time_at(now);
        if self.finished {
            return false;
        }
        if tandem_move.board < 1 || tandem_move.board > 2 {
            return false;
        }
        let b_ind: usize = (tandem_move.board - 1) as usize;
        let board = self.games[b_ind].board;
        if side_to_move(&board) != tandem_move.color {
            return false;
        }
        let target = match parse_square(tandem_move.target.as_str()) {
            Some(v) => v,
            None => {
                return false;
            },
        };
        match piece_on(&board, target) {
            Some(v) => {
                if v == Piece::King {
                    return false;
                }
            },
            None => {},
        }
        let spare_lit = String::from_str("spare");
        if tandem_move.source == spare_lit {
            let accepted = {
                let g = &mut self.games[b_ind];
                apply_drop(g, &tandem_move.piece, target)
            };
            if !accepted {
                return false;
            }
            self.started = true;
            return true;
        }
        let accepted = self.move_normal(tandem_move, b_ind, target);
        if !accepted {
            return false;
        }
        self.started = true;
        true
    }

    /// Submit a move against the wall clock.
    pub fn move_piece(&mut self, tandem_move: &TandemMove) -> (r: bool)
        requires
            old(self).wf(),
        ensures
            final(self).wf(),
            exists|now: int| #![auto]
                now >= 0 && move_post(*old(self), now, tandem_move@, *final(self), r),
            old(self).finished ==> !r && final(self).finished,
    {
        let t = now_ms();
        let t: i64 = if t < 0 {
            0
        } else {
            t
        };
        self.move_piece_at(tandem_move, t)
    }

    /// Poll against the wall clock.
    pub fn should_update(&mut self) -> (r: bool)
        requires
            old(self).wf(),
        ensures
            final(self).wf(),
            exists|now: int| #![auto]
                now >= 0 && should_update_post(*old(self), now, *final(self)) && r
                    == spec_should_update_ret(*old(self), now),
            old(self).finished ==> final(self).finished,
    {
        let t = now_ms();
        let t: i64 = if t < 0 {
            0
        } else {
            t
        };
        self.should_update_at(t)
    }
}

/// What a client frame asks for: the game reset, a move, or nothing.
pub enum Frame {
    Reset,
    Move(TandemMove),
    Ignore,
}

/// The ticker broadcasts after this many silent polls, as a heartbeat.
pub const HEARTBEAT_POLLS: u32 = 100;

/// Whether a ticker poll broadcasts: when the clock readout moved, or when
/// enough polls have gone by without a broadcast.
pub fn heartbeat_due(update: bool, polls_since_broadcast: u32) -> (r: bool)
    ensures
        r == (update || polls_since_broadcast >= HEARTBEAT_POLLS),
{
    update || polls_since_broadcast >= HEARTBEAT_POLLS
}

/// Classify a client frame: the literal reset command, a move line, or
/// noise to be ignored.
pub fn classify_frame(msg: String) -> (r: Frame)
    ensures
        match r {
            Frame::Reset => msg@ == "Reset Game"@,
            Frame::Move(m) => msg@ != "Reset Game"@ && spec_parse_move(msg@) == Some(m@),
            Frame::Ignore => msg@ != "Reset Game"@ && spec_parse_move(msg@) is None,
        },
{
    let reset = String::from_str("Reset Game");
    if msg == reset {
        return Frame::Reset;
    }
    match TandemMove::from_string(msg) {
        Some(m) => Frame::Move(m),
        None => Frame::Ignore,
    }
}

/// Printing a descriptor with a board the parser accepts and separator-free
/// fields, then parsing the line, yields the descriptor back.
pub proof fn lemma_move_line_round_trip(m: MoveDesc)
    requires
        m.board == 1 || m.board == 2,
        semi_free(m.source),
        semi_free(m.target),
        semi_free(m.piece),
        semi_free(m.promotion),
    ensures
        spec_parse_move(spec_move_line(m)) == Some(m),
{
    reveal_strlit(";");
    reveal_strlit("W");
    reveal_strlit("B");
    let ct = if m.color is White {
        "W"@
    } else {
        "B"@
    };
    assert(semi_free(ct));
    let d = dec_digits(m.board as int);
    assert(d =~= seq![digit_char(m.board as int)]);
    assert(semi_free(d));
    let tail3 = m.piece + seq![';'] + m.promotion;
    let tail2 = m.target + seq![';'] + tail3;
    let tail1 = m.source + seq![';'] + tail2;
    let tail0 = ct + seq![';'] + tail1;
    assert(spec_move_line(m) =~= d + seq![';'] + tail0);
    lemma_split_semi_sep(d, tail0);
    lemma_split_semi_sep(ct, tail1);
    lemma_split_semi_sep(m.source, tail2);
    lemma_split_semi_sep(m.target, tail3);
    lemma_split_semi_sep(m.piece, m.promotion);
    lemma_split_semi_free(m.promotion);
    let parts = split_semi(spec_move_line(m));
    assert(parts =~= seq![d, ct, m.source, m.target, m.piece, m.promotion]);
    lemma_parse_single_digit(m.board);
    assert(spec_parse_u8(parts[0]) == Some(m.board));
    if m.color is White {
        assert(parts[1] == "W"@);
    } else {
        assert(parts[1] != "W"@);
    }
    assert(spec_parse_move(spec_move_line(m)).unwrap() =~= m);
}

/// A tick poll refreshes both readouts, so a second poll with no
/// intervening time advance reports nothing.
pub proof fn lemma_should_update_idempotent(t: TandemGame, t2: TandemGame, now: int)
    requires
        t.wf(),
        should_update_post(t, now, t2),
    ensures
        spec_should_update_ret(t2, now) == false,
{
    if !t.finished && !t2.finished {
        let s = sync_tandem(t, now);
        let s2 = sync_tandem(t2, now);
        if t2.started {
            assert(s2.g0 == t2.games@[0]);
            assert(s2.g1 == t2.games@[1]);
        }
        assert(time_sum(refresh_sum(s.g0)) == time_sum(s.g0));
        assert(time_sum(refresh_sum(s.g1)) == time_sum(s.g1));
    }
}

/// Every fresh state shows clients the same snapshot: a reset game is
/// indistinguishable from a newly created one.
pub proof fn lemma_fresh_indistinguishable(t1: TandemGame, t2: TandemGame, valid: bool)
    requires
        t1.is_fresh(),
        t2.is_fresh(),
    ensures
        json_of_tandem(t1, valid) == json_of_tandem(t2, valid),
{
    assert(json_of_game(t1.games@[0]) == json_of_game(t2.games@[0]));
    assert(json_of_game(t1.games@[1]) == json_of_game(t2.games@[1]));
}

/// After any accepted move, the played board's turn has flipped.
pub proof fn lemma_accepted_move_flips_turn(t0: TandemGame, now: int, m: MoveDesc, t1: TandemGame)
    requires
        move_post(t0, now, m, t1, true),
    ensures
        board_after(t1, m).turn == synced_board(sync_tandem(t0, now), m).turn.spec_flip(),
{
}

/// A pawn can never be dropped on the first or the eighth rank; the
/// attempt changes nothing beyond the entry synchronization.
pub proof fn lemma_pawn_drop_on_back_rank_rejects(
    t0: TandemGame,
    now: int,
    m: MoveDesc,
    t1: TandemGame,
    r: bool,
    dc: Color,
)
    requires
        move_post(t0, now, m, t1, r),
        m.source == "spare"@,
        spec_parse_drop(m.piece) == Some((dc, Piece::Pawn)),
        spec_parse_square(m.target) is Some,
        spec_parse_square(m.target).unwrap().rank == 0 || spec_parse_square(
            m.target,
        ).unwrap().rank == 7,
    ensures
        !r,
        sync_post(t0, now, t1),
{
}

/// A drop the named inventory cannot pay for is rejected, and the
/// inventories stay as the entry synchronization left them.
pub proof fn lemma_drop_without_inventory_rejects(
    t0: TandemGame,
    now: int,
    m: MoveDesc,
    t1: TandemGame,
    r: bool,
    dc: Color,
    dp: Piece,
)
    requires
        move_post(t0, now, m, t1, r),
        m.source == "spare"@,
        spec_parse_drop(m.piece) == Some((dc, dp)),
        !spares_of(synced_board(sync_tandem(t0, now), m), dc).can_take(dp),
    ensures
        !r,
        sync_post(t0, now, t1),
{
}

/// An accepted drop never lands as the anti-cheese mate: a dropped knight
/// never mates at all, and a dropped piece standing beside the mated king
/// never mates either. A far-range mate by a dropped piece of long range
/// is the one mate a drop may deliver.
pub proof fn lemma_accepted_drop_never_mates(
    t0: TandemGame,
    now: int,
    m: MoveDesc,
    t1: TandemGame,
    dc: Color,
    dp: Piece,
)
    requires
        move_post(t0, now, m, t1, true),
        m.source == "spare"@,
        spec_parse_drop(m.piece) == Some((dc, dp)),
    ensures
        !spec_mate_by(board_after(t1, m).board, dp, spec_parse_square(m.target).unwrap(), dc),
        dp == Piece::Knight ==> status_of(board_after(t1, m).board) != BoardState::Checkmate,
{
}

/// A long-range drop mate is allowed: a paid-for drop whose placement the
/// oracle accepts is accepted even when the position it yields is
/// checkmate, as long as the dropped piece is no knight and stands at
/// Chebyshev distance at least two from the mated king.
pub proof fn lemma_long_range_drop_mate_allowed(
    t0: TandemGame,
    now: int,
    m: MoveDesc,
    t1: TandemGame,
    r: bool,
    dc: Color,
    dp: Piece,
)
    requires
        move_post(t0, now, m, t1, r),
        m.source == "spare"@,
        spec_parse_drop(m.piece) == Some((dc, dp)),
        spec_parse_square(m.target) is Some,
        ({
            let s = sync_tandem(t0, now);
            let gb = synced_board(s, m);
            let tgt = spec_parse_square(m.target).unwrap();
            &&& !s.finished
            &&& (m.board == 1 || m.board == 2)
            &&& side_of(gb.board) == m.color
            &&& !board_occ(gb.board).dom().contains(tgt.ix())
            &&& !(dp == Piece::Pawn && (tgt.rank == 0 || tgt.rank == 7))
            &&& place_ok_of(gb.board, dp, dc, tgt.ix())
            &&& spares_of(gb, dc).can_take(dp)
            &&& dp != Piece::Knight
            &&& ({
                let k = king_sq_of(place_of(gb.board, dp, dc, tgt.ix()), dc.spec_flip());
                k / 8 - tgt.rank as int > 1 || tgt.rank as int - k / 8 > 1 || k % 8
                    - tgt.file as int > 1 || tgt.file as int - k % 8 > 1
            })
        }),
    ensures
        r,
{
}

/// A capture hands exactly one piece of the captured kind to the opposing
/// color's inventory on the other board, and a king is never captured.
pub proof fn lemma_capture_feeds_the_other_board(
    t0: TandemGame,
    now: int,
    m: MoveDesc,
    t1: TandemGame,
    cap: Piece,
)
    requires
        move_post(t0, now, m, t1, true),
        m.source != "spare"@,
        ({
            let gb = synced_board(sync_tandem(t0, now), m);
            let tgt = spec_parse_square(m.target).unwrap();
            board_occ(gb.board).dom().contains(tgt.ix()) && board_occ(gb.board)[tgt.ix()].0 == cap
        }),
        spares_of(synced_other(sync_tandem(t0, now), m), m.color.spec_flip()).spec_count(cap)
            < i32::MAX,
    ensures
        cap != Piece::King,
        spares_of(other_after(t1, m), m.color.spec_flip()).spec_count(cap) == spares_of(
            synced_other(sync_tandem(t0, now), m),
            m.color.spec_flip(),
        ).spec_count(cap) + 1,
{
}

/// When either clock of either board reaches zero, the synchronization
/// latches `finished`, and a finished game accepts no further move on any
/// board.
pub proof fn lemma_flag_fall_finishes(
    t: TandemGame,
    now: int,
    m: MoveDesc,
    t1: TandemGame,
    r: bool,
)
    requires
        t.wf(),
        sync_tandem(t, now).g0.white_time == 0 || sync_tandem(t, now).g0.black_time == 0
            || sync_tandem(t, now).g1.white_time == 0 || sync_tandem(t, now).g1.black_time == 0,
        move_post(t, now, m, t1, r),
    ensures
        sync_tandem(t, now).finished,
        !r,
{
}

} // verus!
