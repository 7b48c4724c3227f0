//! One board of the tandem game: the oracle position plus the spare-piece
//! inventories, the two clocks, the turn tracker and the last-move metadata,
//! with the JSON serializer for the board's slice of a snapshot.

use vstd::prelude::*;
use vstd::string::StringExecFns;
use crate::oracle::{board_fen, fen_of, new_board, side_of, start_fen};
use crate::text::{bool_text, clock_text, dec_digits, spec_bool_text, spec_clock_text, u64_dec};
use crate::types::{Color, Piece};

verus! {

/// Both clocks start at five minutes.
pub const START_TIME_MS: i64 = 300_000;

/// The spares one side may drop on its board: pieces of its color captured
/// on the other board, one nonnegative count per droppable kind. Kings have
/// no slot.
#[derive(Clone, Copy, Debug, PartialEq, Eq, Structural)]
pub struct SpareInventory {
    pub queen: i32,
    pub rook: i32,
    pub bishop: i32,
    pub knight: i32,
    pub pawn: i32,
}

/// Increment a count, leaving a full slot alone.
pub open spec fn sat_inc(c: i32) -> i32 {
    if c < i32::MAX {
        (c + 1) as i32
    } else {
        c
    }
}

impl SpareInventory {
    pub open spec fn wf(&self) -> bool {
        self.queen >= 0 && self.rook >= 0 && self.bishop >= 0 && self.knight >= 0 && self.pawn
            >= 0
    }

    pub open spec fn empty() -> SpareInventory {
        SpareInventory { queen: 0, rook: 0, bishop: 0, knight: 0, pawn: 0 }
    }

    /// How many spares of a kind are held; kings never are.
    pub open spec fn spec_count(&self, p: Piece) -> int {
        match p {
            Piece::Queen => self.queen as int,
            Piece::Rook => self.rook as int,
            Piece::Bishop => self.bishop as int,
            Piece::Knight => self.knight as int,
            Piece::Pawn => self.pawn as int,
            Piece::King => 0,
        }
    }

    /// The inventory with one more spare of the given kind; kings are
    /// ignored.
    pub open spec fn spec_bump(self, p: Piece) -> SpareInventory {
        match p {
            Piece::Queen => SpareInventory { queen: sat_inc(self.queen), ..self },
            Piece::Rook => SpareInventory { rook: sat_inc(self.rook), ..self },
            Piece::Bishop => SpareInventory { bishop: sat_inc(self.bishop), ..self },
            Piece::Knight => SpareInventory { knight: sat_inc(self.knight), ..self },
            Piece::Pawn => SpareInventory { pawn: sat_inc(self.pawn), ..self },
            Piece::King => self,
        }
    }

    /// Whether a drop of the given kind can be paid for from this
    /// inventory.
    pub open spec fn can_take(self, p: Piece) -> bool {
        self.spec_count(p) > 0 && p != Piece::King
    }

    /// The inventory after paying for such a drop; unchanged if it cannot
    /// be paid.
    pub open spec fn spec_take(self, p: Piece) -> SpareInventory {
        if !self.can_take(p) {
            self
        } else {
            match p {
                Piece::Queen => SpareInventory { queen: (self.queen - 1) as i32, ..self },
                Piece::Rook => SpareInventory { rook: (self.rook - 1) as i32, ..self },
                Piece::Bishop => SpareInventory { bishop: (self.bishop - 1) as i32, ..self },
                Piece::Knight => SpareInventory { knight: (self.knight - 1) as i32, ..self },
                Piece::Pawn => SpareInventory { pawn: (self.pawn - 1) as i32, ..self },
                Piece::King => self,
            }
        }
    }

    fn bump(&mut self, p: Piece)
        ensures
            *final(self) == old(self).spec_bump(p),
    {
        match p {
            Piece::Queen => {
                if self.queen < i32::MAX {
                    self.queen = self.queen + 1;
                }
            },
            Piece::Rook => {
                if self.rook < i32::MAX {
                    self.rook = self.rook + 1;
                }
            },
            Piece::Bishop => {
                if self.bishop < i32::MAX {
                    self.bishop = self.bishop + 1;
                }
            },
            Piece::Knight => {
                if self.knight < i32::MAX {
                    self.knight = self.knight + 1;
                }
            },
            Piece::Pawn => {
                if self.pawn < i32::MAX {
                    self.pawn = self.pawn + 1;
                }
            },
            Piece::King => {},
        }
    }

    fn take(&mut self, p: Piece) -> (r: bool)
        ensures
            r == old(self).can_take(p),
            *final(self) == old(self).spec_take(p),
    {
        match p {
            Piece::Queen => {
                if self.queen > 0 {
                    self.queen = self.queen - 1;
                    true
                } else {
                    false
                }
            },
            Piece::Rook => {
                if self.rook > 0 {
                    self.rook = self.rook - 1;
                    true
                } else {
                    false
                }
            },
            Piece::Bishop => {
                if self.bishop > 0 {
                    self.bishop = self.bishop - 1;
                    true
                } else {
                    false
                }
            },
            Piece::Knight => {
                if self.knight > 0 {
                    self.knight = self.knight - 1;
                    true
                } else {
                    false
                }
            },
            Piece::Pawn => {
                if self.pawn > 0 {
                    self.pawn = self.pawn - 1;
                    true
                } else {
                    false
                }
            },
            Piece::King => false,
        }
    }
}

pub struct ChessGame {
    /// The oracle's position.
    pub board: chess::Board,
    /// Spares White may drop here.
    pub white_sp: SpareInventory,
    /// Spares Black may drop here.
    pub black_sp: SpareInventory,
    /// Remaining time of White, milliseconds.
    pub white_time: i64,
    /// Remaining time of Black, milliseconds.
    pub black_time: i64,
    /// Whose clock runs.
    pub turn: Color,
    /// Whether the last move on this board captured, for the front end.
    pub last_move_capture: bool,
    /// The truncated-seconds sum at the last `should_update` call.
    pub last_time_sum: i64,
    /// Printable last move, `src-dst` or empty.
    pub last_move: String,
}

/// Ceiling seconds of a millisecond reading.
pub open spec fn ceil_secs(ms: int) -> int {
    (ms + 999) / 1000
}

/// The broadcast trigger value: both clocks in ceiling seconds, summed.
pub open spec fn time_sum(g: ChessGame) -> int {
    ceil_secs(g.white_time as int) + ceil_secs(g.black_time as int)
}

/// The state after a clock debit of `dt` against the running side.
pub open spec fn sync_game(g: ChessGame, dt: int) -> ChessGame {
    match g.turn {
        Color::White => ChessGame {
            white_time: (if g.white_time > dt {
                g.white_time - dt
            } else {
                0
            }) as i64,
            ..g
        },
        Color::Black => ChessGame {
            black_time: (if g.black_time > dt {
                g.black_time - dt
            } else {
                0
            }) as i64,
            ..g
        },
    }
}

impl ChessGame {
    /// Clocks nonnegative and bounded by their start value, nonnegative
    /// spare counts, and a sum readout in range.
    pub open spec fn wf(&self) -> bool {
        &&& 0 <= self.white_time <= START_TIME_MS
        &&& 0 <= self.black_time <= START_TIME_MS
        &&& 0 <= self.last_time_sum <= 600
        &&& self.white_sp.wf()
        &&& self.black_sp.wf()
    }

    /// A board as `new` makes it: start position, empty spares, full
    /// clocks, White to move, no last move.
    pub open spec fn is_fresh(&self) -> bool {
        &&& fen_of(self.board) == start_fen()
        &&& side_of(self.board) == Color::White
        &&& self.white_sp == SpareInventory::empty()
        &&& self.black_sp == SpareInventory::empty()
        &&& self.white_time == START_TIME_MS
        &&& self.black_time == START_TIME_MS
        &&& self.turn == Color::White
        &&& self.last_move_capture == false
        &&& self.last_time_sum == 0
        &&& self.last_move@ == Seq::<char>::empty()
    }

    pub fn new() -> (r: Self)
        ensures
            r.is_fresh(),
            r.wf(),
    {
        ChessGame {
            board: new_board(),
            white_sp: SpareInventory { queen: 0, rook: 0, bishop: 0, knight: 0, pawn: 0 },
            black_sp: SpareInventory { queen: 0, rook: 0, bishop: 0, knight: 0, pawn: 0 },
            white_time: START_TIME_MS,
            black_time: START_TIME_MS,
            turn: Color::White,
            last_move_capture: false,
            last_time_sum: 0,
            last_move: String::new(),
        }
    }

    /// Record whether the last move captured.
    pub fn last_move_capture(&mut self, capture: bool)
        ensures
            *final(self) == (ChessGame { last_move_capture: capture, ..*old(self) }),
    {
        self.last_move_capture = capture;
    }

    /// Either clock has run out.
    pub fn flagged(&self) -> (r: bool)
        ensures
            r == (self.white_time == 0 || self.black_time == 0),
    {
        self.white_time == 0 || self.black_time == 0
    }

    /// Recompute the truncated-seconds sum; report whether it changed since
    /// the last call.
    pub fn should_update(&mut self) -> (r: bool)
        requires
            old(self).wf(),
        ensures
            final(self).wf(),
            *final(self) == (ChessGame {
                last_time_sum: time_sum(*old(self)) as i64,
                ..*old(self)
            }),
            r == (old(self).last_time_sum != time_sum(*old(self))),
    {
        let old_time_sum = self.last_time_sum;
        let w: u64 = self.white_time as u64;
        let b: u64 = self.black_time as u64;
        let sum: u64 = (w + 999) / 1000 + (b + 999) / 1000;
        self.last_time_sum = sum as i64;
        old_time_sum != self.last_time_sum
    }

    /// Debit the running side's clock, clamping at zero.
    pub fn synchronize_time(&mut self, time_diff: i64)
        requires
            old(self).wf(),
            time_diff >= 0,
        ensures
            final(self).wf(),
            *final(self) == sync_game(*old(self), time_diff as int),
    {
        match self.turn {
            Color::White => {
                self.white_time = if self.white_time > time_diff {
                    self.white_time - time_diff
                } else {
                    0
                };
            },
            Color::Black => {
                self.black_time = if self.black_time > time_diff {
                    self.black_time - time_diff
                } else {
                    0
                };
            },
        }
    }

    /// Flip the turn, record the printable move, and refresh the sum
    /// readout so the next tick re-broadcasts only on a real change.
    pub fn change_turn(&mut self, chess_move: String)
        requires
            old(self).wf(),
        ensures
            final(self).wf(),
            *final(self) == (ChessGame {
                turn: old(self).turn.spec_flip(),
                last_move: chess_move,
                last_time_sum: time_sum(*old(self)) as i64,
                ..*old(self)
            }),
    {
        self.turn = self.turn.flip();
        self.last_move = chess_move;
        let _ = self.should_update();
    }

    /// A capture by `color` on the other board: the opposing side here
    /// gains a spare of the captured kind. Kings are silently ignored.
    pub fn add_piece(&mut self, color: &Color, piece: Piece)
        ensures
            *final(self) == spec_add_piece(*old(self), *color, piece),
    {
        match color {
            Color::Black => self.white_sp.bump(piece),
            Color::White => self.black_sp.bump(piece),
        }
    }

    /// A consumed cross-board promotion returns a pawn to `color`'s spares
    /// here.
    pub fn add_pawn(&mut self, color: &Color)
        ensures
            *final(self) == spec_add_pawn(*old(self), *color),
    {
        match color {
            Color::White => self.white_sp.bump(Piece::Pawn),
            Color::Black => self.black_sp.bump(Piece::Pawn),
        }
    }

    /// Take one spare of the given kind from `color`'s inventory; report
    /// whether one was there. Kings always fail.
    pub fn decrease_count(&mut self, color: &Color, piece: Piece) -> (r: bool)
        ensures
            r == spares_of(*old(self), *color).can_take(piece),
            *final(self) == spec_decrease(*old(self), *color, piece),
    {
        match color {
            Color::White => self.white_sp.take(piece),
            Color::Black => self.black_sp.take(piece),
        }
    }
}

/// The inventory of `color` on this board.
pub open spec fn spares_of(g: ChessGame, color: Color) -> SpareInventory {
    match color {
        Color::White => g.white_sp,
        Color::Black => g.black_sp,
    }
}

/// The state after a capture by `color` on the other board is credited
/// here: the mirror color's inventory grows.
pub open spec fn spec_add_piece(g: ChessGame, color: Color, piece: Piece) -> ChessGame {
    match color {
        Color::Black => ChessGame { white_sp: g.white_sp.spec_bump(piece), ..g },
        Color::White => ChessGame { black_sp: g.black_sp.spec_bump(piece), ..g },
    }
}

/// The state after a returned pawn is credited to `color`.
pub open spec fn spec_add_pawn(g: ChessGame, color: Color) -> ChessGame {
    match color {
        Color::White => ChessGame { white_sp: g.white_sp.spec_bump(Piece::Pawn), ..g },
        Color::Black => ChessGame { black_sp: g.black_sp.spec_bump(Piece::Pawn), ..g },
    }
}

/// The state after a spare of the given kind leaves `color`'s inventory, if
/// one was there.
pub open spec fn spec_decrease(g: ChessGame, color: Color, piece: Piece) -> ChessGame {
    match color {
        Color::White => ChessGame { white_sp: g.white_sp.spec_take(piece), ..g },
        Color::Black => ChessGame { black_sp: g.black_sp.spec_take(piece), ..g },
    }
}

/// JSON array of the five counts of an inventory, queen first.
pub open spec fn json_counts(inv: SpareInventory) -> Seq<char> {
    "["@ + dec_digits(inv.queen as int) + ","@ + dec_digits(inv.rook as int) + ","@ + dec_digits(
        inv.bishop as int,
    ) + ","@ + dec_digits(inv.knight as int) + ","@ + dec_digits(inv.pawn as int) + "]"@
}

fn counts_text(inv: &SpareInventory) -> (r: String)
    requires
        inv.wf(),
    ensures
        r@ == json_counts(*inv),
{
    let mut r = String::from_str("[");
    r.append(u64_dec(inv.queen as u64).as_str());
    r.append(",");
    r.append(u64_dec(inv.rook as u64).as_str());
    r.append(",");
    r.append(u64_dec(inv.bishop as u64).as_str());
    r.append(",");
    r.append(u64_dec(inv.knight as u64).as_str());
    r.append(",");
    r.append(u64_dec(inv.pawn as u64).as_str());
    r.append("]");
    proof {
        assert(r@ =~= json_counts(*inv));
    }
    r
}

/// The JSON object a board contributes to a snapshot: FEN, capture flag,
/// both spare vectors, both clock readouts, and the printable last move.
pub open spec fn json_of_game(g: ChessGame) -> Seq<char> {
    "{\"fen\":\""@ + fen_of(g.board) + "\",\"last_move_capture\":"@ + spec_bool_text(
        g.last_move_capture,
    ) + ",\"white_sp\":"@ + json_counts(g.white_sp) + ",\"black_sp\":"@ + json_counts(g.black_sp)
        + ",\"white_time\":\""@ + spec_clock_text(g.white_time as int) + "\",\"black_time\":\""@
        + spec_clock_text(g.black_time as int) + "\",\"last_move\":\""@ + g.last_move@ + "\"}"@
}

impl ChessGame {
    /// Serialize this board's slice of a snapshot.
    pub fn to_string(&self) -> (r: String)
        requires
            self.wf(),
        ensures
            r@ == json_of_game(*self),
    {
        let mut r = String::from_str("{\"fen\":\"");
        r.append(board_fen(&self.board).as_str());
        r.append("\",\"last_move_capture\":");
        r.append(bool_text(self.last_move_capture));
        r.append(",\"white_sp\":");
        r.append(counts_text(&self.white_sp).as_str());
        r.append(",\"black_sp\":");
        r.append(counts_text(&self.black_sp).as_str());
        r.append(",\"white_time\":\"");
        r.append(clock_text(self.white_time).as_str());
        r.append("\",\"black_time\":\"");
        r.append(clock_text(self.black_time).as_str());
        r.append("\",\"last_move\":\"");
        r.append(self.last_move.as_str());
        r.append("\"}");
        proof {
            assert(r@ =~= json_of_game(*self));
        }
        r
    }
}

} // verus!
