//! Plain data the game logic works on: sides, piece kinds, board status and
//! squares, together with the algebraic-square notation.

use vstd::prelude::*;
use vstd::string::StrSliceExecFns;
use vstd::string::StringExecFns;

verus! {

/// The two sides of a chess game.
#[derive(Clone, Copy, Debug, PartialEq, Eq, Structural)]
pub enum Color {
    White,
    Black,
}

impl Color {
    /// The opposing side.
    pub open spec fn spec_flip(self) -> Color {
        match self {
            Color::White => Color::Black,
            Color::Black => Color::White,
        }
    }

    pub fn flip(self) -> (r: Color)
        ensures
            r == self.spec_flip(),
    {
        match self {
            Color::White => Color::Black,
            Color::Black => Color::White,
        }
    }
}

/// A chess piece kind. Kings are immortal: they are never captured and never
/// enter a spare inventory.
#[derive(Clone, Copy, Debug, PartialEq, Eq, Structural)]
pub enum Piece {
    Pawn,
    Knight,
    Bishop,
    Rook,
    Queen,
    King,
}

/// What the chess oracle reports of a position: play goes on, or the side to
/// move has no legal move (mated if in check, stalemated if not).
#[derive(Clone, Copy, Debug, PartialEq, Eq, Structural)]
pub enum BoardState {
    Ongoing,
    Stalemate,
    Checkmate,
}

/// A board square, file `a`..`h` stored as 0..7 and rank `1`..`8` stored as
/// 0..7.
#[derive(Clone, Copy, Debug, PartialEq, Eq, Structural)]
pub struct Square {
    pub file: u8,
    pub rank: u8,
}

impl Square {
    pub open spec fn wf(self) -> bool {
        self.file < 8 && self.rank < 8
    }

    /// Index of the square in 0..64, rank-major as the oracle counts them.
    pub open spec fn ix(self) -> int {
        self.rank as int * 8 + self.file as int
    }
}

/// Algebraic notation: the first character names a file `a`..`h`, the second
/// a rank `1`..`8`. Longer strings are accepted and the tail is ignored;
/// anything shorter or out of range is no square.
pub open spec fn spec_parse_square(s: Seq<char>) -> Option<Square> {
    if s.len() >= 2 && 'a' as int <= s[0] as int <= 'h' as int && '1' as int <= s[1] as int
        <= '8' as int {
        Some(
            Square {
                file: (s[0] as int - 'a' as int) as u8,
                rank: (s[1] as int - '1' as int) as u8,
            },
        )
    } else {
        None
    }
}

pub fn parse_square(s: &str) -> (r: Option<Square>)
    ensures
        r == spec_parse_square(s@),
        r is Some ==> r.unwrap().wf(),
{
    let n = s.unicode_len();
    if n < 2 {
        return None;
    }
    let c0 = s.get_char(0) as u32;
    let c1 = s.get_char(1) as u32;
    if 97 <= c0 && c0 <= 104 && 49 <= c1 && c1 <= 56 {
        Some(Square { file: (c0 - 97) as u8, rank: (c1 - 49) as u8 })
    } else {
        None
    }
}

/// Character naming a file in 0..8.
pub open spec fn file_char(f: int) -> char {
    if f == 0 {
        'a'
    } else if f == 1 {
        'b'
    } else if f == 2 {
        'c'
    } else if f == 3 {
        'd'
    } else if f == 4 {
        'e'
    } else if f == 5 {
        'f'
    } else if f == 6 {
        'g'
    } else {
        'h'
    }
}

/// Character naming a rank in 0..8.
pub open spec fn rank_char(r: int) -> char {
    if r == 0 {
        '1'
    } else if r == 1 {
        '2'
    } else if r == 2 {
        '3'
    } else if r == 3 {
        '4'
    } else if r == 4 {
        '5'
    } else if r == 5 {
        '6'
    } else if r == 6 {
        '7'
    } else {
        '8'
    }
}

/// The two-character algebraic name of a square.
pub open spec fn spec_square_text(sq: Square) -> Seq<char> {
    seq![file_char(sq.file as int), rank_char(sq.rank as int)]
}

fn file_str(f: u8) -> (r: &'static str)
    requires
        f < 8,
    ensures
        r@ == seq![file_char(f as int)],
{
    proof {
        reveal_strlit("a");
        reveal_strlit("b");
        reveal_strlit("c");
        reveal_strlit("d");
        reveal_strlit("e");
        reveal_strlit("f");
        reveal_strlit("g");
        reveal_strlit("h");
    }
    let r = match f {
        0 => "a",
        1 => "b",
        2 => "c",
        3 => "d",
        4 => "e",
        5 => "f",
        6 => "g",
        _ => "h",
    };
    proof {
        assert(r@ =~= seq![file_char(f as int)]);
    }
    r
}

fn rank_str(r: u8) -> (s: &'static str)
    requires
        r < 8,
    ensures
        s@ == seq![rank_char(r as int)],
{
    proof {
        reveal_strlit("1");
        reveal_strlit("2");
        reveal_strlit("3");
        reveal_strlit("4");
        reveal_strlit("5");
        reveal_strlit("6");
        reveal_strlit("7");
        reveal_strlit("8");
    }
    let s = match r {
        0 => "1",
        1 => "2",
        2 => "3",
        3 => "4",
        4 => "5",
        5 => "6",
        6 => "7",
        _ => "8",
    };
    proof {
        assert(s@ =~= seq![rank_char(r as int)]);
    }
    s
}

/// Render a square back to its algebraic name.
pub fn square_text(sq: Square) -> (r: String)
    requires
        sq.wf(),
    ensures
        r@ == spec_square_text(sq),
{
    let mut r = String::new();
    r.append(file_str(sq.file));
    r.append(rank_str(sq.rank));
    proof {
        assert(r@ =~= spec_square_text(sq));
    }
    r
}

} // verus!
