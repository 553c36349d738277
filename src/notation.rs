use rand::Rng;
use vstd::prelude::*;

verus! {

/// A square of the board: `x` is the file (0 for 'a' up to 7 for 'h'),
/// `y` the rank (0 for '1' up to 7 for '8').
#[derive(Clone, Copy, Debug, PartialEq, Eq, Structural)]
pub struct Point {
    pub x: usize,
    pub y: usize,
}

pub open spec fn is_file(c: char) -> bool {
    'a' <= c && c <= 'h'
}

pub open spec fn is_rank(c: char) -> bool {
    '1' <= c && c <= '8'
}

/// The square that a token names: exactly two characters, a file letter
/// then a rank digit.
pub open spec fn spec_point(t: Seq<char>) -> Option<Point> {
    if t.len() == 2 && is_file(t[0]) && is_rank(t[1]) {
        Some(Point { x: (t[0] as int - 'a' as int) as usize, y: (t[1] as int - '1' as int) as usize })
    } else {
        None
    }
}

impl Point {
    pub open spec fn valid(self) -> bool {
        self.x < 8 && self.y < 8
    }

    /// Reads a square such as `e4`.
    pub fn parse(input: &str) -> (r: Option<Point>)
        ensures
            r == spec_point(input@),
    {
        if input.unicode_len() != 2 {
            return None;
        }
        let f = input.get_char(0);
        let k = input.get_char(1);
        if f < 'a' || f > 'h' || k < '1' || k > '8' {
            None
        } else {
            Some(Point { x: (f as u32 - 'a' as u32) as usize, y: (k as u32 - '1' as u32) as usize })
        }
    }
}


/// The letters of the files, in order.
pub open spec fn file_letters() -> Seq<char> {
    "abcdefgh"@
}

/// The digits of the ranks, in order.
pub open spec fn rank_digits() -> Seq<char> {
    "12345678"@
}

/// The two characters that name a square.
pub open spec fn point_text(p: Point) -> Seq<char> {
    seq![file_letters()[p.x as int], rank_digits()[p.y as int]]
}

impl Point {
    /// Writes the square back in the notation that `parse` reads.
    pub fn to_text(&self) -> (r: String)
        requires
            self.valid(),
        ensures
            r@ == point_text(*self),
    {
        let files = "abcdefgh";
        let ranks = "12345678";
        proof {
            reveal_strlit("abcdefgh");
            reveal_strlit("12345678");
        }
        let mut r = String::from_str(files.substring_char(self.x, self.x + 1));
        r.append(ranks.substring_char(self.y, self.y + 1));
        assert(r@ =~= point_text(*self));
        r
    }
}

/// Every valid square reads back from its own text.
pub proof fn lemma_point_text_parses(p: Point)
    requires
        p.valid(),
    ensures
        spec_point(point_text(p)) == Some(p),
{
    reveal_strlit("abcdefgh");
    reveal_strlit("12345678");
}

/// Every text that reads as a square is written back exactly as it was.
pub proof fn lemma_point_round_trip(t: Seq<char>)
    requires
        spec_point(t) is Some,
    ensures
        spec_point(t)->Some_0.valid(),
        point_text(spec_point(t)->Some_0) == t,
{
    reveal_strlit("abcdefgh");
    reveal_strlit("12345678");
    assert(point_text(spec_point(t)->Some_0) =~= t);
}


/// A move from one square to another.
#[derive(Clone, Copy, Debug, PartialEq, Eq, Structural)]
pub struct Move {
    pub from: Point,
    pub to: Point,
}

/// The move that two tokens name, if both are squares.
pub open spec fn spec_move(from: Seq<char>, to: Seq<char>) -> Option<Move> {
    match (spec_point(from), spec_point(to)) {
        (Some(f), Some(t)) => Some(Move { from: f, to: t }),
        _ => None,
    }
}

impl Move {
    /// Reads a move from its two square tokens; fails if either is no square.
    pub fn parse(from: &str, to: &str) -> (r: Option<Move>)
        ensures
            r == spec_move(from@, to@),
    {
        match (Point::parse(from), Point::parse(to)) {
            (Some(f), Some(t)) => Some(Move { from: f, to: t }),
            _ => None,
        }
    }
}

/// The kinds of piece, as a promotion names them.
#[derive(Clone, Copy, Debug, PartialEq, Eq, Structural)]
pub enum Piece {
    King,
    Queen,
    Rook,
    Bishop,
    Knight,
    Pawn,
}

/// The piece that a token names: one upper-case letter, K Q R B N or P.
pub open spec fn spec_piece(t: Seq<char>) -> Option<Piece> {
    if t.len() != 1 {
        None
    } else if t[0] == 'K' {
        Some(Piece::King)
    } else if t[0] == 'Q' {
        Some(Piece::Queen)
    } else if t[0] == 'R' {
        Some(Piece::Rook)
    } else if t[0] == 'B' {
        Some(Piece::Bishop)
    } else if t[0] == 'N' {
        Some(Piece::Knight)
    } else if t[0] == 'P' {
        Some(Piece::Pawn)
    } else {
        None
    }
}

impl Piece {
    /// Reads a piece letter.
    pub fn parse(input: &str) -> (r: Option<Piece>)
        ensures
            r == spec_piece(input@),
    {
        if input.unicode_len() != 1 {
            return None;
        }
        let c = input.get_char(0);
        if c == 'K' {
            Some(Piece::King)
        } else if c == 'Q' {
            Some(Piece::Queen)
        } else if c == 'R' {
            Some(Piece::Rook)
        } else if c == 'B' {
            Some(Piece::Bishop)
        } else if c == 'N' {
            Some(Piece::Knight)
        } else if c == 'P' {
            Some(Piece::Pawn)
        } else {
            None
        }
    }
}

/// Whether two texts hold the same characters.
pub fn same_text(a: &str, b: &str) -> (r: bool)
    ensures
        r == (a@ == b@),
{
    let n = a.unicode_len();
    if n != b.unicode_len() {
        return false;
    }
    let mut i: usize = 0;
    while i < n
        invariant
            n == a@.len(),
            n == b@.len(),
            i <= n,
            a@.take(i as int) == b@.take(i as int),
        decreases n - i,
    {
        if a.get_char(i) != b.get_char(i) {
            assert(a@[i as int] != b@[i as int]);
            return false;
        }
        assert(a@.take(i + 1) =~= a@.take(i as int).push(a@[i as int]));
        assert(b@.take(i + 1) =~= b@.take(i as int).push(b@[i as int]));
        i = i + 1;
    }
    assert(a@ =~= a@.take(n as int));
    assert(b@ =~= b@.take(n as int));
    true
}

/// The tokens of a line, cut at every single space. Two spaces in a row
/// give an empty token between them; an empty line is one empty token.
pub open spec fn split_spaces(s: Seq<char>) -> Seq<Seq<char>>
    decreases s.len(),
{
    if s.len() == 0 {
        seq![Seq::empty()]
    } else {
        let prev = split_spaces(s.drop_last());
        if s.last() == ' ' {
            prev.push(Seq::empty())
        } else {
            prev.update(prev.len() - 1, prev.last().push(s.last()))
        }
    }
}

/// Cuts a line into its tokens.
pub fn split_words<'a>(input: &'a str) -> (r: Vec<&'a str>)
    ensures
        r@.map_values(|t: &str| t@) == split_spaces(input@),
{
    let n = input.unicode_len();
    let mut out: Vec<&'a str> = Vec::new();
    let mut start: usize = 0;
    let mut i: usize = 0;
    assert(input@.take(0) =~= Seq::<char>::empty());
    assert(out@.map_values(|t: &str| t@).push(input@.subrange(0, 0)) =~= split_spaces(input@.take(0)));
    while i < n
        invariant
            n == input@.len(),
            start <= i <= n,
            out@.map_values(|t: &str| t@).push(input@.subrange(start as int, i as int))
                == split_spaces(input@.take(i as int)),
        decreases n - i,
    {
        let c = input.get_char(i);
        let ghost before = out@;
        assert(input@.take(i + 1).drop_last() =~= input@.take(i as int));
        if c == ' ' {
            let w = input.substring_char(start, i);
            out.push(w);
            assert(out@.map_values(|t: &str| t@) =~= before.map_values(|t: &str| t@).push(w@));
            start = i + 1;
            assert(input@.subrange(start as int, i + 1) =~= Seq::<char>::empty());
        } else {
            assert(input@.subrange(start as int, i + 1) =~= input@.subrange(start as int, i as int).push(c));
        }
        i = i + 1;
        assert(out@.map_values(|t: &str| t@).push(input@.subrange(start as int, i as int))
            =~= split_spaces(input@.take(i as int)));
    }
    let w = input.substring_char(start, n);
    let ghost before = out@;
    out.push(w);
    assert(out@.map_values(|t: &str| t@) =~= before.map_values(|t: &str| t@).push(w@));
    assert(input@.take(n as int) =~= input@);
    out
}


/// What a line of input asks for, before any rule of chess is applied.
#[derive(Clone, Copy, Debug, PartialEq, Eq, Structural)]
pub enum MoveType {
    Basic(Move),
    EnPassant(Move),
    Promotion(Move, Piece),
    /// The king's move, then the rook's.
    Castling(Move, Move),
}

/// The move that a line of input names, dispatched on its number of tokens:
/// two squares; `enpassant` and two squares; `promote`, two squares and a
/// piece; `castle` and four squares. Anything else names no move.
pub open spec fn spec_parse(s: Seq<char>) -> Option<MoveType> {
    let w = split_spaces(s);
    if w.len() == 2 {
        match spec_move(w[0], w[1]) {
            Some(m) => Some(MoveType::Basic(m)),
            None => None,
        }
    } else if w.len() == 3 && w[0] == "enpassant"@ {
        match spec_move(w[1], w[2]) {
            Some(m) => Some(MoveType::EnPassant(m)),
            None => None,
        }
    } else if w.len() == 4 && w[0] == "promote"@ {
        match (spec_move(w[1], w[2]), spec_piece(w[3])) {
            (Some(m), Some(p)) => Some(MoveType::Promotion(m, p)),
            _ => None,
        }
    } else if w.len() == 5 && w[0] == "castle"@ {
        match (spec_move(w[1], w[2]), spec_move(w[3], w[4])) {
            (Some(k), Some(r)) => Some(MoveType::Castling(k, r)),
            _ => None,
        }
    } else {
        None
    }
}

impl MoveType {
    /// Reads one trimmed line of input as a move.
    pub fn parse(input: &str) -> (r: Option<MoveType>)
        ensures
            r == spec_parse(input@),
    {
        let words = split_words(input);
        let ghost w = split_spaces(input@);
        assert(words@.len() == w.len());
        let n = words.len();
        if n == 2 {
            assert(words[0]@ == w[0] && words[1]@ == w[1]);
            match Move::parse(words[0], words[1]) {
                Some(m) => Some(MoveType::Basic(m)),
                None => None,
            }
        } else if n == 3 {
            assert(words[0]@ == w[0] && words[1]@ == w[1] && words[2]@ == w[2]);
            if !same_text(words[0], "enpassant") {
                return None;
            }
            match Move::parse(words[1], words[2]) {
                Some(m) => Some(MoveType::EnPassant(m)),
                None => None,
            }
        } else if n == 4 {
            assert(words[0]@ == w[0] && words[1]@ == w[1] && words[2]@ == w[2] && words[3]@ == w[3]);
            if !same_text(words[0], "promote") {
                return None;
            }
            match (Move::parse(words[1], words[2]), Piece::parse(words[3])) {
                (Some(m), Some(p)) => Some(MoveType::Promotion(m, p)),
                _ => None,
            }
        } else if n == 5 {
            assert(words[0]@ == w[0] && words[1]@ == w[1] && words[2]@ == w[2] && words[3]@ == w[3]
                && words[4]@ == w[4]);
            if !same_text(words[0], "castle") {
                return None;
            }
            match (Move::parse(words[1], words[2]), Move::parse(words[3], words[4])) {
                (Some(k), Some(r)) => Some(MoveType::Castling(k, r)),
                _ => None,
            }
        } else {
            None
        }
    }
}


/// A line is refused when a square token is not a file letter and a rank
/// digit, when it has other than two to five tokens, or when its keyword does
/// not fit its number of tokens.
pub proof fn lemma_parse_rejects(s: Seq<char>)
    ensures
        forall|t: Seq<char>|
            t.len() == 2 && !(is_file(t[0]) && is_rank(t[1])) ==> (#[trigger] spec_point(t) is None),
        !(2 <= split_spaces(s).len() <= 5) ==> (spec_parse(s) is None),
        split_spaces(s).len() == 3 && split_spaces(s)[0] != "enpassant"@ ==> (spec_parse(s) is None),
        split_spaces(s).len() == 4 && split_spaces(s)[0] != "promote"@ ==> (spec_parse(s) is None),
        split_spaces(s).len() == 5 && split_spaces(s)[0] != "castle"@ ==> (spec_parse(s) is None),
        split_spaces(s).len() == 2 && spec_point(split_spaces(s)[0]) is None ==> (spec_parse(s) is None),
        forall|i: int|
            1 <= i < split_spaces(s).len() && !(split_spaces(s).len() == 4 && i == 3) && (
            #[trigger] spec_point(split_spaces(s)[i]) is None) ==> (spec_parse(s) is None),
        split_spaces(s).len() == 4 && spec_piece(split_spaces(s)[3]) is None ==> (spec_parse(s) is None),
{
}

/// The text of a random hint: a file letter, a space, a rank digit.
pub open spec fn hint_text(file: nat, rank: nat) -> Seq<char> {
    seq![file_letters()[file as int], ' ', rank_digits()[rank as int]]
}

/// Relies on rand's `thread_rng` and `Rng::gen_range`: a number drawn from
/// `0..bound`, which is never empty here.
#[verifier::external_body]
fn random_below(bound: usize) -> (r: usize)
    requires
        bound > 0,
    ensures
        r < bound,
{
    rand::thread_rng().gen_range(0..bound)
}

/// Writes the hint for the given file and rank indices.
pub fn hint_for(file: usize, rank: usize) -> (r: String)
    requires
        file < 8,
        rank < 8,
    ensures
        r@ == hint_text(file as nat, rank as nat),
{
    let files = "abcdefgh";
    let ranks = "12345678";
    proof {
        reveal_strlit("abcdefgh");
        reveal_strlit("12345678");
        reveal_strlit(" ");
    }
    let mut r = String::from_str(files.substring_char(file, file + 1));
    r.append(" ");
    r.append(ranks.substring_char(rank, rank + 1));
    assert(r@ =~= hint_text(file as nat, rank as nat));
    r
}

impl MoveType {
    /// A random file letter and rank digit, separated by a space.
    #[allow(non_snake_case)]
    pub fn randomMove() -> (r: String)
        ensures
            exists|f: nat, k: nat| f < 8 && k < 8 && r@ == hint_text(f, k),
    {
        let file = random_below(8);
        let rank = random_below(8);
        hint_for(file, rank)
    }
}

} // verus!
