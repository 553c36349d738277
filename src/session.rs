use vstd::prelude::*;

use crate::color::{color_of, Color};
use crate::notation::{same_text, spec_parse, split_spaces, MoveType};

verus! {

/// Where a line of output goes: to the player in seat 0 or 1, or to the
/// spectators.
#[derive(Clone, Copy, Debug, PartialEq, Eq, Structural)]
pub enum Recipient {
    Player(usize),
    Spectators,
}

/// One line of output for one recipient.
#[derive(Clone, Debug)]
pub struct Message {
    pub to: Recipient,
    pub text: String,
}

impl View for Message {
    type V = (Recipient, Seq<char>);

    open spec fn view(&self) -> (Recipient, Seq<char>) {
        (self.to, self.text@)
    }
}

/// What a list of messages says, line by line.
pub open spec fn lines_of(v: Seq<Message>) -> Seq<(Recipient, Seq<char>)> {
    v.map_values(|m: Message| m@)
}

fn message(to: Recipient, text: &str) -> (m: Message)
    ensures
        m@ == (to, text@),
{
    Message { to, text: String::from_str(text) }
}

pub open spec fn draw_word() -> Seq<char> {
    "DRAW"@
}

pub open spec fn retire_word() -> Seq<char> {
    "RETIRE"@
}

pub open spec fn invalid_move_text() -> Seq<char> {
    "Invalid move"@
}

pub open spec fn draw_proposed_text() -> Seq<char> {
    "Draw proposed"@
}

pub open spec fn draw_refused_text() -> Seq<char> {
    "Draw proposal refused"@
}

pub open spec fn draw_ended_text() -> Seq<char> {
    "Game ended: draw"@
}

/// The state of one game between its moves.
///
/// `turn` is the seat to move (0 plays White, 1 Black) and `color` its
/// colour; `draw_stage` is 0 with no offer standing, 1 while an offer
/// waits for its answer and 2 once it is accepted.
#[derive(Clone, Copy, Debug, PartialEq, Eq, Structural)]
pub struct SessionState {
    pub turn: usize,
    pub color: Color,
    pub retired: bool,
    pub draw_stage: u8,
}

impl SessionState {
    pub open spec fn wf(self) -> bool {
        &&& self.turn <= 1
        &&& self.color == color_of(self.turn as nat)
        &&& self.draw_stage <= 2
    }

    /// Neither retired nor drawn: the game goes on unless the side to move
    /// is mated.
    pub open spec fn is_playing(self) -> bool {
        !self.retired && self.draw_stage != 2
    }

    pub open spec fn spec_initial() -> SessionState {
        SessionState { turn: 0, color: Color::White, retired: false, draw_stage: 0 }
    }

    /// The same state with the move handed to the other seat.
    pub open spec fn spec_pass(self) -> SessionState {
        SessionState { turn: (1 - self.turn) as usize, color: self.color.spec_other(), ..self }
    }

    /// The state at the start of a game: White to move, nothing offered.
    pub fn new() -> (r: SessionState)
        ensures
            r == SessionState::spec_initial(),
            r.wf(),
    {
        SessionState { turn: 0, color: Color::White, retired: false, draw_stage: 0 }
    }

    /// Hands the move to the other seat.
    pub fn pass(&self) -> (r: SessionState)
        requires
            self.wf(),
        ensures
            r == self.spec_pass(),
            r.wf(),
    {
        SessionState {
            turn: 1 - self.turn,
            color: self.color.other(),
            retired: self.retired,
            draw_stage: self.draw_stage,
        }
    }

    /// The seat that waits while the other moves.
    pub open spec fn opponent(self) -> usize {
        (1 - self.turn) as usize
    }
}

/// What one line from the seat to move does to the game.
pub struct Step {
    /// The state after the line.
    pub state: SessionState,
    /// The lines to send, in order.
    pub messages: Vec<Message>,
    /// The move to apply to the board, once the rules accepted it.
    pub apply: Option<MoveType>,
}

/// What one line does, given whether the rules accept the move that it
/// names (`verdict`; asked of the rules only when the line names a move and
/// no draw offer is standing).
///
/// While an offer stands, "DRAW" accepts it and any other line refuses it,
/// which hands the move back to the side that offered. Otherwise a legal
/// move is echoed to the opponent and the spectators and hands over the
/// move; "RETIRE" ends the game; "DRAW" offers a draw and hands over the
/// move; anything else is an invalid move, told to the mover alone.
pub open spec fn spec_step(s: SessionState, line: Seq<char>, verdict: bool) -> (
    SessionState,
    Seq<(Recipient, Seq<char>)>,
    Option<MoveType>,
) {
    let me = Recipient::Player(s.turn);
    let them = Recipient::Player(s.opponent());
    if s.draw_stage == 1 {
        if line == draw_word() {
            (
                SessionState { draw_stage: 2, ..s },
                seq![
                    (me, draw_ended_text()),
                    (them, draw_ended_text()),
                    (Recipient::Spectators, draw_ended_text()),
                ],
                None,
            )
        } else {
            (
                SessionState { draw_stage: 0, ..s.spec_pass() },
                seq![(them, draw_refused_text()), (Recipient::Spectators, draw_refused_text())],
                None,
            )
        }
    } else if spec_parse(line) is Some && verdict {
        (s.spec_pass(), seq![(them, line), (Recipient::Spectators, line)], spec_parse(line))
    } else if line == retire_word() {
        (
            SessionState { retired: true, ..s },
            seq![(them, retire_word()), (Recipient::Spectators, retire_word())],
            None,
        )
    } else if line == draw_word() {
        (
            SessionState { draw_stage: 1, ..s.spec_pass() },
            seq![
                (me, draw_proposed_text()),
                (them, draw_proposed_text()),
                (Recipient::Spectators, draw_proposed_text()),
            ],
            None,
        )
    } else {
        (s, seq![(me, invalid_move_text())], None)
    }
}

/// Takes one line from the seat to move; a read that timed out hands in
/// what it had, most often the empty line.
pub fn step(state: &SessionState, line: &str, verdict: bool) -> (r: Step)
    requires
        state.wf(),
        state.is_playing(),
    ensures
        r.state == spec_step(*state, line@, verdict).0,
        lines_of(r.messages@) == spec_step(*state, line@, verdict).1,
        r.apply == spec_step(*state, line@, verdict).2,
        r.state.wf(),
{
    let me = Recipient::Player(state.turn);
    let them = Recipient::Player(1 - state.turn);
    let mut messages: Vec<Message> = Vec::new();
    if state.draw_stage == 1 {
        if same_text(line, "DRAW") {
            messages.push(message(me, "Game ended: draw"));
            messages.push(message(them, "Game ended: draw"));
            messages.push(message(Recipient::Spectators, "Game ended: draw"));
            let next = SessionState { draw_stage: 2, ..*state };
            assert(lines_of(messages@) =~= spec_step(*state, line@, verdict).1);
            Step { state: next, messages, apply: None }
        } else {
            messages.push(message(them, "Draw proposal refused"));
            messages.push(message(Recipient::Spectators, "Draw proposal refused"));
            let next = SessionState { draw_stage: 0, ..state.pass() };
            assert(lines_of(messages@) =~= spec_step(*state, line@, verdict).1);
            Step { state: next, messages, apply: None }
        }
    } else {
        let intent = MoveType::parse(line);
        if intent.is_some() && verdict {
            messages.push(message(them, line));
            messages.push(message(Recipient::Spectators, line));
            assert(lines_of(messages@) =~= spec_step(*state, line@, verdict).1);
            Step { state: state.pass(), messages, apply: intent }
        } else if same_text(line, "RETIRE") {
            messages.push(message(them, "RETIRE"));
            messages.push(message(Recipient::Spectators, "RETIRE"));
            let next = SessionState { retired: true, ..*state };
            assert(lines_of(messages@) =~= spec_step(*state, line@, verdict).1);
            Step { state: next, messages, apply: None }
        } else if same_text(line, "DRAW") {
            messages.push(message(me, "Draw proposed"));
            messages.push(message(them, "Draw proposed"));
            messages.push(message(Recipient::Spectators, "Draw proposed"));
            let next = SessionState { draw_stage: 1, ..state.pass() };
            assert(lines_of(messages@) =~= spec_step(*state, line@, verdict).1);
            Step { state: next, messages, apply: None }
        } else {
            messages.push(message(me, "Invalid move"));
            assert(lines_of(messages@) =~= spec_step(*state, line@, verdict).1);
            Step { state: *state, messages, apply: None }
        }
    }
}


/// How a game ended.
#[derive(Clone, Copy, Debug, PartialEq, Eq, Structural)]
pub enum Outcome {
    /// The side that mated.
    Checkmate(Color),
    Draw,
    /// The side that stayed in the game.
    Retirement(Color),
}

/// How the game stands before the next line, given whether the side to
/// move is mated: a retirement or an accepted draw ends it whatever the
/// board shows; a mate ends it in the other side's favour.
pub open spec fn spec_outcome(s: SessionState, mated: bool) -> Option<Outcome> {
    if s.retired {
        Some(Outcome::Retirement(s.color.spec_other()))
    } else if s.draw_stage == 2 {
        Some(Outcome::Draw)
    } else if mated {
        Some(Outcome::Checkmate(s.color.spec_other()))
    } else {
        None
    }
}

/// Whether the game is over, and how; `None` while it goes on.
pub fn outcome(state: &SessionState, mated: bool) -> (r: Option<Outcome>)
    requires
        state.wf(),
    ensures
        r == spec_outcome(*state, mated),
{
    if state.retired {
        Some(Outcome::Retirement(state.color.other()))
    } else if state.draw_stage == 2 {
        Some(Outcome::Draw)
    } else if mated {
        Some(Outcome::Checkmate(state.color.other()))
    } else {
        None
    }
}

pub open spec fn king_checked_text(c: Color) -> Seq<char> {
    match c {
        Color::White => "White king is checked!"@,
        Color::Black => "Black king is checked!"@,
    }
}

/// The warnings sent before a move when the side to move is in check: to
/// the mover, to the opponent, then to the spectators.
pub open spec fn spec_check_lines(s: SessionState, in_check: bool) -> Seq<(Recipient, Seq<char>)> {
    if in_check {
        seq![
            (Recipient::Player(s.turn), "Your king is in check!"@),
            (Recipient::Player(s.opponent()), "You checked the opponent's king!"@),
            (Recipient::Spectators, king_checked_text(s.color)),
        ]
    } else {
        seq![]
    }
}

/// The warnings for a king in check; none when it is not.
pub fn check_messages(state: &SessionState, in_check: bool) -> (r: Vec<Message>)
    requires
        state.wf(),
    ensures
        lines_of(r@) == spec_check_lines(*state, in_check),
{
    let mut r: Vec<Message> = Vec::new();
    if in_check {
        r.push(message(Recipient::Player(state.turn), "Your king is in check!"));
        r.push(message(Recipient::Player(1 - state.turn), "You checked the opponent's king!"));
        match state.color {
            Color::White => r.push(message(Recipient::Spectators, "White king is checked!")),
            Color::Black => r.push(message(Recipient::Spectators, "Black king is checked!")),
        }
    }
    assert(lines_of(r@) =~= spec_check_lines(*state, in_check));
    r
}

pub open spec fn winner_text(c: Color) -> Seq<char> {
    match c {
        Color::White => "CHECKMATE! White wins!"@,
        Color::Black => "CHECKMATE! Black wins!"@,
    }
}

/// The closing lines of a game won by mate, with the mated side to move:
/// the winner, the loser, then the spectators.
pub open spec fn spec_mate_lines(s: SessionState) -> Seq<(Recipient, Seq<char>)> {
    seq![
        (Recipient::Player(s.opponent()), "CHECKMATE! You win!"@),
        (Recipient::Player(s.turn), "CHECKMATE! You loose!"@),
        (Recipient::Spectators, winner_text(s.color.spec_other())),
    ]
}

/// The closing lines when the side to move is mated.
pub fn mate_messages(state: &SessionState) -> (r: Vec<Message>)
    requires
        state.wf(),
    ensures
        lines_of(r@) == spec_mate_lines(*state),
{
    let mut r: Vec<Message> = Vec::new();
    r.push(message(Recipient::Player(1 - state.turn), "CHECKMATE! You win!"));
    r.push(message(Recipient::Player(state.turn), "CHECKMATE! You loose!"));
    match state.color {
        Color::White => r.push(message(Recipient::Spectators, "CHECKMATE! Black wins!")),
        Color::Black => r.push(message(Recipient::Spectators, "CHECKMATE! White wins!")),
    }
    assert(lines_of(r@) =~= spec_mate_lines(*state));
    r
}

/// The lines that open a game: each name in seat order to both players and
/// the spectators, then each player's colour.
pub open spec fn spec_opening_lines(white: Seq<char>, black: Seq<char>) -> Seq<(Recipient, Seq<char>)> {
    seq![
        (Recipient::Player(0), white),
        (Recipient::Player(1), white),
        (Recipient::Spectators, white),
        (Recipient::Player(0), black),
        (Recipient::Player(1), black),
        (Recipient::Spectators, black),
        (Recipient::Player(0), "You have the white pieces"@),
        (Recipient::Player(1), "You have the black pieces"@),
    ]
}

/// The lines that open a game between the named players, White first.
pub fn opening_messages(white: &str, black: &str) -> (r: Vec<Message>)
    ensures
        lines_of(r@) == spec_opening_lines(white@, black@),
{
    let mut r: Vec<Message> = Vec::new();
    r.push(message(Recipient::Player(0), white));
    r.push(message(Recipient::Player(1), white));
    r.push(message(Recipient::Spectators, white));
    r.push(message(Recipient::Player(0), black));
    r.push(message(Recipient::Player(1), black));
    r.push(message(Recipient::Spectators, black));
    r.push(message(Recipient::Player(0), "You have the white pieces"));
    r.push(message(Recipient::Player(1), "You have the black pieces"));
    assert(lines_of(r@) =~= spec_opening_lines(white@, black@));
    r
}


/// A line without a space is a single token.
proof fn lemma_no_space_one_token(s: Seq<char>)
    requires
        forall|i: int| 0 <= i < s.len() ==> s[i] != ' ',
    ensures
        split_spaces(s) == seq![s],
    decreases s.len(),
{
    if s.len() > 0 {
        lemma_no_space_one_token(s.drop_last());
        assert(s.drop_last().push(s.last()) =~= s);
        assert(split_spaces(s) =~= seq![s]);
    } else {
        assert(s =~= Seq::<char>::empty());
    }
}

/// The two command words name no move.
proof fn lemma_commands_are_no_moves()
    ensures
        (spec_parse(retire_word()) is None),
        (spec_parse(draw_word()) is None),
{
    reveal_strlit("RETIRE");
    reveal_strlit("DRAW");
    lemma_no_space_one_token(retire_word());
    lemma_no_space_one_token(draw_word());
}

/// The state after a run of lines that each name a move the rules accept.
pub open spec fn after_legal_moves(s: SessionState, lines: Seq<Seq<char>>) -> SessionState
    decreases lines.len(),
{
    if lines.len() == 0 {
        s
    } else {
        after_legal_moves(spec_step(s, lines[0], true).0, lines.drop_first())
    }
}

/// Legal moves hand the move from seat to seat in strict alternation,
/// each applied in turn, and the colour always follows the seat: after n of
/// them from the opening, seat n mod 2 is to move.
pub proof fn lemma_turns_alternate(s: SessionState, lines: Seq<Seq<char>>)
    requires
        s.wf(),
        s.is_playing(),
        s.draw_stage == 0,
        forall|i: int| 0 <= i < lines.len() ==> (#[trigger] spec_parse(lines[i]) is Some),
    ensures
        after_legal_moves(s, lines).wf(),
        after_legal_moves(s, lines).is_playing(),
        after_legal_moves(s, lines).draw_stage == 0,
        after_legal_moves(s, lines).turn == (s.turn + lines.len()) % 2,
        after_legal_moves(s, lines).color == color_of(after_legal_moves(s, lines).turn as nat),
        s == SessionState::spec_initial() ==> after_legal_moves(s, lines).turn == lines.len() % 2,
        lines.len() > 0 ==> spec_step(s, lines[0], true).2 == spec_parse(lines[0]),
    decreases lines.len(),
{
    if lines.len() > 0 {
        assert(spec_parse(lines[0]) is Some);
        let next = spec_step(s, lines[0], true).0;
        assert(next == s.spec_pass());
        let rest = lines.drop_first();
        assert forall|i: int| 0 <= i < rest.len() implies #[trigger] spec_parse(rest[i]) is Some by {
            assert(rest[i] == lines[i + 1]);
        }
        lemma_turns_alternate(next, rest);
    }
}

/// A line that names no move the rules accept, and is neither command,
/// changes nothing and only tells the mover "Invalid move"; an empty line,
/// such as a read that timed out hands in, is one of them.
pub proof fn lemma_invalid_move_changes_nothing(s: SessionState, line: Seq<char>, verdict: bool)
    requires
        s.wf(),
        s.is_playing(),
        s.draw_stage == 0,
        !(spec_parse(line) is Some && verdict),
        line != retire_word(),
        line != draw_word(),
    ensures
        spec_step(s, line, verdict) == (s, seq![(Recipient::Player(s.turn), invalid_move_text())], None::<MoveType>),
        spec_step(s, Seq::empty(), verdict) == (s, seq![(Recipient::Player(s.turn), invalid_move_text())], None::<MoveType>),
{
    reveal_strlit("RETIRE");
    reveal_strlit("DRAW");
    lemma_no_space_one_token(Seq::<char>::empty());
}

/// An offer of a draw hands the move to the opponent with the offer
/// standing. Their "DRAW" accepts it and ends the game drawn; any other
/// line refuses it and gives back the state from before the offer, with the
/// game going on.
pub proof fn lemma_draw_protocol(s: SessionState, reply: Seq<char>, v1: bool, v2: bool, mated: bool)
    requires
        s.wf(),
        s.is_playing(),
        s.draw_stage == 0,
    ensures
        spec_step(s, draw_word(), v1).0 == (SessionState { draw_stage: 1, ..s.spec_pass() }),
        spec_step(s, draw_word(), v1).0.turn == s.opponent(),
        spec_step(spec_step(s, draw_word(), v1).0, draw_word(), v2).0.draw_stage == 2,
        spec_outcome(spec_step(spec_step(s, draw_word(), v1).0, draw_word(), v2).0, mated)
            == Some(Outcome::Draw),
        reply != draw_word() ==> spec_step(spec_step(s, draw_word(), v1).0, reply, v2).0 == s,
        reply != draw_word() ==> (spec_outcome(spec_step(spec_step(s, draw_word(), v1).0, reply, v2).0, false)
            is None),
{
    lemma_commands_are_no_moves();
    reveal_strlit("RETIRE");
    reveal_strlit("DRAW");
}

/// "RETIRE", whenever no draw offer waits for an answer, ends the game at
/// once in favour of the other side, whatever the board shows.
pub proof fn lemma_retire_ends_game(s: SessionState, verdict: bool, mated: bool)
    requires
        s.wf(),
        s.is_playing(),
        s.draw_stage == 0,
    ensures
        spec_step(s, retire_word(), verdict).0.retired,
        (spec_step(s, retire_word(), verdict).2 is None),
        spec_outcome(spec_step(s, retire_word(), verdict).0, mated) == Some(Outcome::Retirement(s.color.spec_other())),
{
    lemma_commands_are_no_moves();
}

} // verus!
