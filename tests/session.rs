use chess_session::color::Color;
use chess_session::notation::{Move, MoveType, Point};
use chess_session::session::{
    check_messages, mate_messages, opening_messages, outcome, step, Message, Outcome, Recipient,
    SessionState,
};

fn lines(ms: &[Message]) -> Vec<(Recipient, String)> {
    ms.iter().map(|m| (m.to, m.text.clone())).collect()
}

fn l(to: Recipient, text: &str) -> (Recipient, String) {
    (to, text.to_string())
}

const P0: Recipient = Recipient::Player(0);
const P1: Recipient = Recipient::Player(1);
const SP: Recipient = Recipient::Spectators;

#[test]
fn two_legal_moves_alternate_turns() {
    let s0 = SessionState::new();
    assert_eq!(s0.turn, 0);
    assert_eq!(s0.color, Color::White);
    assert!(check_messages(&s0, false).is_empty());
    let a = step(&s0, "e2 e4", true);
    assert_eq!(a.state.turn, 1);
    assert_eq!(a.state.color, Color::Black);
    assert_eq!(lines(&a.messages), vec![l(P1, "e2 e4"), l(SP, "e2 e4")]);
    let e2e4 = Move { from: Point { x: 4, y: 1 }, to: Point { x: 4, y: 3 } };
    assert_eq!(a.apply, Some(MoveType::Basic(e2e4)));
    assert!(check_messages(&a.state, false).is_empty());
    let b = step(&a.state, "e7 e5", true);
    assert_eq!(b.state.turn, 0);
    assert_eq!(b.state.color, Color::White);
    assert_eq!(lines(&b.messages), vec![l(P0, "e7 e5"), l(SP, "e7 e5")]);
    assert_eq!(b.state, s0);
    assert_eq!(outcome(&b.state, false), None);
}

#[test]
fn bad_rank_is_invalid_for_mover_only() {
    let s0 = SessionState::new();
    let r = step(&s0, "g9 e4", true);
    assert_eq!(r.state, s0);
    assert_eq!(lines(&r.messages), vec![l(P0, "Invalid move")]);
    assert_eq!(r.apply, None);
}

#[test]
fn timed_out_read_is_invalid() {
    let s1 = SessionState::new().pass();
    let r = step(&s1, "", false);
    assert_eq!(r.state, s1);
    assert_eq!(lines(&r.messages), vec![l(P1, "Invalid move")]);
    assert_eq!(r.apply, None);
}

#[test]
fn refused_by_the_rules_is_invalid() {
    let s0 = SessionState::new();
    let r = step(&s0, "e2 e5", false);
    assert_eq!(r.state, s0);
    assert_eq!(lines(&r.messages), vec![l(P0, "Invalid move")]);
    assert_eq!(r.apply, None);
}

#[test]
fn draw_offer_accepted() {
    let s0 = SessionState::new();
    let a = step(&s0, "DRAW", false);
    assert_eq!(a.state.draw_stage, 1);
    assert_eq!(a.state.turn, 1);
    assert_eq!(a.state.color, Color::Black);
    assert_eq!(
        lines(&a.messages),
        vec![l(P0, "Draw proposed"), l(P1, "Draw proposed"), l(SP, "Draw proposed")]
    );
    assert_eq!(outcome(&a.state, false), None);
    let b = step(&a.state, "DRAW", false);
    assert_eq!(b.state.draw_stage, 2);
    assert_eq!(
        lines(&b.messages),
        vec![l(P1, "Game ended: draw"), l(P0, "Game ended: draw"), l(SP, "Game ended: draw")]
    );
    assert_eq!(outcome(&b.state, false), Some(Outcome::Draw));
    assert_eq!(outcome(&b.state, true), Some(Outcome::Draw));
}

#[test]
fn draw_offer_refused() {
    let s0 = SessionState::new();
    let a = step(&s0, "DRAW", false);
    let b = step(&a.state, "e7 e5", true);
    assert_eq!(b.state, s0);
    assert_eq!(lines(&b.messages), vec![l(P0, "Draw proposal refused"), l(SP, "Draw proposal refused")]);
    assert_eq!(b.apply, None);
    let c = step(&a.state, "RETIRE", false);
    assert_eq!(c.state, s0);
    assert!(!c.state.retired);
}

#[test]
fn retire_ends_the_game() {
    let s1 = step(&SessionState::new(), "d2 d4", true).state;
    let r = step(&s1, "RETIRE", false);
    assert!(r.state.retired);
    assert_eq!(r.state.turn, 1);
    assert_eq!(lines(&r.messages), vec![l(P0, "RETIRE"), l(SP, "RETIRE")]);
    assert_eq!(r.apply, None);
    assert_eq!(outcome(&r.state, false), Some(Outcome::Retirement(Color::White)));
    assert_eq!(outcome(&r.state, true), Some(Outcome::Retirement(Color::White)));
}

#[test]
fn mate_ends_the_game() {
    let s0 = SessionState::new();
    assert_eq!(outcome(&s0, true), Some(Outcome::Checkmate(Color::Black)));
    assert_eq!(
        lines(&mate_messages(&s0)),
        vec![l(P1, "CHECKMATE! You win!"), l(P0, "CHECKMATE! You loose!"), l(SP, "CHECKMATE! Black wins!")]
    );
    let s1 = s0.pass();
    assert_eq!(outcome(&s1, true), Some(Outcome::Checkmate(Color::White)));
    assert_eq!(
        lines(&mate_messages(&s1)),
        vec![l(P0, "CHECKMATE! You win!"), l(P1, "CHECKMATE! You loose!"), l(SP, "CHECKMATE! White wins!")]
    );
}

#[test]
fn check_warnings() {
    let s0 = SessionState::new();
    assert_eq!(
        lines(&check_messages(&s0, true)),
        vec![
            l(P0, "Your king is in check!"),
            l(P1, "You checked the opponent's king!"),
            l(SP, "White king is checked!")
        ]
    );
    let s1 = s0.pass();
    assert_eq!(
        lines(&check_messages(&s1, true)),
        vec![
            l(P1, "Your king is in check!"),
            l(P0, "You checked the opponent's king!"),
            l(SP, "Black king is checked!")
        ]
    );
}

#[test]
fn opening_lines() {
    assert_eq!(
        lines(&opening_messages("alice", "bob")),
        vec![
            l(P0, "alice"),
            l(P1, "alice"),
            l(SP, "alice"),
            l(P0, "bob"),
            l(P1, "bob"),
            l(SP, "bob"),
            l(P0, "You have the white pieces"),
            l(P1, "You have the black pieces")
        ]
    );
}

#[test]
fn many_legal_moves_alternate() {
    let mut s = SessionState::new();
    let moves = ["e2 e4", "e7 e5", "g1 f3", "b8 c6", "f1 b5", "a7 a6"];
    for (i, m) in moves.iter().enumerate() {
        assert_eq!(s.turn, i % 2);
        assert_eq!(s.color, if i % 2 == 0 { Color::White } else { Color::Black });
        s = step(&s, m, true).state;
    }
    assert_eq!(s.turn, 0);
    assert_eq!(s.draw_stage, 0);
}
