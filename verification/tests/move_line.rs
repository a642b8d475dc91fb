use uci::chess::{File, Move, MoveLine, ParseError, PromotionPiece, Rank, Square};

fn e2e4() -> Move {
    Move::new(Square::new(File::E, Rank::Two), Square::new(File::E, Rank::Four))
}

fn e1g1() -> Move {
    Move::new(Square::new(File::E, Rank::One), Square::new(File::G, Rank::One))
}

fn e7e8q() -> Move {
    Move::new_with_promotion(
        Square::new(File::E, Rank::Seven),
        Square::new(File::E, Rank::Eight),
        PromotionPiece::Queen,
    )
}

#[test]
fn format_line() {
    let input: MoveLine = vec![e2e4(), e1g1()].into();
    let actual = input.to_string();
    assert_eq!(actual, "e2e4 e1g1");
}

#[test]
fn format_empty_line() {
    let input = MoveLine(vec![]);
    assert_eq!(input.to_string(), "");
}

#[test]
fn format_single_move_has_no_space() {
    let input = MoveLine(vec![e7e8q()]);
    assert_eq!(input.to_string(), "e7e8q");
}

#[test]
fn format_three_moves() {
    let input = MoveLine(vec![e2e4(), e7e8q(), e1g1()]);
    assert_eq!(input.to_string(), "e2e4 e7e8q e1g1");
}

#[test]
fn parse_empty_is_empty_line() {
    let actual = "".parse::<MoveLine>();
    assert_eq!(actual, Ok(MoveLine(vec![])));
    assert_eq!(MoveLine::from_str(""), Ok(MoveLine(vec![])));
}

#[test]
fn parse_whitespace_only_is_empty_line() {
    assert_eq!(MoveLine::from_str(" \t\r\n\x0C "), Ok(MoveLine(vec![])));
}

#[test]
fn parse_two_moves_and_format_back() {
    let line = MoveLine::from_str("e2e4 e1g1").unwrap();
    assert_eq!(line.len(), 2);
    assert_eq!(line, MoveLine(vec![e2e4(), e1g1()]));
    assert_eq!(line.to_string(), "e2e4 e1g1");
}

#[test]
fn parse_accepts_any_whitespace_run() {
    let line = MoveLine::from_str("  e2e4 \t\n  e1g1\r\n").unwrap();
    assert_eq!(line, MoveLine(vec![e2e4(), e1g1()]));
    assert_eq!(line.to_string(), "e2e4 e1g1");
}

#[test]
fn parse_accepts_form_feed_as_separator() {
    let line = MoveLine::from_str("e2e4\x0Ce7e8q").unwrap();
    assert_eq!(line, MoveLine(vec![e2e4(), e7e8q()]));
}

#[test]
fn parse_does_not_split_on_vertical_tab() {
    assert_eq!(MoveLine::from_str("e2e4\x0Be1g1"), Err(ParseError));
}

#[test]
fn parse_does_not_split_on_other_spaces() {
    assert_eq!(MoveLine::from_str("e2e4\u{a0}e1g1"), Err(ParseError));
    assert_eq!(MoveLine::from_str("e2e4\u{2003}e1g1"), Err(ParseError));
}

#[test]
fn parse_fails_on_first_bad_token() {
    assert_eq!(MoveLine::from_str("e2e4 e9e4 e1g1"), Err(ParseError));
    assert_eq!(MoveLine::from_str("x e2e4"), Err(ParseError));
    assert_eq!(MoveLine::from_str("e2e4 e1g1 E2E4"), Err(ParseError));
    assert_eq!(MoveLine::from_str("e2e4e1g1"), Err(ParseError));
}

#[test]
fn parse_inverts_format() {
    let lines = [
        MoveLine(vec![]),
        MoveLine(vec![e2e4()]),
        MoveLine(vec![e2e4(), e1g1()]),
        MoveLine(vec![e7e8q(), e2e4(), e1g1(), e7e8q()]),
    ];
    for line in lines {
        assert_eq!(MoveLine::from_str(&line.to_string()), Ok(line));
    }
}

#[test]
fn format_inverts_parse_on_single_spaced_text() {
    for text in ["", "e2e4", "e2e4 e1g1", "e7e8q e1g1 e2e4"] {
        assert_eq!(MoveLine::from_str(text).unwrap().to_string(), text);
    }
}

#[test]
fn is_empty_and_len() {
    let mut line = MoveLine(vec![]);
    assert!(line.is_empty());
    assert_eq!(line.len(), 0);
    line.push(e2e4());
    assert!(!line.is_empty());
    assert_eq!(line.len(), 1);
}

#[test]
fn push_adds_at_the_end() {
    let mut line = MoveLine(vec![e2e4()]);
    line.push(e1g1());
    line.push(e7e8q());
    assert_eq!(line, MoveLine(vec![e2e4(), e1g1(), e7e8q()]));
    assert_eq!(line.to_string(), "e2e4 e1g1 e7e8q");
}

#[test]
fn from_vec_keeps_the_order() {
    let line = MoveLine::from(vec![e1g1(), e2e4()]);
    assert_eq!(line.0, vec![e1g1(), e2e4()]);
}

#[test]
fn into_vec_keeps_the_order() {
    let moves: Vec<Move> = MoveLine(vec![e1g1(), e2e4()]).into();
    assert_eq!(moves, vec![e1g1(), e2e4()]);
}
