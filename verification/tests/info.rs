use std::time::Duration;
use uci::chess::{Evaluation, File, Move, MoveLine, PromotionPiece, Rank, Score, Square};
use uci::command::engine_to_gui::InfoCommand;

fn e2e4() -> Move {
    Move::new(Square::new(File::E, Rank::Two), Square::new(File::E, Rank::Four))
}

fn d1h5() -> Move {
    Move::new(Square::new(File::D, Rank::One), Square::new(File::H, Rank::Five))
}

fn g6h5() -> Move {
    Move::new(Square::new(File::G, Rank::Six), Square::new(File::H, Rank::Five))
}

fn e7e8q() -> Move {
    Move::new_with_promotion(
        Square::new(File::E, Rank::Seven),
        Square::new(File::E, Rank::Eight),
        PromotionPiece::Queen,
    )
}

#[test]
fn format_empty_info() {
    assert_eq!(InfoCommand::new().to_string(), "info");
    assert_eq!(InfoCommand::default().to_string(), "info");
    assert_eq!(InfoCommand::new(), InfoCommand::default());
}

#[test]
fn format_score_nodes_pv() {
    let mut info = InfoCommand::new();
    info.with_score(Score::new(Evaluation::Centipawns(112)))
        .with_node_count(20)
        .with_pv(vec![e2e4()]);
    assert_eq!(info.to_string(), "info score cp 112 nodes 20 multipv 1 pv e2e4");
}

#[test]
fn format_does_not_depend_on_setter_order() {
    let expected = "info score cp 112 nodes 20 multipv 1 pv e2e4";

    let mut info = InfoCommand::new();
    info.with_pv(vec![e2e4()])
        .with_node_count(20)
        .with_score(Score::new(Evaluation::Centipawns(112)));
    assert_eq!(info.to_string(), expected);

    let mut info = InfoCommand::new();
    info.with_node_count(20)
        .with_pv(vec![e2e4()])
        .with_score(Score::new(Evaluation::Centipawns(112)));
    assert_eq!(info.to_string(), expected);

    let mut info = InfoCommand::new();
    info.with_node_count(20);
    info.with_score(Score::new(Evaluation::Centipawns(112)));
    info.with_pv(MoveLine(vec![e2e4()]));
    assert_eq!(info.to_string(), expected);
}

#[test]
fn setters_of_different_fields_commute() {
    let mut first = InfoCommand::new();
    first.with_depth_plies(4).with_time(Duration::from_millis(30)).with_curr_move(e2e4());
    let mut second = InfoCommand::new();
    second.with_curr_move(e2e4()).with_time(Duration::from_millis(30)).with_depth_plies(4);
    assert_eq!(first, second);
    assert_eq!(first.to_string(), second.to_string());
}

#[test]
fn later_setter_of_the_same_field_wins() {
    let mut info = InfoCommand::new();
    info.with_depth_plies(4).with_depth_plies(9);
    info.with_pv(vec![e2e4()]).with_multi_pv(3, vec![d1h5(), g6h5()]);
    info.with_curr_line_for_cpu(2, vec![e2e4()]).with_curr_line(vec![g6h5()]);
    assert_eq!(info.to_string(), "info depth 9 currline 1 g6h5 multipv 3 pv d1h5 g6h5");
}

#[test]
fn format_all_fields_in_the_fixed_order() {
    let mut info = InfoCommand::new();
    info.with_multi_pv(2, vec![e2e4(), e7e8q()])
        .with_curr_line_for_cpu(3, vec![d1h5(), g6h5()])
        .with_refutation(d1h5(), vec![g6h5()])
        .with_hash_full_permill(501)
        .with_cpu_load_permill(10)
        .with_curr_move_number(14)
        .with_curr_move(e2e4())
        .with_time(Duration::from_millis(1))
        .with_shredder_tb_hits(5)
        .with_endgame_tb_hits(0)
        .with_nodes_per_second(20000)
        .with_node_count(20)
        .with_score(Score::lower_bound(Evaluation::OpponentCheckmate(3)))
        .with_sel_depth_plies(7)
        .with_depth_plies(1)
        .with_string("not written");
    assert_eq!(
        info.to_string(),
        "info depth 1 seldepth 7 score mate -3 lowerbound nodes 20 nps 20000 tbhits 0 sbhits 5 \
         time 1 currmove e2e4 currmovenumber 14 cpuload 10 hashfull 501 refutation d1h5 g6h5 \
         currline 3 d1h5 g6h5 multipv 2 pv e2e4 e7e8q"
    );
}

#[test]
fn format_each_number_field() {
    let mut info = InfoCommand::new();
    info.with_depth_plies(12);
    assert_eq!(info.to_string(), "info depth 12");

    let mut info = InfoCommand::new();
    info.with_sel_depth_plies(30);
    assert_eq!(info.to_string(), "info seldepth 30");

    let mut info = InfoCommand::new();
    info.with_node_count(123456);
    assert_eq!(info.to_string(), "info nodes 123456");

    let mut info = InfoCommand::new();
    info.with_nodes_per_second(100000);
    assert_eq!(info.to_string(), "info nps 100000");

    let mut info = InfoCommand::new();
    info.with_endgame_tb_hits(0);
    assert_eq!(info.to_string(), "info tbhits 0");

    let mut info = InfoCommand::new();
    info.with_shredder_tb_hits(usize::MAX);
    assert_eq!(info.to_string(), format!("info sbhits {}", usize::MAX));

    let mut info = InfoCommand::new();
    info.with_curr_move_number(1);
    assert_eq!(info.to_string(), "info currmovenumber 1");

    let mut info = InfoCommand::new();
    info.with_cpu_load_permill(1000);
    assert_eq!(info.to_string(), "info cpuload 1000");

    let mut info = InfoCommand::new();
    info.with_hash_full_permill(999);
    assert_eq!(info.to_string(), "info hashfull 999");
}

#[test]
fn format_sel_depth_without_depth() {
    let mut info = InfoCommand::new();
    info.with_sel_depth_plies(3).with_node_count(1);
    assert_eq!(info.to_string(), "info seldepth 3 nodes 1");
}

#[test]
fn format_score_field() {
    let mut info = InfoCommand::new();
    info.with_score(Score::uppper_bound(Evaluation::Centipawns(-60)));
    assert_eq!(info.to_string(), "info score cp -60 upperbound");

    let mut info = InfoCommand::new();
    info.with_score(Score::new(Evaluation::PlayerCheckmate(2)));
    assert_eq!(info.to_string(), "info score mate 2");
}

#[test]
fn format_time_in_whole_milliseconds() {
    let mut info = InfoCommand::new();
    info.with_time(Duration::from_millis(1));
    assert_eq!(info.to_string(), "info time 1");

    let mut info = InfoCommand::new();
    info.with_time(Duration::from_secs(2));
    assert_eq!(info.to_string(), "info time 2000");

    let mut info = InfoCommand::new();
    info.with_time(Duration::from_micros(1999));
    assert_eq!(info.to_string(), "info time 1");

    let mut info = InfoCommand::new();
    info.with_time(Duration::from_nanos(999_999));
    assert_eq!(info.to_string(), "info time 0");

    let mut info = InfoCommand::new();
    info.with_time(Duration::new(u64::MAX, 999_999_999));
    assert_eq!(info.to_string(), "info time 18446744073709551615999");
}

#[test]
fn format_curr_move() {
    let mut info = InfoCommand::new();
    info.with_curr_move(e7e8q());
    assert_eq!(info.to_string(), "info currmove e7e8q");
}

#[test]
fn format_refutation_with_line() {
    let mut info = InfoCommand::new();
    info.with_refutation(d1h5(), vec![g6h5()]);
    assert_eq!(info.to_string(), "info refutation d1h5 g6h5");
}

#[test]
fn format_refutation_without_line() {
    let mut info = InfoCommand::new();
    info.with_refutation(d1h5(), Vec::<Move>::new());
    assert_eq!(info.to_string(), "info refutation d1h5");
}

#[test]
fn format_curr_line() {
    let mut info = InfoCommand::new();
    info.with_curr_line(vec![e2e4(), g6h5()]);
    assert_eq!(info.to_string(), "info currline 1 e2e4 g6h5");

    let mut info = InfoCommand::new();
    info.with_curr_line_for_cpu(4, MoveLine(vec![e2e4()]));
    assert_eq!(info.to_string(), "info currline 4 e2e4");
}

#[test]
fn format_multi_pv() {
    let mut info = InfoCommand::new();
    info.with_multi_pv(2, vec![e2e4(), d1h5()]);
    assert_eq!(info.to_string(), "info multipv 2 pv e2e4 d1h5");

    let mut info = InfoCommand::new();
    info.with_pv(MoveLine(vec![e2e4(), d1h5(), g6h5()]));
    assert_eq!(info.to_string(), "info multipv 1 pv e2e4 d1h5 g6h5");
}

#[test]
fn format_empty_lines_keep_their_keywords() {
    let mut info = InfoCommand::new();
    info.with_pv(Vec::<Move>::new());
    assert_eq!(info.to_string(), "info multipv 1 pv ");

    let mut info = InfoCommand::new();
    info.with_curr_line(Vec::<Move>::new());
    assert_eq!(info.to_string(), "info currline 1 ");
}

#[test]
fn string_is_kept_but_not_written() {
    let mut with_text = InfoCommand::new();
    with_text.with_string("hello world");
    assert_eq!(with_text.to_string(), "info");
    assert_ne!(with_text, InfoCommand::new());

    let mut same = InfoCommand::new();
    same.with_string(String::from("hello world"));
    assert_eq!(with_text, same);
}

#[test]
fn setters_return_the_command_itself() {
    let mut info = InfoCommand::new();
    let text = info.with_depth_plies(2).with_node_count(5).to_string();
    assert_eq!(text, "info depth 2 nodes 5");
    assert_eq!(info.to_string(), "info depth 2 nodes 5");
}
