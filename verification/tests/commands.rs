use uci::chess::{Evaluation, File, Move, PromotionPiece, Rank, Score, Square};
use uci::command::engine_to_gui::{
    BestMoveCommand, CopyProtectionCommand, EngineToGuiCommand, IdCommand, InfoCommand,
    RegistrationCommand,
};
use uci::command::gui_to_engine::GuiToEngineCommand;
use uci::command::RawCommand;

fn g1f3() -> Move {
    Move::new(Square::new(File::G, Rank::One), Square::new(File::F, Rank::Three))
}

fn d8f6() -> Move {
    Move::new(Square::new(File::D, Rank::Eight), Square::new(File::F, Rank::Six))
}

#[test]
fn format_best_move_cmd() {
    let actual = BestMoveCommand::new(g1f3()).to_string();
    assert_eq!(actual, "bestmove g1f3");
}

#[test]
fn format_best_move_cmd_with_ponder() {
    let actual = BestMoveCommand::new_with_ponder(g1f3(), d8f6()).to_string();
    assert_eq!(actual, "bestmove g1f3 ponder d8f6");
}

#[test]
fn format_best_move_cmd_with_promotions() {
    let best = Move::new_with_promotion(
        Square::new(File::A, Rank::Seven),
        Square::new(File::A, Rank::Eight),
        PromotionPiece::Queen,
    );
    let ponder = Move::new_with_promotion(
        Square::new(File::H, Rank::Two),
        Square::new(File::H, Rank::One),
        PromotionPiece::Knight,
    );
    let actual = BestMoveCommand::new_with_ponder(best, ponder).to_string();
    assert_eq!(actual, "bestmove a7a8q ponder h2h1n");
}

#[test]
fn best_move_constructors_fill_the_fields() {
    assert_eq!(BestMoveCommand::new(g1f3()).best_move, g1f3());
    assert_eq!(BestMoveCommand::new(g1f3()).ponder, None);
    let command = BestMoveCommand::new_with_ponder(g1f3(), d8f6());
    assert_eq!(command.best_move, g1f3());
    assert_eq!(command.ponder, Some(d8f6()));
}

#[test]
fn format_copy_protection_cmd_checking() {
    assert_eq!(CopyProtectionCommand::Checking.to_string(), "copyprotection checking");
}

#[test]
fn format_copy_protection_cmd_ok() {
    assert_eq!(CopyProtectionCommand::Okay.to_string(), "copyprotection ok");
}

#[test]
fn format_copy_protection_cmd_error() {
    assert_eq!(CopyProtectionCommand::Error.to_string(), "copyprotection error");
}

#[test]
fn format_registration_cmd_checking() {
    assert_eq!(RegistrationCommand::Checking.to_string(), "registration checking");
}

#[test]
fn format_registration_cmd_ok() {
    assert_eq!(RegistrationCommand::Okay.to_string(), "registration ok");
}

#[test]
fn format_registration_cmd_error() {
    assert_eq!(RegistrationCommand::Error.to_string(), "registration error");
}

#[test]
fn format_id_cmd_name() {
    let actual = IdCommand::new_name("Stockfish Engine").to_string();
    assert_eq!(actual, "id name Stockfish Engine");
}

#[test]
fn format_id_cmd_author() {
    let actual = IdCommand::new_author("Stockfish Team").to_string();
    assert_eq!(actual, "id author Stockfish Team");
}

#[test]
fn id_constructors_convert_the_text() {
    assert_eq!(IdCommand::new_name("a b"), IdCommand::Name("a b".to_string()));
    assert_eq!(IdCommand::new_name(String::from("x")), IdCommand::Name("x".to_string()));
    assert_eq!(IdCommand::new_author("c"), IdCommand::Author("c".to_string()));
    assert_eq!(IdCommand::new_author("").to_string(), "id author ");
}

#[test]
fn format_engine_to_gui_commands() {
    assert_eq!(EngineToGuiCommand::UciOk.to_string(), "uciok");
    assert_eq!(EngineToGuiCommand::ReadyOk.to_string(), "readyok");
    assert_eq!(EngineToGuiCommand::Option().to_string(), "option");
    assert_eq!(
        EngineToGuiCommand::Id(IdCommand::new_name("Engine")).to_string(),
        "id name Engine"
    );
    assert_eq!(
        EngineToGuiCommand::BestMove(BestMoveCommand::new_with_ponder(g1f3(), d8f6())).to_string(),
        "bestmove g1f3 ponder d8f6"
    );
    assert_eq!(
        EngineToGuiCommand::CopyProtection(CopyProtectionCommand::Error).to_string(),
        "copyprotection error"
    );
    assert_eq!(
        EngineToGuiCommand::Registration(RegistrationCommand::Checking).to_string(),
        "registration checking"
    );
    let mut info = InfoCommand::new();
    info.with_depth_plies(3).with_score(Score::new(Evaluation::PlayerCheckmate(1)));
    assert_eq!(
        EngineToGuiCommand::Info(Box::new(info)).to_string(),
        "info depth 3 score mate 1"
    );
}

#[test]
fn formatted_commands_are_named_by_their_keyword() {
    let commands = [
        (EngineToGuiCommand::Id(IdCommand::new_author("A B")), "id"),
        (EngineToGuiCommand::UciOk, "uciok"),
        (EngineToGuiCommand::ReadyOk, "readyok"),
        (EngineToGuiCommand::BestMove(BestMoveCommand::new(g1f3())), "bestmove"),
        (EngineToGuiCommand::CopyProtection(CopyProtectionCommand::Okay), "copyprotection"),
        (EngineToGuiCommand::Registration(RegistrationCommand::Okay), "registration"),
        (EngineToGuiCommand::Info(Box::new(InfoCommand::new())), "info"),
        (EngineToGuiCommand::Option(), "option"),
    ];
    for (command, keyword) in commands {
        assert_eq!(command.keyword(), keyword);
        assert_eq!(RawCommand::new(command.to_string()).name(), keyword);
        let raw = command.to_raw();
        assert_eq!(raw.content, command.to_string());
        assert_eq!(raw.name(), keyword);
    }
}

#[test]
fn raw_command_of_a_best_move() {
    let raw = EngineToGuiCommand::BestMove(BestMoveCommand::new_with_ponder(g1f3(), d8f6())).to_raw();
    assert_eq!(raw.content, "bestmove g1f3 ponder d8f6");
    assert_eq!(raw.name(), "bestmove");
    assert_eq!(raw.arguments(), vec!["g1f3", "ponder", "d8f6"]);
}

#[test]
fn gui_to_engine_keywords() {
    assert_eq!(GuiToEngineCommand::Uci.keyword(), "uci");
    assert_eq!(GuiToEngineCommand::Debug(true).keyword(), "debug");
    assert_eq!(GuiToEngineCommand::Debug(false).keyword(), "debug");
    assert_eq!(GuiToEngineCommand::IsReady.keyword(), "isready");
    assert_eq!(GuiToEngineCommand::SetOption().keyword(), "setoption");
    assert_eq!(GuiToEngineCommand::Register().keyword(), "register");
    assert_eq!(GuiToEngineCommand::UciNewGame().keyword(), "ucinewgame");
    assert_eq!(GuiToEngineCommand::Position().keyword(), "position");
    assert_eq!(GuiToEngineCommand::Go().keyword(), "go");
    assert_eq!(GuiToEngineCommand::Stop.keyword(), "stop");
    assert_eq!(GuiToEngineCommand::PonderHit.keyword(), "ponderhit");
    assert_eq!(GuiToEngineCommand::Quit.keyword(), "quit");
}
