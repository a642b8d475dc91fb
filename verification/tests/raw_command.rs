use uci::command::{CommandParseError, RawCommand};

#[test]
fn get_name_uci() {
    let command = "uci".parse::<RawCommand>().expect("This is a valid command");
    assert_eq!(command.name(), "uci");
}

#[test]
fn get_name_stop() {
    let command = "stop".parse::<RawCommand>().expect("This is a valid command");
    assert_eq!(command.name(), "stop");
}

#[test]
fn get_name_info() {
    let command = "info depth 12 nodes 123456 nps 100000"
        .parse::<RawCommand>()
        .expect("This is a valid command");
    assert_eq!(command.name(), "info");
}

#[test]
fn get_name_skips_leading_whitespace() {
    let command = RawCommand::new(" \t go infinite");
    assert_eq!(command.name(), "go");
}

#[test]
fn new_keeps_the_content() {
    assert_eq!(RawCommand::new("uci").content, "uci");
    assert_eq!(RawCommand::new(String::from("isready")).content, "isready");
    assert_eq!(RawCommand::new("  position   startpos ").content, "  position   startpos ");
}

#[test]
fn parse_accepts_every_line() {
    for line in ["", "   ", "uci", "go  infinite\n"] {
        let parsed: Result<RawCommand, CommandParseError> = RawCommand::from_str(line);
        assert_eq!(parsed.ok().map(|command| command.content), Some(line.to_string()));
    }
}

#[test]
fn format_is_the_content() {
    let command = RawCommand::new(" info  depth 12 ");
    assert_eq!(command.to_string(), " info  depth 12 ");
}

#[test]
fn tokens_split_on_whitespace_runs() {
    let command = RawCommand::new("  info \t depth\n12\r\nnodes\x0C123456  ");
    assert_eq!(command.tokens(), vec!["info", "depth", "12", "nodes", "123456"]);
}

#[test]
fn tokens_of_blank_lines_are_none() {
    assert!(RawCommand::new("").tokens().is_empty());
    assert!(RawCommand::new(" \t\n").tokens().is_empty());
}

#[test]
fn tokens_keep_other_characters() {
    let command = RawCommand::new("id name K\u{f6}nig\u{a0}1 \u{265a}");
    assert_eq!(command.tokens(), vec!["id", "name", "K\u{f6}nig\u{a0}1", "\u{265a}"]);
}

#[test]
fn tokens_are_restartable() {
    let command = RawCommand::new("position startpos moves e2e4");
    let first = command.tokens();
    let second = command.tokens();
    assert_eq!(first, second);
    assert_eq!(command.content, "position startpos moves e2e4");
}

#[test]
fn arguments_are_restartable() {
    let command = RawCommand::new("info depth 12 nodes 123456 nps 100000");
    assert_eq!(command.name(), "info");
    let expected = vec!["depth", "12", "nodes", "123456", "nps", "100000"];
    assert_eq!(command.arguments(), expected);
    assert_eq!(command.arguments(), expected);
    assert_eq!(command.name(), "info");
}

#[test]
fn arguments_yield_the_same_four_tokens_each_time() {
    let command = RawCommand::new("go wtime 1000 btime 2000");
    let expected = vec!["wtime", "1000", "btime", "2000"];
    assert_eq!(command.arguments(), expected);
    assert_eq!(command.arguments(), expected);
}

#[test]
fn arguments_of_short_lines_are_none() {
    assert!(RawCommand::new("").arguments().is_empty());
    assert!(RawCommand::new("   ").arguments().is_empty());
    assert!(RawCommand::new("uci").arguments().is_empty());
    assert!(RawCommand::new("  uci  ").arguments().is_empty());
}
