use datawrangler::command_parser::{Command, CommandError, ErrorCode};

fn parse(line: &str) -> Result<Command, CommandError> {
    Command::parse(line)
}

fn parse_err(line: &str) -> (String, ErrorCode) {
    match parse(line) {
        Err(e) => (e.input().to_string(), e.code()),
        Ok(c) => panic!("expected a parse failure, got {:?}", c),
    }
}

#[test]
fn quit_plain() {
    assert_eq!(parse("quit").unwrap(), Command::Quit);
}

#[test]
fn quit_padded_uppercase() {
    assert_eq!(parse("  QUIT  ").unwrap(), Command::Quit);
}

#[test]
fn quit_ignores_remainder() {
    assert_eq!(parse("quit now please").unwrap(), Command::Quit);
}

#[test]
fn show_plain() {
    assert_eq!(parse("show").unwrap(), Command::Show);
    assert_eq!(parse(" Show tables ").unwrap(), Command::Show);
}

#[test]
fn load_path_only() {
    match parse("load a.csv").unwrap() {
        Command::Load(lc) => {
            assert!(lc.has_header());
            assert_eq!(lc.path(), "a.csv");
            assert_eq!(lc.table(), None);
        }
        c => panic!("expected a load command, got {:?}", c),
    }
}

#[test]
fn load_without_header_and_table() {
    match parse("load a.csv without header as t1").unwrap() {
        Command::Load(lc) => {
            assert!(!lc.has_header());
            assert_eq!(lc.path(), "a.csv");
            assert_eq!(lc.table(), Some("t1"));
        }
        c => panic!("expected a load command, got {:?}", c),
    }
}

#[test]
fn load_table_only() {
    match parse("load /tmp/x.parquet as stats").unwrap() {
        Command::Load(lc) => {
            assert!(lc.has_header());
            assert_eq!(lc.path(), "/tmp/x.parquet");
            assert_eq!(lc.table(), Some("stats"));
        }
        c => panic!("expected a load command, got {:?}", c),
    }
}

#[test]
fn load_clause_literals_are_case_insensitive() {
    match parse("LOAD a.csv WITHOUT HEADER AS T1").unwrap() {
        Command::Load(lc) => {
            assert!(!lc.has_header());
            assert_eq!(lc.path(), "a.csv");
            // the table token itself keeps its case
            assert_eq!(lc.table(), Some("T1"));
        }
        c => panic!("expected a load command, got {:?}", c),
    }
}

#[test]
fn load_without_header_alone() {
    match parse("load a.csv without header").unwrap() {
        Command::Load(lc) => {
            assert!(!lc.has_header());
            assert_eq!(lc.table(), None);
        }
        c => panic!("expected a load command, got {:?}", c),
    }
}

#[test]
fn load_trailing_blanks_after_without_header() {
    match parse("load a.csv without header   ").unwrap() {
        Command::Load(lc) => {
            assert!(!lc.has_header());
            assert_eq!(lc.table(), None);
        }
        c => panic!("expected a load command, got {:?}", c),
    }
}

#[test]
fn load_missing_table_token() {
    // `as` without its trailing space never matches the clause literal, so
    // it is left as unconsumed input and the parse fails
    let (input, code) = parse_err("load a.csv as");
    assert_eq!(code, ErrorCode::TrailingInput);
    assert_eq!(input, "as");
}

#[test]
fn load_as_literal_without_table() {
    let (input, code) = parse_err("load a.csv as ");
    assert_eq!(code, ErrorCode::MissingTable);
    assert_eq!(input, "");
}

#[test]
fn load_joined_as_token_is_trailing_input() {
    let (_, code) = parse_err("load a.csv asTable");
    assert_eq!(code, ErrorCode::TrailingInput);
}

#[test]
fn load_trailing_tokens_fail() {
    let (input, code) = parse_err("load a.csv as t1 t2");
    assert_eq!(code, ErrorCode::TrailingInput);
    assert_eq!(input, "t2");
}

#[test]
fn load_without_path_fails() {
    let (input, code) = parse_err("load");
    assert_eq!(code, ErrorCode::NoPath);
    assert_eq!(input, "");
}

#[test]
fn header_clause_must_come_before_as_clause() {
    // `without header` is only looked for before the `as` clause
    let (_, code) = parse_err("load a.csv as t1 without header");
    assert_eq!(code, ErrorCode::TrailingInput);
}

#[test]
fn unknown_keyword_is_not_found() {
    assert_eq!(parse("select 1").unwrap(), Command::NotFound);
    assert_eq!(parse("loads a.csv").unwrap(), Command::NotFound);
}

#[test]
fn empty_line_fails() {
    let (input, code) = parse_err("");
    assert_eq!(code, ErrorCode::NoKeyword);
    assert_eq!(input, "");
}

#[test]
fn blank_line_fails() {
    let (input, code) = parse_err("   ");
    assert_eq!(code, ErrorCode::NoKeyword);
    assert_eq!(input, "");
}

#[test]
fn symbol_line_fails_with_remainder() {
    let (input, code) = parse_err("  !x ");
    assert_eq!(code, ErrorCode::NoKeyword);
    assert_eq!(input, "!x ");
}

#[test]
fn parsing_is_deterministic() {
    for line in ["quit", "  QUIT  ", "load a.csv as t1", "select 1", "", "load"] {
        assert_eq!(parse(line), parse(line));
    }
}

#[test]
fn error_message_text() {
    let (_, _) = parse_err("");
    match parse("") {
        Err(e) => assert_eq!(e.message(), "Command parsing failed"),
        Ok(_) => unreachable!(),
    }
}

#[test]
fn keyword_prefixed_query_is_claimed_by_the_grammar() {
    // a query that happens to begin with a keyword is taken as a control
    // command, never passed through: an accepted boundary behaviour
    assert_eq!(parse("show me the rows").unwrap(), Command::Show);
    let (_, code) = parse_err("load data into x");
    assert_eq!(code, ErrorCode::TrailingInput);
}
