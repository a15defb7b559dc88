//! The command grammar: one raw input line becomes a typed [`Command`].
//!
//! The grammar skips leading blanks, reads a maximal run of ASCII letters as
//! the keyword, and dispatches on it case-insensitively: `quit`, `show`,
//! `load <path> [without header] [as <name>]`. Any other keyword gives
//! [`Command::NotFound`], which marks the whole line as opaque pass-through
//! text for the query engine — a distinct outcome, not a failure. A query
//! that happens to begin with one of the keywords is therefore taken as a
//! control command; that boundary behaviour is deliberate.
//!
//! The whole parse is specified by [`parse_spec`] and [`load_spec`], which
//! say exactly which lines are accepted, which fail, and with which error.

use vstd::prelude::*;

use crate::text::{
    ci_eq, ci_eq_range, ci_match_at, ci_match_str, scan, scan_str, CharClass,
};

verus! {

/// What the parser decided about one input line.
#[derive(Debug, PartialEq)]
pub enum Command {
    /// The first keyword matched nothing: the line is opaque query text.
    NotFound,
    /// Terminate the session.
    Quit,
    /// Register a file as a queryable table.
    Load(LoadCommand),
    /// List the known tables.
    Show,
}

/// The argument portion of a `load` command.
#[derive(Debug, PartialEq)]
pub struct LoadCommand {
    has_header: bool,
    path: String,
    table: Option<String>,
}

/// Why a line failed to parse.
#[derive(Clone, Copy, Debug, PartialEq, Eq, Structural)]
pub enum ErrorCode {
    /// No run of letters could be read after the leading blanks.
    NoKeyword,
    /// The `load` clause held no path token.
    NoPath,
    /// The `as ` literal matched but no table token followed it.
    MissingTable,
    /// Characters remained after the last recognised clause.
    TrailingInput,
}

/// A failed parse: the unconsumed remainder and a failure code.
#[derive(Debug, PartialEq)]
pub enum CommandError {
    ParseError { input: String, code: ErrorCode },
}

/// Mathematical model of a [`LoadCommand`].
pub struct LoadModel {
    pub has_header: bool,
    pub path: Seq<char>,
    pub table: Option<Seq<char>>,
}

/// Mathematical model of a [`Command`].
pub enum CommandModel {
    NotFound,
    Quit,
    Load(LoadModel),
    Show,
}

/// Mathematical model of a [`CommandError`].
pub struct ErrorModel {
    pub input: Seq<char>,
    pub code: ErrorCode,
}

impl View for LoadCommand {
    type V = LoadModel;

    closed spec fn view(&self) -> LoadModel {
        LoadModel {
            has_header: self.has_header,
            path: self.path@,
            table: match self.table {
                Option::Some(t) => Option::Some(t@),
                Option::None => Option::None,
            },
        }
    }
}

impl View for Command {
    type V = CommandModel;

    closed spec fn view(&self) -> CommandModel {
        match self {
            Command::NotFound => CommandModel::NotFound,
            Command::Quit => CommandModel::Quit,
            Command::Load(lc) => CommandModel::Load(lc@),
            Command::Show => CommandModel::Show,
        }
    }
}

impl View for CommandError {
    type V = ErrorModel;

    closed spec fn view(&self) -> ErrorModel {
        match self {
            CommandError::ParseError { input, code } => ErrorModel { input: input@, code: *code },
        }
    }
}

/// The load clause, parsed from the remainder after the `load` keyword:
/// a path token, an optional case-insensitive `without header`, an optional
/// case-insensitive `as ` followed by a table token, then only blanks.
pub open spec fn load_spec(r: Seq<char>) -> Result<LoadModel, ErrorModel> {
    let ps = scan(r, 0, CharClass::Blank);
    let pe = scan(r, ps, CharClass::NonBlank);
    if pe == ps {
        Result::Err(ErrorModel { input: r.subrange(ps, r.len() as int), code: ErrorCode::NoPath })
    } else {
        let ws = scan(r, pe, CharClass::Blank);
        let wh = ci_match_at(r, ws, "without header"@);
        let after = if wh {
            ws + "without header"@.len()
        } else {
            ws
        };
        let asp = scan(r, after, CharClass::Blank);
        if ci_match_at(r, asp, "as "@) {
            let ts = asp + "as "@.len();
            let te = scan(r, ts, CharClass::NonBlank);
            if te == ts {
                Result::Err(
                    ErrorModel {
                        input: r.subrange(ts, r.len() as int),
                        code: ErrorCode::MissingTable,
                    },
                )
            } else {
                let end = scan(r, te, CharClass::Blank);
                if end == r.len() {
                    Result::Ok(
                        LoadModel {
                            has_header: !wh,
                            path: r.subrange(ps, pe),
                            table: Option::Some(r.subrange(ts, te)),
                        },
                    )
                } else {
                    Result::Err(
                        ErrorModel {
                            input: r.subrange(end, r.len() as int),
                            code: ErrorCode::TrailingInput,
                        },
                    )
                }
            }
        } else {
            if asp == r.len() {
                Result::Ok(
                    LoadModel { has_header: !wh, path: r.subrange(ps, pe), table: Option::None },
                )
            } else {
                Result::Err(
                    ErrorModel {
                        input: r.subrange(asp, r.len() as int),
                        code: ErrorCode::TrailingInput,
                    },
                )
            }
        }
    }
}

/// The whole grammar: leading blanks, a maximal keyword of letters, blanks,
/// then the dispatch on the keyword. Fails only when no letter run can be
/// read; an unknown keyword is the distinct `NotFound` outcome.
pub open spec fn parse_spec(s: Seq<char>) -> Result<CommandModel, ErrorModel> {
    let ks = scan(s, 0, CharClass::Blank);
    let ke = scan(s, ks, CharClass::Alpha);
    if ke == ks {
        Result::Err(
            ErrorModel { input: s.subrange(ks, s.len() as int), code: ErrorCode::NoKeyword },
        )
    } else {
        let kw = s.subrange(ks, ke);
        let rs = scan(s, ke, CharClass::Blank);
        let rem = s.subrange(rs, s.len() as int);
        if ci_eq(kw, "quit"@) {
            Result::Ok(CommandModel::Quit)
        } else if ci_eq(kw, "show"@) {
            Result::Ok(CommandModel::Show)
        } else if ci_eq(kw, "load"@) {
            match load_spec(rem) {
                Result::Ok(lm) => Result::Ok(CommandModel::Load(lm)),
                Result::Err(e) => Result::Err(e),
            }
        } else {
            Result::Ok(CommandModel::NotFound)
        }
    }
}

/// Whether the returned command is exactly the modelled outcome.
pub open spec fn command_models(
    r: Result<Command, CommandError>,
    m: Result<CommandModel, ErrorModel>,
) -> bool {
    match (r, m) {
        (Result::Ok(c), Result::Ok(cm)) => c@ == cm,
        (Result::Err(e), Result::Err(em)) => e@ == em,
        _ => false,
    }
}

/// Whether the returned load clause is exactly the modelled outcome.
pub open spec fn load_models(
    r: Result<LoadCommand, CommandError>,
    m: Result<LoadModel, ErrorModel>,
) -> bool {
    match (r, m) {
        (Result::Ok(c), Result::Ok(cm)) => c@ == cm,
        (Result::Err(e), Result::Err(em)) => e@ == em,
        _ => false,
    }
}

impl LoadCommand {
    /// Parses the remainder of a `load` line; the entire remainder must be
    /// consumed or the parse fails.
    pub fn parse(r: &str) -> (res: Result<LoadCommand, CommandError>)
        ensures
            load_models(res, load_spec(r@)),
    {
        let n = r.unicode_len();
        let ps = scan_str(r, n, 0, CharClass::Blank);
        let pe = scan_str(r, n, ps, CharClass::NonBlank);
        if pe == ps {
            return Result::Err(
                CommandError::ParseError {
                    input: r.substring_char(ps, n).to_owned(),
                    code: ErrorCode::NoPath,
                },
            );
        }
        let ws = scan_str(r, n, pe, CharClass::Blank);
        let wh = ci_match_str(r, n, ws, "without header");
        proof {
            reveal_strlit("without header");
            reveal_strlit("as ");
        }
        let after = if wh {
            ws + 14
        } else {
            ws
        };
        let asp = scan_str(r, n, after, CharClass::Blank);
        if ci_match_str(r, n, asp, "as ") {
            let ts = asp + 3;
            let te = scan_str(r, n, ts, CharClass::NonBlank);
            if te == ts {
                Result::Err(
                    CommandError::ParseError {
                        input: r.substring_char(ts, n).to_owned(),
                        code: ErrorCode::MissingTable,
                    },
                )
            } else {
                let end = scan_str(r, n, te, CharClass::Blank);
                if end == n {
                    Result::Ok(
                        LoadCommand {
                            has_header: !wh,
                            path: r.substring_char(ps, pe).to_owned(),
                            table: Option::Some(r.substring_char(ts, te).to_owned()),
                        },
                    )
                } else {
                    Result::Err(
                        CommandError::ParseError {
                            input: r.substring_char(end, n).to_owned(),
                            code: ErrorCode::TrailingInput,
                        },
                    )
                }
            }
        } else {
            if asp == n {
                Result::Ok(
                    LoadCommand {
                        has_header: !wh,
                        path: r.substring_char(ps, pe).to_owned(),
                        table: Option::None,
                    },
                )
            } else {
                Result::Err(
                    CommandError::ParseError {
                        input: r.substring_char(asp, n).to_owned(),
                        code: ErrorCode::TrailingInput,
                    },
                )
            }
        }
    }

    /// Whether the loaded file's first row is a header row.
    pub fn has_header(&self) -> (b: bool)
        ensures
            b == self@.has_header,
    {
        self.has_header
    }

    /// The path token of the clause.
    pub fn path(&self) -> (p: &str)
        ensures
            p@ == self@.path,
    {
        self.path.as_str()
    }

    /// The explicit table name, if the clause gave one.
    pub fn table(&self) -> (t: Option<&str>)
        ensures
            match t {
                Option::Some(name) => self@.table == Option::Some(name@),
                Option::None => self@.table is None,
            },
    {
        match &self.table {
            Option::Some(name) => Option::Some(name.as_str()),
            Option::None => Option::None,
        }
    }
}

impl Command {
    /// Parses one raw input line.
    pub fn parse(line: &str) -> (res: Result<Command, CommandError>)
        ensures
            command_models(res, parse_spec(line@)),
    {
        let n = line.unicode_len();
        let ks = scan_str(line, n, 0, CharClass::Blank);
        let ke = scan_str(line, n, ks, CharClass::Alpha);
        if ke == ks {
            return Result::Err(
                CommandError::ParseError {
                    input: line.substring_char(ks, n).to_owned(),
                    code: ErrorCode::NoKeyword,
                },
            );
        }
        let rs = scan_str(line, n, ke, CharClass::Blank);
        if ci_eq_range(line, n, ks, ke, "quit") {
            Result::Ok(Command::Quit)
        } else if ci_eq_range(line, n, ks, ke, "show") {
            Result::Ok(Command::Show)
        } else if ci_eq_range(line, n, ks, ke, "load") {
            let rem = line.substring_char(rs, n);
            match LoadCommand::parse(rem) {
                Result::Ok(lc) => Result::Ok(Command::Load(lc)),
                Result::Err(e) => Result::Err(e),
            }
        } else {
            Result::Ok(Command::NotFound)
        }
    }
}

impl CommandError {
    /// The unconsumed remainder at the point of failure.
    pub fn input(&self) -> (i: &str)
        ensures
            i@ == self@.input,
    {
        match self {
            CommandError::ParseError { input, .. } => input.as_str(),
        }
    }

    /// The failure code.
    pub fn code(&self) -> (c: ErrorCode)
        ensures
            c == self@.code,
    {
        match self {
            CommandError::ParseError { code, .. } => *code,
        }
    }

    /// A human-readable description of the failure.
    pub fn message(&self) -> (m: String)
        ensures
            m@ == "Command parsing failed"@,
    {
        "Command parsing failed".to_owned()
    }
}

/// Parsing is deterministic: the outcome is a function of the input line
/// alone, so parsing the same line twice yields equal values.
pub proof fn lemma_parse_deterministic(s1: Seq<char>, s2: Seq<char>)
    requires
        s1 == s2,
    ensures
        parse_spec(s1) == parse_spec(s2),
{
}

} // verus!

