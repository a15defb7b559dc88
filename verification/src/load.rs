//! The pure decisions behind loading a file: which reader a file name
//! routes to, and which table name a load registers.
//!
//! The dispatch layer hands these functions plain values (the file name
//! component of the resolved path and the parsed clause) and performs the
//! actual registration itself; everything decided here is proved exact.

use vstd::prelude::*;

use crate::text::{push_char, str_eq};

verus! {

/// The file formats the shell can route to a reader.
#[derive(Clone, Copy, Debug, PartialEq, Eq, Structural)]
pub enum FileFormat {
    Csv,
    Parquet,
}

/// The format an extension routes to: `csv` and `parquet` are recognised,
/// exactly and case-sensitively; anything else is unsupported.
pub open spec fn format_of(ext: Seq<char>) -> Option<FileFormat> {
    if ext == "csv"@ {
        Option::Some(FileFormat::Csv)
    } else if ext == "parquet"@ {
        Option::Some(FileFormat::Parquet)
    } else {
        Option::None
    }
}

/// Routes a file extension to its reader, if any.
pub fn classify_extension(ext: &str) -> (r: Option<FileFormat>)
    ensures
        r == format_of(ext@),
{
    if str_eq(ext, "csv") {
        Option::Some(FileFormat::Csv)
    } else if str_eq(ext, "parquet") {
        Option::Some(FileFormat::Parquet)
    } else {
        Option::None
    }
}

/// The index of the last `'.'` of `s` strictly before `i`, or `-1` when
/// there is none.
pub open spec fn last_dot_before(s: Seq<char>, i: int) -> int
    decreases i,
{
    if i <= 0 {
        -1
    } else if s[i - 1] == '.' {
        i - 1
    } else {
        last_dot_before(s, i - 1)
    }
}

pub proof fn lemma_last_dot(s: Seq<char>, i: int)
    requires
        0 <= i <= s.len(),
    ensures
        -1 <= last_dot_before(s, i) < i,
        last_dot_before(s, i) >= 0 ==> s[last_dot_before(s, i)] == '.',
        forall|j: int| last_dot_before(s, i) < j < i ==> s[j] != '.',
    decreases i,
{
    if i > 0 && s[i - 1] != '.' {
        lemma_last_dot(s, i - 1);
    }
}

/// What splitting a file name at its last dot yields: the stem and the
/// extension, or nothing when the name holds no dot.
pub open spec fn split_extension_spec(s: Seq<char>) -> Option<(Seq<char>, Seq<char>)> {
    let d = last_dot_before(s, s.len() as int);
    if d >= 0 {
        Option::Some((s.subrange(0, d), s.subrange(d + 1, s.len() as int)))
    } else {
        Option::None
    }
}

/// Splits a file name at its last dot into stem and extension.
pub fn split_extension(file: &str) -> (r: Option<(String, String)>)
    ensures
        match r {
            Option::Some(parts) => {
                &&& split_extension_spec(file@) matches Option::Some(m)
                &&& parts.0@ == m.0
                &&& parts.1@ == m.1
            },
            Option::None => split_extension_spec(file@) is None,
        },
{
    let n = file.unicode_len();
    proof {
        lemma_last_dot(file@, n as int);
    }
    let mut i: usize = n;
    loop
        invariant
            0 <= i <= n,
            n == file@.len(),
            last_dot_before(file@, n as int) == last_dot_before(file@, i as int),
        decreases i,
    {
        if i == 0 {
            return Option::None;
        }
        let c = file.get_char(i - 1);
        if c == '.' {
            let stem = file.substring_char(0, i - 1).to_owned();
            let ext = file.substring_char(i, n).to_owned();
            return Option::Some((stem, ext));
        }
        i = i - 1;
    }
}

/// A file name with every dot replaced by an underscore: the table name
/// derived when a load clause names no table.
pub open spec fn dots_to_underscores(s: Seq<char>) -> Seq<char> {
    Seq::new(
        s.len(),
        |i: int|
            if s[i] == '.' {
                '_'
            } else {
                s[i]
            },
    )
}

/// Derives a table name from a file name by replacing dots with
/// underscores.
pub fn derive_table_name(file: &str) -> (t: String)
    ensures
        t@ == dots_to_underscores(file@),
{
    let n = file.unicode_len();
    let mut t = String::new();
    let mut i: usize = 0;
    loop
        invariant
            0 <= i <= n,
            n == file@.len(),
            t@.len() == i,
            forall|q: int|
                0 <= q < i ==> t@[q] == (if file@[q] == '.' {
                    '_'
                } else {
                    file@[q]
                }),
        decreases n - i,
    {
        if i == n {
            proof {
                assert(t@ =~= dots_to_underscores(file@));
            }
            return t;
        }
        let c = file.get_char(i);
        if c == '.' {
            push_char(&mut t, '_');
        } else {
            push_char(&mut t, c);
        }
        i = i + 1;
    }
}

/// The table a load registers under: the explicitly requested name when the
/// clause gave one, else the name derived from the file name.
pub fn table_name(requested: Option<&str>, file: &str) -> (t: String)
    ensures
        match requested {
            Option::Some(name) => t@ == name@,
            Option::None => t@ == dots_to_underscores(file@),
        },
{
    match requested {
        Option::Some(name) => name.to_owned(),
        Option::None => derive_table_name(file),
    }
}

} // verus!
