//! The startup parameters: a file to operate on and whether its first row
//! is data rather than a header. They are read once at process start,
//! outside this crate, and handed in as plain values.

use vstd::prelude::*;

verus! {

/// The startup parameters of the shell.
#[derive(Debug)]
pub struct Args {
    no_header: bool,
    file: String,
}

/// Mathematical model of [`Args`].
pub struct ArgsModel {
    pub no_header: bool,
    pub file: Seq<char>,
}

impl View for Args {
    type V = ArgsModel;

    closed spec fn view(&self) -> ArgsModel {
        ArgsModel { no_header: self.no_header, file: self.file@ }
    }
}

impl Args {
    /// Startup parameters as given on the command line.
    pub fn new(no_header: bool, file: String) -> (a: Args)
        ensures
            a@.no_header == no_header,
            a@.file == file@,
    {
        Args { no_header, file }
    }

    /// Whether the file was declared to have no header row.
    pub fn no_header(&self) -> (b: bool)
        ensures
            b == self@.no_header,
    {
        self.no_header
    }

    /// The file to operate on.
    pub fn file(&self) -> (f: &str)
        ensures
            f@ == self@.file,
    {
        self.file.as_str()
    }
}

} // verus!
