//! The `init` subcommand.  It only announces what it would set up; the
//! driver prints the message.

use vstd::prelude::*;

verus! {

use crate::text::push_str;

/// The `init` subcommand with its one option.
pub struct Init {
    /// Path of the project to create; the current directory when absent.
    pub path: Option<String>,
}

impl Init {
    /// The announcement the command makes, naming the project path, which
    /// defaults to the current directory.
    pub fn message(&self) -> (m: Vec<char>)
        ensures
            m@ == "Git checkout init project and name it '"@ + (match self.path {
                Some(p) => p@,
                None => "."@,
            }) + "'"@,
    {
        let mut m: Vec<char> = Vec::new();
        push_str(&mut m, "Git checkout init project and name it '");
        match &self.path {
            Some(p) => push_str(&mut m, p.as_str()),
            None => push_str(&mut m, "."),
        }
        push_str(&mut m, "'");
        m
    }
}

} // verus!
