//! Command line records and the placeholder executor.
use vstd::prelude::*;

verus! {

pub struct ParsedCommand {
    pub command: String,
    pub args: Vec<String>,
}

pub struct CommandParser;

impl CommandParser {
    pub fn new() -> (r: CommandParser) {
        CommandParser
    }

    /// The whole input is the command; arguments are not split off.
    pub fn parse(&self, input: &str) -> (r: Result<ParsedCommand, ()>)
        ensures
            r matches Ok(p) && p.command@ == input@ && p.args@.len() == 0,
    {
        Ok(ParsedCommand { command: input.to_string(), args: Vec::new() })
    }
}

pub struct Executor;

/// The prefix of the executor's report.
pub const EXECUTED_PREFIX: &'static str = "Executed: ";

impl Executor {
    pub fn new() -> (r: Executor) {
        Executor
    }

    /// A report that the command was executed.
    pub fn execute(&self, command: &str) -> (r: Result<String, ()>)
        ensures
            r matches Ok(s) && s@ == EXECUTED_PREFIX@ + command@,
    {
        let mut s = String::from_str(EXECUTED_PREFIX);
        s.append(command);
        Ok(s)
    }
}

} // verus!
