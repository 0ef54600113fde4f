//! The value records that flow through the execution pipeline.
use vstd::prelude::*;
use crate::text::texts;

verus! {

/// One finished execution of a command line.
#[derive(Clone, Debug, PartialEq)]
pub struct CommandResult {
    /// The command text that was run.
    pub command: String,
    /// Captured standard output.
    pub output: String,
    /// Captured standard error.
    pub error: String,
    /// Exit status; `-1` when the process ended without one (killed by a signal).
    pub exit_code: i32,
    /// Wall-clock duration in milliseconds.
    pub duration_ms: u64,
    /// Whether the command went through the augmentation service.
    pub autowire_processed: bool,
}

/// The mathematical content of a `CommandResult`.
pub struct CommandResultView {
    pub command: Seq<char>,
    pub output: Seq<char>,
    pub error: Seq<char>,
    pub exit_code: i32,
    pub duration_ms: u64,
    pub autowire_processed: bool,
}

impl View for CommandResult {
    type V = CommandResultView;

    open spec fn view(&self) -> CommandResultView {
        CommandResultView {
            command: self.command@,
            output: self.output@,
            error: self.error@,
            exit_code: self.exit_code,
            duration_ms: self.duration_ms,
            autowire_processed: self.autowire_processed,
        }
    }
}

/// What the augmentation service answered for one command.
#[derive(Clone, Debug, PartialEq)]
pub struct AutoWireResult {
    /// The command to run in place of the one that was typed.
    pub processed_command: String,
    /// Advice for the user, in order.
    pub suggestions: Vec<String>,
    /// The handler that produced the answer, if the service named one.
    pub agent_used: Option<String>,
    /// The confidence score in [0.0, 1.0], kept as the bit pattern of the
    /// service's single-precision value.
    pub confidence_bits: u32,
}

/// The mathematical content of an `AutoWireResult`.
pub struct AutoWireView {
    pub processed_command: Seq<char>,
    pub suggestions: Seq<Seq<char>>,
    pub agent_used: Option<Seq<char>>,
    pub confidence_bits: u32,
}

pub open spec fn opt_text(o: Option<String>) -> Option<Seq<char>> {
    match o {
        Some(s) => Some(s@),
        None => None,
    }
}

impl View for AutoWireResult {
    type V = AutoWireView;

    open spec fn view(&self) -> AutoWireView {
        AutoWireView {
            processed_command: self.processed_command@,
            suggestions: texts(self.suggestions@),
            agent_used: opt_text(self.agent_used),
            confidence_bits: self.confidence_bits,
        }
    }
}

/// A copy of a list of strings.
pub fn copy_strings(v: &Vec<String>) -> (r: Vec<String>)
    ensures
        texts(r@) == texts(v@),
{
    let mut r: Vec<String> = Vec::new();
    let mut i: usize = 0;
    while i < v.len()
        invariant
            i <= v@.len(),
            texts(r@) == texts(v@).subrange(0, i as int),
        decreases v@.len() - i,
    {
        let s = v[i].clone();
        let ghost before = r@;
        r.push(s);
        proof {
            assert(texts(r@) =~= texts(before).push(s@));
            assert(texts(v@).subrange(0, i as int + 1) =~= texts(v@).subrange(0, i as int).push(
                v@[i as int]@,
            ));
        }
        i = i + 1;
    }
    proof {
        assert(texts(v@).subrange(0, v@.len() as int) =~= texts(v@));
    }
    r
}

impl AutoWireResult {
    /// A field-by-field copy.
    pub fn copy(&self) -> (r: AutoWireResult)
        ensures
            r@ == self@,
    {
        let agent_used = match &self.agent_used {
            Some(a) => Some(a.clone()),
            None => None,
        };
        AutoWireResult {
            processed_command: self.processed_command.clone(),
            suggestions: copy_strings(&self.suggestions),
            agent_used,
            confidence_bits: self.confidence_bits,
        }
    }
}

} // verus!
