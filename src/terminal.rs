//! The execution coordinator: command history, the output log, and the choice
//! between running a command as typed or as the augmentation service rewrote it.
use vstd::prelude::*;
use crate::bridge::{
    AutoWireBridge, BridgeStep, ServiceReply, json_string_literal, opt_view, reply_answer,
    request_script,
};
use crate::config::Config;
use crate::records::{AutoWireResult, AutoWireView, CommandResult, CommandResultView, copy_strings};
use crate::text::{lines_of, push_lines, texts};

verus! {

/// What the shell produced for one command line.
pub struct ShellRun {
    /// Standard output, decoded as UTF-8 with invalid sequences replaced.
    pub stdout: String,
    /// Standard error, decoded the same way.
    pub stderr: String,
    /// The exit status; `None` when the process ended without one.
    pub exit_code: Option<i32>,
    /// Wall-clock duration in milliseconds.
    pub duration_ms: u64,
}

/// The shell could not be started.
#[derive(Clone, Debug)]
pub struct SpawnError {
    pub message: String,
}

/// Label of the output line that carries standard error.
pub const ERROR_PREFIX: &'static str = "Error: ";

/// Label of the output line that carries the service's suggestions.
pub const SUGGESTION_PREFIX: &'static str = "\n\u{1F4A1} Auto-Wiring Suggestions: ";

/// The text that `Debug` gives a list of strings.
pub uninterp spec fn debug_list_text(v: Seq<Seq<char>>) -> Seq<char>;

/// Relies on the `Debug` formatting of `Vec<String>`: a bracketed list of
/// quoted, escaped strings, fixed by the strings alone.
#[verifier::external_body]
fn debug_list(v: &Vec<String>) -> (r: String)
    ensures
        r@ == debug_list_text(texts(v@)),
{
    format!("{:?}", v)
}

pub open spec fn exit_code_of(code: Option<i32>) -> i32 {
    match code {
        Some(c) => c,
        None => -1i32,
    }
}

/// The command that is run: the service's rewrite where there is one.
pub open spec fn ran_command(command: Seq<char>, aug: Option<AutoWireView>) -> Seq<char> {
    match aug {
        Some(a) => a.processed_command,
        None => command,
    }
}

/// The command line to hand to the shell: the service's rewrite where there
/// is one, else the command as typed.
pub fn command_to_run(command: &str, aug: &Option<AutoWireResult>) -> (r: String)
    ensures
        r@ == ran_command(command@, opt_view(*aug)),
{
    match aug {
        Some(a) => a.processed_command.clone(),
        None => command.to_string(),
    }
}

/// The record of running `command` (as rewritten by `aug`, if any).
pub open spec fn result_of(command: Seq<char>, aug: Option<AutoWireView>, run: ShellRun) -> CommandResultView {
    CommandResultView {
        command: ran_command(command, aug),
        output: run.stdout@,
        error: run.stderr@,
        exit_code: exit_code_of(run.exit_code),
        duration_ms: run.duration_ms,
        autowire_processed: aug is Some,
    }
}

/// The output log after a run: the lines of standard output, then, if
/// standard error is not empty, the lines of the labelled error text.
pub open spec fn output_after_run(out: Seq<Seq<char>>, run: ShellRun) -> Seq<Seq<char>> {
    let with_stdout = out + lines_of(run.stdout@);
    if run.stderr@.len() == 0 {
        with_stdout
    } else {
        with_stdout + lines_of(ERROR_PREFIX@ + run.stderr@)
    }
}

/// The lines added for the service's suggestions, when it made any.
pub open spec fn suggestion_lines(aug: Option<AutoWireView>) -> Seq<Seq<char>> {
    if aug is Some && aug->0.suggestions.len() > 0 {
        lines_of(SUGGESTION_PREFIX@ + debug_list_text(aug->0.suggestions))
    } else {
        Seq::empty()
    }
}

/// The lines that results delivered in the background add, in order.
pub open spec fn delivered_lines(s: Seq<CommandResult>) -> Seq<Seq<char>>
    decreases s.len(),
{
    if s.len() == 0 {
        Seq::empty()
    } else {
        delivered_lines(s.drop_last()) + lines_of(s.last().output@)
    }
}

pub struct Terminal {
    config: Config,
    output_buffer: Vec<String>,
    command_history: Vec<String>,
    autowire_bridge: Option<AutoWireBridge>,
}

impl Terminal {
    pub closed spec fn wf(&self) -> bool {
        self.autowire_bridge matches Some(b) ==> b.wf()
    }

    /// The output log, oldest line first.
    pub closed spec fn output(&self) -> Seq<Seq<char>> {
        texts(self.output_buffer@)
    }

    /// Every command run, in order.
    pub closed spec fn history(&self) -> Seq<Seq<char>> {
        texts(self.command_history@)
    }

    /// The augmentation bridge, when integration is enabled.
    pub closed spec fn bridge(&self) -> Option<AutoWireBridge> {
        self.autowire_bridge
    }

    pub closed spec fn config(&self) -> Config {
        self.config
    }

    pub fn new(config: Config) -> (r: Terminal)
        ensures
            r.wf(),
            r.output() == Seq::<Seq<char>>::empty(),
            r.history() == Seq::<Seq<char>>::empty(),
            r.bridge() is None,
            r.config() == config,
    {
        Terminal {
            config,
            output_buffer: Vec::new(),
            command_history: Vec::new(),
            autowire_bridge: None,
        }
    }

    /// The shell that commands run in.
    pub fn shell(&self) -> (r: &String)
        ensures
            r@ == self.config().shell@,
    {
        &self.config.shell
    }

    /// Turns augmentation on, with the outcome of the one service probe.
    pub fn enable_autowire_integration(&mut self, python_available: bool)
        ensures
            final(self).wf(),
            final(self).bridge() matches Some(b) && b.available() == python_available
                && b.cached() == Map::<Seq<char>, AutoWireView>::empty(),
            final(self).output() == old(self).output(),
            final(self).history() == old(self).history(),
            final(self).config() == old(self).config(),
    {
        self.autowire_bridge = Some(AutoWireBridge::new(python_available));
    }

    /// The bridge, for status queries.
    pub fn autowire(&self) -> (r: Option<&AutoWireBridge>)
        ensures
            r matches Some(b) ==> self.bridge() == Some(*b),
            r is None <==> self.bridge() is None,
    {
        match &self.autowire_bridge {
            Some(b) => Some(b),
            None => None,
        }
    }

    /// Appends the lines of `text` to the output log.
    pub fn add_output(&mut self, text: &str)
        ensures
            final(self).output() == old(self).output() + lines_of(text@),
            final(self).history() == old(self).history(),
            final(self).bridge() == old(self).bridge(),
            final(self).config() == old(self).config(),
    {
        push_lines(&mut self.output_buffer, text);
    }

    /// A copy of the output log.
    pub fn get_output(&self) -> (r: Vec<String>)
        ensures
            texts(r@) == self.output(),
    {
        copy_strings(&self.output_buffer)
    }

    pub fn clear_output(&mut self)
        ensures
            final(self).output() == Seq::<Seq<char>>::empty(),
            final(self).history() == old(self).history(),
            final(self).bridge() == old(self).bridge(),
            final(self).config() == old(self).config(),
    {
        self.output_buffer = Vec::new();
        proof {
            assert(texts(self.output_buffer@) =~= Seq::<Seq<char>>::empty());
        }
    }

    pub fn get_history(&self) -> (r: &[String])
        ensures
            texts(r@) == self.history(),
    {
        self.command_history.as_slice()
    }

    /// Records a run of `command` by the shell: the command joins the history
    /// whether or not the shell started; a run's output joins the log.
    pub fn execute_command(&mut self, command: &str, run: Result<ShellRun, SpawnError>) -> (r: Result<
        CommandResult,
        SpawnError,
    >)
        requires
            old(self).wf(),
        ensures
            final(self).wf(),
            final(self).history() == old(self).history().push(command@),
            final(self).bridge() == old(self).bridge(),
            final(self).config() == old(self).config(),
            match run {
                Ok(x) => r matches Ok(res) && res@ == result_of(command@, None, x)
                    && final(self).output() == output_after_run(old(self).output(), x),
                Err(e) => r matches Err(f) && f.message@ == e.message@ && final(self).output()
                    == old(self).output(),
            },
    {
        let ghost h = self.command_history@;
        self.command_history.push(command.to_string());
        proof {
            assert(texts(self.command_history@) =~= texts(h).push(command@));
        }
        match run {
            Err(e) => Err(e),
            Ok(x) => {
                let result = CommandResult {
                    command: command.to_string(),
                    output: x.stdout,
                    error: x.stderr,
                    exit_code: match x.exit_code {
                        Some(c) => c,
                        None => -1,
                    },
                    duration_ms: x.duration_ms,
                    autowire_processed: false,
                };
                self.add_output(result.output.as_str());
                if !result.error.as_str().is_empty() {
                    let mut line = String::from_str(ERROR_PREFIX);
                    line.append(result.error.as_str());
                    self.add_output(line.as_str());
                }
                Ok(result)
            },
        }
    }

    /// What to do about augmentation for `command` before it runs.
    pub fn autowire_begin(&self, command: &str) -> (r: BridgeStep)
        requires
            self.wf(),
        ensures
            self.bridge() is None ==> r matches BridgeStep::Done(None),
            self.bridge() is Some && !self.bridge()->0.available() ==> r matches BridgeStep::Done(
                None,
            ),
            self.bridge() is Some && self.bridge()->0.known_answer(command@) is Some ==> (r matches BridgeStep::Done(
                Some(v),
            ) && v@ == self.bridge()->0.known_answer(command@)->0),
            self.bridge() is Some && self.bridge()->0.available() && !self.bridge()->0.cached().contains_key(
                command@,
            ) ==> (r matches BridgeStep::CallService(s) && s@ == request_script(
                json_string_literal(command@),
            )),
    {
        match &self.autowire_bridge {
            Some(b) => b.prepare(command),
            None => BridgeStep::Done(None),
        }
    }

    /// Hands the service's reply for `command` to the bridge.
    pub fn autowire_settle(&mut self, command: &str, reply: ServiceReply) -> (r: Option<AutoWireResult>)
        requires
            old(self).wf(),
        ensures
            final(self).wf(),
            final(self).output() == old(self).output(),
            final(self).history() == old(self).history(),
            final(self).config() == old(self).config(),
            old(self).bridge() is None ==> r is None && final(self).bridge() is None,
            old(self).bridge() is Some ==> opt_view(r) == reply_answer(
                reply.succeeded,
                reply.stdout@,
                opt_view(reply.parsed),
            ),
            old(self).bridge() is Some ==> final(self).bridge() is Some && final(self).bridge()->0.available() == old(self).bridge()->0.available() && final(self).bridge()->0.cached() == match r {
                Some(v) => old(self).bridge()->0.cached().insert(command@, v@),
                None => old(self).bridge()->0.cached(),
            },
    {
        match &mut self.autowire_bridge {
            Some(b) => b.settle(command, reply),
            None => None,
        }
    }

    /// Records a run after augmentation: with an answer, the rewritten command
    /// was run, the result is marked, and any suggestions join the log; without
    /// one, this is exactly `execute_command` on the command as typed.
    pub fn complete_augmented(
        &mut self,
        command: &str,
        aug: Option<AutoWireResult>,
        run: Result<ShellRun, SpawnError>,
    ) -> (r: Result<CommandResult, SpawnError>)
        requires
            old(self).wf(),
        ensures
            final(self).wf(),
            final(self).history() == old(self).history().push(
                ran_command(command@, opt_view(aug)),
            ),
            final(self).bridge() == old(self).bridge(),
            final(self).config() == old(self).config(),
            match run {
                Ok(x) => r matches Ok(res) && res@ == result_of(command@, opt_view(aug), x)
                    && final(self).output() == output_after_run(old(self).output(), x)
                    + suggestion_lines(opt_view(aug)),
                Err(e) => r matches Err(f) && f.message@ == e.message@ && final(self).output()
                    == old(self).output(),
            },
    {
        match aug {
            None => {
                let ghost run0 = run;
                let r = self.execute_command(command, run);
                proof {
                    if let Ok(x) = run0 {
                        assert(suggestion_lines(None) =~= Seq::<Seq<char>>::empty());
                        assert(final(self).output() =~= output_after_run(old(self).output(), x)
                            + suggestion_lines(None));
                    }
                }
                r
            },
            Some(a) => {
                let r = self.execute_command(a.processed_command.as_str(), run);
                match r {
                    Err(e) => Err(e),
                    Ok(mut res) => {
                        res.autowire_processed = true;
                        let ghost mid = self.output();
                        if a.suggestions.len() > 0 {
                            let listed = debug_list(&a.suggestions);
                            let mut line = String::from_str(SUGGESTION_PREFIX);
                            line.append(listed.as_str());
                            self.add_output(line.as_str());
                        } else {
                            proof {
                                assert(mid + suggestion_lines(opt_view(aug)) =~= mid);
                            }
                        }
                        Ok(res)
                    },
                }
            },
        }
    }

    /// Appends the output of results delivered in the background, in order.
    pub fn update_output(&mut self, delivered: Vec<CommandResult>)
        ensures
            final(self).output() == old(self).output() + delivered_lines(delivered@),
            final(self).history() == old(self).history(),
            final(self).bridge() == old(self).bridge(),
            final(self).config() == old(self).config(),
    {
        let mut i: usize = 0;
        while i < delivered.len()
            invariant
                i <= delivered@.len(),
                self.output() == old(self).output() + delivered_lines(delivered@.subrange(0, i as int)),
                self.history() == old(self).history(),
                self.bridge() == old(self).bridge(),
                self.config() == old(self).config(),
            decreases delivered@.len() - i,
        {
            let ghost before = self.output();
            self.add_output(delivered[i].output.as_str());
            proof {
                let s = delivered@.subrange(0, i as int + 1);
                assert(s.drop_last() =~= delivered@.subrange(0, i as int));
                assert(self.output() =~= old(self).output() + delivered_lines(s));
            }
            i = i + 1;
        }
        proof {
            assert(delivered@.subrange(0, delivered@.len() as int) =~= delivered@);
        }
    }
}

} // verus!
