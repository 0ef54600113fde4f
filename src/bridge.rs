//! The augmentation bridge: decides when the outside advisory service is asked,
//! keeps its answers in a cache, and turns every failure into "no augmentation".
use vstd::prelude::*;
use crate::cache::AugmentationCache;
use crate::records::{AutoWireResult, AutoWireView};
use crate::status::service_count_of;
use crate::text::texts;

verus! {

#[verifier::external_type_specification]
#[verifier::external_body]
pub struct ExJsonError(serde_json::Error);

/// A lowercase hexadecimal digit.
pub open spec fn hex_digit(n: nat) -> char {
    if n < 10 {
        ((48 + n) as u8) as char
    } else {
        ((87 + n) as u8) as char
    }
}

/// How one character is written inside a JSON string: quote and backslash
/// behind a backslash; backspace, tab, line feed, form feed and carriage
/// return as `\b` `\t` `\n` `\f` `\r`; any other character below U+0020 as
/// `\u00` and two hex digits; every other character as itself.
pub open spec fn json_escape_char(c: char) -> Seq<char> {
    let u = c as u32;
    if c == '"' {
        seq!['\\', '"']
    } else if c == '\\' {
        seq!['\\', '\\']
    } else if u == 0x8 {
        seq!['\\', 'b']
    } else if u == 0x9 {
        seq!['\\', 't']
    } else if u == 0xa {
        seq!['\\', 'n']
    } else if u == 0xc {
        seq!['\\', 'f']
    } else if u == 0xd {
        seq!['\\', 'r']
    } else if u < 0x20 {
        seq!['\\', 'u', '0', '0', hex_digit((u / 16) as nat), hex_digit((u % 16) as nat)]
    } else {
        seq![c]
    }
}

/// The characters of a text, each escaped as inside a JSON string.
pub open spec fn json_escaped(s: Seq<char>) -> Seq<char>
    decreases s.len(),
{
    if s.len() == 0 {
        Seq::empty()
    } else {
        json_escaped(s.drop_last()) + json_escape_char(s.last())
    }
}

/// The JSON string literal of a text: quotes around its escaped characters.
pub open spec fn json_string_literal(s: Seq<char>) -> Seq<char> {
    seq!['"'] + json_escaped(s) + seq!['"']
}

/// Relies on serde_json::to_string, applied to a `str`: it writes the text
/// as one JSON string literal into a `Vec`, which cannot fail.
#[verifier::external_body]
fn json_quote(s: &str) -> (r: Result<String, serde_json::Error>)
    ensures
        r is Ok,
        r matches Ok(t) ==> t@ == json_string_literal(s@),
{
    serde_json::to_string(s)
}

/// The strings of a text that is a JSON array of strings, as serde_json reads it.
pub uninterp spec fn json_string_list(s: Seq<char>) -> Option<Seq<Seq<char>>>;

/// Relies on serde_json::from_str::<Vec<String>>: the strings of a JSON array
/// of strings, or none when the text is not one; fixed by the text alone.
#[verifier::external_body]
fn parse_string_list(s: &str) -> (r: Option<Vec<String>>)
    ensures
        match r {
            Some(v) => json_string_list(s@) == Some(texts(v@)),
            None => json_string_list(s@) is None,
        },
{
    serde_json::from_str::<Vec<String>>(s).ok()
}

/// The start of the script that the service runs, up to the command literal.
pub const SCRIPT_HEAD: &'static str = "
import sys
import json
sys.path.insert(0, '../src')

try:
    from core.autowire import get_autowire
    from agents.base_agent import BaseAgent, AgentContext

    autowire = get_autowire()

    command = ";

/// The rest of the script, after the command literal.
pub const SCRIPT_TAIL: &'static str = "

    suggestions = []
    processed_command = command

    if command.startswith('ai '):
        suggestions.append(\"Using AI agent for processing\")
        processed_command = command[3:]
    elif 'docker' in command:
        suggestions.append(\"Docker agent available\")
    elif 'git' in command:
        suggestions.append(\"Git agent available\")

    result = {
        \"processed_command\": processed_command,
        \"suggestions\": suggestions,
        \"agent_used\": None,
        \"confidence\": 0.8
    }

    print(json.dumps(result))
except Exception as e:
    print(json.dumps({\"error\": str(e)}), file=sys.stderr)
";

/// The script sent to the service for a command, given the command as a JSON literal.
pub open spec fn request_script(quoted: Seq<char>) -> Seq<char> {
    SCRIPT_HEAD@ + quoted + SCRIPT_TAIL@
}

/// The characters that `char::is_whitespace` accepts (Unicode White_Space).
pub open spec fn is_white(c: char) -> bool {
    let u = c as u32;
    (0x9 <= u <= 0xd) || u == 0x20 || u == 0x85 || u == 0xa0 || u == 0x1680 || (0x2000 <= u
        <= 0x200a) || u == 0x2028 || u == 0x2029 || u == 0x202f || u == 0x205f || u == 0x3000
}

/// A text that is empty once surrounding white space is trimmed.
pub open spec fn is_blank(s: Seq<char>) -> bool {
    forall|i: int| 0 <= i < s.len() ==> is_white(#[trigger] s[i])
}

pub fn white(c: char) -> (r: bool)
    ensures
        r == is_white(c),
{
    let u = c as u32;
    (0x9 <= u && u <= 0xd) || u == 0x20 || u == 0x85 || u == 0xa0 || u == 0x1680 || (0x2000 <= u
        && u <= 0x200a) || u == 0x2028 || u == 0x2029 || u == 0x202f || u == 0x205f || u == 0x3000
}

pub fn blank(s: &str) -> (r: bool)
    ensures
        r == is_blank(s@),
{
    let n = s.unicode_len();
    let mut i: usize = 0;
    while i < n
        invariant
            n == s@.len(),
            i <= n,
            forall|m: int| 0 <= m < i ==> is_white(#[trigger] s@[m]),
        decreases n - i,
    {
        if !white(s.get_char(i)) {
            return false;
        }
        i = i + 1;
    }
    true
}

/// What the service's run produced, as the caller observed it.
pub struct ServiceReply {
    /// Whether the service process exited with success.
    pub succeeded: bool,
    /// Its standard output, decoded as UTF-8 with invalid sequences replaced.
    pub stdout: String,
    /// That output read as a response object; `None` where it is not one.
    pub parsed: Option<AutoWireResult>,
}

pub open spec fn opt_view(o: Option<AutoWireResult>) -> Option<AutoWireView> {
    match o {
        Some(v) => Some(v@),
        None => None,
    }
}

/// The answer that a reply amounts to: nothing on a failed run, on empty
/// output, or on output that is not a response object.
pub open spec fn reply_answer(succeeded: bool, stdout: Seq<char>, parsed: Option<AutoWireView>) -> Option<
    AutoWireView,
> {
    if !succeeded || is_blank(stdout) {
        None
    } else {
        parsed
    }
}

/// The next thing to do for one command.
pub enum BridgeStep {
    /// The answer is known without asking the service.
    Done(Option<AutoWireResult>),
    /// Run the service on this script and hand its reply to `settle`.
    CallService(String),
}

/// Front of the outside advisory service.
pub struct AutoWireBridge {
    python_available: bool,
    cache: AugmentationCache,
}

impl AutoWireBridge {
    pub closed spec fn wf(&self) -> bool {
        self.cache.wf()
    }

    /// Whether the service was found at construction.
    pub closed spec fn available(&self) -> bool {
        self.python_available
    }

    /// The cached answers, by exact command text.
    pub closed spec fn cached(&self) -> Map<Seq<char>, AutoWireView> {
        self.cache@
    }

    /// The answer that is given for `c` without running the service, if any.
    pub open spec fn known_answer(&self, c: Seq<char>) -> Option<AutoWireView> {
        if self.available() && self.cached().contains_key(c) {
            Some(self.cached()[c])
        } else {
            None
        }
    }

    /// A bridge whose service was (`python_available`) or was not found by the
    /// one probe made at start; an absent service is never probed again.
    pub fn new(python_available: bool) -> (r: AutoWireBridge)
        ensures
            r.wf(),
            r.available() == python_available,
            r.cached() == Map::<Seq<char>, AutoWireView>::empty(),
    {
        AutoWireBridge { python_available, cache: AugmentationCache::new() }
    }

    pub fn is_available(&self) -> (r: bool)
        ensures
            r == self.available(),
    {
        self.python_available
    }

    /// The script for a command: the command goes in as a JSON string literal.
    pub fn request_for(command: &str) -> (r: String)
        ensures
            r@ == request_script(json_string_literal(command@)),
    {
        let quoted = match json_quote(command) {
            Ok(q) => q,
            Err(_) => String::new(),
        };
        let mut s = String::from_str(SCRIPT_HEAD);
        s.append(quoted.as_str());
        s.append(SCRIPT_TAIL);
        s
    }

    /// What to do for `command`: answer at once when the service is absent or
    /// the answer is cached; else ask the service.
    pub fn prepare(&self, command: &str) -> (r: BridgeStep)
        requires
            self.wf(),
        ensures
            !self.available() ==> r matches BridgeStep::Done(None),
            self.known_answer(command@) matches Some(a) ==> (r matches BridgeStep::Done(Some(v))
                && v@ == a),
            self.available() && !self.cached().contains_key(command@) ==> (r matches BridgeStep::CallService(s)
                && s@ == request_script(json_string_literal(command@))),
    {
        if !self.python_available {
            return BridgeStep::Done(None);
        }
        match self.cache.get(command) {
            Some(v) => BridgeStep::Done(Some(v)),
            None => BridgeStep::CallService(Self::request_for(command)),
        }
    }

    /// Takes the service's reply for `command`; a usable answer is cached
    /// under the command text and returned.
    pub fn settle(&mut self, command: &str, reply: ServiceReply) -> (r: Option<AutoWireResult>)
        requires
            old(self).wf(),
        ensures
            final(self).wf(),
            final(self).available() == old(self).available(),
            opt_view(r) == reply_answer(reply.succeeded, reply.stdout@, opt_view(reply.parsed)),
            final(self).cached() == match r {
                Some(v) => old(self).cached().insert(command@, v@),
                None => old(self).cached(),
            },
    {
        if !reply.succeeded || blank(reply.stdout.as_str()) {
            return None;
        }
        match reply.parsed {
            Some(v) => {
                self.cache.put(command.to_string(), v.copy());
                Some(v)
            },
            None => None,
        }
    }

    /// The service names, given what the listing script printed (`None` when
    /// it could not be run or its output was not UTF-8): none when the service
    /// is absent or the output is not a JSON array of strings.
    pub fn list_services(&self, stdout: Option<String>) -> (r: Vec<String>)
        ensures
            !self.available() ==> r@.len() == 0,
            self.available() && stdout is None ==> r@.len() == 0,
            self.available() && stdout is Some ==> texts(r@) == match json_string_list(
                stdout->0@,
            ) {
                Some(l) => l,
                None => Seq::<Seq<char>>::empty(),
            },
    {
        if !self.python_available {
            return Vec::new();
        }
        match stdout {
            Some(text) => match parse_string_list(text.as_str()) {
                Some(v) => v,
                None => {
                    let r: Vec<String> = Vec::new();
                    proof {
                        assert(texts(r@) =~= Seq::<Seq<char>>::empty());
                    }
                    r
                },
            },
            None => Vec::new(),
        }
    }

    /// The number of services, given what the counting script printed (`None`
    /// when it could not be run or its output was not UTF-8): 0 when the
    /// service is absent, when there is no output, or when the trimmed output
    /// is not a number.
    pub fn service_count(&self, stdout: Option<String>) -> (r: usize)
        ensures
            !self.available() ==> r == 0,
            self.available() && stdout is None ==> r == 0,
            self.available() && stdout is Some ==> r as nat == service_count_of(stdout->0@),
    {
        if !self.python_available {
            return 0;
        }
        match stdout {
            Some(text) => crate::status::service_count(text.as_str()),
            None => 0,
        }
    }

    /// Forgets every cached answer.
    pub fn clear_cache(&mut self)
        requires
            old(self).wf(),
        ensures
            final(self).wf(),
            final(self).available() == old(self).available(),
            final(self).cached() == Map::<Seq<char>, AutoWireView>::empty(),
    {
        self.cache.clear();
    }
}

} // verus!
