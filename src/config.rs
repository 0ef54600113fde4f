//! Settings that the terminal is built with.
use vstd::prelude::*;

verus! {

/// User settings; only `shell` affects command execution.
#[derive(Clone, Debug)]
pub struct Config {
    pub shell: String,
    pub editor: String,
    pub theme: String,
    pub ai_enabled: bool,
    pub autowire_enabled: bool,
    pub font_size: u16,
    pub show_status_bar: bool,
}

impl Config {
    /// The default settings, given the values of the `SHELL` and `EDITOR`
    /// environment variables where they are set.
    pub fn with_defaults(shell: Option<String>, editor: Option<String>) -> (r: Config)
        ensures
            shell matches Some(s) ==> r.shell@ == s@,
            shell is None ==> r.shell@ == "/bin/bash"@,
            editor matches Some(e) ==> r.editor@ == e@,
            editor is None ==> r.editor@ == "vim"@,
            r.theme@ == "dracula"@,
            r.ai_enabled,
            r.autowire_enabled,
            r.font_size == 14,
            r.show_status_bar,
    {
        let shell = match shell {
            Some(s) => s,
            None => "/bin/bash".to_string(),
        };
        let editor = match editor {
            Some(e) => e,
            None => "vim".to_string(),
        };
        Config {
            shell,
            editor,
            theme: "dracula".to_string(),
            ai_enabled: true,
            autowire_enabled: true,
            font_size: 14,
            show_status_bar: true,
        }
    }
}

} // verus!
