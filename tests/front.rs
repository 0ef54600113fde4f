use nexterm::assist::{NLPProcessor, SuggestionEngine};
use nexterm::command::{CommandParser, Executor};
use nexterm::config::Config;
use nexterm::history::History;
use nexterm::numtext::decimal;
use nexterm::plugins::{Plugin, PluginManager};
use nexterm::status::{autowire_services, panel_services, autowire_status, service_count, startup_status, trimmed};
use nexterm::themes::Theme;
use nexterm::ui::{classify, KeyCode, KeyPress, LoopAction, TerminalUI, UiCommand, CONTROL, SHIFT};

fn key(code: KeyCode, modifiers: u8) -> KeyPress {
    KeyPress { code, modifiers }
}

fn typed(ui: &mut TerminalUI, s: &str) {
    for c in s.chars() {
        assert!(matches!(ui.handle_key(key(KeyCode::Char(c), 0)), LoopAction::Continue));
    }
}

#[test]
fn typing_and_enter_submits_the_line() {
    let mut ui = TerminalUI::new();
    typed(&mut ui, "ls");
    match ui.handle_key(key(KeyCode::Enter, 0)) {
        LoopAction::Submit(c) => assert_eq!(c, "ls"),
        other => panic!("unexpected {:?}", other),
    }
    assert_eq!(ui.get_input(), "ls");
    ui.clear_input();
    assert!(ui.is_input_empty());
    assert!(matches!(ui.handle_key(key(KeyCode::Enter, 0)), LoopAction::Continue));
}

#[test]
fn editing_at_the_cursor() {
    let mut ui = TerminalUI::new();
    typed(&mut ui, "ac");
    ui.handle_key(key(KeyCode::Left, 0));
    typed(&mut ui, "b");
    assert_eq!(ui.get_input(), "abc");
    ui.handle_key(key(KeyCode::Backspace, 0));
    assert_eq!(ui.get_input(), "ac");
    ui.handle_key(key(KeyCode::Right, 0));
    ui.handle_key(key(KeyCode::Right, 0));
    typed(&mut ui, "é");
    assert_eq!(ui.get_input(), "acé");
    ui.cursor_left();
    ui.cursor_left();
    ui.cursor_left();
    ui.cursor_left();
    ui.input_backspace();
    assert_eq!(ui.get_input(), "acé");
}

#[test]
fn exit_keys() {
    let mut ui = TerminalUI::new();
    assert!(matches!(ui.handle_key(key(KeyCode::Char('d'), CONTROL)), LoopAction::Exit));
    typed(&mut ui, "x");
    assert!(matches!(ui.handle_key(key(KeyCode::Char('d'), CONTROL)), LoopAction::Continue));
    assert!(matches!(ui.handle_key(key(KeyCode::Char('c'), CONTROL)), LoopAction::Exit));
}

#[test]
fn tabs_open_close_and_cycle() {
    let mut ui = TerminalUI::new();
    assert_eq!(ui.tab_titles(), &vec!["Terminal".to_string()]);
    ui.handle_key(key(KeyCode::Char('t'), CONTROL));
    ui.handle_key(key(KeyCode::Char('t'), CONTROL));
    assert_eq!(ui.tab_titles(), &vec!["Terminal".to_string(), "Tab 2".to_string(), "Tab 3".to_string()]);
    assert_eq!(ui.active_tab(), 2);
    ui.handle_key(key(KeyCode::Tab, CONTROL));
    assert_eq!(ui.active_tab(), 0);
    ui.handle_key(key(KeyCode::Tab, CONTROL));
    ui.handle_key(key(KeyCode::Tab, CONTROL));
    ui.handle_key(key(KeyCode::Char('w'), CONTROL));
    assert_eq!(ui.tab_titles(), &vec!["Terminal".to_string(), "Tab 2".to_string()]);
    assert_eq!(ui.active_tab(), 1);
    ui.close_tab();
    ui.close_tab();
    assert_eq!(ui.tab_titles(), &vec!["Terminal".to_string()]);
    assert_eq!(ui.active_tab(), 0);
}

#[test]
fn key_bindings() {
    assert_eq!(classify(key(KeyCode::Char('d'), SHIFT)), UiCommand::SplitPaneVertical);
    assert_eq!(classify(key(KeyCode::Char('h'), CONTROL)), UiCommand::SplitPaneHorizontal);
    assert_eq!(classify(key(KeyCode::Char(' '), CONTROL)), UiCommand::ToggleAutowirePanel);
    assert_eq!(classify(key(KeyCode::Char('q'), CONTROL)), UiCommand::Insert('q'));
    assert_eq!(classify(key(KeyCode::Char('c'), CONTROL | SHIFT)), UiCommand::Insert('c'));
    assert_eq!(classify(key(KeyCode::Tab, 0)), UiCommand::Ignore);
    assert_eq!(classify(key(KeyCode::Up, 0)), UiCommand::HistoryPrevious);
}

#[test]
fn autowire_panel_toggles() {
    let mut ui = TerminalUI::new();
    assert!(!ui.autowire_panel_shown());
    ui.handle_key(key(KeyCode::Char(' '), CONTROL));
    assert!(ui.autowire_panel_shown());
    ui.handle_key(key(KeyCode::Char(' '), CONTROL));
    assert!(!ui.autowire_panel_shown());
    ui.handle_key(key(KeyCode::Char('a'), CONTROL));
    assert!(ui.autowire_panel_shown());
}

#[test]
fn service_count_reads_trimmed_numbers() {
    assert_eq!(service_count(" 12\n"), 12);
    assert_eq!(service_count("+5"), 5);
    assert_eq!(service_count("0"), 0);
    assert_eq!(service_count("abc"), 0);
    assert_eq!(service_count(""), 0);
    assert_eq!(service_count("1 2"), 0);
    assert_eq!(service_count("-3"), 0);
    assert_eq!(service_count("99999999999999999999999"), 0);
    assert_eq!(service_count(&usize::MAX.to_string()), usize::MAX);
    assert_eq!(trimmed("\u{3000} a b \t"), "a b");
}

#[test]
fn status_texts() {
    assert_eq!(autowire_status(Some(3)), "\u{2705} Connected - 3 services");
    assert_eq!(autowire_status(None), "\u{26A0}\u{FE0F}  Not connected");
    assert_eq!(autowire_services(None), vec!["Auto-wiring not available".to_string()]);
    assert_eq!(autowire_services(Some(vec!["a".to_string()])), vec!["a".to_string()]);
    assert_eq!(startup_status(false, true, "x"), "Auto-wiring disabled (Python not found)");
    assert_eq!(startup_status(true, true, " ready \n"), "ready");
    assert_eq!(startup_status(true, false, "x"), "Auto-wiring available in fallback mode");
}

#[test]
fn decimal_text() {
    assert_eq!(decimal(0), "0");
    assert_eq!(decimal(7), "7");
    assert_eq!(decimal(1234), "1234");
    assert_eq!(decimal(usize::MAX), usize::MAX.to_string());
}

#[test]
fn defaults_of_config() {
    let c = Config::with_defaults(None, None);
    assert_eq!(c.shell, "/bin/bash");
    assert_eq!(c.editor, "vim");
    assert_eq!(c.theme, "dracula");
    assert_eq!(c.font_size, 14);
    assert!(c.ai_enabled && c.autowire_enabled && c.show_status_bar);
    let c = Config::with_defaults(Some("/bin/zsh".to_string()), Some("nano".to_string()));
    assert_eq!(c.shell, "/bin/zsh");
    assert_eq!(c.editor, "nano");
}

#[test]
fn small_helpers() {
    assert_eq!(NLPProcessor::new().process("hi there").unwrap(), "hi there");
    assert!(SuggestionEngine::new().get_suggestions("git").is_empty());
    let p = CommandParser::new().parse("ls -la").unwrap();
    assert_eq!(p.command, "ls -la");
    assert!(p.args.is_empty());
    assert_eq!(Executor::new().execute("ls").unwrap(), "Executed: ls");
    assert_eq!(Theme::load("dracula").name, "dracula");
}

#[test]
fn history_appends() {
    let mut h = History::new();
    h.add("a".to_string());
    h.add("a".to_string());
    h.add("b".to_string());
    assert_eq!(h.get_all(), &["a", "a", "b"].map(String::from));
}

struct Echo;

impl Plugin for Echo {
    fn name(&self) -> &str {
        "echo"
    }

    fn execute(&self, args: &[String]) -> Result<String, String> {
        Ok(args.join(" "))
    }
}

#[test]
fn plugins_register_in_order() {
    let mut m: PluginManager<Box<dyn Plugin>> = PluginManager::new();
    assert_eq!(m.len(), 0);
    m.register(Box::new(Echo));
    m.register(Box::new(Echo));
    assert_eq!(m.len(), 2);
    let b: Box<dyn Plugin> = Box::new(Echo);
    assert_eq!(b.name(), "echo");
    assert_eq!(b.execute(&["a".to_string(), "b".to_string()]).unwrap(), "a b");
}

#[test]
fn panel_names_ten_services_and_counts_the_rest() {
    let few: Vec<String> = (0..3).map(|i| format!("s{}", i)).collect();
    assert_eq!(panel_services(&few), (few.clone(), 0));
    let many: Vec<String> = (0..13).map(|i| format!("s{}", i)).collect();
    let (shown, more) = panel_services(&many);
    assert_eq!(shown, many[..10].to_vec());
    assert_eq!(more, 3);
}
