use eth::buttons::CoreButton;
use eth::config::{Config, TextUi, Window};
use eth::namespaces::{NamespacesMessage, NamespacesTab};
use eth::scratchpad::{ControlGroups, ControlInfo, ScratchpadGrid, ScratchpadMessage, ScratchpadTab};
use eth::symbols::{SymbolsMessage, SymbolsTab};
use eth::syscons::SysCons;
use eth::ui::StatusBar;

fn strings(items: &[&str]) -> Vec<String> {
    items.iter().map(|s| s.to_string()).collect()
}

fn ok(text: &str) -> Result<String, String> {
    Ok(text.to_string())
}

// ----- control info window -----

#[test]
fn control_info_renders_without_cursor() {
    let mut info = ControlInfo::new(2, 30);
    assert_eq!(info.contents(), " \n ");
    info.write("hi".to_string());
    assert_eq!(info.contents(), " \nhi");
    info.write_char('!');
    assert_eq!(info.contents(), " \nhi!");
    info.backspace();
    assert_eq!(info.contents(), " \nhi");
    info.scroll();
    assert_eq!(info.contents(), "hi\n ");
    info.clear();
    assert_eq!(info.contents(), " \n ");
}

#[test]
fn scratchpad_tab_carries_a_blank_info_window() {
    let mut tab = ScratchpadTab::new();
    tab.update(ScratchpadMessage::GroupPress(0));
    tab.update(ScratchpadMessage::ControlPress(3));
}

#[test]
fn scratchpad_grid_and_groups_build() {
    let mut grid = ScratchpadGrid::new(5);
    let mut button = CoreButton::new();
    button.label = "run".to_string();
    grid.add_control(button);
    let _groups = ControlGroups::new(5);
}

#[test]
fn scratchpad_grid_filters_by_group() {
    let mut grid = ScratchpadGrid::new(5);
    for (group, label) in [("io", "open"), ("math", "add"), ("io", "close")] {
        let mut button = CoreButton::new();
        button.group = group.to_string();
        button.label = label.to_string();
        grid.add_control(button);
    }
    // an empty filter shows every control, in order
    assert_eq!(grid.filtered_controls(&String::new()), vec![0, 1, 2]);
    assert_eq!(grid.filtered_controls(&"io".to_string()), vec![0, 2]);
    assert_eq!(grid.filtered_controls(&"math".to_string()), vec![1]);
    assert_eq!(grid.filtered_controls(&"none".to_string()), Vec::<usize>::new());
}

#[test]
fn core_button_starts_empty() {
    let b = CoreButton::new();
    assert_eq!(b.group, "");
    assert_eq!(b.label, "");
    assert_eq!(b.form, "");
}

// ----- diagnostic log -----

#[test]
fn syscons_empty_contents_is_none() {
    let cons = SysCons::new();
    assert_eq!(cons.contents(), None);
}

#[test]
fn syscons_lines_are_stamped_and_joined() {
    let mut cons = SysCons::new();
    cons.log("first".to_string());
    cons.log("second".to_string());
    let text = cons.contents().unwrap();
    let lines: Vec<&str> = text.split('\n').collect();
    assert_eq!(lines.len(), 2);
    // ten decimal digits of stamp, a colon and a space, then the message
    assert_eq!(lines[0].len(), 10 + 2 + "first".len());
    assert!(lines[0][..10].chars().all(|c| c.is_ascii_digit()));
    assert_eq!(&lines[0][10..12], ": ");
    assert!(lines[0].ends_with("first"));
    assert!(lines[1].ends_with("second"));
}

// ----- configuration defaults -----

#[test]
fn config_defaults() {
    let config = Config::default();
    assert_eq!(Window::size(&config), (1024, 768));
    assert_eq!(Window::min_size(&config), (1024, 768));
    assert_eq!(Window::max_size(&config), (1024, 768));
    assert!(!Window::resizeable(&config));
    assert_eq!(TextUi::rows(&config), 25);
    assert_eq!(TextUi::cursor(&config), 0);
    assert_eq!(config.mu(), "");
}

#[test]
fn config_explicit_values_win() {
    let config = Config {
        window: Some(Some(Window {
            size: Some(Some((640, 480))),
            min_size: None,
            max_size: Some(None),
            resizable: Some(Some(true)),
        })),
        textui: Some(Some(TextUi { rows: Some(Some(19)), cursor: Some(None) })),
        mu: Some(Some("--gc-mode auto".to_string())),
    };
    assert_eq!(Window::size(&config), (640, 480));
    assert_eq!(Window::min_size(&config), (1024, 768));
    assert_eq!(Window::max_size(&config), (1024, 768));
    assert!(Window::resizeable(&config));
    assert_eq!(TextUi::rows(&config), 19);
    assert_eq!(TextUi::cursor(&config), 0);
    assert_eq!(config.mu(), "--gc-mode auto");
}

// ----- namespaces panel -----

#[test]
fn namespaces_panel_names() {
    let mut tab = NamespacesTab::new();
    assert_eq!(tab.names(), &strings(&["nil", "mu", "core"]));
    tab.update(NamespacesMessage::Refresh);
    assert_eq!(tab.names(), &strings(&["nil", "mu", "core"]));
}

// ----- status bar and startup log -----

#[test]
fn status_bar_shows_config_path() {
    let bar = StatusBar::new();
    assert_eq!(bar.config_path(), "~/.config/eth/config.json");
}

#[test]
fn startup_messages_follow_config_state() {
    assert_eq!(
        eth::ui::startup_messages(Some(false), true),
        strings(&["eth: using supplied config", "core: init environment active"])
    );
    assert_eq!(
        eth::ui::startup_messages(None, false),
        strings(&[
            "eth: config file missing or damaged, using default",
            "core: init environment missing or damaged",
            "core: many UI things will not work",
        ])
    );
    assert_eq!(
        eth::ui::startup_messages(Some(true), true),
        strings(&[
            "eth: config directory missing, using default config",
            "core: init environment active",
        ])
    );
}

// ----- symbols panel -----

#[test]
fn symbols_refresh_and_select() {
    let mut tab = SymbolsTab::new();
    assert_eq!(tab.refresh_query().as_deref(), Some("(mu:ns-map)"));
    tab.refresh_apply(ok("(:mu :core)")).unwrap();
    assert_eq!(tab.refresh_query(), None);
    assert_eq!(tab.namespaces(), &Some(strings(&[":core", ":mu"])));

    assert_eq!(tab.select_namespace_query(":mu"), "(mu:ns-syms :list :mu)");
    tab.select_namespace_apply(":mu".to_string(), ok("(cdr car)")).unwrap();
    assert_eq!(tab.symbols(), &Some(strings(&["car", "cdr"])));

    // the description is the port's reply to the describe command
    assert_eq!(tab.select_symbol_query(&"car".to_string()), "(core:describe 'mu:car)");
    tab.select_symbol("car".to_string(), ok("car: a cons accessor")).unwrap();
    assert_eq!(tab.selected_symbol(), &Some("car".to_string()));
    assert_eq!(tab.describe(), &Some("car: a cons accessor".to_string()));

    // a new namespace clears the symbol rung
    tab.select_namespace_apply(":core".to_string(), ok("(fmt)")).unwrap();
    assert_eq!(tab.selected_symbol(), &None);
    assert_eq!(tab.describe(), &None);
}

#[test]
fn symbols_describe_fault_leaves_rung_unchanged() {
    let mut tab = SymbolsTab::new();
    tab.select_namespace_apply(":mu".to_string(), ok("(car)")).unwrap();
    let r = tab.select_symbol("car".to_string(), Err("down".to_string()));
    assert!(r.is_err());
    assert_eq!(tab.selected_symbol(), &None);
    assert_eq!(tab.describe(), &None);
    assert_eq!(tab.selected_ns(), &Some(":mu".to_string()));
}

#[test]
fn symbols_message_driven_refresh_is_idempotent() {
    let mut tab = SymbolsTab::new();
    assert!(tab.refresh_query().is_some());
    tab.update(SymbolsMessage::Refresh, Some(ok("(:mu)"))).unwrap();
    // the list is cached: a second refresh plans no fetch and is a no-op
    assert_eq!(tab.refresh_query(), None);
    tab.update(SymbolsMessage::Refresh, None).unwrap();
    assert_eq!(tab.namespaces(), &Some(strings(&[":mu"])));
    tab.update(SymbolsMessage::SelectNamespace(":mu".to_string()), Some(ok("(car)"))).unwrap();
    tab.update(SymbolsMessage::SelectSymbol("car".to_string()), Some(ok("descr"))).unwrap();
    assert_eq!(tab.describe(), &Some("descr".to_string()));
}

#[test]
fn symbols_describe_text() {
    assert_eq!(
        SymbolsTab::describe_symbol(":mu", &"apply".to_string()),
        "(core:describe 'mu:apply)"
    );
}
