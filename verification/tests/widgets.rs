//! The options and texts of bar widgets.

use vibepanel::base::{
    describe_exit_status, show_if_outcome, ClickAction, ClickHandlers, ExitStatus, ShowIf,
};
use vibepanel::config::{OptionValue, WidgetEntry};
use vibepanel::custom::{
    after_gate, plan_custom_widget, read_exec, run_exec, start_exec, CustomConfig, ExecEnd,
    ExecStep,
};
use vibepanel::keyboard_layout::{
    extract_short_name, update_keyboard_layout_widget, KeyboardLayoutConfig, KeyboardLayoutInfo,
    LayoutFormat,
};
use vibepanel::names::NameMap;
use vibepanel::network_speed::{
    update_network_widget, NetworkSpeedConfig, NetworkSpeedFormat,
};

fn make_entry(options: NameMap<OptionValue>) -> WidgetEntry {
    WidgetEntry {
        name: "custom-test".to_string(),
        options,
    }
}

#[test]
fn test_custom_config_defaults() {
    let entry = make_entry(NameMap::new());
    let config = CustomConfig::from_entry(&entry);

    assert!(config.icon.is_none());
    assert_eq!(config.label, "");
    assert!(config.command.is_none());
    assert!(config.template.is_none());
    assert_eq!(config.interval, 0);
    assert!(config.on_click.is_none());
    assert!(config.tooltip.is_none());
    assert!(config.max_chars.is_none());
}

#[test]
fn test_custom_config_full() {
    let mut options = NameMap::new();
    options.insert(
        "icon".to_string(),
        OptionValue::Text("system-shutdown-symbolic".to_string()),
    );
    options.insert("label".to_string(), OptionValue::Text("Power".to_string()));
    options.insert("exec".to_string(), OptionValue::Text("echo hello".to_string()));
    options.insert(
        "template".to_string(),
        OptionValue::Text(" {output}".to_string()),
    );
    options.insert("interval".to_string(), OptionValue::Integer(600));
    options.insert("on_click".to_string(), OptionValue::Text("wlogout".to_string()));
    options.insert(
        "tooltip".to_string(),
        OptionValue::Text("Power menu".to_string()),
    );
    options.insert("max_chars".to_string(), OptionValue::Integer(30));

    let entry = make_entry(options);
    let config = CustomConfig::from_entry(&entry);

    assert_eq!(config.icon, Some("system-shutdown-symbolic".to_string()));
    assert_eq!(config.label, "Power");
    assert_eq!(config.command, Some("echo hello".to_string()));
    assert_eq!(config.template, Some(" {output}".to_string()));
    assert_eq!(config.interval, 600);
    assert_eq!(config.on_click, Some("wlogout".to_string()));
    assert_eq!(config.tooltip, Some("Power menu".to_string()));
    assert_eq!(config.max_chars, Some(30));
}

#[test]
fn test_custom_config_negative_interval_clamped() {
    let mut options = NameMap::new();
    options.insert("interval".to_string(), OptionValue::Integer(-5));
    let entry = make_entry(options);
    let config = CustomConfig::from_entry(&entry);
    assert_eq!(config.interval, 0);
}

#[test]
fn test_custom_config_max_chars_min_one() {
    let mut options = NameMap::new();
    options.insert("max_chars".to_string(), OptionValue::Integer(0));
    let entry = make_entry(options);
    let config = CustomConfig::from_entry(&entry);
    assert_eq!(config.max_chars, Some(1));
}

#[test]
fn test_custom_config_ignores_non_string_icon() {
    let mut options = NameMap::new();
    options.insert("icon".to_string(), OptionValue::Integer(42));
    let entry = make_entry(options);
    let config = CustomConfig::from_entry(&entry);
    assert!(config.icon.is_none());
}

#[test]
fn test_custom_config_template_parsed() {
    let mut options = NameMap::new();
    options.insert(
        "template".to_string(),
        OptionValue::Text(" {output}".to_string()),
    );
    let entry = make_entry(options);
    let config = CustomConfig::from_entry(&entry);
    assert_eq!(config.template, Some(" {output}".to_string()));
}

#[test]
fn test_custom_config_template_ignores_non_string() {
    let mut options = NameMap::new();
    options.insert("template".to_string(), OptionValue::Integer(42));
    let entry = make_entry(options);
    let config = CustomConfig::from_entry(&entry);
    assert!(config.template.is_none());
}

/// The codes of some languages.
fn codes() -> NameMap<String> {
    let mut m = NameMap::new();
    for (language, code) in [("French", "FR"), ("Japanese", "JP"), ("Swedish", "SE"), ("German", "DE")] {
        m.insert(language.to_string(), code.to_string());
    }
    m
}

#[test]
fn test_extract_short_name_parenthesized() {
    assert_eq!(extract_short_name("English (US)", &codes()), "US");
    assert_eq!(extract_short_name("German (Dvorak)", &codes()), "Dvorak");
    assert_eq!(extract_short_name("Russian (phonetic)", &codes()), "phonetic");
}

#[test]
fn test_extract_short_name_short_codes() {
    assert_eq!(extract_short_name("us", &codes()), "US");
    assert_eq!(extract_short_name("de", &codes()), "DE");
    assert_eq!(extract_short_name("fr", &codes()), "FR");
}

#[test]
fn test_extract_short_name_full_name() {
    // Known language names now resolve to 2-letter codes via xkb_names
    assert_eq!(extract_short_name("French", &codes()), "FR");
    assert_eq!(extract_short_name("Japanese", &codes()), "JP");
    assert_eq!(extract_short_name("Swedish", &codes()), "SE");
    assert_eq!(extract_short_name("German", &codes()), "DE");
    // Unknown names pass through unchanged
    assert_eq!(extract_short_name("Klingon", &codes()), "Klingon");
}

#[test]
fn test_extract_short_name_empty() {
    assert_eq!(extract_short_name("", &codes()), "?");
}

#[test]
fn test_extract_short_name_edge_cases() {
    // Empty parens
    assert_eq!(extract_short_name("English ()", &codes()), "English ()");
    // Nested
    assert_eq!(extract_short_name("Foo (Bar (Baz))", &codes()), "Baz");
}

#[test]
fn test_extract_short_name_variant_descriptions() {
    // Variant descriptions with spaces should fall back to the base name,
    // which then resolves via xkb_names to a 2-letter code
    assert_eq!(extract_short_name("Swedish (no dead keys)", &codes()), "SE");
    assert_eq!(extract_short_name("German (with AltGr dead keys)", &codes()), "DE");
    assert_eq!(extract_short_name("French (alt.)", &codes()), "alt.");
    // Single-word variants are still treated as short codes
    assert_eq!(extract_short_name("German (Dvorak)", &codes()), "Dvorak");
    assert_eq!(extract_short_name("Russian (phonetic)", &codes()), "phonetic");
}

#[test]
fn test_keyboard_layout_config_defaults() {
    let entry = WidgetEntry {
        name: "keyboard_layout".to_string(),
        options: NameMap::new(),
    };
    let config = KeyboardLayoutConfig::from_entry(&entry);
    assert!(config.show_icon);
    assert!(config.show_label);
    assert_eq!(config.format, LayoutFormat::Short);
}

#[test]
fn test_keyboard_layout_config_custom() {
    let mut options = NameMap::new();
    options.insert("show_icon".to_string(), OptionValue::Boolean(false));
    options.insert("show_label".to_string(), OptionValue::Boolean(true));
    options.insert(
        "format".to_string(),
        OptionValue::Text("long".to_string()),
    );

    let entry = WidgetEntry {
        name: "keyboard_layout".to_string(),
        options,
    };
    let config = KeyboardLayoutConfig::from_entry(&entry);
    assert!(!config.show_icon);
    assert!(config.show_label);
    assert_eq!(config.format, LayoutFormat::Long);
}

#[test]
fn test_network_speed_config_defaults() {
    let entry = WidgetEntry {
        name: "network_speed".to_string(),
        options: NameMap::new(),
    };
    let config = NetworkSpeedConfig::from_entry(&entry);
    assert!(config.show_icon);
    assert!(config.show_arrows);
    assert_eq!(config.format, NetworkSpeedFormat::Both);
}

#[test]
fn test_network_speed_config_custom() {
    let mut options = NameMap::new();
    options.insert("show_icon".to_string(), OptionValue::Boolean(false));
    options.insert("show_arrows".to_string(), OptionValue::Boolean(false));
    options.insert(
        "format".to_string(),
        OptionValue::Text("download".to_string()),
    );

    let entry = WidgetEntry {
        name: "network_speed".to_string(),
        options,
    };
    let config = NetworkSpeedConfig::from_entry(&entry);
    assert!(!config.show_icon);
    assert!(!config.show_arrows);
    assert_eq!(config.format, NetworkSpeedFormat::Download);
}

#[test]
fn test_network_speed_format_from_str() {
    assert_eq!(
        NetworkSpeedFormat::from_str("both"),
        NetworkSpeedFormat::Both
    );
    assert_eq!(
        NetworkSpeedFormat::from_str("Both"),
        NetworkSpeedFormat::Both
    );
    assert_eq!(
        NetworkSpeedFormat::from_str("download"),
        NetworkSpeedFormat::Download
    );
    assert_eq!(
        NetworkSpeedFormat::from_str("Download"),
        NetworkSpeedFormat::Download
    );
    assert_eq!(
        NetworkSpeedFormat::from_str("dl"),
        NetworkSpeedFormat::Download
    );
    assert_eq!(
        NetworkSpeedFormat::from_str("upload"),
        NetworkSpeedFormat::Upload
    );
    assert_eq!(
        NetworkSpeedFormat::from_str("Upload"),
        NetworkSpeedFormat::Upload
    );
    assert_eq!(
        NetworkSpeedFormat::from_str("ul"),
        NetworkSpeedFormat::Upload
    );
    assert_eq!(
        NetworkSpeedFormat::from_str("unknown"),
        NetworkSpeedFormat::Both
    );
}

// ----- texts and clicks -----

fn ended(code: i32, stdout: &[u8]) -> ExecEnd {
    ExecEnd::Ended { status: ExitStatus { code: Some(code), signal: None }, stdout: stdout.to_vec() }
}

#[test]
fn a_command_shows_its_first_line() {
    let r = run_exec(&ended(0, b"  one \ntwo\n"), "fallback", None);
    assert_eq!((r.label.as_deref(), r.visible), (Some("one"), Some(true)));
    let r = run_exec(&ended(0, b"one\n"), "", Some("<{output}|{output}>"));
    assert_eq!(r.label.as_deref(), Some("<one|one>"));
    let r = run_exec(&ended(0, b"\n"), "fallback", Some("<{output}>"));
    assert_eq!((r.label.as_deref(), r.visible), (Some("fallback"), None));
    let r = run_exec(&ended(0, b""), "", None);
    assert_eq!((r.label.as_deref(), r.visible), (Some(""), Some(false)));
    let r = run_exec(&ended(1, b"one"), "fallback", None);
    assert_eq!((r.label, r.visible), (None, None));
    // A first line that is not UTF-8 counts as empty.
    let r = run_exec(&ended(0, &[0xff, b'\n']), "", None);
    assert_eq!(r.visible, Some(false));
}

#[test]
fn failures_of_commands_are_described() {
    assert_eq!(read_exec(&ended(127, b"")), Err("command not found".to_string()));
    assert_eq!(read_exec(&ended(126, b"")), Err("permission denied (not executable)".to_string()));
    assert_eq!(read_exec(&ended(3, b"")), Err("exit code 3".to_string()));
    let killed = |signal| ExecEnd::Ended {
        status: ExitStatus { code: None, signal: Some(signal) },
        stdout: Vec::new(),
    };
    assert_eq!(read_exec(&killed(9)), Err("Command timed out after 10s".to_string()));
    assert_eq!(read_exec(&killed(15)), Err("killed by signal 15".to_string()));
    assert_eq!(read_exec(&ExecEnd::NotSpawned("no".to_string())), Err("Failed to spawn: no".to_string()));
    assert_eq!(read_exec(&ExecEnd::NotAwaited("no".to_string())), Err("Wait failed: no".to_string()));
    assert_eq!(read_exec(&ended(0, b"out\nmore")), Ok("out\n".to_string()));
    assert_eq!(
        describe_exit_status(ExitStatus { code: None, signal: None }),
        "unknown exit status"
    );
}

#[test]
fn a_custom_widget_is_planned() {
    let mut config = CustomConfig::default();
    config.command = Some("date".to_string());
    config.interval = 5;
    let plan = plan_custom_widget("clock", &config, Some("true"), true);
    assert_eq!(plan.css_class, "custom-clock");
    assert!(plan.piggyback && plan.warn_show_if_interval && !plan.clickable && !plan.warn_interval);
    let command = plan.command.expect("a command");
    assert_eq!(command.cmd, "date");
    assert_eq!(command.period, Some(5));
    assert_eq!(command.gate.as_deref(), Some("true"));
    assert!(plan.label.expect("a label").text.is_none());

    let mut config = CustomConfig::default();
    config.label = "Power".to_string();
    config.on_click = Some("wlogout".to_string());
    config.interval = 5;
    config.max_chars = Some(3);
    config.icon = Some("system-shutdown-symbolic".to_string());
    config.tooltip = Some("Power menu".to_string());
    let plan = plan_custom_widget("power", &config, None, false);
    assert_eq!(plan.icon.as_deref(), Some("system-shutdown-symbolic"));
    assert_eq!(plan.tooltip.as_deref(), Some("Power menu"));
    let click = plan.on_primary_click().expect("a command");
    assert_eq!(click.cmd, "wlogout");
    assert!(matches!(click.follow_up, ExecStep::Nothing));
    assert!(plan.warn_interval && plan.clickable && !plan.piggyback && plan.command.is_none());
    let label = plan.label.expect("a label");
    assert_eq!((label.text.as_deref(), label.max_chars), (Some("Power"), Some(3)));
    assert!(plan_custom_widget("empty", &CustomConfig::default(), None, false).label.is_none());
}

#[test]
fn a_gate_is_checked_before_the_command() {
    assert!(matches!(start_exec(true, Some("test -f x")), ExecStep::CheckGate(c) if c == "test -f x"));
    assert!(matches!(start_exec(true, None), ExecStep::Run));
    assert!(matches!(start_exec(false, None), ExecStep::Nothing));
}

#[test]
fn a_gate_hides_and_skips_or_shows_and_runs() {
    let after = after_gate(Some(true));
    assert!(after.visible && matches!(after.step, ExecStep::Run));
    let after = after_gate(Some(false));
    assert!(!after.visible && matches!(after.step, ExecStep::Nothing));
    let after = after_gate(None);
    assert!(!after.visible && matches!(after.step, ExecStep::Nothing));
}

#[test]
fn a_click_refreshes_the_label_without_the_gate() {
    let mut config = CustomConfig::default();
    config.command = Some("date".to_string());
    config.interval = 5;
    config.template = Some("<{output}>".to_string());
    let plan = plan_custom_widget("clock", &config, Some("false"), false);
    assert!(plan.on_primary_click().is_none());
    config.on_click = Some("gnome-clocks".to_string());
    let plan = plan_custom_widget("clock", &config, Some("false"), false);
    let click = plan.on_primary_click().expect("a command");
    assert_eq!(click.cmd, "gnome-clocks");
    assert!(matches!(click.follow_up, ExecStep::Run));
    let command = plan.command.expect("a command");
    assert_eq!((command.fallback.as_str(), command.template.as_deref()), ("", Some("<{output}>")));
    assert_eq!(command.gate.as_deref(), Some("false"));
}

#[test]
fn conditions_show_and_hide() {
    assert!(show_if_outcome(Some(ExitStatus { code: Some(0), signal: None })));
    assert!(!show_if_outcome(Some(ExitStatus { code: Some(1), signal: None })));
    assert!(!show_if_outcome(Some(ExitStatus { code: None, signal: Some(9) })));
    assert!(!show_if_outcome(None));
    let mut s = ShowIf::new(Some(5));
    assert_eq!(s.period, Some(5));
    let first = s.on_first_check(false);
    assert!(!first.visible && !first.retry);
    assert_eq!(s.on_tick(true), Some(true));
    assert_eq!(s.on_tick(true), None);
    assert_eq!(s.on_tick(false), Some(false));
    // Without a timer a hidden widget is looked at once more.
    let mut s = ShowIf::new(Some(0));
    assert_eq!(s.period, None);
    assert!(!s.on_first_check(true).retry);
    assert!(s.on_first_check(false).retry);
    assert!(s.on_retry(true));
    assert!(!s.on_retry(false));
    assert_eq!(ShowIf::new(Some(u64::MAX)).period, Some(u32::MAX));
}

#[test]
fn clicks_run_commands_or_open_menus() {
    let handlers = ClickHandlers {
        on_click_right: Some("right".to_string()),
        on_click_middle: None,
    };
    assert!(handlers.clickable());
    assert!(matches!(handlers.on_click(3, false, Some(false)), ClickAction::Run(c) if c == "right"));
    assert!(matches!(handlers.on_click(2, false, Some(false)), ClickAction::Nothing));
    assert!(matches!(handlers.on_click(1, false, Some(false)), ClickAction::Primary { open: true }));
    assert!(matches!(handlers.on_click(1, false, Some(true)), ClickAction::Primary { open: false }));
    assert!(!ClickHandlers { on_click_right: None, on_click_middle: None }.clickable());
}

#[test]
fn speeds_are_shown_as_wanted() {
    let mut config = NetworkSpeedConfig::from_entry(&WidgetEntry {
        name: "network_speed".to_string(),
        options: NameMap::new(),
    });
    let u = update_network_widget(&config, true, "1 MB/s", "2 KB/s");
    assert_eq!((u.download.as_deref(), u.upload.as_deref()), (Some("1 MB/s"), Some("2 KB/s")));
    assert_eq!(u.tooltip, "Download: 1 MB/s\nUpload: 2 KB/s");
    assert!(u.show_arrows);
    config.format = NetworkSpeedFormat::Upload;
    let u = update_network_widget(&config, true, "1 MB/s", "2 KB/s");
    assert_eq!((u.download.as_deref(), u.upload.as_deref()), (None, Some("2 KB/s")));
    assert_eq!(u.tooltip, "Upload: 2 KB/s");
    let u = update_network_widget(&config, false, "1 MB/s", "2 KB/s");
    assert_eq!(u.upload.as_deref(), Some("?"));
    assert_eq!(u.tooltip, "Network: Service unavailable");
    assert!(!u.show_arrows);
    assert!(config.layout().upload && !config.layout().download);
}

#[test]
fn layouts_are_shown_short_or_long() {
    let info = KeyboardLayoutInfo {
        layout_name: "German".to_string(),
        short_name: String::new(),
        layout_count: Some(2),
    };
    let d = update_keyboard_layout_widget(&info, LayoutFormat::Long, None, &codes());
    assert_eq!(d.text, "German");
    assert!(d.clickable);
    let d = update_keyboard_layout_widget(&info, LayoutFormat::Short, None, &codes());
    assert_eq!(d.text, "DE");
    let one = KeyboardLayoutInfo { layout_count: Some(1), ..info };
    assert!(!update_keyboard_layout_widget(&one, LayoutFormat::Short, None, &codes()).clickable);
}
