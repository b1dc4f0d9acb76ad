//! Style sheets.

use vibepanel::css::bar::BarMetrics;
use vibepanel::css::{bar, base, calendar, notifications, utility_css, widget_css, ComponentCss, CssConfig};

fn metrics() -> BarMetrics {
    BarMetrics {
        content_padding_x: 8,
        indicator_inactive_mult: "0.5".to_string(),
        indicator_active_mult: "1.5".to_string(),
        indicator_height_mult: "0.4".to_string(),
        long_indicator_hpad: "7".to_string(),
    }
}

/// The FNV-1a hash of a text.
fn fingerprint(text: &str) -> u64 {
    let mut h: u64 = 0xcbf29ce484222325;
    for b in text.bytes() {
        h = (h ^ u64::from(b)).wrapping_mul(0x100000001b3);
    }
    h
}

#[test]
fn the_bar_sheet_is_complete() {
    let css = bar::css(6, 9, false, &metrics());
    assert_eq!(css.len(), 12989);
    assert_eq!(fingerprint(&css), 0x5b9def65376ee484);
    assert!(css.contains("padding-left: 6px;"));
    assert!(css.contains("transition: none;"));
    let moving = bar::css(6, 9, true, &metrics());
    assert!(moving.contains("transition: min-width 200ms linear, background-color 100ms ease;"));
}

#[test]
fn the_shared_sheet_is_complete() {
    let css = base::css(true, "BG");
    assert_eq!(css.len(), 10633);
    assert_eq!(fingerprint(&css), 0x62e9092e92ed5799);
    assert!(css.contains("transition: transform 100ms ease-out;"));
    assert!(!base::css(false, "BG").contains("ease-out"));
}

#[test]
fn the_notification_sheet_is_complete() {
    let css = notifications::css(true, 200);
    assert_eq!(css.len(), 3907);
    assert_eq!(fingerprint(&css), 0xbc69d1bb5e3f6f3b);
    assert!(css.contains("transition: opacity 200ms ease;"));
    assert!(!notifications::css(false, 200).contains("200ms"));
}

#[test]
fn the_calendar_sheet_is_complete() {
    assert_eq!(calendar::css().len(), 1457);
    assert_eq!(fingerprint(calendar::css()), 0x9db157b95db8188);
}

#[test]
fn sheets_are_joined_in_order() {
    let mut config = CssConfig {
        screen_margin: 6,
        spacing: 9,
        animations: false,
        workspaces_animate: Some(true),
        dismiss_animation_ms: 200,
        popover_bg: "BG".to_string(),
        metrics: metrics(),
    };
    let others = ComponentCss {
        tray: "TRAY".to_string(),
        buttons: "BUTTONS".to_string(),
        quick_settings: "QS".to_string(),
        battery: "BATTERY".to_string(),
        osd: "OSD".to_string(),
        media: "MEDIA".to_string(),
        system: "SYSTEM".to_string(),
    };
    let expected = [
        bar::css(6, 9, true, &metrics()),
        "TRAY".to_string(),
        "BUTTONS".to_string(),
        calendar::css().to_string(),
        "QS".to_string(),
        "BATTERY".to_string(),
        notifications::css(false, 200),
        "OSD".to_string(),
        "MEDIA".to_string(),
        "SYSTEM".to_string(),
    ]
    .join("\n");
    assert_eq!(widget_css(&config, &others), expected);
    config.workspaces_animate = None;
    assert!(widget_css(&config, &others).starts_with(&bar::css(6, 9, false, &metrics())));
    assert_eq!(utility_css(&config), base::css(false, "BG"));
}

#[test]
fn animations_change_one_transition_of_the_bar() {
    let t = "transition: min-width 200ms linear, background-color 100ms ease;";
    let moving = bar::css(6, 9, true, &metrics());
    let still = bar::css(6, 9, false, &metrics());
    assert_eq!(moving.matches(t).count(), 1);
    assert_eq!(still.matches(t).count(), 0);
    assert_eq!(moving.replace(t, "transition: none;"), still);
    for css in [&moving, &still] {
        assert!(css.contains("padding-left: 6px;"));
        assert!(css.contains("padding-right: 6px;"));
        assert!(css.contains("margin-right: 9px;"));
    }
}

#[test]
fn animations_change_one_transition_of_the_shared_sheet() {
    let t = "transition: transform 100ms ease-out;";
    let moving = base::css(true, "BG");
    let still = base::css(false, "BG");
    assert_eq!(moving.matches(t).count(), 1);
    assert_eq!(still.matches(t).count(), 0);
    assert_eq!(moving.replace(t, "transition: none;"), still);
    assert_eq!(
        moving.matches("transition: none;").count() + 1,
        still.matches("transition: none;").count()
    );
    // A background may bring the transition in, with the semicolon behind it.
    let odd = base::css(false, "transition: transform 100ms ease-out");
    assert_eq!(odd.matches(t).count(), 1);
}
