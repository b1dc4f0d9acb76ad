//! Style sheets, put together from constant pieces and configured values.

pub mod bar;
pub mod bar_text;
pub mod base;
pub mod base_text;
pub mod calendar;
pub mod notifications;
pub mod timeless;

use vstd::prelude::*;
use vstd::string::*;

use crate::css::bar::BarMetrics;
use crate::text;

verus! {

/// Background of a widget, with its opacity.
pub const WIDGET_BG_WITH_OPACITY: &'static str =
    "color-mix(in srgb, var(--widget-background-color) var(--widget-background-opacity), transparent)";

/// Background of a widget under the pointer. The nested mix lets a widget's own
/// background colour cascade.
pub const WIDGET_BG_HOVER: &'static str =
    "color-mix(in srgb, color-mix(in srgb, var(--widget-background-color) var(--widget-background-opacity), transparent) 92%, var(--widget-hover-tint))";

/// How long popovers take to open and close, in milliseconds.
pub const POPOVER_ANIMATION_MS: u64 = 150;

/// What the style sheets take from the configuration.
#[derive(Debug)]
pub struct CssConfig {
    pub screen_margin: u32,
    pub spacing: u32,
    pub animations: bool,
    /// The animation setting of the workspace widget, where it has one.
    pub workspaces_animate: Option<bool>,
    pub dismiss_animation_ms: u64,
    pub popover_bg: String,
    pub metrics: BarMetrics,
}

/// Style sheets of components that are written elsewhere.
#[derive(Debug)]
pub struct ComponentCss {
    pub tray: String,
    pub buttons: String,
    pub quick_settings: String,
    pub battery: String,
    pub osd: String,
    pub media: String,
    pub system: String,
}

/// The workspace widget's own setting goes before that of the theme.
pub open spec fn workspace_animations(c: CssConfig) -> bool {
    match c.workspaces_animate {
        Some(b) => b,
        None => c.animations,
    }
}

/// All widget styles in order, each but the last followed by a line break.
pub open spec fn widget_css_spec(c: CssConfig, o: ComponentCss) -> Seq<char> {
    text::join_spec(
        seq![
            bar::bar_css(c.screen_margin, c.spacing, workspace_animations(c), c.metrics),
            o.tray@,
            o.buttons@,
            calendar::CALENDAR@,
            o.quick_settings@,
            o.battery@,
            notifications::notifications_css(c.animations, c.dismiss_animation_ms),
            o.osd@,
            o.media@,
            o.system@,
        ],
        "\n"@,
    )
}

/// The style shared by all surfaces.
pub fn utility_css(config: &CssConfig) -> (r: String)
    ensures
        r@ == base::base_css(config.animations, config.popover_bg@),
{
    base::css(config.animations, config.popover_bg.as_str())
}

/// The style of all widgets.
pub fn widget_css(config: &CssConfig, others: &ComponentCss) -> (r: String)
    ensures
        r@ == widget_css_spec(*config, *others),
{
    let animate = match config.workspaces_animate {
        Some(b) => b,
        None => config.animations,
    };
    let mut parts: Vec<String> = Vec::new();
    parts.push(bar::css(config.screen_margin, config.spacing, animate, &config.metrics));
    parts.push(others.tray.clone());
    parts.push(others.buttons.clone());
    parts.push(calendar::css().to_string());
    parts.push(others.quick_settings.clone());
    parts.push(others.battery.clone());
    parts.push(notifications::css(config.animations, config.dismiss_animation_ms));
    parts.push(others.osd.clone());
    parts.push(others.media.clone());
    parts.push(others.system.clone());
    let r = text::join(&parts, "\n");
    assert(text::string_views(parts@) =~= seq![
        bar::bar_css(
            config.screen_margin,
            config.spacing,
            workspace_animations(*config),
            config.metrics,
        ),
        others.tray@,
        others.buttons@,
        calendar::CALENDAR@,
        others.quick_settings@,
        others.battery@,
        notifications::notifications_css(config.animations, config.dismiss_animation_ms),
        others.osd@,
        others.media@,
        others.system@,
    ]);
    r
}

} // verus!
