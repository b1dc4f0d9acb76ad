//! What holds of the style sheets, whatever is configured.

use vstd::prelude::*;
use vstd::string::*;

use crate::css;
use crate::css::bar;
use crate::css::bar::BarMetrics;
use crate::css::bar_text;
use crate::css::base;
use crate::css::base_text;
use crate::css::calendar;
use crate::css::notifications;
use crate::css::{ComponentCss, CssConfig};
use crate::text;

verus! {

/// The styles of all widgets stand one under another: the bar, the tray, buttons,
/// the calendar, Quick Settings, the battery, notifications, the display of
/// volume and brightness, media, and the system.
pub proof fn law_styles_stand_in_order(c: CssConfig, o: ComponentCss, animate: bool)
    requires
        c.workspaces_animate matches Some(b) ==> animate == b,
        c.workspaces_animate is None ==> animate == c.animations,
    ensures
        css::widget_css_spec(c, o) == bar::bar_css(c.screen_margin, c.spacing, animate, c.metrics)
            + "\n"@ + o.tray@ + "\n"@ + o.buttons@ + "\n"@ + calendar::CALENDAR@ + "\n"@
            + o.quick_settings@ + "\n"@ + o.battery@ + "\n"@ + notifications::notifications_css(
            c.animations,
            c.dismiss_animation_ms,
        ) + "\n"@ + o.osd@ + "\n"@ + o.media@ + "\n"@ + o.system@,
{
    reveal_with_fuel(text::join_spec, 11);
    let p = seq![
        bar::bar_css(c.screen_margin, c.spacing, animate, c.metrics),
        o.tray@,
        o.buttons@,
        calendar::CALENDAR@,
        o.quick_settings@,
        o.battery@,
        notifications::notifications_css(c.animations, c.dismiss_animation_ms),
        o.osd@,
        o.media@,
        o.system@,
    ];
    lemma_join_step(p, 2);
    lemma_join_step(p, 3);
    lemma_join_step(p, 4);
    lemma_join_step(p, 5);
    lemma_join_step(p, 6);
    lemma_join_step(p, 7);
    lemma_join_step(p, 8);
    lemma_join_step(p, 9);
    lemma_join_step(p, 10);
    assert(p.take(1) =~= seq![p[0]]);
    assert(p.take(10) =~= p);
}

proof fn lemma_join_step(p: Seq<Seq<char>>, k: int)
    requires
        2 <= k <= p.len(),
    ensures
        text::join_spec(p.take(k), "\n"@) == text::join_spec(p.take(k - 1), "\n"@) + "\n"@ + p[k
            - 1],
{
    assert(p.take(k).drop_last() =~= p.take(k - 1));
    assert(p.take(k).last() == p[k - 1]);
}

/// A dismissed notification fades for the time configured, and goes at once
/// without animations. Nothing else of the style depends on either.
pub proof fn law_notifications_fade(ms: u64, other: u64)
    ensures
        notifications::notifications_css(true, ms) == notifications::ROWS@
            + ("transition: opacity "@ + text::dec(ms as nat) + "ms ease;"@)
            + notifications::DETAILS_AND_TOASTS@,
        notifications::notifications_css(false, ms) == notifications::ROWS@ + "transition: none;"@
            + notifications::DETAILS_AND_TOASTS@,
        notifications::notifications_css(false, ms) == notifications::notifications_css(
            false,
            other,
        ),
{
}

/// What stands in a text stands in a longer one.
proof fn lemma_stands_in_longer(before: Seq<char>, s: Seq<char>, after: Seq<char>, p: Seq<char>)
    requires
        text::stands_in(s, p),
    ensures
        text::stands_in(before + s + after, p),
        text::stands_in(s + after, p),
{
    let k = choose|k: int| #[trigger] text::occurs_at(s, p, k);
    let t = before + s + after;
    assert(t.subrange(before.len() + k, before.len() + k + p.len()) =~= s.subrange(
        k,
        k + p.len(),
    ));
    assert(text::occurs_at(t, p, before.len() + k));
    let u = s + after;
    assert(u.subrange(k, k + p.len()) =~= s.subrange(k, k + p.len()));
    assert(text::occurs_at(u, p, k));
}

/// The part on widgets up to the seams of groups.
spec fn up_to_seams(m: BarMetrics) -> Seq<char> {
    bar_text::BAR_AND_WIDGET@ + css::WIDGET_BG_WITH_OPACITY@ + bar_text::CONTENT_PADDING@
        + text::dec(m.content_padding_x as nat) + bar_text::GROUPS@ + bar_text::GROUP_ITEM@
        + css::WIDGET_BG_WITH_OPACITY@ + bar_text::SEAMS@
}

/// The part on widgets up to the merging of groups.
spec fn up_to_merging(m: BarMetrics) -> Seq<char> {
    up_to_seams(m) + bar_text::SEAM_LEFT@ + text::dec(m.content_padding_x as nat / 2)
        + bar_text::SEAM_RIGHT@ + text::dec(m.content_padding_x as nat / 2)
        + bar_text::GROUP_CORNERS@ + bar_text::GROUP_SURFACE_CORNERS@ + bar_text::GROUP_ITEM_HOVER@
        + css::WIDGET_BG_WITH_OPACITY@ + bar_text::MERGE_GROUP@ + css::WIDGET_BG_WITH_OPACITY@
        + bar_text::MERGE_GROUP_CLIP@ + bar_text::MERGE_GROUP_HOVER@ + css::WIDGET_BG_WITH_OPACITY@
}

proof fn lemma_content_padding(m: BarMetrics)
    ensures
        text::stands_in(
            up_to_seams(m),
            bar_text::CONTENT_PADDING@ + text::dec(m.content_padding_x as nat) + bar_text::GROUPS@,
        ),
{
    let content = bar_text::CONTENT_PADDING@ + text::dec(m.content_padding_x as nat)
        + bar_text::GROUPS@;
    let before = bar_text::BAR_AND_WIDGET@ + css::WIDGET_BG_WITH_OPACITY@;
    let after = bar_text::GROUP_ITEM@ + css::WIDGET_BG_WITH_OPACITY@ + bar_text::SEAMS@;
    assert(up_to_seams(m) =~= before + content + after);
    text::lemma_part_stands_in(before, content, after);
}

proof fn lemma_seams(m: BarMetrics)
    ensures
        ({
            let half = text::dec(m.content_padding_x as nat / 2);
            text::stands_in(
                up_to_merging(m),
                bar_text::SEAM_LEFT@ + half + bar_text::SEAM_RIGHT@ + half
                    + bar_text::GROUP_CORNERS@,
            )
        }),
        exists|after: Seq<char>| up_to_merging(m) == #[trigger] (up_to_seams(m) + after),
{
    let half = text::dec(m.content_padding_x as nat / 2);
    let seams = bar_text::SEAM_LEFT@ + half + bar_text::SEAM_RIGHT@ + half + bar_text::GROUP_CORNERS@;
    let after = bar_text::GROUP_SURFACE_CORNERS@ + bar_text::GROUP_ITEM_HOVER@
        + css::WIDGET_BG_WITH_OPACITY@ + bar_text::MERGE_GROUP@ + css::WIDGET_BG_WITH_OPACITY@
        + bar_text::MERGE_GROUP_CLIP@ + bar_text::MERGE_GROUP_HOVER@ + css::WIDGET_BG_WITH_OPACITY@;
    let before = up_to_seams(m);
    assert(up_to_merging(m) =~= before + seams + after);
    text::lemma_part_stands_in(before, seams, after);
    assert(up_to_merging(m) =~= before + (seams + after));
}

proof fn lemma_merging(m: BarMetrics)
    ensures
        ({
            let x = m.content_padding_x as nat;
            let merge = bar_text::MERGE_ITEM_NOTE@ + text::dec(x) + bar_text::MERGE_ITEM@
                + text::dec(2 * x) + bar_text::MERGE_SPACER@ + text::dec(3 * x)
                + bar_text::ITEM_SPACING@;
            &&& bar::widgets_css(m) == up_to_merging(m) + merge + bar_text::SECTION_SPACING@
        }),
{
    let x = m.content_padding_x as nat;
    let merge = bar_text::MERGE_ITEM_NOTE@ + text::dec(x) + bar_text::MERGE_ITEM@ + text::dec(2 * x)
        + bar_text::MERGE_SPACER@ + text::dec(3 * x) + bar_text::ITEM_SPACING@;
    let before = up_to_merging(m);
    assert(bar::widgets_css(m) == before + bar_text::MERGE_ITEM_NOTE@ + text::dec(x)
        + bar_text::MERGE_ITEM@ + text::dec(2 * x) + bar_text::MERGE_SPACER@ + text::dec(3 * x)
        + bar_text::ITEM_SPACING@ + bar_text::SECTION_SPACING@);
    assert(before + bar_text::MERGE_ITEM_NOTE@ + text::dec(x) + bar_text::MERGE_ITEM@ + text::dec(
        2 * x,
    ) + bar_text::MERGE_SPACER@ + text::dec(3 * x) + bar_text::ITEM_SPACING@ =~= before + merge);
}

/// The padding of the bar's content is the configured one, halved at the seams of
/// groups, doubled and tripled where groups merge.
pub proof fn law_padding_is_in_the_style(margin: u32, spacing: u32, animate: bool, m: BarMetrics)
    ensures
        ({
            let sheet = bar::bar_css(margin, spacing, animate, m);
            let x = m.content_padding_x as nat;
            &&& text::stands_in(
                sheet,
                bar_text::CONTENT_PADDING@ + text::dec(x) + bar_text::GROUPS@,
            )
            &&& text::stands_in(
                sheet,
                bar_text::SEAM_LEFT@ + text::dec(x / 2) + bar_text::SEAM_RIGHT@ + text::dec(x / 2)
                    + bar_text::GROUP_CORNERS@,
            )
            &&& text::stands_in(
                sheet,
                bar_text::MERGE_ITEM_NOTE@ + text::dec(x) + bar_text::MERGE_ITEM@ + text::dec(2 * x)
                    + bar_text::MERGE_SPACER@ + text::dec(3 * x) + bar_text::ITEM_SPACING@,
            )
        }),
{
    let sheet = bar::bar_css(margin, spacing, animate, m);
    let x = m.content_padding_x as nat;
    let none = Seq::<char>::empty();
    let content = bar_text::CONTENT_PADDING@ + text::dec(x) + bar_text::GROUPS@;
    let seams = bar_text::SEAM_LEFT@ + text::dec(x / 2) + bar_text::SEAM_RIGHT@ + text::dec(x / 2)
        + bar_text::GROUP_CORNERS@;
    let merge = bar_text::MERGE_ITEM_NOTE@ + text::dec(x) + bar_text::MERGE_ITEM@ + text::dec(2 * x)
        + bar_text::MERGE_SPACER@ + text::dec(3 * x) + bar_text::ITEM_SPACING@;
    lemma_content_padding(m);
    lemma_seams(m);
    lemma_merging(m);
    let after_seams = choose|after: Seq<char>|
        up_to_merging(m) == #[trigger] (up_to_seams(m) + after);
    lemma_stands_in_longer(none, up_to_seams(m), after_seams, content);
    let w = bar::widgets_css(m);
    let end = merge + bar_text::SECTION_SPACING@;
    assert(w =~= up_to_merging(m) + end);
    lemma_stands_in_longer(none, up_to_merging(m), end, content);
    lemma_stands_in_longer(none, up_to_merging(m), end, seams);
    text::lemma_part_stands_in(up_to_merging(m), merge, bar_text::SECTION_SPACING@);
    let gap = bar::pixels("margin-right: "@, spacing as nat);
    let i = bar::indicator_css(m);
    let t = bar::workspace_transition(animate);
    let a = bar::after_transition(m);
    let rest = gap + i + t + a;
    let shell = bar::shell_css(margin);
    assert(sheet =~= shell + w + rest);
    lemma_stands_in_longer(shell, w, rest, content);
    lemma_stands_in_longer(shell, w, rest, seams);
    lemma_stands_in_longer(shell, w, rest, merge);
}

/// The sizes of the workspace indicator stand at their places: the idle width and
/// the height before its transition, the width in use and the padding of a long
/// one behind.
pub proof fn law_indicator_sizes_are_in_the_style(
    margin: u32,
    spacing: u32,
    animate: bool,
    m: BarMetrics,
)
    ensures
        ({
            let sheet = bar::bar_css(margin, spacing, animate, m);
            let idle = bar_text::INDICATOR_WIDTH@ + m.indicator_inactive_mult@
                + bar_text::INDICATOR_HEIGHT@ + m.indicator_height_mult@
                + bar_text::INDICATOR_TRANSITION@;
            let used = bar_text::INDICATOR_ACTIVE@ + m.indicator_active_mult@
                + bar_text::INDICATOR_LONG@ + m.long_indicator_hpad@ + bar_text::TASKBAR@;
            &&& text::stands_in(sheet, idle)
            &&& text::stands_in(sheet, used)
        }),
{
    let sheet = bar::bar_css(margin, spacing, animate, m);
    let idle = bar_text::INDICATOR_WIDTH@ + m.indicator_inactive_mult@
        + bar_text::INDICATOR_HEIGHT@ + m.indicator_height_mult@ + bar_text::INDICATOR_TRANSITION@;
    let used = bar_text::INDICATOR_ACTIVE@ + m.indicator_active_mult@ + bar_text::INDICATOR_LONG@
        + m.long_indicator_hpad@ + bar_text::TASKBAR@;
    let before = bar::shell_css(margin) + bar::widgets_css(m) + bar::pixels(
        "margin-right: "@,
        spacing as nat,
    );
    let t = bar::workspace_transition(animate);
    let end = bar_text::TASKBAR_SEPARATORS@ + bar_text::TASKBAR_URGENT@;
    assert(sheet =~= before + idle + (t + bar::after_transition(m)));
    assert(bar::after_transition(m) =~= bar_text::INDICATOR_HOVER@ + used + end);
    assert(sheet =~= (before + idle + t + bar_text::INDICATOR_HOVER@) + used + end);
    text::lemma_part_stands_in(before, idle, t + bar::after_transition(m));
    text::lemma_part_stands_in(before + idle + t + bar_text::INDICATOR_HOVER@, used, end);
}

/// The background of popovers stands in the shared style, at its place.
pub proof fn law_popover_background_is_in_the_style(animations: bool, bg: Seq<char>)
    ensures
        text::stands_in(
            base::base_css(animations, bg),
            base_text::POPOVER_SURFACE@ + bg + ";"@ + base_text::SURFACE_AND_MENUS@,
        ),
{
    let sheet = base::base_css(animations, bg);
    let place = base_text::POPOVER_SURFACE@ + bg + ";"@ + base_text::SURFACE_AND_MENUS@;
    let before = base_text::WINDOWS_AND_ICONS@ + base_text::TOOLTIPS@ + base_text::COLORS_AND_LINKS@;
    let focus = base_text::FOCUS_SUPPRESSION@ + base_text::FOCUS_EXCEPTIONS@ + base_text::FOCUS_COLOR@
        + base_text::FOCUS_RINGS@ + base_text::ROW_FOCUS@ + base_text::POWER_ROWS_AND_RIPPLES@
        + base_text::RIPPLE_SHAPES_AND_BUTTON@;
    assert(base::before_buttons(bg) =~= before + place + focus);
    let end = sheet.skip(base::before_buttons(bg).len() as int);
    assert(sheet =~= base::before_buttons(bg) + end);
    assert(sheet =~= before + place + (focus + end));
    text::lemma_part_stands_in(before, place, focus + end);
}

} // verus!
