//! Style of the bar, its widgets and the workspace indicators.

use vstd::prelude::*;
use vstd::string::*;

use crate::css::bar_text;
use crate::css::bar_text::{
    BAR_AND_WIDGET, CONTENT_PADDING, GROUPS, GROUP_CORNERS, GROUP_ITEM, GROUP_ITEM_HOVER,
    GROUP_SURFACE_CORNERS, INDICATOR_ACTIVE, INDICATOR_HEIGHT, INDICATOR_HOVER, INDICATOR_LONG,
    INDICATOR_TRANSITION, INDICATOR_WIDTH, ITEM_SPACING, MERGE_GROUP, MERGE_GROUP_CLIP,
    MERGE_GROUP_HOVER, MERGE_ITEM, MERGE_ITEM_NOTE, MERGE_SPACER, NEXT_LINE, SEAMS, SEAM_LEFT,
    SEAM_RIGHT, SECTION_SPACING, SHELL, TASKBAR, TASKBAR_SEPARATORS, TASKBAR_URGENT,
};
use crate::css::timeless;
use crate::css::WIDGET_BG_WITH_OPACITY;
use crate::text;

verus! {

/// Sizes that the bar's style depends on. Factors are given as texts.
#[derive(Debug)]
pub struct BarMetrics {
    pub content_padding_x: u32,
    pub indicator_inactive_mult: String,
    pub indicator_active_mult: String,
    pub indicator_height_mult: String,
    pub long_indicator_hpad: String,
}

/// How indicators change size.
pub open spec fn workspace_transition(animations: bool) -> Seq<char> {
    if animations {
        "transition: min-width 200ms linear, background-color 100ms ease;"@
    } else {
        "transition: none;"@
    }
}

/// A property with a number of pixels.
pub open spec fn pixels(property: Seq<char>, n: nat) -> Seq<char> {
    property + text::dec(n) + "px;"@
}

/// The part on the shell of the bar, up to its margins.
pub open spec fn shell_css(screen_margin: u32) -> Seq<char> {
    SHELL@ + pixels("padding-left: "@, screen_margin as nat) + NEXT_LINE@ + pixels(
        "padding-right: "@,
        screen_margin as nat,
    )
}

/// The part on the bar, its widgets and their groups, up to the spacing between
/// widgets.
pub open spec fn widgets_css(m: BarMetrics) -> Seq<char> {
    BAR_AND_WIDGET@
        + WIDGET_BG_WITH_OPACITY@
        + CONTENT_PADDING@
        + text::dec(m.content_padding_x as nat)
        + GROUPS@
        + GROUP_ITEM@
        + WIDGET_BG_WITH_OPACITY@
        + SEAMS@
        + SEAM_LEFT@
        + text::dec(m.content_padding_x as nat / 2)
        + SEAM_RIGHT@
        + text::dec(m.content_padding_x as nat / 2)
        + GROUP_CORNERS@
        + GROUP_SURFACE_CORNERS@
        + GROUP_ITEM_HOVER@
        + WIDGET_BG_WITH_OPACITY@
        + MERGE_GROUP@
        + WIDGET_BG_WITH_OPACITY@
        + MERGE_GROUP_CLIP@
        + MERGE_GROUP_HOVER@
        + WIDGET_BG_WITH_OPACITY@
        + MERGE_ITEM_NOTE@
        + text::dec(m.content_padding_x as nat)
        + MERGE_ITEM@
        + text::dec(2 * m.content_padding_x as nat)
        + MERGE_SPACER@
        + text::dec(3 * m.content_padding_x as nat)
        + ITEM_SPACING@
        + SECTION_SPACING@
}

/// The part on the indicator of a workspace, up to its transition.
pub open spec fn indicator_css(m: BarMetrics) -> Seq<char> {
    INDICATOR_WIDTH@ + m.indicator_inactive_mult@ + INDICATOR_HEIGHT@ + m.indicator_height_mult@
        + INDICATOR_TRANSITION@
}

/// What stands before the transition of the workspace indicator.
pub open spec fn before_transition(screen_margin: u32, spacing: u32, m: BarMetrics) -> Seq<char> {
    shell_css(screen_margin) + widgets_css(m) + pixels("margin-right: "@, spacing as nat)
        + indicator_css(m)
}

/// What stands behind the transition of the workspace indicator.
pub open spec fn after_transition(m: BarMetrics) -> Seq<char> {
    INDICATOR_HOVER@ + INDICATOR_ACTIVE@ + m.indicator_active_mult@ + INDICATOR_LONG@
        + m.long_indicator_hpad@ + TASKBAR@ + TASKBAR_SEPARATORS@ + TASKBAR_URGENT@
}

/// The style with its values filled in.
pub open spec fn bar_css(
    screen_margin: u32,
    spacing: u32,
    workspace_animations: bool,
    m: BarMetrics,
) -> Seq<char> {
    before_transition(screen_margin, spacing, m) + workspace_transition(workspace_animations)
        + after_transition(m)
}

fn pixels_of(property: &str, n: u32) -> (r: String)
    ensures
        r@ == pixels(property@, n as nat),
{
    let mut r = property.to_string();
    r.append(text::decimal(n as u64).as_str());
    r.append("px;");
    r
}

fn shell(screen_margin: u32) -> (r: String)
    ensures
        r@ == shell_css(screen_margin),
{
    let mut r = SHELL.to_string();
    r.append(pixels_of("padding-left: ", screen_margin).as_str());
    r.append(NEXT_LINE);
    r.append(pixels_of("padding-right: ", screen_margin).as_str());
    r
}

fn widgets(m: &BarMetrics) -> (r: String)
    ensures
        r@ == widgets_css(*m),
{
    let x: u64 = m.content_padding_x as u64;
    let pad = text::decimal(x);
    let half = text::decimal(x / 2);
    let double = text::decimal(2 * x);
    let triple = text::decimal(3 * x);
    let mut r = BAR_AND_WIDGET.to_string();
    r.append(WIDGET_BG_WITH_OPACITY);
    r.append(CONTENT_PADDING);
    r.append(pad.as_str());
    r.append(GROUPS);
    r.append(GROUP_ITEM);
    r.append(WIDGET_BG_WITH_OPACITY);
    r.append(SEAMS);
    r.append(SEAM_LEFT);
    r.append(half.as_str());
    r.append(SEAM_RIGHT);
    r.append(half.as_str());
    r.append(GROUP_CORNERS);
    r.append(GROUP_SURFACE_CORNERS);
    r.append(GROUP_ITEM_HOVER);
    r.append(WIDGET_BG_WITH_OPACITY);
    r.append(MERGE_GROUP);
    r.append(WIDGET_BG_WITH_OPACITY);
    r.append(MERGE_GROUP_CLIP);
    r.append(MERGE_GROUP_HOVER);
    r.append(WIDGET_BG_WITH_OPACITY);
    r.append(MERGE_ITEM_NOTE);
    r.append(pad.as_str());
    r.append(MERGE_ITEM);
    r.append(double.as_str());
    r.append(MERGE_SPACER);
    r.append(triple.as_str());
    r.append(ITEM_SPACING);
    r.append(SECTION_SPACING);
    r
}

fn indicator(m: &BarMetrics) -> (r: String)
    ensures
        r@ == indicator_css(*m),
{
    let mut r = INDICATOR_WIDTH.to_string();
    r.append(m.indicator_inactive_mult.as_str());
    r.append(INDICATOR_HEIGHT);
    r.append(m.indicator_height_mult.as_str());
    r.append(INDICATOR_TRANSITION);
    r
}

fn rest(m: &BarMetrics) -> (r: String)
    ensures
        r@ == after_transition(*m),
{
    let mut r = INDICATOR_HOVER.to_string();
    r.append(INDICATOR_ACTIVE);
    r.append(m.indicator_active_mult.as_str());
    r.append(INDICATOR_LONG);
    r.append(m.long_indicator_hpad.as_str());
    r.append(TASKBAR);
    r.append(TASKBAR_SEPARATORS);
    r.append(TASKBAR_URGENT);
    r
}

/// The style of the bar. `workspace_animations` is the setting of the
/// workspace widget where it has one, else that of the theme.
pub fn css(screen_margin: u32, spacing: u32, workspace_animations: bool, m: &BarMetrics) -> (r:
    String)
    ensures
        r@ == bar_css(screen_margin, spacing, workspace_animations, *m),
{
    let transition: &str = if workspace_animations {
        "transition: min-width 200ms linear, background-color 100ms ease;"
    } else {
        "transition: none;"
    };
    let mut r = shell(screen_margin);
    r.append(widgets(m).as_str());
    r.append(pixels_of("margin-right: ", spacing).as_str());
    r.append(indicator(m).as_str());
    r.append(transition);
    r.append(rest(m).as_str());
    r
}

proof fn lemma_widget_background()
    ensures
        timeless::timeless(WIDGET_BG_WITH_OPACITY@),
{
    reveal_strlit(
        "color-mix(in srgb, var(--widget-background-color) var(--widget-background-opacity), transparent)",
    );
    assert(WIDGET_BG_WITH_OPACITY@.len() == 96);
    assert(timeless::unpaired(WIDGET_BG_WITH_OPACITY@, '0', 'm', 6)) by {
        reveal_with_fuel(timeless::unpaired, 7);
    }
    timeless::lemma_timeless(WIDGET_BG_WITH_OPACITY@, 6);
}

proof fn lemma_pixels_are_timeless(property: Seq<char>, n: nat)
    requires
        timeless::timeless(property),
    ensures
        timeless::timeless(pixels(property, n)),
{
    reveal_strlit("px;");
    reveal_with_fuel(timeless::unpaired, 2);
    timeless::lemma_timeless("px;"@, 1);
    timeless::lemma_timeless_number(property, n, "px;"@);
}

proof fn lemma_shell_is_timeless(screen_margin: u32)
    ensures
        timeless::timeless(shell_css(screen_margin)),
{
    let left = "padding-left: "@;
    let right = "padding-right: "@;
    assert(timeless::timeless(left) && timeless::timeless(right)) by {
        reveal_strlit("padding-left: ");
        reveal_strlit("padding-right: ");
        reveal_with_fuel(timeless::unpaired, 2);
        timeless::lemma_timeless(left, 1);
        timeless::lemma_timeless(right, 1);
    }
    bar_text::lemma_shell();
    bar_text::lemma_next_line();
    lemma_pixels_are_timeless(left, screen_margin as nat);
    lemma_pixels_are_timeless(right, screen_margin as nat);
    let s1 = SHELL@ + pixels(left, screen_margin as nat);
    timeless::lemma_timeless_join(SHELL@, pixels(left, screen_margin as nat));
    timeless::lemma_timeless_join(s1, NEXT_LINE@);
    timeless::lemma_timeless_join(s1 + NEXT_LINE@, pixels(right, screen_margin as nat));
}

proof fn lemma_widgets_are_timeless(m: BarMetrics)
    ensures
        timeless::timeless(widgets_css(m)),
{
    lemma_widget_background();
    bar_text::lemma_bar_and_widget();
    bar_text::lemma_content_padding();
    bar_text::lemma_groups();
    bar_text::lemma_group_item();
    bar_text::lemma_seams();
    bar_text::lemma_seam_left();
    bar_text::lemma_seam_right();
    bar_text::lemma_group_corners();
    bar_text::lemma_group_surface_corners();
    bar_text::lemma_group_item_hover();
    bar_text::lemma_merge_group();
    bar_text::lemma_merge_group_clip();
    bar_text::lemma_merge_group_hover();
    bar_text::lemma_merge_item_note();
    bar_text::lemma_merge_item();
    bar_text::lemma_merge_spacer();
    bar_text::lemma_item_spacing();
    bar_text::lemma_section_spacing();
    let s0 = BAR_AND_WIDGET@;
    let s1 = s0 + WIDGET_BG_WITH_OPACITY@;
    timeless::lemma_timeless_join(s0, WIDGET_BG_WITH_OPACITY@);
    let s2 = s1 + CONTENT_PADDING@;
    timeless::lemma_timeless_join(s1, CONTENT_PADDING@);
    let s3 = s2 + text::dec(m.content_padding_x as nat) + GROUPS@;
    timeless::lemma_timeless_number(s2, m.content_padding_x as nat, GROUPS@);
    let s4 = s3 + GROUP_ITEM@;
    timeless::lemma_timeless_join(s3, GROUP_ITEM@);
    let s5 = s4 + WIDGET_BG_WITH_OPACITY@;
    timeless::lemma_timeless_join(s4, WIDGET_BG_WITH_OPACITY@);
    let s6 = s5 + SEAMS@;
    timeless::lemma_timeless_join(s5, SEAMS@);
    let s7 = s6 + SEAM_LEFT@;
    timeless::lemma_timeless_join(s6, SEAM_LEFT@);
    let s8 = s7 + text::dec(m.content_padding_x as nat / 2) + SEAM_RIGHT@;
    timeless::lemma_timeless_number(s7, m.content_padding_x as nat / 2, SEAM_RIGHT@);
    let s9 = s8 + text::dec(m.content_padding_x as nat / 2) + GROUP_CORNERS@;
    timeless::lemma_timeless_number(s8, m.content_padding_x as nat / 2, GROUP_CORNERS@);
    let s10 = s9 + GROUP_SURFACE_CORNERS@;
    timeless::lemma_timeless_join(s9, GROUP_SURFACE_CORNERS@);
    let s11 = s10 + GROUP_ITEM_HOVER@;
    timeless::lemma_timeless_join(s10, GROUP_ITEM_HOVER@);
    let s12 = s11 + WIDGET_BG_WITH_OPACITY@;
    timeless::lemma_timeless_join(s11, WIDGET_BG_WITH_OPACITY@);
    let s13 = s12 + MERGE_GROUP@;
    timeless::lemma_timeless_join(s12, MERGE_GROUP@);
    let s14 = s13 + WIDGET_BG_WITH_OPACITY@;
    timeless::lemma_timeless_join(s13, WIDGET_BG_WITH_OPACITY@);
    let s15 = s14 + MERGE_GROUP_CLIP@;
    timeless::lemma_timeless_join(s14, MERGE_GROUP_CLIP@);
    let s16 = s15 + MERGE_GROUP_HOVER@;
    timeless::lemma_timeless_join(s15, MERGE_GROUP_HOVER@);
    let s17 = s16 + WIDGET_BG_WITH_OPACITY@;
    timeless::lemma_timeless_join(s16, WIDGET_BG_WITH_OPACITY@);
    let s18 = s17 + MERGE_ITEM_NOTE@;
    timeless::lemma_timeless_join(s17, MERGE_ITEM_NOTE@);
    let s19 = s18 + text::dec(m.content_padding_x as nat) + MERGE_ITEM@;
    timeless::lemma_timeless_number(s18, m.content_padding_x as nat, MERGE_ITEM@);
    let s20 = s19 + text::dec(2 * m.content_padding_x as nat) + MERGE_SPACER@;
    timeless::lemma_timeless_number(s19, 2 * m.content_padding_x as nat, MERGE_SPACER@);
    let s21 = s20 + text::dec(3 * m.content_padding_x as nat) + ITEM_SPACING@;
    timeless::lemma_timeless_number(s20, 3 * m.content_padding_x as nat, ITEM_SPACING@);
    let s22 = s21 + SECTION_SPACING@;
    timeless::lemma_timeless_join(s21, SECTION_SPACING@);
    assert(widgets_css(m) == s22);
}

/// The transition of the workspace indicator while it moves.
pub open spec fn moving() -> Seq<char> {
    "transition: min-width 200ms linear, background-color 100ms ease;"@
}

/// No metric holds the transition of the workspace indicator.
pub open spec fn plain_metrics(m: BarMetrics) -> bool {
    &&& !text::stands_in(m.indicator_inactive_mult@, moving())
    &&& !text::stands_in(m.indicator_height_mult@, moving())
    &&& !text::stands_in(m.indicator_active_mult@, moving())
    &&& !text::stands_in(m.long_indicator_hpad@, moving())
}

proof fn lemma_moving_is_one_line()
    ensures
        text::free_of(moving(), '\n', 64),
{
    reveal_strlit("transition: min-width 200ms linear, background-color 100ms ease;");
    reveal_with_fuel(text::free_of, 65);
}

/// The text of a number.
pub open spec fn is_number_text(s: Seq<char>) -> bool {
    forall|i: int| 0 <= i < s.len() ==> ('0' <= #[trigger] s[i] <= '9' || s[i] == '.')
}

/// What the places of the transition depend on.
proof fn lemma_moving()
    ensures
        moving().len() == 64,
        moving()[0] == 't',
        moving()[24] == '0',
        moving()[25] == 'm',
        text::free_of(moving(), ')', 64),
        text::free_of(moving(), 'p', 64),
        text::free_of(moving(), '\n', 64),
        timeless::unpaired(moving(), '*', ' ', 4),
        timeless::unpaired(moving(), '0', ' ', 4),
        timeless::unpaired(moving(), ' ', ' ', 4),
{
    reveal_strlit("transition: min-width 200ms linear, background-color 100ms ease;");
    assert(moving().len() == 64);
    assert(text::free_of(moving(), ')', 64)) by {
        reveal_with_fuel(text::free_of, 65);
    }
    assert(text::free_of(moving(), 'p', 64)) by {
        reveal_with_fuel(text::free_of, 65);
    }
    lemma_moving_is_one_line();
    reveal_with_fuel(timeless::unpaired, 5);
}

proof fn lemma_number_is_plain(s: Seq<char>)
    requires
        is_number_text(s),
    ensures
        !text::stands_in(s, moving()),
{
    lemma_moving();
    assert forall|j: int| !text::occurs_at(s, moving(), j) by {
        if text::occurs_at(s, moving(), j) {
            assert(s.subrange(j, j + 64)[0] == s[j]);
        }
    }
}

/// A fixed text, a metric and a fixed text hold no transition where the metric
/// holds none.
proof fn lemma_metric_between(f: Seq<char>, v: Seq<char>, g: Seq<char>)
    requires
        !text::stands_in(f, moving()),
        !text::stands_in(v, moving()),
        timeless::timeless(g),
        f.len() > 2,
        f[f.len() - 1] == ' ',
        f[f.len() - 2] == '*' || f[f.len() - 2] == '0',
        g.len() > 0,
        g[0] == ')' || g[0] == 'p',
    ensures
        !text::stands_in(f + v + g, moving()),
{
    lemma_moving();
    timeless::lemma_timeless_holds_no_time(g, moving(), 24);
    timeless::lemma_runs_not_into(f, moving(), 1, 4);
    timeless::lemma_between(f, v, g, moving());
}

proof fn lemma_no_transition_before(screen_margin: u32, spacing: u32, m: BarMetrics)
    requires
        plain_metrics(m),
    ensures
        !text::stands_in(before_transition(screen_margin, spacing, m), moving()),
        !timeless::runs_into(before_transition(screen_margin, spacing, m), moving()),
{
    let property = "margin-right: "@;
    assert(timeless::timeless(property)) by {
        reveal_strlit("margin-right: ");
        reveal_with_fuel(timeless::unpaired, 2);
        timeless::lemma_timeless(property, 1);
    }
    let gap = pixels(property, spacing as nat);
    let widgets = shell_css(screen_margin) + widgets_css(m);
    let first = widgets + gap + INDICATOR_WIDTH@;
    lemma_moving();
    lemma_shell_is_timeless(screen_margin);
    lemma_widgets_are_timeless(m);
    lemma_pixels_are_timeless(property, spacing as nat);
    bar_text::lemma_indicator_width();
    bar_text::lemma_indicator_height();
    bar_text::lemma_indicator_transition();
    timeless::lemma_timeless_join(shell_css(screen_margin), widgets_css(m));
    timeless::lemma_timeless_join(widgets, gap);
    timeless::lemma_timeless_join(widgets + gap, INDICATOR_WIDTH@);
    timeless::lemma_timeless_holds_no_time(first, moving(), 24);
    let second = first + m.indicator_inactive_mult@ + INDICATOR_HEIGHT@;
    lemma_metric_between(first, m.indicator_inactive_mult@, INDICATOR_HEIGHT@);
    let third = second + m.indicator_height_mult@ + INDICATOR_TRANSITION@;
    lemma_metric_between(second, m.indicator_height_mult@, INDICATOR_TRANSITION@);
    timeless::lemma_runs_not_into(third, moving(), 1, 4);
    assert(before_transition(screen_margin, spacing, m) =~= third);
}

proof fn lemma_no_transition_behind(m: BarMetrics)
    requires
        plain_metrics(m),
    ensures
        !text::stands_in(after_transition(m), moving()),
        after_transition(m).len() > 0,
        after_transition(m)[0] == '\n',
{
    let first = INDICATOR_HOVER@ + INDICATOR_ACTIVE@;
    let last = TASKBAR@ + TASKBAR_SEPARATORS@ + TASKBAR_URGENT@;
    lemma_moving();
    bar_text::lemma_indicator_hover();
    bar_text::lemma_indicator_active();
    bar_text::lemma_indicator_long();
    bar_text::lemma_taskbar();
    bar_text::lemma_taskbar_separators();
    bar_text::lemma_taskbar_urgent();
    timeless::lemma_timeless_join(INDICATOR_HOVER@, INDICATOR_ACTIVE@);
    timeless::lemma_timeless_join(TASKBAR@, TASKBAR_SEPARATORS@);
    timeless::lemma_timeless_join(TASKBAR@ + TASKBAR_SEPARATORS@, TASKBAR_URGENT@);
    timeless::lemma_timeless_holds_no_time(first, moving(), 24);
    let second = first + m.indicator_active_mult@ + INDICATOR_LONG@;
    lemma_metric_between(first, m.indicator_active_mult@, INDICATOR_LONG@);
    let third = second + m.long_indicator_hpad@ + last;
    lemma_metric_between(second, m.long_indicator_hpad@, last);
    assert(after_transition(m) =~= third);
}

/// The setting for animations reaches the transition of the workspace indicator
/// and nothing else of the bar's style.
pub proof fn law_animations_reach_the_indicator_only(
    screen_margin: u32,
    spacing: u32,
    m: BarMetrics,
)
    ensures
        bar_css(screen_margin, spacing, true, m) == before_transition(screen_margin, spacing, m)
            + "transition: min-width 200ms linear, background-color 100ms ease;"@
            + after_transition(m),
        bar_css(screen_margin, spacing, false, m) == before_transition(screen_margin, spacing, m)
            + "transition: none;"@ + after_transition(m),
        text::occurs_at(
            bar_css(screen_margin, spacing, true, m),
            "transition: min-width 200ms linear, background-color 100ms ease;"@,
            before_transition(screen_margin, spacing, m).len() as int,
        ),
{
    text::lemma_part_stands_in(
        before_transition(screen_margin, spacing, m),
        "transition: min-width 200ms linear, background-color 100ms ease;"@,
        after_transition(m),
    );
}

/// With animations and without, the margin to the screen and the spacing stand
/// in the bar's style as numbers of pixels.
pub proof fn law_margins_are_in_the_style(
    screen_margin: u32,
    spacing: u32,
    animations: bool,
    m: BarMetrics,
)
    ensures
        ({
            let css = bar_css(screen_margin, spacing, animations, m);
            &&& text::stands_in(
                css,
                "padding-left: "@ + text::dec(screen_margin as nat) + "px;"@,
            )
            &&& text::stands_in(
                css,
                "padding-right: "@ + text::dec(screen_margin as nat) + "px;"@,
            )
            &&& text::stands_in(css, "margin-right: "@ + text::dec(spacing as nat) + "px;"@)
        }),
{
    let css = bar_css(screen_margin, spacing, animations, m);
    let left = pixels("padding-left: "@, screen_margin as nat);
    let right = pixels("padding-right: "@, screen_margin as nat);
    let gap = pixels("margin-right: "@, spacing as nat);
    let behind_gap = indicator_css(m) + workspace_transition(animations) + after_transition(m);
    let behind_right = widgets_css(m) + gap + behind_gap;
    let behind_left = NEXT_LINE@ + right + behind_right;
    assert(css =~= (shell_css(screen_margin) + widgets_css(m)) + gap + behind_gap);
    assert(css =~= (SHELL@ + left + NEXT_LINE@) + right + behind_right);
    assert(css =~= SHELL@ + left + behind_left);
    text::lemma_part_stands_in(shell_css(screen_margin) + widgets_css(m), gap, behind_gap);
    text::lemma_part_stands_in(SHELL@ + left + NEXT_LINE@, right, behind_right);
    text::lemma_part_stands_in(SHELL@, left, behind_left);
}

/// Metrics that are numbers do not hold the transition.
pub proof fn law_numbers_are_plain(m: BarMetrics)
    requires
        is_number_text(m.indicator_inactive_mult@),
        is_number_text(m.indicator_height_mult@),
        is_number_text(m.indicator_active_mult@),
        is_number_text(m.long_indicator_hpad@),
    ensures
        plain_metrics(m),
{
    lemma_number_is_plain(m.indicator_inactive_mult@);
    lemma_number_is_plain(m.indicator_height_mult@);
    lemma_number_is_plain(m.indicator_active_mult@);
    lemma_number_is_plain(m.long_indicator_hpad@);
}

/// The style with animations holds the transition of the workspace indicator
/// exactly once, at its place, unless a metric brings it in once more.
pub proof fn law_transition_stands_once(screen_margin: u32, spacing: u32, m: BarMetrics)
    requires
        plain_metrics(m),
    ensures
        text::stands_once(
            bar_css(screen_margin, spacing, true, m),
            "transition: min-width 200ms linear, background-color 100ms ease;"@,
            before_transition(screen_margin, spacing, m).len() as int,
        ),
{
    lemma_moving();
    lemma_no_transition_before(screen_margin, spacing, m);
    lemma_no_transition_behind(m);
    timeless::lemma_once(
        before_transition(screen_margin, spacing, m),
        moving(),
        after_transition(m),
    );
}

/// The style without animations is the one with them after the transition of the
/// workspace indicator is replaced, and it holds that transition nowhere, unless
/// a metric brings it in.
pub proof fn law_still_style_by_replacing(screen_margin: u32, spacing: u32, m: BarMetrics)
    requires
        plain_metrics(m),
    ensures
        text::replaced(
            bar_css(screen_margin, spacing, true, m),
            "transition: min-width 200ms linear, background-color 100ms ease;"@,
            "transition: none;"@,
        ) == bar_css(screen_margin, spacing, false, m),
        !text::stands_in(
            bar_css(screen_margin, spacing, false, m),
            "transition: min-width 200ms linear, background-color 100ms ease;"@,
        ),
{
    law_transition_stands_once(screen_margin, spacing, m);
    let before = before_transition(screen_margin, spacing, m);
    let still = "transition: none;"@;
    reveal_strlit("transition: min-width 200ms linear, background-color 100ms ease;");
    reveal_strlit("transition: none;");
    assert(text::free_of(moving(), ';', 63)) by {
        reveal_with_fuel(text::free_of, 64);
    }
    assert(text::free_of(still, ';', 16)) by {
        reveal_with_fuel(text::free_of, 17);
    }
    text::lemma_replaced_once(before, moving(), after_transition(m), still);
    text::lemma_replaced_is_gone(before, moving(), after_transition(m), still, ';', 2);
}

} // verus!
