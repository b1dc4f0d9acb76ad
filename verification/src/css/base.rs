//! Style shared by all surfaces.

use vstd::prelude::*;
use vstd::string::*;

use crate::css::base_text;
use crate::css::base_text::{
    BUTTON_HOVER, COLORS_AND_LINKS, FOCUS_COLOR, FOCUS_EXCEPTIONS, FOCUS_RINGS, FOCUS_SUPPRESSION,
    POPOVER_SURFACE, POWER_ROWS_AND_RIPPLES, RIPPLE_SHAPES_AND_BUTTON, ROW_FOCUS, SLIDER,
    SLIDER_KNOB, SLIDER_ROW, SURFACE_AND_MENUS, TOOLTIPS, WIDGET, WIDGET_ITEM, WIDGET_ITEM_HOVER,
    WINDOWS_AND_ICONS,
};
use crate::css::timeless;
use crate::text;

verus! {

/// Hovering never animates: transitions on nested widgets leak memory.
pub const NO_TRANSITION: &'static str = "transition: none;";

pub open spec fn slider_transition(animations: bool) -> Seq<char> {
    if animations {
        "transition: transform 100ms ease-out;"@
    } else {
        "transition: none;"@
    }
}

/// The part up to the background of popovers.
pub open spec fn utilities_css() -> Seq<char> {
    WINDOWS_AND_ICONS@ + TOOLTIPS@ + COLORS_AND_LINKS@ + POPOVER_SURFACE@
}

/// The part on menus and on the focus, up to the rule for buttons.
pub open spec fn focus_css() -> Seq<char> {
    SURFACE_AND_MENUS@ + FOCUS_SUPPRESSION@ + FOCUS_EXCEPTIONS@ + FOCUS_COLOR@ + FOCUS_RINGS@
        + ROW_FOCUS@ + POWER_ROWS_AND_RIPPLES@ + RIPPLE_SHAPES_AND_BUTTON@
}

/// What stands before the transition of buttons.
pub open spec fn before_buttons(popover_bg: Seq<char>) -> Seq<char> {
    utilities_css() + popover_bg + ";"@ + focus_css()
}

/// What stands before the transition of the slider. The rules for buttons,
/// widgets and their items never move.
pub open spec fn before_slider(popover_bg: Seq<char>) -> Seq<char> {
    before_buttons(popover_bg) + NO_TRANSITION@ + BUTTON_HOVER@ + NO_TRANSITION@ + WIDGET@
        + NO_TRANSITION@ + WIDGET_ITEM@ + NO_TRANSITION@ + WIDGET_ITEM_HOVER@ + NO_TRANSITION@
        + SLIDER@ + SLIDER_KNOB@
}

/// The style with its values filled in.
pub open spec fn base_css(animations: bool, popover_bg: Seq<char>) -> Seq<char> {
    before_slider(popover_bg) + slider_transition(animations) + SLIDER_ROW@
}

/// The shared style. `popover_bg` is the background of popovers.
pub fn css(animations: bool, popover_bg: &str) -> (r: String)
    ensures
        r@ == base_css(animations, popover_bg@),
{
    let slider: &str = if animations {
        "transition: transform 100ms ease-out;"
    } else {
        "transition: none;"
    };
    let mut r = WINDOWS_AND_ICONS.to_string();
    r.append(TOOLTIPS);
    r.append(COLORS_AND_LINKS);
    r.append(POPOVER_SURFACE);
    r.append(popover_bg);
    r.append(";");
    r.append(SURFACE_AND_MENUS);
    r.append(FOCUS_SUPPRESSION);
    r.append(FOCUS_EXCEPTIONS);
    r.append(FOCUS_COLOR);
    r.append(FOCUS_RINGS);
    r.append(ROW_FOCUS);
    r.append(POWER_ROWS_AND_RIPPLES);
    r.append(RIPPLE_SHAPES_AND_BUTTON);
    r.append(NO_TRANSITION);
    r.append(BUTTON_HOVER);
    r.append(NO_TRANSITION);
    r.append(WIDGET);
    r.append(NO_TRANSITION);
    r.append(WIDGET_ITEM);
    r.append(NO_TRANSITION);
    r.append(WIDGET_ITEM_HOVER);
    r.append(NO_TRANSITION);
    r.append(SLIDER);
    r.append(SLIDER_KNOB);
    r.append(slider);
    r.append(SLIDER_ROW);
    assert(r@ =~= base_css(animations, popover_bg@));
    r
}

proof fn lemma_utilities_are_timeless()
    ensures
        timeless::timeless(utilities_css()),
        utilities_css().len() > 3,
        utilities_css()[utilities_css().len() - 1] == ' ',
        utilities_css()[utilities_css().len() - 2] == ':',
        utilities_css()[utilities_css().len() - 3] == 'r',
{
    base_text::lemma_windows_and_icons();
    base_text::lemma_tooltips();
    base_text::lemma_colors_and_links();
    base_text::lemma_popover_surface();
    let s0 = WINDOWS_AND_ICONS@;
    let s1 = s0 + TOOLTIPS@;
    timeless::lemma_timeless_join(s0, TOOLTIPS@);
    let s2 = s1 + COLORS_AND_LINKS@;
    timeless::lemma_timeless_join(s1, COLORS_AND_LINKS@);
    let s3 = s2 + POPOVER_SURFACE@;
    timeless::lemma_timeless_join(s2, POPOVER_SURFACE@);
}

proof fn lemma_focus_is_timeless()
    ensures
        timeless::timeless(focus_css()),
        focus_css().len() > 0,
        focus_css()[0] == '\n',
{
    base_text::lemma_surface_and_menus();
    base_text::lemma_focus_suppression();
    base_text::lemma_focus_exceptions();
    base_text::lemma_focus_color();
    base_text::lemma_focus_rings();
    base_text::lemma_row_focus();
    base_text::lemma_power_rows_and_ripples();
    base_text::lemma_ripple_shapes_and_button();
    let s0 = SURFACE_AND_MENUS@;
    let s1 = s0 + FOCUS_SUPPRESSION@;
    timeless::lemma_timeless_join(s0, FOCUS_SUPPRESSION@);
    let s2 = s1 + FOCUS_EXCEPTIONS@;
    timeless::lemma_timeless_join(s1, FOCUS_EXCEPTIONS@);
    let s3 = s2 + FOCUS_COLOR@;
    timeless::lemma_timeless_join(s2, FOCUS_COLOR@);
    let s4 = s3 + FOCUS_RINGS@;
    timeless::lemma_timeless_join(s3, FOCUS_RINGS@);
    let s5 = s4 + ROW_FOCUS@;
    timeless::lemma_timeless_join(s4, ROW_FOCUS@);
    let s6 = s5 + POWER_ROWS_AND_RIPPLES@;
    timeless::lemma_timeless_join(s5, POWER_ROWS_AND_RIPPLES@);
    let s7 = s6 + RIPPLE_SHAPES_AND_BUTTON@;
    timeless::lemma_timeless_join(s6, RIPPLE_SHAPES_AND_BUTTON@);
}

proof fn lemma_no_transition_is_timeless()
    ensures
        timeless::timeless(NO_TRANSITION@),
{
    reveal_strlit("transition: none;");
    assert(NO_TRANSITION@.len() == 17);
    reveal_with_fuel(timeless::unpaired, 3);
    timeless::lemma_timeless(NO_TRANSITION@, 2);
}

/// What stands from the menus to the transition of the slider.
spec fn behind_background() -> Seq<char> {
    focus_css() + NO_TRANSITION@ + BUTTON_HOVER@ + NO_TRANSITION@ + WIDGET@ + NO_TRANSITION@ + WIDGET_ITEM@ + NO_TRANSITION@ + WIDGET_ITEM_HOVER@ + NO_TRANSITION@ + SLIDER@ + SLIDER_KNOB@
}

proof fn lemma_behind_background_is_timeless()
    ensures
        timeless::timeless(behind_background()),
        behind_background().len() > 2,
        behind_background()[0] == '\n',
        behind_background()[behind_background().len() - 1] == ' ',
        behind_background()[behind_background().len() - 2] == ' ',
{
    lemma_focus_is_timeless();
    lemma_no_transition_is_timeless();
    base_text::lemma_button_hover();
    base_text::lemma_widget();
    base_text::lemma_widget_item();
    base_text::lemma_widget_item_hover();
    base_text::lemma_slider();
    base_text::lemma_slider_knob();
    let s0 = focus_css();
    let s1 = s0 + NO_TRANSITION@;
    timeless::lemma_timeless_join(s0, NO_TRANSITION@);
    let s2 = s1 + BUTTON_HOVER@;
    timeless::lemma_timeless_join(s1, BUTTON_HOVER@);
    let s3 = s2 + NO_TRANSITION@;
    timeless::lemma_timeless_join(s2, NO_TRANSITION@);
    let s4 = s3 + WIDGET@;
    timeless::lemma_timeless_join(s3, WIDGET@);
    let s5 = s4 + NO_TRANSITION@;
    timeless::lemma_timeless_join(s4, NO_TRANSITION@);
    let s6 = s5 + WIDGET_ITEM@;
    timeless::lemma_timeless_join(s5, WIDGET_ITEM@);
    let s7 = s6 + NO_TRANSITION@;
    timeless::lemma_timeless_join(s6, NO_TRANSITION@);
    let s8 = s7 + WIDGET_ITEM_HOVER@;
    timeless::lemma_timeless_join(s7, WIDGET_ITEM_HOVER@);
    let s9 = s8 + NO_TRANSITION@;
    timeless::lemma_timeless_join(s8, NO_TRANSITION@);
    let s10 = s9 + SLIDER@;
    timeless::lemma_timeless_join(s9, SLIDER@);
    let s11 = s10 + SLIDER_KNOB@;
    timeless::lemma_timeless_join(s10, SLIDER_KNOB@);
}

/// The transition of the slider while it moves.
pub open spec fn moving() -> Seq<char> {
    "transition: transform 100ms ease-out;"@
}

proof fn lemma_moving()
    ensures
        moving().len() == 37,
        moving()[0] == 't',
        moving()[24] == '0',
        moving()[25] == 'm',
        text::free_of(moving(), '\n', 37),
        timeless::unpaired(moving(), 'r', ':', 3),
        timeless::unpaired(moving(), ' ', ' ', 3),
{
    reveal_strlit("transition: transform 100ms ease-out;");
    assert(moving().len() == 37);
    assert(text::free_of(moving(), '\n', 37)) by {
        reveal_with_fuel(text::free_of, 38);
    }
    reveal_with_fuel(timeless::unpaired, 4);
}

/// The setting for animations reaches the transition of the slider and nothing
/// else of the shared style.
pub proof fn law_animations_reach_the_slider_only(popover_bg: Seq<char>)
    ensures
        base_css(true, popover_bg) == before_slider(popover_bg)
            + "transition: transform 100ms ease-out;"@ + SLIDER_ROW@,
        base_css(false, popover_bg) == before_slider(popover_bg) + "transition: none;"@
            + SLIDER_ROW@,
        text::occurs_at(
            base_css(true, popover_bg),
            "transition: transform 100ms ease-out;"@,
            before_slider(popover_bg).len() as int,
        ),
{
    text::lemma_part_stands_in(
        before_slider(popover_bg),
        "transition: transform 100ms ease-out;"@,
        SLIDER_ROW@,
    );
}

/// The rules for buttons and under the pointer, for widgets, for their items
/// and under the pointer say that nothing moves, with animations and without.
pub proof fn law_other_rules_never_move(animations: bool, popover_bg: Seq<char>)
    ensures
        ({
            let buttons = before_buttons(popover_bg);
            let hovered = buttons + NO_TRANSITION@ + BUTTON_HOVER@;
            let widget = hovered + NO_TRANSITION@ + WIDGET@;
            let item = widget + NO_TRANSITION@ + WIDGET_ITEM@;
            let item_hovered = item + NO_TRANSITION@ + WIDGET_ITEM_HOVER@;
            let css = base_css(animations, popover_bg);
            &&& text::occurs_at(css, NO_TRANSITION@, buttons.len() as int)
            &&& text::occurs_at(css, NO_TRANSITION@, hovered.len() as int)
            &&& text::occurs_at(css, NO_TRANSITION@, widget.len() as int)
            &&& text::occurs_at(css, NO_TRANSITION@, item.len() as int)
            &&& text::occurs_at(css, NO_TRANSITION@, item_hovered.len() as int)
        }),
{
    let css = base_css(animations, popover_bg);
    let buttons = before_buttons(popover_bg);
    let hovered = buttons + NO_TRANSITION@ + BUTTON_HOVER@;
    let widget = hovered + NO_TRANSITION@ + WIDGET@;
    let item = widget + NO_TRANSITION@ + WIDGET_ITEM@;
    let item_hovered = item + NO_TRANSITION@ + WIDGET_ITEM_HOVER@;
    let after_item_hovered = SLIDER@ + SLIDER_KNOB@ + slider_transition(animations) + SLIDER_ROW@;
    let after_item = WIDGET_ITEM_HOVER@ + NO_TRANSITION@ + after_item_hovered;
    let after_widget = WIDGET_ITEM@ + NO_TRANSITION@ + after_item;
    let after_hovered = WIDGET@ + NO_TRANSITION@ + after_widget;
    let after_buttons = BUTTON_HOVER@ + NO_TRANSITION@ + after_hovered;
    assert(css =~= item_hovered + NO_TRANSITION@ + after_item_hovered);
    assert(css =~= item + NO_TRANSITION@ + after_item);
    assert(css =~= widget + NO_TRANSITION@ + after_widget);
    assert(css =~= hovered + NO_TRANSITION@ + after_hovered);
    assert(css =~= buttons + NO_TRANSITION@ + after_buttons);
    text::lemma_part_stands_in(buttons, NO_TRANSITION@, after_buttons);
    text::lemma_part_stands_in(hovered, NO_TRANSITION@, after_hovered);
    text::lemma_part_stands_in(widget, NO_TRANSITION@, after_widget);
    text::lemma_part_stands_in(item, NO_TRANSITION@, after_item);
    text::lemma_part_stands_in(item_hovered, NO_TRANSITION@, after_item_hovered);
}

/// The style with animations holds the transition of the slider exactly once, at
/// its place, unless the background of popovers, up to the semicolon behind it,
/// brings it in once more.
pub proof fn law_transition_stands_once(popover_bg: Seq<char>)
    requires
        !text::stands_in(popover_bg + ";"@, "transition: transform 100ms ease-out;"@),
    ensures
        text::stands_once(
            base_css(true, popover_bg),
            "transition: transform 100ms ease-out;"@,
            before_slider(popover_bg).len() as int,
        ),
{
    let f = utilities_css();
    let v = popover_bg + ";"@;
    let g = behind_background();
    lemma_moving();
    lemma_utilities_are_timeless();
    lemma_behind_background_is_timeless();
    base_text::lemma_slider_row();
    timeless::lemma_timeless_holds_no_time(f, moving(), 24);
    timeless::lemma_timeless_holds_no_time(g, moving(), 24);
    timeless::lemma_timeless_holds_no_time(SLIDER_ROW@, moving(), 24);
    timeless::lemma_runs_not_into(f, moving(), 2, 3);
    timeless::lemma_between(f, v, g, moving());
    timeless::lemma_runs_not_into(f + v + g, moving(), 1, 3);
    assert(before_slider(popover_bg) =~= f + v + g);
    timeless::lemma_once(f + v + g, moving(), SLIDER_ROW@);
}

/// The style without animations is the one with them after the transition of the
/// slider is replaced, and it holds that transition nowhere, unless the
/// background of popovers, up to the semicolon behind it, brings it in.
pub proof fn law_still_style_by_replacing(popover_bg: Seq<char>)
    requires
        !text::stands_in(popover_bg + ";"@, "transition: transform 100ms ease-out;"@),
    ensures
        text::replaced(
            base_css(true, popover_bg),
            "transition: transform 100ms ease-out;"@,
            "transition: none;"@,
        ) == base_css(false, popover_bg),
        !text::stands_in(
            base_css(false, popover_bg),
            "transition: transform 100ms ease-out;"@,
        ),
{
    law_transition_stands_once(popover_bg);
    let still = "transition: none;"@;
    reveal_strlit("transition: transform 100ms ease-out;");
    reveal_strlit("transition: none;");
    assert(text::free_of(moving(), ';', 36)) by {
        reveal_with_fuel(text::free_of, 37);
    }
    assert(text::free_of(still, ';', 16)) by {
        reveal_with_fuel(text::free_of, 17);
    }
    text::lemma_replaced_once(before_slider(popover_bg), moving(), SLIDER_ROW@, still);
    text::lemma_replaced_is_gone(before_slider(popover_bg), moving(), SLIDER_ROW@, still, ';', 1);
}

} // verus!
