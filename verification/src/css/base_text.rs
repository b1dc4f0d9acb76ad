//! The fixed texts of the shared style, in order.
//!
//! A proof knows the characters of a constant only where they are written out, so
//! each text stands once more in the lemma that looks at its characters.

use vstd::prelude::*;
use vstd::string::*;

use crate::css::timeless;

verus! {

pub const WINDOWS_AND_ICONS: &'static str = r#"
/* ===== SHARED UTILITY CSS ===== */

/* Layer-shell popover window - transparent so content can have proper shadow */
window.layer-shell-popover {
    background: transparent;
}

/* Layer-shell click catcher - transparent overlay */
window.layer-shell-click-catcher {
    background: transparent;
}

/* 
 * Icon sizing strategy:
 * - .material-symbol uses font-size: inherit (set in icons.rs)
 * - .icon-root gets the default icon size
 * - Specific components can override with their own font-size on .icon-root or parents
 * - This allows users to style icons by setting font-size on parent elements
 */

/* Default icon size - applied to icon root containers */
.icon-root {
    font-size: var(--icon-size);
}

"#;

pub proof fn lemma_windows_and_icons()
    ensures
        timeless::timeless(WINDOWS_AND_ICONS@),
{
    reveal_strlit(r#"
/* ===== SHARED UTILITY CSS ===== */

/* Layer-shell popover window - transparent so content can have proper shadow */
window.layer-shell-popover {
    background: transparent;
}

/* Layer-shell click catcher - transparent overlay */
window.layer-shell-click-catcher {
    background: transparent;
}

/* 
 * Icon sizing strategy:
 * - .material-symbol uses font-size: inherit (set in icons.rs)
 * - .icon-root gets the default icon size
 * - Specific components can override with their own font-size on .icon-root or parents
 * - This allows users to style icons by setting font-size on parent elements
 */

/* Default icon size - applied to icon root containers */
.icon-root {
    font-size: var(--icon-size);
}

"#);
    assert(WINDOWS_AND_ICONS@.len() == 716);
    assert(timeless::unpaired(WINDOWS_AND_ICONS@, '0', 'm', 22)) by {
        reveal_with_fuel(timeless::unpaired, 23);
    }
    assert(timeless::unpaired(WINDOWS_AND_ICONS@, '0', 'm', 45)) by {
        reveal_with_fuel(timeless::unpaired, 24);
    }
    timeless::lemma_timeless(WINDOWS_AND_ICONS@, 45);
}

pub const TOOLTIPS: &'static str = r#"/* ===== NATIVE GTK TOOLTIPS ===== */
/* Style GTK's native tooltips (used in popovers/windows where layer-shell tooltips don't work) */
tooltip,
tooltip.background {
    background-color: color-mix(in srgb, color-mix(in srgb, var(--widget-background-color) var(--widget-background-opacity), transparent) 90%, var(--widget-hover-tint));
    border-radius: var(--radius-surface);
    border: none;
    padding: 0;
    opacity: 0.90;
}

tooltip > box,
tooltip.background > box {
    padding: 6px 10px;
}

tooltip label,
tooltip.background label {
    font-family: var(--font-family);
    font-size: var(--font-size);
    color: var(--color-foreground-primary);
}

"#;

pub proof fn lemma_tooltips()
    ensures
        timeless::timeless(TOOLTIPS@),
{
    reveal_strlit(r#"/* ===== NATIVE GTK TOOLTIPS ===== */
/* Style GTK's native tooltips (used in popovers/windows where layer-shell tooltips don't work) */
tooltip,
tooltip.background {
    background-color: color-mix(in srgb, color-mix(in srgb, var(--widget-background-color) var(--widget-background-opacity), transparent) 90%, var(--widget-hover-tint));
    border-radius: var(--radius-surface);
    border: none;
    padding: 0;
    opacity: 0.90;
}

tooltip > box,
tooltip.background > box {
    padding: 6px 10px;
}

tooltip label,
tooltip.background label {
    font-family: var(--font-family);
    font-size: var(--font-size);
    color: var(--color-foreground-primary);
}

"#);
    assert(TOOLTIPS@.len() == 662);
    assert(timeless::unpaired(TOOLTIPS@, '0', 'm', 21)) by {
        reveal_with_fuel(timeless::unpaired, 22);
    }
    assert(timeless::unpaired(TOOLTIPS@, '0', 'm', 42)) by {
        reveal_with_fuel(timeless::unpaired, 22);
    }
    timeless::lemma_timeless(TOOLTIPS@, 42);
}

pub const COLORS_AND_LINKS: &'static str = r#"/* Color utilities - applies to both text and icons */
.vp-primary { color: var(--color-foreground-primary); }
.vp-muted { color: var(--color-foreground-muted); }
.vp-disabled { color: var(--color-foreground-disabled); }
.vp-faint { color: var(--color-foreground-faint); }
.vp-accent { color: var(--color-accent-primary); }
.vp-error { color: var(--color-state-urgent); }

/* Service unavailable state - disabled/gray to indicate unavailable service */
.service-unavailable {
    color: var(--color-foreground-disabled);
}

/* Standard Link Styling */
label link {
    color: var(--color-accent-primary);
    text-decoration: none;
}
label link:hover {
    text-decoration: underline;
    color: var(--color-accent-primary);
    opacity: 0.8;
}
label link:active {
    opacity: 0.6;
}

"#;

pub proof fn lemma_colors_and_links()
    ensures
        timeless::timeless(COLORS_AND_LINKS@),
{
    reveal_strlit(r#"/* Color utilities - applies to both text and icons */
.vp-primary { color: var(--color-foreground-primary); }
.vp-muted { color: var(--color-foreground-muted); }
.vp-disabled { color: var(--color-foreground-disabled); }
.vp-faint { color: var(--color-foreground-faint); }
.vp-accent { color: var(--color-accent-primary); }
.vp-error { color: var(--color-state-urgent); }

/* Service unavailable state - disabled/gray to indicate unavailable service */
.service-unavailable {
    color: var(--color-foreground-disabled);
}

/* Standard Link Styling */
label link {
    color: var(--color-accent-primary);
    text-decoration: none;
}
label link:hover {
    text-decoration: underline;
    color: var(--color-accent-primary);
    opacity: 0.8;
}
label link:active {
    opacity: 0.6;
}

"#);
    assert(COLORS_AND_LINKS@.len() == 786);
    assert(timeless::unpaired(COLORS_AND_LINKS@, '0', 'm', 25)) by {
        reveal_with_fuel(timeless::unpaired, 26);
    }
    assert(timeless::unpaired(COLORS_AND_LINKS@, '0', 'm', 50)) by {
        reveal_with_fuel(timeless::unpaired, 26);
    }
    timeless::lemma_timeless(COLORS_AND_LINKS@, 50);
}

pub const POPOVER_SURFACE: &'static str = r#"/* Popover header icon button - minimal styling for icon-only buttons in headers */
.vp-popover-icon-btn {
    background: transparent;
    border: none;
    box-shadow: none;
    min-width: 28px;
    min-height: 28px;
    padding: 0;
    border-radius: var(--radius-widget);
    color: var(--color-foreground-primary);
    -gtk-icon-size: calc(var(--icon-size) * 0.85);
}

.vp-popover-icon-btn:hover {
    background: var(--color-card-overlay-hover);
}

/* Popover title - consistent styling for popover headers */
.vp-popover-title {
    font-size: var(--font-size-lg);
}

/* Popover/surface background */
/* color-mix() is inline here so per-widget popover --widget-background-color overrides work via CSS scoping */
.vp-surface-popover {
    background-color: "#;

pub proof fn lemma_popover_surface()
    ensures
        timeless::timeless(POPOVER_SURFACE@),
        POPOVER_SURFACE@.len() > 3,
        POPOVER_SURFACE@[POPOVER_SURFACE@.len() - 1] == ' ',
        POPOVER_SURFACE@[POPOVER_SURFACE@.len() - 2] == ':',
        POPOVER_SURFACE@[POPOVER_SURFACE@.len() - 3] == 'r',
{
    reveal_strlit(r#"/* Popover header icon button - minimal styling for icon-only buttons in headers */
.vp-popover-icon-btn {
    background: transparent;
    border: none;
    box-shadow: none;
    min-width: 28px;
    min-height: 28px;
    padding: 0;
    border-radius: var(--radius-widget);
    color: var(--color-foreground-primary);
    -gtk-icon-size: calc(var(--icon-size) * 0.85);
}

.vp-popover-icon-btn:hover {
    background: var(--color-card-overlay-hover);
}

/* Popover title - consistent styling for popover headers */
.vp-popover-title {
    font-size: var(--font-size-lg);
}

/* Popover/surface background */
/* color-mix() is inline here so per-widget popover --widget-background-color overrides work via CSS scoping */
.vp-surface-popover {
    background-color: "#);
    assert(POPOVER_SURFACE@.len() == 764);
    assert(timeless::unpaired(POPOVER_SURFACE@, '0', 'm', 24)) by {
        reveal_with_fuel(timeless::unpaired, 25);
    }
    assert(timeless::unpaired(POPOVER_SURFACE@, '0', 'm', 48)) by {
        reveal_with_fuel(timeless::unpaired, 25);
    }
    timeless::lemma_timeless(POPOVER_SURFACE@, 48);
}

pub const SURFACE_AND_MENUS: &'static str = r#"
    border-radius: var(--radius-surface);
    box-shadow: var(--shadow-soft);
    padding: 16px;
    font-family: var(--font-family);
    font-size: var(--font-size);
    color: var(--color-foreground-primary);
}

popover.widget-menu,
box.popover-wrapper,
box.widget-menu-wrapper {
    background: transparent;
    border: none;
    box-shadow: none;
    border-radius: var(--radius-surface);
}

popover.widget-menu > contents,
popover.widget-menu.background > contents {
    background: transparent;
    border: none;
    box-shadow: var(--shadow-soft);
    border-radius: var(--radius-surface);
    padding: 0;
    margin: 0 6px 6px 6px;
}

"#;

pub proof fn lemma_surface_and_menus()
    ensures
        timeless::timeless(SURFACE_AND_MENUS@),
        SURFACE_AND_MENUS@.len() > 0,
        SURFACE_AND_MENUS@[0] == '\n',
{
    reveal_strlit(r#"
    border-radius: var(--radius-surface);
    box-shadow: var(--shadow-soft);
    padding: 16px;
    font-family: var(--font-family);
    font-size: var(--font-size);
    color: var(--color-foreground-primary);
}

popover.widget-menu,
box.popover-wrapper,
box.widget-menu-wrapper {
    background: transparent;
    border: none;
    box-shadow: none;
    border-radius: var(--radius-surface);
}

popover.widget-menu > contents,
popover.widget-menu.background > contents {
    background: transparent;
    border: none;
    box-shadow: var(--shadow-soft);
    border-radius: var(--radius-surface);
    padding: 0;
    margin: 0 6px 6px 6px;
}

"#);
    assert(SURFACE_AND_MENUS@.len() == 644);
    assert(timeless::unpaired(SURFACE_AND_MENUS@, '0', 'm', 20)) by {
        reveal_with_fuel(timeless::unpaired, 21);
    }
    assert(timeless::unpaired(SURFACE_AND_MENUS@, '0', 'm', 41)) by {
        reveal_with_fuel(timeless::unpaired, 22);
    }
    timeless::lemma_timeless(SURFACE_AND_MENUS@, 41);
}

pub const FOCUS_SUPPRESSION: &'static str = r#"/* ===== FOCUS SUPPRESSION ===== */
/* When GTK's 3 s focus_visible timeout fires, the focused widget keeps :focus
   but loses :focus-visible.  Suppress Adwaita's residual :focus outline so no
   faint ring lingers after keyboard nav times out. */
.popover *:focus:not(:focus-visible),
.vp-surface-popover *:focus:not(:focus-visible) {
    outline: none;
    box-shadow: none;
}

/* Hide focus outlines in popovers - keyboard nav not primary interaction */
.vp-no-focus *:focus,
.vp-no-focus *:focus-visible,
.vp-no-focus *:focus-within {
    outline: none;
    box-shadow: none;
}
/* Also suppress card-level focus ring under .vp-no-focus */
.vp-no-focus .vp-card.vp-toggle-focused {
    box-shadow: none;
}

"#;

pub proof fn lemma_focus_suppression()
    ensures
        timeless::timeless(FOCUS_SUPPRESSION@),
{
    reveal_strlit(r#"/* ===== FOCUS SUPPRESSION ===== */
/* When GTK's 3 s focus_visible timeout fires, the focused widget keeps :focus
   but loses :focus-visible.  Suppress Adwaita's residual :focus outline so no
   faint ring lingers after keyboard nav times out. */
.popover *:focus:not(:focus-visible),
.vp-surface-popover *:focus:not(:focus-visible) {
    outline: none;
    box-shadow: none;
}

/* Hide focus outlines in popovers - keyboard nav not primary interaction */
.vp-no-focus *:focus,
.vp-no-focus *:focus-visible,
.vp-no-focus *:focus-within {
    outline: none;
    box-shadow: none;
}
/* Also suppress card-level focus ring under .vp-no-focus */
.vp-no-focus .vp-card.vp-toggle-focused {
    box-shadow: none;
}

"#);
    assert(FOCUS_SUPPRESSION@.len() == 711);
    assert(timeless::unpaired(FOCUS_SUPPRESSION@, '0', 'm', 22)) by {
        reveal_with_fuel(timeless::unpaired, 23);
    }
    assert(timeless::unpaired(FOCUS_SUPPRESSION@, '0', 'm', 45)) by {
        reveal_with_fuel(timeless::unpaired, 24);
    }
    timeless::lemma_timeless(FOCUS_SUPPRESSION@, 45);
}

pub const FOCUS_EXCEPTIONS: &'static str = r#"/* But preserve focus on text entries for usability */
.vp-no-focus entry:focus,
.vp-no-focus entry:focus-visible {
    outline: 2px solid var(--color-accent-primary);
    outline-offset: -2px;
}

/* Suppress the toggle button's own :focus-visible outline inside a card —
   the card-level box-shadow (.vp-toggle-focused) already provides the ring.
   Only suppress .vp-btn-reset (the toggle), not the expander chevron. */
.vp-card > .vp-btn-reset:focus-visible {
    outline: none;
}

"#;

pub proof fn lemma_focus_exceptions()
    ensures
        timeless::timeless(FOCUS_EXCEPTIONS@),
{
    reveal_strlit(r#"/* But preserve focus on text entries for usability */
.vp-no-focus entry:focus,
.vp-no-focus entry:focus-visible {
    outline: 2px solid var(--color-accent-primary);
    outline-offset: -2px;
}

/* Suppress the toggle button's own :focus-visible outline inside a card —
   the card-level box-shadow (.vp-toggle-focused) already provides the ring.
   Only suppress .vp-btn-reset (the toggle), not the expander chevron. */
.vp-card > .vp-btn-reset:focus-visible {
    outline: none;
}

"#);
    assert(FOCUS_EXCEPTIONS@.len() == 486);
    assert(timeless::unpaired(FOCUS_EXCEPTIONS@, '0', 'm', 15)) by {
        reveal_with_fuel(timeless::unpaired, 16);
    }
    assert(timeless::unpaired(FOCUS_EXCEPTIONS@, '0', 'm', 31)) by {
        reveal_with_fuel(timeless::unpaired, 17);
    }
    timeless::lemma_timeless(FOCUS_EXCEPTIONS@, 31);
}

pub const FOCUS_COLOR: &'static str = r#"/* ===== KEYBOARD NAV FOCUS COLOR ===== */
/* Card-level focus ring: wraps the entire card (toggle + chevron) when
   the toggle button has focus. Uses box-shadow on the parent because a
   native outline on the toggle would only wrap the toggle itself.
   Toggled from Rust via the has-focus signal on the toggle button. */
.vp-card.vp-toggle-focused {
    box-shadow: inset 0 0 0 2px var(--color-accent-primary);
    transition: none;
}

"#;

pub proof fn lemma_focus_color()
    ensures
        timeless::timeless(FOCUS_COLOR@),
{
    reveal_strlit(r#"/* ===== KEYBOARD NAV FOCUS COLOR ===== */
/* Card-level focus ring: wraps the entire card (toggle + chevron) when
   the toggle button has focus. Uses box-shadow on the parent because a
   native outline on the toggle would only wrap the toggle itself.
   Toggled from Rust via the has-focus signal on the toggle button. */
.vp-card.vp-toggle-focused {
    box-shadow: inset 0 0 0 2px var(--color-accent-primary);
    transition: none;
}

"#);
    assert(FOCUS_COLOR@.len() == 440);
    assert(timeless::unpaired(FOCUS_COLOR@, '0', 'm', 14)) by {
        reveal_with_fuel(timeless::unpaired, 15);
    }
    assert(timeless::unpaired(FOCUS_COLOR@, '0', 'm', 28)) by {
        reveal_with_fuel(timeless::unpaired, 15);
    }
    timeless::lemma_timeless(FOCUS_COLOR@, 28);
}

pub const FOCUS_RINGS: &'static str = r#"/* Override Adwaita's built-in :focus-visible outline with the user's accent
   color.  Rules must be self-contained (full outline shorthand) because
   transition:none at our priority (USER=800) blocks Adwaita's
   outline-width animation from 0→2px at THEME=200.
   Scoped under .vp-surface-popover for specificity. */
.vp-surface-popover button:focus-visible,
.vp-surface-popover row:focus-visible,
.vp-surface-popover switch:focus-visible,
.vp-surface-popover entry:focus-visible {
    outline: 2px solid var(--color-accent-primary);
    outline-offset: -2px;
    transition: none;
}
.vp-surface-popover scale:focus-visible > trough > slider {
    outline: 2px solid var(--color-accent-primary);
    outline-offset: -2px;
    transition: none;
}
/* Suppress Adwaita's outline transition on entries so the accent color
   doesn't flash blue when focus leaves. */
.vp-surface-popover entry {
    transition: none;
}

"#;

pub proof fn lemma_focus_rings()
    ensures
        timeless::timeless(FOCUS_RINGS@),
{
    reveal_strlit(r#"/* Override Adwaita's built-in :focus-visible outline with the user's accent
   color.  Rules must be self-contained (full outline shorthand) because
   transition:none at our priority (USER=800) blocks Adwaita's
   outline-width animation from 0→2px at THEME=200.
   Scoped under .vp-surface-popover for specificity. */
.vp-surface-popover button:focus-visible,
.vp-surface-popover row:focus-visible,
.vp-surface-popover switch:focus-visible,
.vp-surface-popover entry:focus-visible {
    outline: 2px solid var(--color-accent-primary);
    outline-offset: -2px;
    transition: none;
}
.vp-surface-popover scale:focus-visible > trough > slider {
    outline: 2px solid var(--color-accent-primary);
    outline-offset: -2px;
    transition: none;
}
/* Suppress Adwaita's outline transition on entries so the accent color
   doesn't flash blue when focus leaves. */
.vp-surface-popover entry {
    transition: none;
}

"#);
    assert(FOCUS_RINGS@.len() == 919);
    assert(timeless::unpaired(FOCUS_RINGS@, '0', 'm', 19)) by {
        reveal_with_fuel(timeless::unpaired, 20);
    }
    assert(timeless::unpaired(FOCUS_RINGS@, '0', 'm', 38)) by {
        reveal_with_fuel(timeless::unpaired, 20);
    }
    assert(timeless::unpaired(FOCUS_RINGS@, '0', 'm', 58)) by {
        reveal_with_fuel(timeless::unpaired, 21);
    }
    timeless::lemma_timeless(FOCUS_RINGS@, 58);
}

pub const ROW_FOCUS: &'static str = r#"/* Rows with inline action buttons delegate focus to the button.  GTK still
   sets :focus-visible on the row even when non-focusable, so suppress it.
   Must come after focus color rules and use .vp-surface-popover scope to
   beat the accent color rule's specificity. */
.vp-surface-popover row.vp-row-has-action,
.vp-surface-popover row.vp-row-has-action:focus,
.vp-surface-popover row.vp-row-has-action:focus-visible {
    outline: none;
    box-shadow: none;
    transition: none;
}

/* Suppress :focus-within outlines on rows whose children handle their own
   focus rings (e.g. password entry row).  The child widget (entry, button)
   already shows the accent-colored ring. */
.vp-surface-popover row:focus-within {
    outline: none;
    box-shadow: none;
}

"#;

pub proof fn lemma_row_focus()
    ensures
        timeless::timeless(ROW_FOCUS@),
{
    reveal_strlit(r#"/* Rows with inline action buttons delegate focus to the button.  GTK still
   sets :focus-visible on the row even when non-focusable, so suppress it.
   Must come after focus color rules and use .vp-surface-popover scope to
   beat the accent color rule's specificity. */
.vp-surface-popover row.vp-row-has-action,
.vp-surface-popover row.vp-row-has-action:focus,
.vp-surface-popover row.vp-row-has-action:focus-visible {
    outline: none;
    box-shadow: none;
    transition: none;
}

/* Suppress :focus-within outlines on rows whose children handle their own
   focus rings (e.g. password entry row).  The child widget (entry, button)
   already shows the accent-colored ring. */
.vp-surface-popover row:focus-within {
    outline: none;
    box-shadow: none;
}

"#);
    assert(ROW_FOCUS@.len() == 768);
    assert(timeless::unpaired(ROW_FOCUS@, '0', 'm', 24)) by {
        reveal_with_fuel(timeless::unpaired, 25);
    }
    assert(timeless::unpaired(ROW_FOCUS@, '0', 'm', 48)) by {
        reveal_with_fuel(timeless::unpaired, 25);
    }
    timeless::lemma_timeless(ROW_FOCUS@, 48);
}

pub const POWER_ROWS_AND_RIPPLES: &'static str = r#"/* Power action rows are directly focusable (hold-to-confirm on the row
   itself).  Restore the accent focus ring that :focus-within above kills. */
.vp-surface-popover row.qs-power-row:focus-visible {
    outline: 2px solid var(--color-accent-primary);
    outline-offset: -2px;
    transition: none;
}

/* ===== COMPONENT CLASSES ===== */
/* Reusable component patterns for cards, rows, sliders */

/* ===== RIPPLE ANIMATION ===== */
/* Press feedback is rendered by Cairo via DrawingArea (click-origin
   expanding circle). The .vp-ripple-overlay class is kept for the DrawingArea
   element that sits in the gtk4::Overlay. */

/* Ripple overlay — transparent background so DrawingArea is invisible when idle */
.vp-ripple-overlay {
    background: transparent;
}

"#;

pub proof fn lemma_power_rows_and_ripples()
    ensures
        timeless::timeless(POWER_ROWS_AND_RIPPLES@),
{
    reveal_strlit(r#"/* Power action rows are directly focusable (hold-to-confirm on the row
   itself).  Restore the accent focus ring that :focus-within above kills. */
.vp-surface-popover row.qs-power-row:focus-visible {
    outline: 2px solid var(--color-accent-primary);
    outline-offset: -2px;
    transition: none;
}

/* ===== COMPONENT CLASSES ===== */
/* Reusable component patterns for cards, rows, sliders */

/* ===== RIPPLE ANIMATION ===== */
/* Press feedback is rendered by Cairo via DrawingArea (click-origin
   expanding circle). The .vp-ripple-overlay class is kept for the DrawingArea
   element that sits in the gtk4::Overlay. */

/* Ripple overlay — transparent background so DrawingArea is invisible when idle */
.vp-ripple-overlay {
    background: transparent;
}

"#);
    assert(POWER_ROWS_AND_RIPPLES@.len() == 769);
    assert(timeless::unpaired(POWER_ROWS_AND_RIPPLES@, '0', 'm', 24)) by {
        reveal_with_fuel(timeless::unpaired, 25);
    }
    assert(timeless::unpaired(POWER_ROWS_AND_RIPPLES@, '0', 'm', 49)) by {
        reveal_with_fuel(timeless::unpaired, 26);
    }
    timeless::lemma_timeless(POWER_ROWS_AND_RIPPLES@, 49);
}

pub const RIPPLE_SHAPES_AND_BUTTON: &'static str = r#"/* Inherit border-radius so the ripple clips to the rounded shape */
.widget > overlay,
.widget-item overlay {
    border-radius: inherit;
}

/* Ripple wrapper overlay — fallback border-radius for standalone use
   (e.g. toggle cards where the overlay wraps the card) */
overlay.vp-ripple-wrap {
    border-radius: var(--radius-widget);
}

/* When inside a button or row, inherit the parent's actual radius
   (may differ from --radius-widget, e.g. --radius-pill on compact buttons) */
button.vp-has-ripple > overlay,
row.vp-has-ripple > overlay {
    border-radius: inherit;
}

/* ===== HOVER TRANSITIONS ===== */
/* GTK4 needs transition on BOTH base and :hover for bidirectional animation. */
button {
    "#;

pub proof fn lemma_ripple_shapes_and_button()
    ensures
        timeless::timeless(RIPPLE_SHAPES_AND_BUTTON@),
{
    reveal_strlit(r#"/* Inherit border-radius so the ripple clips to the rounded shape */
.widget > overlay,
.widget-item overlay {
    border-radius: inherit;
}

/* Ripple wrapper overlay — fallback border-radius for standalone use
   (e.g. toggle cards where the overlay wraps the card) */
overlay.vp-ripple-wrap {
    border-radius: var(--radius-widget);
}

/* When inside a button or row, inherit the parent's actual radius
   (may differ from --radius-widget, e.g. --radius-pill on compact buttons) */
button.vp-has-ripple > overlay,
row.vp-has-ripple > overlay {
    border-radius: inherit;
}

/* ===== HOVER TRANSITIONS ===== */
/* GTK4 needs transition on BOTH base and :hover for bidirectional animation. */
button {
    "#);
    assert(RIPPLE_SHAPES_AND_BUTTON@.len() == 709);
    assert(timeless::unpaired(RIPPLE_SHAPES_AND_BUTTON@, '0', 'm', 22)) by {
        reveal_with_fuel(timeless::unpaired, 23);
    }
    assert(timeless::unpaired(RIPPLE_SHAPES_AND_BUTTON@, '0', 'm', 45)) by {
        reveal_with_fuel(timeless::unpaired, 24);
    }
    timeless::lemma_timeless(RIPPLE_SHAPES_AND_BUTTON@, 45);
}

pub const BUTTON_HOVER: &'static str = r#"
}
button:hover {
    "#;

pub proof fn lemma_button_hover()
    ensures
        timeless::timeless(BUTTON_HOVER@),
{
    reveal_strlit(r#"
}
button:hover {
    "#);
    assert(BUTTON_HOVER@.len() == 22);
    assert(timeless::unpaired(BUTTON_HOVER@, '0', 'm', 2)) by {
        reveal_with_fuel(timeless::unpaired, 3);
    }
    timeless::lemma_timeless(BUTTON_HOVER@, 2);
}

pub const WIDGET: &'static str = r#"
}

.widget {
    "#;

pub proof fn lemma_widget()
    ensures
        timeless::timeless(WIDGET@),
{
    reveal_strlit(r#"
}

.widget {
    "#);
    assert(WIDGET@.len() == 18);
    assert(timeless::unpaired(WIDGET@, '0', 'm', 2)) by {
        reveal_with_fuel(timeless::unpaired, 3);
    }
    timeless::lemma_timeless(WIDGET@, 2);
}

pub const WIDGET_ITEM: &'static str = r#"
}

.widget-item {
    "#;

pub proof fn lemma_widget_item()
    ensures
        timeless::timeless(WIDGET_ITEM@),
{
    reveal_strlit(r#"
}

.widget-item {
    "#);
    assert(WIDGET_ITEM@.len() == 23);
    assert(timeless::unpaired(WIDGET_ITEM@, '0', 'm', 2)) by {
        reveal_with_fuel(timeless::unpaired, 3);
    }
    timeless::lemma_timeless(WIDGET_ITEM@, 2);
}

pub const WIDGET_ITEM_HOVER: &'static str = r#"
}
.widget-item:hover {
    "#;

pub proof fn lemma_widget_item_hover()
    ensures
        timeless::timeless(WIDGET_ITEM_HOVER@),
{
    reveal_strlit(r#"
}
.widget-item:hover {
    "#);
    assert(WIDGET_ITEM_HOVER@.len() == 28);
    assert(timeless::unpaired(WIDGET_ITEM_HOVER@, '0', 'm', 2)) by {
        reveal_with_fuel(timeless::unpaired, 3);
    }
    timeless::lemma_timeless(WIDGET_ITEM_HOVER@, 2);
}

pub const SLIDER: &'static str = r#"
}

/* Slider row - horizontal layout with icon + slider + optional trailing widget */
.slider-row {
    padding: 4px 8px;
}

/* Icon button in slider row (A) */
.slider-row .slider-icon-btn {
    background: transparent;
    border: none;
    box-shadow: none;
    min-width: 32px;
    min-height: 32px;
    padding: 0;
    border-radius: var(--radius-widget);
    font-size: calc(var(--icon-size) * 1.15);
}
.slider-row .slider-icon-btn:hover {
    background: var(--color-card-overlay-hover);
}

/* Slider styling with accent color */
.slider-row scale {
    margin-left: 4px;
    margin-right: 4px;
}

.slider-row scale trough {
    min-height: var(--slider-height);
    border-radius: var(--slider-radius);
    background-color: var(--color-slider-track);
}

"#;

pub proof fn lemma_slider()
    ensures
        timeless::timeless(SLIDER@),
{
    reveal_strlit(r#"
}

/* Slider row - horizontal layout with icon + slider + optional trailing widget */
.slider-row {
    padding: 4px 8px;
}

/* Icon button in slider row (A) */
.slider-row .slider-icon-btn {
    background: transparent;
    border: none;
    box-shadow: none;
    min-width: 32px;
    min-height: 32px;
    padding: 0;
    border-radius: var(--radius-widget);
    font-size: calc(var(--icon-size) * 1.15);
}
.slider-row .slider-icon-btn:hover {
    background: var(--color-card-overlay-hover);
}

/* Slider styling with accent color */
.slider-row scale {
    margin-left: 4px;
    margin-right: 4px;
}

.slider-row scale trough {
    min-height: var(--slider-height);
    border-radius: var(--slider-radius);
    background-color: var(--color-slider-track);
}

"#);
    assert(SLIDER@.len() == 764);
    assert(timeless::unpaired(SLIDER@, '0', 'm', 24)) by {
        reveal_with_fuel(timeless::unpaired, 25);
    }
    assert(timeless::unpaired(SLIDER@, '0', 'm', 48)) by {
        reveal_with_fuel(timeless::unpaired, 25);
    }
    timeless::lemma_timeless(SLIDER@, 48);
}

pub const SLIDER_KNOB: &'static str = r#".slider-row scale highlight {
    background-image: image(var(--color-accent-slider, var(--color-accent-primary)));
    background-color: var(--color-accent-slider, var(--color-accent-primary));
    border: none;
    min-height: var(--slider-height);
    border-radius: var(--slider-radius);
}

.slider-row scale slider {
    min-width: var(--slider-knob-size);
    min-height: var(--slider-knob-size);
    margin: -5px;
    padding: 0;
    background-color: var(--color-accent-primary);
    border-radius: var(--slider-knob-radius);
    border: none;
    box-shadow: none;
    "#;

pub proof fn lemma_slider_knob()
    ensures
        timeless::timeless(SLIDER_KNOB@),
        SLIDER_KNOB@.len() > 2,
        SLIDER_KNOB@[SLIDER_KNOB@.len() - 1] == ' ',
        SLIDER_KNOB@[SLIDER_KNOB@.len() - 2] == ' ',
{
    reveal_strlit(r#".slider-row scale highlight {
    background-image: image(var(--color-accent-slider, var(--color-accent-primary)));
    background-color: var(--color-accent-slider, var(--color-accent-primary));
    border: none;
    min-height: var(--slider-height);
    border-radius: var(--slider-radius);
}

.slider-row scale slider {
    min-width: var(--slider-knob-size);
    min-height: var(--slider-knob-size);
    margin: -5px;
    padding: 0;
    background-color: var(--color-accent-primary);
    border-radius: var(--slider-knob-radius);
    border: none;
    box-shadow: none;
    "#);
    assert(SLIDER_KNOB@.len() == 578);
    assert(timeless::unpaired(SLIDER_KNOB@, '0', 'm', 18)) by {
        reveal_with_fuel(timeless::unpaired, 19);
    }
    assert(timeless::unpaired(SLIDER_KNOB@, '0', 'm', 37)) by {
        reveal_with_fuel(timeless::unpaired, 20);
    }
    timeless::lemma_timeless(SLIDER_KNOB@, 37);
}

pub const SLIDER_ROW: &'static str = r#"
}
.slider-row scale slider:active {
    transform: scale(1.15);
}

/* Muted state for slider row icons */
.slider-row .muted {
    color: var(--color-foreground-muted);
}

/* Trailing spacer in slider row - invisible, matches expander size */
.slider-row .slider-spacer {
    background: transparent;
    border: none;
    box-shadow: none;
    min-width: 24px;
    padding: 4px;
    opacity: 0;
}

/* Slider row expander (B) */
.slider-row .qs-toggle-more {
    min-width: calc(var(--icon-size) * 2);
    min-height: calc(var(--icon-size) * 2);
    padding: 0;
    border-radius: var(--radius-widget);
}
.slider-row .qs-toggle-more:hover {
    background: var(--color-card-overlay-hover);
}
"#;

pub proof fn lemma_slider_row()
    ensures
        timeless::timeless(SLIDER_ROW@),
        SLIDER_ROW@.len() > 0,
        SLIDER_ROW@[0] == '\n',
{
    reveal_strlit(r#"
}
.slider-row scale slider:active {
    transform: scale(1.15);
}

/* Muted state for slider row icons */
.slider-row .muted {
    color: var(--color-foreground-muted);
}

/* Trailing spacer in slider row - invisible, matches expander size */
.slider-row .slider-spacer {
    background: transparent;
    border: none;
    box-shadow: none;
    min-width: 24px;
    padding: 4px;
    opacity: 0;
}

/* Slider row expander (B) */
.slider-row .qs-toggle-more {
    min-width: calc(var(--icon-size) * 2);
    min-height: calc(var(--icon-size) * 2);
    padding: 0;
    border-radius: var(--radius-widget);
}
.slider-row .qs-toggle-more:hover {
    background: var(--color-card-overlay-hover);
}
"#);
    assert(SLIDER_ROW@.len() == 693);
    assert(timeless::unpaired(SLIDER_ROW@, '0', 'm', 22)) by {
        reveal_with_fuel(timeless::unpaired, 23);
    }
    assert(timeless::unpaired(SLIDER_ROW@, '0', 'm', 44)) by {
        reveal_with_fuel(timeless::unpaired, 23);
    }
    timeless::lemma_timeless(SLIDER_ROW@, 44);
}

} // verus!
