//! The fixed texts of the bar's style, in order.
//!
//! A proof knows the characters of a constant only where they are written out, so
//! each text stands once more in the lemma that looks at its characters.

use vstd::prelude::*;
use vstd::string::*;

use crate::css::timeless;

verus! {

pub const SHELL: &'static str = r#"
/* ===== BAR ===== */

/* Window must be transparent so bar background shows */
.bar-window {
    background: transparent;
}

/* Shell containers transparent */
.bar-shell,
.bar-shell-inner,
.bar-margin-spacer {
    background: transparent;
}

.bar-shell-inner {
    "#;

pub proof fn lemma_shell()
    ensures
        timeless::timeless(SHELL@),
{
    reveal_strlit(r#"
/* ===== BAR ===== */

/* Window must be transparent so bar background shows */
.bar-window {
    background: transparent;
}

/* Shell containers transparent */
.bar-shell,
.bar-shell-inner,
.bar-margin-spacer {
    background: transparent;
}

.bar-shell-inner {
    "#);
    assert(SHELL@.len() == 268);
    assert(timeless::unpaired(SHELL@, '0', 'm', 17)) by {
        reveal_with_fuel(timeless::unpaired, 18);
    }
    timeless::lemma_timeless(SHELL@, 17);
}

pub const NEXT_LINE: &'static str = r#"
    "#;

pub proof fn lemma_next_line()
    ensures
        timeless::timeless(NEXT_LINE@),
{
    reveal_strlit(r#"
    "#);
    assert(NEXT_LINE@.len() == 5);
    assert(timeless::unpaired(NEXT_LINE@, '0', 'm', 1)) by {
        reveal_with_fuel(timeless::unpaired, 2);
    }
    timeless::lemma_timeless(NEXT_LINE@, 1);
}

pub const BAR_AND_WIDGET: &'static str = r#"
}

/* Bar container - the visible bar */
sectioned-bar.bar {
    min-height: var(--bar-height);
    padding-top: var(--bar-padding-y);
    padding-bottom: var(--bar-padding-y-bottom);
    background: var(--color-background-bar);
    border: var(--bar-outline-width) solid color-mix(in srgb, var(--bar-outline-color) var(--bar-outline-opacity), transparent);
    border-radius: var(--radius-bar);
    font-family: var(--font-family);
    font-size: var(--font-size);
    color: var(--color-foreground-primary);
}

/* Widget wrapper — transparent so only .widget paints a background layer */
.widget-wrapper {
    min-height: var(--widget-height);
    background: transparent;
}

/* Widget — visual surface */
.widget {
    background-color: "#;

pub proof fn lemma_bar_and_widget()
    ensures
        timeless::timeless(BAR_AND_WIDGET@),
{
    reveal_strlit(r#"
}

/* Bar container - the visible bar */
sectioned-bar.bar {
    min-height: var(--bar-height);
    padding-top: var(--bar-padding-y);
    padding-bottom: var(--bar-padding-y-bottom);
    background: var(--color-background-bar);
    border: var(--bar-outline-width) solid color-mix(in srgb, var(--bar-outline-color) var(--bar-outline-opacity), transparent);
    border-radius: var(--radius-bar);
    font-family: var(--font-family);
    font-size: var(--font-size);
    color: var(--color-foreground-primary);
}

/* Widget wrapper — transparent so only .widget paints a background layer */
.widget-wrapper {
    min-height: var(--widget-height);
    background: transparent;
}

/* Widget — visual surface */
.widget {
    background-color: "#);
    assert(BAR_AND_WIDGET@.len() == 741);
    assert(timeless::unpaired(BAR_AND_WIDGET@, '0', 'm', 23)) by {
        reveal_with_fuel(timeless::unpaired, 24);
    }
    assert(timeless::unpaired(BAR_AND_WIDGET@, '0', 'm', 47)) by {
        reveal_with_fuel(timeless::unpaired, 25);
    }
    timeless::lemma_timeless(BAR_AND_WIDGET@, 47);
}

pub const CONTENT_PADDING: &'static str = r#";
    border: var(--widget-outline-width) solid color-mix(in srgb, var(--widget-outline-color) var(--widget-outline-opacity), transparent);
    border-radius: var(--radius-widget);
}

/* Padding on .content (not the container) so the ripple overlay
   fills the entire widget background area edge-to-edge.
   Passive widgets (merge groups) have no .widget surface — target
   their .content directly via the third selector. */
.widget:not(.widget-group) .content,
.widget-group > .content > .widget-item .content,
.widget-item.passive > .content {
    padding: var(--widget-padding-y) "#;

pub proof fn lemma_content_padding()
    ensures
        timeless::timeless(CONTENT_PADDING@),
{
    reveal_strlit(r#";
    border: var(--widget-outline-width) solid color-mix(in srgb, var(--widget-outline-color) var(--widget-outline-opacity), transparent);
    border-radius: var(--radius-widget);
}

/* Padding on .content (not the container) so the ripple overlay
   fills the entire widget background area edge-to-edge.
   Passive widgets (merge groups) have no .widget surface — target
   their .content directly via the third selector. */
.widget:not(.widget-group) .content,
.widget-group > .content > .widget-item .content,
.widget-item.passive > .content {
    padding: var(--widget-padding-y) "#);
    assert(CONTENT_PADDING@.len() == 585);
    assert(timeless::unpaired(CONTENT_PADDING@, '0', 'm', 18)) by {
        reveal_with_fuel(timeless::unpaired, 19);
    }
    assert(timeless::unpaired(CONTENT_PADDING@, '0', 'm', 37)) by {
        reveal_with_fuel(timeless::unpaired, 20);
    }
    timeless::lemma_timeless(CONTENT_PADDING@, 37);
}

pub const GROUPS: &'static str = r#"px;
}

/* Widget groups — surface is transparent; each child paints its own base
   so translucent hover composites over the bar background, not on a
   stacked group base. Outer pill shape comes from position-aware radius
   on the first/last children below. */
.widget.widget-group {
    padding: 0;
    background-color: transparent;
    background-image: none;
}

/* Hover targets the wrapper but paints on the surface child */
.widget-wrapper.clickable:hover > .widget:not(.widget-group) {
    background-color: var(--color-widget-hover-bg);
}

"#;

pub proof fn lemma_groups()
    ensures
        timeless::timeless(GROUPS@),
        GROUPS@.len() > 0,
        GROUPS@[0] != 'm',
{
    reveal_strlit(r#"px;
}

/* Widget groups — surface is transparent; each child paints its own base
   so translucent hover composites over the bar background, not on a
   stacked group base. Outer pill shape comes from position-aware radius
   on the first/last children below. */
.widget.widget-group {
    padding: 0;
    background-color: transparent;
    background-image: none;
}

/* Hover targets the wrapper but paints on the surface child */
.widget-wrapper.clickable:hover > .widget:not(.widget-group) {
    background-color: var(--color-widget-hover-bg);
}

"#);
    assert(GROUPS@.len() == 550);
    assert(timeless::unpaired(GROUPS@, '0', 'm', 17)) by {
        reveal_with_fuel(timeless::unpaired, 18);
    }
    assert(timeless::unpaired(GROUPS@, '0', 'm', 35)) by {
        reveal_with_fuel(timeless::unpaired, 19);
    }
    timeless::lemma_timeless(GROUPS@, 35);
}

pub const GROUP_ITEM: &'static str = r#"/* Each grouped child paints its own background. Both adjacent painted
   siblings (.widget-merge-group and .widget-item) sit at the same DOM
   depth (direct children of .widget-group > .content) so their painted
   regions meet flush in the parent Box. The inner .widget stays
   transparent — painting the outer .widget-item ensures the painted
   surface fills the item's allocation, eliminating subpixel seams that
   appear when paint depth differs between siblings. */
.widget-group > .content > .widget-item {
    background-color: "#;

pub proof fn lemma_group_item()
    ensures
        timeless::timeless(GROUP_ITEM@),
{
    reveal_strlit(r#"/* Each grouped child paints its own background. Both adjacent painted
   siblings (.widget-merge-group and .widget-item) sit at the same DOM
   depth (direct children of .widget-group > .content) so their painted
   regions meet flush in the parent Box. The inner .widget stays
   transparent — painting the outer .widget-item ensures the painted
   surface fills the item's allocation, eliminating subpixel seams that
   appear when paint depth differs between siblings. */
.widget-group > .content > .widget-item {
    background-color: "#);
    assert(GROUP_ITEM@.len() == 540);
    assert(timeless::unpaired(GROUP_ITEM@, '0', 'm', 17)) by {
        reveal_with_fuel(timeless::unpaired, 18);
    }
    assert(timeless::unpaired(GROUP_ITEM@, '0', 'm', 34)) by {
        reveal_with_fuel(timeless::unpaired, 18);
    }
    timeless::lemma_timeless(GROUP_ITEM@, 34);
}

pub const SEAMS: &'static str = r#";
}
.widget-group > .content > .widget-item > .widget {
    background-color: transparent;
    box-shadow: none;
    border: none;
}

/* Halve the visible inter-item gap at every seam inside a group. Each
   item carries `pad_x` on both inner-content sides; without override,
   adjacent items show `2 * pad_x` between their icons (looks doubled vs
   the intra-merge gap, which is collapsed by the negative-margin overlap
   inside .merge-group-content + .merge-group-content's set_spacing).
   Halving both seam-facing sides to `pad_x / 2` yields a total seam gap
   of `pad_x`, matching MERGE_GROUP_SPACING for visual consistency.
   - .widget-item: padding lives on .widget > overlay > .content.
   - .widget-merge-group: the leftmost/rightmost passive item's .content
"#;

pub proof fn lemma_seams()
    ensures
        timeless::timeless(SEAMS@),
{
    reveal_strlit(r#";
}
.widget-group > .content > .widget-item > .widget {
    background-color: transparent;
    box-shadow: none;
    border: none;
}

/* Halve the visible inter-item gap at every seam inside a group. Each
   item carries `pad_x` on both inner-content sides; without override,
   adjacent items show `2 * pad_x` between their icons (looks doubled vs
   the intra-merge gap, which is collapsed by the negative-margin overlap
   inside .merge-group-content + .merge-group-content's set_spacing).
   Halving both seam-facing sides to `pad_x / 2` yields a total seam gap
   of `pad_x`, matching MERGE_GROUP_SPACING for visual consistency.
   - .widget-item: padding lives on .widget > overlay > .content.
   - .widget-merge-group: the leftmost/rightmost passive item's .content
"#);
    assert(SEAMS@.len() == 773);
    assert(timeless::unpaired(SEAMS@, '0', 'm', 24)) by {
        reveal_with_fuel(timeless::unpaired, 25);
    }
    assert(timeless::unpaired(SEAMS@, '0', 'm', 49)) by {
        reveal_with_fuel(timeless::unpaired, 26);
    }
    timeless::lemma_timeless(SEAMS@, 49);
}

pub const SEAM_LEFT: &'static str = r#"     carries the seam-facing padding (interior passive items are already
     overlapped by margin-left).
   :not(:first-child) → has a previous sibling → halve left side.
   :not(:last-child)  → has a following sibling → halve right side. */
.widget-group > .content > .widget-item:not(:first-child) > .widget > overlay > .content,
.widget-group > .content > .widget-merge-group:not(:first-child) > .merge-group-content > .widget-item:first-child > .content {
    padding-left: "#;

pub proof fn lemma_seam_left()
    ensures
        timeless::timeless(SEAM_LEFT@),
{
    reveal_strlit(r#"     carries the seam-facing padding (interior passive items are already
     overlapped by margin-left).
   :not(:first-child) → has a previous sibling → halve left side.
   :not(:last-child)  → has a following sibling → halve right side. */
.widget-group > .content > .widget-item:not(:first-child) > .widget > overlay > .content,
.widget-group > .content > .widget-merge-group:not(:first-child) > .merge-group-content > .widget-item:first-child > .content {
    padding-left: "#);
    assert(SEAM_LEFT@.len() == 479);
    assert(timeless::unpaired(SEAM_LEFT@, '0', 'm', 15)) by {
        reveal_with_fuel(timeless::unpaired, 16);
    }
    assert(timeless::unpaired(SEAM_LEFT@, '0', 'm', 30)) by {
        reveal_with_fuel(timeless::unpaired, 16);
    }
    timeless::lemma_timeless(SEAM_LEFT@, 30);
}

pub const SEAM_RIGHT: &'static str = r#"px;
}
.widget-group > .content > .widget-item:not(:last-child) > .widget > overlay > .content,
.widget-group > .content > .widget-merge-group:not(:last-child) > .merge-group-content > .widget-item:last-child > .content {
    padding-right: "#;

pub proof fn lemma_seam_right()
    ensures
        timeless::timeless(SEAM_RIGHT@),
        SEAM_RIGHT@.len() > 0,
        SEAM_RIGHT@[0] != 'm',
{
    reveal_strlit(r#"px;
}
.widget-group > .content > .widget-item:not(:last-child) > .widget > overlay > .content,
.widget-group > .content > .widget-merge-group:not(:last-child) > .merge-group-content > .widget-item:last-child > .content {
    padding-right: "#);
    assert(SEAM_RIGHT@.len() == 240);
    assert(timeless::unpaired(SEAM_RIGHT@, '0', 'm', 15)) by {
        reveal_with_fuel(timeless::unpaired, 16);
    }
    timeless::lemma_timeless(SEAM_RIGHT@, 15);
}

pub const GROUP_CORNERS: &'static str = r#"px;
}

/* Position-aware pill shape: outer corners rounded only on the leading
   and trailing children; interior edges square so adjacent children meet
   flush. Applies to both plain items and merge wrappers. */
.widget-group > .content > .widget-item,
.widget-group > .content > .widget-merge-group {
    border-radius: 0;
}
.widget-group > .content > :first-child {
    border-top-left-radius: var(--radius-widget);
    border-bottom-left-radius: var(--radius-widget);
}
.widget-group > .content > :last-child {
    border-top-right-radius: var(--radius-widget);
    border-bottom-right-radius: var(--radius-widget);
}

"#;

pub proof fn lemma_group_corners()
    ensures
        timeless::timeless(GROUP_CORNERS@),
        GROUP_CORNERS@.len() > 0,
        GROUP_CORNERS@[0] != 'm',
{
    reveal_strlit(r#"px;
}

/* Position-aware pill shape: outer corners rounded only on the leading
   and trailing children; interior edges square so adjacent children meet
   flush. Applies to both plain items and merge wrappers. */
.widget-group > .content > .widget-item,
.widget-group > .content > .widget-merge-group {
    border-radius: 0;
}
.widget-group > .content > :first-child {
    border-top-left-radius: var(--radius-widget);
    border-bottom-left-radius: var(--radius-widget);
}
.widget-group > .content > :last-child {
    border-top-right-radius: var(--radius-widget);
    border-bottom-right-radius: var(--radius-widget);
}

"#);
    assert(GROUP_CORNERS@.len() == 624);
    assert(timeless::unpaired(GROUP_CORNERS@, '0', 'm', 19)) by {
        reveal_with_fuel(timeless::unpaired, 20);
    }
    assert(timeless::unpaired(GROUP_CORNERS@, '0', 'm', 39)) by {
        reveal_with_fuel(timeless::unpaired, 21);
    }
    timeless::lemma_timeless(GROUP_CORNERS@, 39);
}

pub const GROUP_SURFACE_CORNERS: &'static str = r#"/* Inner .widget surface inside grouped items must match its parent
   .widget-item's position-aware radius — the inner .widget has
   Overflow::Hidden which clips the ripple, so without this override
   the ripple would clip to the standalone --radius-widget shape and
   not reach the painted square corners at interior seams. */
.widget-group > .content > .widget-item > .widget {
    border-radius: 0;
}
.widget-group > .content > .widget-item:first-child > .widget {
    border-top-left-radius: var(--radius-widget);
    border-bottom-left-radius: var(--radius-widget);
}
.widget-group > .content > .widget-item:last-child > .widget {
    border-top-right-radius: var(--radius-widget);
    border-bottom-right-radius: var(--radius-widget);
}

"#;

pub proof fn lemma_group_surface_corners()
    ensures
        timeless::timeless(GROUP_SURFACE_CORNERS@),
{
    reveal_strlit(r#"/* Inner .widget surface inside grouped items must match its parent
   .widget-item's position-aware radius — the inner .widget has
   Overflow::Hidden which clips the ripple, so without this override
   the ripple would clip to the standalone --radius-widget shape and
   not reach the painted square corners at interior seams. */
.widget-group > .content > .widget-item > .widget {
    border-radius: 0;
}
.widget-group > .content > .widget-item:first-child > .widget {
    border-top-left-radius: var(--radius-widget);
    border-bottom-left-radius: var(--radius-widget);
}
.widget-group > .content > .widget-item:last-child > .widget {
    border-top-right-radius: var(--radius-widget);
    border-bottom-right-radius: var(--radius-widget);
}

"#);
    assert(GROUP_SURFACE_CORNERS@.len() == 748);
    assert(timeless::unpaired(GROUP_SURFACE_CORNERS@, '0', 'm', 23)) by {
        reveal_with_fuel(timeless::unpaired, 24);
    }
    assert(timeless::unpaired(GROUP_SURFACE_CORNERS@, '0', 'm', 47)) by {
        reveal_with_fuel(timeless::unpaired, 25);
    }
    timeless::lemma_timeless(GROUP_SURFACE_CORNERS@, 47);
}

pub const GROUP_ITEM_HOVER: &'static str = r#"/* Grouped child hover — clears the cell base and paints a rounded hover
   pill on the inner surface. The spread shadow restores the cell's base
   color behind the rounded corners, clipped by the child allocation, so
   translucent hover values composite over the bar background exactly once
   without exposing wallpaper at mixed-group seams. */
.widget-group > .content > .widget-item.clickable:hover {
    background-color: transparent;
}
.widget-group > .content > .widget-item.clickable:hover > .widget {
    background-color: var(--color-widget-hover-bg);
    border-radius: var(--radius-widget);
    box-shadow: 0 0 0 9999px "#;

pub proof fn lemma_group_item_hover()
    ensures
        timeless::timeless(GROUP_ITEM_HOVER@),
{
    reveal_strlit(r#"/* Grouped child hover — clears the cell base and paints a rounded hover
   pill on the inner surface. The spread shadow restores the cell's base
   color behind the rounded corners, clipped by the child allocation, so
   translucent hover values composite over the bar background exactly once
   without exposing wallpaper at mixed-group seams. */
.widget-group > .content > .widget-item.clickable:hover {
    background-color: transparent;
}
.widget-group > .content > .widget-item.clickable:hover > .widget {
    background-color: var(--color-widget-hover-bg);
    border-radius: var(--radius-widget);
    box-shadow: 0 0 0 9999px "#);
    assert(GROUP_ITEM_HOVER@.len() == 634);
    assert(timeless::unpaired(GROUP_ITEM_HOVER@, '0', 'm', 20)) by {
        reveal_with_fuel(timeless::unpaired, 21);
    }
    assert(timeless::unpaired(GROUP_ITEM_HOVER@, '0', 'm', 40)) by {
        reveal_with_fuel(timeless::unpaired, 21);
    }
    timeless::lemma_timeless(GROUP_ITEM_HOVER@, 40);
}

pub const MERGE_GROUP: &'static str = r#";
}

/* ===== MERGE GROUP ===== */

/* Merge group wrapper — acts as a single visual button for adjacent
   same-popover widgets. Paints its own base; the parent group surface
   is transparent. overflow:hidden is set in Rust (not a valid GTK4 CSS
   property). */
.widget-merge-group {
    background-color: "#;

pub proof fn lemma_merge_group()
    ensures
        timeless::timeless(MERGE_GROUP@),
{
    reveal_strlit(r#";
}

/* ===== MERGE GROUP ===== */

/* Merge group wrapper — acts as a single visual button for adjacent
   same-popover widgets. Paints its own base; the parent group surface
   is transparent. overflow:hidden is set in Rust (not a valid GTK4 CSS
   property). */
.widget-merge-group {
    background-color: "#);
    assert(MERGE_GROUP@.len() == 309);
    assert(timeless::unpaired(MERGE_GROUP@, '0', 'm', 20)) by {
        reveal_with_fuel(timeless::unpaired, 21);
    }
    timeless::lemma_timeless(MERGE_GROUP@, 20);
}

pub const MERGE_GROUP_CLIP: &'static str = r#";
    border-radius: var(--radius-widget);
}
.widget-merge-group > .merge-group-content {
    box-shadow: none;
}

/* Ripple clip box (added in build_merge_group). Establishes a rounded clip
   for the merge-group ripple so it matches the inner pill shape — the
   merge-group itself uses position-aware radius and would otherwise leak
   the ripple past rounded hover edges at mixed-group seams. */
.widget-merge-group-ripple-clip {
    border-radius: var(--radius-widget);
    background: transparent;
}

"#;

pub proof fn lemma_merge_group_clip()
    ensures
        timeless::timeless(MERGE_GROUP_CLIP@),
{
    reveal_strlit(r#";
    border-radius: var(--radius-widget);
}
.widget-merge-group > .merge-group-content {
    box-shadow: none;
}

/* Ripple clip box (added in build_merge_group). Establishes a rounded clip
   for the merge-group ripple so it matches the inner pill shape — the
   merge-group itself uses position-aware radius and would otherwise leak
   the ripple past rounded hover edges at mixed-group seams. */
.widget-merge-group-ripple-clip {
    border-radius: var(--radius-widget);
    background: transparent;
}

"#);
    assert(MERGE_GROUP_CLIP@.len() == 507);
    assert(timeless::unpaired(MERGE_GROUP_CLIP@, '0', 'm', 16)) by {
        reveal_with_fuel(timeless::unpaired, 17);
    }
    assert(timeless::unpaired(MERGE_GROUP_CLIP@, '0', 'm', 32)) by {
        reveal_with_fuel(timeless::unpaired, 17);
    }
    timeless::lemma_timeless(MERGE_GROUP_CLIP@, 32);
}

pub const MERGE_GROUP_HOVER: &'static str = r#".widget-group > .content > .widget-merge-group.clickable:hover {
    background-color: transparent;
}
.widget-group > .content > .widget-merge-group.clickable:hover > .merge-group-content {
    background-color: var(--color-widget-hover-bg);
    border-radius: var(--radius-widget);
    box-shadow: 0 0 0 9999px "#;

pub proof fn lemma_merge_group_hover()
    ensures
        timeless::timeless(MERGE_GROUP_HOVER@),
{
    reveal_strlit(r#".widget-group > .content > .widget-merge-group.clickable:hover {
    background-color: transparent;
}
.widget-group > .content > .widget-merge-group.clickable:hover > .merge-group-content {
    background-color: var(--color-widget-hover-bg);
    border-radius: var(--radius-widget);
    box-shadow: 0 0 0 9999px "#);
    assert(MERGE_GROUP_HOVER@.len() == 312);
    assert(timeless::unpaired(MERGE_GROUP_HOVER@, '0', 'm', 20)) by {
        reveal_with_fuel(timeless::unpaired, 21);
    }
    timeless::lemma_timeless(MERGE_GROUP_HOVER@, 20);
}

pub const MERGE_ITEM_NOTE: &'static str = r#";
}

/* Passive items in merge groups don't show their own hover */
.merge-group-content > .widget-item.passive:hover {
    background-color: transparent;
}

/* Pull non-first items left to overlap adjacent .content padding (2 × "#;

pub proof fn lemma_merge_item_note()
    ensures
        timeless::timeless(MERGE_ITEM_NOTE@),
{
    reveal_strlit(r#";
}

/* Passive items in merge groups don't show their own hover */
.merge-group-content > .widget-item.passive:hover {
    background-color: transparent;
}

/* Pull non-first items left to overlap adjacent .content padding (2 × "#);
    assert(MERGE_ITEM_NOTE@.len() == 229);
    assert(timeless::unpaired(MERGE_ITEM_NOTE@, '0', 'm', 15)) by {
        reveal_with_fuel(timeless::unpaired, 16);
    }
    timeless::lemma_timeless(MERGE_ITEM_NOTE@, 15);
}

pub const MERGE_ITEM: &'static str = r#"px) */
.merge-group-content > .widget-item:not(:first-child) {
    margin-left: -"#;

pub proof fn lemma_merge_item()
    ensures
        timeless::timeless(MERGE_ITEM@),
        MERGE_ITEM@.len() > 0,
        MERGE_ITEM@[0] != 'm',
{
    reveal_strlit(r#"px) */
.merge-group-content > .widget-item:not(:first-child) {
    margin-left: -"#);
    assert(MERGE_ITEM@.len() == 81);
    assert(timeless::unpaired(MERGE_ITEM@, '0', 'm', 6)) by {
        reveal_with_fuel(timeless::unpaired, 7);
    }
    timeless::lemma_timeless(MERGE_ITEM@, 6);
}

pub const MERGE_SPACER: &'static str = r#"px;
}

/* Spacers have no inner padding and can be zero-width; don't give them a
   negative margin or GTK reports a negative minimum size. The following
   widget pulls in far enough to collapse the extra GTK spacing seam. */
.merge-group-content > .widget-item.spacer:not(:first-child) {
    margin-left: 0;
}
.merge-group-content > .widget-item.spacer + .widget-item {
    margin-left: -"#;

pub proof fn lemma_merge_spacer()
    ensures
        timeless::timeless(MERGE_SPACER@),
        MERGE_SPACER@.len() > 0,
        MERGE_SPACER@[0] != 'm',
{
    reveal_strlit(r#"px;
}

/* Spacers have no inner padding and can be zero-width; don't give them a
   negative margin or GTK reports a negative minimum size. The following
   widget pulls in far enough to collapse the extra GTK spacing seam. */
.merge-group-content > .widget-item.spacer:not(:first-child) {
    margin-left: 0;
}
.merge-group-content > .widget-item.spacer + .widget-item {
    margin-left: -"#);
    assert(MERGE_SPACER@.len() == 390);
    assert(timeless::unpaired(MERGE_SPACER@, '0', 'm', 25)) by {
        reveal_with_fuel(timeless::unpaired, 26);
    }
    timeless::lemma_timeless(MERGE_SPACER@, 25);
}

pub const ITEM_SPACING: &'static str = r#"px;
}

/* Spacing between items inside widgets (icon→label, etc.).
   Restricted to inner .content elements: standalone widgets' .content sits
   inside .widget (which is NOT .widget-group), and grouped items' inner
   .content sits inside .widget-item.passive (merge groups) or one extra
   level deep under .widget-group's outer .content. The outer .content
   directly under .widget.widget-group must NOT match — its direct children
   are the painted siblings (.widget-merge-group, .widget-item) that need
   to meet flush with zero margin between them. */
.widget:not(.widget-group) > overlay > .content > *:not(:last-child),
.widget:not(.widget-group) > .content > *:not(:last-child),
.widget-group .content .content > *:not(:last-child) {
    margin-right: var(--spacing-widget-gap);
}

"#;

pub proof fn lemma_item_spacing()
    ensures
        timeless::timeless(ITEM_SPACING@),
        ITEM_SPACING@.len() > 0,
        ITEM_SPACING@[0] != 'm',
{
    reveal_strlit(r#"px;
}

/* Spacing between items inside widgets (icon→label, etc.).
   Restricted to inner .content elements: standalone widgets' .content sits
   inside .widget (which is NOT .widget-group), and grouped items' inner
   .content sits inside .widget-item.passive (merge groups) or one extra
   level deep under .widget-group's outer .content. The outer .content
   directly under .widget.widget-group must NOT match — its direct children
   are the painted siblings (.widget-merge-group, .widget-item) that need
   to meet flush with zero margin between them. */
.widget:not(.widget-group) > overlay > .content > *:not(:last-child),
.widget:not(.widget-group) > .content > *:not(:last-child),
.widget-group .content .content > *:not(:last-child) {
    margin-right: var(--spacing-widget-gap);
}

"#);
    assert(ITEM_SPACING@.len() == 794);
    assert(timeless::unpaired(ITEM_SPACING@, '0', 'm', 25)) by {
        reveal_with_fuel(timeless::unpaired, 26);
    }
    assert(timeless::unpaired(ITEM_SPACING@, '0', 'm', 50)) by {
        reveal_with_fuel(timeless::unpaired, 26);
    }
    timeless::lemma_timeless(ITEM_SPACING@, 50);
}

pub const SECTION_SPACING: &'static str = r#"/* Section widget spacing via margins (Box spacing=0 to allow spacer to have no gaps) */
.bar-section--left > *:not(:last-child):not(.spacer),
.bar-section--right > *:not(:last-child):not(.spacer) {
    "#;

pub proof fn lemma_section_spacing()
    ensures
        timeless::timeless(SECTION_SPACING@),
{
    reveal_strlit(r#"/* Section widget spacing via margins (Box spacing=0 to allow spacer to have no gaps) */
.bar-section--left > *:not(:last-child):not(.spacer),
.bar-section--right > *:not(:last-child):not(.spacer) {
    "#);
    assert(SECTION_SPACING@.len() == 203);
    assert(timeless::unpaired(SECTION_SPACING@, '0', 'm', 13)) by {
        reveal_with_fuel(timeless::unpaired, 14);
    }
    timeless::lemma_timeless(SECTION_SPACING@, 13);
}

pub const INDICATOR_WIDTH: &'static str = r#"
}

/* Spacer widget - no margins so it doesn't create extra gaps */
.spacer {
    min-width: 0;
}

/* ===== WORKSPACE ===== */

.workspace-indicator {
    padding: 0;
    min-width: calc(var(--widget-height) * "#;

pub proof fn lemma_indicator_width()
    ensures
        timeless::timeless(INDICATOR_WIDTH@),
        INDICATOR_WIDTH@.len() > 2,
        INDICATOR_WIDTH@[INDICATOR_WIDTH@.len() - 1] == ' ',
        INDICATOR_WIDTH@[INDICATOR_WIDTH@.len() - 2] == '*',
{
    reveal_strlit(r#"
}

/* Spacer widget - no margins so it doesn't create extra gaps */
.spacer {
    min-width: 0;
}

/* ===== WORKSPACE ===== */

.workspace-indicator {
    padding: 0;
    min-width: calc(var(--widget-height) * "#);
    assert(INDICATOR_WIDTH@.len() == 211);
    assert(timeless::unpaired(INDICATOR_WIDTH@, '0', 'm', 14)) by {
        reveal_with_fuel(timeless::unpaired, 15);
    }
    timeless::lemma_timeless(INDICATOR_WIDTH@, 14);
}

pub const INDICATOR_HEIGHT: &'static str = r#");
    min-height: calc(var(--widget-height) * "#;

pub proof fn lemma_indicator_height()
    ensures
        timeless::timeless(INDICATOR_HEIGHT@),
        INDICATOR_HEIGHT@[0] == ')',
        INDICATOR_HEIGHT@.len() > 2,
        INDICATOR_HEIGHT@[INDICATOR_HEIGHT@.len() - 1] == ' ',
        INDICATOR_HEIGHT@[INDICATOR_HEIGHT@.len() - 2] == '*',
{
    reveal_strlit(r#");
    min-height: calc(var(--widget-height) * "#);
    assert(INDICATOR_HEIGHT@.len() == 47);
    assert(timeless::unpaired(INDICATOR_HEIGHT@, '0', 'm', 3)) by {
        reveal_with_fuel(timeless::unpaired, 4);
    }
    timeless::lemma_timeless(INDICATOR_HEIGHT@, 3);
}

pub const INDICATOR_TRANSITION: &'static str = r#");
    border-radius: calc(var(--radius-pill) * 1.2);
    color: var(--color-foreground-faint);
    "#;

pub proof fn lemma_indicator_transition()
    ensures
        timeless::timeless(INDICATOR_TRANSITION@),
        INDICATOR_TRANSITION@[0] == ')',
        INDICATOR_TRANSITION@.len() > 2,
        INDICATOR_TRANSITION@[INDICATOR_TRANSITION@.len() - 1] == ' ',
        INDICATOR_TRANSITION@[INDICATOR_TRANSITION@.len() - 2] == ' ',
{
    reveal_strlit(r#");
    border-radius: calc(var(--radius-pill) * 1.2);
    color: var(--color-foreground-faint);
    "#);
    assert(INDICATOR_TRANSITION@.len() == 100);
    assert(timeless::unpaired(INDICATOR_TRANSITION@, '0', 'm', 7)) by {
        reveal_with_fuel(timeless::unpaired, 8);
    }
    timeless::lemma_timeless(INDICATOR_TRANSITION@, 7);
}

pub const INDICATOR_HOVER: &'static str = r#"
    /* min-width duration must match INDICATOR_ANIM_DURATION_US in workspaces.rs */
}

/* Override ripple overlay fallback radius (overlay.vp-ripple-wrap uses --radius-widget) */
overlay.workspace-indicator {
    border-radius: calc(var(--radius-pill) * 1.2);
}

/* Workspace hover backgrounds use scoped tokens so active hover can differ from global accent hover. */
.workspace-indicator.clickable:hover {
    background-color: var(--color-workspace-indicator-hover-bg, var(--color-workspace-indicator-hover-default-bg));
}

.workspace-indicator.active.clickable:hover {
    background-color: var(--color-workspace-indicator-active-hover-bg);
}

.workspace-indicator.urgent.clickable:hover {
    background-color: var(--color-workspace-indicator-urgent-hover-bg);
}

"#;

pub proof fn lemma_indicator_hover()
    ensures
        timeless::timeless(INDICATOR_HOVER@),
        INDICATOR_HOVER@.len() > 0,
        INDICATOR_HOVER@[0] == '\n',
{
    reveal_strlit(r#"
    /* min-width duration must match INDICATOR_ANIM_DURATION_US in workspaces.rs */
}

/* Override ripple overlay fallback radius (overlay.vp-ripple-wrap uses --radius-widget) */
overlay.workspace-indicator {
    border-radius: calc(var(--radius-pill) * 1.2);
}

/* Workspace hover backgrounds use scoped tokens so active hover can differ from global accent hover. */
.workspace-indicator.clickable:hover {
    background-color: var(--color-workspace-indicator-hover-bg, var(--color-workspace-indicator-hover-default-bg));
}

.workspace-indicator.active.clickable:hover {
    background-color: var(--color-workspace-indicator-active-hover-bg);
}

.workspace-indicator.urgent.clickable:hover {
    background-color: var(--color-workspace-indicator-urgent-hover-bg);
}

"#);
    assert(INDICATOR_HOVER@.len() == 769);
    assert(timeless::unpaired(INDICATOR_HOVER@, '0', 'm', 24)) by {
        reveal_with_fuel(timeless::unpaired, 25);
    }
    assert(timeless::unpaired(INDICATOR_HOVER@, '0', 'm', 49)) by {
        reveal_with_fuel(timeless::unpaired, 26);
    }
    timeless::lemma_timeless(INDICATOR_HOVER@, 49);
}

pub const INDICATOR_ACTIVE: &'static str = r#".workspace-indicator-minimal {
    --color-workspace-indicator-hover-default-bg: color-mix(in srgb, var(--color-foreground-faint) 80%, var(--widget-hover-tint));
    background-color: var(--color-foreground-faint);
}

.workspace-indicator.active {
    color: var(--color-accent-text, #fff);
    background-color: var(--color-accent-primary);
    min-width: calc(var(--widget-height) * "#;

pub proof fn lemma_indicator_active()
    ensures
        timeless::timeless(INDICATOR_ACTIVE@),
        INDICATOR_ACTIVE@.len() > 2,
        INDICATOR_ACTIVE@[INDICATOR_ACTIVE@.len() - 1] == ' ',
        INDICATOR_ACTIVE@[INDICATOR_ACTIVE@.len() - 2] == '*',
{
    reveal_strlit(r#".workspace-indicator-minimal {
    --color-workspace-indicator-hover-default-bg: color-mix(in srgb, var(--color-foreground-faint) 80%, var(--widget-hover-tint));
    background-color: var(--color-foreground-faint);
}

.workspace-indicator.active {
    color: var(--color-accent-text, #fff);
    background-color: var(--color-accent-primary);
    min-width: calc(var(--widget-height) * "#);
    assert(INDICATOR_ACTIVE@.len() == 385);
    assert(timeless::unpaired(INDICATOR_ACTIVE@, '0', 'm', 25)) by {
        reveal_with_fuel(timeless::unpaired, 26);
    }
    timeless::lemma_timeless(INDICATOR_ACTIVE@, 25);
}

pub const INDICATOR_LONG: &'static str = r#");
}

.workspace-indicator.urgent {
    color: var(--color-accent-text, #fff);
    background-color: var(--color-state-urgent);
}

.workspace-indicator-long {
    padding: 0 "#;

pub proof fn lemma_indicator_long()
    ensures
        timeless::timeless(INDICATOR_LONG@),
        INDICATOR_LONG@[0] == ')',
        INDICATOR_LONG@.len() > 2,
        INDICATOR_LONG@[INDICATOR_LONG@.len() - 1] == ' ',
        INDICATOR_LONG@[INDICATOR_LONG@.len() - 2] == '0',
{
    reveal_strlit(r#");
}

.workspace-indicator.urgent {
    color: var(--color-accent-text, #fff);
    background-color: var(--color-state-urgent);
}

.workspace-indicator-long {
    padding: 0 "#);
    assert(INDICATOR_LONG@.len() == 174);
    assert(timeless::unpaired(INDICATOR_LONG@, '0', 'm', 11)) by {
        reveal_with_fuel(timeless::unpaired, 12);
    }
    timeless::lemma_timeless(INDICATOR_LONG@, 11);
}

pub const TASKBAR: &'static str = r#"px;
}

/* Grow-in: forces zero width + no transition so container animation handles it.
   Loaded at USER+200 priority by load_transient_css() so user CSS can't defeat it. */

/* ===== TASKBAR ===== */
/* padding + border-radius are applied via a shared CssProvider so they
   scale with icon_size and the theme's widget_radius_percent.
   .content horizontal padding is reduced by `pad` so button padding fills
   the widget edge exactly. Inter-button spacing comes from the buttons'
   own padding — no inter-item margin is needed between buttons.
   The selector targets .taskbar-button specifically so the separator
   keeps its own symmetric margins. */

.taskbar .content > .taskbar-button:not(:last-child) {
    margin-right: 0;
}

"#;

pub proof fn lemma_taskbar()
    ensures
        timeless::timeless(TASKBAR@),
        TASKBAR@.len() > 0,
        TASKBAR@[0] == 'p',
{
    reveal_strlit(r#"px;
}

/* Grow-in: forces zero width + no transition so container animation handles it.
   Loaded at USER+200 priority by load_transient_css() so user CSS can't defeat it. */

/* ===== TASKBAR ===== */
/* padding + border-radius are applied via a shared CssProvider so they
   scale with icon_size and the theme's widget_radius_percent.
   .content horizontal padding is reduced by `pad` so button padding fills
   the widget edge exactly. Inter-button spacing comes from the buttons'
   own padding — no inter-item margin is needed between buttons.
   The selector targets .taskbar-button specifically so the separator
   keeps its own symmetric margins. */

.taskbar .content > .taskbar-button:not(:last-child) {
    margin-right: 0;
}

"#);
    assert(TASKBAR@.len() == 739);
    assert(timeless::unpaired(TASKBAR@, '0', 'm', 23)) by {
        reveal_with_fuel(timeless::unpaired, 24);
    }
    assert(timeless::unpaired(TASKBAR@, '0', 'm', 47)) by {
        reveal_with_fuel(timeless::unpaired, 25);
    }
    timeless::lemma_timeless(TASKBAR@, 47);
}

pub const TASKBAR_SEPARATORS: &'static str = r#".taskbar .content > .taskbar-separator {
    background-color: currentColor;
    opacity: 0.3;
    min-width: 1px;
    margin-top: 4px;
    margin-bottom: 4px;
    margin-left: 3px;
    margin-right: 3px;
}

.taskbar .content > .taskbar-output-separator {
    min-width: 1px;
    opacity: 0.45;
    margin-top: 2px;
    margin-bottom: 2px;
    margin-left: 5px;
    margin-right: 5px;
}

.taskbar-button.clickable:hover {
    background-color: var(--color-taskbar-button-hover-bg);
}

.taskbar-button.active {
    background-color: var(--color-accent-primary);
    color: var(--color-accent-text, #fff);
}

.taskbar-button.active.clickable:hover {
    background-color: var(--color-taskbar-button-active-hover-bg);
}

"#;

pub proof fn lemma_taskbar_separators()
    ensures
        timeless::timeless(TASKBAR_SEPARATORS@),
{
    reveal_strlit(r#".taskbar .content > .taskbar-separator {
    background-color: currentColor;
    opacity: 0.3;
    min-width: 1px;
    margin-top: 4px;
    margin-bottom: 4px;
    margin-left: 3px;
    margin-right: 3px;
}

.taskbar .content > .taskbar-output-separator {
    min-width: 1px;
    opacity: 0.45;
    margin-top: 2px;
    margin-bottom: 2px;
    margin-left: 5px;
    margin-right: 5px;
}

.taskbar-button.clickable:hover {
    background-color: var(--color-taskbar-button-hover-bg);
}

.taskbar-button.active {
    background-color: var(--color-accent-primary);
    color: var(--color-accent-text, #fff);
}

.taskbar-button.active.clickable:hover {
    background-color: var(--color-taskbar-button-active-hover-bg);
}

"#);
    assert(TASKBAR_SEPARATORS@.len() == 718);
    assert(timeless::unpaired(TASKBAR_SEPARATORS@, '0', 'm', 22)) by {
        reveal_with_fuel(timeless::unpaired, 23);
    }
    assert(timeless::unpaired(TASKBAR_SEPARATORS@, '0', 'm', 45)) by {
        reveal_with_fuel(timeless::unpaired, 24);
    }
    timeless::lemma_timeless(TASKBAR_SEPARATORS@, 45);
}

pub const TASKBAR_URGENT: &'static str = r#".taskbar-button.urgent.clickable:hover {
    background-color: var(--color-taskbar-button-urgent-hover-bg);
}

.taskbar-button.urgent {
    background-color: var(--color-state-urgent);
    color: var(--color-accent-text, #fff);
}

"#;

pub proof fn lemma_taskbar_urgent()
    ensures
        timeless::timeless(TASKBAR_URGENT@),
{
    reveal_strlit(r#".taskbar-button.urgent.clickable:hover {
    background-color: var(--color-taskbar-button-urgent-hover-bg);
}

.taskbar-button.urgent {
    background-color: var(--color-state-urgent);
    color: var(--color-accent-text, #fff);
}

"#);
    assert(TASKBAR_URGENT@.len() == 231);
    assert(timeless::unpaired(TASKBAR_URGENT@, '0', 'm', 15)) by {
        reveal_with_fuel(timeless::unpaired, 16);
    }
    timeless::lemma_timeless(TASKBAR_URGENT@, 15);
}

} // verus!
