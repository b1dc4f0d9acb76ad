//! What holds of the small widgets of the bar: the keyboard layout, the network
//! speed, notifications and custom commands.

use vstd::prelude::*;
use vstd::string::*;

use crate::config;
use crate::config::{OptionMap, OptionValue, WidgetEntry};
use crate::custom;
use crate::custom::{CustomPlan, CustomView, ExecEnd};
use crate::keyboard_layout;
use crate::keyboard_layout::{
    KeyboardLayoutConfig, KeyboardLayoutInfo, LayoutDisplay, LayoutFormat, ShortView,
};
use crate::names::NameMap;
use crate::network_speed;
use crate::network_speed::{NetworkSpeedConfig, NetworkSpeedFormat, SpeedUpdate};
use crate::notification_common;
use crate::notification_common::{ChoiceView, ImageInfo, ImagePlan, PixelFormat, SourceView};
use crate::text;
use crate::text_laws;

verus! {

// ---------------------------------------------------------------------------
// Options
// ---------------------------------------------------------------------------

/// An option is read where it is set and of the right kind, and only then.
pub proof fn law_options_are_read_by_kind(m: OptionMap, key: Seq<char>, value: OptionValue)
    ensures
        ({
            let set = m.insert(key, value);
            let gone = m.remove(key);
            &&& value matches OptionValue::Text(s) ==> config::text_option(set, key) == Some(s@)
            &&& value !is Text ==> config::text_option(set, key) is None
            &&& value matches OptionValue::Integer(n) ==> config::integer_option(set, key) == Some(
                n,
            )
            &&& value !is Integer ==> config::integer_option(set, key) is None
            &&& value matches OptionValue::Boolean(b) ==> config::boolean_option(set, key) == Some(
                b,
            ) && config::boolean_or(set, key, !b) == b
            &&& value !is Boolean ==> config::boolean_or(set, key, true)
                && !config::boolean_or(set, key, false)
            &&& config::text_option(gone, key) is None
            &&& config::integer_option(gone, key) is None
            &&& config::boolean_or(gone, key, true) && !config::boolean_or(gone, key, false)
        }),
{
}

/// An option does not depend on the other ones.
pub proof fn law_options_are_apart(m: OptionMap, key: Seq<char>, other: Seq<char>, value: OptionValue)
    requires
        key != other,
    ensures
        config::text_option(m.insert(other, value), key) == config::text_option(m, key),
        config::integer_option(m.insert(other, value), key) == config::integer_option(m, key),
        config::boolean_option(m.insert(other, value), key) == config::boolean_option(m, key),
{
}

// ---------------------------------------------------------------------------
// The network speed
// ---------------------------------------------------------------------------

/// While the speeds are known, a label shows the speed of its own direction, and
/// the tooltip names the ones that are shown.
pub proof fn law_speeds_stand_at_their_labels(
    c: NetworkSpeedConfig,
    download: &str,
    upload: &str,
    r: SpeedUpdate,
)
    requires
        call_ensures(network_speed::update_network_widget, (&c, true, download, upload), r),
    ensures
        r.download is Some <==> c.format != NetworkSpeedFormat::Upload,
        r.upload is Some <==> c.format != NetworkSpeedFormat::Download,
        r.download matches Some(d) ==> d@ == download@,
        r.upload matches Some(u) ==> u@ == upload@,
        r.icon_visible == Some(c.show_icon),
        r.show_arrows,
        c.format == NetworkSpeedFormat::Download ==> r.tooltip@ == "Download: "@ + download@,
        c.format == NetworkSpeedFormat::Upload ==> r.tooltip@ == "Upload: "@ + upload@,
        c.format == NetworkSpeedFormat::Both ==> r.tooltip@ == "Download: "@ + download@
            + "\nUpload: "@ + upload@,
{
}

/// While the speeds are not known, a label that is shown holds a question mark,
/// there are no arrows, and an icon that is not wanted is left alone.
pub proof fn law_unknown_speeds_are_marked(
    c: NetworkSpeedConfig,
    download: &str,
    upload: &str,
    r: SpeedUpdate,
)
    requires
        call_ensures(network_speed::update_network_widget, (&c, false, download, upload), r),
    ensures
        r.download is Some <==> c.format != NetworkSpeedFormat::Upload,
        r.upload is Some <==> c.format != NetworkSpeedFormat::Download,
        r.download matches Some(d) ==> d@ == "?"@,
        r.upload matches Some(u) ==> u@ == "?"@,
        !r.show_arrows,
        c.show_icon ==> r.icon_visible == Some(true),
        !c.show_icon ==> r.icon_visible is None,
        r.tooltip@ == "Network: Service unavailable"@,
{
}

/// A direction can be named in full or by two letters, and every other word
/// stands for both.
pub proof fn law_speed_formats_have_names(lowered: Seq<char>)
    ensures
        network_speed::speed_format_of(lowered) == NetworkSpeedFormat::Download <==> lowered
            == "download"@ || lowered == "dl"@,
        network_speed::speed_format_of(lowered) == NetworkSpeedFormat::Upload <==> lowered
            == "upload"@ || lowered == "ul"@,
{
    reveal_strlit("download");
    reveal_strlit("dl");
    reveal_strlit("upload");
    reveal_strlit("ul");
    assert("download"@.len() == 8);
    assert("upload"@.len() == 6);
    assert("dl"@[0] == 'd');
    assert("ul"@[0] == 'u');
    assert("dl"@.len() == 2);
    assert("ul"@.len() == 2);
}

/// The widget has the parts that its format names, and shows icon and arrows as
/// configured.
pub proof fn law_speed_layout_follows_the_configuration(
    c: NetworkSpeedConfig,
    l: network_speed::SpeedLayout,
)
    requires
        call_ensures(NetworkSpeedConfig::layout, (&c,), l),
    ensures
        l.icon_visible == c.show_icon,
        l.arrows == c.show_arrows,
        l.download <==> c.format != NetworkSpeedFormat::Upload,
        l.upload <==> c.format != NetworkSpeedFormat::Download,
{
}

/// The configuration of the network speed is read option by option. What is not
/// set is shown.
pub proof fn law_speed_configuration_is_read(entry: WidgetEntry, c: NetworkSpeedConfig)
    requires
        call_ensures(NetworkSpeedConfig::from_entry, (&entry,), c),
    ensures
        c.show_icon <==> config::boolean_option(entry.options@, "show_icon"@) != Some(false),
        c.show_arrows <==> config::boolean_option(entry.options@, "show_arrows"@) != Some(false),
        config::text_option(entry.options@, "format"@) is None ==> c.format
            == NetworkSpeedFormat::Both,
        config::text_option(entry.options@, "format"@) matches Some(t) ==> c.format
            == network_speed::speed_format_of(text::lowercase_text(t)),
{
}

// ---------------------------------------------------------------------------
// The keyboard layout
// ---------------------------------------------------------------------------

/// Only the word `long` stands for the long format.
pub proof fn law_layout_format_has_a_name(lowered: Seq<char>)
    ensures
        keyboard_layout::layout_format_of(lowered) == LayoutFormat::Long <==> lowered == "long"@,
{
}

/// The configuration of the layout is read option by option. What is not set is
/// shown, and shown short.
pub proof fn law_layout_configuration_is_read(entry: WidgetEntry, c: KeyboardLayoutConfig)
    requires
        call_ensures(KeyboardLayoutConfig::from_entry, (&entry,), c),
    ensures
        c.show_icon <==> config::boolean_option(entry.options@, "show_icon"@) != Some(false),
        c.show_label <==> config::boolean_option(entry.options@, "show_label"@) != Some(false),
        config::text_option(entry.options@, "format"@) is None ==> c.format == LayoutFormat::Short,
        config::text_option(entry.options@, "format"@) matches Some(t) ==> (c.format
            == LayoutFormat::Long <==> text::lowercase_text(t) == "long"@),
{
}

/// A single word in the last parentheses is the short name, whatever stands
/// before.
pub proof fn law_word_in_parentheses_is_the_short_name(base: Seq<char>, word: Seq<char>)
    requires
        word.len() > 0,
        text_laws::is_trimmed(word),
        !word.contains('('),
        !word.contains(')'),
        !word.contains(' '),
    ensures
        keyboard_layout::short_name_of(base + seq!['('] + word + seq![')']) == ShortView::Known(
            word,
        ),
{
    lemma_parentheses(base, word);
    text_laws::law_trimmed_stays(word);
    text::lemma_index_of(word, ' ');
}

proof fn lemma_parentheses(base: Seq<char>, inner: Seq<char>)
    requires
        !inner.contains('('),
        !inner.contains(')'),
    ensures
        keyboard_layout::parenthesized(base + seq!['('] + inner + seq![')']) == Some(
            (text::trim_spec(base), text::trim_spec(inner)),
        ),
{
    let s = base + seq!['('] + inner + seq![')'];
    let tail = inner + seq![')'];
    assert(s =~= base + seq!['('] + tail);
    assert(!tail.contains('(')) by {
        assert forall|i: int| 0 <= i < tail.len() implies tail[i] != '(' by {
            if i < inner.len() {
                assert(tail[i] == inner[i]);
            }
        }
    }
    text_laws::law_last_is_found(base, '(', tail);
    assert(s.take(base.len() as int) =~= base);
    assert(s.skip(base.len() as int + 1) =~= tail);
    let none = Seq::<char>::empty();
    assert(tail =~= inner + seq![')'] + none);
    text_laws::law_split_at_the_first(inner, ')', none);
    assert(tail.take(inner.len() as int) =~= inner);
}

/// A variant described in several words has the name of its base: it is looked
/// up, and where nothing is found a short base is shown in capitals and a long
/// one as it is.
pub proof fn law_described_variant_goes_by_its_base(base: Seq<char>, inner: Seq<char>)
    requires
        base.len() > 0,
        text_laws::is_trimmed(base),
        inner.len() > 0,
        text_laws::is_trimmed(inner),
        inner.contains(' '),
        !inner.contains('('),
        !inner.contains(')'),
    ensures
        ({
            let short = keyboard_layout::short_name_of(base + seq!['('] + inner + seq![')']);
            &&& short matches ShortView::LookUp { language, otherwise }
            &&& language == base
            &&& otherwise.len() == base.len()
            &&& base.len() > 3 ==> otherwise == base
            &&& base.len() <= 3 && text::all_letters(base) ==> forall|i: int|
                0 <= i < base.len() ==> #[trigger] otherwise[i] == text::ascii_upper(base[i])
        }),
{
    lemma_parentheses(base, inner);
    text_laws::law_trimmed_stays(base);
    text_laws::law_trimmed_stays(inner);
    text::lemma_index_of(inner, ' ');
    let k = choose|k: int| 0 <= k < inner.len() && inner[k] == ' ';
    if text::index_of(inner, ' ') == inner.len() {
        assert(inner[k] != ' ');
    }
}

/// A name without parentheses is looked up as it stands, but for one that looks
/// like a code already: that one is shown in capitals.
pub proof fn law_plain_names_are_looked_up(name: Seq<char>)
    requires
        name.len() > 0,
        !name.contains('('),
    ensures
        ({
            let short = keyboard_layout::short_name_of(name);
            let coded = name.len() <= 3 && text::all_letters(name);
            &&& !coded ==> short == (ShortView::LookUp { language: name, otherwise: name })
            &&& coded ==> {
                &&& short matches ShortView::Known(t)
                &&& t.len() == name.len()
                &&& forall|i: int|
                    0 <= i < t.len() ==> #[trigger] t[i] == text::ascii_upper(name[i])
            }
        }),
{
    let none = Seq::<char>::empty();
    text_laws::law_last_is_found(none, '(', name);
}

/// A layout without a name is shown as a question mark.
pub proof fn law_nameless_layout_is_marked()
    ensures
        keyboard_layout::short_name_of(Seq::empty()) == ShortView::Known("?"@),
{
}

/// A short name that is known needs no table. One that is looked up is what the
/// table says of the language, and the other text where it says nothing.
pub proof fn law_codes_come_from_the_table(
    known: Seq<char>,
    language: Seq<char>,
    otherwise: Seq<char>,
    codes: Map<Seq<char>, String>,
    code: String,
)
    ensures
        keyboard_layout::with_codes(ShortView::Known(known), codes) == known,
        keyboard_layout::with_codes(
            ShortView::LookUp { language, otherwise },
            codes.insert(language, code),
        ) == code@,
        keyboard_layout::with_codes(
            ShortView::LookUp { language, otherwise },
            codes.remove(language),
        ) == otherwise,
{
}

/// Without a short name of the backend's, the short text comes from the layout's
/// name.
pub proof fn law_short_text_comes_from_the_name(
    info: KeyboardLayoutInfo,
    xkb_code: Option<Seq<char>>,
    codes: Map<Seq<char>, String>,
)
    requires
        info.short_name@.len() == 0,
    ensures
        keyboard_layout::layout_text(info, LayoutFormat::Short, xkb_code, codes)
            == keyboard_layout::with_codes(
            keyboard_layout::short_name_of(info.layout_name@),
            codes,
        ),
{
}

/// The widget can be clicked unless there is exactly one layout, and its tooltip
/// names the layout at length.
pub proof fn law_layout_widget_names_the_layout(
    info: KeyboardLayoutInfo,
    format: LayoutFormat,
    xkb_code: Option<&str>,
    codes: NameMap<String>,
    r: LayoutDisplay,
)
    requires
        call_ensures(
            keyboard_layout::update_keyboard_layout_widget,
            (&info, format, xkb_code, &codes),
            r,
        ),
    ensures
        r.clickable <==> !(info.layout_count matches Some(n) && n == 1),
        info.layout_name@.len() > 0 ==> r.tooltip@ == "Keyboard layout: "@ + info.layout_name@,
        info.layout_name@.len() == 0 ==> r.tooltip@ == "Keyboard layout: unknown"@,
        format == LayoutFormat::Long && info.layout_name@.len() > 0 ==> r.text@
            == info.layout_name@,
        format == LayoutFormat::Short && info.short_name@.len() > 0 && xkb_code is Some ==> r.text@
            == xkb_code->0@,
        format == LayoutFormat::Short && info.short_name@.len() > 0 && xkb_code is None ==> r.text@
            == text::uppercase_text(info.short_name@),
{
}

// ---------------------------------------------------------------------------
// Notifications
// ---------------------------------------------------------------------------

/// A notification's age is given in the largest unit that it fills, in whole
/// units, and below a minute not at all.
pub proof fn law_ages_are_given_in_whole_units(n: int, rest: int)
    requires
        n >= 1,
        rest >= 0,
    ensures
        rest < 60 ==> notification_common::timestamp_text(rest) == "Just now"@,
        notification_common::timestamp_text(-n) == "Just now"@,
        n < 60 && rest < 60 ==> notification_common::timestamp_text(60 * n + rest) == text::dec(
            n as nat,
        ) + "m ago"@,
        n < 24 && rest < 3600 ==> notification_common::timestamp_text(3600 * n + rest) == text::dec(
            n as nat,
        ) + "h ago"@,
        n <= i32::MAX && rest < 86400 ==> notification_common::timestamp_text(86400 * n + rest)
            == text::dec(n as nat) + "d ago"@,
{
    if rest < 60 {
        assert((60 * n + rest) / 60 == n) by (nonlinear_arith)
            requires
                0 <= rest < 60,
        ;
    }
    if rest < 3600 {
        assert((3600 * n + rest) / 3600 == n) by (nonlinear_arith)
            requires
                0 <= rest < 3600,
        ;
    }
    if rest < 86400 {
        assert((86400 * n + rest) / 86400 == n) by (nonlinear_arith)
            requires
                0 <= rest < 86400,
        ;
    }
}

/// A body on one line, without blanks around it, is shown as it is up to the
/// limit. Beyond it, the characters up to the limit stay and three dots follow.
pub proof fn law_bodies_are_cut_at_the_limit(body: Seq<char>, max_chars: nat)
    requires
        text_laws::is_trimmed(body),
        !body.contains('\n'),
    ensures
        body.len() <= max_chars ==> notification_common::truncated(body, max_chars) == body,
        body.len() > max_chars ==> {
            let shown = notification_common::truncated(body, max_chars);
            &&& shown.len() == max_chars + 3
            &&& forall|i: int| 0 <= i < max_chars ==> #[trigger] shown[i] == body[i]
            &&& forall|i: int| max_chars <= i < shown.len() ==> #[trigger] shown[i] == '.'
        },
{
    reveal_strlit("...");
    let flat = notification_common::on_one_line(body);
    assert forall|i: int| 0 <= i < body.len() implies flat[i] == body[i] by {
        assert(body.contains(body[i]));
    }
    assert(flat =~= body);
    text_laws::law_trimmed_stays(body);
}

/// A line break is shown as a space.
pub proof fn law_line_breaks_become_spaces(before: Seq<char>, after: Seq<char>, max_chars: nat)
    ensures
        notification_common::truncated(before + seq!['\n'] + after, max_chars)
            == notification_common::truncated(before + seq![' '] + after, max_chars),
{
    assert(notification_common::on_one_line(before + seq!['\n'] + after)
        =~= notification_common::on_one_line(before + seq![' '] + after));
}

/// The boundary of a character is the number of bytes of the ones before it, and
/// there is none beyond the end.
pub proof fn law_boundary_counts_the_bytes_before(before: Seq<char>, after: Seq<char>, n: nat)
    ensures
        notification_common::boundary(before + after, before.len()) == vstd::utf8::encode_utf8(
            before,
        ).len(),
        n >= before.len() ==> notification_common::boundary(before, n) == vstd::utf8::encode_utf8(
            before,
        ).len(),
{
    assert((before + after).take(before.len() as int) =~= before);
    if after.len() == 0 {
        assert(before + after =~= before);
    }
}

/// A file URI names the path behind its scheme, a path names itself, and any
/// other text is the name of an icon.
pub proof fn law_pictures_are_named_by_path_or_icon(s: Seq<char>)
    ensures
        notification_common::source_of("file://"@ + s) == SourceView::File(s),
        notification_common::source_of(seq!['/'] + s) == SourceView::File(seq!['/'] + s),
        (s.len() == 0 || s[0] != '/') && (forall|t: Seq<char>| s != #[trigger] ("file://"@ + t))
            ==> notification_common::source_of(s) == SourceView::IconName(s),
{
    reveal_strlit("file://");
    reveal_strlit("/");
    let uri = "file://"@ + s;
    assert("file://"@.len() == 7);
    assert(uri.take(7) =~= "file://"@);
    assert(uri.skip(7) =~= s);
    let path = seq!['/'] + s;
    assert(path.take(1) =~= "/"@);
    if 7 <= path.len() {
        assert(path.take(7)[0] == '/');
        assert("file://"@[0] == 'f');
    }
    if 7 <= s.len() && s.take(7) == "file://"@ {
        assert(s =~= "file://"@ + s.skip(7));
    }
    if 1 <= s.len() {
        assert(s.take(1)[0] == s[0]);
        assert("/"@[0] == '/');
    }
}

/// The icon of a notification is the one that comes with it, whatever else is
/// known. Without one, the desktop entry is looked up, and without that the
/// application by its name.
pub proof fn law_icons_are_chosen_in_order(
    icon: Seq<char>,
    name: Seq<char>,
    entry: Option<Seq<char>>,
)
    ensures
        icon.len() > 0 ==> notification_common::icon_choice(icon, name, entry) == ChoiceView::Known(
            icon,
        ),
        icon.len() == 0 && entry is Some ==> notification_common::icon_choice(icon, name, entry)
            == ChoiceView::LookUp(entry->0),
        icon.len() == 0 && entry is None && name.len() > 0 ==> notification_common::icon_choice(
            icon,
            name,
            entry,
        ) == ChoiceView::LookUp(name),
        icon.len() == 0 && entry is None && name.len() == 0 ==> notification_common::icon_choice(
            icon,
            name,
            entry,
        ) == ChoiceView::Known("dialog-information-symbolic"@),
        icon.len() > 0 ==> notification_common::or_fallback(icon) == icon,
        icon.len() == 0 ==> notification_common::or_fallback(icon)
            == "dialog-information-symbolic"@,
{
}

/// A picture is shown exactly where it has an area and bytes, with transparency
/// exactly where it says so and has a channel for it.
pub proof fn law_pictures_need_an_area(img: ImageInfo)
    ensures
        notification_common::pixel_format(img) is Some <==> img.width > 0 && img.height > 0
            && img.bytes > 0,
        notification_common::pixel_format(img) matches Some(f) ==> (f == PixelFormat::Rgba
            <==> img.has_alpha && img.channels == 4),
{
}

/// A picture that comes as pixels goes before one that is named, and both go
/// before an icon. A picture that holds nothing counts as none.
pub proof fn law_pictures_go_before_icons(
    image: Option<ImageInfo>,
    path: Option<&str>,
    icon: &str,
    name: &str,
    entry: Option<&str>,
    r: ImagePlan,
)
    requires
        call_ensures(
            notification_common::plan_notification_image,
            (image, path, icon, name, entry),
            r,
        ),
    ensures
        r is Pixels <==> image is Some && image->0.width > 0 && image->0.height > 0
            && image->0.bytes > 0,
        r is Pixels ==> (r->Pixels_0 == PixelFormat::Rgba <==> image->0.has_alpha
            && image->0.channels == 4),
        r is Source <==> r !is Pixels && path is Some,
        r is Icon <==> r !is Pixels && path is None,
        r is Source ==> (path->0@.len() > 0 && path->0@[0] == '/' ==> r->Source_0@
            == SourceView::File(path->0@)),
        r is Icon && icon@.len() > 0 ==> r->Icon_0@ == ChoiceView::Known(icon@),
        r is Icon && icon@.len() == 0 && entry is Some ==> r->Icon_0@ == ChoiceView::LookUp(
            entry->0@,
        ),
        r is Icon && icon@.len() == 0 && entry is None && name@.len() > 0 ==> r->Icon_0@
            == ChoiceView::LookUp(name@),
        r is Icon && icon@.len() == 0 && entry is None && name@.len() == 0 ==> r->Icon_0@
            == ChoiceView::Known("dialog-information-symbolic"@),
{
    if path is Some && path->0@.len() > 0 && path->0@[0] == '/' {
        law_pictures_are_named_by_path_or_icon(path->0@.skip(1));
        assert(seq!['/'] + path->0@.skip(1) =~= path->0@);
    }
    law_icons_are_chosen_in_order(icon@, name@, text::opt_view(entry));
}

// ---------------------------------------------------------------------------
// Custom commands
// ---------------------------------------------------------------------------

/// The configuration of a custom widget is read option by option, each under its
/// own name.
pub proof fn law_custom_configuration_is_read(m: OptionMap)
    ensures
        ({
            let c = custom::custom_config(m);
            &&& c.icon == config::text_option(m, "icon"@)
            &&& c.command == config::text_option(m, "exec"@)
            &&& c.template == config::text_option(m, "template"@)
            &&& c.on_click == config::text_option(m, "on_click"@)
            &&& c.tooltip == config::text_option(m, "tooltip"@)
            &&& config::text_option(m, "label"@) matches Some(t) ==> c.label == t
            &&& config::text_option(m, "label"@) is None ==> c.label.len() == 0
            &&& config::integer_option(m, "interval"@) matches Some(n) ==> (n >= 0
                ==> c.interval == n)
            &&& config::integer_option(m, "interval"@) matches Some(n) ==> (n < 0
                ==> c.interval == 0)
            &&& config::integer_option(m, "interval"@) is None ==> c.interval == 0
            &&& config::integer_option(m, "max_chars"@) is None <==> c.max_chars is None
        }),
{
}

/// A limit on the label's length is kept where it can be, and is never below one
/// character.
pub proof fn law_label_limit_is_kept(n: i64)
    ensures
        custom::max_chars_of(Some(n)) matches Some(limit) && limit >= 1,
        1 <= n <= i32::MAX ==> custom::max_chars_of(Some(n))->0 == n,
        n < 1 ==> custom::max_chars_of(Some(n))->0 == 1,
        n > i32::MAX ==> custom::max_chars_of(Some(n))->0 == i32::MAX,
{
}

/// A custom widget is put together from its configuration: its style class from
/// its name, its command with label and template, its click, icon and tooltip.
pub proof fn law_custom_widget_is_as_configured(
    plan: CustomPlan,
    id: Seq<char>,
    c: CustomView,
    show_if: Option<Seq<char>>,
    timed: bool,
)
    requires
        plan.is_plan(id, c, show_if, timed),
    ensures
        plan.css_class@ == "custom-"@ + id,
        plan.clickable <==> c.on_click is Some,
        plan.on_click is Some <==> c.on_click is Some,
        plan.on_click matches Some(t) ==> c.on_click == Some(t@),
        plan.icon is Some <==> c.icon is Some,
        plan.icon matches Some(t) ==> c.icon == Some(t@),
        plan.tooltip is Some <==> c.tooltip is Some,
        plan.tooltip matches Some(t) ==> c.tooltip == Some(t@),
        plan.label is Some <==> c.label.len() > 0 || c.command is Some,
        plan.label matches Some(l) ==> {
            &&& l.max_chars == c.max_chars
            &&& l.text is Some <==> c.label.len() > 0
            &&& l.text is Some ==> l.text->0@ == c.label
        },
        plan.command is Some <==> c.command is Some,
        plan.command matches Some(e) ==> {
            &&& c.command == Some(e.cmd@)
            &&& e.fallback@ == c.label
            &&& e.template is Some <==> c.template is Some
            &&& e.template is Some ==> c.template == Some(e.template->0@)
        },
{
}

/// The command runs again after its interval, as far as a timer can hold it, and
/// only once without one.
pub proof fn law_command_runs_at_its_interval(
    plan: CustomPlan,
    id: Seq<char>,
    c: CustomView,
    show_if: Option<Seq<char>>,
    timed: bool,
)
    requires
        plan.is_plan(id, c, show_if, timed),
        c.command is Some,
    ensures
        c.interval == 0 <==> plan.command->0.period is None,
        0 < c.interval <= u32::MAX ==> plan.command->0.period is Some
            && plan.command->0.period->0 == c.interval,
        c.interval > u32::MAX ==> plan.command->0.period == Some(u32::MAX),
{
}

/// The condition for showing the widget is checked before each run exactly where
/// there is a condition and runs repeat. An interval that has no use is warned of.
pub proof fn law_condition_is_checked_before_each_run(
    plan: CustomPlan,
    id: Seq<char>,
    c: CustomView,
    show_if: Option<Seq<char>>,
    timed: bool,
)
    requires
        plan.is_plan(id, c, show_if, timed),
    ensures
        plan.piggyback <==> show_if is Some && c.command is Some && c.interval > 0,
        plan.piggyback ==> plan.command->0.gate is Some && show_if == Some(
            plan.command->0.gate->0@,
        ),
        !plan.piggyback && plan.command is Some ==> plan.command->0.gate is None,
        plan.warn_show_if_interval <==> plan.piggyback && timed,
        plan.warn_interval <==> c.interval > 0 && c.command is None,
{
}

/// The first line of an output ends with the first line break, and is all of an
/// output that has none.
pub proof fn law_first_line_ends_at_the_first_break(line: Seq<u8>, rest: Seq<u8>)
    requires
        !line.contains(10u8),
    ensures
        custom::first_line(line + seq![10u8] + rest) == line + seq![10u8],
        custom::first_line(line) == line,
    decreases line.len(),
{
    let whole = line + seq![10u8] + rest;
    if line.len() > 0 {
        let shorter = line.drop_first();
        assert(line.contains(line[0]));
        assert(!shorter.contains(10u8)) by {
            assert forall|i: int| 0 <= i < shorter.len() implies shorter[i] != 10 by {
                assert(shorter[i] == line[i + 1]);
                assert(line.contains(line[i + 1]));
            }
        }
        law_first_line_ends_at_the_first_break(shorter, rest);
        assert(whole.drop_first() =~= shorter + seq![10u8] + rest);
        assert(whole[0] == line[0]);
        assert(seq![line[0]] + (shorter + seq![10u8]) =~= line + seq![10u8]);
        assert(seq![line[0]] + shorter =~= line);
    } else {
        assert(whole[0] == 10);
        assert(line + seq![10u8] =~= seq![10u8]);
        assert(line =~= Seq::<u8>::empty());
    }
}

/// A run gives a text exactly where the command ended with success. Otherwise it
/// gives the reason.
pub proof fn law_runs_give_text_or_reason(end: ExecEnd)
    ensures
        custom::exec_result(end) is Ok <==> (end matches ExecEnd::Ended { status, stdout }
            && status.code == Some(0i32)),
        end matches ExecEnd::NotSpawned(m) ==> custom::exec_result(end) == Err::<
            Seq<char>,
            Seq<char>,
        >("Failed to spawn: "@ + m@),
        end matches ExecEnd::NotAwaited(m) ==> custom::exec_result(end) == Err::<
            Seq<char>,
            Seq<char>,
        >("Wait failed: "@ + m@),
        end matches ExecEnd::Ended { status, stdout } ==> (status.code != Some(0i32)
            && status.signal == Some(9i32) ==> custom::exec_result(end) == Err::<
            Seq<char>,
            Seq<char>,
        >("Command timed out after "@ + text::dec(10) + "s"@)),
{
}

/// A successful run gives the text of the first line of the output, and no text
/// where that line is none.
pub proof fn law_successful_run_gives_its_first_line(
    end: ExecEnd,
    line: Seq<u8>,
    rest: Seq<u8>,
)
    requires
        end matches ExecEnd::Ended { status, stdout } && status.code == Some(0i32) && stdout@
            == line + seq![10u8] + rest,
        !line.contains(10u8),
    ensures
        vstd::utf8::valid_utf8(line + seq![10u8]) ==> custom::exec_result(end) == Ok::<
            Seq<char>,
            Seq<char>,
        >(vstd::utf8::decode_utf8(line + seq![10u8])),
        !vstd::utf8::valid_utf8(line + seq![10u8]) ==> custom::exec_result(end) == Ok::<
            Seq<char>,
            Seq<char>,
        >(Seq::<char>::empty()),
{
    law_first_line_ends_at_the_first_break(line, rest);
}

/// What a command prints is shown without the white space around it. A template
/// puts it where the placeholder stands and keeps the rest.
pub proof fn law_output_is_shown(
    blank: Seq<char>,
    output: Seq<char>,
    end: Seq<char>,
    fallback: Seq<char>,
    a: Seq<char>,
    b: Seq<char>,
)
    requires
        text_laws::all_spaces(blank),
        text_laws::all_spaces(end),
        text_laws::is_trimmed(output),
        output.len() > 0,
    ensures
        ({
            let result = Ok::<Seq<char>, Seq<char>>(blank + output + end);
            &&& custom::exec_label(result, fallback, None) == Some(output)
            &&& custom::exec_visible(result, fallback) == Some(true)
            &&& text::stands_once(a + "{output}"@ + b, "{output}"@, a.len() as int)
                ==> custom::exec_label(result, fallback, Some(a + "{output}"@ + b)) == Some(
                a + output + b,
            )
        }),
{
    text_laws::law_trimming(blank, output, end);
    reveal_strlit("{output}");
    if text::stands_once(a + "{output}"@ + b, "{output}"@, a.len() as int) {
        text::lemma_replaced_once(a, "{output}"@, b, output);
    }
}

/// A command that prints nothing brings the label of the configuration back. The
/// widget hides where there is none, and otherwise stays as it is.
pub proof fn law_empty_output_brings_the_label_back(
    blank: Seq<char>,
    fallback: Seq<char>,
    template: Option<Seq<char>>,
)
    requires
        text_laws::all_spaces(blank),
    ensures
        ({
            let result = Ok::<Seq<char>, Seq<char>>(blank);
            &&& custom::exec_label(result, fallback, template) == Some(fallback)
            &&& fallback.len() == 0 ==> custom::exec_visible(result, fallback) == Some(false)
            &&& fallback.len() > 0 ==> custom::exec_visible(result, fallback) is None
        }),
{
    let none = Seq::<char>::empty();
    text_laws::law_trimming(blank, none, none);
    assert(blank + none + none =~= blank);
}

/// A run begins with the check of the condition, where there is one, and not at
/// all without a label.
pub proof fn law_runs_begin_with_the_check(has_label: bool, gate: Option<&str>, r: custom::ExecStep)
    requires
        call_ensures(custom::start_exec, (has_label, gate), r),
    ensures
        !has_label <==> r@ == custom::ExecStepView::Nothing,
        has_label && gate is None ==> r@ == custom::ExecStepView::Run,
        has_label && gate is Some ==> r@ == custom::ExecStepView::CheckGate(gate->0@),
{
}

/// The widget shows and its command runs exactly where the condition holds.
pub proof fn law_condition_decides(wanted: Option<bool>, r: custom::AfterGate)
    requires
        call_ensures(custom::after_gate, (wanted,), r),
    ensures
        r.visible <==> wanted == Some(true),
        r.step@ == custom::ExecStepView::Run <==> wanted == Some(true),
        r.step@ == custom::ExecStepView::Nothing <==> wanted != Some(true),
{
}

/// A click runs the click's command, and then the widget's own, which is not
/// checked first.
pub proof fn law_click_runs_its_command(plan: CustomPlan, r: Option<custom::ClickRun>)
    requires
        call_ensures(CustomPlan::on_primary_click, (&plan,), r),
    ensures
        r is Some <==> plan.on_click is Some,
        r matches Some(c) ==> c.cmd@ == plan.on_click->0@,
        r matches Some(c) ==> (c.follow_up@ == custom::ExecStepView::Run <==> plan.command is Some
            && plan.label is Some),
        r matches Some(c) ==> !(c.follow_up@ is CheckGate),
{
}

} // verus!
