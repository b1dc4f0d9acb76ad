//! The keyboard layout widget.

use vstd::prelude::*;
use vstd::string::*;

use crate::config;
use crate::config::WidgetEntry;
use crate::names::NameMap;
use crate::text;

verus! {

/// How the layout is shown.
#[derive(Debug, Clone, Copy, PartialEq, Eq, Structural)]
pub enum LayoutFormat {
    /// A short code: `US` for `English (US)`.
    Short,
    /// The name as the compositor gives it.
    Long,
}

impl Default for LayoutFormat {
    fn default() -> (f: Self)
        ensures
            f == LayoutFormat::Short,
    {
        LayoutFormat::Short
    }
}

/// The format of a name in small letters.
pub open spec fn layout_format_of(lowered: Seq<char>) -> LayoutFormat {
    if lowered == "long"@ {
        LayoutFormat::Long
    } else {
        LayoutFormat::Short
    }
}

impl LayoutFormat {
    /// The format of a name in small letters.
    pub fn from_lowered(lowered: &str) -> (f: Self)
        ensures
            f == layout_format_of(lowered@),
    {
        if text::str_eq(lowered, "long") {
            LayoutFormat::Long
        } else {
            LayoutFormat::Short
        }
    }

    /// The format of a name, whatever its case.
    pub fn parse(s: &str) -> (f: Self)
        ensures
            f == layout_format_of(text::lowercase_text(s@)),
    {
        Self::from_lowered(text::lowercase(s).as_str())
    }
}

#[derive(Debug, Clone, Copy)]
pub struct KeyboardLayoutConfig {
    pub show_icon: bool,
    pub show_label: bool,
    pub format: LayoutFormat,
}

impl Default for KeyboardLayoutConfig {
    fn default() -> (c: Self)
        ensures
            c == (KeyboardLayoutConfig {
                show_icon: true,
                show_label: true,
                format: LayoutFormat::Short,
            }),
    {
        KeyboardLayoutConfig { show_icon: true, show_label: true, format: LayoutFormat::Short }
    }
}

impl KeyboardLayoutConfig {
    /// Reads the configuration; what is absent has its default.
    pub fn from_entry(entry: &WidgetEntry) -> (c: Self)
        ensures
            c.show_icon == config::boolean_or(entry.options@, "show_icon"@, true),
            c.show_label == config::boolean_or(entry.options@, "show_label"@, true),
            c.format == match config::text_option(entry.options@, "format"@) {
                Some(s) => layout_format_of(text::lowercase_text(s)),
                None => LayoutFormat::Short,
            },
    {
        let format = match entry.text("format") {
            Some(s) => LayoutFormat::parse(s),
            None => LayoutFormat::Short,
        };
        KeyboardLayoutConfig {
            show_icon: entry.boolean_or("show_icon", true),
            show_label: entry.boolean_or("show_label", true),
            format,
        }
    }
}

/// A short code for a layout name: known, or to be looked up by language with
/// a text for the case that nothing is found.
#[derive(Debug)]
pub enum ShortName {
    Known(String),
    LookUp { language: String, otherwise: String },
}

pub enum ShortView {
    Known(Seq<char>),
    LookUp { language: Seq<char>, otherwise: Seq<char> },
}

impl View for ShortName {
    type V = ShortView;

    open spec fn view(&self) -> ShortView {
        match self {
            ShortName::Known(s) => ShortView::Known(s@),
            ShortName::LookUp { language, otherwise } => ShortView::LookUp {
                language: language@,
                otherwise: otherwise@,
            },
        }
    }
}

pub open spec fn has_char(s: Seq<char>, c: char) -> bool {
    text::index_of(s, c) < s.len()
}

/// What stands before the last `(` and what stands between it and the next
/// `)`, without blanks around them.
pub open spec fn parenthesized(s: Seq<char>) -> Option<(Seq<char>, Seq<char>)> {
    let open = text::last_index_of(s, '(');
    if open < 0 {
        None
    } else {
        let rest = s.skip(open + 1);
        if has_char(rest, ')') {
            Some(
                (
                    text::trim_spec(s.take(open)),
                    text::trim_spec(rest.take(text::index_of(rest, ')'))),
                ),
            )
        } else {
            None
        }
    }
}

/// Whether a text looks like a code: up to three ASCII letters.
pub open spec fn is_code(s: Seq<char>) -> bool {
    s.len() <= 3 && text::all_letters(s)
}

pub open spec fn in_capitals(s: Seq<char>) -> Seq<char> {
    s.map_values(|c: char| text::ascii_upper(c))
}

/// The short name of a base name in front of a variant description.
pub open spec fn base_name(base: Seq<char>) -> ShortView {
    ShortView::LookUp {
        language: base,
        otherwise: if is_code(base) {
            in_capitals(base)
        } else {
            base
        },
    }
}

/// The short name of a layout that does not end in something in parentheses.
pub open spec fn plain_name(s: Seq<char>) -> ShortView {
    if is_code(s) {
        ShortView::Known(in_capitals(s))
    } else {
        ShortView::LookUp { language: s, otherwise: s }
    }
}

/// The short name of a layout: a single word in parentheses; else, for a
/// variant described in several words, what its base name gives; else what the
/// whole name gives.
pub open spec fn short_name_of(s: Seq<char>) -> ShortView {
    if s.len() == 0 {
        ShortView::Known("?"@)
    } else {
        match parenthesized(s) {
            Some((base, inner)) => if inner.len() == 0 {
                plain_name(s)
            } else if !has_char(inner, ' ') {
                ShortView::Known(inner)
            } else if base.len() > 0 {
                base_name(base)
            } else {
                plain_name(s)
            },
            None => plain_name(s),
        }
    }
}

fn capitals(s: &str) -> (r: String)
    requires
        text::all_letters(s@),
    ensures
        r@ == in_capitals(s@),
{
    assert(text::all_ascii(s@));
    text::uppercase(s)
}

fn looks_like_code(s: &str) -> (r: bool)
    ensures
        r == is_code(s@),
{
    s.unicode_len() <= 3 && text::is_alphabetic(s)
}

fn find_parenthesized<'a>(s: &'a str) -> (r: Option<(&'a str, &'a str)>)
    ensures
        text::pair_view(r) == parenthesized(s@),
{
    let open = match text::rfind_char(s, '(') {
        Some(k) => k,
        None => {
            return None;
        },
    };
    let n = s.unicode_len();
    let rest = s.substring_char(open + 1, n);
    assert(rest@ =~= s@.skip(open + 1));
    match text::find_char(rest, ')') {
        Some(k) => {
            let before = s.substring_char(0, open);
            let inner = rest.substring_char(0, k);
            assert(before@ =~= s@.take(open as int));
            assert(inner@ =~= rest@.take(k as int));
            Some((text::trim(before), text::trim(inner)))
        },
        None => None,
    }
}

fn plain_short_name(s: &str) -> (r: ShortName)
    ensures
        r@ == plain_name(s@),
{
    if looks_like_code(s) {
        ShortName::Known(capitals(s))
    } else {
        ShortName::LookUp { language: s.to_string(), otherwise: s.to_string() }
    }
}

/// The short name of a layout, or what has to be looked up for it.
pub fn short_name(layout_name: &str) -> (r: ShortName)
    ensures
        r@ == short_name_of(layout_name@),
{
    if layout_name.unicode_len() == 0 {
        return ShortName::Known("?".to_string());
    }
    match find_parenthesized(layout_name) {
        Some((base, inner)) => {
            if inner.unicode_len() > 0 {
                if text::find_char(inner, ' ').is_none() {
                    return ShortName::Known(inner.to_string());
                }
                if base.unicode_len() > 0 {
                    let otherwise = if looks_like_code(base) {
                        capitals(base)
                    } else {
                        base.to_string()
                    };
                    return ShortName::LookUp { language: base.to_string(), otherwise };
                }
            }
        },
        None => {},
    }
    plain_short_name(layout_name)
}

/// A short name once a table of language codes is at hand.
pub open spec fn with_codes(v: ShortView, codes: Map<Seq<char>, String>) -> Seq<char> {
    match v {
        ShortView::Known(s) => s,
        ShortView::LookUp { language, otherwise } => if codes.dom().contains(language) {
            codes[language]@
        } else {
            otherwise
        },
    }
}

/// The short name of a layout, with language codes from a table.
pub fn extract_short_name(layout_name: &str, codes: &NameMap<String>) -> (r: String)
    ensures
        r@ == with_codes(short_name_of(layout_name@), codes@),
{
    match short_name(layout_name) {
        ShortName::Known(s) => s,
        ShortName::LookUp { language, otherwise } => match codes.get(language.as_str()) {
            Some(code) => code.clone(),
            None => otherwise,
        },
    }
}

/// What the compositor says of the layout.
#[derive(Debug)]
pub struct KeyboardLayoutInfo {
    pub layout_name: String,
    /// The code of the layout where the backend knows it.
    pub short_name: String,
    pub layout_count: Option<u32>,
}

/// What the widget shows.
#[derive(Debug)]
pub struct LayoutDisplay {
    /// There is another layout to go to.
    pub clickable: bool,
    pub text: String,
    pub tooltip: String,
}

/// The text shown. `xkb_code` is the code found for the backend's own.
pub open spec fn layout_text(
    info: KeyboardLayoutInfo,
    format: LayoutFormat,
    xkb_code: Option<Seq<char>>,
    codes: Map<Seq<char>, String>,
) -> Seq<char> {
    match format {
        LayoutFormat::Long => if info.layout_name@.len() == 0 {
            "?"@
        } else {
            info.layout_name@
        },
        LayoutFormat::Short => if info.short_name@.len() > 0 {
            match xkb_code {
                Some(c) => c,
                None => text::uppercase_text(info.short_name@),
            }
        } else {
            with_codes(short_name_of(info.layout_name@), codes)
        },
    }
}

pub open spec fn layout_tooltip(name: Seq<char>) -> Seq<char> {
    if name.len() == 0 {
        "Keyboard layout: unknown"@
    } else {
        "Keyboard layout: "@ + name
    }
}

/// What the widget shows for a layout.
pub fn update_keyboard_layout_widget(
    info: &KeyboardLayoutInfo,
    format: LayoutFormat,
    xkb_code: Option<&str>,
    codes: &NameMap<String>,
) -> (r: LayoutDisplay)
    ensures
        r.clickable == (info.layout_count != Some(1u32)),
        r.text@ == layout_text(*info, format, text::opt_view(xkb_code), codes@),
        r.tooltip@ == layout_tooltip(info.layout_name@),
{
    let clickable = match info.layout_count {
        Some(n) => n != 1,
        None => true,
    };
    let unnamed = info.layout_name.as_str().unicode_len() == 0;
    let text = match format {
        LayoutFormat::Long => if unnamed {
            "?".to_string()
        } else {
            info.layout_name.clone()
        },
        LayoutFormat::Short => if info.short_name.as_str().unicode_len() > 0 {
            match xkb_code {
                Some(c) => c.to_string(),
                None => text::uppercase(info.short_name.as_str()),
            }
        } else {
            extract_short_name(info.layout_name.as_str(), codes)
        },
    };
    let tooltip = if unnamed {
        "Keyboard layout: unknown".to_string()
    } else {
        let mut t = "Keyboard layout: ".to_string();
        t.append(info.layout_name.as_str());
        t
    };
    LayoutDisplay { clickable, text, tooltip }
}

/// In the short format, where the backend gives a short name, the text is the code
/// found for it, else the short name in capitals. What the layout is called at
/// length makes no difference.
pub proof fn law_short_name_decides_the_short_text(
    info: KeyboardLayoutInfo,
    other: KeyboardLayoutInfo,
    xkb_code: Option<Seq<char>>,
    codes: Map<Seq<char>, String>,
    other_codes: Map<Seq<char>, String>,
)
    requires
        info.short_name@.len() > 0,
        other.short_name@ == info.short_name@,
    ensures
        ({
            let shown = layout_text(info, LayoutFormat::Short, xkb_code, codes);
            &&& xkb_code matches Some(c) ==> shown == c
            &&& xkb_code is None ==> shown == text::uppercase_text(info.short_name@)
            &&& shown == layout_text(other, LayoutFormat::Short, xkb_code, other_codes)
        }),
{
}

/// In the long format the text is the name as the compositor gives it, whatever
/// codes there are, and a question mark where there is none.
pub proof fn law_long_text_is_the_name(
    info: KeyboardLayoutInfo,
    xkb_code: Option<Seq<char>>,
    codes: Map<Seq<char>, String>,
)
    ensures
        ({
            let shown = layout_text(info, LayoutFormat::Long, xkb_code, codes);
            &&& info.layout_name@.len() > 0 ==> shown == info.layout_name@
            &&& info.layout_name@.len() == 0 ==> shown == seq!['?']
        }),
{
    reveal_strlit("?");
    assert("?"@ =~= seq!['?']);
}

} // verus!
