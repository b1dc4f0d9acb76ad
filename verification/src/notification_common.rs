//! What notification toasts and the notification popover have in common.

use vstd::prelude::*;
use vstd::string::*;

use crate::text;

verus! {

/// How long a toast stays, in milliseconds.
pub const TOAST_TIMEOUT_MS: u32 = 5000;

/// Critical notifications stay until they are dismissed.
pub const TOAST_TIMEOUT_CRITICAL_MS: u32 = 0;

/// Estimated height of a toast, for stacking.
pub const TOAST_ESTIMATED_HEIGHT: i32 = 85;

pub const TOAST_GAP: i32 = 4;

pub const TOAST_MARGIN_TOP: i32 = 10;

pub const TOAST_MARGIN_RIGHT: i32 = 10;

pub const POPOVER_WIDTH: i32 = 400;

pub const POPOVER_ROW_HEIGHT: i32 = 100;

pub const POPOVER_MAX_VISIBLE_ROWS: i32 = 3;

/// Bodies up to this many characters are shown in full.
pub const BODY_TRUNCATE_THRESHOLD: usize = 80;

pub const NOTIFICATION_ICON_SIZE: i32 = 48;

/// The icon where none is known.
pub const FALLBACK_ICON: &'static str = "dialog-information-symbolic";

pub const FILE_URI: &'static str = "file://";

/// `n`, or the largest `i32` where `n` is larger.
pub open spec fn capped(n: int) -> nat {
    if n > i32::MAX {
        i32::MAX as nat
    } else {
        n as nat
    }
}

/// A time in the past as it is shown, from whole seconds.
pub open spec fn timestamp_text(seconds_ago: int) -> Seq<char> {
    if seconds_ago < 60 {
        "Just now"@
    } else if seconds_ago < 3600 {
        text::dec(capped(seconds_ago / 60)) + "m ago"@
    } else if seconds_ago < 86400 {
        text::dec(capped(seconds_ago / 3600)) + "h ago"@
    } else {
        text::dec(capped(seconds_ago / 86400)) + "d ago"@
    }
}

/// A time in the past as it is shown. A time to come counts as now.
pub fn format_timestamp(seconds_ago: i64) -> (r: String)
    ensures
        r@ == timestamp_text(seconds_ago as int),
{
    if seconds_ago < 60 {
        return "Just now".to_string();
    }
    let (unit, suffix): (i64, &str) = if seconds_ago < 3600 {
        (60, "m ago")
    } else if seconds_ago < 86400 {
        (3600, "h ago")
    } else {
        (86400, "d ago")
    };
    let whole: i64 = seconds_ago / unit;
    let n: i64 = if whole > 0x7fff_ffff {
        0x7fff_ffff
    } else {
        whole
    };
    let mut r = text::decimal(n as u64);
    r.append(suffix);
    r
}

/// A line break as a space.
pub open spec fn on_one_line(s: Seq<char>) -> Seq<char> {
    s.map_values(
        |c: char|
            if c == '\n' {
                ' '
            } else {
                c
            },
    )
}

/// A body as it is shown when collapsed: on one line, without blanks around
/// it, and cut after `max_chars` characters.
pub open spec fn truncated(body: Seq<char>, max_chars: nat) -> Seq<char> {
    let t = text::trim_spec(on_one_line(body));
    if t.len() > max_chars {
        t.take(max_chars as int) + "..."@
    } else {
        t
    }
}

fn join_lines(s: &str) -> (r: String)
    ensures
        r@ == on_one_line(s@),
{
    let n: usize = s.unicode_len();
    let mut r = String::new();
    let mut i: usize = 0;
    assert(r@ =~= on_one_line(s@).take(0));
    while i < n
        invariant
            n == s@.len(),
            i <= n,
            r@ == on_one_line(s@).take(i as int),
        decreases n - i,
    {
        let c = s.get_char(i);
        if c == '\n' {
            r.append(" ");
            proof {
                reveal_strlit(" ");
            }
        } else {
            r.append(s.substring_char(i, i + 1));
        }
        assert(r@ =~= on_one_line(s@).take(i + 1));
        i += 1;
    }
    assert(on_one_line(s@).take(n as int) =~= on_one_line(s@));
    r
}

/// Shortens a body for display, by characters.
pub fn truncate_body(body: &str, max_chars: usize) -> (r: String)
    ensures
        r@ == truncated(body@, max_chars as nat),
{
    let joined = join_lines(body);
    let t = text::trim(joined.as_str());
    if t.unicode_len() > max_chars {
        let mut r = t.substring_char(0, max_chars).to_string();
        assert(t@.subrange(0, max_chars as int) =~= t@.take(max_chars as int));
        r.append("...");
        r
    } else {
        t.to_string()
    }
}

proof fn lemma_trim_within(s: Seq<char>, c: char)
    requires
        !s.contains(c),
    ensures
        !text::trim_spec(s).contains(c),
{
    lemma_trim_start_within(s, c);
    lemma_trim_end_within(text::trim_start_spec(s), c);
}

proof fn lemma_trim_start_within(s: Seq<char>, c: char)
    requires
        !s.contains(c),
    ensures
        !text::trim_start_spec(s).contains(c),
    decreases s.len(),
{
    if s.len() > 0 && text::is_space(s[0]) {
        assert forall|i: int| 0 <= i < s.drop_first().len() implies s.drop_first()[i] != c by {
            assert(s.drop_first()[i] == s[i + 1]);
        }
        lemma_trim_start_within(s.drop_first(), c);
    }
}

proof fn lemma_trim_end_within(s: Seq<char>, c: char)
    requires
        !s.contains(c),
    ensures
        !text::trim_end_spec(s).contains(c),
    decreases s.len(),
{
    if s.len() > 0 && text::is_space(s.last()) {
        assert forall|i: int| 0 <= i < s.drop_last().len() implies s.drop_last()[i] != c by {
            assert(s.drop_last()[i] == s[i]);
        }
        lemma_trim_end_within(s.drop_last(), c);
    }
}

/// A shortened body is one line, and no longer than the limit and the three
/// dots.
pub proof fn law_truncated_body_is_short_and_on_one_line(body: Seq<char>, max_chars: nat)
    ensures
        truncated(body, max_chars).len() <= max_chars + 3,
        !truncated(body, max_chars).contains('\n'),
{
    let flat = on_one_line(body);
    assert(!flat.contains('\n')) by {
        assert forall|i: int| 0 <= i < flat.len() implies flat[i] != '\n' by {}
    }
    lemma_trim_within(flat, '\n');
    reveal_strlit("...");
    let t = text::trim_spec(flat);
    let r = truncated(body, max_chars);
    assert forall|i: int| 0 <= i < r.len() implies r[i] != '\n' by {
        if i < t.len() {
            assert(t.contains(t[i]));
        }
    }
}

/// The number of bytes of the first `n` characters, or of all where there are
/// fewer.
pub open spec fn boundary(s: Seq<char>, n: nat) -> nat {
    vstd::utf8::encode_utf8(
        if n < s.len() {
            s.take(n as int)
        } else {
            s
        },
    ).len()
}

/// The byte at which a character starts, or the length where there are fewer
/// characters.
pub fn char_boundary(s: &str, char_index: usize) -> (r: usize)
    ensures
        r == boundary(s@, char_index as nat),
{
    if char_index < s.unicode_len() {
        assert(s@.subrange(0, char_index as int) =~= s@.take(char_index as int));
        s.substring_char(0, char_index).as_bytes().len()
    } else {
        s.as_bytes().len()
    }
}

/// Where a picture comes from.
#[derive(Debug)]
pub enum ImageSource {
    File(String),
    IconName(String),
}

pub enum SourceView {
    File(Seq<char>),
    IconName(Seq<char>),
}

impl View for ImageSource {
    type V = SourceView;

    open spec fn view(&self) -> SourceView {
        match self {
            ImageSource::File(p) => SourceView::File(p@),
            ImageSource::IconName(n) => SourceView::IconName(n@),
        }
    }
}

/// A file URI and an absolute path name a file; anything else is the name of
/// an icon.
pub open spec fn source_of(s: Seq<char>) -> SourceView {
    if text::has_prefix(s, FILE_URI@) {
        SourceView::File(s.skip(FILE_URI@.len() as int))
    } else if text::has_prefix(s, "/"@) {
        SourceView::File(s)
    } else {
        SourceView::IconName(s)
    }
}

/// Says whether a text names a file or an icon.
pub fn image_source(s: &str) -> (r: ImageSource)
    ensures
        r@ == source_of(s@),
{
    match text::strip_prefix(s, FILE_URI) {
        Some(rest) => ImageSource::File(rest.to_string()),
        None => if text::starts_with(s, "/") {
            ImageSource::File(s.to_string())
        } else {
            ImageSource::IconName(s.to_string())
        },
    }
}

/// An icon that is known, or one to be looked up for an application.
#[derive(Debug)]
pub enum IconChoice {
    Known(String),
    LookUp(String),
}

pub enum ChoiceView {
    Known(Seq<char>),
    LookUp(Seq<char>),
}

impl View for IconChoice {
    type V = ChoiceView;

    open spec fn view(&self) -> ChoiceView {
        match self {
            IconChoice::Known(n) => ChoiceView::Known(n@),
            IconChoice::LookUp(n) => ChoiceView::LookUp(n@),
        }
    }
}

/// The icon that comes with the notification goes first, then that of the
/// desktop entry, then that of the application's name.
pub open spec fn icon_choice(
    app_icon: Seq<char>,
    app_name: Seq<char>,
    desktop_entry: Option<Seq<char>>,
) -> ChoiceView {
    if app_icon.len() > 0 {
        ChoiceView::Known(app_icon)
    } else {
        match desktop_entry {
            Some(d) => ChoiceView::LookUp(d),
            None => if app_name.len() > 0 {
                ChoiceView::LookUp(app_name)
            } else {
                ChoiceView::Known(FALLBACK_ICON@)
            },
        }
    }
}

/// Chooses the icon of a notification.
pub fn choose_icon(app_icon: &str, app_name: &str, desktop_entry: Option<&str>) -> (r: IconChoice)
    ensures
        r@ == icon_choice(app_icon@, app_name@, text::opt_view(desktop_entry)),
{
    if app_icon.unicode_len() > 0 {
        return IconChoice::Known(app_icon.to_string());
    }
    match desktop_entry {
        Some(d) => IconChoice::LookUp(d.to_string()),
        None => if app_name.unicode_len() > 0 {
            IconChoice::LookUp(app_name.to_string())
        } else {
            IconChoice::Known(FALLBACK_ICON.to_string())
        },
    }
}

/// What a look-up found, or the fallback where it found nothing.
pub open spec fn or_fallback(found: Seq<char>) -> Seq<char> {
    if found.len() == 0 {
        FALLBACK_ICON@
    } else {
        found
    }
}

/// Where the icon comes from once the look-up is done.
pub fn looked_up_icon(found: &str) -> (r: ImageSource)
    ensures
        r@ == source_of(or_fallback(found@)),
{
    if found.unicode_len() == 0 {
        image_source(FALLBACK_ICON)
    } else {
        image_source(found)
    }
}

/// The layout of raw pixels.
#[derive(Debug, Clone, Copy, PartialEq, Eq, Structural)]
pub enum PixelFormat {
    Rgba,
    Rgb,
}

/// What is said of a picture that comes as raw pixels.
#[derive(Debug, Clone, Copy)]
pub struct ImageInfo {
    pub width: i32,
    pub height: i32,
    pub has_alpha: bool,
    pub channels: i32,
    pub bytes: usize,
}

/// The layout of a picture, where it holds anything to show.
pub open spec fn pixel_format(img: ImageInfo) -> Option<PixelFormat> {
    if img.width <= 0 || img.height <= 0 || img.bytes == 0 {
        None
    } else if img.has_alpha && img.channels == 4 {
        Some(PixelFormat::Rgba)
    } else {
        Some(PixelFormat::Rgb)
    }
}

/// The layout of a picture, where it holds anything to show.
pub fn notification_image_format(img: ImageInfo) -> (r: Option<PixelFormat>)
    ensures
        r == pixel_format(img),
{
    if img.width <= 0 || img.height <= 0 || img.bytes == 0 {
        None
    } else if img.has_alpha && img.channels == 4 {
        Some(PixelFormat::Rgba)
    } else {
        Some(PixelFormat::Rgb)
    }
}

/// How the picture of a notification is made.
#[derive(Debug)]
pub enum ImagePlan {
    Pixels(PixelFormat),
    Source(ImageSource),
    Icon(IconChoice),
}

pub enum PlanView {
    Pixels(PixelFormat),
    Source(SourceView),
    Icon(ChoiceView),
}

impl View for ImagePlan {
    type V = PlanView;

    open spec fn view(&self) -> PlanView {
        match self {
            ImagePlan::Pixels(f) => PlanView::Pixels(*f),
            ImagePlan::Source(s) => PlanView::Source(s@),
            ImagePlan::Icon(c) => PlanView::Icon(c@),
        }
    }
}

/// Raw pixels that hold something go first, then a path, then an icon.
pub open spec fn image_plan(
    image_data: Option<ImageInfo>,
    image_path: Option<Seq<char>>,
    app_icon: Seq<char>,
    app_name: Seq<char>,
    desktop_entry: Option<Seq<char>>,
) -> PlanView {
    let format = match image_data {
        Some(img) => pixel_format(img),
        None => None,
    };
    match (format, image_path) {
        (Some(f), _) => PlanView::Pixels(f),
        (None, Some(p)) => PlanView::Source(source_of(p)),
        (None, None) => PlanView::Icon(icon_choice(app_icon, app_name, desktop_entry)),
    }
}

/// Decides how the picture of a notification is made.
pub fn plan_notification_image(
    image_data: Option<ImageInfo>,
    image_path: Option<&str>,
    app_icon: &str,
    app_name: &str,
    desktop_entry: Option<&str>,
) -> (r: ImagePlan)
    ensures
        r@ == image_plan(
            image_data,
            text::opt_view(image_path),
            app_icon@,
            app_name@,
            text::opt_view(desktop_entry),
        ),
{
    if let Some(img) = image_data {
        if let Some(f) = notification_image_format(img) {
            return ImagePlan::Pixels(f);
        }
    }
    match image_path {
        Some(p) => ImagePlan::Source(image_source(p)),
        None => ImagePlan::Icon(choose_icon(app_icon, app_name, desktop_entry)),
    }
}

} // verus!
