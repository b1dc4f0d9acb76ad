//! What holds of the wallpaper that is found, whatever the daemons say.

use vstd::prelude::*;
use vstd::string::*;

use crate::hyprwire::{WireMessage, WireValue};
use crate::text;
use crate::text_laws;
use crate::wallpaper;
use crate::wallpaper::{EntryView, IniView, WallpaperSource};

verus! {

// ---------------------------------------------------------------------------
// waypaper
// ---------------------------------------------------------------------------

/// A path that begins with the sign for the home directory.
pub open spec fn has_tilde(p: Seq<char>) -> bool {
    p == seq!['~'] || (p.len() >= 2 && p[0] == '~' && p[1] == '/')
}

proof fn lemma_tilde(p: Seq<char>, home: Seq<char>)
    ensures
        has_tilde(wallpaper::expanded(p, home)) ==> has_tilde(home),
        p.len() > 0 && p[0] != '~' ==> wallpaper::expanded(p, home) == p,
{
    reveal_strlit("~");
    reveal_strlit("~/");
    assert("~"@ =~= seq!['~']);
    let x = wallpaper::expanded(p, home);
    if p != "~"@ {
        if text::has_prefix(p, "~/"@) {
            assert(p.take(2)[0] == p[0] && p.take(2)[1] == p[1]);
            assert(x == home + p.skip(1));
            assert(p.skip(1)[0] == '/');
            if home.len() == 0 {
                assert(x =~= p.skip(1));
            } else {
                assert(x[0] == home[0]);
                if home.len() == 1 {
                    assert(home =~= seq![home[0]]);
                }
            }
        } else if p.len() >= 2 && p[0] == '~' && p[1] == '/' {
            assert(p.take(2) =~= "~/"@);
        }
    }
}

proof fn lemma_home_path(r: Seq<char>, home: Seq<char>)
    ensures
        wallpaper::expanded("~/"@ + r, home) == home + "/"@ + r,
{
    reveal_strlit("~");
    reveal_strlit("~/");
    reveal_strlit("/");
    let p = "~/"@ + r;
    assert(p.len() >= 2);
    assert(p.take(2) =~= "~/"@);
    assert(home + p.skip(1) =~= home + "/"@ + r);
}

/// The wallpaper is a path that can be opened: the sign for the home directory
/// is never left in it, whatever the configuration and the monitor.
pub proof fn law_no_tilde_is_left(
    content: Seq<char>,
    monitor: Option<Seq<char>>,
    home: Seq<char>,
)
    ensures
        wallpaper::waypaper_answer(
            wallpaper::ini_lines(text::lines_spec(content)),
            monitor,
            home,
        ) matches Some(p) ==> has_tilde(p) ==> has_tilde(home),
{
    let st = wallpaper::ini_lines(text::lines_spec(content));
    if let Some(w) = st.wallpaper {
        let paths = wallpaper::csv_items(w);
        lemma_tilde(paths[0], home);
        if let (Some(t), Some(ms)) = (monitor, st.monitors) {
            lemma_tilde(paths[text::position_of(wallpaper::csv_items(ms), t)], home);
        }
    }
}

/// A line that sets `key` to `value`, with blanks as a user may put them.
pub open spec fn sets(line: Seq<char>, key: Seq<char>, value: Seq<char>) -> bool {
    exists|a: Seq<char>, b: Seq<char>, c: Seq<char>, d: Seq<char>|
        text_laws::all_spaces(a) && text_laws::all_spaces(b) && text_laws::all_spaces(c)
            && text_laws::all_spaces(d) && line == #[trigger] assignment(a, key, b, c, value, d)
}

pub open spec fn assignment(
    a: Seq<char>,
    key: Seq<char>,
    b: Seq<char>,
    c: Seq<char>,
    value: Seq<char>,
    d: Seq<char>,
) -> Seq<char> {
    a + key + b + seq!['='] + c + value + d
}

/// A line that begins a section.
pub open spec fn is_header(line: Seq<char>) -> bool {
    text::trim_spec(line).len() > 0 && text::trim_spec(line)[0] == '['
}

/// A line that begins the settings, in letters of either case.
pub open spec fn is_settings_header(line: Seq<char>) -> bool {
    is_header(line) && text::same_ignoring_case(text::trim_spec(line), "[settings]"@)
}

/// A line that gives `key` a value.
pub open spec fn is_about(line: Seq<char>, key: Seq<char>) -> bool {
    text::split_once_spec(text::trim_spec(line), '=') matches Some((k, _)) && text::trim_spec(k)
        == key
}

/// Within the settings, `key` is given `value` by a line that no other one
/// follows: neither a new section nor another value.
pub open spec fn settings_hold(
    lines: Seq<Seq<char>>,
    key: Seq<char>,
    value: Seq<char>,
) -> bool {
    exists|i: int, j: int| #[trigger] settings_hold_at(lines, key, value, i, j)
}

pub open spec fn settings_hold_at(
    lines: Seq<Seq<char>>,
    key: Seq<char>,
    value: Seq<char>,
    i: int,
    j: int,
) -> bool {
    &&& 0 <= i < j < lines.len()
    &&& is_settings_header(lines[i])
    &&& forall|k: int| i < k < lines.len() ==> !is_header(#[trigger] lines[k])
    &&& sets(lines[j], key, value)
    &&& forall|k: int| j < k < lines.len() ==> !is_about(#[trigger] lines[k], key)
}

/// A key as it may stand before the sign of equality.
pub open spec fn is_key(key: Seq<char>) -> bool {
    key.len() > 0 && text_laws::is_trimmed(key) && !key.contains('=') && key[0] != '['
}

proof fn lemma_no_equals_in_spaces(s: Seq<char>)
    requires
        text_laws::all_spaces(s),
    ensures
        !s.contains('='),
{
    if s.contains('=') {
        let k = choose|k: int| 0 <= k < s.len() && s[k] == '=';
        assert(text::is_space(s[k]));
    }
}

proof fn lemma_assignment(
    a: Seq<char>,
    key: Seq<char>,
    b: Seq<char>,
    c: Seq<char>,
    value: Seq<char>,
    d: Seq<char>,
)
    requires
        text_laws::all_spaces(a),
        text_laws::all_spaces(b),
        text_laws::all_spaces(c),
        text_laws::all_spaces(d),
        is_key(key),
        value.len() > 0,
        text_laws::is_trimmed(value),
    ensures
        ({
            let line = assignment(a, key, b, c, value, d);
            &&& !is_header(line)
            &&& text::split_once_spec(text::trim_spec(line), '=') matches Some((k, v))
            &&& text::trim_spec(k) == key
            &&& text::trim_spec(v) == value
        }),
{
    let e = Seq::<char>::empty();
    let line = assignment(a, key, b, c, value, d);
    let core = key + b + seq!['='] + c + value;
    assert(line =~= a + core + d);
    assert(core[0] == key[0]);
    assert(core.last() == value.last());
    text_laws::law_trimming(a, core, d);
    lemma_no_equals_in_spaces(b);
    let left = key + b;
    let right = c + value;
    assert(!left.contains('=')) by {
        if left.contains('=') {
            let k = choose|k: int| 0 <= k < left.len() && left[k] == '=';
            if k < key.len() {
                assert(key[k] == '=');
            } else {
                assert(b[k - key.len()] == '=');
            }
        }
    }
    assert(core =~= left + seq!['='] + right);
    text_laws::law_split_at_the_first(left, '=', right);
    text_laws::law_trimming(e, key, b);
    assert(e + key + b =~= left);
    text_laws::law_trimming(c, value, e);
    assert(c + value + e =~= right);
}

proof fn lemma_settings_wallpaper(lines: Seq<Seq<char>>, value: Seq<char>, i: int, j: int)
    requires
        settings_hold_at(lines, "wallpaper"@, value, i, j),
        value.len() > 0,
        text_laws::is_trimmed(value),
    ensures
        wallpaper::ini_lines(lines).wallpaper == Some(value),
    decreases lines.len(),
{
    reveal_strlit("wallpaper");
    reveal_strlit("monitors");
    lemma_keys();
    let st = wallpaper::ini_lines(lines.drop_last());
    assert(lines.last() == lines[lines.len() - 1]);
    if j == lines.len() - 1 {
        lemma_in_settings(lines.drop_last(), i);
        let (a, b, c, d) = choose|a: Seq<char>, b: Seq<char>, c: Seq<char>, d: Seq<char>|
            text_laws::all_spaces(a) && text_laws::all_spaces(b) && text_laws::all_spaces(c)
                && text_laws::all_spaces(d) && lines[j] == #[trigger] assignment(
                a,
                "wallpaper"@,
                b,
                c,
                value,
                d,
            );
        lemma_assignment(a, "wallpaper"@, b, c, value, d);
    } else {
        let shorter = lines.drop_last();
        assert(settings_hold_at(shorter, "wallpaper"@, value, i, j)) by {
            assert(shorter[i] == lines[i] && shorter[j] == lines[j]);
            assert forall|k: int| i < k < shorter.len() implies !is_header(
                #[trigger] shorter[k],
            ) by {
                assert(shorter[k] == lines[k]);
            }
            assert forall|k: int| j < k < shorter.len() implies !is_about(
                #[trigger] shorter[k],
                "wallpaper"@,
            ) by {
                assert(shorter[k] == lines[k]);
            }
        }
        lemma_settings_wallpaper(shorter, value, i, j);
        assert(!is_header(lines[lines.len() - 1]));
        assert(!is_about(lines[lines.len() - 1], "wallpaper"@));
    }
}

proof fn lemma_keys()
    ensures
        is_key("wallpaper"@),
        is_key("monitors"@),
        "wallpaper"@ != "monitors"@,
{
    reveal_strlit("wallpaper");
    reveal_strlit("monitors");
    assert("wallpaper"@.len() == 9 && "monitors"@.len() == 8);
    let w = seq!['w', 'a', 'l', 'l', 'p', 'a', 'p', 'e', 'r'];
    let m = seq!['m', 'o', 'n', 'i', 't', 'o', 'r', 's'];
    assert("wallpaper"@ =~= w);
    assert("monitors"@ =~= m);
    assert(!w.contains('='));
    assert(!m.contains('='));
}

proof fn lemma_settings_monitors(lines: Seq<Seq<char>>, value: Seq<char>, i: int, j: int)
    requires
        settings_hold_at(lines, "monitors"@, value, i, j),
        value.len() > 0,
        text_laws::is_trimmed(value),
    ensures
        wallpaper::ini_lines(lines).monitors == Some(value),
    decreases lines.len(),
{
    lemma_keys();
    assert(lines.last() == lines[lines.len() - 1]);
    if j == lines.len() - 1 {
        lemma_in_settings(lines.drop_last(), i);
        let (a, b, c, d) = choose|a: Seq<char>, b: Seq<char>, c: Seq<char>, d: Seq<char>|
            text_laws::all_spaces(a) && text_laws::all_spaces(b) && text_laws::all_spaces(c)
                && text_laws::all_spaces(d) && lines[j] == #[trigger] assignment(
                a,
                "monitors"@,
                b,
                c,
                value,
                d,
            );
        lemma_assignment(a, "monitors"@, b, c, value, d);
    } else {
        let shorter = lines.drop_last();
        assert(settings_hold_at(shorter, "monitors"@, value, i, j)) by {
            assert(shorter[i] == lines[i] && shorter[j] == lines[j]);
            assert forall|k: int| i < k < shorter.len() implies !is_header(
                #[trigger] shorter[k],
            ) by {
                assert(shorter[k] == lines[k]);
            }
            assert forall|k: int| j < k < shorter.len() implies !is_about(
                #[trigger] shorter[k],
                "monitors"@,
            ) by {
                assert(shorter[k] == lines[k]);
            }
        }
        lemma_settings_monitors(shorter, value, i, j);
        assert(!is_header(lines[lines.len() - 1]));
        assert(!is_about(lines[lines.len() - 1], "monitors"@));
    }
}

proof fn lemma_in_settings(lines: Seq<Seq<char>>, i: int)
    requires
        0 <= i < lines.len(),
        is_settings_header(lines[i]),
        forall|k: int| i < k < lines.len() ==> !is_header(#[trigger] lines[k]),
    ensures
        wallpaper::ini_lines(lines).in_settings,
    decreases lines.len(),
{
    assert(lines.last() == lines[lines.len() - 1]);
    if i < lines.len() - 1 {
        let shorter = lines.drop_last();
        assert(shorter[i] == lines[i]);
        assert forall|k: int| i < k < shorter.len() implies !is_header(#[trigger] shorter[k]) by {
            assert(shorter[k] == lines[k]);
        }
        lemma_in_settings(shorter, i);
        assert(!is_header(lines[lines.len() - 1]));
    }
}

/// A configuration without settings names no wallpaper.
pub proof fn law_only_settings_count(
    lines: Seq<Seq<char>>,
    monitor: Option<Seq<char>>,
    home: Seq<char>,
)
    requires
        forall|k: int| 0 <= k < lines.len() ==> !is_settings_header(#[trigger] lines[k]),
    ensures
        wallpaper::waypaper_answer(wallpaper::ini_lines(lines), monitor, home) is None,
{
    lemma_no_settings(lines);
}

proof fn lemma_no_settings(lines: Seq<Seq<char>>)
    requires
        forall|k: int| 0 <= k < lines.len() ==> !is_settings_header(#[trigger] lines[k]),
    ensures
        wallpaper::ini_lines(lines) == (IniView {
            in_settings: false,
            wallpaper: None,
            monitors: None,
        }),
    decreases lines.len(),
{
    if lines.len() > 0 {
        let shorter = lines.drop_last();
        assert forall|k: int| 0 <= k < shorter.len() implies !is_settings_header(
            #[trigger] shorter[k],
        ) by {
            assert(shorter[k] == lines[k]);
        }
        lemma_no_settings(shorter);
        assert(lines.last() == lines[lines.len() - 1]);
        assert(!is_settings_header(lines[lines.len() - 1]));
    }
}

/// A path below the home directory, given with the sign for it, is found there,
/// whatever the monitor and whichever monitors are listed.
pub proof fn law_home_paths_are_found(
    content: Seq<char>,
    rest: Seq<char>,
    monitor: Option<Seq<char>>,
    home: Seq<char>,
)
    requires
        settings_hold(text::lines_spec(content), "wallpaper"@, "~/"@ + rest),
        text_laws::is_trimmed("~/"@ + rest),
        !rest.contains(','),
    ensures
        wallpaper::waypaper_answer(
            wallpaper::ini_lines(text::lines_spec(content)),
            monitor,
            home,
        ) == Some(home + "/"@ + rest),
{
    reveal_strlit("~/");
    let lines = text::lines_spec(content);
    let w = "~/"@ + rest;
    let (i, j) = choose|i: int, j: int| #[trigger]
        settings_hold_at(lines, "wallpaper"@, w, i, j);
    lemma_settings_wallpaper(lines, w, i, j);
    assert(!w.contains(',')) by {
        if w.contains(',') {
            let k = choose|k: int| 0 <= k < w.len() && w[k] == ',';
            assert(rest[k - 2] == ',');
        }
    }
    lemma_one_item(w);
    lemma_home_path(rest, home);
    assert(wallpaper::csv_items(w)[0] == w);
    if let (Some(t), Some(ms)) = (monitor, wallpaper::ini_lines(lines).monitors) {
        text_laws::law_position_is_the_first(wallpaper::csv_items(ms), t);
    }
}

/// An absolute path is found as it is given, whatever the monitor.
pub proof fn law_absolute_paths_are_found(
    content: Seq<char>,
    path: Seq<char>,
    monitor: Option<Seq<char>>,
    home: Seq<char>,
)
    requires
        settings_hold(text::lines_spec(content), "wallpaper"@, path),
        path.len() > 0,
        path[0] == '/',
        text_laws::is_trimmed(path),
        !path.contains(','),
    ensures
        wallpaper::waypaper_answer(
            wallpaper::ini_lines(text::lines_spec(content)),
            monitor,
            home,
        ) == Some(path),
{
    let lines = text::lines_spec(content);
    let (i, j) = choose|i: int, j: int| #[trigger]
        settings_hold_at(lines, "wallpaper"@, path, i, j);
    lemma_settings_wallpaper(lines, path, i, j);
    lemma_one_item(path);
    lemma_tilde(path, home);
    assert(wallpaper::csv_items(path)[0] == path);
    if let (Some(t), Some(ms)) = (monitor, wallpaper::ini_lines(lines).monitors) {
        text_laws::law_position_is_the_first(wallpaper::csv_items(ms), t);
    }
}

proof fn lemma_one_item(w: Seq<char>)
    requires
        !w.contains(','),
        text_laws::is_trimmed(w),
    ensures
        wallpaper::csv_items(w) == seq![w],
{
    text::lemma_index_of(w, ',');
    text_laws::law_trimmed_stays(w);
    assert(wallpaper::csv_items(w) =~= seq![w]);
}

/// An item of a list as it may stand between commas.
pub open spec fn is_item(s: Seq<char>) -> bool {
    s.len() > 0 && text_laws::is_trimmed(s) && !s.contains(',')
}

proof fn lemma_items(items: Seq<Seq<char>>)
    requires
        items.len() > 0,
        forall|i: int| 0 <= i < items.len() ==> is_item(#[trigger] items[i]),
    ensures
        wallpaper::csv_items(text::join_spec(items, seq![','])) == items,
        text::join_spec(items, seq![',']).len() > 0,
        text_laws::is_trimmed(text::join_spec(items, seq![','])),
{
    assert forall|i: int| 0 <= i < items.len() implies !(#[trigger] items[i]).contains(',') by {
        assert(is_item(items[i]));
    }
    text_laws::law_splitting_undoes_joining(items, ',');
    let s = text::join_spec(items, seq![',']);
    assert forall|i: int| 0 <= i < items.len() implies #[trigger] wallpaper::csv_items(s)[i]
        == items[i] by {
        assert(is_item(items[i]));
        text_laws::law_trimmed_stays(items[i]);
    }
    assert(wallpaper::csv_items(s) =~= items);
    lemma_joined_ends(items);
}

proof fn lemma_joined_ends(items: Seq<Seq<char>>)
    requires
        items.len() > 0,
        forall|i: int| 0 <= i < items.len() ==> is_item(#[trigger] items[i]),
    ensures
        text::join_spec(items, seq![',']).len() > 0,
        text::join_spec(items, seq![','])[0] == items[0][0],
        text::join_spec(items, seq![',']).last() == items.last().last(),
    decreases items.len(),
{
    assert(is_item(items[0]));
    assert(is_item(items[items.len() - 1]));
    if items.len() > 1 {
        let shorter = items.drop_last();
        assert forall|i: int| 0 <= i < shorter.len() implies is_item(#[trigger] shorter[i]) by {
            assert(shorter[i] == items[i]);
        }
        lemma_joined_ends(shorter);
    }
}

/// Each monitor has the path that stands at its place in the list of paths. The
/// first place counts where a monitor is listed twice.
pub proof fn law_monitors_have_their_paths(
    content: Seq<char>,
    monitors: Seq<Seq<char>>,
    paths: Seq<Seq<char>>,
    k: int,
    home: Seq<char>,
)
    requires
        0 <= k < monitors.len(),
        k < paths.len(),
        forall|i: int| 0 <= i < monitors.len() ==> is_item(#[trigger] monitors[i]),
        forall|i: int| 0 <= i < paths.len() ==> is_item(#[trigger] paths[i]),
        forall|i: int| 0 <= i < k ==> #[trigger] monitors[i] != monitors[k],
        settings_hold(
            text::lines_spec(content),
            "monitors"@,
            text::join_spec(monitors, seq![',']),
        ),
        settings_hold(
            text::lines_spec(content),
            "wallpaper"@,
            text::join_spec(paths, seq![',']),
        ),
    ensures
        ({
            let answer = wallpaper::waypaper_answer(
                wallpaper::ini_lines(text::lines_spec(content)),
                Some(monitors[k]),
                home,
            );
            &&& paths[k][0] == '/' ==> answer == Some(paths[k])
            &&& forall|r: Seq<char>|
                paths[k] == #[trigger] ("~/"@ + r) ==> answer == Some(home + "/"@ + r)
        }),
{
    lemma_configured(content, monitors, paths);
    text_laws::law_position_is_the_first(monitors, monitors[k]);
    assert(text::position_of(monitors, monitors[k]) == k) by {
        let p = text::position_of(monitors, monitors[k]);
        if p < k {
            assert(monitors[p] != monitors[k]);
        }
        if k < p {
            assert(monitors[k] != monitors[k]);
        }
    }
    assert(is_item(paths[k]));
    lemma_tilde(paths[k], home);
    assert forall|r: Seq<char>| paths[k] == #[trigger] ("~/"@ + r) implies wallpaper::expanded(
        paths[k],
        home,
    ) == home + "/"@ + r by {
        lemma_home_path(r, home);
    }
}

proof fn lemma_configured(
    content: Seq<char>,
    monitors: Seq<Seq<char>>,
    paths: Seq<Seq<char>>,
)
    requires
        monitors.len() > 0,
        paths.len() > 0,
        forall|i: int| 0 <= i < monitors.len() ==> is_item(#[trigger] monitors[i]),
        forall|i: int| 0 <= i < paths.len() ==> is_item(#[trigger] paths[i]),
        settings_hold(
            text::lines_spec(content),
            "monitors"@,
            text::join_spec(monitors, seq![',']),
        ),
        settings_hold(
            text::lines_spec(content),
            "wallpaper"@,
            text::join_spec(paths, seq![',']),
        ),
    ensures
        ({
            let st = wallpaper::ini_lines(text::lines_spec(content));
            &&& st.wallpaper matches Some(w)
            &&& wallpaper::csv_items(w) == paths
            &&& st.monitors matches Some(m)
            &&& wallpaper::csv_items(m) == monitors
        }),
{
    let lines = text::lines_spec(content);
    let w = text::join_spec(paths, seq![',']);
    let m = text::join_spec(monitors, seq![',']);
    lemma_items(paths);
    lemma_items(monitors);
    let (i, j) = choose|i: int, j: int| #[trigger]
        settings_hold_at(lines, "wallpaper"@, w, i, j);
    lemma_settings_wallpaper(lines, w, i, j);
    let (i2, j2) = choose|i: int, j: int| #[trigger]
        settings_hold_at(lines, "monitors"@, m, i, j);
    lemma_settings_monitors(lines, m, i2, j2);
}

/// A monitor that is not listed, or whose path is missing, shows the first path,
/// and so does a bar that has no monitor.
pub proof fn law_other_monitors_have_the_first_path(
    content: Seq<char>,
    monitors: Seq<Seq<char>>,
    paths: Seq<Seq<char>>,
    monitor: Option<Seq<char>>,
    home: Seq<char>,
)
    requires
        monitors.len() > 0,
        paths.len() > 0,
        forall|i: int| 0 <= i < monitors.len() ==> is_item(#[trigger] monitors[i]),
        forall|i: int| 0 <= i < paths.len() ==> is_item(#[trigger] paths[i]),
        monitor matches Some(t) ==> forall|i: int|
            0 <= i < monitors.len() && i < paths.len() ==> #[trigger] monitors[i] != t,
        settings_hold(
            text::lines_spec(content),
            "monitors"@,
            text::join_spec(monitors, seq![',']),
        ),
        settings_hold(
            text::lines_spec(content),
            "wallpaper"@,
            text::join_spec(paths, seq![',']),
        ),
    ensures
        ({
            let answer = wallpaper::waypaper_answer(
                wallpaper::ini_lines(text::lines_spec(content)),
                monitor,
                home,
            );
            &&& paths[0][0] == '/' ==> answer == Some(paths[0])
            &&& forall|r: Seq<char>|
                paths[0] == #[trigger] ("~/"@ + r) ==> answer == Some(home + "/"@ + r)
        }),
{
    lemma_configured(content, monitors, paths);
    assert(is_item(paths[0]));
    lemma_tilde(paths[0], home);
    if let Some(t) = monitor {
        text_laws::law_position_is_the_first(monitors, t);
    }
    assert forall|r: Seq<char>| paths[0] == #[trigger] ("~/"@ + r) implies wallpaper::expanded(
        paths[0],
        home,
    ) == home + "/"@ + r by {
        lemma_home_path(r, home);
    }
}

// ---------------------------------------------------------------------------
// hyprpaper
// ---------------------------------------------------------------------------

/// The wallpaper is the path of the first entry for the monitor that has one,
/// and where the monitor has none, that of the first entry that has one.
pub proof fn law_monitor_entry_comes_first(
    entries: Seq<EntryView>,
    monitor: Option<Seq<char>>,
    k: int,
)
    requires
        0 <= k < entries.len(),
        entries[k].1.len() > 0,
        monitor matches Some(t) ==> entries[k].0 == t || forall|i: int|
            0 <= i < entries.len() ==> (#[trigger] entries[i]).0 != t || entries[i].1.len() == 0,
        forall|i: int|
            0 <= i < k ==> (#[trigger] entries[i]).1.len() == 0 || (monitor == Some(entries[k].0)
                && entries[i].0 != entries[k].0),
    ensures
        wallpaper::selected_path(entries, monitor) == Some(entries[k].1),
{
    if let Some(t) = monitor {
        if entries[k].0 == t {
            lemma_monitor_path(entries, t, k);
        } else {
            lemma_no_monitor_path(entries, t);
            lemma_first_path(entries, k);
        }
    } else {
        lemma_first_path(entries, k);
    }
}

/// Without a path there is no wallpaper.
pub proof fn law_no_path_no_wallpaper(entries: Seq<EntryView>, monitor: Option<Seq<char>>)
    requires
        forall|i: int| 0 <= i < entries.len() ==> (#[trigger] entries[i]).1.len() == 0,
    ensures
        wallpaper::selected_path(entries, monitor) is None,
{
    lemma_no_first_path(entries);
    if let Some(t) = monitor {
        lemma_no_monitor_path(entries, t);
    }
}

proof fn lemma_monitor_path(entries: Seq<EntryView>, t: Seq<char>, k: int)
    requires
        0 <= k < entries.len(),
        entries[k].0 == t,
        entries[k].1.len() > 0,
        forall|i: int|
            0 <= i < k ==> (#[trigger] entries[i]).1.len() == 0 || entries[i].0 != t,
    ensures
        wallpaper::monitor_path(entries, t) == Some(entries[k].1),
    decreases entries.len(),
{
    if k > 0 {
        let rest = entries.drop_first();
        assert(rest[k - 1] == entries[k]);
        assert forall|i: int| 0 <= i < k - 1 implies (#[trigger] rest[i]).1.len() == 0
            || rest[i].0 != t by {
            assert(rest[i] == entries[i + 1]);
        }
        assert(entries[0].1.len() == 0 || entries[0].0 != t);
        lemma_monitor_path(rest, t, k - 1);
    }
}

proof fn lemma_no_monitor_path(entries: Seq<EntryView>, t: Seq<char>)
    requires
        forall|i: int|
            0 <= i < entries.len() ==> (#[trigger] entries[i]).0 != t || entries[i].1.len() == 0,
    ensures
        wallpaper::monitor_path(entries, t) is None,
    decreases entries.len(),
{
    if entries.len() > 0 {
        let rest = entries.drop_first();
        assert forall|i: int| 0 <= i < rest.len() implies (#[trigger] rest[i]).0 != t
            || rest[i].1.len() == 0 by {
            assert(rest[i] == entries[i + 1]);
        }
        assert(entries[0].0 != t || entries[0].1.len() == 0);
        lemma_no_monitor_path(rest, t);
    }
}

proof fn lemma_first_path(entries: Seq<EntryView>, k: int)
    requires
        0 <= k < entries.len(),
        entries[k].1.len() > 0,
        forall|i: int| 0 <= i < k ==> (#[trigger] entries[i]).1.len() == 0,
    ensures
        wallpaper::first_path(entries) == Some(entries[k].1),
    decreases entries.len(),
{
    if k > 0 {
        let rest = entries.drop_first();
        assert(rest[k - 1] == entries[k]);
        assert forall|i: int| 0 <= i < k - 1 implies (#[trigger] rest[i]).1.len() == 0 by {
            assert(rest[i] == entries[i + 1]);
        }
        assert(entries[0].1.len() == 0);
        lemma_first_path(rest, k - 1);
    }
}

proof fn lemma_no_first_path(entries: Seq<EntryView>)
    requires
        forall|i: int| 0 <= i < entries.len() ==> (#[trigger] entries[i]).1.len() == 0,
    ensures
        wallpaper::first_path(entries) is None,
    decreases entries.len(),
{
    if entries.len() > 0 {
        let rest = entries.drop_first();
        assert forall|i: int| 0 <= i < rest.len() implies (#[trigger] rest[i]).1.len() == 0 by {
            assert(rest[i] == entries[i + 1]);
        }
        assert(entries[0].1.len() == 0);
        lemma_no_first_path(rest);
    }
}

/// A line `MONITOR = /path`, with blanks anywhere, adds the monitor and its path
/// behind what the lines before it list.
pub proof fn law_lines_list_monitors(
    lines: Seq<Seq<char>>,
    monitor: Seq<char>,
    path: Seq<char>,
    line: Seq<char>,
)
    requires
        text_laws::is_trimmed(monitor),
        !monitor.contains('='),
        text_laws::is_trimmed(path),
        sets(line, monitor, path),
    ensures
        wallpaper::listed(lines.push(line)) == wallpaper::listed(lines).push((monitor, path)),
{
    let (a, b, c, d) = choose|a: Seq<char>, b: Seq<char>, c: Seq<char>, d: Seq<char>|
        text_laws::all_spaces(a) && text_laws::all_spaces(b) && text_laws::all_spaces(c)
            && text_laws::all_spaces(d) && line == #[trigger] assignment(
            a,
            monitor,
            b,
            c,
            path,
            d,
        );
    let left = a + monitor + b;
    let right = c + path + d;
    lemma_no_equals_in_spaces(a);
    lemma_no_equals_in_spaces(b);
    assert(!left.contains('=')) by {
        if left.contains('=') {
            let k = choose|k: int| 0 <= k < left.len() && left[k] == '=';
            if k < a.len() {
                assert(a[k] == '=');
            } else if k < a.len() + monitor.len() {
                assert(monitor[k - a.len()] == '=');
            } else {
                assert(b[k - a.len() - monitor.len()] == '=');
            }
        }
    }
    assert(line =~= left + seq!['='] + right);
    text_laws::law_split_at_the_first(left, '=', right);
    text_laws::law_trimming(a, monitor, b);
    text_laws::law_trimming(c, path, d);
    assert(lines.push(line).drop_last() =~= lines);
}

/// A line without the sign of equality lists no monitor.
pub proof fn law_other_lines_list_nothing(lines: Seq<Seq<char>>, line: Seq<char>)
    requires
        !line.contains('='),
    ensures
        wallpaper::listed(lines.push(line)) == wallpaper::listed(lines),
        wallpaper::listed(Seq::<Seq<char>>::empty()) == Seq::<EntryView>::empty(),
{
    text_laws::law_split_at_the_first(line, '=', line);
    assert(lines.push(line).drop_last() =~= lines);
}

/// A status message names a monitor and a path where it is addressed to the
/// status object and reports the wallpaper in use, and nothing else does.
pub proof fn law_status_events_name_the_wallpaper(
    method: u32,
    object: u32,
    status: u32,
    monitor: Seq<char>,
    path: Seq<char>,
    m: WireMessage,
)
    requires
        m.args == seq![
            WireValue::Object(object),
            WireValue::Uint(method),
            WireValue::Varchar(monitor),
            WireValue::Varchar(path),
        ],
    ensures
        wallpaper::event_of(m, status) == if object == status && method == 0 {
            Some((monitor, path))
        } else {
            None
        },
{
}

// ---------------------------------------------------------------------------
// awww
// ---------------------------------------------------------------------------

/// The path of a line is what follows the words before it, without blanks around
/// it. Without those words, or with nothing behind them, there is none.
pub proof fn law_awww_path_follows_the_words(
    before: Seq<char>,
    gap: Seq<char>,
    path: Seq<char>,
    after: Seq<char>,
)
    requires
        text_laws::all_spaces(gap),
        text_laws::is_trimmed(path),
        text_laws::all_spaces(after),
        forall|j: int|
            0 <= j < before.len() ==> !#[trigger] text::occurs_at(
                before + "currently displaying: image: "@ + (gap + path + after),
                "currently displaying: image: "@,
                j,
            ),
    ensures
        wallpaper::awww_path(before + "currently displaying: image: "@ + (gap + path + after))
            == if path.len() > 0 {
            Some(path)
        } else {
            None
        },
{
    let w = "currently displaying: image: "@;
    let tail = gap + path + after;
    let line = before + w + tail;
    text::lemma_part_stands_in(before, w, tail);
    text::lemma_find_from(line, w, 0);
    assert(text::find_spec(line, w) == Some(before.len() as int)) by {
        let k = text::find_spec(line, w)->0;
        if k < before.len() {
            assert(!text::occurs_at(line, w, k));
        }
    }
    assert(line.skip(before.len() as int + w.len()) =~= tail);
    text_laws::law_trimming(gap, path, after);
}

/// A line is about the output that stands behind its namespace.
pub proof fn law_awww_line_names_its_output(
    namespace: Seq<char>,
    output: Seq<char>,
    rest: Seq<char>,
)
    requires
        !namespace.contains(':'),
        !output.contains(':'),
        text_laws::is_trimmed(output),
    ensures
        wallpaper::awww_output(namespace + ": "@ + (output + seq![':'] + rest)) == Some(output),
{
    reveal_strlit(": ");
    let p = ": "@;
    let tail = output + seq![':'] + rest;
    let line = namespace + p + tail;
    text::lemma_part_stands_in(namespace, p, tail);
    text::lemma_find_from(line, p, 0);
    assert(text::find_spec(line, p) == Some(namespace.len() as int)) by {
        let k = text::find_spec(line, p)->0;
        if k < namespace.len() {
            assert(line.subrange(k, k + 2)[0] == line[k]);
            assert(namespace[k] == ':');
        }
    }
    assert(line.skip(namespace.len() as int + p.len()) =~= tail);
    text_laws::law_split_at_the_first(output, ':', rest);
    text_laws::law_trimmed_stays(output);
}

/// The line of the monitor decides; without one, the first line with a path.
pub proof fn law_awww_monitor_line_decides(
    lines: Seq<Seq<char>>,
    monitor: Option<Seq<char>>,
    k: int,
)
    requires
        0 <= k < lines.len(),
        monitor matches Some(t) ==> {
            ||| wallpaper::awww_output(lines[k]) == Some(t)
            ||| forall|i: int|
                0 <= i < lines.len() ==> wallpaper::awww_output(#[trigger] lines[i]) != Some(t)
        },
        monitor is None || wallpaper::awww_output(lines[k]) != monitor
            ==> wallpaper::awww_path(lines[k]) is Some,
        forall|i: int|
            0 <= i < k ==> if monitor is Some && wallpaper::awww_output(lines[k]) == monitor {
                wallpaper::awww_output(#[trigger] lines[i]) != monitor
            } else {
                wallpaper::awww_path(lines[i]) is None
            },
    ensures
        wallpaper::awww_answer(lines, monitor) == wallpaper::awww_path(lines[k]),
{
    if monitor is Some && wallpaper::awww_output(lines[k]) == monitor {
        lemma_awww_line(lines, monitor->0, k);
    } else {
        if let Some(t) = monitor {
            lemma_no_awww_line(lines, t);
        }
        assert forall|i: int| 0 <= i < k implies wallpaper::awww_path(#[trigger] lines[i]) is None by {
            assert(wallpaper::awww_output(lines[i]) == wallpaper::awww_output(lines[i]));
        }
        lemma_awww_first(lines, k);
    }
}

proof fn lemma_awww_line(lines: Seq<Seq<char>>, t: Seq<char>, k: int)
    requires
        0 <= k < lines.len(),
        wallpaper::awww_output(lines[k]) == Some(t),
        forall|i: int| 0 <= i < k ==> wallpaper::awww_output(#[trigger] lines[i]) != Some(t),
    ensures
        wallpaper::awww_line_of(lines, t) == Some(lines[k]),
    decreases lines.len(),
{
    if k > 0 {
        let rest = lines.drop_first();
        assert(rest[k - 1] == lines[k]);
        assert forall|i: int| 0 <= i < k - 1 implies wallpaper::awww_output(#[trigger] rest[i])
            != Some(t) by {
            assert(rest[i] == lines[i + 1]);
        }
        assert(wallpaper::awww_output(lines[0]) != Some(t));
        lemma_awww_line(rest, t, k - 1);
    }
}

proof fn lemma_no_awww_line(lines: Seq<Seq<char>>, t: Seq<char>)
    requires
        forall|i: int|
            0 <= i < lines.len() ==> wallpaper::awww_output(#[trigger] lines[i]) != Some(t),
    ensures
        wallpaper::awww_line_of(lines, t) is None,
    decreases lines.len(),
{
    if lines.len() > 0 {
        let rest = lines.drop_first();
        assert forall|i: int| 0 <= i < rest.len() implies wallpaper::awww_output(
            #[trigger] rest[i],
        ) != Some(t) by {
            assert(rest[i] == lines[i + 1]);
        }
        assert(wallpaper::awww_output(lines[0]) != Some(t));
        lemma_no_awww_line(rest, t);
    }
}

proof fn lemma_awww_first(lines: Seq<Seq<char>>, k: int)
    requires
        0 <= k < lines.len(),
        wallpaper::awww_path(lines[k]) is Some,
        forall|i: int| 0 <= i < k ==> wallpaper::awww_path(#[trigger] lines[i]) is None,
    ensures
        wallpaper::awww_first_path(lines) == wallpaper::awww_path(lines[k]),
    decreases lines.len(),
{
    if k > 0 {
        let rest = lines.drop_first();
        assert(rest[k - 1] == lines[k]);
        assert forall|i: int| 0 <= i < k - 1 implies wallpaper::awww_path(
            #[trigger] rest[i],
        ) is None by {
            assert(rest[i] == lines[i + 1]);
        }
        assert(wallpaper::awww_path(lines[0]) is None);
        lemma_awww_first(rest, k - 1);
    }
}

// ---------------------------------------------------------------------------
// Files and protocols
// ---------------------------------------------------------------------------

/// The first link that could be read is the one taken.
pub proof fn law_first_link_is_taken(links: Seq<Option<String>>, k: int)
    requires
        0 <= k < links.len(),
        links[k] is Some,
        forall|i: int| 0 <= i < k ==> (#[trigger] links[i]) is None,
    ensures
        wallpaper::first_link(links) == Some(links[k]->0@),
    decreases links.len(),
{
    if k > 0 {
        let rest = links.drop_first();
        assert(rest[k - 1] == links[k]);
        assert forall|i: int| 0 <= i < k - 1 implies (#[trigger] rest[i]) is None by {
            assert(rest[i] == links[i + 1]);
        }
        assert(links[0] is None);
        law_first_link_is_taken(rest, k - 1);
    }
}

/// Files are looked for below a directory that does not end with a slash.
pub proof fn law_files_stand_below_their_directory(dir: Seq<char>, name: Seq<char>)
    requires
        dir.len() > 0,
        name.len() > 0,
        name[0] != '/',
    ensures
        dir.last() != '/' ==> wallpaper::joined_path(dir, name) == dir + seq!['/'] + name,
        dir.last() == '/' ==> wallpaper::joined_path(dir, name) == dir + name,
        wallpaper::joined_path(dir, seq!['/'] + name) == seq!['/'] + name,
{
    reveal_strlit("/");
    assert("/"@ =~= seq!['/']);
}

/// The state of wpaperd lies where the environment says, else below the home
/// directory.
pub proof fn law_state_is_below_home(home: Seq<char>, dir: Seq<char>)
    requires
        dir.len() > 0,
    ensures
        wallpaper::state_dir(Some(dir), Some(home)) == Some(dir),
        wallpaper::state_dir(None, Some(home)) == Some(home + "/.local/state"@),
        wallpaper::state_dir(None, None) is None,
{
    reveal_strlit("/.local/state");
}

/// A process speaks the binary protocol exactly where a line of its memory map
/// ends with a file of that library, in whatever directory.
pub proof fn law_protocol_follows_the_library(
    lines: Seq<char>,
    dir: Seq<char>,
    name: Seq<char>,
)
    requires
        !name.contains('/'),
    ensures
        wallpaper::maps_toolkit(dir + seq!['/'] + name) == text::has_prefix(
            name,
            "libhyprtoolkit.so"@,
        ),
        !wallpaper::maps_toolkit(name),
        wallpaper::speaks_hyprwire(lines) == exists|i: int|
            0 <= i < text::lines_spec(lines).len() && wallpaper::maps_toolkit(
                #[trigger] text::lines_spec(lines)[i],
            ),
{
    let line = dir + seq!['/'] + name;
    text_laws::law_last_is_found(dir, '/', name);
    assert(line.skip(dir.len() as int + 1) =~= name);
}

/// Every source is asked once, before detection gives up.
pub proof fn law_sources_are_asked_in_order()
    ensures
        wallpaper::detect_next(WallpaperSource::Hyprpaper, None)
            == wallpaper::DetectView::Ask(WallpaperSource::Wpaperd),
        wallpaper::detect_next(WallpaperSource::Wpaperd, None)
            == wallpaper::DetectView::Ask(WallpaperSource::Waypaper),
        wallpaper::detect_next(WallpaperSource::Waypaper, None)
            == wallpaper::DetectView::Ask(WallpaperSource::Awww),
        wallpaper::detect_next(WallpaperSource::Awww, None) == wallpaper::DetectView::NotFound,
        forall|s: WallpaperSource, p: Seq<char>| #[trigger]
            wallpaper::detect_next(s, Some(p)) == wallpaper::DetectView::Found(p),
{
}

} // verus!
