//! Finding out which wallpaper a daemon shows: parsers for what each supported
//! daemon reports, the choice among monitors, and the order in which daemons
//! are asked.

use vstd::prelude::*;
use vstd::string::*;

use crate::hyprwire::{HyprwireMessage, HyprwireValue, WireMessage, WireValue};
use crate::text;

verus! {

pub const HYPRPAPER_STATUS_ACTIVE_WALLPAPER: u32 = 0;

/// Wallpaper images larger than this are not read.
pub const MAX_WALLPAPER_FILE_SIZE: u64 = 52428800;

// ---------------------------------------------------------------------------
// Monitor entries
// ---------------------------------------------------------------------------

/// A monitor's name and the path of its wallpaper.
pub type EntryView = (Seq<char>, Seq<char>);

pub open spec fn entry_view(e: (String, String)) -> EntryView {
    (e.0@, e.1@)
}

pub open spec fn entry_views(entries: Seq<(String, String)>) -> Seq<EntryView> {
    entries.map_values(|e: (String, String)| entry_view(e))
}

/// The path of the first entry that has one.
pub open spec fn first_path(entries: Seq<EntryView>) -> Option<Seq<char>>
    decreases entries.len(),
{
    if entries.len() == 0 {
        None
    } else if entries[0].1.len() > 0 {
        Some(entries[0].1)
    } else {
        first_path(entries.drop_first())
    }
}

/// The path of the first entry for `monitor` that has one.
pub open spec fn monitor_path(entries: Seq<EntryView>, monitor: Seq<char>) -> Option<Seq<char>>
    decreases entries.len(),
{
    if entries.len() == 0 {
        None
    } else if entries[0].0 == monitor && entries[0].1.len() > 0 {
        Some(entries[0].1)
    } else {
        monitor_path(entries.drop_first(), monitor)
    }
}

/// The wallpaper to use: that of the target monitor where it has one, else
/// the first there is.
pub open spec fn selected_path(entries: Seq<EntryView>, monitor: Option<Seq<char>>) -> Option<
    Seq<char>,
> {
    match monitor {
        Some(t) => match monitor_path(entries, t) {
            Some(p) => Some(p),
            None => first_path(entries),
        },
        None => first_path(entries),
    }
}

/// The wallpaper to use among `entries`.
pub fn select_monitor_wallpaper(entries: &[(String, String)], monitor: Option<&str>) -> (r: Option<
    String,
>)
    ensures
        text::opt_string_view(r) == selected_path(entry_views(entries@), text::opt_view(monitor)),
{
    let ghost views = entry_views(entries@);
    if let Some(target) = monitor {
        let mut i: usize = 0;
        assert(views.skip(0) =~= views);
        while i < entries.len()
            invariant
                i <= entries.len(),
                views == entry_views(entries@),
                monitor == Some(target),
                monitor_path(views.skip(i as int), target@) == monitor_path(views, target@),
            decreases entries.len() - i,
        {
            let ghost here = views.skip(i as int);
            assert(here.drop_first() =~= views.skip(i + 1));
            assert(here[0] == entry_view(entries@[i as int]));
            if text::str_eq(entries[i].0.as_str(), target) && !entries[i].1.as_str().is_empty() {
                return Some(entries[i].1.clone());
            }
            i += 1;
        }
        assert(monitor_path(views, target@) is None);
    }
    let mut i: usize = 0;
    assert(views.skip(0) =~= views);
    while i < entries.len()
        invariant
            i <= entries.len(),
            views == entry_views(entries@),
            first_path(views.skip(i as int)) == first_path(views),
            selected_path(views, text::opt_view(monitor)) == first_path(views),
        decreases entries.len() - i,
    {
        let ghost here = views.skip(i as int);
        assert(here.drop_first() =~= views.skip(i + 1));
        assert(here[0] == entry_view(entries@[i as int]));
        if !entries[i].1.as_str().is_empty() {
            return Some(entries[i].1.clone());
        }
        i += 1;
    }
    None
}

// ---------------------------------------------------------------------------
// hyprpaper: status events
// ---------------------------------------------------------------------------

/// The monitor and path that a message reports, where it is an
/// active-wallpaper event of the object `status_id`.
pub open spec fn event_of(m: WireMessage, status_id: u32) -> Option<EntryView> {
    if m.args.len() == 4 && m.args[0] == WireValue::Object(status_id) && m.args[1]
        == WireValue::Uint(HYPRPAPER_STATUS_ACTIVE_WALLPAPER) && m.args[2] is Varchar
        && m.args[3] is Varchar {
        Some((m.args[2]->Varchar_0, m.args[3]->Varchar_0))
    } else {
        None
    }
}

pub open spec fn opt_entry_view(o: Option<(String, String)>) -> Option<EntryView> {
    match o {
        Some(e) => Some(entry_view(e)),
        None => None,
    }
}

/// The monitor and path that `message` reports.
pub fn parse_active_wallpaper_event(message: &HyprwireMessage, status_id: u32) -> (r: Option<
    (String, String),
>)
    ensures
        opt_entry_view(r) == event_of(message@, status_id),
{
    if message.args.len() != 4 {
        return None;
    }
    assert(message@.args[0] == message.args@[0]@);
    assert(message@.args[1] == message.args@[1]@);
    assert(message@.args[2] == message.args@[2]@);
    assert(message@.args[3] == message.args@[3]@);
    match (&message.args[0], &message.args[1], &message.args[2], &message.args[3]) {
        (
            HyprwireValue::Object(object_id),
            HyprwireValue::Uint(method_id),
            HyprwireValue::Varchar(monitor),
            HyprwireValue::Varchar(path),
        ) => {
            if *object_id == status_id && *method_id == HYPRPAPER_STATUS_ACTIVE_WALLPAPER {
                Some((monitor.clone(), path.clone()))
            } else {
                None
            }
        },
        _ => None,
    }
}

/// The position of `monitor`'s entry, or `entries.len()`.
pub open spec fn entry_index(entries: Seq<EntryView>, monitor: Seq<char>) -> int
    decreases entries.len(),
{
    if entries.len() == 0 || entries[0].0 == monitor {
        0
    } else {
        1 + entry_index(entries.drop_first(), monitor)
    }
}

proof fn lemma_entry_index(entries: Seq<EntryView>, monitor: Seq<char>)
    ensures
        0 <= entry_index(entries, monitor) <= entries.len(),
        entry_index(entries, monitor) < entries.len() ==> entries[entry_index(
            entries,
            monitor,
        )].0 == monitor,
        forall|j: int| 0 <= j < entry_index(entries, monitor) ==> (#[trigger] entries[j]).0
            != monitor,
    decreases entries.len(),
{
    if entries.len() > 0 && entries[0].0 != monitor {
        let t = entries.drop_first();
        lemma_entry_index(t, monitor);
        assert forall|j: int| 0 <= j < entry_index(entries, monitor) implies (#[trigger]
        entries[j]).0 != monitor by {
            if j > 0 {
                assert(entries[j] == t[j - 1]);
            }
        }
        if entry_index(entries, monitor) < entries.len() {
            assert(entries[entry_index(entries, monitor)] == t[entry_index(t, monitor)]);
        }
    }
}

proof fn lemma_entry_index_unique(entries: Seq<EntryView>, monitor: Seq<char>, k: int)
    requires
        0 <= k <= entries.len(),
        k < entries.len() ==> entries[k].0 == monitor,
        forall|j: int| 0 <= j < k ==> (#[trigger] entries[j]).0 != monitor,
    ensures
        entry_index(entries, monitor) == k,
{
    lemma_entry_index(entries, monitor);
    let i = entry_index(entries, monitor);
    if i < k {
        assert(entries[i].0 == monitor);
    }
    if k < i {
        assert(entries[k].0 != monitor);
    }
}

/// `entries` after `e` was reported: the monitor's path replaced in place, or
/// a new entry at the end.
pub open spec fn with_entry(entries: Seq<EntryView>, e: EntryView) -> Seq<EntryView> {
    let i = entry_index(entries, e.0);
    if i < entries.len() {
        entries.update(i, e)
    } else {
        entries.push(e)
    }
}

/// The entries that the events among `messages` leave.
pub open spec fn collected(messages: Seq<WireMessage>, status_id: u32) -> Seq<EntryView>
    decreases messages.len(),
{
    if messages.len() == 0 {
        Seq::empty()
    } else {
        let before = collected(messages.drop_last(), status_id);
        match event_of(messages.last(), status_id) {
            Some(e) => with_entry(before, e),
            None => before,
        }
    }
}

pub open spec fn message_views(messages: Seq<HyprwireMessage>) -> Seq<WireMessage> {
    messages.map_values(|m: HyprwireMessage| m@)
}

fn record_entry(entries: &mut Vec<(String, String)>, monitor: String, path: String)
    ensures
        entry_views(final(entries)@) == with_entry(entry_views(old(entries)@), (monitor@, path@)),
{
    let ghost views = entry_views(entries@);
    let mut i: usize = 0;
    while i < entries.len()
        invariant
            i <= entries.len(),
            views == entry_views(entries@),
            views == entry_views(old(entries)@),
            forall|j: int| 0 <= j < i ==> (#[trigger] views[j]).0 != monitor@,
        decreases entries.len() - i,
    {
        assert(views[i as int] == entry_view(entries@[i as int]));
        if text::str_eq(entries[i].0.as_str(), monitor.as_str()) {
            proof {
                lemma_entry_index_unique(views, monitor@, i as int);
            }
            let ghost e = (monitor@, path@);
            entries.set(i, (monitor, path));
            assert(entry_views(entries@) =~= views.update(i as int, e));
            return ;
        }
        i += 1;
    }
    proof {
        lemma_entry_index_unique(views, monitor@, views.len() as int);
    }
    let ghost e = (monitor@, path@);
    entries.push((monitor, path));
    assert(entry_views(entries@) =~= views.push(e));
}

/// The active wallpaper of each monitor that `messages` report. A later report
/// for a monitor replaces an earlier one.
pub fn collect_wallpaper_entries(messages: &[HyprwireMessage], status_id: u32) -> (entries: Vec<
    (String, String),
>)
    ensures
        entry_views(entries@) == collected(message_views(messages@), status_id),
{
    let mut entries: Vec<(String, String)> = Vec::new();
    let ghost views = message_views(messages@);
    let mut i: usize = 0;
    assert(entry_views(entries@) =~= collected(views.take(0), status_id));
    while i < messages.len()
        invariant
            i <= messages.len(),
            views == message_views(messages@),
            entry_views(entries@) == collected(views.take(i as int), status_id),
        decreases messages.len() - i,
    {
        assert(views.take(i + 1).drop_last() =~= views.take(i as int));
        assert(views.take(i + 1).last() == messages@[i as int]@);
        if let Some((monitor, path)) = parse_active_wallpaper_event(&messages[i], status_id) {
            record_entry(&mut entries, monitor, path);
        }
        i += 1;
    }
    assert(views.take(i as int) =~= views);
    entries
}

/// No monitor has two entries.
pub open spec fn distinct_monitors(entries: Seq<EntryView>) -> bool {
    forall|i: int, j: int|
        0 <= i < j < entries.len() ==> (#[trigger] entries[i]).0 != (#[trigger] entries[j]).0
}

/// However many events arrive, each monitor is listed once.
pub proof fn law_collected_monitors_are_distinct(messages: Seq<WireMessage>, status_id: u32)
    ensures
        distinct_monitors(collected(messages, status_id)),
    decreases messages.len(),
{
    if messages.len() > 0 {
        law_collected_monitors_are_distinct(messages.drop_last(), status_id);
        let before = collected(messages.drop_last(), status_id);
        if let Some(e) = event_of(messages.last(), status_id) {
            lemma_entry_index(before, e.0);
        }
    }
}

/// Of the events for a monitor the last one counts: where `messages[k]` is an
/// event for a monitor and no later message is one for it, its path is the one
/// that is listed.
pub proof fn law_latest_event_wins(messages: Seq<WireMessage>, status_id: u32, k: int)
    requires
        0 <= k < messages.len(),
        event_of(messages[k], status_id) is Some,
        forall|j: int|
            k < j < messages.len() && event_of(#[trigger] messages[j], status_id) is Some
                ==> event_of(messages[j], status_id)->Some_0.0 != event_of(
                messages[k],
                status_id,
            )->Some_0.0,
    ensures
        collected(messages, status_id).contains(event_of(messages[k], status_id)->Some_0),
    decreases messages.len(),
{
    let e = event_of(messages[k], status_id)->Some_0;
    let shorter = messages.drop_last();
    let before = collected(shorter, status_id);
    if k == messages.len() - 1 {
        lemma_entry_index(before, e.0);
        let i = entry_index(before, e.0);
        assert(collected(messages, status_id)[i] == e);
    } else {
        assert(shorter[k] == messages[k]);
        assert forall|j: int|
            k < j < shorter.len() && event_of(#[trigger] shorter[j], status_id) is Some implies
            event_of(shorter[j], status_id)->Some_0.0 != event_of(shorter[k], status_id)->Some_0.0 by {
            assert(shorter[j] == messages[j]);
        }
        law_latest_event_wins(shorter, status_id, k);
        let i = choose|i: int| 0 <= i < before.len() && before[i] == e;
        if let Some(last) = event_of(messages.last(), status_id) {
            lemma_entry_index(before, last.0);
            assert(messages.last() == messages[messages.len() - 1]);
            assert(with_entry(before, last)[i] == e);
        }
    }
}

// ---------------------------------------------------------------------------
// hyprpaper: text protocol
// ---------------------------------------------------------------------------

/// The entries that lines of `MONITOR = /path` list. Other lines count for
/// nothing.
pub open spec fn listed(lines: Seq<Seq<char>>) -> Seq<EntryView>
    decreases lines.len(),
{
    if lines.len() == 0 {
        Seq::empty()
    } else {
        let before = listed(lines.drop_last());
        match text::split_once_spec(lines.last(), '=') {
            Some((name, path)) => before.push((text::trim_spec(name), text::trim_spec(path))),
            None => before,
        }
    }
}

/// The wallpaper to use by a `listactive` response.
pub fn parse_hyprpaper_active_response(response: &str, monitor: Option<&str>) -> (r: Option<String>)
    ensures
        text::opt_string_view(r) == selected_path(
            listed(text::lines_spec(response@)),
            text::opt_view(monitor),
        ),
{
    let lines = text::lines(response);
    let ghost views = text::str_views(lines@);
    let mut entries: Vec<(String, String)> = Vec::new();
    let mut i: usize = 0;
    assert(entry_views(entries@) =~= listed(views.take(0)));
    while i < lines.len()
        invariant
            i <= lines.len(),
            views == text::str_views(lines@),
            entry_views(entries@) == listed(views.take(i as int)),
        decreases lines.len() - i,
    {
        assert(views.take(i + 1).drop_last() =~= views.take(i as int));
        assert(views.take(i + 1).last() == lines@[i as int]@);
        let ghost before = entries@;
        if let Some((name, path)) = text::split_once(lines[i], '=') {
            let e = (text::trim(name).to_string(), text::trim(path).to_string());
            let ghost ev = entry_view(e);
            entries.push(e);
            assert(entry_views(entries@) =~= entry_views(before).push(ev));
        }
        i += 1;
    }
    assert(views.take(i as int) =~= views);
    select_monitor_wallpaper(entries.as_slice(), monitor)
}

/// Whether a line of a process's memory map names the library that marks the
/// binary protocol, as the last component of its path.
pub open spec fn maps_toolkit(line: Seq<char>) -> bool {
    let i = text::last_index_of(line, '/');
    i >= 0 && text::has_prefix(line.skip(i + 1), "libhyprtoolkit.so"@)
}

/// Whether a process's memory map shows that it speaks the binary protocol.
pub open spec fn speaks_hyprwire(maps: Seq<char>) -> bool {
    exists|i: int|
        0 <= i < text::lines_spec(maps).len() && maps_toolkit(
            #[trigger] text::lines_spec(maps)[i],
        )
}

/// Whether a process's memory map shows that it speaks the binary protocol.
pub fn maps_indicate_hyprwire(maps: &str) -> (r: bool)
    ensures
        r == speaks_hyprwire(maps@),
{
    let lines = text::lines(maps);
    let ghost views = text::str_views(lines@);
    let mut i: usize = 0;
    while i < lines.len()
        invariant
            i <= lines.len(),
            views == text::str_views(lines@),
            views == text::lines_spec(maps@),
            forall|j: int| 0 <= j < i ==> !maps_toolkit(#[trigger] views[j]),
        decreases lines.len() - i,
    {
        let line = lines[i];
        assert(views[i as int] == line@);
        if let Some(k) = text::rfind_char(line, '/') {
            let n = text::chars_of(line).len();
            let name = line.substring_char(k + 1, n);
            assert(name@ =~= line@.skip(k + 1));
            if text::starts_with(name, "libhyprtoolkit.so") {
                return true;
            }
        }
        i += 1;
    }
    false
}

/// The protocol that a daemon is spoken to with.
#[derive(Debug, Clone, Copy, PartialEq, Eq, Structural)]
pub enum HyprpaperProtocol {
    /// The binary protocol.
    Hyprwire,
    /// The older text protocol.
    Legacy,
}

/// The only protocol that a daemon is asked with, by its memory map where that
/// could be read. The other one is never tried afterwards: it crashes old
/// daemons and fills the log of new ones. A daemon whose map is not known is
/// not asked at all.
pub fn hyprpaper_protocol(maps: Option<&str>) -> (r: Option<HyprpaperProtocol>)
    ensures
        r == match text::opt_view(maps) {
            Some(m) => Some(
                if speaks_hyprwire(m) {
                    HyprpaperProtocol::Hyprwire
                } else {
                    HyprpaperProtocol::Legacy
                },
            ),
            None => None::<HyprpaperProtocol>,
        },
{
    match maps {
        Some(m) => if maps_indicate_hyprwire(m) {
            Some(HyprpaperProtocol::Hyprwire)
        } else {
            Some(HyprpaperProtocol::Legacy)
        },
        None => None,
    }
}

/// The socket of one compositor instance.
pub fn hyprpaper_instance_socket(runtime_dir: &str, signature: &str) -> (r: String)
    ensures
        r@ == runtime_dir@ + "/hypr/"@ + signature@ + "/.hyprpaper.sock"@,
{
    let mut s = runtime_dir.to_string();
    s.append("/hypr/");
    s.append(signature);
    s.append("/.hyprpaper.sock");
    s
}

/// The socket to connect to: the instance's where there is a signature and the
/// instance's socket exists, else the one that all instances share. None
/// without a runtime directory.
pub fn resolve_hyprpaper_socket_path(
    runtime_dir: Option<&str>,
    signature: Option<&str>,
    instance_socket_exists: bool,
) -> (r: Option<String>)
    ensures
        text::opt_string_view(r) == match (runtime_dir, signature) {
            (None, _) => None,
            (Some(dir), Some(sig)) => Some(
                if instance_socket_exists {
                    dir@ + "/hypr/"@ + sig@ + "/.hyprpaper.sock"@
                } else {
                    dir@ + "/hypr/.hyprpaper.sock"@
                },
            ),
            (Some(dir), None) => Some(dir@ + "/hypr/.hyprpaper.sock"@),
        },
{
    match runtime_dir {
        None => None,
        Some(dir) => {
            if let Some(sig) = signature {
                if instance_socket_exists {
                    return Some(hyprpaper_instance_socket(dir, sig));
                }
            }
            let mut s = dir.to_string();
            s.append("/hypr/.hyprpaper.sock");
            Some(s)
        },
    }
}

// ---------------------------------------------------------------------------
// awww / swww
// ---------------------------------------------------------------------------

/// What stands before the path in a line of a query's output.
pub const AWWW_MARKER: &'static str = "currently displaying: image: ";

/// The path that a line of a query's output reports.
pub open spec fn awww_path(line: Seq<char>) -> Option<Seq<char>> {
    match text::find_spec(line, AWWW_MARKER@) {
        Some(k) => {
            let path = text::trim_spec(line.skip(k + AWWW_MARKER@.len()));
            if path.len() > 0 {
                Some(path)
            } else {
                None
            }
        },
        None => None,
    }
}

/// The path that a line of a query's output reports.
pub fn extract_awww_image_path(line: &str) -> (r: Option<String>)
    ensures
        text::opt_string_view(r) == awww_path(line@),
{
    match text::split_once_str(line, AWWW_MARKER) {
        None => None,
        Some((_, rest)) => {
            let path = text::trim(rest);
            if path.is_empty() {
                None
            } else {
                Some(path.to_string())
            }
        },
    }
}

/// The output that a line `NAMESPACE: OUTPUT: ...` is about.
pub open spec fn awww_output(line: Seq<char>) -> Option<Seq<char>> {
    match text::split_once_str_spec(line, ": "@) {
        Some((_, rest)) => match text::split_once_spec(rest, ':') {
            Some((name, _)) => Some(text::trim_spec(name)),
            None => None,
        },
        None => None,
    }
}

/// The first line that is about `target`.
pub open spec fn awww_line_of(lines: Seq<Seq<char>>, target: Seq<char>) -> Option<Seq<char>>
    decreases lines.len(),
{
    if lines.len() == 0 {
        None
    } else if awww_output(lines[0]) == Some(target) {
        Some(lines[0])
    } else {
        awww_line_of(lines.drop_first(), target)
    }
}

/// The first path that a line reports.
pub open spec fn awww_first_path(lines: Seq<Seq<char>>) -> Option<Seq<char>>
    decreases lines.len(),
{
    if lines.len() == 0 {
        None
    } else if let Some(p) = awww_path(lines[0]) {
        Some(p)
    } else {
        awww_first_path(lines.drop_first())
    }
}

/// What a query's output says: the path in the target's line where it has one
/// line, else the first path there is.
pub open spec fn awww_answer(lines: Seq<Seq<char>>, monitor: Option<Seq<char>>) -> Option<
    Seq<char>,
> {
    if let Some(t) = monitor {
        if let Some(line) = awww_line_of(lines, t) {
            awww_path(line)
        } else {
            awww_first_path(lines)
        }
    } else {
        awww_first_path(lines)
    }
}

/// The wallpaper by the output of a query, where the query succeeded.
pub fn detect_awww_wallpaper(success: bool, stdout: &str, monitor: Option<&str>) -> (r: Option<
    String,
>)
    ensures
        text::opt_string_view(r) == if success {
            awww_answer(text::lines_spec(stdout@), text::opt_view(monitor))
        } else {
            None
        },
{
    if !success {
        return None;
    }
    let lines = text::lines(stdout);
    let ghost views = text::str_views(lines@);
    if let Some(target) = monitor {
        let mut i: usize = 0;
        assert(views.skip(0) =~= views);
        while i < lines.len()
            invariant
                i <= lines.len(),
                success,
                views == text::str_views(lines@),
                views == text::lines_spec(stdout@),
                monitor == Some(target),
                awww_line_of(views.skip(i as int), target@) == awww_line_of(views, target@),
            decreases lines.len() - i,
        {
            let line = lines[i];
            let ghost here = views.skip(i as int);
            assert(here[0] == line@);
            assert(here.drop_first() =~= views.skip(i + 1));
            if let Some((_, after_ns)) = text::split_once_str(line, ": ") {
                if let Some((output_name, _)) = text::split_once(after_ns, ':') {
                    if text::str_eq(text::trim(output_name), target) {
                        return extract_awww_image_path(line);
                    }
                }
            }
            i += 1;
        }
        assert(awww_line_of(views, target@) is None);
    }
    let mut i: usize = 0;
    assert(views.skip(0) =~= views);
    while i < lines.len()
        invariant
            i <= lines.len(),
            success,
            views == text::str_views(lines@),
            views == text::lines_spec(stdout@),
            awww_answer(views, text::opt_view(monitor)) == awww_first_path(views),
            awww_first_path(views.skip(i as int)) == awww_first_path(views),
        decreases lines.len() - i,
    {
        let ghost here = views.skip(i as int);
        assert(here[0] == lines@[i as int]@);
        assert(here.drop_first() =~= views.skip(i + 1));
        if let Some(p) = extract_awww_image_path(lines[i]) {
            return Some(p);
        }
        i += 1;
    }
    None
}


// ---------------------------------------------------------------------------
// Paths
// ---------------------------------------------------------------------------

/// `path` below `base`; `path` itself where it is absolute.
pub open spec fn joined_path(base: Seq<char>, path: Seq<char>) -> Seq<char> {
    if path.len() > 0 && path[0] == '/' {
        path
    } else if base.len() == 0 || base.last() == '/' {
        base + path
    } else {
        base + "/"@ + path
    }
}

/// `path` below `base`; `path` itself where it is absolute.
pub fn join_path(base: &str, path: &str) -> (r: String)
    ensures
        r@ == joined_path(base@, path@),
{
    let b = text::chars_of(base);
    let p = text::chars_of(path);
    if p.len() > 0 && p[0] == '/' {
        return path.to_string();
    }
    let mut s = base.to_string();
    if b.len() > 0 && b[b.len() - 1] != '/' {
        s.append("/");
    }
    s.append(path);
    s
}

/// `path` with a leading `~` component replaced by the home directory.
pub open spec fn expanded(path: Seq<char>, home: Seq<char>) -> Seq<char> {
    if path == "~"@ {
        home
    } else if text::has_prefix(path, "~/"@) {
        home + path.skip(1)
    } else {
        path
    }
}

/// `path` with a leading `~` component replaced by the home directory.
pub fn expand_tilde(path: &str, home: &str) -> (r: String)
    ensures
        r@ == expanded(path@, home@),
{
    if text::str_eq(path, "~") {
        return home.to_string();
    }
    if text::starts_with(path, "~/") {
        proof {
            reveal_strlit("~/");
        }
        let n = text::chars_of(path).len();
        let rest = path.substring_char(1, n);
        assert(rest@ =~= path@.skip(1));
        let mut s = home.to_string();
        s.append(rest);
        return s;
    }
    path.to_string()
}

// ---------------------------------------------------------------------------
// wpaperd
// ---------------------------------------------------------------------------

/// The directory of state files: the configured one, else the usual place
/// below the home directory. None where that leaves no text at all.
pub open spec fn state_dir(xdg_state_home: Option<Seq<char>>, home: Option<Seq<char>>) -> Option<
    Seq<char>,
> {
    let dir = match xdg_state_home {
        Some(d) => d,
        None => match home {
            Some(h) => h + "/.local/state"@,
            None => Seq::empty(),
        },
    };
    if dir.len() > 0 {
        Some(dir)
    } else {
        None
    }
}

/// The directory in which wpaperd keeps a link to each output's wallpaper.
pub fn wpaperd_wallpapers_dir(xdg_state_home: Option<&str>, home: Option<&str>) -> (r: Option<
    String,
>)
    ensures
        text::opt_string_view(r) == match state_dir(
            text::opt_view(xdg_state_home),
            text::opt_view(home),
        ) {
            Some(dir) => Some(joined_path(dir, "wpaperd/wallpapers"@)),
            None => None,
        },
{
    let dir = match xdg_state_home {
        Some(d) => d.to_string(),
        None => match home {
            Some(h) => {
                let mut s = h.to_string();
                s.append("/.local/state");
                s
            },
            None => String::new(),
        },
    };
    if dir.as_str().is_empty() {
        None
    } else {
        Some(join_path(dir.as_str(), "wpaperd/wallpapers"))
    }
}

/// The first link that could be read.
pub open spec fn first_link(links: Seq<Option<String>>) -> Option<Seq<char>>
    decreases links.len(),
{
    if links.len() == 0 {
        None
    } else if let Some(p) = links[0] {
        Some(p@)
    } else {
        first_link(links.drop_first())
    }
}

/// The wallpaper by wpaperd's links: the target's where it could be read, else
/// the first of the directory's that could be.
pub fn detect_wpaperd_wallpaper(target_link: Option<String>, links: &Vec<Option<String>>) -> (r:
    Option<String>)
    ensures
        text::opt_string_view(r) == match target_link {
            Some(p) => Some(p@),
            None => first_link(links@),
        },
{
    if target_link.is_some() {
        return target_link;
    }
    let mut i: usize = 0;
    assert(links@.skip(0) =~= links@);
    while i < links.len()
        invariant
            i <= links.len(),
            target_link is None,
            first_link(links@.skip(i as int)) == first_link(links@),
        decreases links.len() - i,
    {
        assert(links@.skip(i as int).drop_first() =~= links@.skip(i + 1));
        if let Some(p) = &links[i] {
            return Some(p.clone());
        }
        i += 1;
    }
    None
}

// ---------------------------------------------------------------------------
// waypaper
// ---------------------------------------------------------------------------

/// What the lines of an INI file have said so far.
pub struct IniView {
    pub in_settings: bool,
    pub wallpaper: Option<Seq<char>>,
    pub monitors: Option<Seq<char>>,
}

/// What one more line says. Keys count only inside the settings section, and
/// the last value of a key stands.
pub open spec fn ini_line(st: IniView, line: Seq<char>) -> IniView {
    let trimmed = text::trim_spec(line);
    if trimmed.len() > 0 && trimmed[0] == '[' {
        IniView { in_settings: text::same_ignoring_case(trimmed, "[settings]"@), ..st }
    } else if !st.in_settings {
        st
    } else {
        match text::split_once_spec(trimmed, '=') {
            Some((k, v)) => {
                let key = text::trim_spec(k);
                let value = text::trim_spec(v);
                if key == "wallpaper"@ {
                    IniView { wallpaper: Some(value), ..st }
                } else if key == "monitors"@ {
                    IniView { monitors: Some(value), ..st }
                } else {
                    st
                }
            },
            None => st,
        }
    }
}

pub open spec fn ini_lines(lines: Seq<Seq<char>>) -> IniView
    decreases lines.len(),
{
    if lines.len() == 0 {
        IniView { in_settings: false, wallpaper: None, monitors: None }
    } else {
        ini_line(ini_lines(lines.drop_last()), lines.last())
    }
}

/// The trimmed items of a comma-separated list.
pub open spec fn csv_items(s: Seq<char>) -> Seq<Seq<char>> {
    text::split_spec(s, ',').map_values(|p: Seq<char>| text::trim_spec(p))
}

/// The wallpaper that a waypaper configuration names: where it lists monitors,
/// the path at the target's place; else the first path.
pub open spec fn waypaper_answer(st: IniView, monitor: Option<Seq<char>>, home: Seq<char>) -> Option<
    Seq<char>,
> {
    match st.wallpaper {
        None => None,
        Some(w) => {
            let paths = csv_items(w);
            let first = Some(expanded(paths[0], home));
            match (monitor, st.monitors) {
                (Some(t), Some(ms)) => {
                    let i = text::position_of(csv_items(ms), t);
                    if i < csv_items(ms).len() && i < paths.len() {
                        Some(expanded(paths[i], home))
                    } else {
                        first
                    }
                },
                _ => first,
            }
        },
    }
}

/// The position of `target` among the items of `list`.
fn csv_position(list: &str, target: &str) -> (r: Option<usize>)
    ensures
        match r {
            Some(i) => i == text::position_of(csv_items(list@), target@) && i < csv_items(
                list@,
            ).len(),
            None => text::position_of(csv_items(list@), target@) >= csv_items(list@).len(),
        },
{
    let items = text::split(list, ',');
    let ghost views = csv_items(list@);
    let mut i: usize = 0;
    assert(views.skip(0) =~= views);
    while i < items.len()
        invariant
            i <= items.len(),
            text::str_views(items@) == text::split_spec(list@, ','),
            views == csv_items(list@),
            views.len() == items.len(),
            text::position_of(views, target@) == i + text::position_of(
                views.skip(i as int),
                target@,
            ),
        decreases items.len() - i,
    {
        let ghost here = views.skip(i as int);
        assert(text::str_views(items@)[i as int] == items@[i as int]@);
        assert(here[0] == text::trim_spec(items@[i as int]@));
        assert(here.drop_first() =~= views.skip(i + 1));
        if text::str_eq(text::trim(items[i]), target) {
            return Some(i);
        }
        i += 1;
    }
    None
}

/// The item of `list` at `i`.
fn csv_item(list: &str, i: usize) -> (r: Option<String>)
    ensures
        r.is_some() == (i < csv_items(list@).len()),
        r matches Some(s) ==> s@ == csv_items(list@)[i as int],
{
    let items = text::split(list, ',');
    assert(text::str_views(items@).len() == items@.len());
    if i < items.len() {
        assert(text::str_views(items@)[i as int] == items@[i as int]@);
        Some(text::trim(items[i]).to_string())
    } else {
        None
    }
}

/// The wallpaper that the text of a waypaper configuration names.
pub fn detect_waypaper_wallpaper(content: &str, monitor: Option<&str>, home: &str) -> (r: Option<
    String,
>)
    ensures
        text::opt_string_view(r) == waypaper_answer(
            ini_lines(text::lines_spec(content@)),
            text::opt_view(monitor),
            home@,
        ),
{
    let lines = text::lines(content);
    let ghost views = text::str_views(lines@);
    let mut in_settings: bool = false;
    let mut wallpaper: Option<String> = None;
    let mut monitors: Option<String> = None;
    let mut i: usize = 0;
    while i < lines.len()
        invariant
            i <= lines.len(),
            views == text::str_views(lines@),
            ini_lines(views.take(i as int)) == (IniView {
                in_settings,
                wallpaper: text::opt_string_view(wallpaper),
                monitors: text::opt_string_view(monitors),
            }),
        decreases lines.len() - i,
    {
        assert(views.take(i + 1).drop_last() =~= views.take(i as int));
        assert(views.take(i + 1).last() == lines@[i as int]@);
        let trimmed = text::trim(lines[i]);
        let cs = text::chars_of(trimmed);
        if cs.len() > 0 && cs[0] == '[' {
            in_settings = text::eq_ignore_ascii_case(trimmed, "[settings]");
        } else if in_settings {
            if let Some((k, v)) = text::split_once(trimmed, '=') {
                let key = text::trim(k);
                if text::str_eq(key, "wallpaper") {
                    wallpaper = Some(text::trim(v).to_string());
                } else if text::str_eq(key, "monitors") {
                    monitors = Some(text::trim(v).to_string());
                }
            }
        }
        i += 1;
    }
    assert(views.take(i as int) =~= views);
    match wallpaper {
        None => None,
        Some(w) => {
            proof {
                text::lemma_split_nonempty(w@, ',');
            }
            if let Some(target) = monitor {
                if let Some(ms) = &monitors {
                    if let Some(idx) = csv_position(ms.as_str(), target) {
                        if let Some(path) = csv_item(w.as_str(), idx) {
                            return Some(expand_tilde(path.as_str(), home));
                        }
                    }
                }
            }
            match csv_item(w.as_str(), 0) {
                Some(path) => Some(expand_tilde(path.as_str(), home)),
                None => None,
            }
        },
    }
}

/// Where waypaper keeps its configuration.
pub fn waypaper_config_path(xdg_config_home: Option<&str>, home: &str) -> (r: String)
    ensures
        r@ == joined_path(
            match xdg_config_home {
                Some(d) => d@,
                None => home@ + "/.config"@,
            },
            "waypaper/config.ini"@,
        ),
{
    let dir = match xdg_config_home {
        Some(d) => d.to_string(),
        None => {
            let mut s = home.to_string();
            s.append("/.config");
            s
        },
    };
    join_path(dir.as_str(), "waypaper/config.ini")
}

// ---------------------------------------------------------------------------
// The order of detection
// ---------------------------------------------------------------------------

/// The daemons that are asked, in order.
#[derive(Debug, Clone, Copy, PartialEq, Eq, Structural)]
pub enum WallpaperSource {
    Hyprpaper,
    Wpaperd,
    Waypaper,
    Awww,
}

/// What to do next in order to find the wallpaper.
#[derive(Debug)]
pub enum DetectStep {
    Ask(WallpaperSource),
    Found(String),
    NotFound,
}

/// What a `DetectStep` stands for.
pub enum DetectView {
    Ask(WallpaperSource),
    Found(Seq<char>),
    NotFound,
}

impl View for DetectStep {
    type V = DetectView;

    open spec fn view(&self) -> DetectView {
        match self {
            DetectStep::Ask(s) => DetectView::Ask(*s),
            DetectStep::Found(p) => DetectView::Found(p@),
            DetectStep::NotFound => DetectView::NotFound,
        }
    }
}

/// The source to ask after `s`. Those that only look at sockets and files come
/// before the one that starts a program.
pub open spec fn source_after(s: WallpaperSource) -> Option<WallpaperSource> {
    match s {
        WallpaperSource::Hyprpaper => Some(WallpaperSource::Wpaperd),
        WallpaperSource::Wpaperd => Some(WallpaperSource::Waypaper),
        WallpaperSource::Waypaper => Some(WallpaperSource::Awww),
        WallpaperSource::Awww => None,
    }
}

/// What follows when `asked` gave `answer`.
pub open spec fn detect_next(asked: WallpaperSource, answer: Option<Seq<char>>) -> DetectView {
    match answer {
        Some(p) => DetectView::Found(p),
        None => match source_after(asked) {
            Some(s) => DetectView::Ask(s),
            None => DetectView::NotFound,
        },
    }
}

/// What to do next, given the source that was asked last and its answer.
pub fn detect_wallpaper(last: Option<(WallpaperSource, Option<String>)>) -> (step: DetectStep)
    ensures
        step@ == match last {
            None => DetectView::Ask(WallpaperSource::Hyprpaper),
            Some((asked, answer)) => detect_next(asked, text::opt_string_view(answer)),
        },
{
    match last {
        None => DetectStep::Ask(WallpaperSource::Hyprpaper),
        Some((_, Some(path))) => DetectStep::Found(path),
        Some((WallpaperSource::Hyprpaper, None)) => DetectStep::Ask(WallpaperSource::Wpaperd),
        Some((WallpaperSource::Wpaperd, None)) => DetectStep::Ask(WallpaperSource::Waypaper),
        Some((WallpaperSource::Waypaper, None)) => DetectStep::Ask(WallpaperSource::Awww),
        Some((WallpaperSource::Awww, None)) => DetectStep::NotFound,
    }
}

/// Where detection ends when it goes on from asking `s` and each source would
/// give `answers(source)`.
pub open spec fn detection_end(
    s: WallpaperSource,
    answers: spec_fn(WallpaperSource) -> Option<Seq<char>>,
) -> Option<Seq<char>>
    decreases
            match s {
                WallpaperSource::Hyprpaper => 3int,
                WallpaperSource::Wpaperd => 2,
                WallpaperSource::Waypaper => 1,
                WallpaperSource::Awww => 0,
            },
{
    match detect_next(s, answers(s)) {
        DetectView::Found(p) => Some(p),
        DetectView::Ask(t) => if source_after(s) == Some(t) {
            detection_end(t, answers)
        } else {
            None
        },
        DetectView::NotFound => None,
    }
}

/// Detection ends with the answer of the first source, in the order hyprpaper,
/// wpaperd, waypaper, awww, that has one.
pub proof fn law_first_source_wins(answers: spec_fn(WallpaperSource) -> Option<Seq<char>>)
    ensures
        detection_end(WallpaperSource::Hyprpaper, answers) == {
            let h = answers(WallpaperSource::Hyprpaper);
            let w = answers(WallpaperSource::Wpaperd);
            let y = answers(WallpaperSource::Waypaper);
            if h is Some {
                h
            } else if w is Some {
                w
            } else if y is Some {
                y
            } else {
                answers(WallpaperSource::Awww)
            }
        },
{
    reveal_with_fuel(detection_end, 4);
}

} // verus!
