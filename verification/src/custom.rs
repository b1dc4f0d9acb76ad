//! Custom widgets: an icon and a label of the user's, a command whose output
//! the label shows, and a command on click.

use vstd::prelude::*;
use vstd::string::*;

use crate::base;
use crate::base::ExitStatus;
use crate::config;
use crate::config::{OptionMap, WidgetEntry};
use crate::hyprwire;
use crate::text;

verus! {

/// How long a command may take, in seconds.
pub const EXEC_TIMEOUT_SECS: u64 = 10;

/// What style classes of custom widgets begin with.
pub const CUSTOM_PREFIX: &'static str = "custom-";

/// What stands for the output in a template.
pub const OUTPUT_PLACEHOLDER: &'static str = "{output}";

#[derive(Debug)]
pub struct CustomConfig {
    pub icon: Option<String>,
    /// What the label shows where no command gives it anything.
    pub label: String,
    /// The command whose first line of output the label shows.
    pub command: Option<String>,
    pub template: Option<String>,
    /// Seconds between runs of the command; 0 runs it once.
    pub interval: u64,
    pub on_click: Option<String>,
    pub tooltip: Option<String>,
    pub max_chars: Option<i32>,
}

pub struct CustomView {
    pub icon: Option<Seq<char>>,
    pub label: Seq<char>,
    pub command: Option<Seq<char>>,
    pub template: Option<Seq<char>>,
    pub interval: u64,
    pub on_click: Option<Seq<char>>,
    pub tooltip: Option<Seq<char>>,
    pub max_chars: Option<i32>,
}

impl View for CustomConfig {
    type V = CustomView;

    open spec fn view(&self) -> CustomView {
        CustomView {
            icon: text::opt_string_view(self.icon),
            label: self.label@,
            command: text::opt_string_view(self.command),
            template: text::opt_string_view(self.template),
            interval: self.interval,
            on_click: text::opt_string_view(self.on_click),
            tooltip: text::opt_string_view(self.tooltip),
            max_chars: self.max_chars,
        }
    }
}

impl Default for CustomConfig {
    fn default() -> (c: Self)
        ensures
            c@ == custom_config(Map::empty()),
    {
        let c = CustomConfig {
            icon: None,
            label: String::new(),
            command: None,
            template: None,
            interval: 0,
            on_click: None,
            tooltip: None,
            max_chars: None,
        };
        assert(c.label@ =~= Seq::<char>::empty());
        c
    }
}

/// An interval: 0 where there is none or it is negative.
pub open spec fn interval_of(n: Option<i64>) -> u64 {
    match n {
        Some(v) => if v < 0 {
            0
        } else {
            v as u64
        },
        None => 0,
    }
}

/// A limit on characters: at least one, and no more than an `i32` holds.
pub open spec fn max_chars_of(n: Option<i64>) -> Option<i32> {
    match n {
        Some(v) => if v < 1 {
            Some(1i32)
        } else if v > i32::MAX {
            Some(i32::MAX)
        } else {
            Some(v as i32)
        },
        None => None,
    }
}

/// The configuration of a custom widget.
pub open spec fn custom_config(m: OptionMap) -> CustomView {
    CustomView {
        icon: config::text_option(m, "icon"@),
        label: match config::text_option(m, "label"@) {
            Some(s) => s,
            None => Seq::empty(),
        },
        command: config::text_option(m, "exec"@),
        template: config::text_option(m, "template"@),
        interval: interval_of(config::integer_option(m, "interval"@)),
        on_click: config::text_option(m, "on_click"@),
        tooltip: config::text_option(m, "tooltip"@),
        max_chars: max_chars_of(config::integer_option(m, "max_chars"@)),
    }
}

impl CustomConfig {
    /// Reads the configuration. Options of a wrong kind count as absent.
    pub fn from_entry(entry: &WidgetEntry) -> (c: Self)
        ensures
            c@ == custom_config(entry.options@),
    {
        let label = match entry.text("label") {
            Some(s) => s.to_string(),
            None => String::new(),
        };
        let interval: u64 = match entry.integer("interval") {
            Some(v) => if v < 0 {
                0
            } else {
                v as u64
            },
            None => 0,
        };
        let max_chars: Option<i32> = match entry.integer("max_chars") {
            Some(v) => if v < 1 {
                Some(1)
            } else if v > 0x7fff_ffff {
                Some(0x7fff_ffff)
            } else {
                Some(v as i32)
            },
            None => None,
        };
        assert(label@ =~= custom_config(entry.options@).label);
        CustomConfig {
            icon: entry.owned_text("icon"),
            label,
            command: entry.owned_text("exec"),
            template: entry.owned_text("template"),
            interval,
            on_click: entry.owned_text("on_click"),
            tooltip: entry.owned_text("tooltip"),
            max_chars,
        }
    }
}

// ---------------------------------------------------------------------------
// The widget
// ---------------------------------------------------------------------------

/// The label of a custom widget.
#[derive(Debug)]
pub struct LabelPlan {
    pub text: Option<String>,
    /// Longer texts are cut with an ellipsis.
    pub max_chars: Option<i32>,
}

/// The command of a custom widget.
#[derive(Debug)]
pub struct ExecPlan {
    pub cmd: String,
    /// Seconds between runs, where it runs more than once.
    pub period: Option<u32>,
    /// The command that decides before each run whether the widget is shown.
    pub gate: Option<String>,
    /// The label while the command prints nothing.
    pub fallback: String,
    pub template: Option<String>,
}

/// How a custom widget is put together.
#[derive(Debug)]
pub struct CustomPlan {
    pub css_class: String,
    /// An interval is set but there is nothing to run.
    pub warn_interval: bool,
    /// Visibility is checked before each run of the command instead of by a
    /// timer of its own.
    pub piggyback: bool,
    /// An interval for visibility checks is set but not used.
    pub warn_show_if_interval: bool,
    pub clickable: bool,
    /// The command of a click with the primary button.
    pub on_click: Option<String>,
    pub tooltip: Option<String>,
    /// The name of the icon before the label.
    pub icon: Option<String>,
    pub label: Option<LabelPlan>,
    pub command: Option<ExecPlan>,
}

pub open spec fn piggybacks(c: CustomView, show_if: Option<Seq<char>>) -> bool {
    c.command is Some && c.interval > 0 && show_if is Some
}

/// Seconds between runs of the command.
pub open spec fn exec_period(c: CustomView) -> Option<u32> {
    if c.interval == 0 {
        None
    } else if c.interval > u32::MAX {
        Some(u32::MAX)
    } else {
        Some(c.interval as u32)
    }
}

impl CustomPlan {
    pub open spec fn is_plan(
        self,
        id: Seq<char>,
        c: CustomView,
        show_if: Option<Seq<char>>,
        has_show_if_interval: bool,
    ) -> bool {
        &&& self.css_class@ == CUSTOM_PREFIX@ + id
        &&& self.warn_interval == (c.interval > 0 && c.command is None)
        &&& self.piggyback == piggybacks(c, show_if)
        &&& self.warn_show_if_interval == (piggybacks(c, show_if) && has_show_if_interval)
        &&& self.clickable == (c.on_click is Some)
        &&& text::opt_string_view(self.on_click) == c.on_click
        &&& text::opt_string_view(self.tooltip) == c.tooltip
        &&& text::opt_string_view(self.icon) == c.icon
        &&& match self.label {
            Some(l) => {
                &&& c.label.len() > 0 || c.command is Some
                &&& text::opt_string_view(l.text) == if c.label.len() > 0 {
                    Some(c.label)
                } else {
                    None
                }
                &&& l.max_chars == c.max_chars
            },
            None => c.label.len() == 0 && c.command is None,
        }
        &&& match self.command {
            Some(e) => {
                &&& c.command == Some(e.cmd@)
                &&& e.period == exec_period(c)
                &&& text::opt_string_view(e.gate) == if piggybacks(c, show_if) {
                    show_if
                } else {
                    None
                }
                &&& e.fallback@ == c.label
                &&& text::opt_string_view(e.template) == c.template
            },
            None => c.command is None,
        }
    }
}

/// Decides how a custom widget is put together.
pub fn plan_custom_widget(
    custom_id: &str,
    config: &CustomConfig,
    show_if: Option<&str>,
    has_show_if_interval: bool,
) -> (plan: CustomPlan)
    ensures
        plan.is_plan(custom_id@, config@, text::opt_view(show_if), has_show_if_interval),
{
    let mut css_class = CUSTOM_PREFIX.to_string();
    css_class.append(custom_id);
    let piggyback = config.command.is_some() && config.interval > 0 && show_if.is_some();
    let labelled = config.label.as_str().unicode_len() > 0;
    let label = if labelled || config.command.is_some() {
        Some(
            LabelPlan {
                text: if labelled {
                    Some(config.label.clone())
                } else {
                    None
                },
                max_chars: config.max_chars,
            },
        )
    } else {
        None
    };
    let period: Option<u32> = if config.interval == 0 {
        None
    } else if config.interval > 0xffff_ffff {
        Some(0xffff_ffff)
    } else {
        Some(config.interval as u32)
    };
    let gate = if piggyback {
        match show_if {
            Some(c) => Some(c.to_string()),
            None => None,
        }
    } else {
        None
    };
    let command = match &config.command {
        Some(cmd) => Some(
            ExecPlan {
                cmd: cmd.clone(),
                period,
                gate,
                fallback: config.label.clone(),
                template: text::clone_opt(&config.template),
            },
        ),
        None => None,
    };
    CustomPlan {
        css_class,
        warn_interval: config.interval > 0 && config.command.is_none(),
        piggyback,
        warn_show_if_interval: piggyback && has_show_if_interval,
        clickable: config.on_click.is_some(),
        on_click: text::clone_opt(&config.on_click),
        tooltip: text::clone_opt(&config.tooltip),
        icon: text::clone_opt(&config.icon),
        label,
        command,
    }
}

// ---------------------------------------------------------------------------
// Running the command
// ---------------------------------------------------------------------------

/// What comes next when the command is to be run.
#[derive(Debug)]
pub enum ExecStep {
    /// There is no label to show anything.
    Nothing,
    /// Run this first; go on where it succeeds.
    CheckGate(String),
    Run,
}

pub enum ExecStepView {
    Nothing,
    CheckGate(Seq<char>),
    Run,
}

impl View for ExecStep {
    type V = ExecStepView;

    open spec fn view(&self) -> ExecStepView {
        match self {
            ExecStep::Nothing => ExecStepView::Nothing,
            ExecStep::CheckGate(c) => ExecStepView::CheckGate(c@),
            ExecStep::Run => ExecStepView::Run,
        }
    }
}

/// Begins a run of the command.
pub fn start_exec(has_label: bool, gate: Option<&str>) -> (r: ExecStep)
    ensures
        r@ == if !has_label {
            ExecStepView::Nothing
        } else {
            match gate {
                Some(c) => ExecStepView::CheckGate(c@),
                None => ExecStepView::Run,
            }
        },
{
    if !has_label {
        return ExecStep::Nothing;
    }
    match gate {
        Some(c) => ExecStep::CheckGate(c.to_string()),
        None => ExecStep::Run,
    }
}

/// What a visibility check leads to.
#[derive(Debug)]
pub struct AfterGate {
    pub visible: bool,
    pub step: ExecStep,
}

/// Goes on after a visibility check. `wanted` is its answer, where it gave one.
/// The widget is hidden and its command skipped, or it is shown and its command
/// runs.
pub fn after_gate(wanted: Option<bool>) -> (r: AfterGate)
    ensures
        r.visible == (wanted == Some(true)),
        r.step@ == if wanted == Some(true) {
            ExecStepView::Run
        } else {
            ExecStepView::Nothing
        },
{
    match wanted {
        Some(true) => AfterGate { visible: true, step: ExecStep::Run },
        _ => AfterGate { visible: false, step: ExecStep::Nothing },
    }
}

/// What a click with the primary button does.
#[derive(Debug)]
pub struct ClickRun {
    pub cmd: String,
    /// What follows once the command has ended, however it ended.
    pub follow_up: ExecStep,
}

impl CustomPlan {
    /// What a click with the primary button does: its command runs, and then
    /// the widget's own command at once, so that the label shows the new state.
    /// No gate is asked, since the user clicked on what they see.
    pub fn on_primary_click(&self) -> (r: Option<ClickRun>)
        ensures
            match r {
                Some(c) => {
                    &&& text::opt_string_view(self.on_click) == Some(c.cmd@)
                    &&& c.follow_up@ == if self.command is Some && self.label is Some {
                        ExecStepView::Run
                    } else {
                        ExecStepView::Nothing
                    }
                },
                None => self.on_click is None,
            },
    {
        match &self.on_click {
            Some(cmd) => {
                let follow_up = if self.command.is_some() {
                    start_exec(self.label.is_some(), None)
                } else {
                    ExecStep::Nothing
                };
                Some(ClickRun { cmd: cmd.clone(), follow_up })
            },
            None => None,
        }
    }
}

/// A widget that is planned with a command has a label to show what it prints,
/// so each run of it, by the timer or by a click, does something.
pub proof fn law_commands_have_a_label(
    plan: CustomPlan,
    id: Seq<char>,
    c: CustomView,
    show_if: Option<Seq<char>>,
    has_show_if_interval: bool,
)
    requires
        plan.is_plan(id, c, show_if, has_show_if_interval),
        c.command is Some,
    ensures
        plan.command is Some,
        plan.label is Some,
{
}

/// How a run of the command ended.
#[derive(Debug)]
pub enum ExecEnd {
    NotSpawned(String),
    NotAwaited(String),
    Ended { status: ExitStatus, stdout: Vec<u8> },
}

/// The bytes of the first line with its line break.
pub open spec fn first_line(bytes: Seq<u8>) -> Seq<u8>
    decreases bytes.len(),
{
    if bytes.len() == 0 {
        Seq::empty()
    } else if bytes[0] == 10 {
        seq![10u8]
    } else {
        seq![bytes[0]] + first_line(bytes.drop_first())
    }
}

/// A line as text; one that is not UTF-8 counts as empty.
pub open spec fn line_text(line: Seq<u8>) -> Seq<char> {
    if vstd::utf8::valid_utf8(line) {
        vstd::utf8::decode_utf8(line)
    } else {
        Seq::empty()
    }
}

/// What the command printed, or why it did not.
pub open spec fn exec_result(e: ExecEnd) -> Result<Seq<char>, Seq<char>> {
    match e {
        ExecEnd::NotSpawned(m) => Err("Failed to spawn: "@ + m@),
        ExecEnd::NotAwaited(m) => Err("Wait failed: "@ + m@),
        ExecEnd::Ended { status, stdout } => if status.killed() {
            Err("Command timed out after "@ + text::dec(EXEC_TIMEOUT_SECS as nat) + "s"@)
        } else if !status.succeeded() {
            Err(base::exit_text(status))
        } else {
            Ok(line_text(first_line(stdout@)))
        },
    }
}

fn take_first_line(bytes: &Vec<u8>) -> (r: Vec<u8>)
    ensures
        r@ == first_line(bytes@),
{
    let mut r: Vec<u8> = Vec::new();
    let mut i: usize = 0;
    assert(bytes@.skip(0) =~= bytes@);
    assert(r@ + first_line(bytes@.skip(0)) =~= first_line(bytes@));
    while i < bytes.len()
        invariant
            i <= bytes.len(),
            r@ + first_line(bytes@.skip(i as int)) == first_line(bytes@),
        decreases bytes.len() - i,
    {
        let ghost before = r@;
        let b = bytes[i];
        r.push(b);
        assert(bytes@.skip(i as int).drop_first() =~= bytes@.skip(i + 1));
        if b == 10 {
            assert(r@ =~= before + seq![10u8]);
            return r;
        }
        assert(before + (seq![b] + first_line(bytes@.skip(i + 1))) =~= r@ + first_line(
            bytes@.skip(i + 1),
        ));
        i += 1;
    }
    assert(bytes@.skip(i as int) =~= Seq::<u8>::empty());
    assert(r@ =~= first_line(bytes@));
    r
}

/// Reads what the command printed.
pub fn read_exec(end: &ExecEnd) -> (r: Result<String, String>)
    ensures
        match r {
            Ok(s) => exec_result(*end) == Ok::<Seq<char>, Seq<char>>(s@),
            Err(e) => exec_result(*end) == Err::<Seq<char>, Seq<char>>(e@),
        },
{
    match end {
        ExecEnd::NotSpawned(m) => {
            let mut e = "Failed to spawn: ".to_string();
            e.append(m.as_str());
            Err(e)
        },
        ExecEnd::NotAwaited(m) => {
            let mut e = "Wait failed: ".to_string();
            e.append(m.as_str());
            Err(e)
        },
        ExecEnd::Ended { status, stdout } => {
            if status.was_killed() {
                let mut e = "Command timed out after ".to_string();
                e.append(text::decimal(EXEC_TIMEOUT_SECS).as_str());
                e.append("s");
                return Err(e);
            }
            if !status.success() {
                return Err(base::describe_exit_status(*status));
            }
            match hyprwire::string_from_utf8(take_first_line(stdout)) {
                Ok(s) => Ok(s),
                Err(_) => {
                    let s = String::new();
                    assert(s@ =~= Seq::<char>::empty());
                    Ok(s)
                },
            }
        },
    }
}

/// What changes after a run: the label's text and the widget's visibility,
/// each where it is set.
#[derive(Debug)]
pub struct ExecDisplay {
    pub label: Option<String>,
    pub visible: Option<bool>,
}

/// The label after a run. An empty output brings the fallback back; a failure
/// keeps what was there.
pub open spec fn exec_label(
    result: Result<Seq<char>, Seq<char>>,
    fallback: Seq<char>,
    template: Option<Seq<char>>,
) -> Option<Seq<char>> {
    match result {
        Ok(output) => {
            let t = text::trim_spec(output);
            if t.len() == 0 {
                Some(fallback)
            } else {
                match template {
                    Some(p) => Some(text::replaced(p, OUTPUT_PLACEHOLDER@, t)),
                    None => Some(t),
                }
            }
        },
        Err(_) => None,
    }
}

/// The visibility after a run. Without output and fallback the widget hides;
/// with output it shows.
pub open spec fn exec_visible(
    result: Result<Seq<char>, Seq<char>>,
    fallback: Seq<char>,
) -> Option<bool> {
    match result {
        Ok(output) => if text::trim_spec(output).len() > 0 {
            Some(true)
        } else if fallback.len() == 0 {
            Some(false)
        } else {
            None
        },
        Err(_) => None,
    }
}

/// What changes after a run of the command.
pub fn run_exec(end: &ExecEnd, fallback: &str, template: Option<&str>) -> (r: ExecDisplay)
    ensures
        text::opt_string_view(r.label) == exec_label(
            exec_result(*end),
            fallback@,
            text::opt_view(template),
        ),
        r.visible == exec_visible(exec_result(*end), fallback@),
{
    let output = match read_exec(end) {
        Ok(s) => s,
        Err(_) => {
            return ExecDisplay { label: None, visible: None };
        },
    };
    let t = text::trim(output.as_str());
    if t.unicode_len() == 0 {
        let visible = if fallback.unicode_len() == 0 {
            Some(false)
        } else {
            None
        };
        return ExecDisplay { label: Some(fallback.to_string()), visible };
    }
    let label = match template {
        Some(p) => {
            proof {
                reveal_strlit("{output}");
            }
            text::replace_str(p, OUTPUT_PLACEHOLDER, t)
        },
        None => t.to_string(),
    };
    ExecDisplay { label: Some(label), visible: Some(true) }
}

/// A failed run changes nothing that is shown.
pub proof fn law_failures_keep_the_display(
    error: Seq<char>,
    fallback: Seq<char>,
    template: Option<Seq<char>>,
)
    ensures
        exec_label(Err(error), fallback, template) is None,
        exec_visible(Err(error), fallback) is None,
{
}

/// A widget is hidden by its command only where there is nothing to show.
pub proof fn law_hidden_only_without_text(
    result: Result<Seq<char>, Seq<char>>,
    fallback: Seq<char>,
    template: Option<Seq<char>>,
)
    requires
        exec_visible(result, fallback) == Some(false),
    ensures
        exec_label(result, fallback, template) == Some(Seq::<char>::empty()),
{
    assert(fallback =~= Seq::<char>::empty());
}

} // verus!
