//! The execution engine's decisions: which host work an approved command
//! needs, the guards in front of killing a process, and the result reported
//! once the host has done its part.

use vstd::prelude::*;
use crate::command::Command;
use crate::system::process_name;
use crate::text::{
    concat2, contains_text, lemma_contains_in_concat, ends_with, has_suffix, opt_text, prefix_of, single_quotes_doubled, double_single_quotes,
    strings_view, equals_ignoring_ascii_case, eq_ignoring_ascii_case,
};

verus! {

/// Length of the rolling window of the kill rate limit, in milliseconds.
pub const KILL_WINDOW_MS: u64 = 10000;

/// At most this many kills are attempted within one window.
pub const MAX_KILLS_PER_WINDOW: usize = 3;

/// The outcome class of one execution.
#[derive(Debug, Clone, Copy, PartialEq, Eq, Structural)]
pub enum ExecStatus {
    Success,
    Error,
    PartialFailure,
}

impl ExecStatus {
    /// The status as it is written in an execution-result event.
    pub fn as_text(&self) -> (r: String)
        ensures
            r@ == status_text(*self),
    {
        match self {
            ExecStatus::Success => String::from_str("success"),
            ExecStatus::Error => String::from_str("error"),
            ExecStatus::PartialFailure => String::from_str("partial_failure"),
        }
    }
}

pub open spec fn status_text(s: ExecStatus) -> Seq<char> {
    match s {
        ExecStatus::Success => "success"@,
        ExecStatus::Error => "error"@,
        ExecStatus::PartialFailure => "partial_failure"@,
    }
}

/// The outcome of one execution attempt, broadcast once and never stored.
#[derive(Debug)]
pub struct ExecutionResult {
    pub command: String,
    pub pid: Option<u32>,
    pub status: ExecStatus,
    pub error: Option<String>,
    pub details: Option<String>,
}

/// The mathematical form of an execution result.
pub ghost struct ResultView {
    pub command: Seq<char>,
    pub pid: Option<u32>,
    pub status: ExecStatus,
    pub error: Option<Seq<char>>,
    pub details: Option<Seq<char>>,
}

impl View for ExecutionResult {
    type V = ResultView;

    open spec fn view(&self) -> ResultView {
        ResultView {
            command: self.command@,
            pid: self.pid,
            status: self.status,
            error: opt_text(self.error),
            details: opt_text(self.details),
        }
    }
}

/// The denylist of core operating-system processes that are never killed.
pub open spec fn protected_process_names() -> Seq<Seq<char>> {
    seq!["csrss.exe"@, "wininit.exe"@, "lsass.exe"@, "services.exe"@, "smss.exe"@, "winlogon.exe"@]
}

/// The name is on the denylist, ignoring ASCII case.
pub open spec fn is_protected_process(name: Seq<char>) -> bool {
    exists|i: int| 0 <= i < protected_process_names().len()
        && eq_ignoring_ascii_case(name, #[trigger] protected_process_names()[i])
}

/// A kill attempted at `t` still counts at `now`.
pub open spec fn is_recent(t: u64, now: u64) -> bool {
    now < t + KILL_WINDOW_MS
}

/// The attempts of `history` that still count at `now`, in their order.
pub open spec fn recent_kills(history: Seq<u64>, now: u64) -> Seq<u64>
    decreases history.len(),
{
    if history.len() == 0 {
        Seq::empty()
    } else {
        let rest = recent_kills(history.drop_last(), now);
        if is_recent(history.last(), now) {
            rest.push(history.last())
        } else {
            rest
        }
    }
}

/// The window is full at `now`.
pub open spec fn rate_limited(history: Seq<u64>, now: u64) -> bool {
    recent_kills(history, now).len() >= MAX_KILLS_PER_WINDOW
}

/// A kill at `now` of a process named `name` may proceed: the window has room,
/// and the process is known and off the denylist.
pub open spec fn kill_admitted(history: Seq<u64>, now: u64, name: Option<Seq<char>>) -> bool {
    &&& !rate_limited(history, now)
    &&& name is Some
    &&& !is_protected_process(name->0)
}

/// The window after a kill request at `now`: pruned, and holding `now` when
/// the kill was admitted.
pub open spec fn history_after(history: Seq<u64>, now: u64, name: Option<Seq<char>>) -> Seq<u64> {
    if kill_admitted(history, now, name) {
        recent_kills(history, now).push(now)
    } else {
        recent_kills(history, now)
    }
}

/// What the guards decided about a kill request.
#[derive(Debug)]
pub enum KillVerdict {
    /// The kill may be attempted; it has been recorded in the window.
    Proceed,
    /// Too many kills within the window.
    RateLimited,
    /// No live process has this id.
    Unknown,
    /// The process is on the denylist.
    Protected { name: String },
}

/// The rate-limit window of kill attempts.
pub struct KillGuard {
    history: Vec<u64>,
}

impl KillGuard {
    /// The times of the recorded attempts, oldest first.
    pub closed spec fn history(&self) -> Seq<u64> {
        self.history@
    }

    pub fn new() -> (r: Self)
        ensures
            r.history() == Seq::<u64>::empty(),
    {
        KillGuard { history: Vec::new() }
    }

    /// Decides a kill request at time `now_ms` of a process whose name is
    /// `process_name`, `None` when no such process is known. The window is
    /// pruned first; the rate limit is checked before the process; only an
    /// admitted kill is recorded.
    pub fn decide(&mut self, now_ms: u64, process_name: Option<String>) -> (r: KillVerdict)
        ensures
            final(self).history() == history_after(old(self).history(), now_ms, opt_text(process_name)),
            r is Proceed <==> kill_admitted(old(self).history(), now_ms, opt_text(process_name)),
            r is RateLimited <==> rate_limited(old(self).history(), now_ms),
            r is Unknown <==> !rate_limited(old(self).history(), now_ms) && process_name is None,
            r is Protected ==> process_name is Some && r->name@ == process_name->0@,
    {
        let ghost old_history = self.history@;
        self.prune(now_ms);
        if self.history.len() >= MAX_KILLS_PER_WINDOW {
            return KillVerdict::RateLimited;
        }
        match process_name {
            Some(name) => {
                if is_protected_process_name(name.as_str()) {
                    return KillVerdict::Protected { name };
                }
            },
            None => {
                return KillVerdict::Unknown;
            },
        }
        self.history.push(now_ms);
        KillVerdict::Proceed
    }

    fn prune(&mut self, now_ms: u64)
        ensures
            final(self).history() == recent_kills(old(self).history(), now_ms),
    {
        let mut kept: Vec<u64> = Vec::new();
        let mut i: usize = 0;
        while i < self.history.len()
            invariant
                i <= self.history@.len(),
                kept@ == recent_kills(self.history@.subrange(0, i as int), now_ms),
            decreases self.history@.len() - i,
        {
            let t = self.history[i];
            proof {
                let next = self.history@.subrange(0, i + 1);
                assert(next.drop_last() =~= self.history@.subrange(0, i as int));
                assert(next.last() == t);
            }
            if t >= now_ms || now_ms - t < KILL_WINDOW_MS {
                kept.push(t);
            }
            i = i + 1;
        }
        assert(self.history@.subrange(0, i as int) =~= self.history@);
        self.history = kept;
    }
}

/// Whether a process of this name is on the denylist.
pub fn is_protected_process_name(name: &str) -> (r: bool)
    ensures
        r == is_protected_process(name@),
{
    let mut names: Vec<String> = Vec::new();
    names.push(String::from_str("csrss.exe"));
    names.push(String::from_str("wininit.exe"));
    names.push(String::from_str("lsass.exe"));
    names.push(String::from_str("services.exe"));
    names.push(String::from_str("smss.exe"));
    names.push(String::from_str("winlogon.exe"));
    assert(strings_view(names@) =~= protected_process_names());
    let mut i: usize = 0;
    while i < names.len()
        invariant
            i <= names@.len(),
            strings_view(names@) == protected_process_names(),
            forall|j: int| 0 <= j < i ==> !eq_ignoring_ascii_case(name@, #[trigger] protected_process_names()[j]),
        decreases names@.len() - i,
    {
        if equals_ignoring_ascii_case(name, names[i].as_str()) {
            assert(eq_ignoring_ascii_case(name@, protected_process_names()[i as int]));
            return true;
        }
        i = i + 1;
    }
    false
}

/// A process on the denylist is never killed, whatever the state of the
/// rate-limit window; the refused request is not recorded.
pub proof fn lemma_protected_never_killed(history: Seq<u64>, now: u64, name: Seq<char>)
    requires
        is_protected_process(name),
    ensures
        !kill_admitted(history, now, Some(name)),
        history_after(history, now, Some(name)) == recent_kills(history, now),
{
}

/// Of four kill requests for live processes off the denylist within one window,
/// the first three are admitted and the fourth is refused by the rate limit;
/// a fifth request once the window has passed the third is admitted again.
pub proof fn lemma_rate_limit_sequence(
    t1: u64,
    t2: u64,
    t3: u64,
    t4: u64,
    t5: u64,
    n1: Option<Seq<char>>,
    n2: Option<Seq<char>>,
    n3: Option<Seq<char>>,
    n4: Option<Seq<char>>,
    n5: Option<Seq<char>>,
)
    requires
        t1 <= t2 <= t3 <= t4,
        t4 < t1 + KILL_WINDOW_MS,
        t5 >= t3 + KILL_WINDOW_MS,
        n1 is Some && !is_protected_process(n1->0),
        n2 is Some && !is_protected_process(n2->0),
        n3 is Some && !is_protected_process(n3->0),
        n4 is Some && !is_protected_process(n4->0),
        n5 is Some && !is_protected_process(n5->0),
    ensures
        ({
            let h1 = history_after(Seq::empty(), t1, n1);
            let h2 = history_after(h1, t2, n2);
            let h3 = history_after(h2, t3, n3);
            let h4 = history_after(h3, t4, n4);
            &&& kill_admitted(Seq::empty(), t1, n1)
            &&& kill_admitted(h1, t2, n2)
            &&& kill_admitted(h2, t3, n3)
            &&& !kill_admitted(h3, t4, n4)
            &&& rate_limited(h3, t4)
            &&& kill_admitted(h4, t5, n5)
        }),
{
    reveal_with_fuel(recent_kills, 4);
    let e = Seq::<u64>::empty();
    assert(recent_kills(e, t1) =~= e);
    let h1 = history_after(e, t1, n1);
    assert(h1 =~= seq![t1]);
    assert(seq![t1].drop_last() =~= e);
    assert(recent_kills(seq![t1], t2) =~= seq![t1]);
    let h2 = history_after(h1, t2, n2);
    assert(h2 =~= seq![t1, t2]);
    assert(seq![t1, t2].drop_last() =~= seq![t1]);
    assert(recent_kills(seq![t1], t3) =~= seq![t1]);
    assert(recent_kills(seq![t1, t2], t3) =~= seq![t1, t2]);
    let h3 = history_after(h2, t3, n3);
    assert(h3 =~= seq![t1, t2, t3]);
    assert(seq![t1, t2, t3].drop_last() =~= seq![t1, t2]);
    assert(recent_kills(seq![t1], t4) =~= seq![t1]);
    assert(recent_kills(seq![t1, t2], t4) =~= seq![t1, t2]);
    assert(recent_kills(seq![t1, t2, t3], t4) =~= seq![t1, t2, t3]);
    let h4 = history_after(h3, t4, n4);
    assert(h4 =~= seq![t1, t2, t3]);
    assert(recent_kills(seq![t1], t5) =~= e);
    assert(recent_kills(seq![t1, t2], t5) =~= e);
    assert(recent_kills(seq![t1, t2, t3], t5) =~= e);
}

/// Which store a startup entry belongs to, as its display name's suffix tells.
#[derive(Debug, Clone, Copy, PartialEq, Eq, Structural)]
pub enum StartupSource {
    /// The per-user registry hive, suffix " (HKCU)".
    CurrentUser,
    /// The machine-wide registry hive, suffix " (HKLM)".
    LocalMachine,
    /// A startup folder, suffix " (Folder)".
    Folder,
    /// No known suffix: a legacy name, kept whole, in the per-user hive.
    Unlabelled,
}

pub open spec fn source_of(name: Seq<char>) -> StartupSource {
    if has_suffix(name, " (HKCU)"@) {
        StartupSource::CurrentUser
    } else if has_suffix(name, " (HKLM)"@) {
        StartupSource::LocalMachine
    } else if has_suffix(name, " (Folder)"@) {
        StartupSource::Folder
    } else {
        StartupSource::Unlabelled
    }
}

/// The entry's own name: the display name without its source suffix.
pub open spec fn entry_name_of(name: Seq<char>) -> Seq<char> {
    match source_of(name) {
        StartupSource::CurrentUser => name.subrange(0, name.len() - " (HKCU)"@.len()),
        StartupSource::LocalMachine => name.subrange(0, name.len() - " (HKLM)"@.len()),
        StartupSource::Folder => name.subrange(0, name.len() - " (Folder)"@.len()),
        StartupSource::Unlabelled => name,
    }
}

/// Splits a startup entry's display name into its source and its own name.
pub fn parse_startup_name(name: &str) -> (r: (StartupSource, String))
    ensures
        r.0 == source_of(name@),
        r.1@ == entry_name_of(name@),
{
    let n = name.unicode_len();
    if ends_with(name, " (HKCU)") {
        (StartupSource::CurrentUser, prefix_of(name, n - " (HKCU)".unicode_len()))
    } else if ends_with(name, " (HKLM)") {
        (StartupSource::LocalMachine, prefix_of(name, n - " (HKLM)".unicode_len()))
    } else if ends_with(name, " (Folder)") {
        (StartupSource::Folder, prefix_of(name, n - " (Folder)".unicode_len()))
    } else {
        (StartupSource::Unlabelled, String::from_str(name))
    }
}

/// The registry key of the Run entries in a hive ("HKCU" or "HKLM").
pub open spec fn run_key(hive: Seq<char>) -> Seq<char> {
    hive + ":\\Software\\Microsoft\\Windows\\CurrentVersion\\Run"@
}

/// The registry key of the approval flags of the Run entries in a hive.
pub open spec fn approval_key(hive: Seq<char>) -> Seq<char> {
    hive + ":\\Software\\Microsoft\\Windows\\CurrentVersion\\Explorer\\StartupApproved\\Run"@
}

/// The approval flag bytes: 02 enables an entry, 03 disables it.
pub open spec fn approval_bytes(enabled: bool) -> Seq<char> {
    if enabled {
        "02,00,00,00,00,00,00,00,00,00,00,00"@
    } else {
        "03,00,00,00,00,00,00,00,00,00,00,00"@
    }
}

/// The script that adds a per-user Run entry.
pub open spec fn add_script(name: Seq<char>, path: Seq<char>) -> Seq<char> {
    "New-ItemProperty -Path '"@ + run_key("HKCU"@) + "' -Name '"@ + single_quotes_doubled(name) + "' -Value '"@
        + single_quotes_doubled(path) + "' -PropertyType String -Force"@
}

/// The script that removes a Run entry from a hive.
pub open spec fn remove_script(hive: Seq<char>, name: Seq<char>) -> Seq<char> {
    "Remove-ItemProperty -Path '"@ + run_key(hive) + "' -Name '"@ + single_quotes_doubled(name) + "' -Force"@
}

/// The script that sets a Run entry's approval flag in a hive.
pub open spec fn toggle_script(hive: Seq<char>, name: Seq<char>, enabled: bool) -> Seq<char> {
    "Set-ItemProperty -Path '"@ + approval_key(hive) + "' -Name '"@ + single_quotes_doubled(name)
        + "' -Value ([byte[]]("@ + approval_bytes(enabled) + ")) -Type Binary -Force"@
}

fn hive_text(machine: bool) -> (r: &'static str)
    ensures
        r@ == (if machine { "HKLM"@ } else { "HKCU"@ }),
{
    if machine {
        "HKLM"
    } else {
        "HKCU"
    }
}

fn run_key_text(machine: bool) -> (r: String)
    ensures
        r@ == run_key(if machine { "HKLM"@ } else { "HKCU"@ }),
{
    concat2(hive_text(machine), ":\\Software\\Microsoft\\Windows\\CurrentVersion\\Run")
}

/// The PowerShell script that adds a per-user Run entry `name` starting `path`.
pub fn startup_add_script(name: &str, path: &str) -> (r: String)
    ensures
        r@ == add_script(name@, path@),
{
    let mut r = String::from_str("New-ItemProperty -Path '");
    let key = run_key_text(false);
    r.append(key.as_str());
    r.append("' -Name '");
    let n = double_single_quotes(name);
    r.append(n.as_str());
    r.append("' -Value '");
    let p = double_single_quotes(path);
    r.append(p.as_str());
    r.append("' -PropertyType String -Force");
    r
}

/// The PowerShell script that removes the Run entry `name` from a hive.
pub fn startup_remove_script(machine: bool, name: &str) -> (r: String)
    ensures
        r@ == remove_script(if machine { "HKLM"@ } else { "HKCU"@ }, name@),
{
    let mut r = String::from_str("Remove-ItemProperty -Path '");
    let key = run_key_text(machine);
    r.append(key.as_str());
    r.append("' -Name '");
    let n = double_single_quotes(name);
    r.append(n.as_str());
    r.append("' -Force");
    r
}

/// The PowerShell script that enables or disables the Run entry `name` of a hive.
pub fn startup_toggle_script(machine: bool, name: &str, enabled: bool) -> (r: String)
    ensures
        r@ == toggle_script(if machine { "HKLM"@ } else { "HKCU"@ }, name@, enabled),
{
    let mut r = String::from_str("Set-ItemProperty -Path '");
    let key = concat2(hive_text(machine), ":\\Software\\Microsoft\\Windows\\CurrentVersion\\Explorer\\StartupApproved\\Run");
    r.append(key.as_str());
    r.append("' -Name '");
    let n = double_single_quotes(name);
    r.append(n.as_str());
    r.append("' -Value ([byte[]](");
    if enabled {
        r.append("02,00,00,00,00,00,00,00,00,00,00,00");
    } else {
        r.append("03,00,00,00,00,00,00,00,00,00,00,00");
    }
    r.append(")) -Type Binary -Force");
    r
}

/// How a failure of a PowerShell script is reported.
#[derive(Debug)]
pub enum FailureReport {
    /// With the tool's own error output.
    ToolOutput,
    /// With a fixed message.
    Fixed { message: String },
    /// Not at all: the execution counts as a success.
    Ignored,
}

/// Host work that an approved command needs.
#[derive(Debug)]
pub enum HostAction {
    /// Terminate the process; the guards have admitted it.
    Kill { pid: u32 },
    /// Open the path with the desktop's association.
    Open { path: String },
    /// Run a PowerShell script.
    PowerShell { script: String, on_failure: FailureReport },
    /// Delete the file of this name from the first startup folder that holds it.
    RemoveStartupFile { file_name: String },
    /// Run each of the platform's normalization steps.
    Normalize,
}

/// What to do for an approved command.
#[derive(Debug)]
pub enum Plan {
    /// Perform host work, then report its result under `command`.
    Run { command: String, action: HostAction },
    /// Report this result; there is no host work.
    Done { result: ExecutionResult },
    /// The command has no handler: nothing is done and nothing reported.
    Nothing,
}

/// How the host work went.
#[derive(Debug)]
pub enum HostOutcome {
    Completed,
    /// The work ran and failed, with this error output.
    Failed { output: String },
    /// The work could not be started.
    Unavailable { error: String },
    /// The target of the work does not exist.
    Missing,
}

pub ghost enum FailureView {
    ToolOutput,
    Fixed(Seq<char>),
    Ignored,
}

pub ghost enum ActionView {
    Kill(u32),
    Open(Seq<char>),
    PowerShell(Seq<char>, FailureView),
    RemoveStartupFile(Seq<char>),
    Normalize,
}

pub ghost enum PlanView {
    Run(Seq<char>, ActionView),
    Done(ResultView),
    Nothing,
}

pub ghost enum OutcomeView {
    Completed,
    Failed(Seq<char>),
    Unavailable(Seq<char>),
    Missing,
}

impl View for FailureReport {
    type V = FailureView;

    open spec fn view(&self) -> FailureView {
        match self {
            FailureReport::ToolOutput => FailureView::ToolOutput,
            FailureReport::Fixed { message } => FailureView::Fixed(message@),
            FailureReport::Ignored => FailureView::Ignored,
        }
    }
}

impl View for HostAction {
    type V = ActionView;

    open spec fn view(&self) -> ActionView {
        match self {
            HostAction::Kill { pid } => ActionView::Kill(*pid),
            HostAction::Open { path } => ActionView::Open(path@),
            HostAction::PowerShell { script, on_failure } => ActionView::PowerShell(script@, on_failure@),
            HostAction::RemoveStartupFile { file_name } => ActionView::RemoveStartupFile(file_name@),
            HostAction::Normalize => ActionView::Normalize,
        }
    }
}

impl View for Plan {
    type V = PlanView;

    open spec fn view(&self) -> PlanView {
        match self {
            Plan::Run { command, action } => PlanView::Run(command@, action@),
            Plan::Done { result } => PlanView::Done(result@),
            Plan::Nothing => PlanView::Nothing,
        }
    }
}

impl View for HostOutcome {
    type V = OutcomeView;

    open spec fn view(&self) -> OutcomeView {
        match self {
            HostOutcome::Completed => OutcomeView::Completed,
            HostOutcome::Failed { output } => OutcomeView::Failed(output@),
            HostOutcome::Unavailable { error } => OutcomeView::Unavailable(error@),
            HostOutcome::Missing => OutcomeView::Missing,
        }
    }
}

pub open spec fn error_result(command: Seq<char>, pid: Option<u32>, error: Seq<char>) -> ResultView {
    ResultView { command, pid, status: ExecStatus::Error, error: Some(error), details: None }
}

/// The message reported when toggling an entry that is not a registry entry.
pub open spec fn toggle_refusal() -> Seq<char> {
    "Only registry startup items can be toggled currently."@
}

/// The message reported when removing a machine-wide entry fails.
pub open spec fn machine_removal_failure() -> Seq<char> {
    "Failed to remove HKLM entry. Ensure Fluffy is running as Administrator."@
}

/// The plan for a kill request, given what the guards see.
pub open spec fn kill_plan(pid: u32, history: Seq<u64>, now: u64, name: Option<Seq<char>>) -> PlanView {
    if kill_admitted(history, now, name) {
        PlanView::Run("KillProcess"@, ActionView::Kill(pid))
    } else if rate_limited(history, now) {
        PlanView::Done(error_result("KillProcess"@, Some(pid), "Rate limit exceeded: >3 kills in 10s"@))
    } else if name is None {
        PlanView::Done(error_result("KillProcess"@, Some(pid), "Process not found"@))
    } else {
        PlanView::Done(error_result("KillProcess"@, Some(pid), "Protected system process: "@ + name->0))
    }
}

/// The plan for an approved command other than a kill. A cleanup request
/// needs no host work and is reported a success; the protocol commands
/// (Confirm, Cancel, SetUiActive) have no handler here.
pub open spec fn plan_of(cmd: Command) -> PlanView {
    match cmd {
        Command::OpenPath { path } => PlanView::Run("OpenPath"@, ActionView::Open(path@)),
        Command::NormalizeSystem => PlanView::Run("NormalizeSystem"@, ActionView::Normalize),
        Command::StartupAdd { name, path } => PlanView::Run(
            "StartupAdd"@,
            ActionView::PowerShell(add_script(name@, path@), FailureView::ToolOutput),
        ),
        Command::StartupRemove { name } => PlanView::Run("StartupRemove"@, match source_of(name@) {
            StartupSource::CurrentUser => ActionView::PowerShell(
                remove_script("HKCU"@, entry_name_of(name@)),
                FailureView::ToolOutput,
            ),
            StartupSource::LocalMachine => ActionView::PowerShell(
                remove_script("HKLM"@, entry_name_of(name@)),
                FailureView::Fixed(machine_removal_failure()),
            ),
            StartupSource::Folder => ActionView::RemoveStartupFile(entry_name_of(name@)),
            StartupSource::Unlabelled => ActionView::PowerShell(
                remove_script("HKCU"@, name@),
                FailureView::Ignored,
            ),
        }),
        Command::StartupToggle { name, enabled } => match source_of(name@) {
            StartupSource::CurrentUser => PlanView::Run(
                "StartupToggle"@,
                ActionView::PowerShell(toggle_script("HKCU"@, entry_name_of(name@), enabled), FailureView::ToolOutput),
            ),
            StartupSource::LocalMachine => PlanView::Run(
                "StartupToggle"@,
                ActionView::PowerShell(toggle_script("HKLM"@, entry_name_of(name@), enabled), FailureView::ToolOutput),
            ),
            _ => PlanView::Done(error_result("StartupToggle"@, None, toggle_refusal())),
        },
        Command::RequestCleanup => PlanView::Done(
            ResultView {
                command: "RequestCleanup"@,
                pid: None,
                status: ExecStatus::Success,
                error: None,
                details: None,
            },
        ),
        _ => PlanView::Nothing,
    }
}

/// The status and error reported after host work for `action` went as `outcome`.
pub open spec fn outcome_report(action: ActionView, outcome: OutcomeView) -> (ExecStatus, Option<Seq<char>>) {
    match outcome {
        OutcomeView::Completed => (ExecStatus::Success, None),
        OutcomeView::Unavailable(e) => match action {
            ActionView::PowerShell(_, FailureView::Ignored) => (ExecStatus::Success, None),
            _ => (ExecStatus::Error, Some(e)),
        },
        OutcomeView::Failed(o) => match action {
            ActionView::PowerShell(_, FailureView::Ignored) => (ExecStatus::Success, None),
            ActionView::PowerShell(_, FailureView::Fixed(m)) => (ExecStatus::Error, Some(m)),
            ActionView::RemoveStartupFile(_) => (ExecStatus::Error, Some("Failed to delete file: "@ + o)),
            _ => (ExecStatus::Error, Some(o)),
        },
        OutcomeView::Missing => match action {
            ActionView::PowerShell(_, FailureView::Ignored) => (ExecStatus::Success, None),
            ActionView::PowerShell(_, FailureView::Fixed(m)) => (ExecStatus::Error, Some(m)),
            ActionView::RemoveStartupFile(_) => (ExecStatus::Error, Some("Startup file not found."@)),
            _ => (ExecStatus::Error, Some("Target not found."@)),
        },
    }
}

/// The process id that a result for `action` carries.
pub open spec fn action_pid(action: ActionView) -> Option<u32> {
    match action {
        ActionView::Kill(pid) => Some(pid),
        _ => None,
    }
}

/// Carries out the engine's decisions; it owns the kill rate-limit window.
pub struct ExecutionEngine {
    kills: KillGuard,
}

impl ExecutionEngine {
    /// The times of the kills recorded in the rate-limit window.
    pub closed spec fn kill_history(&self) -> Seq<u64> {
        self.kills.history()
    }

    pub fn new() -> (r: Self)
        ensures
            r.kill_history() == Seq::<u64>::empty(),
    {
        ExecutionEngine { kills: KillGuard::new() }
    }

    /// The plan for an approved command at time `now_ms`. For a kill, the
    /// process's live name is looked up and the guards decide.
    pub fn plan(&mut self, cmd: Command, now_ms: u64) -> (r: Plan)
        ensures
            match cmd {
                Command::KillProcess { pid } => exists|name: Option<Seq<char>>|
                    r@ == kill_plan(pid, old(self).kill_history(), now_ms, name)
                    && final(self).kill_history() == history_after(old(self).kill_history(), now_ms, name),
                _ => r@ == plan_of(cmd) && final(self).kill_history() == old(self).kill_history(),
            },
    {
        let name = match &cmd {
            Command::KillProcess { pid } => process_name(*pid),
            _ => None,
        };
        self.plan_with_process_name(cmd, now_ms, name)
    }

    /// The plan for an approved command at time `now_ms`, where a process to
    /// be killed is named `process_name`, or is not known when it is `None`.
    pub fn plan_with_process_name(&mut self, cmd: Command, now_ms: u64, process_name: Option<String>) -> (r: Plan)
        ensures
            match cmd {
                Command::KillProcess { pid } => r@ == kill_plan(pid, old(self).kill_history(), now_ms, opt_text(process_name))
                    && final(self).kill_history() == history_after(old(self).kill_history(), now_ms, opt_text(process_name)),
                _ => r@ == plan_of(cmd) && final(self).kill_history() == old(self).kill_history(),
            },
    {
        match cmd {
            Command::KillProcess { pid } => {
                match self.kills.decide(now_ms, process_name) {
                    KillVerdict::Proceed => Plan::Run {
                        command: String::from_str("KillProcess"),
                        action: HostAction::Kill { pid },
                    },
                    KillVerdict::RateLimited => Plan::Done {
                        result: ExecutionResult {
                            command: String::from_str("KillProcess"),
                            pid: Some(pid),
                            status: ExecStatus::Error,
                            error: Some(String::from_str("Rate limit exceeded: >3 kills in 10s")),
                            details: None,
                        },
                    },
                    KillVerdict::Unknown => Plan::Done {
                        result: ExecutionResult {
                            command: String::from_str("KillProcess"),
                            pid: Some(pid),
                            status: ExecStatus::Error,
                            error: Some(String::from_str("Process not found")),
                            details: None,
                        },
                    },
                    KillVerdict::Protected { name } => Plan::Done {
                        result: ExecutionResult {
                            command: String::from_str("KillProcess"),
                            pid: Some(pid),
                            status: ExecStatus::Error,
                            error: Some(concat2("Protected system process: ", name.as_str())),
                            details: None,
                        },
                    },
                }
            },
            Command::OpenPath { path } => Plan::Run {
                command: String::from_str("OpenPath"),
                action: HostAction::Open { path },
            },
            Command::NormalizeSystem => Plan::Run {
                command: String::from_str("NormalizeSystem"),
                action: HostAction::Normalize,
            },
            Command::StartupAdd { name, path } => Plan::Run {
                command: String::from_str("StartupAdd"),
                action: HostAction::PowerShell {
                    script: startup_add_script(name.as_str(), path.as_str()),
                    on_failure: FailureReport::ToolOutput,
                },
            },
            Command::StartupRemove { name } => {
                let (source, entry) = parse_startup_name(name.as_str());
                let action = match source {
                    StartupSource::CurrentUser => HostAction::PowerShell {
                        script: startup_remove_script(false, entry.as_str()),
                        on_failure: FailureReport::ToolOutput,
                    },
                    StartupSource::LocalMachine => HostAction::PowerShell {
                        script: startup_remove_script(true, entry.as_str()),
                        on_failure: FailureReport::Fixed {
                            message: String::from_str(
                                "Failed to remove HKLM entry. Ensure Fluffy is running as Administrator.",
                            ),
                        },
                    },
                    StartupSource::Folder => HostAction::RemoveStartupFile { file_name: entry },
                    StartupSource::Unlabelled => HostAction::PowerShell {
                        script: startup_remove_script(false, name.as_str()),
                        on_failure: FailureReport::Ignored,
                    },
                };
                Plan::Run { command: String::from_str("StartupRemove"), action }
            },
            Command::StartupToggle { name, enabled } => {
                let (source, entry) = parse_startup_name(name.as_str());
                match source {
                    StartupSource::CurrentUser => Plan::Run {
                        command: String::from_str("StartupToggle"),
                        action: HostAction::PowerShell {
                            script: startup_toggle_script(false, entry.as_str(), enabled),
                            on_failure: FailureReport::ToolOutput,
                        },
                    },
                    StartupSource::LocalMachine => Plan::Run {
                        command: String::from_str("StartupToggle"),
                        action: HostAction::PowerShell {
                            script: startup_toggle_script(true, entry.as_str(), enabled),
                            on_failure: FailureReport::ToolOutput,
                        },
                    },
                    _ => Plan::Done {
                        result: ExecutionResult {
                            command: String::from_str("StartupToggle"),
                            pid: None,
                            status: ExecStatus::Error,
                            error: Some(String::from_str("Only registry startup items can be toggled currently.")),
                            details: None,
                        },
                    },
                }
            },
            Command::RequestCleanup => Plan::Done {
                result: ExecutionResult {
                    command: String::from_str("RequestCleanup"),
                    pid: None,
                    status: ExecStatus::Success,
                    error: None,
                    details: None,
                },
            },
            _ => Plan::Nothing,
        }
    }
}

/// The result of host work for `action`, performed for the command named
/// `command`, that went as `outcome`.
pub fn result_after(command: String, action: &HostAction, outcome: HostOutcome) -> (r: ExecutionResult)
    ensures
        r@ == (ResultView {
            command: command@,
            pid: action_pid(action@),
            status: outcome_report(action@, outcome@).0,
            error: outcome_report(action@, outcome@).1,
            details: None,
        }),
{
    let pid = match action {
        HostAction::Kill { pid } => Some(*pid),
        _ => None,
    };
    let (status, error) = match outcome {
        HostOutcome::Completed => (ExecStatus::Success, None),
        HostOutcome::Unavailable { error } => match action {
            HostAction::PowerShell { on_failure: FailureReport::Ignored, .. } => (ExecStatus::Success, None),
            _ => (ExecStatus::Error, Some(error)),
        },
        HostOutcome::Failed { output } => match action {
            HostAction::PowerShell { on_failure: FailureReport::Ignored, .. } => (ExecStatus::Success, None),
            HostAction::PowerShell { on_failure: FailureReport::Fixed { message }, .. } => (
                ExecStatus::Error,
                Some(message.clone()),
            ),
            HostAction::RemoveStartupFile { .. } => (
                ExecStatus::Error,
                Some(concat2("Failed to delete file: ", output.as_str())),
            ),
            _ => (ExecStatus::Error, Some(output)),
        },
        HostOutcome::Missing => match action {
            HostAction::PowerShell { on_failure: FailureReport::Ignored, .. } => (ExecStatus::Success, None),
            HostAction::PowerShell { on_failure: FailureReport::Fixed { message }, .. } => (
                ExecStatus::Error,
                Some(message.clone()),
            ),
            HostAction::RemoveStartupFile { .. } => (
                ExecStatus::Error,
                Some(String::from_str("Startup file not found.")),
            ),
            _ => (ExecStatus::Error, Some(String::from_str("Target not found."))),
        },
    };
    ExecutionResult { command, pid, status, error, details: None }
}

/// How one normalization step went: its label, and its error when it failed.
#[derive(Debug)]
pub struct StepReport {
    pub label: String,
    pub error: Option<String>,
}

pub open spec fn step_views(steps: Seq<StepReport>) -> Seq<(Seq<char>, Option<Seq<char>>)> {
    steps.map_values(|s: StepReport| (s.label@, opt_text(s.error)))
}

/// The note on one step: empty for a step that succeeded.
pub open spec fn step_note(step: (Seq<char>, Option<Seq<char>>)) -> Seq<char> {
    match step.1 {
        Some(e) => " ["@ + step.0 + "] "@ + e,
        None => Seq::empty(),
    }
}

/// The notes on the failed steps, in order.
pub open spec fn failure_notes(steps: Seq<(Seq<char>, Option<Seq<char>>)>) -> Seq<char>
    decreases steps.len(),
{
    if steps.len() == 0 {
        Seq::empty()
    } else {
        failure_notes(steps.drop_last()) + step_note(steps.last())
    }
}

pub open spec fn all_steps_succeeded(steps: Seq<(Seq<char>, Option<Seq<char>>)>) -> bool {
    forall|i: int| 0 <= i < steps.len() ==> (#[trigger] steps[i]).1 is None
}

pub open spec fn normalize_done_text() -> Seq<char> {
    "System normalization and optimization pulse complete."@
}

pub open spec fn normalize_partial_text() -> Seq<char> {
    "System normalization finished with failed steps:"@
}

/// The result of a normalization whose steps went as `steps`: a success when
/// every step succeeded, else a partial failure whose details name each failed
/// step with its error.
pub open spec fn normalize_view(steps: Seq<(Seq<char>, Option<Seq<char>>)>) -> ResultView {
    if all_steps_succeeded(steps) {
        ResultView {
            command: "NormalizeSystem"@,
            pid: None,
            status: ExecStatus::Success,
            error: None,
            details: Some(normalize_done_text()),
        }
    } else {
        ResultView {
            command: "NormalizeSystem"@,
            pid: None,
            status: ExecStatus::PartialFailure,
            error: None,
            details: Some(normalize_partial_text() + failure_notes(steps)),
        }
    }
}

/// Folds the reports of the normalization steps into one result. A failed
/// step never hides the others: each is reported.
pub fn normalize_result(steps: &Vec<StepReport>) -> (r: ExecutionResult)
    ensures
        r@ == normalize_view(step_views(steps@)),
{
    let ghost views = step_views(steps@);
    let mut notes = String::new();
    let mut failed = false;
    let mut i: usize = 0;
    while i < steps.len()
        invariant
            i <= steps@.len(),
            views == step_views(steps@),
            notes@ == failure_notes(views.subrange(0, i as int)),
            failed == !all_steps_succeeded(views.subrange(0, i as int)),
        decreases steps@.len() - i,
    {
        proof {
            let next = views.subrange(0, i + 1);
            assert(next.drop_last() =~= views.subrange(0, i as int));
            assert(next.last() == views[i as int]);
            if failed {
                let j = choose|j: int| 0 <= j < i && !((#[trigger] views.subrange(0, i as int)[j]).1 is None);
                assert(next[j] == views.subrange(0, i as int)[j]);
            }
        }
        match &steps[i] {
            StepReport { label, error: Some(e) } => {
                notes.append(" [");
                notes.append(label.as_str());
                notes.append("] ");
                notes.append(e.as_str());
                failed = true;
                proof {
                    assert(views.subrange(0, i + 1)[i as int].1 is Some);
                }
            },
            StepReport { error: None, .. } => {
                proof {
                    assert(notes@ + Seq::<char>::empty() =~= notes@);
                    if !failed {
                        assert forall|j: int| 0 <= j < i + 1 implies (#[trigger] views.subrange(0, i + 1)[j]).1 is None by {
                            if j < i {
                                assert(views.subrange(0, i + 1)[j] == views.subrange(0, i as int)[j]);
                            }
                        }
                    }
                }
            },
        }
        i = i + 1;
    }
    assert(views.subrange(0, steps@.len() as int) =~= views);
    if failed {
        let mut details = String::from_str("System normalization finished with failed steps:");
        details.append(notes.as_str());
        ExecutionResult {
            command: String::from_str("NormalizeSystem"),
            pid: None,
            status: ExecStatus::PartialFailure,
            error: None,
            details: Some(details),
        }
    } else {
        ExecutionResult {
            command: String::from_str("NormalizeSystem"),
            pid: None,
            status: ExecStatus::Success,
            error: None,
            details: Some(String::from_str("System normalization and optimization pulse complete.")),
        }
    }
}

proof fn lemma_failure_noted(steps: Seq<(Seq<char>, Option<Seq<char>>)>, i: int)
    requires
        0 <= i < steps.len(),
        steps[i].1 is Some,
    ensures
        contains_text(failure_notes(steps), steps[i].1->0),
    decreases steps.len(),
{
    let e = steps[i].1->0;
    if i == steps.len() - 1 {
        let note = step_note(steps.last());
        let offset: int = (" ["@ + steps.last().0 + "] "@).len() as int;
        assert(note.subrange(offset, offset + e.len()) =~= e);
        lemma_contains_in_concat(failure_notes(steps.drop_last()), note, e);
    } else {
        assert(steps.drop_last()[i] == steps[i]);
        lemma_failure_noted(steps.drop_last(), i);
        lemma_contains_in_concat(failure_notes(steps.drop_last()), step_note(steps.last()), e);
    }
}

/// A normalization succeeds exactly when every step did; otherwise it is a
/// partial failure, and its details hold the error of every failed step.
pub proof fn lemma_normalize_reports_failures(steps: Seq<(Seq<char>, Option<Seq<char>>)>, i: int)
    requires
        0 <= i < steps.len(),
    ensures
        all_steps_succeeded(steps) ==> normalize_view(steps).status == ExecStatus::Success,
        steps[i].1 is Some ==> normalize_view(steps).status == ExecStatus::PartialFailure
            && contains_text(normalize_view(steps).details->0, steps[i].1->0),
{
    if steps[i].1 is Some {
        lemma_failure_noted(steps, i);
        lemma_contains_in_concat(normalize_partial_text(), failure_notes(steps), steps[i].1->0);
    }
}

} // verus!
