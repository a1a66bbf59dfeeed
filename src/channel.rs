//! The decisions of the command channel: for each inbound command, whether
//! it runs now, waits for the user's confirmation, resolves an earlier one,
//! sets the UI flag, or is dropped.

use vstd::prelude::*;
use crate::command::Command;
use crate::engine::{ExecStatus, OutcomeView, PlanView, outcome_report, plan_of};
use crate::policy::{PermissionDecision, PermissionDecisionKind, decision_of, evaluate};
use crate::registry::ConfirmationRegistry;
use crate::system::new_command_id;

verus! {

/// What the channel does with one inbound command.
#[derive(Debug)]
pub enum Dispatch {
    /// Hand the command to the execution engine now.
    Execute { command: Command },
    /// The command waits under `command_id`; ask the user to confirm it.
    AwaitConfirmation { command_id: String, command: Command, reason: String },
    /// Set the flag that tells whether a user interface is watching.
    SetUiActive { active: bool },
    /// The policy refused the command for this reason.
    Denied { reason: String },
    /// Nothing to do.
    Nothing,
}

pub ghost enum DispatchView {
    Execute(Command),
    AwaitConfirmation(Seq<char>, Command, Seq<char>),
    SetUiActive(bool),
    Denied(Seq<char>),
    Nothing,
}

impl View for Dispatch {
    type V = DispatchView;

    open spec fn view(&self) -> DispatchView {
        match self {
            Dispatch::Execute { command } => DispatchView::Execute(*command),
            Dispatch::AwaitConfirmation { command_id, command, reason } => DispatchView::AwaitConfirmation(
                command_id@,
                *command,
                reason@,
            ),
            Dispatch::SetUiActive { active } => DispatchView::SetUiActive(*active),
            Dispatch::Denied { reason } => DispatchView::Denied(reason@),
            Dispatch::Nothing => DispatchView::Nothing,
        }
    }
}

/// The pending commands after `cmd` arrives, and what is done with it, where
/// `fresh_id` is the identifier a command needing confirmation would wait under.
pub open spec fn dispatch_of(pending: Map<Seq<char>, Command>, cmd: Command, fresh_id: Seq<char>) -> (
    Map<Seq<char>, Command>,
    DispatchView,
) {
    match cmd {
        Command::Confirm { command_id } => if pending.contains_key(command_id@) {
            (pending.remove(command_id@), DispatchView::Execute(pending[command_id@]))
        } else {
            (pending, DispatchView::Nothing)
        },
        Command::Cancel { command_id } => (pending.remove(command_id@), DispatchView::Nothing),
        Command::SetUiActive { active } => (pending, DispatchView::SetUiActive(active)),
        _ => match decision_of(cmd) {
            PermissionDecisionKind::Allow => (pending, DispatchView::Execute(cmd)),
            PermissionDecisionKind::RequireConfirmation(reason) => if pending.contains_key(fresh_id) {
                (pending, DispatchView::Nothing)
            } else {
                (pending.insert(fresh_id, cmd), DispatchView::AwaitConfirmation(fresh_id, cmd, reason))
            },
            PermissionDecisionKind::Deny(reason) => (pending, DispatchView::Denied(reason)),
        },
    }
}

/// The channel's state: the commands awaiting confirmation.
pub struct CommandHub {
    registry: ConfirmationRegistry,
}

impl CommandHub {
    pub closed spec fn wf(&self) -> bool {
        self.registry.wf()
    }

    /// The commands awaiting confirmation, by identifier.
    pub closed spec fn pending(&self) -> Map<Seq<char>, Command> {
        self.registry.pending()
    }

    pub fn new() -> (r: Self)
        ensures
            r.wf(),
            r.pending() == Map::<Seq<char>, Command>::empty(),
    {
        CommandHub { registry: ConfirmationRegistry::new() }
    }

    /// The number of commands awaiting confirmation.
    pub fn pending_count(&self) -> (r: usize)
        requires
            self.wf(),
        ensures
            r == self.pending().len(),
    {
        self.registry.len()
    }

    /// Handles one inbound command; a command that needs confirmation waits
    /// under a freshly generated 36-character identifier.
    pub fn handle(&mut self, cmd: Command) -> (r: Dispatch)
        requires
            old(self).wf(),
        ensures
            final(self).wf(),
            exists|id: Seq<char>|
                id.len() == 36 && (final(self).pending(), r@) == dispatch_of(old(self).pending(), cmd, id),
    {
        let id = new_command_id();
        let ghost g = id@;
        let r = self.handle_with_id(cmd, id);
        assert((self.pending(), r@) == dispatch_of(old(self).pending(), cmd, g));
        r
    }

    /// Handles one inbound command; a command that needs confirmation waits
    /// under `fresh_id`, unless something already waits under it.
    pub fn handle_with_id(&mut self, cmd: Command, fresh_id: String) -> (r: Dispatch)
        requires
            old(self).wf(),
        ensures
            final(self).wf(),
            (final(self).pending(), r@) == dispatch_of(old(self).pending(), cmd, fresh_id@),
    {
        match cmd {
            Command::Confirm { command_id } => match self.registry.resolve_confirm(command_id.as_str()) {
                Some(waiting) => Dispatch::Execute { command: waiting },
                None => Dispatch::Nothing,
            },
            Command::Cancel { command_id } => {
                self.registry.resolve_cancel(command_id.as_str());
                Dispatch::Nothing
            },
            Command::SetUiActive { active } => Dispatch::SetUiActive { active },
            other => match evaluate(&other) {
                PermissionDecision::Allow => Dispatch::Execute { command: other },
                PermissionDecision::RequireConfirmation { reason } => {
                    let stored = other.duplicate();
                    let id_copy = fresh_id.clone();
                    if self.registry.register_with_id(fresh_id, stored) {
                        Dispatch::AwaitConfirmation { command_id: id_copy, command: other, reason }
                    } else {
                        Dispatch::Nothing
                    }
                },
                PermissionDecision::Deny { reason } => Dispatch::Denied { reason },
            },
        }
    }
}

/// While no 36-character identifier is pending, as in a new hub, a cleanup
/// request handled under any fresh 36-character identifier waits under it:
/// exactly one confirmation is asked for and nothing is executed.
pub proof fn lemma_cleanup_always_waits(pending: Map<Seq<char>, Command>, fresh_id: Seq<char>)
    requires
        fresh_id.len() == 36,
        forall|k: Seq<char>| k.len() == 36 ==> !#[trigger] pending.contains_key(k),
    ensures
        dispatch_of(pending, Command::RequestCleanup, fresh_id) == (
            pending.insert(fresh_id, Command::RequestCleanup),
            DispatchView::AwaitConfirmation(
                fresh_id,
                Command::RequestCleanup,
                "Cleanup may close background applications"@,
            ),
        ),
{
}

/// An open-path request runs at once, with no confirmation round-trip, and
/// is reported a success once the desktop has opened the path. A
/// cleanup request waits under a fresh identifier; cancelling it leaves
/// nothing pending and executes nothing, and a later Confirm with the same
/// identifier does nothing, the command having been consumed.
pub proof fn lemma_open_runs_and_cleanup_waits(
    pending: Map<Seq<char>, Command>,
    open: Command,
    cancel: Command,
    confirm: Command,
    fresh_id: Seq<char>,
)
    requires
        open is OpenPath,
        cancel matches Command::Cancel { command_id } && command_id@ == fresh_id,
        confirm matches Command::Confirm { command_id } && command_id@ == fresh_id,
        !pending.contains_key(fresh_id),
    ensures
        dispatch_of(pending, open, fresh_id) == (pending, DispatchView::Execute(open)),
        plan_of(open) matches PlanView::Run(_, action) && action is Open
            && outcome_report(action, OutcomeView::Completed).0 == ExecStatus::Success,
        ({
            let (after_request, first) = dispatch_of(pending, Command::RequestCleanup, fresh_id);
            let (after_cancel, second) = dispatch_of(after_request, cancel, fresh_id);
            let (after_confirm, third) = dispatch_of(after_cancel, confirm, fresh_id);
            &&& first matches DispatchView::AwaitConfirmation(id, cmd, _) && id == fresh_id && cmd
                == Command::RequestCleanup
            &&& after_request.contains_key(fresh_id)
            &&& second == DispatchView::Nothing
            &&& after_cancel == pending
            &&& third == DispatchView::Nothing
            &&& after_confirm == pending
        }),
{
    let after_request = pending.insert(fresh_id, Command::RequestCleanup);
    assert(after_request.remove(fresh_id) =~= pending);
}

} // verus!
