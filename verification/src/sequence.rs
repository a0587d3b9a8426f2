//! The order of a run: which step comes first, which step follows a step
//! that succeeded, and that nothing follows one that failed.
//!
//! The steps themselves are work of the operating system. Whoever drives a
//! run performs the step it is told, and reports whether it succeeded.

use vstd::prelude::*;
use vstd::string::*;

verus! {

/// How long the last step waits, in milliseconds, so that the notification
/// service can take the toast over before the program exits.
pub const PAUSE_MILLIS: u64 = 10;

/// What is printed, before the identity, when the registry write failed.
pub const REGISTRY_FAILURE: &'static str = "Failed to create registry keys for: ";

/// What is printed, before the identity, when the shortcut was not made.
pub const SHORTCUT_FAILURE: &'static str = "Failed to create shortcut for: ";

/// One step of a run.
#[derive(Clone, Copy, Debug, PartialEq, Eq, Structural)]
pub enum Step {
    /// Register the identity for notifications.
    WriteRegistry,
    /// Save the Start Menu shortcut.
    CreateShortcut,
    /// Load the toast document and make the notification from it.
    BuildNotification,
    /// Clear what the identity showed before, and show the notification.
    ShowNotification,
    /// Wait for `PAUSE_MILLIS`.
    Pause,
}

/// Where a run stands.
#[derive(Clone, Copy, Debug, PartialEq, Eq, Structural)]
pub enum Progress {
    /// This step is to be performed next.
    Run(Step),
    /// Every step succeeded.
    Finished,
    /// This step failed, and the run ended with it.
    Aborted(Step),
}

/// What one run works on.
#[derive(Debug, PartialEq, Eq)]
pub struct Plan {
    /// The identity under which the notification is sent: the application
    /// id where one was given, else the path of the program itself.
    pub identity: String,
    /// Whether the run saves the Start Menu shortcut.
    pub shortcut: bool,
}

/// The identity of a run.
pub open spec fn identity_text(exe_path: Seq<char>, app_id: Option<&str>) -> Seq<char> {
    match app_id {
        Some(id) => id@,
        None => exe_path,
    }
}

/// Whether a run saves the shortcut: it does unless an application id was
/// given, which has a shortcut of its own, or the shortcut was declined.
pub open spec fn wants_shortcut(app_id: Option<&str>, no_shortcut: bool) -> bool {
    app_id.is_none() && !no_shortcut
}

/// The place of a step in the order of all steps.
pub open spec fn rank(step: Step) -> nat {
    match step {
        Step::WriteRegistry => 0,
        Step::CreateShortcut => 1,
        Step::BuildNotification => 2,
        Step::ShowNotification => 3,
        Step::Pause => 4,
    }
}

/// The step that follows `step` once it has succeeded, if any does. The
/// shortcut is left out of a run that does not save it.
pub open spec fn following(step: Step, shortcut: bool) -> Option<Step> {
    match step {
        Step::WriteRegistry => if shortcut {
            Some(Step::CreateShortcut)
        } else {
            Some(Step::BuildNotification)
        },
        Step::CreateShortcut => Some(Step::BuildNotification),
        Step::BuildNotification => Some(Step::ShowNotification),
        Step::ShowNotification => Some(Step::Pause),
        Step::Pause => None,
    }
}

/// Where a run stands after `step`: aborted with it where it failed, else
/// at the step that follows, or finished where none does.
pub open spec fn progress_after(step: Step, succeeded: bool, shortcut: bool) -> Progress {
    if !succeeded {
        Progress::Aborted(step)
    } else {
        match following(step, shortcut) {
            Some(next) => Progress::Run(next),
            None => Progress::Finished,
        }
    }
}

/// The steps that a run performs from `step` on, where `succeeds` says of
/// each step whether it succeeds: the run ends with the first that fails.
pub open spec fn steps_from(step: Step, shortcut: bool, succeeds: spec_fn(Step) -> bool) -> Seq<
    Step,
>
    decreases 4 - rank(step),
{
    match progress_after(step, succeeds(step), shortcut) {
        Progress::Run(next) => seq![step] + steps_from(next, shortcut, succeeds),
        _ => seq![step],
    }
}

/// The steps that a whole run performs.
pub open spec fn steps_of_run(shortcut: bool, succeeds: spec_fn(Step) -> bool) -> Seq<Step> {
    steps_from(Step::WriteRegistry, shortcut, succeeds)
}

/// What is printed for a step that failed without a message of the
/// operating system's own: a line that names the identity.
pub open spec fn failure_text(step: Step, identity: Seq<char>) -> Option<Seq<char>> {
    match step {
        Step::WriteRegistry => Some(REGISTRY_FAILURE@ + identity),
        Step::CreateShortcut => Some(SHORTCUT_FAILURE@ + identity),
        _ => None,
    }
}

impl Plan {
    /// The plan of a run of the program at `exe_path`, with the
    /// application id and the choice about the shortcut that were given.
    pub fn new(exe_path: &str, app_id: Option<&str>, no_shortcut: bool) -> (plan: Plan)
        ensures
            plan.identity@ == identity_text(exe_path@, app_id),
            plan.shortcut == wants_shortcut(app_id, no_shortcut),
    {
        match app_id {
            Some(id) => Plan { identity: String::from_str(id), shortcut: false },
            None => Plan { identity: String::from_str(exe_path), shortcut: !no_shortcut },
        }
    }

    /// Where every run starts: at the registry write.
    pub fn first(&self) -> (progress: Progress)
        ensures
            progress == Progress::Run(Step::WriteRegistry),
    {
        Progress::Run(Step::WriteRegistry)
    }

    /// Where the run stands once `step` has been performed and has
    /// succeeded or not.
    pub fn advance(&self, step: Step, succeeded: bool) -> (progress: Progress)
        ensures
            progress == progress_after(step, succeeded, self.shortcut),
    {
        if !succeeded {
            return Progress::Aborted(step);
        }
        match step {
            Step::WriteRegistry => {
                if self.shortcut {
                    Progress::Run(Step::CreateShortcut)
                } else {
                    Progress::Run(Step::BuildNotification)
                }
            },
            Step::CreateShortcut => Progress::Run(Step::BuildNotification),
            Step::BuildNotification => Progress::Run(Step::ShowNotification),
            Step::ShowNotification => Progress::Run(Step::Pause),
            Step::Pause => Progress::Finished,
        }
    }

    /// The line to print when `step` failed, for the steps that fail
    /// without a message of the operating system's own.
    pub fn failure_message(&self, step: Step) -> (message: Option<String>)
        ensures
            message.is_some() <==> failure_text(step, self.identity@).is_some(),
            message matches Some(line) ==> Some(line@) == failure_text(step, self.identity@),
    {
        match step {
            Step::WriteRegistry => {
                let mut line = String::from_str(REGISTRY_FAILURE);
                line.append(self.identity.as_str());
                Some(line)
            },
            Step::CreateShortcut => {
                let mut line = String::from_str(SHORTCUT_FAILURE);
                line.append(self.identity.as_str());
                Some(line)
            },
            _ => None,
        }
    }
}

/// A step that follows another comes later in the order, so a run performs
/// no step twice and ends after five steps at most.
pub proof fn lemma_following_is_later(step: Step, shortcut: bool)
    ensures
        following(step, shortcut) matches Some(next) ==> rank(next) > rank(step),
{
}

/// Nothing follows a step that failed, whichever it is.
pub proof fn lemma_failure_ends_run(step: Step, shortcut: bool, succeeds: spec_fn(Step) -> bool)
    requires
        !succeeds(step),
    ensures
        progress_after(step, false, shortcut) == Progress::Aborted(step),
        steps_from(step, shortcut, succeeds) == seq![step],
{
}

/// A step occurs in what a run performs from `from` on where it is `from`
/// itself, or `from` succeeds and the step occurs from the next step on.
proof fn lemma_occurs_from(
    from: Step,
    target: Step,
    shortcut: bool,
    succeeds: spec_fn(Step) -> bool,
)
    ensures
        steps_from(from, shortcut, succeeds).contains(target) <==> from == target || (
        progress_after(from, succeeds(from), shortcut) matches Progress::Run(next) && steps_from(
            next,
            shortcut,
            succeeds,
        ).contains(target)),
{
    let all = steps_from(from, shortcut, succeeds);
    assert(all[0] == from);
    match progress_after(from, succeeds(from), shortcut) {
        Progress::Run(next) => {
            let rest = steps_from(next, shortcut, succeeds);
            assert(all =~= seq![from] + rest);
            if all.contains(target) && from != target {
                let i = choose|i: int| 0 <= i < all.len() && all[i] == target;
                assert(rest[i - 1] == target);
            }
            if rest.contains(target) {
                let j = choose|j: int| 0 <= j < rest.len() && rest[j] == target;
                assert(all[j + 1] == target);
            }
        },
        _ => {
            assert(all =~= seq![from]);
        },
    }
}

/// The same, from every step at once.
proof fn lemma_occurs(target: Step, shortcut: bool, succeeds: spec_fn(Step) -> bool)
    ensures
        forall|from: Step|
            #![trigger steps_from(from, shortcut, succeeds)]
            steps_from(from, shortcut, succeeds).contains(target) <==> from == target || (
            progress_after(from, succeeds(from), shortcut) matches Progress::Run(next)
                && steps_from(next, shortcut, succeeds).contains(target)),
{
    assert forall|from: Step|
        #![trigger steps_from(from, shortcut, succeeds)]
        steps_from(from, shortcut, succeeds).contains(target) <==> from == target || (
        progress_after(from, succeeds(from), shortcut) matches Progress::Run(next) && steps_from(
            next,
            shortcut,
            succeeds,
        ).contains(target)) by {
        lemma_occurs_from(from, target, shortcut, succeeds);
    }
}

/// Which steps a run performs. It starts with the registry write. It
/// saves the shortcut exactly where the plan has one and the registry
/// write succeeded. It builds the notification exactly where the steps
/// before succeeded, and shows it exactly where building it succeeded
/// too: after a registry write that failed, nothing is shown.
pub proof fn lemma_steps_of_run(shortcut: bool, succeeds: spec_fn(Step) -> bool)
    ensures
        steps_of_run(shortcut, succeeds).len() >= 1,
        steps_of_run(shortcut, succeeds)[0] == Step::WriteRegistry,
        steps_of_run(shortcut, succeeds).contains(Step::CreateShortcut) <==> shortcut && succeeds(
            Step::WriteRegistry,
        ),
        steps_of_run(shortcut, succeeds).contains(Step::BuildNotification) <==> succeeds(
            Step::WriteRegistry,
        ) && (shortcut ==> succeeds(Step::CreateShortcut)),
        steps_of_run(shortcut, succeeds).contains(Step::ShowNotification) <==> succeeds(
            Step::WriteRegistry,
        ) && (shortcut ==> succeeds(Step::CreateShortcut)) && succeeds(Step::BuildNotification),
{
    lemma_occurs(Step::CreateShortcut, shortcut, succeeds);
    lemma_occurs(Step::BuildNotification, shortcut, succeeds);
    lemma_occurs(Step::ShowNotification, shortcut, succeeds);
}

} // verus!
