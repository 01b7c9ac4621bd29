use vstd::prelude::*;

use crate::buttons::Button;
use crate::gear_core::button_step;
use crate::gear_core::controller_step;
use crate::gear_core::holders;
use crate::gear_core::owners;
use crate::gear_core::self_test_acts;
use crate::gear_core::self_test_step;
use crate::gear_core::task_of;
use crate::gear_core::unchanged;
use crate::gear_core::Action;
use crate::gear_core::ButtonEvent;
use crate::gear_core::System;
use crate::gear_core::TaskState;

verus! {

/// A scheduling choice: which component of the core takes the next step, and
/// with what stimulus.
#[derive(Clone, Copy, Debug, PartialEq, Eq, Structural)]
pub enum Label {
    ButtonStep { button: Button, ev: ButtonEvent },
    ControllerStep,
    SelfTest { passed: bool },
}

/// The transition relation of the whole core: one component steps under
/// `label`.
pub open spec fn next_by(pre: System, post: System, label: Label) -> bool {
    match label {
        Label::ButtonStep { button, ev } => button != Button::UNSET && button_step(
            pre,
            post,
            button,
            ev,
        ),
        Label::ControllerStep => controller_step(pre, post),
        Label::SelfTest { passed } => self_test_step(pre, post, passed),
    }
}

/// The mutual-exclusion invariant of the lock protocol: at most one claim on
/// the actuator exists at any time — a task holding exclusive intent or a
/// request in flight — and while one exists the lock is set.
pub open spec fn inv(s: System) -> bool {
    &&& s.wf()
    &&& owners(s) <= 1
    &&& owners(s) >= 1 ==> s.blocked
}

/// Whether `label` is the deadlock breaker firing: a task that has exhausted
/// the bounded wait polls the lock once more and finds it still set.
pub open spec fn breaker_fires(pre: System, label: Label) -> bool {
    &&& !pre.halted
    &&& pre.blocked
    &&& label matches Label::ButtonStep { button, ev }
    &&& ev is Tick
    &&& task_of(pre, button) matches TaskState::WaitUnblock { retries }
    &&& retries >= pre.unblock_limit - 1
}

/// Whether `label` is a successful valet-toggle completion releasing the
/// lock.
pub open spec fn toggle_completes(pre: System, label: Label) -> bool {
    &&& !pre.halted
    &&& label matches Label::ButtonStep { button, ev }
    &&& task_of(pre, button) is ValetVerify
    &&& ev matches ButtonEvent::Verified { ok }
    &&& ok
}

/// The timing assumption under which mutual exclusion is stated: the two
/// steps that clear a lock they did not set themselves only ever clear an
/// orphaned one. The deadlock breaker waits out several one-second polls,
/// far longer than any move with its persistence write takes, and the
/// gesture's verification plus settle delay outlast any pending press
/// handling; so when either fires, no task holds intent and no request is in
/// flight.
pub open spec fn releases_only_orphaned_lock(pre: System, label: Label) -> bool {
    &&& breaker_fires(pre, label) ==> owners(pre) == 0
    &&& toggle_completes(pre, label) ==> owners(pre) == 0
}

/// Mutual exclusion, one step: the invariant is preserved by every transition
/// whose lock clears are orphan-only.
pub proof fn lemma_mutual_exclusion_preserved(pre: System, post: System, label: Label)
    requires
        inv(pre),
        next_by(pre, post, label),
        releases_only_orphaned_lock(pre, label),
    ensures
        inv(post),
{
}

/// A run of the core: consecutive states are related by the matching labels.
pub open spec fn is_trace(states: Seq<System>, labels: Seq<Label>) -> bool {
    &&& states.len() == labels.len() + 1
    &&& forall|i: int| 0 <= i < labels.len() ==> next_by(states[i], states[i + 1], labels[i])
}

/// The invariant holds at position `i` of a run that starts in it.
pub proof fn lemma_inv_at(states: Seq<System>, labels: Seq<Label>, i: int)
    requires
        is_trace(states, labels),
        inv(states[0]),
        forall|k: int| 0 <= k < labels.len() ==> releases_only_orphaned_lock(states[k], labels[k]),
        0 <= i < states.len(),
    ensures
        inv(states[i]),
    decreases i,
{
    if i > 0 {
        lemma_inv_at(states, labels, i - 1);
        lemma_mutual_exclusion_preserved(states[i - 1], states[i], labels[i - 1]);
    }
}

/// Mutual exclusion: over any run of the core from a state satisfying the
/// invariant (the boot state does), under the orphan-only timing assumption,
/// at most one gear request is ever in flight, and the lock is set at every
/// state at which a request is in flight — the whole interval from issuance
/// to the enabled-gear and store update.
pub proof fn lemma_mutual_exclusion(states: Seq<System>, labels: Seq<Label>)
    requires
        is_trace(states, labels),
        inv(states[0]),
        forall|k: int| 0 <= k < labels.len() ==> releases_only_orphaned_lock(states[k], labels[k]),
    ensures
        forall|i: int| 0 <= i < states.len() ==> #[trigger] states[i].queue@.len() <= 1,
        forall|i: int|
            0 <= i < states.len() && #[trigger] states[i].queue@.len() == 1 ==> states[i].blocked,
{
    assert forall|i: int| 0 <= i < states.len() implies #[trigger] states[i].queue@.len() <= 1 && (
    states[i].queue@.len() == 1 ==> states[i].blocked) by {
        lemma_inv_at(states, labels, i);
        assert(holders(states[i]) >= 0);
    }
}

/// The boot state carries the invariant: the lock is clear, every task idle,
/// and no request in flight.
pub proof fn lemma_boot_satisfies_inv(s: System)
    requires
        s.wf(),
        !s.blocked,
        task_of(s, Button::P) == TaskState::Idle,
        task_of(s, Button::R) == TaskState::Idle,
        task_of(s, Button::N) == TaskState::Idle,
        task_of(s, Button::D) == TaskState::Idle,
        s.queue@.len() == 0,
    ensures
        inv(s),
{
}

/// Idempotence of re-selecting the enabled gear: any step of the enabled
/// gear's own button task (short of a valet-gesture completion) emits no gear
/// request and leaves the persistent record untouched.
pub proof fn lemma_reselect_idempotent(pre: System, post: System, ev: ButtonEvent)
    requires
        pre.wf(),
        button_step(pre, post, pre.enabled, ev),
        !(task_of(pre, pre.enabled) is ValetVerify),
    ensures
        post.queue@ == pre.queue@,
        post.flash@ == pre.flash@,
        post.enabled == pre.enabled,
{
}

/// Deadlock freedom: a task that has waited out the bounded threshold on a
/// lock that is still set force-clears it on its next poll and resumes.
pub proof fn lemma_deadlock_breaker(pre: System, post: System, button: Button, retries: u8)
    requires
        pre.wf(),
        !pre.halted,
        pre.blocked,
        button != Button::UNSET,
        task_of(pre, button) == (TaskState::WaitUnblock { retries }),
        retries >= pre.unblock_limit - 1,
        button_step(pre, post, button, ButtonEvent::Tick),
    ensures
        !post.blocked,
        task_of(post, button) == TaskState::Idle,
{
}

/// Fail-stop, the failing step: reporting a failed self-test sends the
/// watchdog-stop signal and halts the core.
pub proof fn lemma_self_test_failure_stops(pre: System, post: System)
    requires
        pre.wf(),
        !pre.halted,
        self_test_step(pre, post, false),
    ensures
        post.halted,
        post.stop_sent,
        self_test_acts(pre, false).contains(Action::SendStopWatchdog),
{
    assert(self_test_acts(pre, false)[1] == Action::SendStopWatchdog);
}

/// Once the core is halted, every step of every component is a no-op.
pub proof fn lemma_halted_frozen(pre: System, post: System, label: Label)
    requires
        pre.halted,
        next_by(pre, post, label),
    ensures
        unchanged(pre, post),
        post.halted,
{
}

/// Fail-stop over a whole run: from the moment the core is halted, nothing
/// ever changes again — in particular no gear request is emitted or accepted
/// afterward, and the stop signal stays sent.
pub proof fn lemma_frozen_from(states: Seq<System>, labels: Seq<Label>, i: int, j: int)
    requires
        is_trace(states, labels),
        0 <= i <= j < states.len(),
        states[i].halted,
    ensures
        unchanged(states[i], states[j]),
        states[j].halted,
    decreases j - i,
{
    if j > i {
        lemma_frozen_from(states, labels, i, j - 1);
        lemma_halted_frozen(states[j - 1], states[j], labels[j - 1]);
    }
}

} // verus!
