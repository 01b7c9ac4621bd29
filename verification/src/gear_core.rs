use vstd::prelude::*;

use crate::buttons::spec_button_index;
use crate::buttons::button_index;
use crate::buttons::Button;
use crate::buttons::LedStatus;
use crate::can_bus::CANMessage;
use crate::config::spec_read;
use crate::config::spec_written;
use crate::config::write_flash;
use crate::config::DbwConfig;
use crate::config::FlashBlock;

verus! {

/// Default number of one-second waits a task spends on a held lock before the
/// deadlock breaker force-clears it.
pub const DEFAULT_UNBLOCK_LIMIT: u8 = 5;

/// Local protocol state of one button task, between two of its suspension
/// points.
#[derive(Clone, Copy, Debug, PartialEq, Eq, Structural)]
pub enum TaskState {
    /// Waiting for a debounced press edge.
    Idle,
    /// Has acquired the lock and is waiting for the button's release, under
    /// the press-confirmation deadline.
    Holding,
    /// The deadline elapsed with the button still down; waiting out the fixed
    /// cooldown.
    Cooldown,
    /// After the cooldown: the button must actually release before the task
    /// listens for presses again.
    AwaitRelease,
    /// Saw the lock held by someone else; polling until it clears, counting
    /// the polls toward the deadlock breaker.
    WaitUnblock { retries: u8 },
    /// Recognized the valet-toggle chord and is waiting for the biometric
    /// verdict.
    ValetVerify,
}

/// Stimulus a button task wakes up on.
#[derive(Clone, Copy, Debug, PartialEq, Eq, Structural)]
pub enum ButtonEvent {
    /// A debounced press edge.
    Pressed,
    /// The button released before the press-confirmation deadline (in
    /// `Holding`), or at last released (in `AwaitRelease`).
    Released,
    /// The press-confirmation deadline elapsed with the button still down.
    DeadlineElapsed,
    /// A timed poll elapsed (cooldown over, or one lock-wait period).
    Tick,
    /// The biometric verification came back.
    Verified { ok: bool },
}

/// Side effect a step asks the surrounding tasks to perform.
#[derive(Clone, Copy, Debug, PartialEq, Eq, Structural)]
pub enum Action {
    /// Send a command to one button's LED driver.
    Led { button: Button, status: LedStatus },
    /// Send a lifecycle event on the bus-telemetry channel.
    Can { message: CANMessage },
    /// Send the stop signal to the watchdog monitor, forcing a hardware reset.
    SendStopWatchdog,
    /// Clear the biometric sensor's indicator light.
    ClearIndicator,
}

/// Motion the actuator controller must drive: the requested gear and the
/// signed distance, in nominal position steps, from the gear the linkage is
/// believed to be in.
#[derive(Clone, Copy, Debug, PartialEq, Eq, Structural)]
pub struct ActuatorMove {
    pub gear: Button,
    pub travel: i8,
}

/// The shared state of the gear-selection core: the enabled gear, the
/// cooperative actuator lock, the four button tasks, the bounded gear-request
/// channel, and the persistent store.
pub struct System {
    /// The gear the actuator is currently believed to be in. Written only by
    /// the controller after a completed move; never rolled back on failure.
    pub enabled: Button,
    /// The cooperative mutual-exclusion flag serializing gear changes. Polled,
    /// not blocking: set by whichever task observes it false, cleared by the
    /// controller once move and persistence write complete, or by the
    /// deadlock breaker.
    pub blocked: bool,
    pub task_p: TaskState,
    pub task_r: TaskState,
    pub task_n: TaskState,
    pub task_d: TaskState,
    /// Requests in flight toward the actuator controller, in arrival order.
    pub queue: Vec<Button>,
    /// The persistent configuration block.
    pub flash: FlashBlock,
    /// Set when the actuator self-test failed: the core then refuses all
    /// further work and waits for the watchdog reset.
    pub halted: bool,
    /// Whether the watchdog-stop signal has been emitted.
    pub stop_sent: bool,
    /// First button of the valet-toggle chord: the gesture triggers when this
    /// gear is enabled and held.
    pub chord_first: Button,
    /// Second button of the valet-toggle chord: the one whose press, while
    /// the lock is held, starts the toggle.
    pub chord_second: Button,
    /// Number of lock-wait polls before the deadlock breaker force-clears the
    /// lock.
    pub unblock_limit: u8,
}

/// The task field that belongs to `button` (`UNSET` owns no task and reads as
/// `Idle`).
pub open spec fn task_of(s: System, button: Button) -> TaskState {
    match button {
        Button::P => s.task_p,
        Button::R => s.task_r,
        Button::N => s.task_n,
        Button::D => s.task_d,
        Button::UNSET => TaskState::Idle,
    }
}

impl System {
    /// Structural well-formedness: the enabled gear and the chord are real
    /// gears, the deadlock breaker fires after at least one poll, the store
    /// block is whole, and no queued request names `UNSET`.
    pub open spec fn wf(&self) -> bool {
        &&& self.enabled != Button::UNSET
        &&& self.chord_first != Button::UNSET
        &&& self.chord_second != Button::UNSET
        &&& self.unblock_limit >= 1
        &&& self.flash.wf()
        &&& forall|i: int| 0 <= i < self.queue@.len() ==> self.queue@[i] != Button::UNSET
    }
}

/// 1 when the task is in `Holding`, the state from which a gear request can
/// still be issued.
pub open spec fn holding_weight(t: TaskState) -> int {
    if t is Holding {
        1
    } else {
        0
    }
}

/// How many button tasks currently hold exclusive intent to move the
/// actuator.
pub open spec fn holders(s: System) -> int {
    holding_weight(s.task_p) + holding_weight(s.task_r) + holding_weight(s.task_n)
        + holding_weight(s.task_d)
}

/// How many claims on the actuator exist: tasks holding intent plus requests
/// already in flight.
pub open spec fn owners(s: System) -> int {
    holders(s) + s.queue@.len()
}

/// The policy fields never change after boot.
pub open spec fn same_config(pre: System, post: System) -> bool {
    &&& post.chord_first == pre.chord_first
    &&& post.chord_second == pre.chord_second
    &&& post.unblock_limit == pre.unblock_limit
}

/// All four task fields unchanged.
pub open spec fn same_tasks(pre: System, post: System) -> bool {
    &&& post.task_p == pre.task_p
    &&& post.task_r == pre.task_r
    &&& post.task_n == pre.task_n
    &&& post.task_d == pre.task_d
}

/// The task fields of every button but `button` unchanged.
pub open spec fn tasks_except(pre: System, post: System, button: Button) -> bool {
    match button {
        Button::P => post.task_r == pre.task_r && post.task_n == pre.task_n && post.task_d
            == pre.task_d,
        Button::R => post.task_p == pre.task_p && post.task_n == pre.task_n && post.task_d
            == pre.task_d,
        Button::N => post.task_p == pre.task_p && post.task_r == pre.task_r && post.task_d
            == pre.task_d,
        Button::D => post.task_p == pre.task_p && post.task_r == pre.task_r && post.task_n
            == pre.task_n,
        Button::UNSET => same_tasks(pre, post),
    }
}

/// Nothing observable changed.
pub open spec fn unchanged(pre: System, post: System) -> bool {
    &&& post.enabled == pre.enabled
    &&& post.blocked == pre.blocked
    &&& same_tasks(pre, post)
    &&& post.queue@ == pre.queue@
    &&& post.flash@ == pre.flash@
    &&& post.halted == pre.halted
    &&& post.stop_sent == pre.stop_sent
    &&& same_config(pre, post)
}

/// Everything but the task of `button` and the lock flag unchanged.
pub open spec fn frame_task_lock(pre: System, post: System, button: Button) -> bool {
    &&& tasks_except(pre, post, button)
    &&& post.enabled == pre.enabled
    &&& post.queue@ == pre.queue@
    &&& post.flash@ == pre.flash@
    &&& post.halted == pre.halted
    &&& post.stop_sent == pre.stop_sent
    &&& same_config(pre, post)
}

/// The LED pattern acknowledging that the pressed gear is already enabled:
/// that button's LED blinks off/on three times.
pub open spec fn blink_acts(button: Button) -> Seq<Action> {
    seq![
        Action::Led { button, status: LedStatus::Off },
        Action::Led { button, status: LedStatus::On },
        Action::Led { button, status: LedStatus::Off },
        Action::Led { button, status: LedStatus::On },
        Action::Led { button, status: LedStatus::Off },
        Action::Led { button, status: LedStatus::On },
    ]
}

/// The LED pattern for selecting a gear: the chosen button's LED on, the
/// other three off.
pub open spec fn select_acts(button: Button) -> Seq<Action> {
    seq![
        Action::Led {
            button: Button::P,
            status: if button == Button::P {
                LedStatus::On
            } else {
                LedStatus::Off
            },
        },
        Action::Led {
            button: Button::R,
            status: if button == Button::R {
                LedStatus::On
            } else {
                LedStatus::Off
            },
        },
        Action::Led {
            button: Button::N,
            status: if button == Button::N {
                LedStatus::On
            } else {
                LedStatus::Off
            },
        },
        Action::Led {
            button: Button::D,
            status: if button == Button::D {
                LedStatus::On
            } else {
                LedStatus::Off
            },
        },
    ]
}

/// Acknowledgment of the recognized valet chord: both chord LEDs on.
pub open spec fn chord_on_acts(s: System) -> Seq<Action> {
    seq![
        Action::Led { button: s.chord_first, status: LedStatus::On },
        Action::Led { button: s.chord_second, status: LedStatus::On },
    ]
}

/// What one button-task step changes, as a relation between the state before
/// and after. The step is the code between two suspension points of the task
/// owning `button`; while the core is halted every step is a no-op.
pub open spec fn button_step(pre: System, post: System, button: Button, ev: ButtonEvent) -> bool {
    if pre.halted {
        unchanged(pre, post)
    } else {
        match (task_of(pre, button), ev) {
            (TaskState::Idle, ButtonEvent::Pressed) => {
                if !pre.blocked {
                    // Won the race: acquire the lock and arm the deadline.
                    &&& task_of(post, button) == TaskState::Holding
                    &&& post.blocked
                    &&& frame_task_lock(pre, post, button)
                } else if pre.enabled == pre.chord_first && button == pre.chord_second {
                    // The deliberate two-button gesture: start the toggle.
                    &&& task_of(post, button) == TaskState::ValetVerify
                    &&& post.blocked == pre.blocked
                    &&& frame_task_lock(pre, post, button)
                } else {
                    // Someone else holds the lock: poll until it clears.
                    &&& task_of(post, button) == (TaskState::WaitUnblock { retries: 0 })
                    &&& post.blocked == pre.blocked
                    &&& frame_task_lock(pre, post, button)
                }
            },
            (TaskState::Holding, ButtonEvent::Released) => {
                if button == pre.enabled {
                    // Already the enabled gear: acknowledge and release the
                    // lock directly; no motion, no request, no store write.
                    &&& task_of(post, button) == TaskState::Idle
                    &&& !post.blocked
                    &&& frame_task_lock(pre, post, button)
                } else {
                    // A gear change: light this gear's LED, emit the request,
                    // and leave the lock set for the controller to clear.
                    &&& task_of(post, button) == TaskState::Idle
                    &&& post.blocked == pre.blocked
                    &&& tasks_except(pre, post, button)
                    &&& post.enabled == pre.enabled
                    &&& post.queue@ == pre.queue@.push(button)
                    &&& post.flash@ == pre.flash@
                    &&& post.halted == pre.halted
                    &&& post.stop_sent == pre.stop_sent
                    &&& same_config(pre, post)
                }
            },
            (TaskState::Holding, ButtonEvent::DeadlineElapsed) => {
                // Held too long: inconclusive, wait out the cooldown.
                &&& task_of(post, button) == TaskState::Cooldown
                &&& post.blocked == pre.blocked
                &&& frame_task_lock(pre, post, button)
            },
            (TaskState::Cooldown, ButtonEvent::Tick) => {
                &&& task_of(post, button) == TaskState::AwaitRelease
                &&& post.blocked == pre.blocked
                &&& frame_task_lock(pre, post, button)
            },
            (TaskState::AwaitRelease, ButtonEvent::Released) => {
                &&& task_of(post, button) == TaskState::Idle
                &&& post.blocked == pre.blocked
                &&& frame_task_lock(pre, post, button)
            },
            (TaskState::WaitUnblock { retries }, ButtonEvent::Tick) => {
                if !pre.blocked {
                    &&& task_of(post, button) == TaskState::Idle
                    &&& post.blocked == pre.blocked
                    &&& frame_task_lock(pre, post, button)
                } else if retries >= pre.unblock_limit - 1 {
                    // Deadlock breaker: the bounded wait is over; force-clear
                    // the lock and resume.
                    &&& task_of(post, button) == TaskState::Idle
                    &&& !post.blocked
                    &&& frame_task_lock(pre, post, button)
                } else {
                    &&& task_of(post, button) == (TaskState::WaitUnblock {
                        retries: (retries + 1) as u8,
                    })
                    &&& post.blocked == pre.blocked
                    &&& frame_task_lock(pre, post, button)
                }
            },
            (TaskState::ValetVerify, ButtonEvent::Verified { ok }) => {
                if ok {
                    // Toggle valet mode in the store (read-modify-write),
                    // clear the acknowledgment LEDs, release the lock.
                    &&& task_of(post, button) == TaskState::Idle
                    &&& !post.blocked
                    &&& tasks_except(pre, post, button)
                    &&& post.enabled == pre.enabled
                    &&& post.queue@ == pre.queue@
                    &&& post.flash@ == spec_written(
                        DbwConfig {
                            active_button: spec_read(pre.flash@).active_button,
                            valet_mode: !spec_read(pre.flash@).valet_mode,
                        },
                    )
                    &&& post.halted == pre.halted
                    &&& post.stop_sent == pre.stop_sent
                    &&& same_config(pre, post)
                } else {
                    // Verification failed: valet mode stays as it was; clear
                    // the acknowledgment and resume after the backoff.
                    &&& task_of(post, button) == TaskState::Idle
                    &&& post.blocked == pre.blocked
                    &&& frame_task_lock(pre, post, button)
                }
            },
            _ => unchanged(pre, post),
        }
    }
}

/// The actions one button-task step emits, as a function of the state before
/// the step.
pub open spec fn button_acts(pre: System, button: Button, ev: ButtonEvent) -> Seq<Action> {
    if pre.halted {
        Seq::empty()
    } else {
        match (task_of(pre, button), ev) {
            (TaskState::Idle, ButtonEvent::Pressed) => {
                if !pre.blocked {
                    Seq::empty()
                } else if pre.enabled == pre.chord_first && button == pre.chord_second {
                    chord_on_acts(pre)
                } else {
                    Seq::empty()
                }
            },
            (TaskState::Holding, ButtonEvent::Released) => {
                if button == pre.enabled {
                    blink_acts(button)
                } else {
                    select_acts(button)
                }
            },
            (TaskState::ValetVerify, ButtonEvent::Verified { ok }) => {
                if ok {
                    seq![
                        Action::Can {
                            message: if spec_read(pre.flash@).valet_mode {
                                CANMessage::DisableValetMode
                            } else {
                                CANMessage::EnableValetMode
                            },
                        },
                        Action::Led { button: pre.chord_first, status: LedStatus::Off },
                        Action::Led { button: pre.chord_second, status: LedStatus::Off },
                    ]
                } else {
                    seq![
                        Action::Led { button: pre.chord_first, status: LedStatus::Off },
                        Action::Led { button: pre.chord_second, status: LedStatus::Off },
                        Action::ClearIndicator,
                    ]
                }
            },
            _ => Seq::empty(),
        }
    }
}

/// What one controller step changes: if a request is pending and the core is
/// not halted, the head request is taken, the actuator is moved, the enabled
/// gear and the store are updated, and only then is the lock released.
pub open spec fn controller_step(pre: System, post: System) -> bool {
    if pre.halted || pre.queue@.len() == 0 {
        unchanged(pre, post)
    } else {
        &&& post.enabled == pre.queue@[0]
        &&& !post.blocked
        &&& same_tasks(pre, post)
        &&& post.queue@ == pre.queue@.remove(0)
        &&& post.flash@ == spec_written(
            DbwConfig {
                active_button: pre.queue@[0],
                valet_mode: spec_read(pre.flash@).valet_mode,
            },
        )
        &&& post.halted == pre.halted
        &&& post.stop_sent == pre.stop_sent
        &&& same_config(pre, post)
    }
}

/// The motion one controller step commands.
pub open spec fn controller_result(pre: System) -> Option<ActuatorMove> {
    if pre.halted || pre.queue@.len() == 0 {
        None
    } else {
        Some(
            ActuatorMove {
                gear: pre.queue@[0],
                travel: (spec_button_index(pre.queue@[0]) - spec_button_index(pre.enabled)) as i8,
            },
        )
    }
}

/// What reporting the self-test outcome changes: a failure halts the core and
/// marks the watchdog-stop signal sent; a pass changes nothing.
pub open spec fn self_test_step(pre: System, post: System, passed: bool) -> bool {
    if pre.halted {
        unchanged(pre, post)
    } else if passed {
        unchanged(pre, post)
    } else {
        &&& post.enabled == pre.enabled
        &&& post.blocked == pre.blocked
        &&& same_tasks(pre, post)
        &&& post.queue@ == pre.queue@
        &&& post.flash@ == pre.flash@
        &&& post.halted
        &&& post.stop_sent
        &&& same_config(pre, post)
    }
}

/// The telemetry and watchdog actions reporting the self-test outcome emits.
pub open spec fn self_test_acts(pre: System, passed: bool) -> Seq<Action> {
    if pre.halted {
        Seq::empty()
    } else if passed {
        seq![Action::Can { message: CANMessage::ActuatorInitialized }]
    } else {
        seq![
            Action::Can { message: CANMessage::ActuatorTestFailed },
            Action::SendStopWatchdog,
        ]
    }
}

/// The state the core boots into from the given store contents: the enabled
/// gear seeded from the store, the lock clear, all tasks idle, no request in
/// flight.
pub open spec fn boot_state(
    bytes: Seq<u8>,
    chord_first: Button,
    chord_second: Button,
    unblock_limit: u8,
    s: System,
) -> bool {
    &&& s.enabled == spec_read(bytes).active_button
    &&& !s.blocked
    &&& s.task_p == TaskState::Idle
    &&& s.task_r == TaskState::Idle
    &&& s.task_n == TaskState::Idle
    &&& s.task_d == TaskState::Idle
    &&& s.queue@ == Seq::<Button>::empty()
    &&& s.flash@ == bytes
    &&& !s.halted
    &&& !s.stop_sent
    &&& s.chord_first == chord_first
    &&& s.chord_second == chord_second
    &&& s.unblock_limit == unblock_limit
}

impl System {
    /// Boot the core from the persistent store: seed the enabled gear from
    /// the stored record (Park when the store is erased or corrupt), with the
    /// lock clear and every task idle.
    pub fn new(
        flash: FlashBlock,
        chord_first: Button,
        chord_second: Button,
        unblock_limit: u8,
    ) -> (s: System)
        requires
            flash.wf(),
            chord_first != Button::UNSET,
            chord_second != Button::UNSET,
            unblock_limit >= 1,
        ensures
            s.wf(),
            boot_state(flash@, chord_first, chord_second, unblock_limit, s),
    {
        let config: DbwConfig = DbwConfig::read(&flash);
        System {
            enabled: config.active_button,
            blocked: false,
            task_p: TaskState::Idle,
            task_r: TaskState::Idle,
            task_n: TaskState::Idle,
            task_d: TaskState::Idle,
            queue: Vec::new(),
            flash,
            halted: false,
            stop_sent: false,
            chord_first,
            chord_second,
            unblock_limit,
        }
    }

    /// The task field that belongs to `button`.
    fn task_for(&self, button: Button) -> (t: TaskState)
        ensures
            t == task_of(*self, button),
    {
        match button {
            Button::P => self.task_p,
            Button::R => self.task_r,
            Button::N => self.task_n,
            Button::D => self.task_d,
            Button::UNSET => TaskState::Idle,
        }
    }

    /// Replace the task field that belongs to `button`, leaving everything
    /// else untouched.
    fn set_task(&mut self, button: Button, t: TaskState)
        requires
            button != Button::UNSET,
        ensures
            task_of(*final(self), button) == t,
            tasks_except(*old(self), *final(self), button),
            final(self).enabled == old(self).enabled,
            final(self).blocked == old(self).blocked,
            final(self).queue@ == old(self).queue@,
            final(self).flash@ == old(self).flash@,
            final(self).halted == old(self).halted,
            final(self).stop_sent == old(self).stop_sent,
            same_config(*old(self), *final(self)),
    {
        match button {
            Button::P => self.task_p = t,
            Button::R => self.task_r = t,
            Button::N => self.task_n = t,
            Button::D => self.task_d = t,
            Button::UNSET => (),
        }
    }

    /// Which gear the store currently holds, with valet mode: what the boot
    /// sequence reads to decide biometric gating.
    pub fn stored_config(&self) -> (config: DbwConfig)
        requires
            self.wf(),
        ensures
            config == spec_read(self.flash@),
            config.active_button != Button::UNSET,
    {
        DbwConfig::read(&self.flash)
    }
}

/// Whether the boot sequence must gate button-task enablement behind a
/// successful biometric verification: valet mode suppresses the gating.
pub fn boot_authentication_required(sys: &System) -> (r: bool)
    requires
        sys.wf(),
    ensures
        r == !spec_read(sys.flash@).valet_mode,
{
    let config: DbwConfig = DbwConfig::read(&sys.flash);
    !config.valet_mode
}

/// The LED commands that display `button` as the selected gear: its own LED
/// on, the other three off. Used when a request is emitted and when the boot
/// sequence restores the stored gear.
pub fn select_led_commands(button: Button) -> (acts: Vec<Action>)
    ensures
        acts@ == select_acts(button),
{
    let mut acts: Vec<Action> = Vec::new();
    acts.push(
        Action::Led {
            button: Button::P,
            status: if button == Button::P {
                LedStatus::On
            } else {
                LedStatus::Off
            },
        },
    );
    acts.push(
        Action::Led {
            button: Button::R,
            status: if button == Button::R {
                LedStatus::On
            } else {
                LedStatus::Off
            },
        },
    );
    acts.push(
        Action::Led {
            button: Button::N,
            status: if button == Button::N {
                LedStatus::On
            } else {
                LedStatus::Off
            },
        },
    );
    acts.push(
        Action::Led {
            button: Button::D,
            status: if button == Button::D {
                LedStatus::On
            } else {
                LedStatus::Off
            },
        },
    );
    proof {
        assert(acts@ =~= select_acts(button));
    }
    acts
}

/// Signed distance, in nominal position steps, from gear `from` to gear `to`:
/// what the controller commands the actuator to travel.
pub fn gear_travel(from: Button, to: Button) -> (d: i8)
    requires
        from != Button::UNSET,
        to != Button::UNSET,
    ensures
        d == spec_button_index(to) - spec_button_index(from),
{
    let f: u8 = button_index(from);
    let t: u8 = button_index(to);
    (t as i8) - (f as i8)
}

/// One step of the button task owning `button`, woken by `ev`: the code
/// between two suspension points. Returns the LED, telemetry and indicator
/// commands the task issues during the step.
#[verifier::rlimit(30)]
pub fn read_button(sys: &mut System, button: Button, ev: ButtonEvent) -> (acts: Vec<Action>)
    requires
        old(sys).wf(),
        button != Button::UNSET,
    ensures
        final(sys).wf(),
        button_step(*old(sys), *final(sys), button, ev),
        acts@ == button_acts(*old(sys), button, ev),
{
    let mut acts: Vec<Action> = Vec::new();
    if sys.halted {
        return acts;
    }
    let t: TaskState = sys.task_for(button);
    match (t, ev) {
        (TaskState::Idle, ButtonEvent::Pressed) => {
            if !sys.blocked {
                sys.blocked = true;
                sys.set_task(button, TaskState::Holding);
            } else if sys.enabled == sys.chord_first && button == sys.chord_second {
                acts.push(Action::Led { button: sys.chord_first, status: LedStatus::On });
                acts.push(Action::Led { button: sys.chord_second, status: LedStatus::On });
                sys.set_task(button, TaskState::ValetVerify);
                proof {
                    assert(acts@ =~= chord_on_acts(*old(sys)));
                }
            } else {
                sys.set_task(button, TaskState::WaitUnblock { retries: 0 });
            }
        },
        (TaskState::Holding, ButtonEvent::Released) => {
            if button == sys.enabled {
                acts.push(Action::Led { button, status: LedStatus::Off });
                acts.push(Action::Led { button, status: LedStatus::On });
                acts.push(Action::Led { button, status: LedStatus::Off });
                acts.push(Action::Led { button, status: LedStatus::On });
                acts.push(Action::Led { button, status: LedStatus::Off });
                acts.push(Action::Led { button, status: LedStatus::On });
                sys.blocked = false;
                sys.set_task(button, TaskState::Idle);
                proof {
                    assert(acts@ =~= blink_acts(button));
                }
            } else {
                let mut select: Vec<Action> = select_led_commands(button);
                acts.append(&mut select);
                sys.queue.push(button);
                sys.set_task(button, TaskState::Idle);
                proof {
                    assert(acts@ =~= select_acts(button));
                }
            }
        },
        (TaskState::Holding, ButtonEvent::DeadlineElapsed) => {
            sys.set_task(button, TaskState::Cooldown);
        },
        (TaskState::Cooldown, ButtonEvent::Tick) => {
            sys.set_task(button, TaskState::AwaitRelease);
        },
        (TaskState::AwaitRelease, ButtonEvent::Released) => {
            sys.set_task(button, TaskState::Idle);
        },
        (TaskState::WaitUnblock { retries }, ButtonEvent::Tick) => {
            if !sys.blocked {
                sys.set_task(button, TaskState::Idle);
            } else if retries >= sys.unblock_limit - 1 {
                sys.blocked = false;
                sys.set_task(button, TaskState::Idle);
            } else {
                sys.set_task(button, TaskState::WaitUnblock { retries: retries + 1 });
            }
        },
        (TaskState::ValetVerify, ButtonEvent::Verified { ok }) => {
            if ok {
                let config: DbwConfig = DbwConfig::read(&sys.flash);
                let toggled: DbwConfig = DbwConfig {
                    active_button: config.active_button,
                    valet_mode: !config.valet_mode,
                };
                acts.push(
                    Action::Can {
                        message: if config.valet_mode {
                            CANMessage::DisableValetMode
                        } else {
                            CANMessage::EnableValetMode
                        },
                    },
                );
                acts.push(Action::Led { button: sys.chord_first, status: LedStatus::Off });
                acts.push(Action::Led { button: sys.chord_second, status: LedStatus::Off });
                write_flash(&mut sys.flash, toggled);
                sys.blocked = false;
                sys.set_task(button, TaskState::Idle);
                proof {
                    assert(acts@ =~= button_acts(*old(sys), button, ev));
                }
            } else {
                acts.push(Action::Led { button: sys.chord_first, status: LedStatus::Off });
                acts.push(Action::Led { button: sys.chord_second, status: LedStatus::Off });
                acts.push(Action::ClearIndicator);
                sys.set_task(button, TaskState::Idle);
                proof {
                    assert(acts@ =~= button_acts(*old(sys), button, ev));
                }
            }
        },
        _ => (),
    }
    acts
}

/// One step of the actuator controller: drain the head gear request, if any.
/// The returned motion is what the controller drives the actuator through; on
/// completion the enabled gear is updated, the store is rewritten with the
/// new gear (valet mode preserved), and only then is the lock released.
pub fn actuator_control(sys: &mut System) -> (moved: Option<ActuatorMove>)
    requires
        old(sys).wf(),
    ensures
        final(sys).wf(),
        controller_step(*old(sys), *final(sys)),
        moved == controller_result(*old(sys)),
{
    if sys.halted || sys.queue.len() == 0 {
        return None;
    }
    let gear: Button = sys.queue.remove(0);
    let travel: i8 = gear_travel(sys.enabled, gear);
    sys.enabled = gear;
    let config: DbwConfig = DbwConfig::read(&sys.flash);
    let updated: DbwConfig = DbwConfig { active_button: gear, valet_mode: config.valet_mode };
    write_flash(&mut sys.flash, updated);
    sys.blocked = false;
    Some(ActuatorMove { gear, travel })
}

/// Report the actuator self-test outcome to the core. A pass announces the
/// actuator on the telemetry channel; a failure announces the fault, sends
/// the watchdog-stop signal and halts the core for good: continuing to drive
/// the actuator would be unsafe, so the system waits for the hardware reset.
pub fn self_test(sys: &mut System, passed: bool) -> (acts: Vec<Action>)
    requires
        old(sys).wf(),
    ensures
        final(sys).wf(),
        self_test_step(*old(sys), *final(sys), passed),
        acts@ == self_test_acts(*old(sys), passed),
{
    let mut acts: Vec<Action> = Vec::new();
    if sys.halted {
        return acts;
    }
    if passed {
        acts.push(Action::Can { message: CANMessage::ActuatorInitialized });
        proof {
            assert(acts@ =~= self_test_acts(*old(sys), passed));
        }
    } else {
        acts.push(Action::Can { message: CANMessage::ActuatorTestFailed });
        acts.push(Action::SendStopWatchdog);
        sys.halted = true;
        sys.stop_sent = true;
        proof {
            assert(acts@ =~= self_test_acts(*old(sys), passed));
        }
    }
    acts
}

} // verus!
