//! The shell visibility state machine and its single-consumer actor.
//!
//! `ShellState` is owned by exactly one consumer, which applies messages
//! one at a time, each fully before the next, in the order in which they
//! were enqueued.  Every transition is a pure function of the state and
//! the message, so the order of application alone determines the final
//! state, regardless of which producer submitted which message.
//!
//! The launcher has a debounced teardown: hiding it clears the reveal
//! flag for observers at once but defers the physical unmap.  The actor
//! only asks for the unmap when the delayed `HideLauncher` message fires
//! while the hide is still wanted; a re-open that arrives before then
//! cancels it.

use vstd::prelude::*;

use crate::command::{Component, Message};

verus! {

/// The visibility flags of the shell, plus the internal marker of a
/// launcher hide whose physical teardown is still pending.
///
/// The launcher is in one of three conceptual states:
/// Shown (`launcher_reveal`), Hiding (`launcher_pending_hide`), or
/// Hidden (neither).  A well-formed state never has both flags set.
#[derive(Clone, Copy, PartialEq, Eq, Structural, Debug)]
pub struct ShellState {
    pub top_reveal: bool,
    pub right_reveal: bool,
    pub launcher_reveal: bool,
    pub launcher_pending_hide: bool,
}

/// A side effect the actor asks its collaborator (the UI layer) to
/// perform after a transition.  Flag changes themselves need no effect:
/// observers read them through the bridge.
#[derive(Clone, Copy, PartialEq, Eq, Structural, Debug)]
pub enum Effect {
    /// Map the launcher overlay surface: it was fully torn down.
    MapLauncherSurface,
    /// Re-enqueue `Message::HideLauncher` through the same ordered
    /// queue after the fixed debounce delay.
    ScheduleHideLauncher,
    /// Unmap the launcher overlay surface: the debounced hide fired
    /// and no re-open arrived in between.
    UnmapLauncherSurface,
}

/// The debounce delay between a launcher hide and its physical
/// teardown, in milliseconds.
pub const HIDE_LAUNCHER_DELAY_MS: u64 = 200;

impl ShellState {
    /// The state at process start: everything hidden.
    pub open spec fn init() -> ShellState {
        ShellState {
            top_reveal: false,
            right_reveal: false,
            launcher_reveal: false,
            launcher_pending_hide: false,
        }
    }

    /// A state is well-formed when the launcher is not both shown and
    /// waiting for its deferred teardown.
    pub open spec fn wf(self) -> bool {
        !(self.launcher_reveal && self.launcher_pending_hide)
    }

    /// Whether the launcher surface is physically mapped: it is while
    /// the launcher is shown, and still while a hide's teardown is
    /// deferred.
    pub open spec fn launcher_mapped(self) -> bool {
        self.launcher_reveal || self.launcher_pending_hide
    }

    /// The reveal flag of one component.
    pub open spec fn reveal_of(self, c: Component) -> bool {
        match c {
            Component::Top => self.top_reveal,
            Component::Right => self.right_reveal,
            Component::Launcher => self.launcher_reveal,
        }
    }
}

/// The state after showing the launcher: shown, and any pending
/// deferred teardown is cancelled.
pub open spec fn show_launcher(s: ShellState) -> ShellState {
    ShellState { launcher_reveal: true, launcher_pending_hide: false, ..s }
}

/// The state after requesting a launcher hide: the flag is cleared for
/// observers at once, the physical teardown is deferred.
pub open spec fn hide_launcher(s: ShellState) -> ShellState {
    ShellState { launcher_reveal: false, launcher_pending_hide: true, ..s }
}

/// The transition function of the visibility state machine.
pub open spec fn step(s: ShellState, m: Message) -> ShellState {
    match m {
        Message::Toggle { component } => match component {
            Component::Top => ShellState { top_reveal: !s.top_reveal, ..s },
            Component::Right => ShellState { right_reveal: !s.right_reveal, ..s },
            Component::Launcher => if s.launcher_reveal {
                hide_launcher(s)
            } else {
                show_launcher(s)
            },
        },
        Message::On { component } => match component {
            Component::Top => ShellState { top_reveal: true, ..s },
            Component::Right => ShellState { right_reveal: true, ..s },
            Component::Launcher => show_launcher(s),
        },
        Message::Off { component } => match component {
            Component::Top => ShellState { top_reveal: false, ..s },
            Component::Right => ShellState { right_reveal: false, ..s },
            Component::Launcher => hide_launcher(s),
        },
        Message::HideLauncher => if s.launcher_pending_hide {
            ShellState { launcher_pending_hide: false, ..s }
        } else {
            s
        },
    }
}

/// The effects a transition asks of the collaborator.  The guard of the
/// deferred hide is decided here, at fire time: `HideLauncher` unmaps
/// the surface only while the hide is still pending.
pub open spec fn step_effects(s: ShellState, m: Message) -> Seq<Effect> {
    match m {
        Message::Toggle { component } => match component {
            Component::Top => Seq::empty(),
            Component::Right => Seq::empty(),
            Component::Launcher => if s.launcher_reveal {
                seq![Effect::ScheduleHideLauncher]
            } else if !s.launcher_mapped() {
                seq![Effect::MapLauncherSurface]
            } else {
                Seq::empty()
            },
        },
        Message::On { component } => match component {
            Component::Top => Seq::empty(),
            Component::Right => Seq::empty(),
            Component::Launcher => if !s.launcher_mapped() {
                seq![Effect::MapLauncherSurface]
            } else {
                Seq::empty()
            },
        },
        Message::Off { component } => match component {
            Component::Top => Seq::empty(),
            Component::Right => Seq::empty(),
            Component::Launcher => seq![Effect::ScheduleHideLauncher],
        },
        Message::HideLauncher => if s.launcher_pending_hide {
            seq![Effect::UnmapLauncherSurface]
        } else {
            Seq::empty()
        },
    }
}

/// The state after applying a whole queue of messages in order,
/// each fully before the next.
pub open spec fn apply_seq(s: ShellState, q: Seq<Message>) -> ShellState
    decreases q.len(),
{
    if q.len() == 0 {
        s
    } else {
        apply_seq(step(s, q[0]), q.drop_first())
    }
}

/// The effects of applying a whole queue of messages in order.
pub open spec fn apply_seq_effects(s: ShellState, q: Seq<Message>) -> Seq<Effect>
    decreases q.len(),
{
    if q.len() == 0 {
        Seq::empty()
    } else {
        step_effects(s, q[0]) + apply_seq_effects(step(s, q[0]), q.drop_first())
    }
}

impl ShellState {
    /// The state at process start: everything hidden.
    pub fn new() -> (s: ShellState)
        ensures
            s == ShellState::init(),
    {
        ShellState {
            top_reveal: false,
            right_reveal: false,
            launcher_reveal: false,
            launcher_pending_hide: false,
        }
    }

    /// Shows the launcher, cancelling any pending deferred teardown.
    /// Asks for the surface to be mapped only where it was fully torn
    /// down.
    pub fn enable_launcher(&mut self) -> (effects: Vec<Effect>)
        ensures
            *final(self) == show_launcher(*old(self)),
            effects@ == if old(self).launcher_mapped() {
                Seq::<Effect>::empty()
            } else {
                seq![Effect::MapLauncherSurface]
            },
    {
        let mut effects: Vec<Effect> = Vec::new();
        if !self.launcher_reveal && !self.launcher_pending_hide {
            effects.push(Effect::MapLauncherSurface);
        }
        self.launcher_reveal = true;
        self.launcher_pending_hide = false;
        proof {
            if old(self).launcher_mapped() {
                assert(effects@ =~= Seq::<Effect>::empty());
            } else {
                assert(effects@ =~= seq![Effect::MapLauncherSurface]);
            }
        }
        effects
    }

    /// Requests a launcher hide: the flag drops for observers at once,
    /// and the physical teardown is left to the delayed `HideLauncher`
    /// message whose scheduling is asked for.
    pub fn disable_launcher(&mut self) -> (effects: Vec<Effect>)
        ensures
            *final(self) == hide_launcher(*old(self)),
            effects@ == seq![Effect::ScheduleHideLauncher],
    {
        let mut effects: Vec<Effect> = Vec::new();
        self.launcher_reveal = false;
        self.launcher_pending_hide = true;
        effects.push(Effect::ScheduleHideLauncher);
        proof {
            assert(effects@ =~= seq![Effect::ScheduleHideLauncher]);
        }
        effects
    }

    /// Applies one message fully, and returns the effects the
    /// collaborator must perform, in order, before the next message is
    /// dequeued.
    pub fn handle_message(&mut self, msg: Message) -> (effects: Vec<Effect>)
        ensures
            *final(self) == step(*old(self), msg),
            effects@ == step_effects(*old(self), msg),
    {
        let mut effects: Vec<Effect> = Vec::new();
        match msg {
            Message::Toggle { component } => match component {
                Component::Top => {
                    self.top_reveal = !self.top_reveal;
                },
                Component::Right => {
                    self.right_reveal = !self.right_reveal;
                },
                Component::Launcher => {
                    if self.launcher_reveal {
                        effects = self.disable_launcher();
                    } else {
                        effects = self.enable_launcher();
                    }
                },
            },
            Message::On { component } => match component {
                Component::Top => {
                    self.top_reveal = true;
                },
                Component::Right => {
                    self.right_reveal = true;
                },
                Component::Launcher => {
                    effects = self.enable_launcher();
                },
            },
            Message::Off { component } => match component {
                Component::Top => {
                    self.top_reveal = false;
                },
                Component::Right => {
                    self.right_reveal = false;
                },
                Component::Launcher => {
                    effects = self.disable_launcher();
                },
            },
            Message::HideLauncher => {
                if self.launcher_pending_hide {
                    self.launcher_pending_hide = false;
                    effects.push(Effect::UnmapLauncherSurface);
                }
            },
        }
        proof {
            assert(effects@ =~= step_effects(*old(self), msg));
        }
        effects
    }

    /// The top bar's reveal flag, as the observer bridge exposes it.
    pub fn top_reveal(&self) -> (r: bool)
        ensures
            r == self.top_reveal,
    {
        self.top_reveal
    }

    /// The side panel's reveal flag, as the observer bridge exposes it.
    pub fn right_reveal(&self) -> (r: bool)
        ensures
            r == self.right_reveal,
    {
        self.right_reveal
    }

    /// The launcher's reveal flag, as the observer bridge exposes it.
    /// It is already false while a hide's teardown is still deferred.
    pub fn launcher_reveal(&self) -> (r: bool)
        ensures
            r == self.launcher_reveal,
    {
        self.launcher_reveal
    }
}

/// Applies a queue of messages in order and returns all effects, in
/// order.  This is the whole work of the consumer: the final state
/// depends only on the order of the queue, never on who enqueued what.
pub fn apply_all(s: &mut ShellState, msgs: &Vec<Message>) -> (effects: Vec<Effect>)
    ensures
        *final(s) == apply_seq(*old(s), msgs@),
        effects@ == apply_seq_effects(*old(s), msgs@),
{
    let mut effects: Vec<Effect> = Vec::new();
    let mut i: usize = 0;
    proof {
        assert(msgs@.skip(0) =~= msgs@);
        assert(effects@ + apply_seq_effects(*s, msgs@) =~= apply_seq_effects(*s, msgs@));
    }
    while i < msgs.len()
        invariant
            i <= msgs@.len(),
            apply_seq(*old(s), msgs@) == apply_seq(*s, msgs@.skip(i as int)),
            apply_seq_effects(*old(s), msgs@) == effects@ + apply_seq_effects(
                *s,
                msgs@.skip(i as int),
            ),
        decreases msgs@.len() - i,
    {
        proof {
            assert(msgs@.skip(i as int)[0] == msgs@[i as int]);
            assert(msgs@.skip(i as int).drop_first() =~= msgs@.skip(i as int + 1));
        }
        let step_effects = s.handle_message(msgs[i]);
        let mut j: usize = 0;
        let ghost effects_before = effects@;
        while j < step_effects.len()
            invariant
                j <= step_effects@.len(),
                effects@ == effects_before + step_effects@.take(j as int),
            decreases step_effects@.len() - j,
        {
            proof {
                assert(step_effects@.take(j as int + 1) =~= step_effects@.take(j as int).push(
                    step_effects@[j as int],
                ));
            }
            effects.push(step_effects[j]);
            j += 1;
        }
        proof {
            assert(step_effects@.take(step_effects@.len() as int) =~= step_effects@);
            assert((effects_before + step_effects@) + apply_seq_effects(
                *s,
                msgs@.skip(i as int + 1),
            ) =~= effects_before + (step_effects@ + apply_seq_effects(
                *s,
                msgs@.skip(i as int + 1),
            )));
        }
        i += 1;
    }
    proof {
        assert(msgs@.skip(msgs@.len() as int) =~= Seq::<Message>::empty());
        assert(effects@ + Seq::<Effect>::empty() =~= effects@);
    }
    effects
}

/// Every transition preserves well-formedness: the launcher is never
/// both shown and waiting for its deferred teardown.
pub proof fn lemma_step_preserves_wf(s: ShellState, m: Message)
    requires
        s.wf(),
    ensures
        step(s, m).wf(),
{
}

/// Toggling a component twice in a row restores the original value of
/// its reveal flag.
pub proof fn lemma_toggle_self_inverse(s: ShellState, c: Component)
    ensures
        step(step(s, Message::Toggle { component: c }), Message::Toggle { component: c }).reveal_of(
            c,
        ) == s.reveal_of(c),
{
}

/// Applying `On` twice leaves the state identical to applying it once.
pub proof fn lemma_on_idempotent(s: ShellState, c: Component)
    ensures
        step(step(s, Message::On { component: c }), Message::On { component: c }) == step(
            s,
            Message::On { component: c },
        ),
{
}

/// Applying `Off` twice leaves the state identical to applying it
/// once.
pub proof fn lemma_off_idempotent(s: ShellState, c: Component)
    ensures
        step(step(s, Message::Off { component: c }), Message::Off { component: c }) == step(
            s,
            Message::Off { component: c },
        ),
{
}

/// Global ordering: draining a queue that was fed by any number of
/// producers equals applying its messages sequentially, one at a time,
/// in enqueue order.  Splitting the queue anywhere changes nothing.
pub proof fn lemma_apply_seq_concat(s: ShellState, q1: Seq<Message>, q2: Seq<Message>)
    ensures
        apply_seq(s, q1 + q2) == apply_seq(apply_seq(s, q1), q2),
    decreases q1.len(),
{
    if q1.len() == 0 {
        assert(q1 + q2 =~= q2);
    } else {
        assert((q1 + q2)[0] == q1[0]);
        assert((q1 + q2).drop_first() =~= q1.drop_first() + q2);
        lemma_apply_seq_concat(step(s, q1[0]), q1.drop_first(), q2);
    }
}

/// Two messages enqueued in that order, by whichever producers, are
/// observed as their sequential application.
pub proof fn lemma_two_messages_in_order(s: ShellState, m1: Message, m2: Message)
    ensures
        apply_seq(s, seq![m1, m2]) == step(step(s, m1), m2),
{
    let q = seq![m1, m2];
    assert(q[0] == m1);
    assert(q.drop_first() =~= seq![m2]);
    assert(apply_seq(s, q) == apply_seq(step(s, m1), seq![m2]));
    assert(seq![m2][0] == m2);
    assert(seq![m2].drop_first() =~= Seq::<Message>::empty());
    assert(apply_seq(step(s, m1), seq![m2]) == apply_seq(
        step(step(s, m1), m2),
        Seq::<Message>::empty(),
    ));
    assert(apply_seq(step(step(s, m1), m2), Seq::<Message>::empty()) == step(step(s, m1), m2));
}

/// The launcher race: a hide immediately re-opened before the debounce
/// delay elapses.  When the stale `HideLauncher` then fires, the
/// launcher stays revealed, the fire is a no-op, and no transition of
/// the run tears the surface down.
pub proof fn lemma_reopen_wins_over_stale_hide(s: ShellState)
    requires
        s.launcher_reveal,
    ensures
        ({
            let off = Message::Off { component: Component::Launcher };
            let reopen = Message::Toggle { component: Component::Launcher };
            let s1 = step(s, off);
            let s2 = step(s1, reopen);
            let s3 = step(s2, Message::HideLauncher);
            &&& s3.launcher_reveal
            &&& s3 == s2
            &&& step_effects(s2, Message::HideLauncher) =~= Seq::<Effect>::empty()
            &&& !step_effects(s, off).contains(Effect::UnmapLauncherSurface)
            &&& !step_effects(s1, reopen).contains(Effect::UnmapLauncherSurface)
        }),
{
    let off = Message::Off { component: Component::Launcher };
    let reopen = Message::Toggle { component: Component::Launcher };
    let s1 = step(s, off);
    assert(step_effects(s, off) =~= seq![Effect::ScheduleHideLauncher]);
    assert(step_effects(s1, reopen) =~= Seq::<Effect>::empty());
}

} // verus!
