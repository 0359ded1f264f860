//! The player's animation state machine.
//!
//! Every frame a motion sample decides which animation is wanted; the wanted
//! animation is requested, and a requested animation that plays another clip
//! becomes current through a blended transition. Some animations are locked:
//! they cannot be interrupted, and a few of them chain into a follow-up once
//! their clip is nearly done.
//!
//! The speed carried by the moving animations is opaque to this module: it is
//! handed through unchanged to scale the playback of the clip.
use crate::app_plan::{AppPlan, Registration, RunCondition, Schedule, SystemId};
use crate::screens::Screen;
use vstd::prelude::*;

verus! {

/// Number of animation clips; `clip_index` is always below it.
pub const CLIP_COUNT: usize = 9;

/// What the player's model is doing. The order of the variants is the order of
/// the clips in the animation graph.
#[derive(Clone, Copy, Debug)]
pub enum AnimationState<S> {
    StandIdle,
    Run(S),
    Sprint(S),
    Jump,
    JumpLoop,
    Land,
    Crouch(S),
    CrouchIdle,
    Dash,
}

impl<S> AnimationState<S> {
    /// Index of the clip that plays this state.
    pub open spec fn clip(self) -> nat {
        match self {
            AnimationState::StandIdle => 0,
            AnimationState::Run(_) => 1,
            AnimationState::Sprint(_) => 2,
            AnimationState::Jump => 3,
            AnimationState::JumpLoop => 4,
            AnimationState::Land => 5,
            AnimationState::Crouch(_) => 6,
            AnimationState::CrouchIdle => 7,
            AnimationState::Dash => 8,
        }
    }

    /// States that must not be interrupted by a request.
    pub open spec fn locked(self) -> bool {
        self is Jump || self is Land || self is Dash
    }

    pub open spec fn jumping(self) -> bool {
        self is Jump || self is JumpLoop
    }

    pub fn clip_index(&self) -> (index: usize)
        ensures
            index == self.clip(),
            index < CLIP_COUNT,
    {
        match self {
            AnimationState::StandIdle => 0,
            AnimationState::Run(_) => 1,
            AnimationState::Sprint(_) => 2,
            AnimationState::Jump => 3,
            AnimationState::JumpLoop => 4,
            AnimationState::Land => 5,
            AnimationState::Crouch(_) => 6,
            AnimationState::CrouchIdle => 7,
            AnimationState::Dash => 8,
        }
    }

    /// Animations that should not be interrupted by other animations.
    pub fn is_locked(&self) -> (locked: bool)
        ensures
            locked == self.locked(),
            locked <==> (*self is Jump || *self is Land || *self is Dash),
    {
        match self {
            AnimationState::Jump | AnimationState::Land | AnimationState::Dash => true,
            _ => false,
        }
    }

    pub fn is_jumping(&self) -> (jumping: bool)
        ensures
            jumping == self.jumping(),
    {
        match self {
            AnimationState::Jump | AnimationState::JumpLoop => true,
            _ => false,
        }
    }

    pub fn is_running(&self) -> (running: bool)
        ensures
            running == (*self is Run),
    {
        match self {
            AnimationState::Run(_) => true,
            _ => false,
        }
    }

    pub fn is_falling(&self) -> (falling: bool)
        ensures
            falling == (*self is JumpLoop),
    {
        match self {
            AnimationState::JumpLoop => true,
            _ => false,
        }
    }
}

/// The animation that plays and the one waiting to be blended in.
#[derive(Clone, Copy, Debug)]
pub struct Animations<S> {
    pub current: AnimationState<S>,
    pub requested: Option<AnimationState<S>>,
}

/// What a request does to the animations: nothing while the current state is
/// locked, a new pending animation when it plays another clip, and otherwise
/// an in-place update of the current state (a new speed on the same clip).
pub open spec fn after_request<S>(a: Animations<S>, state: AnimationState<S>) -> Animations<S> {
    if a.current.locked() {
        a
    } else if a.current.clip() != state.clip() {
        Animations { current: a.current, requested: Some(state) }
    } else {
        Animations { current: state, requested: a.requested }
    }
}

/// What the character controller and the model's movement say about one frame.
/// The comparisons of speeds against thresholds are made by the caller.
#[derive(Clone, Copy, Debug)]
pub struct MotionSample<S> {
    /// The controller is mantling a ledge.
    pub mantling: bool,
    /// The controller stands on ground.
    pub grounded: bool,
    /// The vertical speed is above the rising threshold.
    pub rising: bool,
    /// The horizontal speed is above the idle-to-run threshold.
    pub moving: bool,
    /// The controller is crouching.
    pub crouching: bool,
    /// The controller's speed is above its walking speed.
    pub sprinting: bool,
    /// The horizontal speed, carried into the moving animations.
    pub speed: S,
}

/// The animation wanted for a motion sample, given the current animation;
/// `None` while airborne in a jumping animation (nothing is requested then).
pub open spec fn desired_state<S>(current: AnimationState<S>, m: MotionSample<S>) -> Option<
    AnimationState<S>,
> {
    if m.mantling {
        Some(AnimationState::Dash)
    } else if !m.grounded {
        if current.jumping() {
            None
        } else if m.rising {
            Some(AnimationState::Jump)
        } else {
            Some(AnimationState::JumpLoop)
        }
    } else if current.jumping() {
        if m.moving {
            Some(AnimationState::Run(m.speed))
        } else {
            Some(AnimationState::Land)
        }
    } else if m.crouching {
        if m.moving {
            Some(AnimationState::Crouch(m.speed))
        } else {
            Some(AnimationState::CrouchIdle)
        }
    } else if m.sprinting {
        Some(AnimationState::Sprint(m.speed))
    } else if m.moving {
        Some(AnimationState::Run(m.speed))
    } else {
        Some(AnimationState::StandIdle)
    }
}

/// How long the blend into the next animation takes.
#[derive(Clone, Copy, Debug, PartialEq, Eq, Structural)]
pub enum TransitionKind {
    /// The short blend used for jumps, so that they feel snappy.
    Jump,
    /// The regular blend.
    Regular,
}

/// The playback speed left on the clip that is blended out.
#[derive(Clone, Copy, Debug)]
pub enum Playback<S> {
    /// The clip's speed follows the movement speed, damped.
    Scaled(S),
    /// The clip plays at its normal speed.
    Normal,
}

/// A transition from the current animation to the requested one.
#[derive(Clone, Copy, Debug)]
pub struct Transition<S> {
    /// Clip of the animation that starts (and repeats).
    pub next_clip: usize,
    pub kind: TransitionKind,
    /// Clip of the animation that is blended out.
    pub previous_clip: usize,
    pub previous_playback: Playback<S>,
}

pub open spec fn playback_of<S>(state: AnimationState<S>) -> Playback<S> {
    match state {
        AnimationState::Run(s) => Playback::Scaled(s),
        AnimationState::Sprint(s) => Playback::Scaled(s),
        AnimationState::Crouch(s) => Playback::Scaled(s),
        _ => Playback::Normal,
    }
}

/// The animation that a locked animation hands over to once its clip is nearly
/// done.
pub open spec fn chained_state<S>(state: AnimationState<S>) -> Option<AnimationState<S>> {
    match state {
        AnimationState::Jump => Some(AnimationState::JumpLoop),
        AnimationState::Land => Some(AnimationState::StandIdle),
        _ => None,
    }
}

impl<S> Default for Animations<S> {
    /// Standing idle, nothing requested.
    fn default() -> (a: Self)
        ensures
            a.current is StandIdle,
            a.requested is None,
    {
        Animations { current: AnimationState::StandIdle, requested: None }
    }
}

impl<S> Animations<S> {
    /// Requests an animation; see `after_request`.
    pub fn request(&mut self, state: AnimationState<S>)
        ensures
            *final(self) == after_request(*old(self), state),
            (old(self).current is Jump || old(self).current is Land || old(self).current is Dash)
                ==> *final(self) == *old(self),
            !(old(self).current is Jump || old(self).current is Land || old(self).current is Dash)
                && !same_kind(old(self).current, state) ==> final(self).current == old(self).current
                && final(self).requested == Some(state),
    {
        if self.current.is_locked() {
            return;
        }
        if self.current.clip_index() != state.clip_index() {
            self.requested = Some(state);
        } else {
            self.current = state;
        }
    }

    pub fn idle(&mut self)
        ensures
            *final(self) == after_request(*old(self), AnimationState::StandIdle),
    {
        self.request(AnimationState::StandIdle);
    }

    pub fn run(&mut self, speed: S)
        ensures
            *final(self) == after_request(*old(self), AnimationState::Run(speed)),
    {
        self.request(AnimationState::Run(speed));
    }

    pub fn sprint(&mut self, speed: S)
        ensures
            *final(self) == after_request(*old(self), AnimationState::Sprint(speed)),
    {
        self.request(AnimationState::Sprint(speed));
    }

    pub fn crouch(&mut self, speed: S)
        ensures
            *final(self) == after_request(*old(self), AnimationState::Crouch(speed)),
    {
        self.request(AnimationState::Crouch(speed));
    }

    pub fn crouch_idle(&mut self)
        ensures
            *final(self) == after_request(*old(self), AnimationState::CrouchIdle),
    {
        self.request(AnimationState::CrouchIdle);
    }

    pub fn dash(&mut self)
        ensures
            *final(self) == after_request(*old(self), AnimationState::Dash),
    {
        self.request(AnimationState::Dash);
    }

    pub fn fall(&mut self)
        ensures
            *final(self) == after_request(*old(self), AnimationState::JumpLoop),
    {
        self.request(AnimationState::JumpLoop);
    }

    pub fn start_jump(&mut self)
        ensures
            *final(self) == after_request(*old(self), AnimationState::Jump),
    {
        self.request(AnimationState::Jump);
    }

    pub fn end_jump(&mut self)
        ensures
            *final(self) == after_request(*old(self), AnimationState::Land),
    {
        self.request(AnimationState::Land);
    }

    pub fn is_jumping(&self) -> (jumping: bool)
        ensures
            jumping == self.current.jumping(),
    {
        self.current.is_jumping()
    }

    pub fn is_falling(&self) -> (falling: bool)
        ensures
            falling == (self.current is JumpLoop),
    {
        self.current.is_falling()
    }
}

/// Decides the animation for one motion sample and requests it.
pub fn calcucate_animations<S>(animations: &mut Animations<S>, sample: MotionSample<S>)
    ensures
        *final(animations) == match desired_state(old(animations).current, sample) {
            Some(state) => after_request(*old(animations), state),
            None => *old(animations),
        },
        !sample.mantling && sample.grounded && !old(animations).current.jumping() && sample.crouching
            ==> *final(animations) == after_request(
            *old(animations),
            if sample.moving {
                AnimationState::Crouch(sample.speed)
            } else {
                AnimationState::CrouchIdle
            },
        ),
{
    // mantling
    if sample.mantling {
        animations.request(AnimationState::Dash);
        return;
    }
    // in the air
    if !sample.grounded {
        if !animations.current.is_jumping() {
            if sample.rising {
                animations.request(AnimationState::Jump);
            } else {
                animations.request(AnimationState::JumpLoop);
            }
        }
        return;
    }
    // landed
    if animations.current.is_jumping() {
        if sample.moving {
            animations.request(AnimationState::Run(sample.speed));
        } else {
            animations.request(AnimationState::Land);
        }
        return;
    }
    if sample.crouching {
        if sample.moving {
            animations.request(AnimationState::Crouch(sample.speed));
        } else {
            animations.request(AnimationState::CrouchIdle);
        }
        return;
    }
    if sample.sprinting {
        animations.request(AnimationState::Sprint(sample.speed));
        return;
    }
    if sample.moving {
        animations.request(AnimationState::Run(sample.speed));
    } else {
        animations.request(AnimationState::StandIdle);
    }
}

impl<S: Copy> Animations<S> {
    /// Takes the requested animation, if any, and makes it current; returns the
    /// transition to play.
    pub fn begin_transition(&mut self) -> (transition: Option<Transition<S>>)
        ensures
            final(self).requested is None,
            match old(self).requested {
                None => transition is None && final(self).current == old(self).current,
                Some(next) => {
                    &&& final(self).current == next
                    &&& transition == Some(
                        Transition {
                            next_clip: next.clip() as usize,
                            kind: if next.jumping() {
                                TransitionKind::Jump
                            } else {
                                TransitionKind::Regular
                            },
                            previous_clip: old(self).current.clip() as usize,
                            previous_playback: playback_of(old(self).current),
                        },
                    )
                },
            },
    {
        let requested = self.requested.take();
        match requested {
            None => None,
            Some(next) => {
                let kind = if next.is_jumping() {
                    TransitionKind::Jump
                } else {
                    TransitionKind::Regular
                };
                let previous_playback = match self.current {
                    AnimationState::Run(s) => Playback::Scaled(s),
                    AnimationState::Sprint(s) => Playback::Scaled(s),
                    AnimationState::Crouch(s) => Playback::Scaled(s),
                    _ => Playback::Normal,
                };
                let t = Transition {
                    next_clip: next.clip_index(),
                    kind,
                    previous_clip: self.current.clip_index(),
                    previous_playback,
                };
                self.current = next;
                Some(t)
            },
        }
    }

    /// Once a locked animation's clip is nearly done (`nearly_done`), requests
    /// the animation it chains into.
    pub fn chain_locked(&mut self, nearly_done: bool)
        ensures
            final(self).current == old(self).current,
            final(self).requested == if old(self).current.locked() && nearly_done
                && chained_state(old(self).current) is Some {
                chained_state(old(self).current)
            } else {
                old(self).requested
            },
    {
        if self.current.is_locked() && nearly_done {
            let chained = match self.current {
                AnimationState::Jump => Some(AnimationState::JumpLoop),
                AnimationState::Land => Some(AnimationState::StandIdle),
                _ => None,
            };
            if chained.is_some() {
                self.requested = chained;
            }
        }
    }
}

/// Two states play the same kind of animation (their speeds may differ).
pub open spec fn same_kind<S>(a: AnimationState<S>, b: AnimationState<S>) -> bool {
    ||| a is StandIdle && b is StandIdle
    ||| a is Run && b is Run
    ||| a is Sprint && b is Sprint
    ||| a is Jump && b is Jump
    ||| a is JumpLoop && b is JumpLoop
    ||| a is Land && b is Land
    ||| a is Crouch && b is Crouch
    ||| a is CrouchIdle && b is CrouchIdle
    ||| a is Dash && b is Dash
}

/// Clip indices are below the number of clips and tell the kinds of
/// animation apart.
pub proof fn lemma_clip_index_identifies_kind<S>(a: AnimationState<S>, b: AnimationState<S>)
    ensures
        a.clip() < CLIP_COUNT,
        a.clip() == b.clip() <==> same_kind(a, b),
{
}

/// A locked animation ignores every request.
pub proof fn lemma_locked_ignores_requests<S>(a: Animations<S>, state: AnimationState<S>)
    requires
        a.current.locked(),
    ensures
        after_request(a, state) == a,
{
}

/// An unlocked animation takes a request for its own clip at once (a new
/// speed), and keeps a request for another clip pending until the next
/// transition, which makes it current and clears it.
pub proof fn lemma_request_then_transition<S>(a: Animations<S>, state: AnimationState<S>)
    requires
        !a.current.locked(),
    ensures
        same_kind(a.current, state) ==> after_request(a, state).current == state
            && after_request(a, state).requested == a.requested,
        !same_kind(a.current, state) ==> after_request(a, state).current == a.current
            && after_request(a, state).requested == Some(state),
{
}

/// Chains end: a chained animation follows a locked one and is itself not
/// locked. A dash chains into nothing, so once a dash is current no request
/// changes the animation again.
pub proof fn lemma_chains_end<S>(state: AnimationState<S>, a: Animations<S>, other: AnimationState<S>)
    ensures
        chained_state(state) matches Some(next) ==> state.locked() && !next.locked(),
        state is Jump ==> chained_state(state) == Some(AnimationState::<S>::JumpLoop),
        state is Land ==> chained_state(state) == Some(AnimationState::<S>::StandIdle),
        state is Dash ==> chained_state(state) is None,
        a.current is Dash ==> after_request(a, other) == a,
{
}

/// Exactly the jump, the landing and the dash are locked: every other state
/// can be interrupted, and from it a request for an animation that plays
/// another clip becomes the pending request while the current one plays on.
pub proof fn lemma_locked_states<S>(a: Animations<S>, state: AnimationState<S>)
    ensures
        a.current.locked() <==> (a.current is Jump || a.current is Land || a.current is Dash),
        (a.current is StandIdle || a.current is Run || a.current is Sprint || a.current is Crouch
            || a.current is CrouchIdle || a.current is JumpLoop) && !same_kind(a.current, state)
            ==> after_request(a, state) == (Animations { current: a.current, requested: Some(state) }),
{
}

/// On the ground, outside a mantle and a jump, crouching is decided before
/// sprinting: a crouching sample asks for the crouch animation when moving and
/// for crouch idle otherwise, whatever its sprinting flag.
pub proof fn lemma_crouch_before_sprint<S>(current: AnimationState<S>, m: MotionSample<S>)
    requires
        !m.mantling,
        m.grounded,
        !(current is Jump || current is JumpLoop),
        m.crouching,
    ensures
        m.moving ==> desired_state(current, m) == Some(AnimationState::Crouch(m.speed)),
        !m.moving ==> desired_state(current, m) == Some(AnimationState::<S>::CrouchIdle),
        desired_state(current, m) == desired_state(current, MotionSample { sprinting: !m.sprinting, ..m }),
{
}

/// On the ground, a jump ends in a run when moving and in a landing otherwise.
/// Outside a jump, a sample that does not crouch asks for the sprint when
/// sprinting, else for the run when moving, else for standing idle.
pub proof fn lemma_grounded_animations<S>(current: AnimationState<S>, m: MotionSample<S>)
    requires
        !m.mantling,
        m.grounded,
    ensures
        (current is Jump || current is JumpLoop) && m.moving ==> desired_state(current, m) == Some(
            AnimationState::Run(m.speed),
        ),
        (current is Jump || current is JumpLoop) && !m.moving ==> desired_state(current, m) == Some(
            AnimationState::<S>::Land,
        ),
        !(current is Jump || current is JumpLoop) && !m.crouching && m.sprinting ==> desired_state(
            current,
            m,
        ) == Some(AnimationState::Sprint(m.speed)),
        !(current is Jump || current is JumpLoop) && !m.crouching && !m.sprinting && m.moving
            ==> desired_state(current, m) == Some(AnimationState::Run(m.speed)),
        !(current is Jump || current is JumpLoop) && !m.crouching && !m.sprinting && !m.moving
            ==> desired_state(current, m) == Some(AnimationState::<S>::StandIdle),
{
}

/// Only the jump and the fall count as jumping, and only they get the short
/// blend; the clip blended out keeps the movement speed exactly when it is a
/// run, a sprint or a crouch.
pub proof fn lemma_jumping_and_playback<S>(state: AnimationState<S>)
    ensures
        state.jumping() <==> (state is Jump || state is JumpLoop),
        state matches AnimationState::Run(s) ==> playback_of(state) == Playback::Scaled(s),
        state matches AnimationState::Sprint(s) ==> playback_of(state) == Playback::Scaled(s),
        state matches AnimationState::Crouch(s) ==> playback_of(state) == Playback::Scaled(s),
        !(state is Run || state is Sprint || state is Crouch) ==> playback_of(state)
            == Playback::<S>::Normal,
{
}

/// Mantling always asks for the dash animation; leaving the ground starts a
/// jump when rising and a fall otherwise, unless already jumping.
pub proof fn lemma_airborne_animations<S>(current: AnimationState<S>, m: MotionSample<S>)
    ensures
        m.mantling ==> desired_state(current, m) == Some(AnimationState::<S>::Dash),
        !m.mantling && !m.grounded && !current.jumping() ==> desired_state(current, m) == if m.rising {
            Some(AnimationState::<S>::Jump)
        } else {
            Some(AnimationState::<S>::JumpLoop)
        },
        !m.mantling && !m.grounded && current.jumping() ==> desired_state(current, m) is None,
{
}

/// The registrations of this module's plugin, in order.
pub open spec fn plugin_steps() -> Seq<Registration> {
    seq![
        Registration::System { schedule: Schedule::Update, system: SystemId::CalcucateAnimations, condition: RunCondition::InScreen(Screen::Gameplay), set: None, after: None },
        Registration::System { schedule: Schedule::Update, system: SystemId::Animate, condition: RunCondition::InScreen(Screen::Gameplay), set: None, after: Some(SystemId::CalcucateAnimations) },
    ]
}

/// Decides and plays the player's animations during gameplay, in that order.
pub fn plugin(app: &mut AppPlan)
    ensures
        final(app)@ == old(app)@ + plugin_steps(),
{
    let ghost start = app@;
    app.add(Registration::System { schedule: Schedule::Update, system: SystemId::CalcucateAnimations, condition: RunCondition::InScreen(Screen::Gameplay), set: None, after: None });
    app.add(Registration::System { schedule: Schedule::Update, system: SystemId::Animate, condition: RunCondition::InScreen(Screen::Gameplay), set: None, after: Some(SystemId::CalcucateAnimations) });
    assert(app@ =~= start + plugin_steps());
}

} // verus!
