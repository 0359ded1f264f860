use third_person_core::player::animation::{
    calcucate_animations, AnimationState, Animations, MotionSample, Playback, TransitionKind,
    CLIP_COUNT,
};

fn sample(grounded: bool, rising: bool, moving: bool) -> MotionSample<f32> {
    MotionSample {
        mantling: false,
        grounded,
        rising,
        moving,
        crouching: false,
        sprinting: false,
        speed: 4.5,
    }
}

#[test]
fn clip_indices_follow_the_graph_order() {
    let states: [AnimationState<f32>; 9] = [
        AnimationState::StandIdle,
        AnimationState::Run(1.0),
        AnimationState::Sprint(1.0),
        AnimationState::Jump,
        AnimationState::JumpLoop,
        AnimationState::Land,
        AnimationState::Crouch(1.0),
        AnimationState::CrouchIdle,
        AnimationState::Dash,
    ];
    for (i, s) in states.iter().enumerate() {
        assert_eq!(s.clip_index(), i);
        assert!(s.clip_index() < CLIP_COUNT);
    }
    assert!(AnimationState::<f32>::Jump.is_locked());
    assert!(AnimationState::<f32>::Land.is_locked());
    assert!(AnimationState::<f32>::Dash.is_locked());
    assert!(!AnimationState::<f32>::JumpLoop.is_locked());
    assert!(AnimationState::<f32>::JumpLoop.is_jumping());
    assert!(AnimationState::<f32>::JumpLoop.is_falling());
    assert!(AnimationState::Run(2.0f32).is_running());
    assert!(!AnimationState::Sprint(2.0f32).is_running());
}

#[test]
fn request_of_another_clip_waits_for_a_transition() {
    let mut a: Animations<f32> = Animations::default();
    a.run(3.0);
    assert!(matches!(a.current, AnimationState::StandIdle));
    assert!(matches!(a.requested, Some(AnimationState::Run(s)) if s == 3.0));
    let t = a.begin_transition().unwrap();
    assert_eq!(t.next_clip, 1);
    assert_eq!(t.previous_clip, 0);
    assert_eq!(t.kind, TransitionKind::Regular);
    assert!(matches!(t.previous_playback, Playback::Normal));
    assert!(matches!(a.current, AnimationState::Run(s) if s == 3.0));
    assert!(a.requested.is_none());
    assert!(a.begin_transition().is_none());
}

#[test]
fn request_of_the_same_clip_changes_speed_at_once() {
    let mut a: Animations<f32> = Animations::default();
    a.run(3.0);
    a.begin_transition();
    a.run(5.0);
    assert!(matches!(a.current, AnimationState::Run(s) if s == 5.0));
    assert!(a.requested.is_none());
    a.sprint(6.0);
    let t = a.begin_transition().unwrap();
    assert!(matches!(t.previous_playback, Playback::Scaled(s) if s == 5.0));
    assert_eq!(t.next_clip, 2);
}

#[test]
fn locked_animation_ignores_requests() {
    let mut a: Animations<f32> = Animations::default();
    a.start_jump();
    let t = a.begin_transition().unwrap();
    assert_eq!(t.kind, TransitionKind::Jump);
    assert!(a.is_jumping());
    a.idle();
    a.crouch(1.0);
    a.dash();
    assert!(a.requested.is_none());
    assert!(matches!(a.current, AnimationState::Jump));
}

#[test]
fn jump_cycle_chains_into_fall_then_lands_and_idles() {
    let mut a: Animations<f32> = Animations::default();
    calcucate_animations(&mut a, sample(false, true, false));
    assert!(matches!(a.requested, Some(AnimationState::Jump)));
    a.begin_transition();
    // not nearly done: nothing chains
    a.chain_locked(false);
    assert!(a.requested.is_none());
    a.chain_locked(true);
    assert!(matches!(a.requested, Some(AnimationState::JumpLoop)));
    let t = a.begin_transition().unwrap();
    assert_eq!(t.kind, TransitionKind::Jump);
    assert!(a.is_falling());
    // still airborne while falling: no request
    calcucate_animations(&mut a, sample(false, false, false));
    assert!(a.requested.is_none());
    // grounded, not moving: land
    calcucate_animations(&mut a, sample(true, false, false));
    assert!(matches!(a.requested, Some(AnimationState::Land)));
    a.begin_transition();
    a.chain_locked(true);
    assert!(matches!(a.requested, Some(AnimationState::StandIdle)));
    a.begin_transition();
    assert!(matches!(a.current, AnimationState::StandIdle));
}

#[test]
fn landing_while_running_skips_the_land_animation() {
    let mut a: Animations<f32> = Animations::default();
    a.fall();
    a.begin_transition();
    calcucate_animations(&mut a, sample(true, false, true));
    assert!(matches!(a.requested, Some(AnimationState::Run(s)) if s == 4.5));
}

#[test]
fn grounded_choices_follow_crouch_sprint_and_speed() {
    let mut a: Animations<f32> = Animations::default();
    let mut m = sample(true, false, false);
    m.crouching = true;
    calcucate_animations(&mut a, m);
    assert!(matches!(a.requested, Some(AnimationState::CrouchIdle)));
    m.moving = true;
    calcucate_animations(&mut a, m);
    assert!(matches!(a.requested, Some(AnimationState::Crouch(_))));
    m.crouching = false;
    m.sprinting = true;
    calcucate_animations(&mut a, m);
    assert!(matches!(a.requested, Some(AnimationState::Sprint(_))));
    m.sprinting = false;
    calcucate_animations(&mut a, m);
    assert!(matches!(a.requested, Some(AnimationState::Run(_))));
    m.moving = false;
    calcucate_animations(&mut a, m);
    // the idle clip is already current: it is updated in place
    assert!(matches!(a.current, AnimationState::StandIdle));
}

#[test]
fn mantling_dashes_and_dash_stays() {
    let mut a: Animations<f32> = Animations::default();
    let mut m = sample(true, false, true);
    m.mantling = true;
    calcucate_animations(&mut a, m);
    assert!(matches!(a.requested, Some(AnimationState::Dash)));
    a.begin_transition();
    a.chain_locked(true);
    assert!(a.requested.is_none());
    calcucate_animations(&mut a, sample(true, false, true));
    assert!(a.requested.is_none());
    assert!(matches!(a.current, AnimationState::Dash));
}
