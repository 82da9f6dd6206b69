use demo::boss::{
    animate_boss, boss_skill_step, handle_boss_charge_hurt, handle_boss_skill, handle_bossbullet_setup,
    handle_boss_animation, set_boss, Boss, BossBody, BossPart, BossShot, BossSheet, BossState, Skillflag,
    WeaponOrder,
};
use demo::clock::{Stopwatch, Timer, NANOS_PER_MILLI};

fn idle_body(frame: usize, elapsed_ms: u64, skill: u8) -> BossBody {
    BossBody {
        state: BossState::Idea,
        frame,
        timer: Timer { timer1: Stopwatch { elapsed_ns: elapsed_ms * NANOS_PER_MILLI }, timer2: Stopwatch::new() },
        skill: Skillflag(skill),
    }
}

fn part(kind: Boss, state: BossState, frame: usize) -> BossPart {
    BossPart { kind, state, frame, timer: Timer::new(), fire: Skillflag(0) }
}

#[test]
fn boss_appears_idle_with_three_weapons() {
    let (body, parts) = set_boss();
    assert_eq!(body.state, BossState::Idea);
    assert_eq!(body.skill, Skillflag(0));
    let kinds: Vec<Boss> = parts.iter().map(|p| p.kind).collect();
    assert_eq!(kinds, vec![Boss::Missile, Boss::Shield, Boss::Gun]);
}

#[test]
fn calm_boss_charges_on_roll_between_5_and_44() {
    let (_, mut parts) = set_boss();
    let mut body = idle_body(3, 250, 0);
    let out = boss_skill_step(&mut body, &mut parts, false, 60 * NANOS_PER_MILLI, 20);
    assert!(out.aim);
    assert!(!out.charge);
    assert_eq!(out.weapons, WeaponOrder::Nothing);
    assert_eq!(body.state, BossState::CollideStart);
    assert_eq!(body.frame, 0);
    assert_eq!(body.skill, Skillflag(1));
    assert_eq!(body.timer.timer1.elapsed_ns, 0);
}

#[test]
fn calm_boss_orders_guns_and_lid() {
    let (_, mut parts) = set_boss();
    let mut body = idle_body(3, 300, 0);
    let out = boss_skill_step(&mut body, &mut parts, false, 0, 50);
    assert_eq!(out.weapons, WeaponOrder::Guns);
    assert_eq!(body.state, BossState::Idea);
    assert_eq!(body.skill, Skillflag(1));
    assert_eq!(parts[0].state, BossState::Idea);
    assert_eq!(parts[1].state, BossState::Gunfire);
    assert_eq!(parts[2].state, BossState::Gunfire);
}

#[test]
fn calm_boss_orders_missiles_on_high_roll() {
    let (_, mut parts) = set_boss();
    let mut body = idle_body(3, 300, 0);
    let out = boss_skill_step(&mut body, &mut parts, false, 0, 99);
    assert_eq!(out.weapons, WeaponOrder::Missiles);
    assert_eq!(parts[0].state, BossState::Missilefire);
    assert_eq!(parts[1].state, BossState::Idea);
}

#[test]
fn calm_boss_stays_on_low_roll_keeping_flag() {
    let (_, mut parts) = set_boss();
    let mut body = idle_body(3, 300, 0);
    let out = boss_skill_step(&mut body, &mut parts, false, 0, 4);
    assert_eq!(out.weapons, WeaponOrder::Nothing);
    assert!(!out.aim);
    assert_eq!(body.skill, Skillflag(0));
    assert_eq!(body.frame, 0);
}

#[test]
fn calm_boss_waits_while_skill_flag_raised() {
    let (_, mut parts) = set_boss();
    let mut body = idle_body(3, 900, 1);
    let out = boss_skill_step(&mut body, &mut parts, false, 0, 20);
    assert_eq!(out.weapons, WeaponOrder::Nothing);
    assert!(!out.aim);
    assert_eq!(body.state, BossState::Idea);
    assert_eq!(body.frame, 3);
}

#[test]
fn enraged_boss_ignores_skill_flag() {
    let (_, mut parts) = set_boss();
    let mut body = idle_body(3, 900, 1);
    let out = boss_skill_step(&mut body, &mut parts, true, 0, 20);
    assert!(out.aim);
    assert_eq!(body.state, BossState::CollideStart);
}

#[test]
fn decision_waits_for_the_interval_and_frame() {
    let (_, mut parts) = set_boss();
    let mut body = idle_body(3, 100, 0);
    let out = boss_skill_step(&mut body, &mut parts, false, 50 * NANOS_PER_MILLI, 20);
    assert!(!out.aim);
    assert_eq!(body.timer.timer1.elapsed_ns, 150 * NANOS_PER_MILLI);
    let mut body2 = idle_body(2, 400, 0);
    let out2 = boss_skill_step(&mut body2, &mut parts, false, 0, 20);
    assert!(!out2.aim);
    assert_eq!(body2.state, BossState::Idea);
}

#[test]
fn charge_cycle_start_loop_end_idle() {
    let (_, mut parts) = set_boss();
    let mut body = BossBody { state: BossState::CollideStart, frame: 9, timer: Timer::new(), skill: Skillflag(1) };
    let out = boss_skill_step(&mut body, &mut parts, false, 0, 0);
    assert!(out.charge);
    assert_eq!(body.state, BossState::CollideLoop);
    body.frame = 7;
    boss_skill_step(&mut body, &mut parts, false, 500 * NANOS_PER_MILLI, 0);
    assert_eq!(body.state, BossState::CollideLoop);
    body.frame = 7;
    boss_skill_step(&mut body, &mut parts, false, 500 * NANOS_PER_MILLI, 0);
    assert_eq!(body.state, BossState::CollideEnd);
    body.frame = 1;
    boss_skill_step(&mut body, &mut parts, false, 0, 0);
    assert_eq!(body.state, BossState::Idea);
    assert_eq!(body.skill, Skillflag(0));
}

#[test]
fn enraged_boss_fires_while_charging() {
    let (_, mut parts) = set_boss();
    let mut body = BossBody { state: BossState::CollideLoop, frame: 2, timer: Timer::new(), skill: Skillflag(0) };
    let out = boss_skill_step(&mut body, &mut parts, true, 300 * NANOS_PER_MILLI, 30);
    assert!(out.charge);
    assert_eq!(out.weapons, WeaponOrder::Guns);
    assert_eq!(body.timer.timer1.elapsed_ns, 0);
    assert_eq!(body.timer.timer2.elapsed_ns, 300 * NANOS_PER_MILLI);
    assert_eq!(parts[2].state, BossState::Gunfire);
}

#[test]
fn random_boss_step_stays_in_the_charge_cycle() {
    for _ in 0..200 {
        let (_, mut parts) = set_boss();
        let mut body = idle_body(3, 300, 0);
        let out = handle_boss_skill(&mut body, &mut parts, false, 0);
        assert!(body.state == BossState::Idea || body.state == BossState::CollideStart);
        assert_eq!(out.aim, body.state == BossState::CollideStart);
    }
}

#[test]
fn random_boss_rolls_reach_several_outcomes() {
    let mut charged = false;
    let mut fired = false;
    for _ in 0..400 {
        let (_, mut parts) = set_boss();
        let mut body = idle_body(3, 300, 0);
        let out = handle_boss_skill(&mut body, &mut parts, false, 0);
        charged |= out.aim;
        fired |= out.weapons != WeaponOrder::Nothing;
    }
    assert!(charged && fired);
}

#[test]
fn gun_shoots_once_on_frame_six_then_stops() {
    let mut parts = vec![part(Boss::Gun, BossState::Gunfire, 6)];
    let mut skill = Skillflag(1);
    let shots = handle_bossbullet_setup(&mut parts, &mut skill, 10);
    assert_eq!(shots, vec![Some(BossShot::GunBullet)]);
    assert_eq!(parts[0].fire, Skillflag(1));
    assert_eq!(skill, Skillflag(1));
    let shots = handle_bossbullet_setup(&mut parts, &mut skill, 1000 * NANOS_PER_MILLI);
    assert_eq!(shots, vec![None]);
    assert_eq!(parts[0].state, BossState::Idea);
    assert_eq!(skill, Skillflag(0));
}

#[test]
fn missile_pod_launches_then_rests_at_frame_29() {
    let mut parts = vec![part(Boss::Missile, BossState::Missilefire, 20), part(Boss::Shield, BossState::Idea, 0)];
    let mut skill = Skillflag(1);
    let shots = handle_bossbullet_setup(&mut parts, &mut skill, 0);
    assert_eq!(shots, vec![Some(BossShot::Missile), None]);
    parts[0].frame = 29;
    let shots = handle_bossbullet_setup(&mut parts, &mut skill, 0);
    assert_eq!(shots, vec![None, None]);
    assert_eq!(parts[0].state, BossState::Idea);
    assert_eq!(parts[0].frame, 0);
    assert_eq!(skill, Skillflag(0));
}

#[test]
fn boss_frames_wrap_and_rearm_weapons() {
    let mut fire = Skillflag(1);
    assert_eq!(animate_boss(Boss::Missile, BossState::Missilefire, 29, &mut fire), 0);
    assert_eq!(fire, Skillflag(0));
    let mut fire = Skillflag(1);
    assert_eq!(animate_boss(Boss::Body, BossState::CollideStart, 4, &mut fire), 5);
    assert_eq!(fire, Skillflag(1));
    assert_eq!(animate_boss(Boss::Body, BossState::Idea, 3, &mut fire), 0);
    assert_eq!(animate_boss(Boss::Shield, BossState::Idea, 0, &mut fire), 0);
}

#[test]
fn boss_sheets_and_charge_damage() {
    assert_eq!(handle_boss_animation(Boss::Body, BossState::CollideLoop), Some(BossSheet::BodyChargeLoop));
    assert_eq!(handle_boss_animation(Boss::Body, BossState::Gunfire), None);
    assert_eq!(handle_boss_animation(Boss::Shield, BossState::Gunfire), Some(BossSheet::LidFire));
    assert!(handle_boss_charge_hurt(BossState::CollideEnd, false, true));
    assert!(!handle_boss_charge_hurt(BossState::CollideEnd, true, true));
    assert!(!handle_boss_charge_hurt(BossState::Idea, false, true));
}
