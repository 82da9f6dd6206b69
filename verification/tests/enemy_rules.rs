use demo::clock::NANOS_PER_MILLI;
use demo::enemy::{
    animate_enemy, animate_enemy_bullet, enemy_spawn, handle_enemy_animation, handle_enemy_bullet_collision_events,
    handle_enemy_fire, handle_enemy_move, handle_sweeper_hit, set_enemy, Contact, EnemyBrain, EnemyBullet,
    EnemySheet, EnemyState, EnemyType, Fireflag, Idleflag, Movement, Sighting,
};

fn robot(kind: EnemyType, state: EnemyState, frame: usize) -> EnemyBrain {
    let mut e = enemy_spawn(1, 0);
    e.kind = kind;
    e.state = state;
    e.frame = frame;
    e
}

#[test]
fn spawn_requests_pick_the_named_kind() {
    assert_eq!(enemy_spawn(1, 3).kind, EnemyType::Sweeper);
    assert_eq!(enemy_spawn(2, 0).kind, EnemyType::DroneMissile);
    assert_eq!(enemy_spawn(3, 0).kind, EnemyType::DroneVulcan);
    assert_eq!(enemy_spawn(4, 0).kind, EnemyType::UnknownGuardianTypeF);
    assert_eq!(enemy_spawn(0, 2).kind, EnemyType::DroneVulcan);
    let e = set_enemy(2);
    assert_eq!(e.kind, EnemyType::DroneMissile);
    assert_eq!(e.state, EnemyState::Idea);
    assert_eq!(e.idle, Idleflag::Patrol);
    assert_eq!(e.fire, Fireflag::Fire);
    assert_eq!(e.patrol.duration_ns, 500 * NANOS_PER_MILLI);
}

#[test]
fn random_spawns_cover_several_kinds() {
    let mut seen = std::collections::HashSet::new();
    for _ in 0..400 {
        seen.insert(format!("{:?}", set_enemy(0).kind));
    }
    assert!(seen.len() >= 2);
}

#[test]
fn drone_opens_fire_when_its_idle_loop_ends() {
    let mut e = robot(EnemyType::DroneMissile, EnemyState::Move, 4);
    let m = handle_enemy_move(&mut e, Sighting::Attack, 0);
    assert_eq!(e.state, EnemyState::FireStart);
    assert_eq!(e.frame, 0);
    assert_eq!(m.movement, Movement::Hold);
    e.frame = 2;
    handle_enemy_move(&mut e, Sighting::Attack, 0);
    assert_eq!(e.state, EnemyState::FireLoop);
}

#[test]
fn sweeper_swings_at_once_from_idle() {
    let mut e = robot(EnemyType::Sweeper, EnemyState::Idea, 5);
    handle_enemy_move(&mut e, Sighting::Attack, 0);
    assert_eq!(e.state, EnemyState::FireLoop);
    assert_eq!(e.frame, 0);
}

#[test]
fn approaching_vulcan_winds_down_its_fire() {
    let mut e = robot(EnemyType::DroneVulcan, EnemyState::FireLoop, 2);
    let m = handle_enemy_move(&mut e, Sighting::Approach, 0);
    assert_eq!(e.state, EnemyState::FireEnd);
    assert_eq!(m.movement, Movement::Chase);
    e.frame = 1;
    handle_enemy_move(&mut e, Sighting::Approach, 0);
    assert_eq!(e.state, EnemyState::Move);
}

#[test]
fn sighting_resets_patrol_clocks() {
    let mut e = robot(EnemyType::UnknownGuardianTypeF, EnemyState::Move, 0);
    e.idle = Idleflag::Idle;
    e.patrol.timer1.elapsed_ns = 400;
    e.patrol.timer2.elapsed_ns = 300;
    let m = handle_enemy_move(&mut e, Sighting::Approach, 10);
    assert_eq!(e.idle, Idleflag::Patrol);
    assert_eq!(e.patrol.timer1.elapsed_ns, 0);
    assert_eq!(e.patrol.timer2.elapsed_ns, 0);
    assert!(!m.new_heading);
}

#[test]
fn unseen_robot_walks_then_rests_then_walks() {
    let mut e = robot(EnemyType::Sweeper, EnemyState::Idea, 3);
    let m = handle_enemy_move(&mut e, Sighting::Unseen, 100 * NANOS_PER_MILLI);
    assert_eq!(e.state, EnemyState::Move);
    assert_eq!(m.movement, Movement::Wander);
    assert!(!m.new_heading);
    let m = handle_enemy_move(&mut e, Sighting::Unseen, 400 * NANOS_PER_MILLI);
    assert!(m.new_heading);
    assert_eq!(e.idle, Idleflag::Idle);
    assert_eq!(e.state, EnemyState::Idea);
    let m = handle_enemy_move(&mut e, Sighting::Unseen, 499 * NANOS_PER_MILLI);
    assert_eq!(m.movement, Movement::Hold);
    assert!(!m.new_heading);
    let m = handle_enemy_move(&mut e, Sighting::Unseen, NANOS_PER_MILLI);
    assert!(m.new_heading);
    assert_eq!(e.idle, Idleflag::Patrol);
}

#[test]
fn drones_shoot_on_their_shot_frame_once() {
    let mut e = robot(EnemyType::DroneVulcan, EnemyState::FireLoop, 1);
    assert_eq!(handle_enemy_fire(&mut e), Some(EnemyBullet::DroneVulcan));
    assert_eq!(e.fire, Fireflag::Done);
    assert_eq!(handle_enemy_fire(&mut e), None);
    let mut g = robot(EnemyType::UnknownGuardianTypeF, EnemyState::FireLoop, 4);
    assert_eq!(handle_enemy_fire(&mut g), Some(EnemyBullet::UnknownGuardian));
    let mut s = robot(EnemyType::Sweeper, EnemyState::FireLoop, 0);
    assert_eq!(handle_enemy_fire(&mut s), None);
    let mut m = robot(EnemyType::DroneMissile, EnemyState::FireStart, 0);
    assert_eq!(handle_enemy_fire(&mut m), None);
}

#[test]
fn sweeper_hits_on_swing_frames_only() {
    let mut e = robot(EnemyType::Sweeper, EnemyState::FireLoop, 8);
    assert!(!handle_sweeper_hit(&mut e, true, true));
    assert!(handle_sweeper_hit(&mut e, true, false));
    assert!(!handle_sweeper_hit(&mut e, true, false));
    let mut f = robot(EnemyType::Sweeper, EnemyState::FireLoop, 6);
    assert!(!handle_sweeper_hit(&mut f, true, false));
    let mut g = robot(EnemyType::Sweeper, EnemyState::FireLoop, 12);
    assert!(!handle_sweeper_hit(&mut g, false, false));
}

#[test]
fn robot_animation_wraps_and_rearms() {
    let mut e = robot(EnemyType::Sweeper, EnemyState::Move, 13);
    e.fire = Fireflag::Done;
    animate_enemy(&mut e);
    assert_eq!(e.frame, 0);
    assert_eq!(e.fire, Fireflag::Fire);
    let mut d = robot(EnemyType::DroneMissile, EnemyState::FireLoop, 2);
    d.fire = Fireflag::Done;
    animate_enemy(&mut d);
    assert_eq!(d.frame, 3);
    assert_eq!(d.fire, Fireflag::Done);
    animate_enemy(&mut d);
    assert_eq!(d.frame, 4);
    assert_eq!(d.fire, Fireflag::Fire);
    assert_eq!(animate_enemy_bullet(EnemyBullet::DroneMissile, 4), 0);
    assert_eq!(animate_enemy_bullet(EnemyBullet::DroneVulcan, 3), 0);
}

#[test]
fn robot_sheets_and_projectile_contacts() {
    assert_eq!(handle_enemy_animation(EnemyType::Sweeper, EnemyState::FireLoop), Some(EnemySheet::SweeperAttack));
    assert_eq!(handle_enemy_animation(EnemyType::Sweeper, EnemyState::FireEnd), None);
    assert_eq!(handle_enemy_animation(EnemyType::DroneMissile, EnemyState::Move), Some(EnemySheet::MissileIdle));
    assert!(handle_enemy_bullet_collision_events(Contact::Other));
    assert!(!handle_enemy_bullet_collision_events(Contact::Boss));
    assert!(!handle_enemy_bullet_collision_events(Contact::EnemyProjectile));
}
