use demo::character::{
    animate_player, eldest_turret, grenade_bursts, handle_mk1, handle_player_bullet_collision_events,
    handle_player_move2, handle_player_move3, handle_player_skill2, handle_player_skill3, handle_utaha_attack_damage,
    little_drone_spawns, reload_sheet, shiroko_drone_skill, utaha_turret_skill, MoveKeys, PlayerSheet, PlayerState,
    SheetChange, Skill3, Sweep, VelocityOp,
};

fn keys(jump: bool, left: bool, down: bool, right: bool) -> MoveKeys {
    MoveKeys { jump, left, down, right }
}

const NONE: MoveKeys = MoveKeys { jump: false, left: false, down: false, right: false };

#[test]
fn lobby_jump_from_idle() {
    let mut s = PlayerState::default();
    let o = handle_player_move2(&mut s, keys(true, false, false, false), true, false, 1, false);
    assert_eq!(s, PlayerState::Jumpover);
    assert!(o.jump_event);
    assert!(o.run_event);
    assert_eq!(o.sheet, Some(SheetChange { sheet: PlayerSheet::Jump, frame: 0 }));
    assert_eq!(
        o.velocity,
        vec![VelocityOp::SetJumpSpeed, VelocityOp::RiseByV, VelocityOp::Gravity, VelocityOp::Stop]
    );
}

#[test]
fn lobby_walk_and_stop() {
    let mut s = PlayerState::Idle;
    let o = handle_player_move2(&mut s, keys(false, false, false, true), true, false, 2, false);
    assert_eq!(s, PlayerState::Move);
    assert_eq!(o.dx, 1);
    assert_eq!(o.sheet, Some(SheetChange { sheet: PlayerSheet::Move, frame: 1 }));
    let o = handle_player_move2(&mut s, NONE, true, false, 2, false);
    assert_eq!(s, PlayerState::Idle);
    assert_eq!(o.dx, 0);
    assert!(!o.run_event);
    assert_eq!(o.sheet, Some(SheetChange { sheet: PlayerSheet::Idle, frame: 1 }));
}

#[test]
fn lobby_fall_and_land() {
    let mut s = PlayerState::Move;
    let o = handle_player_move2(&mut s, keys(false, true, false, false), false, false, 1, true);
    assert_eq!(s, PlayerState::Jump);
    assert_eq!(o.dx, -1);
    assert_eq!(o.velocity, vec![VelocityOp::Gravity, VelocityOp::RiseByV]);
    let o = handle_player_move2(&mut s, NONE, false, false, 1, true);
    assert_eq!(s, PlayerState::Jump);
    assert_eq!(o.velocity, vec![VelocityOp::RiseByV, VelocityOp::Gravity]);
    let o = handle_player_move2(&mut s, NONE, true, false, 1, true);
    assert_eq!(s, PlayerState::Jumpover);
    assert_eq!(o.velocity, vec![VelocityOp::Stop]);
    let o = handle_player_move2(&mut s, NONE, true, false, 1, true);
    assert_eq!(s, PlayerState::Idle);
    assert_eq!(o.sheet, Some(SheetChange { sheet: PlayerSheet::Idle, frame: 1 }));
}

#[test]
fn lobby_drop_through_platform() {
    let mut s = PlayerState::Idle;
    let o = handle_player_move2(&mut s, keys(false, false, true, false), true, true, 1, false);
    assert!(o.drop_through);
    assert_eq!(s, PlayerState::Jumpover);
    let mut low = PlayerState::Idle;
    let o = handle_player_move2(&mut low, keys(false, false, true, false), true, false, 1, false);
    assert!(!o.drop_through);
    assert_eq!(low, PlayerState::Move);
}

#[test]
fn lobby_dash_while_dodging() {
    let mut s = PlayerState::Dodge;
    let o = handle_player_move2(&mut s, keys(true, false, false, false), false, false, 3, true);
    assert_eq!(s, PlayerState::Dodge);
    assert!(!o.jump_event);
    assert_eq!(o.dx, -2);
    assert_eq!(o.velocity, vec![VelocityOp::Level]);
    let mut arisu = PlayerState::Dodge;
    let o = handle_player_move2(&mut arisu, NONE, false, false, 2, false);
    assert_eq!(o.dx, 0);
    assert!(o.velocity.is_empty());
}

#[test]
fn room_movement_walks_in_eight_directions() {
    let mut s = PlayerState::Idle;
    let o = handle_player_move3(&mut s, keys(true, true, false, false), 1);
    assert_eq!(s, PlayerState::Move);
    assert_eq!((o.dx, o.dy), (-2, 2));
    assert_eq!(o.sheet, Some(SheetChange { sheet: PlayerSheet::Move, frame: 0 }));
    assert!(o.run_event);
    let o = handle_player_move3(&mut s, keys(false, false, true, true), 1);
    assert_eq!((o.dx, o.dy), (2, -2));
    assert_eq!(o.sheet, None);
    let o = handle_player_move3(&mut s, NONE, 1);
    assert_eq!(s, PlayerState::Idle);
    assert_eq!(o.sheet, Some(SheetChange { sheet: PlayerSheet::Idle, frame: 0 }));
    let mut d = PlayerState::Dodge;
    assert!(handle_player_move3(&mut d, NONE, 3).dash);
    assert!(!handle_player_move3(&mut d, NONE, 2).dash);
    assert_eq!(d, PlayerState::Dodge);
}

#[test]
fn dodge_needs_cooldown_and_restarts_it() {
    let mut s = PlayerState::Jump;
    let o = handle_player_skill2(&mut s, true, false, 1);
    assert!(!o.reset_timer);
    assert_eq!(s, PlayerState::Jump);
    let o = handle_player_skill2(&mut s, true, true, 1);
    assert!(o.start && o.reset_timer && o.stop_fall && o.pass_through && !o.hide_gun);
    assert_eq!(s, PlayerState::Dodge);
    let o = handle_player_skill2(&mut s, true, true, 1);
    assert!(o.reset_timer && !o.start);
    let mut a = PlayerState::Idle;
    let o = handle_player_skill2(&mut a, true, true, 2);
    assert!(o.hide_gun && !o.pass_through && !o.stop_fall);
}

#[test]
fn little_drones_only_from_dodging_utaha() {
    assert!(little_drone_spawns(PlayerState::Dodge, 3, 2));
    assert!(!little_drone_spawns(PlayerState::Dodge, 3, 3));
    assert!(!little_drone_spawns(PlayerState::Move, 3, 0));
    assert!(!little_drone_spawns(PlayerState::Dodge, 1, 0));
}

#[test]
fn secondary_skill_shield_or_grenade() {
    assert_eq!(handle_player_skill3(true, true, 3), Some(Skill3::Shield));
    assert_eq!(handle_player_skill3(true, true, 1), Some(Skill3::Grenade));
    assert_eq!(handle_player_skill3(true, false, 1), None);
    assert_eq!(handle_player_skill3(false, true, 2), None);
}

#[test]
fn turret_builds_recall_at_capacity() {
    let p = utaha_turret_skill(true, false, true, 3, 3);
    assert!(p.build && p.recall_eldest && p.reset_timer && p.event);
    let p = utaha_turret_skill(true, false, true, 1, 3);
    assert!(p.build && !p.recall_eldest);
    let p = utaha_turret_skill(false, true, true, 1, 3);
    assert!(!p.build && p.recall_eldest && !p.reset_timer);
    let p = utaha_turret_skill(true, false, false, 1, 3);
    assert!(p.event && !p.build);
    let p = utaha_turret_skill(false, false, true, 1, 3);
    assert!(!p.event);
}

#[test]
fn eldest_turret_is_first_with_the_largest_age() {
    assert_eq!(eldest_turret(&vec![3, 9, 9, 2]), Some(1));
    assert_eq!(eldest_turret(&vec![0, 0]), None);
    assert_eq!(eldest_turret(&vec![]), None);
    assert_eq!(eldest_turret(&vec![0, 4]), Some(1));
}

#[test]
fn bullets_hurt_unless_dodging_or_shielded() {
    let h = handle_player_bullet_collision_events(PlayerState::Dodge, 2, false);
    assert!(h.parry && !h.damage);
    let h = handle_player_bullet_collision_events(PlayerState::Dodge, 1, false);
    assert!(!h.parry && !h.damage);
    let h = handle_player_bullet_collision_events(PlayerState::Move, 3, true);
    assert!(!h.damage);
    let h = handle_player_bullet_collision_events(PlayerState::Idle, 1, false);
    assert!(h.damage);
}

#[test]
fn sheet_after_switching_character() {
    assert_eq!(reload_sheet(PlayerState::Jump), PlayerSheet::Jump);
    assert_eq!(reload_sheet(PlayerState::Move), PlayerSheet::Move);
    assert_eq!(reload_sheet(PlayerState::Dodge), PlayerSheet::Idle);
    assert_eq!(reload_sheet(PlayerState::Jumpover), PlayerSheet::Idle);
}

#[test]
fn jump_animation_climbs_and_holds() {
    let mut s = PlayerState::Jump;
    let mut frames = Vec::new();
    let mut f = 0;
    for _ in 0..8 {
        f = animate_player(&mut s, f, 1).frame;
        frames.push(f);
    }
    assert_eq!(frames, vec![1, 2, 5, 6, 7, 7, 7, 7]);
}

#[test]
fn idle_and_walk_loop() {
    let mut s = PlayerState::Idle;
    assert_eq!(animate_player(&mut s, 5, 1).frame, 0);
    assert_eq!(animate_player(&mut s, 2, 1).frame, 3);
    let mut m = PlayerState::Move;
    assert_eq!(animate_player(&mut m, 9, 1).frame, 0);
}

#[test]
fn dodges_end_after_their_animation() {
    let mut s = PlayerState::Dodge;
    let mut f = 0;
    let mut steps = 0;
    loop {
        let o = animate_player(&mut s, f, 1);
        steps += 1;
        f = o.frame;
        if o.dodge_over {
            break;
        }
    }
    assert_eq!(steps, 12);
    assert_eq!(s, PlayerState::Jumpover);
    let mut a = PlayerState::Dodge;
    let o = animate_player(&mut a, 10, 2);
    assert!(o.dodge_over && o.show_gun);
    let mut u = PlayerState::Dodge;
    let mut f = 0;
    let mut seen = Vec::new();
    loop {
        let o = animate_player(&mut u, f, 3);
        if o.dodge_over {
            break;
        }
        f = o.frame;
        seen.push(f);
    }
    assert_eq!(seen, vec![1, 2, 5, 6, 7, 8, 10, 11, 12, 13, 14]);
    assert_eq!(u, PlayerState::Jumpover);
}

#[test]
fn little_drone_fires_while_target_in_range() {
    assert_eq!(handle_mk1(0, true), 1);
    assert_eq!(handle_mk1(1, true), 1);
    assert_eq!(handle_mk1(1, false), 0);
    assert_eq!(handle_mk1(0, false), 0);
}

#[test]
fn utaha_sweeps() {
    assert_eq!(handle_utaha_attack_damage(3, true, PlayerState::Dodge), Some(Sweep::AtPlayer));
    assert_eq!(handle_utaha_attack_damage(3, true, PlayerState::Move), Some(Sweep::AtWeapon));
    assert_eq!(handle_utaha_attack_damage(3, false, PlayerState::Move), None);
    assert_eq!(handle_utaha_attack_damage(1, true, PlayerState::Dodge), None);
}

#[test]
fn drone_and_grenade() {
    assert!(shiroko_drone_skill(false, true, true));
    assert!(!shiroko_drone_skill(true, true, true));
    assert!(!shiroko_drone_skill(false, true, false));
    assert!(grenade_bursts(false));
    assert!(!grenade_bursts(true));
}
