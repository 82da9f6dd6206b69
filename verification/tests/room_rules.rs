use demo::clock::{Stopwatch, NANOS_PER_MILLI, NANOS_PER_SECOND};
use demo::room::{
    animate_chest, animate_door, check_ifcomplete, chest_with_roll, enemy_point, handle_base_timer, load_room1,
    controller_mode, load_room2, may_leave, object_setup, queue_for_draws, repeating_point, room_clear_effects, silence_spawn_points, spawn_chest,
    AssetsManager, Chest, ChestType, Door, DoorSheet, MapObject, Enemybornduration, Enemybornflag, Enemyterm, MapInfos, MapName,
    Progress, RoomCheck, RoomView, SpawnPoint,
};
use demo::score::ScoreResource;

fn wave(term: u8, born: bool) -> SpawnPoint {
    SpawnPoint {
        born: Enemybornflag(born),
        term: Enemyterm(term),
        duration: Enemybornduration { timer: Stopwatch::new(), duration_ns: 1000 * NANOS_PER_MILLI },
    }
}

fn view(enemies_alive: bool, boss_alive: bool, delta_ns: u64) -> RoomView {
    RoomView {
        enemies_alive,
        boss_alive,
        delta_ns,
        near_door: false,
        use_pressed: false,
        transition_running: false,
    }
}

fn check(points: &mut Vec<SpawnPoint>, enemies_alive: bool, boss_alive: bool, delta_ns: u64) -> RoomCheck {
    let mut door = Door(0);
    let mut chests = Vec::new();
    let mut sounded = false;
    let mut score = ScoreResource::init();
    check_ifcomplete(points, &mut door, &mut chests, &mut sounded, &mut score, view(enemies_alive, boss_alive, delta_ns))
}

#[test]
fn robot_spawn_points_hold_one_to_three_waves() {
    let mut terms = std::collections::HashSet::new();
    for _ in 0..300 {
        let p = enemy_point();
        assert!((1..=3).contains(&p.term.0));
        assert!(!p.born.0);
        assert_eq!(p.duration.duration_ns, 1000 * NANOS_PER_MILLI);
        terms.insert(p.term.0);
    }
    assert!(terms.len() > 1);
    let r = repeating_point();
    assert!(r.born.0);
    assert_eq!(r.term.0, 10);
}

#[test]
fn spawning_wave_point_releases_and_counts_down() {
    let mut points = vec![wave(2, true)];
    let r = check(&mut points, false, false, 0);
    assert_eq!(r.spawns, vec![true]);
    assert_eq!(points[0].term.0, 1);
    assert!(!points[0].born.0);
    assert!(!r.cleared);
}

#[test]
fn waiting_point_restarts_only_when_room_is_empty() {
    let mut points = vec![wave(1, false)];
    let r = check(&mut points, true, false, 0);
    assert_eq!(r.spawns, vec![false]);
    assert!(!points[0].born.0);
    let r = check(&mut points, false, false, 0);
    assert_eq!(r.spawns, vec![false]);
    assert!(points[0].born.0);
    assert!(!r.cleared);
}

#[test]
fn room_clears_when_all_points_are_spent() {
    let mut points = vec![wave(0, true), wave(0, false)];
    let r = check(&mut points, false, false, 0);
    assert!(r.cleared);
    let mut points = vec![wave(0, true)];
    assert!(!check(&mut points, true, false, 0).cleared);
    assert!(!check(&mut points, false, true, 0).cleared);
    let mut none: Vec<SpawnPoint> = Vec::new();
    assert!(check(&mut none, false, false, 0).cleared);
}

#[test]
fn repeating_point_fires_when_its_clock_runs_out() {
    let mut points = vec![repeating_point()];
    let r = check(&mut points, true, false, 400 * NANOS_PER_MILLI);
    assert_eq!(r.spawns, vec![false]);
    assert_eq!(points[0].duration.timer.elapsed_ns, 400 * NANOS_PER_MILLI);
    let r = check(&mut points, true, false, 600 * NANOS_PER_MILLI);
    assert_eq!(r.spawns, vec![true]);
    assert_eq!(points[0].duration.timer.elapsed_ns, 0);
    let wait = points[0].duration.duration_ns;
    assert!(wait >= 500 * NANOS_PER_MILLI && wait <= 2000 * NANOS_PER_MILLI);
    assert!(!r.cleared);
}

#[test]
fn silenced_points_let_the_room_clear() {
    let mut points = vec![repeating_point(), wave(3, false)];
    silence_spawn_points(&mut points);
    assert!(points.iter().all(|p| p.term.0 == 0));
    assert!(points[0].born.0);
    let r = check(&mut points, false, false, 0);
    assert!(r.cleared);
    assert_eq!(r.spawns, vec![false, false]);
}

#[test]
fn clearing_unlocks_door_and_chests_and_sounds_once() {
    let mut door = Door(0);
    let mut chests = vec![Chest(1), Chest(2), Chest(0), Chest(7)];
    let mut sounded = false;
    assert!(room_clear_effects(&mut door, &mut chests, &mut sounded, false));
    assert_eq!(door, Door(1));
    assert_eq!(chests, vec![Chest(3), Chest(4), Chest(0), Chest(7)]);
    assert!(sounded);
    assert!(!room_clear_effects(&mut door, &mut chests, &mut sounded, false));
    assert_eq!(door, Door(1));
    let mut quiet = false;
    let mut door2 = Door(3);
    assert!(!room_clear_effects(&mut door2, &mut chests, &mut quiet, true));
    assert_eq!(door2, Door(3));
    assert!(!quiet);
}

#[test]
fn leaving_needs_an_open_door_and_the_use_key() {
    assert!(may_leave(Door(3), true, true, false));
    assert!(!may_leave(Door(2), true, true, false));
    assert!(!may_leave(Door(3), false, true, false));
    assert!(!may_leave(Door(3), true, false, false));
    assert!(!may_leave(Door(3), true, true, true));
}

#[test]
fn door_runs_its_full_cycle() {
    let mut door = Door(1);
    let mut frame = 0usize;
    assert_eq!(animate_door(&mut door, &mut frame, false, true), None);
    assert_eq!(door, Door(1));
    animate_door(&mut door, &mut frame, true, true);
    assert_eq!(door, Door(2));
    for _ in 0..11 {
        animate_door(&mut door, &mut frame, true, true);
        assert_eq!(door, Door(2));
    }
    animate_door(&mut door, &mut frame, true, true);
    assert_eq!(door, Door(3));
    assert_eq!(frame, 12);
    assert_eq!(animate_door(&mut door, &mut frame, true, true), None);
    assert_eq!(door, Door(3));
    assert_eq!(animate_door(&mut door, &mut frame, false, true), Some(DoorSheet::Closing));
    assert_eq!(door, Door(4));
    assert_eq!(frame, 0);
    for _ in 0..13 {
        assert_eq!(animate_door(&mut door, &mut frame, false, true), None);
    }
    assert_eq!(animate_door(&mut door, &mut frame, false, true), Some(DoorSheet::Opening));
    assert_eq!(door, Door(1));
    assert_eq!(frame, 0);
    let mut locked = Door(0);
    assert_eq!(animate_door(&mut locked, &mut frame, true, true), None);
    assert_eq!(locked, Door(0));
}

#[test]
fn chest_opens_once_after_its_animation() {
    let mut c = Chest(4);
    let mut frame = 0usize;
    assert!(!animate_chest(&mut c, &mut frame, true, false, true, true));
    assert_eq!(c, Chest(4));
    assert!(!animate_chest(&mut c, &mut frame, true, true, true, true));
    assert_eq!(c, Chest(6));
    let mut menus = 0;
    for _ in 0..30 {
        if animate_chest(&mut c, &mut frame, true, true, true, true) {
            menus += 1;
        }
    }
    assert_eq!(menus, 1);
    assert_eq!(c, Chest(7));
    assert_eq!(frame, 23);
    let mut locked = Chest(1);
    assert!(!animate_chest(&mut locked, &mut frame, true, true, true, true));
    assert_eq!(locked, Chest(1));
}

#[test]
fn chest_glow_loops_over_three_frames() {
    let mut glow = Chest(0);
    let mut frame = 0usize;
    let mut seen = Vec::new();
    for _ in 0..4 {
        animate_chest(&mut glow, &mut frame, false, false, true, true);
        seen.push(frame);
    }
    assert_eq!(seen, vec![1, 2, 0, 1]);
    animate_chest(&mut glow, &mut frame, false, false, false, true);
    assert_eq!(frame, 1);
}

#[test]
fn chest_kind_follows_the_roll() {
    assert_eq!(chest_with_roll(5, 0, 3), (Chest(1), ChestType(0), true));
    assert_eq!(chest_with_roll(6, 0, 3), (Chest(1), ChestType(1), false));
    assert_eq!(chest_with_roll(30, 0, 3), (Chest(1), ChestType(1), false));
    assert_eq!(chest_with_roll(31, 0, 3), (Chest(2), ChestType(2), false));
    assert_eq!(chest_with_roll(98, 1, 3), (Chest(2), ChestType(2), false));
    assert_eq!(chest_with_roll(98, 2, 3), (Chest(1), ChestType(0), true));
    assert_eq!(chest_with_roll(98, 5, 3), (Chest(1), ChestType(0), true));
}

#[test]
fn boss_room_chest_is_always_the_best() {
    for _ in 0..50 {
        assert_eq!(spawn_chest(2, 3), (Chest(1), ChestType(0), true));
    }
    let mut kinds = std::collections::HashSet::new();
    for _ in 0..400 {
        kinds.insert(spawn_chest(0, 3).1 .0);
    }
    assert!(kinds.contains(&2));
    assert!(kinds.len() > 1);
}

#[test]
fn base_counts_waves_until_the_target() {
    let mut progress = Progress(0);
    let mut clock = Enemybornduration { timer: Stopwatch::new(), duration_ns: NANOS_PER_SECOND };
    assert!(!handle_base_timer(&mut progress, &mut clock, NANOS_PER_SECOND / 2, 2));
    assert_eq!(progress, Progress(0));
    assert!(!handle_base_timer(&mut progress, &mut clock, NANOS_PER_SECOND / 2, 2));
    assert_eq!(progress, Progress(1));
    assert_eq!(clock.timer.elapsed_ns, 0);
    assert!(handle_base_timer(&mut progress, &mut clock, NANOS_PER_SECOND, 2));
    assert_eq!(progress, Progress(2));
    let mut full = Progress(10);
    assert!(!handle_base_timer(&mut full, &mut clock, NANOS_PER_SECOND, 2));
    assert_eq!(full, Progress(10));
}

#[test]
fn room_queue_cycles_and_asks_for_rebuild() {
    let mut mgr = AssetsManager::new();
    mgr.add_map(MapInfos::new(MapName::Parkour(1)));
    mgr.add_map(MapInfos::new(MapName::Boss(1)));
    let s = mgr.cycle_map();
    assert!(!s.despawn_current);
    assert_eq!(s.spawn, MapName::Parkour(1));
    assert_eq!(mgr.current_map(), 0);
    let s = mgr.cycle_map();
    assert!(s.despawn_current);
    assert_eq!(s.spawn, MapName::Boss(1));
    assert_eq!(mgr.map_index, 0);
    assert!(mgr.reload_map);
    assert_eq!(mgr.current_map(), 1);
    assert!(mgr.del_map());
    assert!(!mgr.map_spawned);
    mgr.clear();
    assert!(mgr.map_assets.is_empty());
}

#[test]
fn first_run_is_parkour_then_a_boss() {
    let mut mgr = AssetsManager::new();
    let mut bosses = std::collections::HashSet::new();
    for _ in 0..100 {
        load_room1(&mut mgr);
        assert_eq!(mgr.map_assets.len(), 2);
        assert_eq!(mgr.map_assets[0].name, MapName::Parkour(1));
        match mgr.map_assets[1].name {
            MapName::Boss(b) => {
                assert!(b == 1 || b == 2);
                bosses.insert(b);
            }
            other => panic!("unexpected room {:?}", other),
        }
    }
    assert_eq!(bosses.len(), 2);
}

#[test]
fn rebuilt_queue_has_normal_rooms_then_boss() {
    let mut mgr = AssetsManager::new();
    load_room2(&mut mgr, 4);
    assert!(mgr.map_assets.is_empty());
    mgr.reload_map = true;
    mgr.map_spawned = true;
    load_room2(&mut mgr, 4);
    assert_eq!(mgr.map_assets.len(), 4);
    for m in &mgr.map_assets[..3] {
        match m.name {
            MapName::Normal(n) => assert!((1..=8).contains(&n)),
            other => panic!("unexpected room {:?}", other),
        }
    }
    assert_eq!(mgr.map_assets[3].name, MapName::Boss(2));
    assert!(!mgr.reload_map);
    assert!(mgr.map_spawned);
    assert_eq!(mgr.map_index, 0);
}

#[test]
fn cycling_a_queue_of_n_rooms_returns_to_start() {
    let mut mgr = AssetsManager::new();
    for n in 1..=5u8 {
        mgr.add_map(MapInfos::new(MapName::Normal(n)));
    }
    let mut built = Vec::new();
    for _ in 0..5 {
        built.push(mgr.cycle_map().spawn);
    }
    assert_eq!(mgr.map_index, 0);
    assert_eq!(built, (1..=5u8).map(MapName::Normal).collect::<Vec<_>>());
}

#[test]
fn survival_clock_rolls_seconds_into_minutes() {
    let mut s = ScoreResource::init();
    s.handle_timer(NANOS_PER_SECOND / 2);
    assert_eq!(s.time_sec, 0);
    s.handle_timer(NANOS_PER_SECOND / 2);
    assert_eq!(s.time_sec, 1);
    assert_eq!(s.timer.elapsed_ns, 0);
    s.time_sec = 59;
    s.handle_timer(NANOS_PER_SECOND);
    assert_eq!(s.time_min, 1);
    assert_eq!(s.time_sec, 0);
}

#[test]
fn score_counts_kills_and_rooms() {
    let mut s = ScoreResource::init();
    s.handle_score(3, 1);
    s.handle_score(2, 0);
    assert_eq!(s.enemy_score, 5);
    assert_eq!(s.boss_score, 1);
    s.room_cleared();
    s.room_cleared();
    assert_eq!(s.map_index, 2);
    assert_eq!(s.time_sec, 0);
}

#[test]
fn stopwatch_saturates() {
    let mut sw = Stopwatch::new();
    sw.tick(5);
    sw.tick(7);
    assert_eq!(sw.elapsed(), 12);
    sw.tick(u64::MAX);
    assert_eq!(sw.elapsed(), u64::MAX);
    sw.reset();
    assert_eq!(sw.elapsed(), 0);
}

#[test]
fn room_check_unlocks_door_and_chests_once_cleared() {
    let mut points = vec![wave(0, true)];
    let mut door = Door(0);
    let mut chests = vec![Chest(1), Chest(2), Chest(0)];
    let mut sounded = false;
    let mut score = ScoreResource::init();
    score.map_index = 3;
    let r = check_ifcomplete(&mut points, &mut door, &mut chests, &mut sounded, &mut score, view(true, false, 0));
    assert!(!r.cleared && !r.play_sound && !r.leave);
    assert_eq!(door, Door(0));
    assert_eq!(chests, vec![Chest(1), Chest(2), Chest(0)]);
    assert!(!sounded);
    let r = check_ifcomplete(&mut points, &mut door, &mut chests, &mut sounded, &mut score, view(false, false, 0));
    assert!(r.cleared && r.play_sound && !r.leave);
    assert_eq!(door, Door(1));
    assert_eq!(chests, vec![Chest(3), Chest(4), Chest(0)]);
    assert!(sounded);
    assert_eq!(score.map_index, 3);
}

#[test]
fn clearing_sound_plays_once_over_many_checks() {
    let mut points: Vec<SpawnPoint> = Vec::new();
    let mut door = Door(0);
    let mut chests = Vec::new();
    let mut sounded = false;
    let mut score = ScoreResource::init();
    let mut plays = 0;
    for k in 0..10 {
        let r = check_ifcomplete(&mut points, &mut door, &mut chests, &mut sounded, &mut score, view(k % 3 == 0, false, 0));
        if r.play_sound {
            plays += 1;
        }
    }
    assert_eq!(plays, 1);
    let mut parkour = false;
    score.controller_mode = true;
    let r = check_ifcomplete(&mut points, &mut door, &mut chests, &mut parkour, &mut score, view(false, false, 0));
    assert!(r.cleared && !r.play_sound && !parkour);
}

#[test]
fn leaving_a_cleared_room_moves_the_room_counter() {
    let mut points: Vec<SpawnPoint> = Vec::new();
    let mut door = Door(3);
    let mut chests = Vec::new();
    let mut sounded = true;
    let mut score = ScoreResource::init();
    score.map_index = 4;
    let mut v = view(false, false, 0);
    v.near_door = true;
    v.use_pressed = true;
    let r = check_ifcomplete(&mut points, &mut door, &mut chests, &mut sounded, &mut score, v);
    assert!(r.leave);
    assert_eq!(score.map_index, 5);
    v.transition_running = true;
    let r = check_ifcomplete(&mut points, &mut door, &mut chests, &mut sounded, &mut score, v);
    assert!(!r.leave);
    assert_eq!(score.map_index, 5);
    v.transition_running = false;
    v.enemies_alive = true;
    let r = check_ifcomplete(&mut points, &mut door, &mut chests, &mut sounded, &mut score, v);
    assert!(!r.leave);
    assert_eq!(score.map_index, 5);
}

#[test]
fn chest_waits_for_a_window_before_the_reward_menu() {
    let mut c = Chest(5);
    let mut frame = 33usize;
    assert!(!animate_chest(&mut c, &mut frame, false, false, true, false));
    assert_eq!(c, Chest(5));
    assert_eq!(frame, 33);
    assert!(animate_chest(&mut c, &mut frame, false, false, true, true));
    assert_eq!(c, Chest(7));
}

#[test]
fn queue_follows_the_layout_draws() {
    let mut mgr = AssetsManager::new();
    mgr.map_spawned = true;
    mgr.reload_map = true;
    queue_for_draws(&mut mgr, &vec![8, 3, 5], 2);
    let names: Vec<MapName> = mgr.map_assets.iter().map(|m| m.name).collect();
    assert_eq!(names, vec![MapName::Normal(8), MapName::Normal(3), MapName::Normal(5), MapName::Boss(2)]);
    assert!(mgr.map_spawned);
    assert!(!mgr.reload_map);
    assert_eq!(mgr.map_index, 0);
}

#[test]
fn rebuilt_queue_uses_all_eight_layouts() {
    let mut mgr = AssetsManager::new();
    let mut seen = std::collections::HashSet::new();
    for _ in 0..100 {
        mgr.reload_map = true;
        load_room2(&mut mgr, 9);
        assert_eq!(mgr.map_assets.len(), 9);
        for m in &mgr.map_assets[..8] {
            if let MapName::Normal(n) = m.name {
                seen.insert(n);
            }
        }
    }
    assert_eq!(seen.len(), 8);
}

#[test]
fn too_few_rooms_queue_only_the_boss() {
    for rooms in [1, 0, -3] {
        let mut mgr = AssetsManager::new();
        mgr.reload_map = true;
        load_room2(&mut mgr, rooms);
        let names: Vec<MapName> = mgr.map_assets.iter().map(|m| m.name).collect();
        assert_eq!(names, vec![MapName::Boss(2)]);
    }
}

#[test]
fn room_objects_build_what_they_stand_for() {
    let waves = wave(2, false);
    let s = object_setup(MapObject::Enemy, waves);
    assert_eq!(s.spawn_point, Some(waves));
    assert!(!s.boss && !s.chest && !s.move_player);
    let r = object_setup(MapObject::RepeatingEnemy, waves).spawn_point.unwrap();
    assert!(r.born.0);
    assert_eq!(r.term.0, 10);
    assert!(object_setup(MapObject::Player, waves).move_player);
    assert!(object_setup(MapObject::Boss, waves).boss);
    assert_eq!(object_setup(MapObject::Base, waves).base, Some(Progress(1)));
    assert_eq!(object_setup(MapObject::Door, waves).door, Some(Door(0)));
    assert!(object_setup(MapObject::Chest, waves).chest);
    let nothing = object_setup(MapObject::Other, waves);
    assert_eq!(nothing, object_setup(MapObject::Parkour, waves));
    assert!(!nothing.move_player && nothing.spawn_point.is_none() && !nothing.boss && nothing.base.is_none());
    assert!(nothing.door.is_none() && !nothing.chest);
}

#[test]
fn parkour_marker_sets_controller_mode() {
    assert!(controller_mode(&vec![MapObject::Player, MapObject::Parkour, MapObject::Door]));
    assert!(!controller_mode(&vec![MapObject::Player, MapObject::Door]));
    assert!(!controller_mode(&vec![]));
}
