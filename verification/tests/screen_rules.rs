use demo::animation::{
    animate_droneskill, animate_enemy_born, animate_gunfire, cycle_frame, drone_firing, enemyboss_death_effect,
};
use demo::audio::{
    audio_fire, audio_play_ingame, door_sound, hurt_voice, player_hurt, player_run, player_skill2, player_skill3,
    player_skill4, skill2_sounds, Sound,
};
use demo::clock::{Stopwatch, NANOS_PER_MILLI};
use demo::gamestate::{
    handle_gameovermenu, handle_home_menu, handle_ingame_menu, handle_main_menu_buttons, handle_player_death,
    handle_player_messages, handle_soramenu, pause_menu_action, reload_button_change, reload_skill_panel, skill_panel,
    statetransition, ButtonLook, SkillEntry,
    GameState, HomeState, InGameState, Interaction, MenuAction, MenuButton, PauseMenuKind, PlayerMessageState,
    ReloadingState, SlideAction, SlidePhase,
};
use demo::home::{animate_fridge, animate_sora, check_state, FridgeState, HomeSheet, SoraState};
use demo::resources::{character_files, character_sheets, SheetGrid};

#[test]
fn screens_start_where_the_game_starts() {
    assert_eq!(GameState::default(), GameState::MainMenu);
    assert_eq!(HomeState::default(), HomeState::Running);
    assert_eq!(ReloadingState::default(), ReloadingState::Settings);
    assert_eq!(PlayerMessageState::default(), PlayerMessageState::Shiroko);
    assert_eq!(InGameState::default(), InGameState::Running);
}

#[test]
fn escape_toggles_pause() {
    assert_eq!(handle_home_menu(HomeState::Running), (HomeState::Pause, true));
    assert_eq!(handle_home_menu(HomeState::Pause), (HomeState::Running, false));
    assert_eq!(handle_home_menu(HomeState::Reloading), (HomeState::Running, false));
    assert_eq!(handle_ingame_menu(InGameState::Running), (InGameState::Pause, Some(true)));
    assert_eq!(handle_ingame_menu(InGameState::Pause), (InGameState::Running, Some(false)));
    assert_eq!(handle_ingame_menu(InGameState::ChoosingBuff), (InGameState::ChoosingBuff, None));
    assert_eq!(handle_ingame_menu(InGameState::GameOver), (InGameState::GameOver, None));
}

#[test]
fn title_screen_waits_for_a_key() {
    assert!(handle_main_menu_buttons(true, false));
    assert!(!handle_main_menu_buttons(true, true));
    assert!(!handle_main_menu_buttons(false, false));
}

#[test]
fn slide_from_title_to_lobby() {
    let mut pending = GameState::Home;
    let a = statetransition(GameState::MainMenu, &mut pending, SlidePhase::Switch);
    assert_eq!(a, SlideAction { next: Some(GameState::Home), next_room: false, leave_run: false });
    assert_eq!(pending, GameState::Home);
    let a = statetransition(GameState::MainMenu, &mut pending, SlidePhase::Elsewhere);
    assert_eq!(a.next, None);
}

#[test]
fn slide_from_lobby_into_a_run_and_back() {
    let mut pending = GameState::Loading;
    let a = statetransition(GameState::Home, &mut pending, SlidePhase::Switch);
    assert_eq!(a, SlideAction { next: Some(GameState::Loading), next_room: true, leave_run: false });
    assert_eq!(pending, GameState::NoScreen);
    let a = statetransition(GameState::Home, &mut pending, SlidePhase::Switch);
    assert_eq!(a.next, None);
    let mut p2 = GameState::Stop;
    let a = statetransition(GameState::Loading, &mut p2, SlidePhase::LoadDone);
    assert_eq!(a.next, Some(GameState::InGame));
    let mut home = GameState::Home;
    let a = statetransition(GameState::InGame, &mut home, SlidePhase::Switch);
    assert_eq!(a, SlideAction { next: Some(GameState::Home), next_room: false, leave_run: true });
    assert_eq!(home, GameState::NoScreen);
    let mut next = GameState::Loading;
    let a = statetransition(GameState::InGame, &mut next, SlidePhase::Switch);
    assert!(a.next_room && !a.leave_run);
    let mut title = GameState::MainMenu;
    let a = statetransition(GameState::InGame, &mut title, SlidePhase::Switch);
    assert_eq!(a.next, Some(GameState::MainMenu));
    assert!(a.leave_run);
    let mut odd = GameState::OverMenu;
    let a = statetransition(GameState::Home, &mut odd, SlidePhase::Switch);
    assert_eq!(a.next, Some(GameState::MainMenu));
    assert_eq!(odd, GameState::NoScreen);
}

#[test]
fn pause_menu_buttons() {
    assert_eq!(
        pause_menu_action(PauseMenuKind::InGame, MenuButton::BackToHome),
        MenuAction { resume: true, travel: Some(GameState::Home), exit: false }
    );
    assert_eq!(
        pause_menu_action(PauseMenuKind::Home, MenuButton::BackToHome),
        MenuAction { resume: true, travel: None, exit: false }
    );
    assert_eq!(pause_menu_action(PauseMenuKind::Home, MenuButton::BackToMenu).travel, Some(GameState::MainMenu));
    assert!(pause_menu_action(PauseMenuKind::InGame, MenuButton::Exit).exit);
    assert!(pause_menu_action(PauseMenuKind::InGame, MenuButton::BackToGame).resume);
    assert_eq!(
        pause_menu_action(PauseMenuKind::InGame, MenuButton::Other),
        MenuAction { resume: false, travel: None, exit: false }
    );
    assert_eq!(handle_gameovermenu(MenuButton::BackToHome).travel, Some(GameState::Home));
    assert_eq!(handle_gameovermenu(MenuButton::Exit).travel, None);
}

#[test]
fn death_ends_the_run_unless_sliding() {
    assert!(handle_player_death(true, false));
    assert!(!handle_player_death(true, true));
    assert!(!handle_player_death(false, false));
}

#[test]
fn character_buttons() {
    assert_eq!(handle_player_messages(2, 1, Interaction::Pressed), (Some(2), None));
    assert_eq!(handle_player_messages(1, 1, Interaction::Pressed), (None, None));
    assert_eq!(handle_player_messages(3, 1, Interaction::Hovered), (None, Some(ButtonLook::Hover)));
    assert_eq!(handle_player_messages(1, 1, Interaction::Idle), (None, Some(ButtonLook::Selected)));
    assert_eq!(handle_player_messages(2, 1, Interaction::Idle), (None, Some(ButtonLook::Unselected)));
    assert_eq!(reload_button_change(3, 3), ButtonLook::Selected);
    assert_eq!(reload_button_change(1, 3), ButtonLook::Unselected);
    assert_eq!(handle_soramenu(true), Some(HomeState::Running));
    assert_eq!(handle_soramenu(false), None);
}

#[test]
fn lobby_fridge_starts_a_run() {
    let mut sora = SoraState::Loop;
    let mut fridge = FridgeState::Loop;
    let r = check_state(&mut sora, &mut fridge, true, true, true);
    assert_eq!(sora, SoraState::Awake);
    assert_eq!(fridge, FridgeState::Open);
    assert_eq!(r.sora_sheet, Some(HomeSheet::SoraAwake));
    assert_eq!(r.fridge_sheet, Some(HomeSheet::FridgeOpenClose));
    assert!(!r.start_run);
    let r = check_state(&mut sora, &mut fridge, true, true, false);
    assert!(!r.start_run);
    let r = check_state(&mut sora, &mut fridge, true, true, true);
    assert!(r.start_run);
    let r = check_state(&mut sora, &mut fridge, false, false, true);
    assert!(!r.start_run);
    assert_eq!(sora, SoraState::Asleep);
    assert_eq!(fridge, FridgeState::Close);
    assert_eq!(r.sora_sheet, Some(HomeSheet::SoraAsleep));
}

#[test]
fn sora_and_fridge_animations() {
    let mut s = SoraState::Loop;
    assert_eq!(animate_sora(&mut s, 7), (0, None));
    let mut a = SoraState::Awake;
    assert_eq!(animate_sora(&mut a, 13), (13, None));
    assert_eq!(animate_sora(&mut a, 12), (13, None));
    let mut z = SoraState::Asleep;
    assert_eq!(animate_sora(&mut z, 16), (17, None));
    assert_eq!(animate_sora(&mut z, 17), (0, Some(HomeSheet::SoraLoop)));
    assert_eq!(z, SoraState::Loop);
    let mut f = FridgeState::Loop;
    assert_eq!(animate_fridge(&mut f, 23), (0, None));
    let mut o = FridgeState::Open;
    assert_eq!(animate_fridge(&mut o, 6), (6, None));
    let mut c = FridgeState::Close;
    assert_eq!(animate_fridge(&mut c, 13), (0, Some(HomeSheet::FridgeLoop)));
    assert_eq!(c, FridgeState::Loop);
}

#[test]
fn shot_and_door_sounds() {
    assert_eq!(audio_fire(2, 0), Sound::ArisuGunFire);
    assert_eq!(audio_fire(3, 1), Sound::UtahaAttack);
    assert_eq!(audio_fire(3, 0), Sound::ShirokoGunFire);
    assert_eq!(audio_fire(1, 1), Sound::ShirokoGunFire);
    assert_eq!(door_sound(true, 3), Some(Sound::FridgeOpen));
    assert_eq!(door_sound(true, 4), Some(Sound::FridgeClose));
    assert_eq!(door_sound(true, 1), None);
    assert_eq!(door_sound(false, 1), Some(Sound::DoorOpen));
    assert_eq!(door_sound(false, 2), Some(Sound::DoorClose));
    assert_eq!(door_sound(false, 3), None);
}

#[test]
fn hurt_voice_speaks_a_third_of_the_time() {
    assert_eq!(hurt_voice(1, 5, 2), None);
    assert_eq!(hurt_voice(1, 6, 2), Some(Sound::ShirokoHurt(2)));
    assert_eq!(hurt_voice(2, 8, 0), Some(Sound::ArisuHurt(0)));
    assert_eq!(hurt_voice(3, 7, 1), Some(Sound::UtahaHurt(1)));
    let mut spoke = 0;
    for _ in 0..900 {
        match player_hurt(2) {
            Some(Sound::ArisuHurt(l)) => {
                assert!(l < 3);
                spoke += 1;
            }
            None => {}
            other => panic!("unexpected voice {:?}", other),
        }
    }
    assert!(spoke > 150 && spoke < 450);
}

#[test]
fn skill_sounds() {
    assert_eq!(skill2_sounds(1, 2), vec![Sound::ShirokoShout(2)]);
    assert_eq!(skill2_sounds(2, 0), vec![Sound::ArisuSkillTalk(1)]);
    assert_eq!(skill2_sounds(3, 0), vec![Sound::UtahaSkillTalk(0), Sound::UtahaSkill(0)]);
    assert_eq!(player_skill2(3), vec![Sound::UtahaSkillTalk(0), Sound::UtahaSkill(0)]);
    let mut shouts = std::collections::HashSet::new();
    for _ in 0..100 {
        match player_skill2(1).as_slice() {
            [Sound::ShirokoShout(n)] => {
                assert!(*n < 3);
                shouts.insert(*n);
            }
            other => panic!("unexpected sounds {:?}", other),
        }
    }
    assert!(shouts.len() > 1);
    assert_eq!(player_skill3(), Sound::ShirokoSkill(1));
    assert_eq!(player_skill4(1, false), vec![Sound::ShirokoSkill(2), Sound::ShirokoSkillTalk(2)]);
    assert_eq!(player_skill4(2, false), vec![Sound::ArisuSkillTalk(0), Sound::ArisuGunFireSpecial(0)]);
    assert_eq!(player_skill4(2, true), vec![Sound::ArisuGunFireSpecial(1)]);
    assert_eq!(player_skill4(1, true), Vec::<Sound>::new());
}

#[test]
fn run_music() {
    let mut started = false;
    assert_eq!(audio_play_ingame(&mut started, false, 1), Some(Sound::InGameBgm));
    assert!(started);
    assert_eq!(audio_play_ingame(&mut started, true, 0), Some(Sound::BossBgm));
    assert_eq!(audio_play_ingame(&mut started, true, 1), Some(Sound::InGameBgm));
    assert_eq!(audio_play_ingame(&mut started, true, 2), None);
    let mut fresh = false;
    assert_eq!(audio_play_ingame(&mut fresh, true, 0), Some(Sound::BossBgm));
}

#[test]
fn effect_animations() {
    assert_eq!(cycle_frame(3, 7), 4);
    assert_eq!(cycle_frame(6, 7), 0);
    assert_eq!(cycle_frame(20, 7), 0);
    assert_eq!(cycle_frame(5, 1), 0);
    assert_eq!(animate_enemy_born(10), (11, false));
    assert_eq!(animate_enemy_born(11), (0, true));
    assert_eq!(enemyboss_death_effect(6, 7), None);
    assert_eq!(enemyboss_death_effect(2, 7), Some(3));
    assert_eq!(animate_gunfire(3), (4, false));
    assert_eq!(animate_gunfire(4), (5, true));
    assert!(!drone_firing(0));
    assert!(drone_firing(3));
}

#[test]
fn drone_launches_four_pairs_then_leaves() {
    let mut frame = 0usize;
    let mut phase = 0i32;
    let mut launches = 0;
    let mut left = false;
    let mut frames = 0;
    for _ in 0..200 {
        frames += 1;
        let d = animate_droneskill(frame, phase);
        frame = d.frame;
        phase = d.phase;
        if d.launch {
            launches += 1;
        }
        if d.leave {
            left = true;
            break;
        }
    }
    assert!(left);
    assert_eq!(launches, 4);
    assert_eq!(phase, 8);
    assert_eq!(frames, 34);
    assert_eq!(frame, 6);
}

#[test]
fn character_sheet_sizes() {
    let s = character_sheets(1);
    assert_eq!(s.skill, SheetGrid { tile_w: 96, tile_h: 96, columns: 12, rows: 1 });
    assert_eq!(s.idle.columns, 6);
    let a = character_sheets(2);
    assert_eq!(a.gun_hit, SheetGrid { tile_w: 128, tile_h: 128, columns: 7, rows: 1 });
    assert_eq!(a.bullet.columns, 4);
    let u = character_sheets(3);
    assert_eq!(u.skill, SheetGrid { tile_w: 64, tile_h: 64, columns: 5, rows: 3 });
    assert_eq!(u.gun_hit, s.gun_hit);
    assert_eq!(character_sheets(9), s);
}

#[test]
fn footsteps_every_four_tenths_of_a_second() {
    let mut clock = Stopwatch::new();
    let mut steps = 0;
    for _ in 0..10 {
        if player_run(&mut clock, 100 * NANOS_PER_MILLI) {
            steps += 1;
            assert_eq!(clock.elapsed_ns, 0);
        }
    }
    assert_eq!(steps, 2);
    assert_eq!(clock.elapsed_ns, 200 * NANOS_PER_MILLI);
}

fn entries(owner: u8) -> Vec<SkillEntry> {
    (1..=4).map(|slot| SkillEntry { owner, slot }).collect()
}

#[test]
fn skill_panel_shows_the_chosen_characters_skills() {
    assert_eq!(skill_panel(1), entries(1));
    assert_eq!(skill_panel(2), entries(2));
    assert_eq!(skill_panel(3), entries(3));
    assert_eq!(skill_panel(0), entries(1));
    assert_eq!(skill_panel(9), entries(1));
}

#[test]
fn character_switch_reloads_the_skill_panel() {
    assert_eq!(reload_skill_panel(2), Some(entries(2)));
    assert_eq!(reload_skill_panel(3), Some(entries(3)));
    assert_eq!(reload_skill_panel(1), Some(entries(1)));
    assert_eq!(reload_skill_panel(0), None);
    assert_eq!(reload_skill_panel(4), None);
}

#[test]
fn character_files_follow_the_character() {
    let a = character_files(2);
    assert_eq!((a.movement, a.skill, a.gun_hit, a.bullet), ("Arisu_Move.png", "Arisu_Shield.png", "Arisu_Hit_Effect.png", "Arisu_Projectile.png"));
    let u = character_files(3);
    assert_eq!((u.idle, u.skill, u.gun), ("Utaha_Idle.png", "Utaha_Secondary.png", "Utaha_Weapon.png"));
    assert_eq!((u.gun_hit, u.gun_fire_effect, u.bullet), ("Shiroko_Hit_Effect.png", "Shiroko_Gun_Fire_Effect.png", "Shiroko_Projectile.png"));
    let s = character_files(1);
    assert_eq!((s.movement, s.jump, s.skill, s.gun), ("Shiroko_Move.png", "Shiroko_Jump.png", "Shiroko_Dash.png", "Shiroko_Gun.png"));
    let other = character_files(7);
    assert_eq!((other.movement, other.skill, other.gun_hit), ("Shiroko_Move.png", "Shiroko_Dash.png", "Shiroko_Hit_Effect.png"));
}
