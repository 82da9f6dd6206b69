use demo::buff::{handle_choosingbuffmenu, offers_from_draws, roll_offers, Buff, Reward, BEST_CHEST_OFFERS, CHEST_OFFERS};
use demo::clock::{Stopwatch, NANOS_PER_MILLI, NANOS_PER_SECOND};
use demo::gun::{
    animate_arisu_bullet, animate_arisu_gun, arisu_charge, despawn_old_bullets, fan_slot, fan_slots,
    handle_gun_fire, handle_utaha_attack, ArisuSPDamage, BulletContact, GunInput, GunParts, GunState, MAX_CHARGE,
};

#[test]
fn levels_start_at_one_and_level_counts_upgrades() {
    let b = Buff::default();
    assert_eq!(b, Buff(1, 1, 1, 1, 1, 1, 1, 1));
    assert_eq!(b.sum(), 8);
    assert_eq!(b.level(), 0);
    let c = Buff(3, 2, 1, 1, 3, 1, 2, 1);
    assert_eq!(c.sum(), 14);
    assert_eq!(c.level(), 6);
}

#[test]
fn best_chest_offers_five_upgrades() {
    let mut b = Buff::default();
    assert_eq!(handle_choosingbuffmenu(&mut b, 0, 0), Reward::Upgrade);
    assert_eq!(b, Buff(3, 1, 1, 1, 1, 1, 1, 1));
    assert_eq!(handle_choosingbuffmenu(&mut b, 0, 1), Reward::Upgrade);
    assert_eq!(b, Buff(3, 1, 1, 1, 3, 1, 1, 1));
    assert_eq!(handle_choosingbuffmenu(&mut b, 0, 2), Reward::Upgrade);
    assert_eq!(b, Buff(3, 2, 1, 1, 3, 1, 1, 1));
    assert_eq!(handle_choosingbuffmenu(&mut b, 0, 3), Reward::Upgrade);
    assert_eq!(b, Buff(3, 2, 1, 1, 3, 1, 2, 1));
    assert_eq!(handle_choosingbuffmenu(&mut b, 0, 4), Reward::Upgrade);
    assert_eq!(b, Buff(3, 2, 1, 1, 3, 1, 2, 2));
    assert_eq!(handle_choosingbuffmenu(&mut b, 0, 5), Reward::Nothing);
    assert_eq!(b, Buff(3, 2, 1, 1, 3, 1, 2, 2));
}

#[test]
fn big_chest_offers_three_and_small_heals() {
    let mut b = Buff::default();
    assert_eq!(handle_choosingbuffmenu(&mut b, 1, 3), Reward::Nothing);
    assert_eq!(handle_choosingbuffmenu(&mut b, 1, 4), Reward::Nothing);
    assert_eq!(b, Buff::default());
    assert_eq!(handle_choosingbuffmenu(&mut b, 1, 2), Reward::Upgrade);
    assert_eq!(b.1, 2);
    let before = b;
    assert_eq!(handle_choosingbuffmenu(&mut b, 2, 0), Reward::Heal);
    assert_eq!(handle_choosingbuffmenu(&mut b, 2, 2), Reward::Heal);
    assert_eq!(handle_choosingbuffmenu(&mut b, 2, 3), Reward::Nothing);
    assert_eq!(handle_choosingbuffmenu(&mut b, 7, 0), Reward::Nothing);
    assert_eq!(b, before);
}

#[test]
fn reward_menu_shows_three_different_offers() {
    for kinds in [CHEST_OFFERS, BEST_CHEST_OFFERS] {
        let mut seen = std::collections::HashSet::new();
        for _ in 0..200 {
            let offers = roll_offers(kinds);
            assert_eq!(offers.len(), 3);
            assert!(offers.iter().all(|&o| o < kinds));
            assert!(offers[0] != offers[1] && offers[1] != offers[2] && offers[0] != offers[2]);
            seen.insert(offers);
        }
        assert!(seen.len() > 1);
    }
}

#[test]
fn charge_starts_grows_and_releases() {
    let mut state = GunState::Normal;
    let mut frame = 5usize;
    let mut charge = ArisuSPDamage(0);
    let c = arisu_charge(&mut state, &mut frame, &mut charge, true, false, false);
    assert!(c.consumed && !c.started && !c.reset_timer);
    assert_eq!(state, GunState::Normal);
    let c = arisu_charge(&mut state, &mut frame, &mut charge, true, false, true);
    assert!(c.started && c.reset_timer && c.consumed);
    assert_eq!((state, frame, charge), (GunState::SP, 0, ArisuSPDamage(1)));
    arisu_charge(&mut state, &mut frame, &mut charge, true, false, true);
    assert_eq!(charge, ArisuSPDamage(1));
    frame = 10;
    arisu_charge(&mut state, &mut frame, &mut charge, true, false, true);
    assert_eq!(charge, ArisuSPDamage(2));
    charge = ArisuSPDamage(MAX_CHARGE);
    arisu_charge(&mut state, &mut frame, &mut charge, true, false, true);
    assert_eq!(charge, ArisuSPDamage(MAX_CHARGE));
    let c = arisu_charge(&mut state, &mut frame, &mut charge, false, true, false);
    assert!(c.released && c.consumed);
    assert_eq!(frame, 18);
    let mut idle = GunState::Normal;
    let mut f2 = 3usize;
    let c = arisu_charge(&mut idle, &mut f2, &mut charge, false, true, true);
    assert!(c.consumed && !c.released);
    assert_eq!(f2, 3);
    let c = arisu_charge(&mut idle, &mut f2, &mut charge, false, false, true);
    assert!(!c.consumed);
}

const INTERVAL: u64 = 100 * NANOS_PER_MILLI;

fn gun(state: GunState) -> GunParts {
    GunParts {
        state,
        frame: 0,
        charge: ArisuSPDamage(1),
        gun_timer: Stopwatch::new(),
        skill_timer: Stopwatch::new(),
    }
}

fn input(id: u8, trigger_held: bool, delta_ns: u64) -> GunInput {
    GunInput {
        id,
        charge_held: false,
        charge_released: false,
        trigger_held,
        delta_ns,
        skill_cd_ns: 10 * NANOS_PER_SECOND,
        interval_ns: INTERVAL,
    }
}

#[test]
fn trigger_fires_volleys_for_shiroko_and_arisu() {
    let mut g = gun(GunState::Normal);
    let f = handle_gun_fire(&mut g, input(1, true, INTERVAL));
    assert!(f.trigger.volley && !f.trigger.firing_sheet);
    assert_eq!(g.state, GunState::Normal);
    assert_eq!(g.gun_timer.elapsed_ns, 0);
    let f = handle_gun_fire(&mut g, input(2, true, INTERVAL));
    assert!(f.trigger.volley && f.trigger.firing_sheet);
    assert_eq!(g.state, GunState::Fire);
    let mut sp = gun(GunState::SP);
    let f = handle_gun_fire(&mut sp, input(2, true, INTERVAL));
    assert!(f.trigger.volley && !f.trigger.firing_sheet);
    assert_eq!(sp.state, GunState::SP);
    let mut s = gun(GunState::Normal);
    assert!(!handle_gun_fire(&mut s, input(3, true, INTERVAL)).trigger.volley);
    assert_eq!(s, gun(GunState::Normal));
    let f = handle_gun_fire(&mut s, input(1, true, INTERVAL / 2));
    assert!(!f.trigger.volley);
    assert_eq!(s.gun_timer.elapsed_ns, INTERVAL / 2);
    let f = handle_gun_fire(&mut s, input(1, false, INTERVAL));
    assert!(!f.trigger.volley);
    assert_eq!(s.gun_timer.elapsed_ns, INTERVAL / 2 + INTERVAL);
    let f = handle_gun_fire(&mut s, input(1, true, 0));
    assert!(f.trigger.volley);
    assert_eq!(s.gun_timer.elapsed_ns, 0);
}

#[test]
fn arisu_charge_takes_the_frame_in_the_firing_step() {
    let mut g = gun(GunState::Normal);
    let mut i = input(2, true, NANOS_PER_SECOND);
    i.charge_held = true;
    let f = handle_gun_fire(&mut g, i);
    assert!(f.charge.consumed && !f.charge.started && !f.trigger.volley);
    assert_eq!(g.skill_timer.elapsed_ns, NANOS_PER_SECOND);
    assert_eq!(g.gun_timer.elapsed_ns, 0);
    g.skill_timer = Stopwatch { elapsed_ns: 10 * NANOS_PER_SECOND };
    g.charge = ArisuSPDamage(57);
    let f = handle_gun_fire(&mut g, i);
    assert!(f.charge.started && !f.trigger.volley);
    assert_eq!((g.state, g.frame, g.charge), (GunState::SP, 0, ArisuSPDamage(1)));
    assert_eq!(g.skill_timer.elapsed_ns, 0);
    g.skill_timer = Stopwatch { elapsed_ns: 10 * NANOS_PER_SECOND };
    g.frame = 11;
    handle_gun_fire(&mut g, i);
    assert_eq!(g.charge, ArisuSPDamage(2));
    g.skill_timer = Stopwatch { elapsed_ns: 10 * NANOS_PER_SECOND };
    g.frame = 13;
    handle_gun_fire(&mut g, i);
    assert_eq!(g.charge, ArisuSPDamage(2));
    i.charge_held = false;
    i.charge_released = true;
    let f = handle_gun_fire(&mut g, i);
    assert!(f.charge.released && !f.trigger.volley);
    assert_eq!(g.frame, 18);
    let mut shiroko = gun(GunState::Normal);
    let mut j = input(1, true, INTERVAL);
    j.charge_held = true;
    let f = handle_gun_fire(&mut shiroko, j);
    assert!(!f.charge.consumed && f.trigger.volley);
    assert_eq!(shiroko.skill_timer.elapsed_ns, 0);
}

#[test]
fn reward_offers_follow_the_draws() {
    assert_eq!(offers_from_draws(5, &vec![4, 4, 1, 0, 3]), vec![4, 1, 0]);
    assert_eq!(offers_from_draws(5, &vec![3, 4, 3]), vec![3, 4, 0]);
    assert_eq!(offers_from_draws(3, &vec![2]), vec![2, 0, 1]);
    assert_eq!(offers_from_draws(3, &vec![]), vec![0, 1, 2]);
}

#[test]
fn best_chest_offers_every_upgrade() {
    let mut seen = std::collections::HashSet::new();
    for _ in 0..300 {
        for o in roll_offers(BEST_CHEST_OFFERS) {
            seen.insert(o);
        }
    }
    assert_eq!(seen.len(), 5);
}

#[test]
fn utaha_swings_from_rest() {
    let mut s = GunState::Normal;
    assert_eq!(handle_utaha_attack(&mut s, true, true), (true, true));
    assert_eq!(s, GunState::Fire);
    assert_eq!(handle_utaha_attack(&mut s, true, true), (true, false));
    assert_eq!(handle_utaha_attack(&mut s, true, false), (false, false));
}

#[test]
fn volley_fans_out_alternately() {
    assert_eq!(fan_slots(5), vec![0, -1, 1, -2, 2]);
    assert_eq!(fan_slots(0), Vec::<i8>::new());
    assert_eq!(fan_slots(-3), Vec::<i8>::new());
    assert_eq!(fan_slot(127), -64);
    assert_eq!(fan_slot(126), 63);
    let all = fan_slots(127);
    let distinct: std::collections::HashSet<i8> = all.iter().copied().collect();
    assert_eq!(distinct.len(), 127);
}

#[test]
fn arisu_gun_shot_and_charge_animation() {
    let mut s = GunState::Fire;
    let mut f = 0usize;
    let mut steps = 0;
    loop {
        let g = animate_arisu_gun(&mut s, f);
        steps += 1;
        f = g.frame;
        if g.rest {
            break;
        }
    }
    assert_eq!(steps, 8);
    assert_eq!(s, GunState::Normal);
    let mut sp = GunState::SP;
    let mut f = 0usize;
    for _ in 0..40 {
        f = animate_arisu_gun(&mut sp, f).frame;
        assert!(f <= 12);
    }
    assert_eq!(sp, GunState::SP);
    let g = animate_arisu_gun(&mut sp, 24);
    assert!(g.rest);
    assert_eq!(sp, GunState::Normal);
    let g = animate_arisu_gun(&mut sp, 4);
    assert_eq!(g.frame, 4);
}

#[test]
fn bullets_loop_and_stop() {
    assert_eq!(animate_arisu_bullet(7, true), 0);
    assert_eq!(animate_arisu_bullet(3, false), 0);
    assert_eq!(animate_arisu_bullet(2, false), 3);
    assert!(!despawn_old_bullets(BulletContact::Player, 1, false));
    assert!(!despawn_old_bullets(BulletContact::PlayerBullet, 2, false));
    assert!(despawn_old_bullets(BulletContact::EnemyBullet, 1, false));
    assert!(!despawn_old_bullets(BulletContact::EnemyBullet, 2, false));
    assert!(despawn_old_bullets(BulletContact::Enemy, 2, false));
    assert!(!despawn_old_bullets(BulletContact::Enemy, 2, true));
    assert!(despawn_old_bullets(BulletContact::Other, 2, true));
}
