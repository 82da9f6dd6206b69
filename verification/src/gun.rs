use vstd::prelude::*;
use crate::animation::{cycle_frame, looped};
use crate::clock::Stopwatch;

verus! {

/// What the player's weapon is doing; `SP` is Arisu's charged sword shot.
#[derive(Clone, Copy, Debug, PartialEq, Eq, Structural)]
pub enum GunState {
    Normal,
    Fire,
    SP,
}

/// How long Arisu has charged her sword shot, from 1 up to 120.
#[derive(Clone, Copy, Debug, PartialEq, Eq, Structural)]
pub struct ArisuSPDamage(pub i8);

/// Longest charge of Arisu's sword shot.
pub const MAX_CHARGE: i8 = 120;

/// The weapon's animation sheets.
#[derive(Clone, Copy, Debug, PartialEq, Eq, Structural)]
pub enum GunSheet {
    Rest,
    Firing,
    Charging,
    Attack,
}

/// What Arisu's charge handling decided this frame.
#[derive(Clone, Copy, Debug, PartialEq, Eq, Structural)]
pub struct ChargeStep {
    /// The charge key took over this frame: no ordinary shot is fired.
    pub consumed: bool,
    /// The skill cooldown timer restarts.
    pub reset_timer: bool,
    /// The charge begins: the charging sheet is shown from frame 0 and the
    /// skill event is sent.
    pub started: bool,
    /// The sword is released: the muzzle flash and the sword shot appear,
    /// and the release event is sent.
    pub released: bool,
}

/// Arisu's charged shot (left control): holding the key, once the cooldown
/// has run out, starts charging, and while the charge animation loops (frames
/// 9 to 12) each held frame adds one to the charge, up to 120; releasing the
/// key during a charge jumps to the release animation (frame 18).
pub open spec fn charge_spec(state: GunState, frame: usize, charge: i8, held: bool, released: bool, ready: bool)
    -> (GunState, usize, i8, ChargeStep)
{
    let none = ChargeStep { consumed: false, reset_timer: false, started: false, released: false };
    if held {
        if !ready {
            (state, frame, charge, ChargeStep { consumed: true, ..none })
        } else if state == GunState::SP {
            let c = if 8 < frame < 13 {
                if charge + 1 > MAX_CHARGE { MAX_CHARGE } else { (charge + 1) as i8 }
            } else {
                charge
            };
            (state, frame, c, ChargeStep { consumed: true, reset_timer: true, ..none })
        } else {
            (GunState::SP, 0, 1, ChargeStep { consumed: true, reset_timer: true, started: true, released: false })
        }
    } else if released {
        if state == GunState::SP {
            (state, 18, charge, ChargeStep { consumed: true, released: true, ..none })
        } else {
            (state, frame, charge, ChargeStep { consumed: true, ..none })
        }
    } else {
        (state, frame, charge, none)
    }
}

/// Arisu's charged shot; see `charge_spec`.
pub fn arisu_charge(state: &mut GunState, frame: &mut usize, charge: &mut ArisuSPDamage, held: bool, released: bool, ready: bool) -> (c: ChargeStep)
    requires
        held && ready && *old(state) == GunState::SP && 8 < *old(frame) < 13 ==> old(charge).0 < 127,
    ensures
        (*final(state), *final(frame), final(charge).0, c) == charge_spec(*old(state), *old(frame), old(charge).0, held, released, ready),
{
    let none = ChargeStep { consumed: false, reset_timer: false, started: false, released: false };
    if held {
        if !ready {
            ChargeStep { consumed: true, ..none }
        } else if *state == GunState::SP {
            if 8 < *frame && *frame < 13 {
                charge.0 = charge.0 + 1;
                if charge.0 > MAX_CHARGE {
                    charge.0 = MAX_CHARGE;
                }
            }
            ChargeStep { consumed: true, reset_timer: true, ..none }
        } else {
            *state = GunState::SP;
            charge.0 = 1;
            *frame = 0;
            ChargeStep { consumed: true, reset_timer: true, started: true, released: false }
        }
    } else if released {
        if *state == GunState::SP {
            *frame = 18;
            ChargeStep { consumed: true, released: true, ..none }
        } else {
            ChargeStep { consumed: true, ..none }
        }
    } else {
        none
    }
}

/// A charge that starts within bounds stays within 1 to 120.
pub proof fn lemma_charge_bounded(state: GunState, frame: usize, charge: i8, held: bool, released: bool, ready: bool)
    requires
        1 <= charge <= MAX_CHARGE,
    ensures
        1 <= charge_spec(state, frame, charge, held, released, ready).2 <= MAX_CHARGE,
{
}

/// What pulling the trigger does this frame.
#[derive(Clone, Copy, Debug, PartialEq, Eq, Structural)]
pub struct TriggerStep {
    /// The fire-rate timer restarts and a volley goes out (fire event,
    /// muzzle flash, bullets).
    pub volley: bool,
    /// Arisu's gun switches to its firing animation from frame 0.
    pub firing_sheet: bool,
}

/// The weapon of Shiroko or Arisu as one frame of firing sees it: its
/// state, its animation frame, Arisu's charge, the fire-rate timer and the
/// cooldown timer of Arisu's charged shot.
#[derive(Clone, Copy, Debug, PartialEq, Eq, Structural)]
pub struct GunParts {
    pub state: GunState,
    pub frame: usize,
    pub charge: ArisuSPDamage,
    pub gun_timer: Stopwatch,
    pub skill_timer: Stopwatch,
}

/// What one frame of firing is given.
#[derive(Clone, Copy, Debug, PartialEq, Eq, Structural)]
pub struct GunInput {
    /// The character: 1 Shiroko, 2 Arisu, 3 Utaha (who attacks otherwise).
    pub id: u8,
    /// The charge key (left control) is held, or was released this frame.
    pub charge_held: bool,
    pub charge_released: bool,
    /// The trigger (left mouse button) is held.
    pub trigger_held: bool,
    /// Time since the previous frame.
    pub delta_ns: u64,
    /// Cooldown of Arisu's charged shot.
    pub skill_cd_ns: u64,
    /// Time between two volleys at the current fire rate.
    pub interval_ns: u64,
}

/// What one frame of firing decided.
#[derive(Clone, Copy, Debug, PartialEq, Eq, Structural)]
pub struct FireStep {
    pub charge: ChargeStep,
    pub trigger: TriggerStep,
}

/// Whether the cooldown of Arisu's charged shot is over this frame.
pub open spec fn skill_ready(g: GunParts, i: GunInput) -> bool {
    g.skill_timer.ticked(i.delta_ns).elapsed_ns >= i.skill_cd_ns
}

/// The one input on which the charge would not fit its type: a charge of
/// 127 growing in the charge loop.
pub open spec fn charge_overflows(g: GunParts, i: GunInput) -> bool {
    i.id == 2 && i.charge_held && skill_ready(g, i) && g.state == GunState::SP && 8 < g.frame < 13 && g.charge.0 >= 127
}

/// One frame of firing. Utaha's weapon does nothing here. For Arisu the
/// cooldown timer ticks and the charge key is handled first (see
/// `charge_spec`; the cooldown timer restarts when the charge takes the
/// key); when the charge key took over, nothing else happens this frame.
/// Otherwise the fire-rate timer ticks, and while the trigger is held a
/// volley goes out each time it has run out, restarting it; Arisu's gun
/// then plays its firing animation unless she is charging.
pub open spec fn gun_step(g: GunParts, i: GunInput) -> (GunParts, FireStep) {
    let no_charge = ChargeStep { consumed: false, reset_timer: false, started: false, released: false };
    let no_shot = TriggerStep { volley: false, firing_sheet: false };
    if i.id == 3 {
        (g, FireStep { charge: no_charge, trigger: no_shot })
    } else {
        let ticked = g.skill_timer.ticked(i.delta_ns);
        let r = charge_spec(g.state, g.frame, g.charge.0, i.charge_held, i.charge_released, skill_ready(g, i));
        let g1 = if i.id == 2 {
            GunParts {
                state: r.0,
                frame: r.1,
                charge: ArisuSPDamage(r.2),
                skill_timer: if r.3.reset_timer { Stopwatch { elapsed_ns: 0 } } else { ticked },
                ..g
            }
        } else {
            g
        };
        let c = if i.id == 2 { r.3 } else { no_charge };
        if c.consumed {
            (g1, FireStep { charge: c, trigger: no_shot })
        } else {
            let t = g1.gun_timer.ticked(i.delta_ns);
            let volley = i.trigger_held && t.elapsed_ns >= i.interval_ns;
            let sheet = volley && i.id == 2 && g1.state != GunState::SP;
            (GunParts {
                gun_timer: if volley { Stopwatch { elapsed_ns: 0 } } else { t },
                state: if sheet { GunState::Fire } else { g1.state },
                ..g1
            }, FireStep { charge: c, trigger: TriggerStep { volley, firing_sheet: sheet } })
        }
    }
}

/// One frame of firing of Shiroko's or Arisu's weapon; see `gun_step`.
/// Arisu's charge stays within 1 to 120 when it starts there, grows by at
/// most one per frame and only in the charge loop (frames 9 to 12) while
/// the key is held after the cooldown, and starting a charge sets it to 1.
pub fn handle_gun_fire(g: &mut GunParts, i: GunInput) -> (f: FireStep)
    requires
        !charge_overflows(*old(g), i),
    ensures
        (*final(g), f) == gun_step(*old(g), i),
        i.id == 2 && 1 <= old(g).charge.0 <= MAX_CHARGE ==> 1 <= final(g).charge.0 <= MAX_CHARGE,
        final(g).charge.0 > old(g).charge.0 ==> {
            &&& i.id == 2 && i.charge_held && skill_ready(*old(g), i)
            &&& (old(g).state == GunState::SP && 8 < old(g).frame < 13 && final(g).charge.0 == old(g).charge.0 + 1
                || f.charge.started)
        },
        f.charge.started <==> (i.id == 2 && i.charge_held && skill_ready(*old(g), i) && old(g).state != GunState::SP),
        f.charge.started ==> final(g).charge.0 == 1 && final(g).state == GunState::SP && final(g).frame == 0,
{
    if i.id == 3 {
        return FireStep {
            charge: ChargeStep { consumed: false, reset_timer: false, started: false, released: false },
            trigger: TriggerStep { volley: false, firing_sheet: false },
        };
    }
    let mut c = ChargeStep { consumed: false, reset_timer: false, started: false, released: false };
    if i.id == 2 {
        g.skill_timer.tick(i.delta_ns);
        let ready = g.skill_timer.elapsed() >= i.skill_cd_ns;
        c = arisu_charge(&mut g.state, &mut g.frame, &mut g.charge, i.charge_held, i.charge_released, ready);
        if c.reset_timer {
            g.skill_timer.reset();
        }
    }
    if c.consumed {
        return FireStep { charge: c, trigger: TriggerStep { volley: false, firing_sheet: false } };
    }
    g.gun_timer.tick(i.delta_ns);
    let ready = g.gun_timer.elapsed() >= i.interval_ns;
    let t = trigger_step(&mut g.state, i.id, i.trigger_held, ready);
    if t.volley {
        g.gun_timer.reset();
    }
    FireStep { charge: c, trigger: t }
}

/// The ordinary trigger of Shiroko and Arisu: while held, a volley goes out
/// when the fire-rate timer has run out; Arisu's gun also plays its firing
/// animation unless she is charging.
fn trigger_step(state: &mut GunState, id: u8, held: bool, ready: bool) -> (t: TriggerStep)
    ensures
        t.volley == (id != 3 && held && ready),
        t.firing_sheet == (id == 2 && held && ready && *old(state) != GunState::SP),
        *final(state) == (if t.firing_sheet { GunState::Fire } else { *old(state) }),
{
    if id == 3 || !held || !ready {
        return TriggerStep { volley: false, firing_sheet: false };
    }
    if id == 2 && *state != GunState::SP {
        *state = GunState::Fire;
        TriggerStep { volley: true, firing_sheet: true }
    } else {
        TriggerStep { volley: true, firing_sheet: false }
    }
}

/// Utaha's attack (left mouse button): while held, each time the attack
/// timer has run out the timer restarts, and a resting weapon swings (attack
/// sheet, fire event). The boolean pair is: timer restarted, swing started.
pub fn handle_utaha_attack(state: &mut GunState, held: bool, ready: bool) -> (r: (bool, bool))
    ensures
        r.0 == (held && ready),
        r.1 == (held && ready && *old(state) == GunState::Normal),
        *final(state) == (if r.1 { GunState::Fire } else { *old(state) }),
{
    if !held || !ready {
        return (false, false);
    }
    if *state == GunState::Normal {
        *state = GunState::Fire;
        (true, true)
    } else {
        (true, false)
    }
}

/// The rotation slot of the `i`-th bullet of a volley, in steps of 15
/// degrees: the first bullet goes straight, then the others alternate
/// right and left, further out each pair: 0, -1, 1, -2, 2, ...
pub open spec fn fan_slot_spec(i: int) -> int {
    if i == 0 {
        0
    } else if i % 2 == 0 {
        (i + 1) / 2
    } else {
        -((i + 1) / 2)
    }
}

/// The rotation slot of the `i`-th bullet of a volley; see `fan_slot_spec`.
pub fn fan_slot(i: i8) -> (s: i8)
    requires
        i >= 0,
    ensures
        s == fan_slot_spec(i as int),
{
    if i == 0 {
        0
    } else if i % 2 == 0 {
        i / 2
    } else {
        -((((i as i16) + 1) / 2) as i8)
    }
}

/// The rotation slots of a whole volley of `count` bullets (none when the
/// count is not positive).
pub fn fan_slots(count: i8) -> (v: Vec<i8>)
    ensures
        v@.len() == (if count > 0 { count as int } else { 0 }),
        forall|i: int| 0 <= i < v@.len() ==> #[trigger] v@[i] == fan_slot_spec(i),
{
    let mut v: Vec<i8> = Vec::new();
    let mut i: i8 = 0;
    while i < count
        invariant
            0 <= i,
            count > 0 ==> i <= count,
            count <= 0 ==> i == 0,
            v@.len() == i,
            forall|j: int| 0 <= j < v@.len() ==> #[trigger] v@[j] == fan_slot_spec(j),
        decreases count - i,
    {
        v.push(fan_slot(i));
        i = i + 1;
    }
    v
}

/// No two bullets of a volley share a direction, and the volley is
/// balanced: bullet `2k` goes `k` slots one way and bullet `2k - 1` the same
/// number the other way.
pub proof fn lemma_fan_spread(i: int, j: int, k: int)
    requires
        0 <= i,
        0 <= j,
        i != j,
        k >= 1,
    ensures
        fan_slot_spec(i) != fan_slot_spec(j),
        fan_slot_spec(2 * k) == k,
        fan_slot_spec(2 * k - 1) == -k,
{
}

/// What advancing Arisu's weapon animation by one frame does.
#[derive(Clone, Copy, Debug, PartialEq, Eq, Structural)]
pub struct GunFrame {
    pub frame: usize,
    /// The weapon goes back to its resting sheet, frame 0.
    pub rest: bool,
}

/// Arisu's weapon animation: a shot plays 8 frames and rests; a charge
/// climbs to frame 12 and loops over frames 9 to 12 until released, the
/// release plays frames 18 to 24 and then rests.
pub open spec fn arisu_gun_frame_spec(state: GunState, frame: usize) -> (GunState, GunFrame) {
    match state {
        GunState::Fire => {
            let f = (frame + 1) as usize;
            if f == 8 {
                (GunState::Normal, GunFrame { frame: 0, rest: true })
            } else {
                (state, GunFrame { frame: f, rest: false })
            }
        },
        GunState::SP => {
            let f: usize = if frame <= 11 {
                (frame + 1) as usize
            } else if frame == 12 {
                9
            } else if 18 <= frame <= 24 {
                (frame + 1) as usize
            } else {
                0
            };
            if f == 25 {
                (GunState::Normal, GunFrame { frame: 0, rest: true })
            } else {
                (state, GunFrame { frame: f, rest: false })
            }
        },
        GunState::Normal => (state, GunFrame { frame, rest: false }),
    }
}

/// Advances Arisu's weapon animation by one frame; see
/// `arisu_gun_frame_spec`.
pub fn animate_arisu_gun(state: &mut GunState, frame: usize) -> (g: GunFrame)
    requires
        frame < usize::MAX,
    ensures
        (*final(state), g) == arisu_gun_frame_spec(*old(state), frame),
{
    match *state {
        GunState::Fire => {
            let f = frame + 1;
            if f == 8 {
                *state = GunState::Normal;
                GunFrame { frame: 0, rest: true }
            } else {
                GunFrame { frame: f, rest: false }
            }
        },
        GunState::SP => {
            let f = if frame <= 11 {
                frame + 1
            } else if frame == 12 {
                9
            } else if 18 <= frame && frame <= 24 {
                frame + 1
            } else {
                0
            };
            if f == 25 {
                *state = GunState::Normal;
                GunFrame { frame: 0, rest: true }
            } else {
                GunFrame { frame: f, rest: false }
            }
        },
        GunState::Normal => GunFrame { frame, rest: false },
    }
}

/// A charge never ends by itself: while the key is held the charge
/// animation stays within frames 0 to 12; only the release (frame 18)
/// leads to the end of the charge.
pub proof fn lemma_charge_loops_until_release(frame: usize)
    requires
        frame <= 12,
    ensures
        arisu_gun_frame_spec(GunState::SP, frame).0 == GunState::SP,
        arisu_gun_frame_spec(GunState::SP, frame).1.frame <= 12,
{
}

/// Advances the looping animation of a player projectile: Arisu's sword
/// shot has 8 frames, her ordinary bullets 4.
pub fn animate_arisu_bullet(frame: usize, sword: bool) -> (next: usize)
    ensures
        next == looped(frame, if sword { 8 } else { 4 }),
{
    let all: usize = if sword { 8 } else { 4 };
    cycle_frame(frame, all)
}

/// What a player projectile ran into.
#[derive(Clone, Copy, Debug, PartialEq, Eq, Structural)]
pub enum BulletContact {
    PlayerBullet,
    Player,
    EnemyBullet,
    Enemy,
    Other,
}

/// Whether a player projectile stops at what it hit: never at another player
/// projectile or the player; Arisu's projectiles pass through robot
/// projectiles, and her sword shot (`heavy`) also through robots.
pub fn despawn_old_bullets(other: BulletContact, id: u8, heavy: bool) -> (stops: bool)
    ensures
        stops == (other != BulletContact::PlayerBullet && other != BulletContact::Player
            && (id != 2 || (other != BulletContact::EnemyBullet && (!heavy || other != BulletContact::Enemy)))),
{
    if other == BulletContact::PlayerBullet || other == BulletContact::Player {
        false
    } else if id != 2 {
        true
    } else {
        other != BulletContact::EnemyBullet && (!heavy || other != BulletContact::Enemy)
    }
}

/// Arisu's charge key, for every input: held before the cooldown is over,
/// it only takes the frame; held after the cooldown it restarts the
/// cooldown and either starts a charge (from a resting or firing gun: state
/// SP, frame 0, charge 1) or, during a charge, adds one to the charge on
/// frames 9 to 12 of the charge loop, up to 120; released during a charge
/// it jumps to the release animation (frame 18); released otherwise it only
/// takes the frame; untouched it does nothing.
pub proof fn lemma_charge_key(state: GunState, frame: usize, charge: i8, held: bool, released: bool, ready: bool)
    requires
        charge < 127,
    ensures
        ({
            let (s, f, c, step) = charge_spec(state, frame, charge, held, released, ready);
            &&& held && !ready ==> s == state && f == frame && c == charge && step.consumed && !step.reset_timer
                && !step.started && !step.released
            &&& held && ready && state != GunState::SP ==> s == GunState::SP && f == 0 && c == 1 && step.consumed
                && step.reset_timer && step.started && !step.released
            &&& held && ready && state == GunState::SP ==> s == state && f == frame && step.consumed
                && step.reset_timer && !step.started && !step.released
                && c == (if 9 <= frame <= 12 { if charge >= 120 { 120 } else { charge + 1 } } else { charge as int })
            &&& !held && released && state == GunState::SP ==> s == state && f == 18 && c == charge && step.consumed
                && step.released && !step.reset_timer && !step.started
            &&& !held && released && state != GunState::SP ==> s == state && f == frame && c == charge
                && step.consumed && !step.released && !step.reset_timer && !step.started
            &&& !held && !released ==> s == state && f == frame && c == charge && !step.consumed
                && !step.released && !step.reset_timer && !step.started
        }),
{
}

/// Arisu's weapon animation: a shot plays frames 1 to 7 and rests on frame
/// 0 after the eighth; a charge climbs to frame 12 and then loops over
/// frames 9 to 12; the release plays frames 19 to 24 and rests after the
/// twenty-fifth; a resting gun keeps its frame.
pub proof fn lemma_arisu_gun_frames(state: GunState, frame: usize)
    requires
        frame < usize::MAX,
    ensures
        ({
            let (s, g) = arisu_gun_frame_spec(state, frame);
            &&& state == GunState::Fire && frame < 7 ==> s == GunState::Fire && g.frame == frame + 1 && !g.rest
            &&& state == GunState::Fire && frame == 7 ==> s == GunState::Normal && g.frame == 0 && g.rest
            &&& state == GunState::SP && frame <= 11 ==> s == GunState::SP && g.frame == frame + 1 && !g.rest
            &&& state == GunState::SP && frame == 12 ==> s == GunState::SP && g.frame == 9 && !g.rest
            &&& state == GunState::SP && 18 <= frame <= 23 ==> s == GunState::SP && g.frame == frame + 1 && !g.rest
            &&& state == GunState::SP && frame == 24 ==> s == GunState::Normal && g.frame == 0 && g.rest
            &&& state == GunState::Normal ==> s == state && g.frame == frame && !g.rest
        }),
{
}

/// One firing frame, for each character: Utaha's weapon is untouched;
/// Shiroko's charge key does nothing and her trigger fires whenever it is
/// held and the fire-rate timer, ticked by this frame, has reached the
/// interval; Arisu fires the same way unless her charge key took the frame,
/// and then her gun plays its firing animation unless she is charging.
/// A volley restarts the fire-rate timer.
pub proof fn lemma_firing_frame(g: GunParts, i: GunInput)
    ensures
        ({
            let (n, f) = gun_step(g, i);
            &&& i.id == 3 ==> n == g && !f.trigger.volley && !f.charge.consumed
            &&& i.id == 1 ==> !f.charge.consumed && !f.charge.started && n.charge == g.charge
                && n.skill_timer == g.skill_timer
            &&& (i.id == 1 || (i.id == 2 && !f.charge.consumed)) ==>
                (f.trigger.volley <==> (i.trigger_held && g.gun_timer.ticked(i.delta_ns).elapsed_ns >= i.interval_ns))
            &&& f.charge.consumed ==> !f.trigger.volley && n.gun_timer == g.gun_timer
            &&& f.trigger.volley ==> n.gun_timer.elapsed_ns == 0
            &&& f.trigger.firing_sheet <==> (f.trigger.volley && i.id == 2 && g.state != GunState::SP)
        }),
{
}

} // verus!
