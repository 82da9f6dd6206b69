use vstd::prelude::*;
use crate::clock::{Stopwatch, Timer, NANOS_PER_MILLI};
use crate::rng::random_in;
use crate::animation::{cycle_frame, looped};

verus! {

/// The pieces the boss is assembled from: the body and three weapon parts.
#[derive(Clone, Copy, Debug, PartialEq, Eq, Structural)]
pub enum Boss {
    Body,
    Gun,
    Missile,
    Shield,
}

/// What a boss piece is doing. `Idea` is the idle pose.
#[derive(Clone, Copy, Debug, PartialEq, Eq, Structural)]
pub enum BossState {
    Idea,
    CollideStart,
    CollideLoop,
    CollideEnd,
    Missilefire,
    Gunfire,
    Move,
}

/// A one-byte flag: on the body it marks a skill in progress, on a weapon
/// part a shot already fired during the current animation frame.
#[derive(Clone, Copy, Debug, PartialEq, Eq, Structural)]
pub struct Skillflag(pub u8);

/// The boss body: its state, animation frame, two stopwatches and skill flag.
#[derive(Clone, Copy, Debug, PartialEq, Eq, Structural)]
pub struct BossBody {
    pub state: BossState,
    pub frame: usize,
    pub timer: Timer,
    pub skill: Skillflag,
}

/// A weapon part mounted on the boss.
#[derive(Clone, Copy, Debug, PartialEq, Eq, Structural)]
pub struct BossPart {
    pub kind: Boss,
    pub state: BossState,
    pub frame: usize,
    pub timer: Timer,
    pub fire: Skillflag,
}

/// Which weapons the body orders to open fire during one step.
#[derive(Clone, Copy, Debug, PartialEq, Eq, Structural)]
pub enum WeaponOrder {
    Nothing,
    Guns,
    Missiles,
}

/// What one step of the boss brain asks of the engine.
#[derive(Clone, Copy, Debug, PartialEq, Eq, Structural)]
pub struct BossSkillOutcome {
    /// The weapon parts were ordered to fire.
    pub weapons: WeaponOrder,
    /// A charge starts: the charge direction is set to point at the player.
    pub aim: bool,
    /// The body moves along its charge direction this frame.
    pub charge: bool,
}

/// A projectile that a weapon part launches.
#[derive(Clone, Copy, Debug, PartialEq, Eq, Structural)]
pub enum BossShot {
    GunBullet,
    Missile,
}

/// Time the body waits between two decisions.
pub const SKILL_INTERVAL_NS: u64 = 300 * NANOS_PER_MILLI;

/// Minimum time a charge loop and a gun salvo last.
pub const SALVO_NS: u64 = 1000 * NANOS_PER_MILLI;

/// Rolls are drawn from `0..ROLL_RANGE`.
pub const ROLL_RANGE: u32 = 100;

/// What a decision roll means while the body stands idle.
#[derive(Clone, Copy, Debug, PartialEq, Eq, Structural)]
pub enum IdleChoice {
    Stay,
    Charge,
    Guns,
    Missiles,
}

/// Idle decision: 5% stay, 40% charge, 30% guns, 25% missiles.
pub open spec fn idle_choice(roll: u32) -> IdleChoice {
    if roll < 5 {
        IdleChoice::Stay
    } else if roll < 45 {
        IdleChoice::Charge
    } else if roll < 75 {
        IdleChoice::Guns
    } else {
        IdleChoice::Missiles
    }
}

/// The weapons an idle decision opens fire with.
pub open spec fn idle_weapons(c: IdleChoice) -> WeaponOrder {
    match c {
        IdleChoice::Guns => WeaponOrder::Guns,
        IdleChoice::Missiles => WeaponOrder::Missiles,
        _ => WeaponOrder::Nothing,
    }
}

/// Decision taken during a charge once the boss is enraged:
/// 15% nothing, 50% guns, 35% missiles.
pub open spec fn charging_weapons(roll: u32) -> WeaponOrder {
    if roll < 15 {
        WeaponOrder::Nothing
    } else if roll < 65 {
        WeaponOrder::Guns
    } else {
        WeaponOrder::Missiles
    }
}

pub open spec fn is_charging(s: BossState) -> bool {
    s == BossState::CollideStart || s == BossState::CollideLoop || s == BossState::CollideEnd
}

/// Whether a step of the body consumes a decision roll. The enraged boss
/// (at most half of its health left) decides more often and ignores its
/// skill flag.
pub open spec fn roll_due(body: BossBody, enraged: bool, delta_ns: u64) -> bool {
    let t1 = body.timer.timer1.ticked(delta_ns);
    if body.state == BossState::Idea {
        t1.elapsed_ns >= SKILL_INTERVAL_NS && body.frame == 3 && (enraged || body.skill.0 == 0)
    } else {
        enraged && is_charging(body.state) && t1.elapsed_ns >= SKILL_INTERVAL_NS
    }
}

pub open spec fn outcome(weapons: WeaponOrder, aim: bool, charge: bool) -> BossSkillOutcome {
    BossSkillOutcome { weapons, aim, charge }
}

pub open spec fn with_timer1(body: BossBody, t1: Stopwatch) -> BossBody {
    BossBody { timer: Timer { timer1: t1, timer2: body.timer.timer2 }, ..body }
}

/// One decision step of the boss body while it has more than half of its
/// health: the result is the new body and what the engine has to do.
pub open spec fn calm_step(body: BossBody, delta_ns: u64, roll: u32) -> (BossBody, BossSkillOutcome) {
    let nothing = outcome(WeaponOrder::Nothing, false, false);
    match body.state {
        BossState::Idea => {
            let t1 = body.timer.timer1.ticked(delta_ns);
            if t1.elapsed_ns >= SKILL_INTERVAL_NS && body.skill.0 == 0 && body.frame == 3 {
                let c = idle_choice(roll);
                let b = BossBody {
                    state: if c == IdleChoice::Charge { BossState::CollideStart } else { BossState::Idea },
                    frame: 0,
                    timer: Timer { timer1: Stopwatch { elapsed_ns: 0 }, timer2: body.timer.timer2 },
                    skill: if c == IdleChoice::Stay { body.skill } else { Skillflag(1) },
                };
                (b, outcome(idle_weapons(c), c == IdleChoice::Charge, false))
            } else {
                (with_timer1(body, t1), nothing)
            }
        },
        BossState::CollideStart => {
            let b = if body.frame == 9 {
                BossBody { state: BossState::CollideLoop, frame: 0, ..body }
            } else {
                body
            };
            (b, outcome(WeaponOrder::Nothing, false, true))
        },
        BossState::CollideLoop => {
            let t1 = body.timer.timer1.ticked(delta_ns);
            let b = if t1.elapsed_ns >= SALVO_NS && body.frame == 7 {
                BossBody {
                    state: BossState::CollideEnd,
                    frame: 0,
                    timer: Timer { timer1: Stopwatch { elapsed_ns: 0 }, timer2: body.timer.timer2 },
                    skill: body.skill,
                }
            } else {
                with_timer1(body, t1)
            };
            (b, outcome(WeaponOrder::Nothing, false, true))
        },
        BossState::CollideEnd => {
            let b = if body.frame == 1 {
                BossBody { state: BossState::Idea, frame: 0, skill: Skillflag(0), ..body }
            } else {
                BossBody { skill: Skillflag(0), ..body }
            };
            (b, outcome(WeaponOrder::Nothing, false, true))
        },
        _ => (body, nothing),
    }
}

/// The charge animation of the enraged boss, before its decision timer runs.
pub open spec fn enraged_charge_pose(body: BossBody, delta_ns: u64) -> BossBody {
    match body.state {
        BossState::CollideStart => if body.frame == 9 {
            BossBody { state: BossState::CollideLoop, frame: 0, ..body }
        } else {
            body
        },
        BossState::CollideLoop => {
            let t2 = body.timer.timer2.ticked(delta_ns);
            if t2.elapsed_ns >= SALVO_NS && body.frame == 7 {
                BossBody {
                    state: BossState::CollideEnd,
                    frame: 0,
                    timer: Timer { timer1: body.timer.timer1, timer2: Stopwatch { elapsed_ns: 0 } },
                    skill: body.skill,
                }
            } else {
                BossBody { timer: Timer { timer1: body.timer.timer1, timer2: t2 }, ..body }
            }
        },
        _ => if body.frame == 1 {
            BossBody { state: BossState::Idea, frame: 0, ..body }
        } else {
            body
        },
    }
}

/// One decision step of the boss body once it is down to half of its health
/// or less: it decides without waiting for its skill flag, and it keeps
/// firing while it charges.
pub open spec fn enraged_step(body: BossBody, delta_ns: u64, roll: u32) -> (BossBody, BossSkillOutcome) {
    let nothing = outcome(WeaponOrder::Nothing, false, false);
    if body.state == BossState::Idea {
        let t1 = body.timer.timer1.ticked(delta_ns);
        if t1.elapsed_ns >= SKILL_INTERVAL_NS && body.frame == 3 {
            let c = idle_choice(roll);
            let b = BossBody {
                state: if c == IdleChoice::Charge { BossState::CollideStart } else { BossState::Idea },
                frame: 0,
                timer: Timer { timer1: Stopwatch { elapsed_ns: 0 }, timer2: body.timer.timer2 },
                skill: body.skill,
            };
            (b, outcome(idle_weapons(c), c == IdleChoice::Charge, false))
        } else {
            (with_timer1(body, t1), nothing)
        }
    } else if is_charging(body.state) {
        let p = enraged_charge_pose(body, delta_ns);
        let t1 = p.timer.timer1.ticked(delta_ns);
        if t1.elapsed_ns >= SKILL_INTERVAL_NS {
            (with_timer1(p, Stopwatch { elapsed_ns: 0 }), outcome(charging_weapons(roll), false, true))
        } else {
            (with_timer1(p, t1), outcome(WeaponOrder::Nothing, false, true))
        }
    } else {
        (body, nothing)
    }
}

/// One step of the boss brain.
pub open spec fn skill_step(body: BossBody, enraged: bool, delta_ns: u64, roll: u32) -> (BossBody, BossSkillOutcome) {
    if enraged {
        enraged_step(body, delta_ns, roll)
    } else {
        calm_step(body, delta_ns, roll)
    }
}

/// A weapon part after the body's order: ordered guns (and the gun lid)
/// switch to firing and restart their animation, ordered missile pods
/// likewise; parts already firing are left alone.
pub open spec fn part_ordered(p: BossPart, w: WeaponOrder) -> BossPart {
    match w {
        WeaponOrder::Guns => if (p.kind == Boss::Gun || p.kind == Boss::Shield) && p.state != BossState::Gunfire {
            BossPart { state: BossState::Gunfire, frame: 0, ..p }
        } else {
            p
        },
        WeaponOrder::Missiles => if p.kind == Boss::Missile && p.state != BossState::Missilefire {
            BossPart { state: BossState::Missilefire, frame: 0, ..p }
        } else {
            p
        },
        WeaponOrder::Nothing => p,
    }
}

fn idle_choice_exec(roll: u32) -> (c: IdleChoice)
    ensures
        c == idle_choice(roll),
{
    if roll < 5 {
        IdleChoice::Stay
    } else if roll < 45 {
        IdleChoice::Charge
    } else if roll < 75 {
        IdleChoice::Guns
    } else {
        IdleChoice::Missiles
    }
}

fn idle_weapons_exec(c: IdleChoice) -> (w: WeaponOrder)
    ensures
        w == idle_weapons(c),
{
    match c {
        IdleChoice::Guns => WeaponOrder::Guns,
        IdleChoice::Missiles => WeaponOrder::Missiles,
        _ => WeaponOrder::Nothing,
    }
}

fn charging_weapons_exec(roll: u32) -> (w: WeaponOrder)
    ensures
        w == charging_weapons(roll),
{
    if roll < 15 {
        WeaponOrder::Nothing
    } else if roll < 65 {
        WeaponOrder::Guns
    } else {
        WeaponOrder::Missiles
    }
}

fn calm_step_exec(body: &mut BossBody, delta_ns: u64, roll: u32) -> (out: BossSkillOutcome)
    ensures
        (*final(body), out) == calm_step(*old(body), delta_ns, roll),
{
    let nothing = BossSkillOutcome { weapons: WeaponOrder::Nothing, aim: false, charge: false };
    match body.state {
        BossState::Idea => {
            body.timer.timer1.tick(delta_ns);
            if body.timer.timer1.elapsed() >= SKILL_INTERVAL_NS && body.skill.0 == 0 && body.frame == 3 {
                body.frame = 0;
                body.timer.timer1.reset();
                let c = idle_choice_exec(roll);
                let charge = c == IdleChoice::Charge;
                if charge {
                    body.state = BossState::CollideStart;
                }
                if c != IdleChoice::Stay {
                    body.skill = Skillflag(1);
                }
                BossSkillOutcome { weapons: idle_weapons_exec(c), aim: charge, charge: false }
            } else {
                nothing
            }
        },
        BossState::CollideStart => {
            if body.frame == 9 {
                body.frame = 0;
                body.state = BossState::CollideLoop;
            }
            BossSkillOutcome { weapons: WeaponOrder::Nothing, aim: false, charge: true }
        },
        BossState::CollideLoop => {
            body.timer.timer1.tick(delta_ns);
            if body.timer.timer1.elapsed() >= SALVO_NS && body.frame == 7 {
                body.frame = 0;
                body.state = BossState::CollideEnd;
                body.timer.timer1.reset();
            }
            BossSkillOutcome { weapons: WeaponOrder::Nothing, aim: false, charge: true }
        },
        BossState::CollideEnd => {
            if body.frame == 1 {
                body.frame = 0;
                body.state = BossState::Idea;
            }
            body.skill = Skillflag(0);
            BossSkillOutcome { weapons: WeaponOrder::Nothing, aim: false, charge: true }
        },
        _ => nothing,
    }
}

fn enraged_step_exec(body: &mut BossBody, delta_ns: u64, roll: u32) -> (out: BossSkillOutcome)
    ensures
        (*final(body), out) == enraged_step(*old(body), delta_ns, roll),
{
    let nothing = BossSkillOutcome { weapons: WeaponOrder::Nothing, aim: false, charge: false };
    match body.state {
        BossState::Idea => {
            body.timer.timer1.tick(delta_ns);
            if body.timer.timer1.elapsed() >= SKILL_INTERVAL_NS && body.frame == 3 {
                body.frame = 0;
                body.timer.timer1.reset();
                let c = idle_choice_exec(roll);
                let charge = c == IdleChoice::Charge;
                if charge {
                    body.state = BossState::CollideStart;
                }
                BossSkillOutcome { weapons: idle_weapons_exec(c), aim: charge, charge: false }
            } else {
                nothing
            }
        },
        BossState::CollideStart | BossState::CollideLoop | BossState::CollideEnd => {
            match body.state {
                BossState::CollideStart => {
                    if body.frame == 9 {
                        body.frame = 0;
                        body.state = BossState::CollideLoop;
                    }
                },
                BossState::CollideLoop => {
                    body.timer.timer2.tick(delta_ns);
                    if body.timer.timer2.elapsed() >= SALVO_NS && body.frame == 7 {
                        body.frame = 0;
                        body.state = BossState::CollideEnd;
                        body.timer.timer2.reset();
                    }
                },
                _ => {
                    if body.frame == 1 {
                        body.frame = 0;
                        body.state = BossState::Idea;
                    }
                },
            }
            body.timer.timer1.tick(delta_ns);
            if body.timer.timer1.elapsed() >= SKILL_INTERVAL_NS {
                body.timer.timer1.reset();
                BossSkillOutcome { weapons: charging_weapons_exec(roll), aim: false, charge: true }
            } else {
                BossSkillOutcome { weapons: WeaponOrder::Nothing, aim: false, charge: true }
            }
        },
        _ => nothing,
    }
}

/// Applies a weapon order to every part.
pub fn order_parts(parts: &mut Vec<BossPart>, w: WeaponOrder)
    ensures
        final(parts)@ == old(parts)@.map_values(|p: BossPart| part_ordered(p, w)),
{
    let n = parts.len();
    let mut i: usize = 0;
    while i < n
        invariant
            n == old(parts)@.len(),
            parts@.len() == n,
            i <= n,
            forall|j: int| 0 <= j < i ==> parts@[j] == part_ordered(old(parts)@[j], w),
            forall|j: int| i <= j < n ==> parts@[j] == old(parts)@[j],
        decreases n - i,
    {
        let p = parts[i];
        let mut q = p;
        match w {
            WeaponOrder::Guns => {
                if (p.kind == Boss::Gun || p.kind == Boss::Shield) && p.state != BossState::Gunfire {
                    q.state = BossState::Gunfire;
                    q.frame = 0;
                }
            },
            WeaponOrder::Missiles => {
                if p.kind == Boss::Missile && p.state != BossState::Missilefire {
                    q.state = BossState::Missilefire;
                    q.frame = 0;
                }
            },
            WeaponOrder::Nothing => {},
        }
        parts.set(i, q);
        i += 1;
    }
    assert(parts@ =~= old(parts)@.map_values(|p: BossPart| part_ordered(p, w)));
}

/// One step of the boss brain with the decision roll given: the body moves
/// through idle, charge start, charge loop and charge end; when a decision is
/// due the roll picks the next skill, and ordered weapon parts open fire.
pub fn boss_skill_step(body: &mut BossBody, parts: &mut Vec<BossPart>, enraged: bool, delta_ns: u64, roll: u32) -> (out: BossSkillOutcome)
    ensures
        (*final(body), out) == skill_step(*old(body), enraged, delta_ns, roll),
        final(parts)@ == old(parts)@.map_values(|p: BossPart| part_ordered(p, out.weapons)),
{
    let out = if enraged {
        enraged_step_exec(body, delta_ns, roll)
    } else {
        calm_step_exec(body, delta_ns, roll)
    };
    order_parts(parts, out.weapons);
    out
}

/// One step of the boss brain: when a decision is due a roll is drawn from
/// `0..100` and the step goes as `boss_skill_step` with that roll.
pub fn handle_boss_skill(body: &mut BossBody, parts: &mut Vec<BossPart>, enraged: bool, delta_ns: u64) -> (out: BossSkillOutcome)
    ensures
        exists|roll: u32|
            roll < ROLL_RANGE && (*final(body), out) == skill_step(*old(body), enraged, delta_ns, roll),
        final(parts)@ == old(parts)@.map_values(|p: BossPart| part_ordered(p, out.weapons)),
{
    let t1 = body.timer.timer1.elapsed().saturating_add(delta_ns);
    let due = if body.state == BossState::Idea {
        t1 >= SKILL_INTERVAL_NS && body.frame == 3 && (enraged || body.skill.0 == 0)
    } else {
        enraged && (body.state == BossState::CollideStart || body.state == BossState::CollideLoop
            || body.state == BossState::CollideEnd) && t1 >= SKILL_INTERVAL_NS
    };
    let roll = if due {
        random_in(0, ROLL_RANGE)
    } else {
        0
    };
    let out = boss_skill_step(body, parts, enraged, delta_ns, roll);
    assert(roll < ROLL_RANGE && (*body, out) == skill_step(*old(body), enraged, delta_ns, roll));
    out
}

/// Number of animation frames of a boss piece in a given state.
pub open spec fn boss_frame_count(kind: Boss, state: BossState) -> usize {
    match kind {
        Boss::Body => match state {
            BossState::Idea => 4,
            BossState::Move => 8,
            BossState::CollideStart => 10,
            BossState::CollideLoop => 8,
            BossState::CollideEnd => 2,
            _ => 1,
        },
        Boss::Gun => if state == BossState::Gunfire { 7 } else { 1 },
        Boss::Missile => if state == BossState::Missilefire { 30 } else { 1 },
        Boss::Shield => if state == BossState::Gunfire { 7 } else { 1 },
    }
}

/// Advances the animation of a boss piece by one frame, wrapping around at
/// the frame count of its state. A gun or missile pod that advances may fire
/// again: its fire flag is cleared.
pub fn animate_boss(kind: Boss, state: BossState, frame: usize, fire: &mut Skillflag) -> (next: usize)
    ensures
        next == looped(frame, boss_frame_count(kind, state)),
        next < boss_frame_count(kind, state),
        *final(fire) == (if kind == Boss::Gun || kind == Boss::Missile { Skillflag(0) } else { *old(fire) }),
{
    let all: usize = match kind {
        Boss::Body => match state {
            BossState::Idea => 4,
            BossState::Move => 8,
            BossState::CollideStart => 10,
            BossState::CollideLoop => 8,
            BossState::CollideEnd => 2,
            _ => 1,
        },
        Boss::Gun => if state == BossState::Gunfire { 7 } else { 1 },
        Boss::Missile => if state == BossState::Missilefire { 30 } else { 1 },
        Boss::Shield => if state == BossState::Gunfire { 7 } else { 1 },
    };
    if kind == Boss::Gun || kind == Boss::Missile {
        *fire = Skillflag(0);
    }
    cycle_frame(frame, all)
}

/// One step of a weapon part's firing cycle: the part, the shot it launches
/// if any, and whether the body's skill flag is cleared because the salvo is
/// over. Guns shoot on frame 6 and stop after a second on that frame; the gun
/// lid follows the guns; missile pods launch on frames 19 to 21 and stop on
/// frame 29.
pub open spec fn part_fire_step(p: BossPart, delta_ns: u64) -> (BossPart, Option<BossShot>, bool) {
    match p.kind {
        Boss::Gun => if p.state == BossState::Gunfire {
            let shoots = p.frame == 6 && p.fire.0 == 0;
            let q = if shoots { BossPart { fire: Skillflag(1), ..p } } else { p };
            let t1 = q.timer.timer1.ticked(delta_ns);
            if t1.elapsed_ns >= SALVO_NS && q.frame == 6 {
                (BossPart {
                    state: BossState::Idea,
                    frame: 0,
                    timer: Timer { timer1: Stopwatch { elapsed_ns: 0 }, timer2: q.timer.timer2 },
                    ..q
                }, if shoots { Some(BossShot::GunBullet) } else { None }, true)
            } else {
                (BossPart { timer: Timer { timer1: t1, timer2: q.timer.timer2 }, ..q },
                 if shoots { Some(BossShot::GunBullet) } else { None }, false)
            }
        } else {
            (p, None, false)
        },
        Boss::Shield => if p.state == BossState::Gunfire {
            let t1 = p.timer.timer1.ticked(delta_ns);
            if t1.elapsed_ns >= SALVO_NS && p.frame == 6 {
                (BossPart {
                    state: BossState::Idea,
                    frame: 0,
                    timer: Timer { timer1: Stopwatch { elapsed_ns: 0 }, timer2: p.timer.timer2 },
                    ..p
                }, None, false)
            } else {
                (BossPart { timer: Timer { timer1: t1, timer2: p.timer.timer2 }, ..p }, None, false)
            }
        } else {
            (p, None, false)
        },
        Boss::Missile => if p.state == BossState::Missilefire {
            if (p.frame == 19 || p.frame == 20 || p.frame == 21) && p.fire.0 == 0 {
                (BossPart { fire: Skillflag(1), ..p }, Some(BossShot::Missile), false)
            } else if p.frame == 29 {
                (BossPart { state: BossState::Idea, frame: 0, ..p }, None, true)
            } else {
                (p, None, false)
            }
        } else {
            (p, None, false)
        },
        Boss::Body => (p, None, false),
    }
}

fn part_fire_step_exec(p: BossPart, delta_ns: u64) -> (r: (BossPart, Option<BossShot>, bool))
    ensures
        r == part_fire_step(p, delta_ns),
{
    let mut q = p;
    match p.kind {
        Boss::Gun => {
            if p.state == BossState::Gunfire {
                let shoots = p.frame == 6 && p.fire.0 == 0;
                if shoots {
                    q.fire = Skillflag(1);
                }
                let shot = if shoots { Some(BossShot::GunBullet) } else { None };
                q.timer.timer1.tick(delta_ns);
                if q.timer.timer1.elapsed() >= SALVO_NS && q.frame == 6 {
                    q.frame = 0;
                    q.timer.timer1.reset();
                    q.state = BossState::Idea;
                    (q, shot, true)
                } else {
                    (q, shot, false)
                }
            } else {
                (p, None, false)
            }
        },
        Boss::Shield => {
            if p.state == BossState::Gunfire {
                q.timer.timer1.tick(delta_ns);
                if q.timer.timer1.elapsed() >= SALVO_NS && q.frame == 6 {
                    q.frame = 0;
                    q.timer.timer1.reset();
                    q.state = BossState::Idea;
                }
                (q, None, false)
            } else {
                (p, None, false)
            }
        },
        Boss::Missile => {
            if p.state == BossState::Missilefire {
                if (p.frame == 19 || p.frame == 20 || p.frame == 21) && p.fire.0 == 0 {
                    q.fire = Skillflag(1);
                    (q, Some(BossShot::Missile), false)
                } else if p.frame == 29 {
                    q.frame = 0;
                    q.state = BossState::Idea;
                    (q, None, true)
                } else {
                    (p, None, false)
                }
            } else {
                (p, None, false)
            }
        },
        Boss::Body => (p, None, false),
    }
}

/// Runs the firing cycle of every weapon part. `shots[i]` is what part `i`
/// launches this frame; the body's skill flag is cleared as soon as one part
/// ends its salvo, and is left alone otherwise.
pub fn handle_bossbullet_setup(parts: &mut Vec<BossPart>, body_skill: &mut Skillflag, delta_ns: u64) -> (shots: Vec<Option<BossShot>>)
    ensures
        final(parts)@.len() == old(parts)@.len(),
        shots@.len() == old(parts)@.len(),
        forall|i: int| 0 <= i < old(parts)@.len() ==> #[trigger] final(parts)@[i] == part_fire_step(old(parts)@[i], delta_ns).0,
        forall|i: int| 0 <= i < old(parts)@.len() ==> #[trigger] shots@[i] == part_fire_step(old(parts)@[i], delta_ns).1,
        (exists|i: int| 0 <= i < old(parts)@.len() && part_fire_step(old(parts)@[i], delta_ns).2)
            ==> *final(body_skill) == Skillflag(0),
        !(exists|i: int| 0 <= i < old(parts)@.len() && part_fire_step(old(parts)@[i], delta_ns).2)
            ==> *final(body_skill) == *old(body_skill),
{
    let n = parts.len();
    let mut shots: Vec<Option<BossShot>> = Vec::new();
    let mut i: usize = 0;
    while i < n
        invariant
            n == old(parts)@.len(),
            parts@.len() == n,
            i <= n,
            shots@.len() == i,
            forall|j: int| 0 <= j < i ==> #[trigger] parts@[j] == part_fire_step(old(parts)@[j], delta_ns).0,
            forall|j: int| 0 <= j < i ==> #[trigger] shots@[j] == part_fire_step(old(parts)@[j], delta_ns).1,
            forall|j: int| i <= j < n ==> parts@[j] == old(parts)@[j],
            (exists|j: int| 0 <= j < i && part_fire_step(old(parts)@[j], delta_ns).2) ==> *body_skill == Skillflag(0),
            !(exists|j: int| 0 <= j < i && part_fire_step(old(parts)@[j], delta_ns).2) ==> *body_skill == *old(body_skill),
        decreases n - i,
    {
        let r = part_fire_step_exec(parts[i], delta_ns);
        let q = r.0;
        let shot = r.1;
        let ends = r.2;
        if ends {
            *body_skill = Skillflag(0);
        }
        parts.set(i, q);
        shots.push(shot);
        assert(parts@[i as int] == part_fire_step(old(parts)@[i as int], delta_ns).0);
        assert(shots@[i as int] == part_fire_step(old(parts)@[i as int], delta_ns).1);
        proof {
            if !ends {
                assert(!part_fire_step(old(parts)@[i as int], delta_ns).2);
                if exists|j: int| 0 <= j < i + 1 && part_fire_step(old(parts)@[j], delta_ns).2 {
                    let j = choose|j: int| 0 <= j < i + 1 && part_fire_step(old(parts)@[j], delta_ns).2;
                    assert(j < i);
                }
            }
        }
        i += 1;
    }
    shots
}

/// A weapon part as it is mounted when the boss appears.
pub open spec fn mounted(kind: Boss) -> BossPart {
    BossPart {
        kind,
        state: BossState::Idea,
        frame: 0,
        timer: Timer { timer1: Stopwatch { elapsed_ns: 0 }, timer2: Stopwatch { elapsed_ns: 0 } },
        fire: Skillflag(0),
    }
}

/// Animation speed of a boss piece, in frames per second.
pub open spec fn boss_fps(kind: Boss) -> u8 {
    match kind {
        Boss::Body => 15,
        Boss::Missile => 10,
        _ => 30,
    }
}

/// The boss as it appears: an idle body with fresh clocks and no skill
/// running, carrying its missile pod, its gun lid and its gun.
pub fn set_boss() -> (b: (BossBody, Vec<BossPart>))
    ensures
        b.0 == (BossBody {
            state: BossState::Idea,
            frame: 0,
            timer: Timer { timer1: Stopwatch { elapsed_ns: 0 }, timer2: Stopwatch { elapsed_ns: 0 } },
            skill: Skillflag(0),
        }),
        b.1@ == seq![mounted(Boss::Missile), mounted(Boss::Shield), mounted(Boss::Gun)],
{
    let body = BossBody { state: BossState::Idea, frame: 0, timer: Timer::new(), skill: Skillflag(0) };
    let mut parts: Vec<BossPart> = Vec::new();
    parts.push(BossPart { kind: Boss::Missile, state: BossState::Idea, frame: 0, timer: Timer::new(), fire: Skillflag(0) });
    parts.push(BossPart { kind: Boss::Shield, state: BossState::Idea, frame: 0, timer: Timer::new(), fire: Skillflag(0) });
    parts.push(BossPart { kind: Boss::Gun, state: BossState::Idea, frame: 0, timer: Timer::new(), fire: Skillflag(0) });
    assert(parts@ =~= seq![mounted(Boss::Missile), mounted(Boss::Shield), mounted(Boss::Gun)]);
    (body, parts)
}

/// The sprite sheets of the boss.
#[derive(Clone, Copy, Debug, PartialEq, Eq, Structural)]
pub enum BossSheet {
    BodyIdle,
    BodyMove,
    BodyChargeStart,
    BodyChargeLoop,
    BodyChargeEnd,
    GunFire,
    GunIdle,
    MissileFire,
    MissileIdle,
    LidFire,
    LidIdle,
}

/// The sheet a boss piece shows in a state; `None` keeps the current sheet.
pub open spec fn boss_sheet(kind: Boss, state: BossState) -> Option<BossSheet> {
    match kind {
        Boss::Body => match state {
            BossState::Idea => Some(BossSheet::BodyIdle),
            BossState::Move => Some(BossSheet::BodyMove),
            BossState::CollideStart => Some(BossSheet::BodyChargeStart),
            BossState::CollideLoop => Some(BossSheet::BodyChargeLoop),
            BossState::CollideEnd => Some(BossSheet::BodyChargeEnd),
            _ => None,
        },
        Boss::Gun => Some(if state == BossState::Gunfire { BossSheet::GunFire } else { BossSheet::GunIdle }),
        Boss::Missile => Some(if state == BossState::Missilefire { BossSheet::MissileFire } else { BossSheet::MissileIdle }),
        Boss::Shield => Some(if state == BossState::Gunfire { BossSheet::LidFire } else { BossSheet::LidIdle }),
    }
}

/// Picks the sheet of a boss piece; see `boss_sheet`.
pub fn handle_boss_animation(kind: Boss, state: BossState) -> (s: Option<BossSheet>)
    ensures
        s == boss_sheet(kind, state),
{
    match kind {
        Boss::Body => match state {
            BossState::Idea => Some(BossSheet::BodyIdle),
            BossState::Move => Some(BossSheet::BodyMove),
            BossState::CollideStart => Some(BossSheet::BodyChargeStart),
            BossState::CollideLoop => Some(BossSheet::BodyChargeLoop),
            BossState::CollideEnd => Some(BossSheet::BodyChargeEnd),
            _ => None,
        },
        Boss::Gun => Some(if state == BossState::Gunfire { BossSheet::GunFire } else { BossSheet::GunIdle }),
        Boss::Missile => Some(if state == BossState::Missilefire { BossSheet::MissileFire } else { BossSheet::MissileIdle }),
        Boss::Shield => Some(if state == BossState::Gunfire { BossSheet::LidFire } else { BossSheet::LidIdle }),
    }
}

/// A charging boss hurts a player within reach who is not dodging.
pub fn handle_boss_charge_hurt(boss: BossState, player_dodging: bool, in_reach: bool) -> (hurt: bool)
    ensures
        hurt == (is_charging(boss) && !player_dodging && in_reach),
{
    (boss == BossState::CollideStart || boss == BossState::CollideLoop || boss == BossState::CollideEnd)
        && !player_dodging && in_reach
}

/// The state a boss body may be in after one step from `s`: an idle body
/// stays idle or starts a charge; a charge goes start, loop, end and back to
/// idle; the other states are kept.
pub open spec fn boss_successor(s: BossState, t: BossState) -> bool {
    match s {
        BossState::Idea => t == BossState::Idea || t == BossState::CollideStart,
        BossState::CollideStart => t == BossState::CollideStart || t == BossState::CollideLoop,
        BossState::CollideLoop => t == BossState::CollideLoop || t == BossState::CollideEnd,
        BossState::CollideEnd => t == BossState::CollideEnd || t == BossState::Idea,
        _ => t == s,
    }
}

/// Every step of the boss brain follows the charge cycle
/// idle, charge start, charge loop, charge end, idle.
pub proof fn lemma_boss_follows_charge_cycle(body: BossBody, enraged: bool, delta_ns: u64, roll: u32)
    ensures
        boss_successor(body.state, skill_step(body, enraged, delta_ns, roll).0.state),
{
}

/// The roll matters only when a decision is due: otherwise two rolls give
/// the same step.
pub proof fn lemma_roll_only_matters_when_due(body: BossBody, enraged: bool, delta_ns: u64, r1: u32, r2: u32)
    requires
        !roll_due(body, enraged, delta_ns),
    ensures
        skill_step(body, enraged, delta_ns, r1) == skill_step(body, enraged, delta_ns, r2),
{
}

/// While the boss has more than half of its health, it starts no new skill
/// (no charge, no weapon order) as long as its skill flag is raised.
pub proof fn lemma_calm_boss_waits_for_skill(body: BossBody, delta_ns: u64, roll: u32)
    requires
        body.skill.0 != 0,
    ensures
        skill_step(body, false, delta_ns, roll).1.weapons == WeaponOrder::Nothing,
        !skill_step(body, false, delta_ns, roll).1.aim,
{
}

/// A charge is aimed at the player exactly when the body leaves the idle
/// pose for the start of a charge.
pub proof fn lemma_aim_iff_charge_starts(body: BossBody, enraged: bool, delta_ns: u64, roll: u32)
    ensures
        skill_step(body, enraged, delta_ns, roll).1.aim
            <==> (body.state == BossState::Idea && skill_step(body, enraged, delta_ns, roll).0.state == BossState::CollideStart),
{
}

/// Orders and firing cycles never change which kind of piece a part is.
pub proof fn lemma_parts_keep_kind(p: BossPart, w: WeaponOrder, delta_ns: u64)
    ensures
        part_ordered(p, w).kind == p.kind,
        part_fire_step(p, delta_ns).0.kind == p.kind,
{
}

/// A part launches at most one projectile per animation frame: after a shot
/// its fire flag is raised, and a part whose flag is raised launches nothing
/// until the animation clears it.
pub proof fn lemma_one_shot_per_frame(p: BossPart, delta_ns: u64)
    ensures
        part_fire_step(p, delta_ns).1 is Some ==> part_fire_step(p, delta_ns).0.fire.0 == 1,
        p.fire.0 != 0 ==> part_fire_step(p, delta_ns).1 is None,
{
}

/// The enraged boss keeps deciding while it charges: once its decision
/// timer has run out during a charge (start, loop or end), a roll below 15
/// orders nothing, a roll from 15 to 64 orders the guns and a roll from 65
/// on orders the missiles; the body keeps charging, is not re-aimed, and
/// its decision timer starts again.
pub proof fn lemma_enraged_charge_decision(body: BossBody, delta_ns: u64, roll: u32)
    requires
        body.state == BossState::CollideStart || body.state == BossState::CollideLoop
            || body.state == BossState::CollideEnd,
        body.timer.timer1.elapsed_ns + delta_ns >= SKILL_INTERVAL_NS,
    ensures
        ({
            let (b, out) = skill_step(body, true, delta_ns, roll);
            &&& roll < 15 ==> out.weapons == WeaponOrder::Nothing
            &&& 15 <= roll < 65 ==> out.weapons == WeaponOrder::Guns
            &&& 65 <= roll ==> out.weapons == WeaponOrder::Missiles
            &&& out.charge && !out.aim
            &&& b.timer.timer1.elapsed_ns == 0
        }),
{
}

/// Until its decision timer runs out, a charging enraged boss orders no
/// weapon, whatever the roll.
pub proof fn lemma_enraged_charge_waits(body: BossBody, delta_ns: u64, roll: u32)
    requires
        body.state == BossState::CollideStart || body.state == BossState::CollideLoop
            || body.state == BossState::CollideEnd,
        body.timer.timer1.elapsed_ns + delta_ns < SKILL_INTERVAL_NS,
    ensures
        skill_step(body, true, delta_ns, roll).1.weapons == WeaponOrder::Nothing,
        skill_step(body, true, delta_ns, roll).1.charge,
{
}

/// A calm charging boss never orders a weapon and never re-aims.
pub proof fn lemma_calm_charge_holds_fire(body: BossBody, delta_ns: u64, roll: u32)
    requires
        body.state == BossState::CollideStart || body.state == BossState::CollideLoop
            || body.state == BossState::CollideEnd,
    ensures
        skill_step(body, false, delta_ns, roll).1.weapons == WeaponOrder::Nothing,
        skill_step(body, false, delta_ns, roll).1.charge,
        !skill_step(body, false, delta_ns, roll).1.aim,
{
}

/// The idle decision, taken on frame 3 of the idle pose once the decision
/// timer has run out (and, for a calm boss, with no skill in progress): a
/// roll below 5 keeps standing, 5 to 44 starts a charge aimed at the player,
/// 45 to 74 orders the guns and 75 on orders the missiles. A calm boss
/// raises its skill flag for anything but standing.
pub proof fn lemma_idle_decision(body: BossBody, enraged: bool, delta_ns: u64, roll: u32)
    requires
        body.state == BossState::Idea,
        body.frame == 3,
        body.timer.timer1.elapsed_ns + delta_ns >= SKILL_INTERVAL_NS,
        enraged || body.skill.0 == 0,
    ensures
        ({
            let (b, out) = skill_step(body, enraged, delta_ns, roll);
            &&& roll < 5 ==> out.weapons == WeaponOrder::Nothing && !out.aim && b.state == BossState::Idea
            &&& 5 <= roll < 45 ==> out.weapons == WeaponOrder::Nothing && out.aim && b.state == BossState::CollideStart
            &&& 45 <= roll < 75 ==> out.weapons == WeaponOrder::Guns && !out.aim && b.state == BossState::Idea
            &&& 75 <= roll ==> out.weapons == WeaponOrder::Missiles && !out.aim && b.state == BossState::Idea
            &&& !out.charge
            &&& b.frame == 0 && b.timer.timer1.elapsed_ns == 0
            &&& !enraged && roll >= 5 ==> b.skill.0 == 1
        }),
{
}

/// A weapon order reaches exactly the parts it is for: missiles start the
/// missile pods, guns start the guns and the gun lid, each from frame 0
/// unless already firing; every other part is left as it was.
pub proof fn lemma_order_reaches_its_weapons(p: BossPart)
    ensures
        part_ordered(p, WeaponOrder::Nothing) == p,
        p.kind == Boss::Missile ==> part_ordered(p, WeaponOrder::Missiles).state == BossState::Missilefire,
        p.kind == Boss::Missile && p.state != BossState::Missilefire ==> part_ordered(p, WeaponOrder::Missiles).frame == 0,
        p.kind != Boss::Missile ==> part_ordered(p, WeaponOrder::Missiles) == p,
        (p.kind == Boss::Gun || p.kind == Boss::Shield) ==> part_ordered(p, WeaponOrder::Guns).state == BossState::Gunfire,
        (p.kind == Boss::Gun || p.kind == Boss::Shield) && p.state != BossState::Gunfire ==> part_ordered(p, WeaponOrder::Guns).frame == 0,
        !(p.kind == Boss::Gun || p.kind == Boss::Shield) ==> part_ordered(p, WeaponOrder::Guns) == p,
{
}

/// The boss body changes pose only when the running animation ends: a step
/// that changes its state happens on the last frame of that state's
/// animation, and the new pose starts from frame 0.
pub proof fn lemma_boss_changes_on_last_frame(body: BossBody, enraged: bool, delta_ns: u64, roll: u32)
    ensures
        ({
            let b = skill_step(body, enraged, delta_ns, roll).0;
            b.state != body.state ==> body.frame + 1 == boss_frame_count(Boss::Body, body.state) && b.frame == 0
        }),
{
}

/// The firing cycle of the weapon parts: a gun shoots one bullet on frame 6
/// of its firing animation (once per pass, while its fire flag is down) and
/// goes back to idle on that last frame once the salvo has lasted a second,
/// clearing the body's skill flag; the gun lid follows the same timing
/// without shooting; a missile pod launches a missile on each of frames 19,
/// 20 and 21 and goes back to idle on its last frame, 29, clearing the
/// skill flag; a part that is not firing does nothing. A part leaves its
/// firing state only on the last frame of its firing animation.
pub proof fn lemma_weapon_cycle(p: BossPart, delta_ns: u64)
    ensures
        ({
            let (q, shot, clear) = part_fire_step(p, delta_ns);
            let salvo_over = p.timer.timer1.elapsed_ns + delta_ns >= SALVO_NS;
            &&& q.kind == p.kind
            &&& p.kind == Boss::Gun && p.state == BossState::Gunfire ==>
                (shot == (if p.frame == 6 && p.fire.0 == 0 { Some(BossShot::GunBullet) } else { None }))
                && (clear <==> p.frame == 6 && salvo_over)
                && (q.state == BossState::Idea <==> p.frame == 6 && salvo_over)
            &&& p.kind == Boss::Shield && p.state == BossState::Gunfire ==> shot is None && !clear
                && (q.state == BossState::Idea <==> p.frame == 6 && salvo_over)
            &&& p.kind == Boss::Missile && p.state == BossState::Missilefire ==>
                (shot == (if (p.frame == 19 || p.frame == 20 || p.frame == 21) && p.fire.0 == 0 { Some(BossShot::Missile) } else { None }))
                && (clear <==> p.frame == 29) && (q.state == BossState::Idea <==> p.frame == 29)
            &&& !(p.kind == Boss::Gun && p.state == BossState::Gunfire)
                && !(p.kind == Boss::Shield && p.state == BossState::Gunfire)
                && !(p.kind == Boss::Missile && p.state == BossState::Missilefire) ==> q == p && shot is None && !clear
            &&& q.state != p.state ==> p.frame + 1 == boss_frame_count(p.kind, p.state) && q.frame == 0
        }),
{
}

/// Each boss piece shows its own sheets, one per pose: the body has a sheet
/// for idling, moving and each part of the charge (and keeps its sheet
/// otherwise); the gun, the missile pod and the gun lid show their firing
/// sheet exactly while firing and their idle sheet otherwise.
pub proof fn lemma_boss_sheets(kind: Boss, state: BossState, other: BossState)
    ensures
        kind == Boss::Body && state != other && boss_sheet(kind, state) is Some && boss_sheet(kind, other) is Some
            ==> boss_sheet(kind, state) != boss_sheet(kind, other),
        kind == Boss::Body ==> (boss_sheet(kind, state) is Some <==> (state == BossState::Idea || state == BossState::Move
            || state == BossState::CollideStart || state == BossState::CollideLoop || state == BossState::CollideEnd)),
        kind == Boss::Body && state == BossState::CollideLoop ==> boss_sheet(kind, state) == Some(BossSheet::BodyChargeLoop),
        kind == Boss::Gun ==> boss_sheet(kind, state) == Some(if state == BossState::Gunfire { BossSheet::GunFire } else { BossSheet::GunIdle }),
        kind == Boss::Missile ==> boss_sheet(kind, state) == Some(if state == BossState::Missilefire { BossSheet::MissileFire } else { BossSheet::MissileIdle }),
        kind == Boss::Shield ==> boss_sheet(kind, state) == Some(if state == BossState::Gunfire { BossSheet::LidFire } else { BossSheet::LidIdle }),
{
}

} // verus!
