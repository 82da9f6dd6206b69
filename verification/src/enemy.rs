use vstd::prelude::*;
use crate::clock::{Stopwatch, NANOS_PER_MILLI};
use crate::rng::random_in;
use crate::animation::{cycle_frame, looped};

verus! {

/// The four kinds of robots that roam the rooms.
#[derive(Clone, Copy, Debug, PartialEq, Eq, Structural)]
pub enum EnemyType {
    Sweeper,
    DroneMissile,
    DroneVulcan,
    UnknownGuardianTypeF,
}

/// What a robot is doing. `Idea` is the idle pose.
#[derive(Clone, Copy, Debug, PartialEq, Eq, Structural)]
pub enum EnemyState {
    Idea,
    FireStart,
    FireLoop,
    FireEnd,
    Move,
}

/// Whether a robot that does not see the player walks around or rests.
#[derive(Clone, Copy, Debug, PartialEq, Eq, Structural)]
pub enum Idleflag {
    Idle,
    Patrol,
}

/// Whether a robot may still shoot during its current animation frame.
#[derive(Clone, Copy, Debug, PartialEq, Eq, Structural)]
pub enum Fireflag {
    Fire,
    Done,
}

/// The projectiles robots shoot.
#[derive(Clone, Copy, Debug, PartialEq, Eq, Structural)]
pub enum EnemyBullet {
    DroneMissile,
    DroneVulcan,
    UnknownGuardian,
}

/// How a robot sees the player this frame, as measured by the engine:
/// close enough to attack, within alarm range, or out of sight.
#[derive(Clone, Copy, Debug, PartialEq, Eq, Structural)]
pub enum Sighting {
    Attack,
    Approach,
    Unseen,
}

/// How a robot moves this frame.
#[derive(Clone, Copy, Debug, PartialEq, Eq, Structural)]
pub enum Movement {
    /// It stands still.
    Hold,
    /// It heads for the player.
    Chase,
    /// It walks along its patrol heading.
    Wander,
}

/// The patrol clocks of a robot: one runs while it walks, one while it rests,
/// and each phase lasts `duration_ns`.
#[derive(Clone, Copy, Debug, PartialEq, Eq, Structural)]
pub struct PatrolTimers {
    pub timer1: Stopwatch,
    pub timer2: Stopwatch,
    pub duration_ns: u64,
}

/// Everything the robot logic reads and writes about one robot.
#[derive(Clone, Copy, Debug, PartialEq, Eq, Structural)]
pub struct EnemyBrain {
    pub kind: EnemyType,
    pub state: EnemyState,
    pub frame: usize,
    pub idle: Idleflag,
    pub fire: Fireflag,
    pub patrol: PatrolTimers,
}

/// What one movement step asks of the engine.
#[derive(Clone, Copy, Debug, PartialEq, Eq, Structural)]
pub struct EnemyMove {
    pub movement: Movement,
    /// A new random patrol heading has to be drawn.
    pub new_heading: bool,
}

/// How long a patrol walk or rest lasts.
pub const PATROL_NS: u64 = 500 * NANOS_PER_MILLI;

/// Number of robot kinds that a random spawn chooses from.
pub const ENEMY_KINDS: u32 = 4;

/// The robot kind with the given index (0 to 3).
pub open spec fn kind_of_index(x: u32) -> EnemyType {
    if x == 0 {
        EnemyType::Sweeper
    } else if x == 1 {
        EnemyType::DroneMissile
    } else if x == 2 {
        EnemyType::DroneVulcan
    } else {
        EnemyType::UnknownGuardianTypeF
    }
}

/// The robot kind a spawn request asks for: `id` 0 leaves it to the roll,
/// 1 to 4 name a kind.
pub open spec fn requested_kind(id: u8, roll: u32) -> EnemyType {
    if id == 0 {
        kind_of_index(roll)
    } else {
        kind_of_index((id - 1) as u32)
    }
}

/// A freshly spawned robot of the given kind: idle, on its first frame,
/// patrolling, ready to fire, with fresh clocks.
pub open spec fn fresh_enemy(kind: EnemyType) -> EnemyBrain {
    EnemyBrain {
        kind,
        state: EnemyState::Idea,
        frame: 0,
        idle: Idleflag::Patrol,
        fire: Fireflag::Fire,
        patrol: PatrolTimers {
            timer1: Stopwatch { elapsed_ns: 0 },
            timer2: Stopwatch { elapsed_ns: 0 },
            duration_ns: PATROL_NS,
        },
    }
}

/// Animation speed of a robot, in frames per second.
pub open spec fn enemy_fps(kind: EnemyType) -> u8 {
    if kind == EnemyType::Sweeper { 13 } else { 9 }
}

fn kind_of_index_exec(x: u32) -> (k: EnemyType)
    ensures
        k == kind_of_index(x),
{
    if x == 0 {
        EnemyType::Sweeper
    } else if x == 1 {
        EnemyType::DroneMissile
    } else if x == 2 {
        EnemyType::DroneVulcan
    } else {
        EnemyType::UnknownGuardianTypeF
    }
}

/// The robot a spawn request produces, with the roll for a random kind given.
/// Kind ids run from 1 to 4; id 0 takes the kind from `roll`.
pub fn enemy_spawn(id: u8, roll: u32) -> (e: EnemyBrain)
    requires
        id <= 4,
        roll < ENEMY_KINDS,
    ensures
        e == fresh_enemy(requested_kind(id, roll)),
{
    let kind = if id == 0 {
        kind_of_index_exec(roll)
    } else {
        kind_of_index_exec((id - 1) as u32)
    };
    EnemyBrain {
        kind,
        state: EnemyState::Idea,
        frame: 0,
        idle: Idleflag::Patrol,
        fire: Fireflag::Fire,
        patrol: PatrolTimers { timer1: Stopwatch::new(), timer2: Stopwatch::new(), duration_ns: PATROL_NS },
    }
}

/// Spawns a robot: a kind id from 1 to 4 picks the kind, 0 picks one of the
/// four kinds at random.
pub fn set_enemy(id: u8) -> (e: EnemyBrain)
    requires
        id <= 4,
    ensures
        exists|roll: u32| roll < ENEMY_KINDS && e == fresh_enemy(requested_kind(id, roll)),
        id != 0 ==> e == fresh_enemy(kind_of_index((id - 1) as u32)),
{
    let roll = if id == 0 { random_in(0, ENEMY_KINDS) } else { 0 };
    enemy_spawn(id, roll)
}

/// The frame counter and the state change that waits for it: when the
/// current animation shows frame `at`, it restarts at frame 0 in state `to`.
pub open spec fn on_frame(e: EnemyBrain, at: usize, to: EnemyState) -> EnemyBrain {
    if e.frame == at {
        EnemyBrain { state: to, frame: 0, ..e }
    } else {
        e
    }
}

/// The pose change of a robot that can attack the player.
pub open spec fn attack_pose(e: EnemyBrain) -> EnemyBrain {
    match e.kind {
        EnemyType::DroneMissile | EnemyType::DroneVulcan => match e.state {
            EnemyState::Idea | EnemyState::Move => on_frame(e, 4, EnemyState::FireStart),
            EnemyState::FireStart => on_frame(e, 2, EnemyState::FireLoop),
            EnemyState::FireLoop => e,
            EnemyState::FireEnd => on_frame(e, 1, EnemyState::FireStart),
        },
        EnemyType::Sweeper => match e.state {
            EnemyState::Move => on_frame(e, 13, EnemyState::FireLoop),
            EnemyState::Idea => EnemyBrain { state: EnemyState::FireLoop, frame: 0, ..e },
            _ => e,
        },
        EnemyType::UnknownGuardianTypeF => match e.state {
            EnemyState::Move => on_frame(e, 8, EnemyState::FireLoop),
            EnemyState::Idea => EnemyBrain { state: EnemyState::FireLoop, frame: 0, ..e },
            _ => e,
        },
    }
}

/// The last frame of the firing loop, after which a robot stops firing.
pub open spec fn fire_loop_last(kind: EnemyType) -> usize {
    match kind {
        EnemyType::DroneMissile => 4,
        EnemyType::DroneVulcan => 2,
        EnemyType::Sweeper => 12,
        EnemyType::UnknownGuardianTypeF => 7,
    }
}

/// The pose change of a robot that sees the player but cannot attack yet.
pub open spec fn approach_pose(e: EnemyBrain) -> EnemyBrain {
    match e.kind {
        EnemyType::DroneMissile | EnemyType::DroneVulcan => match e.state {
            EnemyState::Move => e,
            EnemyState::Idea => EnemyBrain { state: EnemyState::Move, ..e },
            EnemyState::FireLoop => on_frame(e, fire_loop_last(e.kind), EnemyState::FireEnd),
            EnemyState::FireStart => on_frame(e, 2, EnemyState::FireEnd),
            EnemyState::FireEnd => on_frame(e, 1, EnemyState::Move),
        },
        EnemyType::Sweeper => match e.state {
            EnemyState::Idea => EnemyBrain { state: EnemyState::Move, frame: 0, ..e },
            EnemyState::FireLoop => on_frame(e, 12, EnemyState::Move),
            _ => e,
        },
        EnemyType::UnknownGuardianTypeF => match e.state {
            EnemyState::Idea => EnemyBrain { state: EnemyState::Move, ..e },
            EnemyState::FireLoop => on_frame(e, 7, EnemyState::Move),
            _ => e,
        },
    }
}

/// The pose change of a patrolling robot that has lost sight of the player.
pub open spec fn patrol_pose(e: EnemyBrain) -> EnemyBrain {
    match e.state {
        EnemyState::Move => e,
        EnemyState::Idea => EnemyBrain { state: EnemyState::Move, frame: 0, ..e },
        EnemyState::FireLoop => match e.kind {
            EnemyType::DroneMissile | EnemyType::DroneVulcan => on_frame(e, fire_loop_last(e.kind), EnemyState::FireEnd),
            _ => on_frame(e, fire_loop_last(e.kind), EnemyState::Move),
        },
        EnemyState::FireStart => on_frame(e, 2, EnemyState::FireEnd),
        EnemyState::FireEnd => on_frame(e, 1, EnemyState::Move),
    }
}

pub open spec fn with_patrol(e: EnemyBrain, p: PatrolTimers) -> EnemyBrain {
    EnemyBrain { patrol: p, ..e }
}

/// One movement step of a robot. A robot that sees the player attacks or
/// closes in and keeps patrolling afterwards with fresh clocks; one that does
/// not walks for a while, then rests for a while, drawing a new heading at
/// each change.
pub open spec fn enemy_move_step(e: EnemyBrain, sight: Sighting, delta_ns: u64) -> (EnemyBrain, EnemyMove) {
    let fresh = PatrolTimers {
        timer1: Stopwatch { elapsed_ns: 0 },
        timer2: Stopwatch { elapsed_ns: 0 },
        duration_ns: e.patrol.duration_ns,
    };
    match sight {
        Sighting::Attack => (
            EnemyBrain { idle: Idleflag::Patrol, ..with_patrol(attack_pose(e), fresh) },
            EnemyMove { movement: Movement::Hold, new_heading: false },
        ),
        Sighting::Approach => (
            EnemyBrain { idle: Idleflag::Patrol, ..with_patrol(approach_pose(e), fresh) },
            EnemyMove { movement: Movement::Chase, new_heading: false },
        ),
        Sighting::Unseen => match e.idle {
            Idleflag::Patrol => {
                let p = patrol_pose(e);
                let t1 = p.patrol.timer1.ticked(delta_ns);
                if t1.elapsed_ns >= p.patrol.duration_ns {
                    (EnemyBrain {
                        state: EnemyState::Idea,
                        frame: 0,
                        idle: Idleflag::Idle,
                        patrol: PatrolTimers { timer1: Stopwatch { elapsed_ns: 0 }, ..p.patrol },
                        ..p
                    }, EnemyMove { movement: Movement::Wander, new_heading: true })
                } else {
                    (with_patrol(p, PatrolTimers { timer1: t1, ..p.patrol }),
                     EnemyMove { movement: Movement::Wander, new_heading: false })
                }
            },
            Idleflag::Idle => {
                let t2 = e.patrol.timer2.ticked(delta_ns);
                if t2.elapsed_ns >= e.patrol.duration_ns {
                    (EnemyBrain {
                        frame: 0,
                        idle: Idleflag::Patrol,
                        patrol: PatrolTimers { timer2: Stopwatch { elapsed_ns: 0 }, ..e.patrol },
                        ..e
                    }, EnemyMove { movement: Movement::Hold, new_heading: true })
                } else {
                    (with_patrol(e, PatrolTimers { timer2: t2, ..e.patrol }),
                     EnemyMove { movement: Movement::Hold, new_heading: false })
                }
            },
        },
    }
}

fn on_frame_exec(e: &mut EnemyBrain, at: usize, to: EnemyState)
    ensures
        *final(e) == on_frame(*old(e), at, to),
{
    if e.frame == at {
        e.state = to;
        e.frame = 0;
    }
}

fn fire_loop_last_exec(kind: EnemyType) -> (n: usize)
    ensures
        n == fire_loop_last(kind),
{
    match kind {
        EnemyType::DroneMissile => 4,
        EnemyType::DroneVulcan => 2,
        EnemyType::Sweeper => 12,
        EnemyType::UnknownGuardianTypeF => 7,
    }
}

fn attack_pose_exec(e: &mut EnemyBrain)
    ensures
        *final(e) == attack_pose(*old(e)),
{
    match e.kind {
        EnemyType::DroneMissile | EnemyType::DroneVulcan => match e.state {
            EnemyState::Idea | EnemyState::Move => on_frame_exec(e, 4, EnemyState::FireStart),
            EnemyState::FireStart => on_frame_exec(e, 2, EnemyState::FireLoop),
            EnemyState::FireLoop => {},
            EnemyState::FireEnd => on_frame_exec(e, 1, EnemyState::FireStart),
        },
        EnemyType::Sweeper => match e.state {
            EnemyState::Move => on_frame_exec(e, 13, EnemyState::FireLoop),
            EnemyState::Idea => {
                e.frame = 0;
                e.state = EnemyState::FireLoop;
            },
            _ => {},
        },
        EnemyType::UnknownGuardianTypeF => match e.state {
            EnemyState::Move => on_frame_exec(e, 8, EnemyState::FireLoop),
            EnemyState::Idea => {
                e.frame = 0;
                e.state = EnemyState::FireLoop;
            },
            _ => {},
        },
    }
}

fn approach_pose_exec(e: &mut EnemyBrain)
    ensures
        *final(e) == approach_pose(*old(e)),
{
    match e.kind {
        EnemyType::DroneMissile | EnemyType::DroneVulcan => match e.state {
            EnemyState::Move => {},
            EnemyState::Idea => {
                e.state = EnemyState::Move;
            },
            EnemyState::FireLoop => {
                let last = fire_loop_last_exec(e.kind);
                on_frame_exec(e, last, EnemyState::FireEnd)
            },
            EnemyState::FireStart => on_frame_exec(e, 2, EnemyState::FireEnd),
            EnemyState::FireEnd => on_frame_exec(e, 1, EnemyState::Move),
        },
        EnemyType::Sweeper => match e.state {
            EnemyState::Idea => {
                e.frame = 0;
                e.state = EnemyState::Move;
            },
            EnemyState::FireLoop => on_frame_exec(e, 12, EnemyState::Move),
            _ => {},
        },
        EnemyType::UnknownGuardianTypeF => match e.state {
            EnemyState::Idea => {
                e.state = EnemyState::Move;
            },
            EnemyState::FireLoop => on_frame_exec(e, 7, EnemyState::Move),
            _ => {},
        },
    }
}

fn patrol_pose_exec(e: &mut EnemyBrain)
    ensures
        *final(e) == patrol_pose(*old(e)),
{
    match e.state {
        EnemyState::Move => {},
        EnemyState::Idea => {
            e.frame = 0;
            e.state = EnemyState::Move;
        },
        EnemyState::FireLoop => {
            let last = fire_loop_last_exec(e.kind);
            match e.kind {
                EnemyType::DroneMissile | EnemyType::DroneVulcan => on_frame_exec(e, last, EnemyState::FireEnd),
                _ => on_frame_exec(e, last, EnemyState::Move),
            }
        },
        EnemyState::FireStart => on_frame_exec(e, 2, EnemyState::FireEnd),
        EnemyState::FireEnd => on_frame_exec(e, 1, EnemyState::Move),
    }
}

/// One movement step of a robot, given how it sees the player; see
/// `enemy_move_step`.
pub fn handle_enemy_move(e: &mut EnemyBrain, sight: Sighting, delta_ns: u64) -> (m: EnemyMove)
    ensures
        (*final(e), m) == enemy_move_step(*old(e), sight, delta_ns),
{
    match sight {
        Sighting::Attack | Sighting::Approach => {
            let movement = match sight {
                Sighting::Attack => {
                    attack_pose_exec(e);
                    Movement::Hold
                },
                _ => {
                    approach_pose_exec(e);
                    Movement::Chase
                },
            };
            e.idle = Idleflag::Patrol;
            e.patrol.timer1.reset();
            e.patrol.timer2.reset();
            EnemyMove { movement, new_heading: false }
        },
        Sighting::Unseen => match e.idle {
            Idleflag::Patrol => {
                patrol_pose_exec(e);
                e.patrol.timer1.tick(delta_ns);
                if e.patrol.timer1.elapsed() >= e.patrol.duration_ns {
                    e.patrol.timer1.reset();
                    e.frame = 0;
                    e.state = EnemyState::Idea;
                    e.idle = Idleflag::Idle;
                    EnemyMove { movement: Movement::Wander, new_heading: true }
                } else {
                    EnemyMove { movement: Movement::Wander, new_heading: false }
                }
            },
            Idleflag::Idle => {
                e.patrol.timer2.tick(delta_ns);
                if e.patrol.timer2.elapsed() >= e.patrol.duration_ns {
                    e.patrol.timer2.reset();
                    e.frame = 0;
                    e.idle = Idleflag::Patrol;
                    EnemyMove { movement: Movement::Hold, new_heading: true }
                } else {
                    EnemyMove { movement: Movement::Hold, new_heading: false }
                }
            },
        },
    }
}

/// The frame of the firing loop on which a robot releases its projectile;
/// sweepers hit in melee instead.
pub open spec fn shot_frame(kind: EnemyType) -> Option<usize> {
    match kind {
        EnemyType::DroneMissile => Some(0usize),
        EnemyType::DroneVulcan => Some(1usize),
        EnemyType::UnknownGuardianTypeF => Some(4usize),
        EnemyType::Sweeper => None,
    }
}

/// The projectile a robot releases.
pub open spec fn shot_kind(kind: EnemyType) -> Option<EnemyBullet> {
    match kind {
        EnemyType::DroneMissile => Some(EnemyBullet::DroneMissile),
        EnemyType::DroneVulcan => Some(EnemyBullet::DroneVulcan),
        EnemyType::UnknownGuardianTypeF => Some(EnemyBullet::UnknownGuardian),
        EnemyType::Sweeper => None,
    }
}

/// Whether a robot shoots this frame: it is in its firing loop, on its shot
/// frame, and has not shot on this frame yet.
pub open spec fn shoots(e: EnemyBrain) -> bool {
    e.state == EnemyState::FireLoop && e.fire == Fireflag::Fire && shot_frame(e.kind) == Some(e.frame)
}

/// Lets a robot shoot if it may: returns the projectile it launches, and
/// marks the frame as used.
pub fn handle_enemy_fire(e: &mut EnemyBrain) -> (shot: Option<EnemyBullet>)
    ensures
        shoots(*old(e)) ==> shot == shot_kind(old(e).kind)
            && *final(e) == (EnemyBrain { fire: Fireflag::Done, ..*old(e) }),
        !shoots(*old(e)) ==> shot is None && *final(e) == *old(e),
{
    if e.state != EnemyState::FireLoop || e.fire != Fireflag::Fire {
        return None;
    }
    let (at, bullet) = match e.kind {
        EnemyType::DroneMissile => (0usize, EnemyBullet::DroneMissile),
        EnemyType::DroneVulcan => (1usize, EnemyBullet::DroneVulcan),
        EnemyType::UnknownGuardianTypeF => (4usize, EnemyBullet::UnknownGuardian),
        EnemyType::Sweeper => {
            return None;
        },
    };
    if e.frame == at {
        e.fire = Fireflag::Done;
        Some(bullet)
    } else {
        None
    }
}

/// The frames of a sweeper's swing that can hurt.
pub open spec fn sweeper_hit_frame(frame: usize) -> bool {
    (4 <= frame <= 5) || frame == 8 || frame == 10 || frame == 12
}

/// Whether a sweeper's swing hurts the player this frame: it is swinging,
/// on a hurting frame, with its blade still unused this frame, the player
/// stands in front of it within reach, and the player is not dodging.
pub open spec fn sweeper_hits(e: EnemyBrain, in_reach: bool, player_dodging: bool) -> bool {
    e.kind == EnemyType::Sweeper && e.state == EnemyState::FireLoop && sweeper_hit_frame(e.frame)
        && in_reach && e.fire == Fireflag::Fire && !player_dodging
}

/// Resolves a sweeper's swing; returns whether the player is hurt, in which
/// case the blade is spent for this frame.
pub fn handle_sweeper_hit(e: &mut EnemyBrain, in_reach: bool, player_dodging: bool) -> (hurt: bool)
    ensures
        hurt == sweeper_hits(*old(e), in_reach, player_dodging),
        hurt ==> *final(e) == (EnemyBrain { fire: Fireflag::Done, ..*old(e) }),
        !hurt ==> *final(e) == *old(e),
{
    let f = e.frame;
    if e.kind == EnemyType::Sweeper && e.state == EnemyState::FireLoop
        && ((4 <= f && f <= 5) || f == 8 || f == 10 || f == 12) && in_reach && e.fire == Fireflag::Fire
        && !player_dodging {
        e.fire = Fireflag::Done;
        true
    } else {
        false
    }
}

/// Number of animation frames of a robot in a given state.
pub open spec fn enemy_frame_count(kind: EnemyType, state: EnemyState) -> usize {
    match kind {
        EnemyType::Sweeper => match state {
            EnemyState::Move => 14,
            EnemyState::FireLoop => 13,
            _ => 1,
        },
        EnemyType::DroneVulcan => match state {
            EnemyState::Idea | EnemyState::Move => 5,
            EnemyState::FireLoop | EnemyState::FireStart => 3,
            EnemyState::FireEnd => 2,
        },
        EnemyType::DroneMissile => match state {
            EnemyState::Idea | EnemyState::Move | EnemyState::FireLoop => 5,
            EnemyState::FireEnd => 2,
            EnemyState::FireStart => 3,
        },
        EnemyType::UnknownGuardianTypeF => match state {
            EnemyState::Move => 9,
            EnemyState::FireLoop => 8,
            _ => 1,
        },
    }
}

fn enemy_frame_count_exec(kind: EnemyType, state: EnemyState) -> (n: usize)
    ensures
        n == enemy_frame_count(kind, state),
{
    match kind {
        EnemyType::Sweeper => match state {
            EnemyState::Move => 14,
            EnemyState::FireLoop => 13,
            _ => 1,
        },
        EnemyType::DroneVulcan => match state {
            EnemyState::Idea | EnemyState::Move => 5,
            EnemyState::FireLoop | EnemyState::FireStart => 3,
            EnemyState::FireEnd => 2,
        },
        EnemyType::DroneMissile => match state {
            EnemyState::Idea | EnemyState::Move | EnemyState::FireLoop => 5,
            EnemyState::FireEnd => 2,
            EnemyState::FireStart => 3,
        },
        EnemyType::UnknownGuardianTypeF => match state {
            EnemyState::Move => 9,
            EnemyState::FireLoop => 8,
            _ => 1,
        },
    }
}

/// Advances a robot's animation by one frame. A sweeper re-arms its blade on
/// every frame; the other robots re-arm their gun on the last frame of the
/// current animation.
pub fn animate_enemy(e: &mut EnemyBrain)
    ensures
        final(e).frame == looped(old(e).frame, enemy_frame_count(old(e).kind, old(e).state)),
        final(e).frame < enemy_frame_count(old(e).kind, old(e).state),
        final(e).fire == (if old(e).kind == EnemyType::Sweeper
            || final(e).frame == enemy_frame_count(old(e).kind, old(e).state) - 1 {
            Fireflag::Fire
        } else {
            old(e).fire
        }),
        *final(e) == (EnemyBrain { frame: final(e).frame, fire: final(e).fire, ..*old(e) }),
{
    let all = enemy_frame_count_exec(e.kind, e.state);
    e.frame = cycle_frame(e.frame, all);
    if e.kind == EnemyType::Sweeper || e.frame == all - 1 {
        e.fire = Fireflag::Fire;
    }
}

/// The sprite sheets of the robots.
#[derive(Clone, Copy, Debug, PartialEq, Eq, Structural)]
pub enum EnemySheet {
    SweeperIdle,
    SweeperMove,
    SweeperAttack,
    VulcanIdle,
    VulcanFireStart,
    VulcanFireLoop,
    VulcanFireEnd,
    MissileIdle,
    MissileFireStart,
    MissileFireLoop,
    MissileFireEnd,
    UnknownIdle,
    UnknownMove,
    UnknownAttack,
}

/// The sheet a robot shows in a state; `None` keeps the sheet it has (the
/// sweeper and the guardian have no separate start and end of firing).
pub open spec fn enemy_sheet(kind: EnemyType, state: EnemyState) -> Option<EnemySheet> {
    match kind {
        EnemyType::Sweeper => match state {
            EnemyState::Idea => Some(EnemySheet::SweeperIdle),
            EnemyState::Move => Some(EnemySheet::SweeperMove),
            EnemyState::FireLoop => Some(EnemySheet::SweeperAttack),
            _ => None,
        },
        EnemyType::DroneVulcan => match state {
            EnemyState::Move | EnemyState::Idea => Some(EnemySheet::VulcanIdle),
            EnemyState::FireStart => Some(EnemySheet::VulcanFireStart),
            EnemyState::FireLoop => Some(EnemySheet::VulcanFireLoop),
            EnemyState::FireEnd => Some(EnemySheet::VulcanFireEnd),
        },
        EnemyType::DroneMissile => match state {
            EnemyState::Move | EnemyState::Idea => Some(EnemySheet::MissileIdle),
            EnemyState::FireStart => Some(EnemySheet::MissileFireStart),
            EnemyState::FireLoop => Some(EnemySheet::MissileFireLoop),
            EnemyState::FireEnd => Some(EnemySheet::MissileFireEnd),
        },
        EnemyType::UnknownGuardianTypeF => match state {
            EnemyState::Idea => Some(EnemySheet::UnknownIdle),
            EnemyState::Move => Some(EnemySheet::UnknownMove),
            EnemyState::FireLoop => Some(EnemySheet::UnknownAttack),
            _ => None,
        },
    }
}

/// Picks the sprite sheet for a robot's state; see `enemy_sheet`.
pub fn handle_enemy_animation(kind: EnemyType, state: EnemyState) -> (s: Option<EnemySheet>)
    ensures
        s == enemy_sheet(kind, state),
{
    match kind {
        EnemyType::Sweeper => match state {
            EnemyState::Idea => Some(EnemySheet::SweeperIdle),
            EnemyState::Move => Some(EnemySheet::SweeperMove),
            EnemyState::FireLoop => Some(EnemySheet::SweeperAttack),
            _ => None,
        },
        EnemyType::DroneVulcan => match state {
            EnemyState::Move | EnemyState::Idea => Some(EnemySheet::VulcanIdle),
            EnemyState::FireStart => Some(EnemySheet::VulcanFireStart),
            EnemyState::FireLoop => Some(EnemySheet::VulcanFireLoop),
            EnemyState::FireEnd => Some(EnemySheet::VulcanFireEnd),
        },
        EnemyType::DroneMissile => match state {
            EnemyState::Move | EnemyState::Idea => Some(EnemySheet::MissileIdle),
            EnemyState::FireStart => Some(EnemySheet::MissileFireStart),
            EnemyState::FireLoop => Some(EnemySheet::MissileFireLoop),
            EnemyState::FireEnd => Some(EnemySheet::MissileFireEnd),
        },
        EnemyType::UnknownGuardianTypeF => match state {
            EnemyState::Idea => Some(EnemySheet::UnknownIdle),
            EnemyState::Move => Some(EnemySheet::UnknownMove),
            EnemyState::FireLoop => Some(EnemySheet::UnknownAttack),
            _ => None,
        },
    }
}

/// Number of frames of a robot projectile's animation.
pub open spec fn enemy_bullet_frame_count(b: EnemyBullet) -> usize {
    if b == EnemyBullet::DroneMissile { 5 } else { 4 }
}

/// Advances a robot projectile's looping animation by one frame.
pub fn animate_enemy_bullet(b: EnemyBullet, frame: usize) -> (next: usize)
    ensures
        next == looped(frame, enemy_bullet_frame_count(b)),
        next < enemy_bullet_frame_count(b),
{
    let all: usize = if b == EnemyBullet::DroneMissile { 5 } else { 4 };
    cycle_frame(frame, all)
}

/// What a projectile ran into.
#[derive(Clone, Copy, Debug, PartialEq, Eq, Structural)]
pub enum Contact {
    Enemy,
    Boss,
    EnemyProjectile,
    Other,
}

/// A robot projectile passes through robots, the boss and other robot
/// projectiles, and stops at anything else.
pub fn handle_enemy_bullet_collision_events(other: Contact) -> (stops: bool)
    ensures
        stops == (other == Contact::Other),
{
    match other {
        Contact::Other => true,
        _ => false,
    }
}

/// A robot that sees the player never falls back into the idle pose.
pub proof fn lemma_seen_robot_never_idles(e: EnemyBrain, sight: Sighting, delta_ns: u64)
    requires
        sight != Sighting::Unseen,
        e.state != EnemyState::Idea,
    ensures
        enemy_move_step(e, sight, delta_ns).0.state != EnemyState::Idea,
{
}

/// Seeing the player restarts both patrol clocks and puts the robot back
/// into its patrol routine.
pub proof fn lemma_sighting_resets_patrol(e: EnemyBrain, sight: Sighting, delta_ns: u64)
    requires
        sight != Sighting::Unseen,
    ensures
        enemy_move_step(e, sight, delta_ns).0.patrol.timer1.elapsed_ns == 0,
        enemy_move_step(e, sight, delta_ns).0.patrol.timer2.elapsed_ns == 0,
        enemy_move_step(e, sight, delta_ns).0.idle == Idleflag::Patrol,
        !enemy_move_step(e, sight, delta_ns).1.new_heading,
{
}

/// An unseen robot alternates between walking and resting: each phase ends
/// after its duration, with a new heading, and switches to the other.
pub proof fn lemma_patrol_alternates(e: EnemyBrain, delta_ns: u64)
    ensures
        enemy_move_step(e, Sighting::Unseen, delta_ns).1.new_heading
            <==> enemy_move_step(e, Sighting::Unseen, delta_ns).0.idle != e.idle,
        e.idle == Idleflag::Idle ==> enemy_move_step(e, Sighting::Unseen, delta_ns).1.movement == Movement::Hold,
        e.idle == Idleflag::Patrol ==> enemy_move_step(e, Sighting::Unseen, delta_ns).1.movement == Movement::Wander,
{
}

/// A robot never changes kind, whatever happens to it.
pub proof fn lemma_robot_keeps_kind(e: EnemyBrain, sight: Sighting, delta_ns: u64)
    ensures
        enemy_move_step(e, sight, delta_ns).0.kind == e.kind,
{
}

/// The frame on which a walking robot's animation lets it open an attack.
pub open spec fn attack_opening_frame(kind: EnemyType) -> int {
    match kind {
        EnemyType::Sweeper => 13,
        EnemyType::UnknownGuardianTypeF => 8,
        _ => 4,
    }
}

/// The last frame of each kind's attack loop: 4 for the missile drone, 2 for
/// the vulcan drone, 12 for the sweeper, 7 for the guardian.
pub open spec fn attack_loop_end(kind: EnemyType) -> int {
    match kind {
        EnemyType::DroneMissile => 4,
        EnemyType::DroneVulcan => 2,
        EnemyType::Sweeper => 12,
        EnemyType::UnknownGuardianTypeF => 7,
    }
}

/// A robot with the player in attack reach holds still and attacks: every
/// kind can get there from walking. A walking robot keeps walking until the
/// frame on which its walk lets it strike (13 for the sweeper, 8 for the
/// guardian, 4 for the drones) and then starts its attack from frame 0: the
/// sweeper and the guardian go straight into their attack loop, the drones
/// into their firing start. An idle sweeper or guardian attacks at once.
pub proof fn lemma_attack_from_walk(e: EnemyBrain, delta_ns: u64)
    ensures
        ({
            let (n, m) = enemy_move_step(e, Sighting::Attack, delta_ns);
            &&& m.movement == Movement::Hold && !m.new_heading
            &&& n.kind == e.kind
            &&& e.state == EnemyState::Move && e.frame != attack_opening_frame(e.kind) ==>
                n.state == EnemyState::Move && n.frame == e.frame
            &&& e.state == EnemyState::Move && e.frame == attack_opening_frame(e.kind) ==> n.frame == 0 && n.state == (
                if e.kind == EnemyType::Sweeper || e.kind == EnemyType::UnknownGuardianTypeF {
                    EnemyState::FireLoop
                } else {
                    EnemyState::FireStart
                })
            &&& e.state == EnemyState::Idea && (e.kind == EnemyType::Sweeper || e.kind == EnemyType::UnknownGuardianTypeF) ==>
                n.state == EnemyState::FireLoop && n.frame == 0
            &&& e.state == EnemyState::FireLoop ==> n.state == EnemyState::FireLoop && n.frame == e.frame
        }),
{
}

/// A robot that sees the player out of attack reach heads for the player:
/// an idle one starts walking, one in its attack loop walks again after the
/// loop's last frame (drones through their firing end), and a walking one
/// keeps walking.
pub proof fn lemma_approach_walks(e: EnemyBrain, delta_ns: u64)
    ensures
        ({
            let (n, m) = enemy_move_step(e, Sighting::Approach, delta_ns);
            &&& m.movement == Movement::Chase && !m.new_heading
            &&& n.kind == e.kind
            &&& e.state == EnemyState::Idea ==> n.state == EnemyState::Move
            &&& e.state == EnemyState::Move ==> n.state == EnemyState::Move && n.frame == e.frame
            &&& e.state == EnemyState::FireLoop && e.frame == attack_loop_end(e.kind) ==> n.frame == 0 && n.state == (
                if e.kind == EnemyType::Sweeper || e.kind == EnemyType::UnknownGuardianTypeF {
                    EnemyState::Move
                } else {
                    EnemyState::FireEnd
                })
            &&& e.state == EnemyState::FireLoop && e.frame != attack_loop_end(e.kind) ==> n.state == EnemyState::FireLoop && n.frame == e.frame
        }),
{
}

/// A robot changes pose only when its running animation ends: while it sees
/// the player, it leaves a pose other than idle only on the last frame of
/// that pose's animation, and starts the next one from frame 0.
pub proof fn lemma_poses_change_on_last_frame(e: EnemyBrain, sight: Sighting, delta_ns: u64)
    requires
        sight != Sighting::Unseen,
        e.state != EnemyState::Idea,
    ensures
        ({
            let n = enemy_move_step(e, sight, delta_ns).0;
            n.state != e.state ==> e.frame + 1 == enemy_frame_count(e.kind, e.state) && n.frame == 0
        }),
{
}

/// Robots shoot in their firing loop, once per frame: the missile drone
/// launches a missile on frame 0, the vulcan drone a vulcan round on frame
/// 1, the guardian its round on frame 4; sweepers never shoot.
pub proof fn lemma_robot_shots(e: EnemyBrain)
    ensures
        shoots(e) <==> (e.state == EnemyState::FireLoop && e.fire == Fireflag::Fire && (
            (e.kind == EnemyType::DroneMissile && e.frame == 0)
            || (e.kind == EnemyType::DroneVulcan && e.frame == 1)
            || (e.kind == EnemyType::UnknownGuardianTypeF && e.frame == 4))),
        e.kind == EnemyType::DroneMissile ==> shot_kind(e.kind) == Some(EnemyBullet::DroneMissile),
        e.kind == EnemyType::DroneVulcan ==> shot_kind(e.kind) == Some(EnemyBullet::DroneVulcan),
        e.kind == EnemyType::UnknownGuardianTypeF ==> shot_kind(e.kind) == Some(EnemyBullet::UnknownGuardian),
        e.kind == EnemyType::Sweeper ==> shot_kind(e.kind) is None,
{
}

/// A sweeper's swing hurts on frames 4, 5, 8, 10 and 12 of its attack
/// loop, at most once per frame, only a player in reach who is not
/// dodging; other robots never hit in melee.
pub proof fn lemma_sweeper_swing(e: EnemyBrain, in_reach: bool, player_dodging: bool)
    ensures
        sweeper_hits(e, in_reach, player_dodging) <==> (e.kind == EnemyType::Sweeper
            && e.state == EnemyState::FireLoop && e.fire == Fireflag::Fire && in_reach && !player_dodging
            && (e.frame == 4 || e.frame == 5 || e.frame == 8 || e.frame == 10 || e.frame == 12)),
{
}

/// A robot that does not see the player alternates walking and resting:
/// while walking it wanders until its walk clock reaches the phase length,
/// then rests in the idle pose from frame 0 with a new heading; while
/// resting it holds until its rest clock reaches the phase length, then
/// walks again with a new heading.
pub proof fn lemma_unseen_walk_and_rest(e: EnemyBrain, delta_ns: u64)
    ensures
        ({
            let (n, m) = enemy_move_step(e, Sighting::Unseen, delta_ns);
            &&& n.kind == e.kind
            &&& e.idle == Idleflag::Patrol ==> m.movement == Movement::Wander
            &&& e.idle == Idleflag::Patrol && e.patrol.timer1.elapsed_ns + delta_ns >= e.patrol.duration_ns ==>
                m.new_heading && n.idle == Idleflag::Idle && n.state == EnemyState::Idea && n.frame == 0
                    && n.patrol.timer1.elapsed_ns == 0
            &&& e.idle == Idleflag::Patrol && e.patrol.timer1.elapsed_ns + delta_ns < e.patrol.duration_ns ==>
                !m.new_heading && n.idle == Idleflag::Patrol && n.patrol.timer1.elapsed_ns == e.patrol.timer1.elapsed_ns + delta_ns
            &&& e.idle == Idleflag::Idle ==> m.movement == Movement::Hold && n.state == e.state
            &&& e.idle == Idleflag::Idle && e.patrol.timer2.elapsed_ns + delta_ns >= e.patrol.duration_ns ==>
                m.new_heading && n.idle == Idleflag::Patrol && n.frame == 0 && n.patrol.timer2.elapsed_ns == 0
            &&& e.idle == Idleflag::Idle && e.patrol.timer2.elapsed_ns + delta_ns < e.patrol.duration_ns ==>
                !m.new_heading && n.idle == Idleflag::Idle && n.patrol.timer2.elapsed_ns == e.patrol.timer2.elapsed_ns + delta_ns
        }),
{
}

/// Spawn requests: id 1 is a sweeper, 2 a missile drone, 3 a vulcan drone
/// and 4 the guardian; a random spawn (id 0) with roll `r` gives the same
/// robot as the request for id `r + 1`, so each of the four kinds can come
/// up. Every new robot stands idle on frame 0, patrolling with fresh clocks
/// and a half-second phase, its gun ready.
pub proof fn lemma_spawn_requests(id: u8, roll: u32)
    requires
        id <= 4,
        roll < ENEMY_KINDS,
    ensures
        requested_kind(1, roll) == EnemyType::Sweeper,
        requested_kind(2, roll) == EnemyType::DroneMissile,
        requested_kind(3, roll) == EnemyType::DroneVulcan,
        requested_kind(4, roll) == EnemyType::UnknownGuardianTypeF,
        requested_kind(0, roll) == requested_kind((roll + 1) as u8, 0),
        ({
            let e = fresh_enemy(requested_kind(id, roll));
            &&& e.kind == requested_kind(id, roll)
            &&& e.state == EnemyState::Idea && e.frame == 0
            &&& e.idle == Idleflag::Patrol && e.fire == Fireflag::Fire
            &&& e.patrol.timer1.elapsed_ns == 0 && e.patrol.timer2.elapsed_ns == 0
            &&& e.patrol.duration_ns == 500 * NANOS_PER_MILLI
        }),
{
}

/// Each robot kind shows only its own sheets, and its firing loop its own
/// attack sheet: the sweeper and the guardian keep their sheet between
/// their poses, the drones have a sheet for each part of their firing.
pub proof fn lemma_robot_sheets(kind: EnemyType, state: EnemyState)
    ensures
        kind == EnemyType::Sweeper ==> enemy_sheet(kind, EnemyState::FireLoop) == Some(EnemySheet::SweeperAttack),
        kind == EnemyType::DroneVulcan ==> enemy_sheet(kind, EnemyState::FireLoop) == Some(EnemySheet::VulcanFireLoop),
        kind == EnemyType::DroneMissile ==> enemy_sheet(kind, EnemyState::FireLoop) == Some(EnemySheet::MissileFireLoop),
        kind == EnemyType::UnknownGuardianTypeF ==> enemy_sheet(kind, EnemyState::FireLoop) == Some(EnemySheet::UnknownAttack),
        kind == EnemyType::Sweeper && enemy_sheet(kind, state) is Some ==> (enemy_sheet(kind, state) == Some(EnemySheet::SweeperIdle)
            || enemy_sheet(kind, state) == Some(EnemySheet::SweeperMove) || enemy_sheet(kind, state) == Some(EnemySheet::SweeperAttack)),
        kind == EnemyType::UnknownGuardianTypeF && enemy_sheet(kind, state) is Some ==> (enemy_sheet(kind, state) == Some(EnemySheet::UnknownIdle)
            || enemy_sheet(kind, state) == Some(EnemySheet::UnknownMove) || enemy_sheet(kind, state) == Some(EnemySheet::UnknownAttack)),
        (kind == EnemyType::DroneVulcan || kind == EnemyType::DroneMissile) ==> enemy_sheet(kind, state) is Some,
        kind == EnemyType::DroneVulcan && state == EnemyState::FireStart ==> enemy_sheet(kind, state) == Some(EnemySheet::VulcanFireStart),
        kind == EnemyType::DroneVulcan && state == EnemyState::FireEnd ==> enemy_sheet(kind, state) == Some(EnemySheet::VulcanFireEnd),
        kind == EnemyType::DroneMissile && state == EnemyState::FireStart ==> enemy_sheet(kind, state) == Some(EnemySheet::MissileFireStart),
        kind == EnemyType::DroneMissile && state == EnemyState::FireEnd ==> enemy_sheet(kind, state) == Some(EnemySheet::MissileFireEnd),
{
}

} // verus!
