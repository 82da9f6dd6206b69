use vstd::prelude::*;
use crate::score::ScoreResource;
use crate::clock::{Stopwatch, NANOS_PER_MILLI};
use crate::rng::random_in;

verus! {

/// The exit door of a room: 0 locked, 1 ready to open, 2 opening, 3 open,
/// 4 closing.
#[derive(Clone, Copy, Debug, PartialEq, Eq, Structural)]
pub struct Door(pub i32);

/// A chest or a chest's glow: 0 glow effect, 1 big and locked, 2 small and
/// locked, 3 big and ready, 4 small and ready, 5 big and opening, 6 small and
/// opening, 7 opened.
#[derive(Clone, Copy, Debug, PartialEq, Eq, Structural)]
pub struct Chest(pub i32);

/// What a chest holds: 0 the best reward, 1 a big reward, 2 a small one.
#[derive(Clone, Copy, Debug, PartialEq, Eq, Structural)]
pub struct ChestType(pub u8);

/// Whether a spawn point is currently spawning.
#[derive(Clone, Copy, Debug, PartialEq, Eq, Structural)]
pub struct Enemybornflag(pub bool);

/// How many more waves a spawn point has; above 3 it keeps spawning on a
/// timer until it is silenced.
#[derive(Clone, Copy, Debug, PartialEq, Eq, Structural)]
pub struct Enemyterm(pub u8);

/// The clock of a timed spawn point, and the current wait between spawns.
#[derive(Clone, Copy, Debug, PartialEq, Eq, Structural)]
pub struct Enemybornduration {
    pub timer: Stopwatch,
    pub duration_ns: u64,
}

/// A place in a room where robots appear.
#[derive(Clone, Copy, Debug, PartialEq, Eq, Structural)]
pub struct SpawnPoint {
    pub born: Enemybornflag,
    pub term: Enemyterm,
    pub duration: Enemybornduration,
}

/// How many waves the statue room's base has to hold out.
#[derive(Clone, Copy, Debug, PartialEq, Eq, Structural)]
pub struct Progress(pub u8);

/// The waves a wave spawn point starts with when its room is built.
pub open spec fn wave_point(term: u8) -> SpawnPoint {
    SpawnPoint {
        born: Enemybornflag(false),
        term: Enemyterm(term),
        duration: Enemybornduration { timer: Stopwatch { elapsed_ns: 0 }, duration_ns: (1000 * NANOS_PER_MILLI) as u64 },
    }
}

/// A spawn point for a room's robot object: it holds one to three waves.
pub fn enemy_point() -> (p: SpawnPoint)
    ensures
        1 <= p.term.0 <= 3,
        p == wave_point(p.term.0),
{
    let term = random_in(1, 4) as u8;
    SpawnPoint {
        born: Enemybornflag(false),
        term: Enemyterm(term),
        duration: Enemybornduration { timer: Stopwatch::new(), duration_ns: 1000 * NANOS_PER_MILLI },
    }
}

/// A spawn point that keeps producing robots on a timer until silenced.
pub fn repeating_point() -> (p: SpawnPoint)
    ensures
        p == (SpawnPoint { born: Enemybornflag(true), ..wave_point(10) }),
{
    SpawnPoint {
        born: Enemybornflag(true),
        term: Enemyterm(10),
        duration: Enemybornduration { timer: Stopwatch::new(), duration_ns: 1000 * NANOS_PER_MILLI },
    }
}

/// The objects a room layout places.
#[derive(Clone, Copy, Debug, PartialEq, Eq, Structural)]
pub enum MapObject {
    Player,
    Enemy,
    RepeatingEnemy,
    Boss,
    Base,
    Door,
    Chest,
    Parkour,
    Other,
}

/// What building one object of a room asks of the engine.
#[derive(Clone, Copy, Debug, PartialEq, Eq, Structural)]
pub struct ObjectSetup {
    /// The player is moved onto the object.
    pub move_player: bool,
    /// A robot hatches at the object, and this spawn point stays there.
    pub spawn_point: Option<SpawnPoint>,
    /// The boss hatches at the object (with the boss setup event).
    pub boss: bool,
    /// The base to defend stands at the object (with the base setup event),
    /// its progress at 1.
    pub base: Option<Progress>,
    /// The room's door stands at the object.
    pub door: Option<Door>,
    /// A chest stands at the object (its kind is drawn by `spawn_chest`).
    pub chest: bool,
}

/// How each object of a room is built: robot objects get a wave point
/// (`waves`, drawn once per batch of objects) or a repeating point, the door
/// starts locked, the base starts at progress 1; a parkour marker and
/// unknown objects build nothing.
pub open spec fn object_setup_spec(o: MapObject, waves: SpawnPoint) -> ObjectSetup {
    let none = ObjectSetup { move_player: false, spawn_point: None, boss: false, base: None, door: None, chest: false };
    match o {
        MapObject::Player => ObjectSetup { move_player: true, ..none },
        MapObject::Enemy => ObjectSetup { spawn_point: Some(waves), ..none },
        MapObject::RepeatingEnemy => ObjectSetup {
            spawn_point: Some(SpawnPoint { born: Enemybornflag(true), ..wave_point(10) }),
            ..none
        },
        MapObject::Boss => ObjectSetup { boss: true, ..none },
        MapObject::Base => ObjectSetup { base: Some(Progress(1)), ..none },
        MapObject::Door => ObjectSetup { door: Some(Door(0)), ..none },
        MapObject::Chest => ObjectSetup { chest: true, ..none },
        _ => none,
    }
}

/// How one object of a room is built; see `object_setup_spec`.
pub fn object_setup(o: MapObject, waves: SpawnPoint) -> (s: ObjectSetup)
    ensures
        s == object_setup_spec(o, waves),
{
    let none = ObjectSetup { move_player: false, spawn_point: None, boss: false, base: None, door: None, chest: false };
    match o {
        MapObject::Player => ObjectSetup { move_player: true, ..none },
        MapObject::Enemy => ObjectSetup { spawn_point: Some(waves), ..none },
        MapObject::RepeatingEnemy => ObjectSetup { spawn_point: Some(repeating_point()), ..none },
        MapObject::Boss => ObjectSetup { boss: true, ..none },
        MapObject::Base => ObjectSetup { base: Some(Progress(1)), ..none },
        MapObject::Door => ObjectSetup { door: Some(Door(0)), ..none },
        MapObject::Chest => ObjectSetup { chest: true, ..none },
        _ => none,
    }
}

/// Whether the room just built is a parkour room, where clearing makes no
/// sound: one of the objects built this frame is the parkour marker.
pub fn controller_mode(objects: &Vec<MapObject>) -> (c: bool)
    ensures
        c == objects@.contains(MapObject::Parkour),
{
    let mut i: usize = 0;
    while i < objects.len()
        invariant
            i <= objects@.len(),
            forall|j: int| 0 <= j < i ==> objects@[j] != MapObject::Parkour,
        decreases objects@.len() - i,
    {
        if objects[i] == MapObject::Parkour {
            return true;
        }
        i += 1;
    }
    false
}

/// Shortest and longest wait of a repeating spawn point, in milliseconds.
pub const RESPAWN_MIN_MS: u32 = 500;
pub const RESPAWN_MAX_MS: u32 = 2000;

/// Whether a spawn point needs a fresh random wait this frame.
pub open spec fn respawn_due(p: SpawnPoint, delta_ns: u64) -> bool {
    p.born.0 && p.term.0 > 3 && p.duration.timer.ticked(delta_ns).elapsed_ns >= p.duration.duration_ns
}

/// One frame of a spawn point: the point afterwards and whether a robot
/// appears. A spawning point with waves left releases a wave and waits; a
/// repeating point releases a robot whenever its clock runs out and then
/// waits `roll_ms` milliseconds; a waiting point with waves left starts
/// spawning again once the room is empty of robots.
pub open spec fn spawn_point_step(p: SpawnPoint, enemies_alive: bool, delta_ns: u64, roll_ms: u32) -> (SpawnPoint, bool) {
    if p.born.0 {
        if p.term.0 == 0 {
            (p, false)
        } else if p.term.0 <= 3 {
            (SpawnPoint { born: Enemybornflag(false), term: Enemyterm((p.term.0 - 1) as u8), ..p }, true)
        } else {
            let t = p.duration.timer.ticked(delta_ns);
            if t.elapsed_ns >= p.duration.duration_ns {
                (SpawnPoint {
                    duration: Enemybornduration {
                        timer: Stopwatch { elapsed_ns: 0 },
                        duration_ns: (roll_ms * NANOS_PER_MILLI) as u64,
                    },
                    ..p
                }, true)
            } else {
                (SpawnPoint { duration: Enemybornduration { timer: t, ..p.duration }, ..p }, false)
            }
        }
    } else if p.term.0 != 0 && !enemies_alive {
        (SpawnPoint { born: Enemybornflag(true), ..p }, false)
    } else {
        (p, false)
    }
}

/// Whether a spawn point has a say on whether its room is done, and what it
/// says: a spawning point says done only when it has no waves left; a
/// waiting point with waves left says not done.
pub open spec fn point_speaks(p: SpawnPoint) -> bool {
    p.born.0 || p.term.0 != 0
}

pub open spec fn point_says_done(p: SpawnPoint) -> bool {
    p.born.0 && p.term.0 == 0
}

/// Whether the spawn points let the room count as done: the last point that
/// has a say decides; with no such point the room is done.
pub open spec fn points_quiet(ps: Seq<SpawnPoint>) -> bool
    decreases ps.len(),
{
    if ps.len() == 0 {
        true
    } else if point_speaks(ps.last()) {
        point_says_done(ps.last())
    } else {
        points_quiet(ps.drop_last())
    }
}

fn spawn_point_step_exec(p: &mut SpawnPoint, enemies_alive: bool, delta_ns: u64, roll_ms: u32) -> (spawn: bool)
    requires
        roll_ms <= RESPAWN_MAX_MS,
    ensures
        (*final(p), spawn) == spawn_point_step(*old(p), enemies_alive, delta_ns, roll_ms),
{
    if p.born.0 {
        if p.term.0 == 0 {
            false
        } else if p.term.0 <= 3 {
            p.born = Enemybornflag(false);
            p.term = Enemyterm(p.term.0 - 1);
            true
        } else {
            p.duration.timer.tick(delta_ns);
            if p.duration.timer.elapsed() >= p.duration.duration_ns {
                p.duration.timer.reset();
                p.duration.duration_ns = (roll_ms as u64) * NANOS_PER_MILLI;
                true
            } else {
                false
            }
        }
    } else if p.term.0 != 0 && !enemies_alive {
        p.born = Enemybornflag(true);
        false
    } else {
        false
    }
}

/// Whether `(q, spawn)` is the step of spawn point `p` for some wait drawn
/// between 500 and 2000 milliseconds.
pub open spec fn stepped_by_some_roll(p: SpawnPoint, q: SpawnPoint, spawn: bool, enemies_alive: bool, delta_ns: u64) -> bool {
    exists|roll_ms: u32|
        RESPAWN_MIN_MS <= roll_ms <= RESPAWN_MAX_MS && (q, spawn) == spawn_point_step(p, enemies_alive, delta_ns, roll_ms)
}

/// What the room check found this frame.
pub struct RoomCheck {
    /// `spawns[i]`: spawn point `i` releases a robot.
    pub spawns: Vec<bool>,
    /// No robot, no boss, and the spawn points let the room count as done.
    pub cleared: bool,
    /// The clearing sound plays this frame.
    pub play_sound: bool,
    /// The player leaves the room this frame: the next room is loaded behind
    /// a screen transition.
    pub leave: bool,
}

/// What the room check sees of the world this frame.
#[derive(Clone, Copy, Debug, PartialEq, Eq, Structural)]
pub struct RoomView {
    /// A robot, or a robot still hatching, is in the room.
    pub enemies_alive: bool,
    /// A boss is in the room.
    pub boss_alive: bool,
    /// Time since the previous frame.
    pub delta_ns: u64,
    /// The player stands within reach of the door.
    pub near_door: bool,
    /// The use key was pressed this frame.
    pub use_pressed: bool,
    /// A screen transition is running.
    pub transition_running: bool,
}

/// Whether the room counts as cleared for spawn points `ps`.
pub open spec fn room_cleared(ps: Seq<SpawnPoint>, view: RoomView) -> bool {
    !view.enemies_alive && !view.boss_alive && points_quiet(ps)
}

/// Whether the player leaves the room for spawn points `ps` and door `door`.
pub open spec fn leaves_room(ps: Seq<SpawnPoint>, door: Door, view: RoomView) -> bool {
    room_cleared(ps, view) && view.near_door && door.0 == 3 && view.use_pressed && !view.transition_running
}

/// The room check, run every frame of a fight: every spawn point takes its
/// step (a repeating point that fires draws its next wait from 500 to 2000
/// ms), and the room counts as cleared when no robot and no boss is left and
/// the spawn points agree. In a cleared room the locked door becomes ready
/// to open, locked chests become ready, and the clearing sound plays once:
/// `clear_sound` latches when it plays, and nothing here lowers it again.
/// A parkour room (`controller_mode` in the run's record) makes no sound.
/// The player leaves a cleared room through the open door when standing
/// near it and pressing the use key while no transition runs; the record
/// then counts one more room cleared.
pub fn check_ifcomplete(
    points: &mut Vec<SpawnPoint>,
    door: &mut Door,
    chests: &mut Vec<Chest>,
    clear_sound: &mut bool,
    score: &mut ScoreResource,
    view: RoomView,
) -> (r: RoomCheck)
    requires
        leaves_room(old(points)@, *old(door), view) ==> old(score).map_index < 255,
    ensures
        final(points)@.len() == old(points)@.len(),
        r.spawns@.len() == old(points)@.len(),
        forall|i: int| 0 <= i < old(points)@.len() ==> stepped_by_some_roll(old(points)@[i], #[trigger] final(points)@[i], r.spawns@[i], view.enemies_alive, view.delta_ns),
        forall|i: int| 0 <= i < old(points)@.len() && !respawn_due(old(points)@[i], view.delta_ns) ==>
            (#[trigger] final(points)@[i], r.spawns@[i]) == spawn_point_step(old(points)@[i], view.enemies_alive, view.delta_ns, RESPAWN_MIN_MS),
        r.cleared == room_cleared(old(points)@, view),
        r.play_sound == (r.cleared && !*old(clear_sound) && !old(score).controller_mode),
        *final(clear_sound) == (*old(clear_sound) || r.play_sound),
        sound_latch_step(*old(clear_sound), r.play_sound, *final(clear_sound)),
        *final(door) == (if r.cleared && old(door).0 == 0 { Door(1) } else { *old(door) }),
        final(chests)@.len() == old(chests)@.len(),
        forall|i: int| 0 <= i < old(chests)@.len() ==>
            #[trigger] final(chests)@[i] == (if r.cleared { unlocked(old(chests)@[i]) } else { old(chests)@[i] }),
        r.leave == leaves_room(old(points)@, *old(door), view),
        *final(score) == (if r.leave {
            ScoreResource { map_index: (old(score).map_index + 1) as u8, ..*old(score) }
        } else {
            *old(score)
        }),
{
    let (spawns, quiet) = step_spawn_points(points, view.enemies_alive, view.delta_ns);
    let cleared = !view.enemies_alive && !view.boss_alive && quiet;
    let mut play_sound = false;
    let mut leave = false;
    if cleared {
        let ghost door_before = *door;
        play_sound = room_clear_effects(door, chests, clear_sound, score.controller_mode);
        leave = may_leave(*door, view.near_door, view.use_pressed, view.transition_running);
        assert(leave == (view.near_door && door_before.0 == 3 && view.use_pressed && !view.transition_running));
        if leave {
            score.room_cleared();
        }
    }
    RoomCheck { spawns, cleared, play_sound, leave }
}

/// One room check's effect on the clearing-sound latch: the sound plays only
/// while the latch is down, and the latch is up afterwards exactly when it
/// was up before or the sound played.
pub open spec fn sound_latch_step(before: bool, play: bool, after: bool) -> bool {
    (play ==> !before) && after == (before || play)
}

/// How many times the clearing sound played over a run of room checks.
pub open spec fn times_played(sounds: Seq<bool>) -> nat
    decreases sounds.len(),
{
    if sounds.len() == 0 {
        0
    } else {
        times_played(sounds.drop_last()) + if sounds.last() { 1nat } else { 0nat }
    }
}

/// The clearing sound plays at most once: over any run of room checks that
/// starts with the latch down, where `latch[i]` is the latch before check
/// `i` and nothing else lowers it between checks, the sound plays once if
/// the latch ends up and never otherwise.
pub proof fn lemma_clear_sound_plays_once(latch: Seq<bool>, sounds: Seq<bool>)
    requires
        latch.len() == sounds.len() + 1,
        !latch[0],
        forall|i: int| 0 <= i < sounds.len() ==> sound_latch_step(latch[i], #[trigger] sounds[i], latch[i + 1]),
    ensures
        times_played(sounds) == (if latch.last() { 1nat } else { 0nat }),
        times_played(sounds) <= 1,
    decreases sounds.len(),
{
    if sounds.len() > 0 {
        let n = sounds.len() - 1;
        let l2 = latch.drop_last();
        let s2 = sounds.drop_last();
        assert forall|i: int| 0 <= i < s2.len() implies sound_latch_step(l2[i], #[trigger] s2[i], l2[i + 1]) by {
            assert(sound_latch_step(latch[i], sounds[i], latch[i + 1]));
        }
        lemma_clear_sound_plays_once(l2, s2);
        assert(sound_latch_step(latch[n], sounds[n], latch[n + 1]));
        assert(l2.last() == latch[n]);
    }
}

/// Every spawn point takes its step; the second result says whether the
/// spawn points let the room count as done.
fn step_spawn_points(points: &mut Vec<SpawnPoint>, enemies_alive: bool, delta_ns: u64) -> (r: (Vec<bool>, bool))
    ensures
        final(points)@.len() == old(points)@.len(),
        r.0@.len() == old(points)@.len(),
        forall|i: int| 0 <= i < old(points)@.len() ==> stepped_by_some_roll(old(points)@[i], #[trigger] final(points)@[i], r.0@[i], enemies_alive, delta_ns),
        forall|i: int| 0 <= i < old(points)@.len() && !respawn_due(old(points)@[i], delta_ns) ==>
            (#[trigger] final(points)@[i], r.0@[i]) == spawn_point_step(old(points)@[i], enemies_alive, delta_ns, RESPAWN_MIN_MS),
        r.1 == points_quiet(old(points)@),
{
    let n = points.len();
    let mut spawns: Vec<bool> = Vec::new();
    let mut quiet = true;
    let mut i: usize = 0;
    while i < n
        invariant
            n == old(points)@.len(),
            points@.len() == n,
            i <= n,
            spawns@.len() == i,
            forall|j: int| 0 <= j < i ==> stepped_by_some_roll(old(points)@[j], #[trigger] points@[j], spawns@[j], enemies_alive, delta_ns),
            forall|j: int| 0 <= j < i && !respawn_due(old(points)@[j], delta_ns) ==>
                (#[trigger] points@[j], spawns@[j]) == spawn_point_step(old(points)@[j], enemies_alive, delta_ns, RESPAWN_MIN_MS),
            forall|j: int| i <= j < n ==> points@[j] == old(points)@[j],
            quiet == points_quiet(old(points)@.take(i as int)),
        decreases n - i,
    {
        let ghost prev_points = points@;
        let ghost prev_spawns = spawns@;
        let mut p = points[i];
        assert(old(points)@.take(i + 1).drop_last() =~= old(points)@.take(i as int));
        if p.born.0 || p.term.0 != 0 {
            quiet = p.born.0 && p.term.0 == 0;
        }
        let due = p.born.0 && p.term.0 > 3
            && p.duration.timer.elapsed().saturating_add(delta_ns) >= p.duration.duration_ns;
        let roll_ms = if due {
            random_in(RESPAWN_MIN_MS, RESPAWN_MAX_MS + 1)
        } else {
            RESPAWN_MIN_MS
        };
        let spawn = spawn_point_step_exec(&mut p, enemies_alive, delta_ns, roll_ms);
        points.set(i, p);
        spawns.push(spawn);
        assert((points@[i as int], spawns@[i as int]) == spawn_point_step(old(points)@[i as int], enemies_alive, delta_ns, roll_ms));
        assert forall|j: int| 0 <= j < i + 1 implies
            stepped_by_some_roll(old(points)@[j], #[trigger] points@[j], spawns@[j], enemies_alive, delta_ns) by {
            if j == i {
                assert(RESPAWN_MIN_MS <= roll_ms <= RESPAWN_MAX_MS);
            } else {
                assert(points@[j] == prev_points[j]);
                assert(spawns@[j] == prev_spawns[j]);
            }
        }
        i += 1;
    }
    assert(old(points)@.take(n as int) =~= old(points)@);
    (spawns, quiet)
}

/// Stops every spawn point for good: no waves are left anywhere. Used when
/// the base holds out or the boss falls.
pub fn silence_spawn_points(points: &mut Vec<SpawnPoint>)
    ensures
        final(points)@.len() == old(points)@.len(),
        forall|i: int| 0 <= i < old(points)@.len() ==>
            #[trigger] final(points)@[i] == (SpawnPoint { term: Enemyterm(0), ..old(points)@[i] }),
{
    let n = points.len();
    let mut i: usize = 0;
    while i < n
        invariant
            n == old(points)@.len(),
            points@.len() == n,
            i <= n,
            forall|j: int| 0 <= j < i ==> #[trigger] points@[j] == (SpawnPoint { term: Enemyterm(0), ..old(points)@[j] }),
            forall|j: int| i <= j < n ==> points@[j] == old(points)@[j],
        decreases n - i,
    {
        let mut p = points[i];
        p.term = Enemyterm(0);
        points.set(i, p);
        i += 1;
    }
}

/// Once its spawn points are silenced, a room is no longer held open by them.
pub proof fn lemma_silenced_points_are_quiet(ps: Seq<SpawnPoint>)
    requires
        forall|i: int| 0 <= i < ps.len() ==> (#[trigger] ps[i]).term.0 == 0,
    ensures
        points_quiet(ps),
    decreases ps.len(),
{
    if ps.len() > 0 {
        assert(ps.last().term.0 == 0);
        let rest = ps.drop_last();
        assert forall|i: int| 0 <= i < rest.len() implies (#[trigger] rest[i]).term.0 == 0 by {
            assert(rest[i] == ps[i]);
        }
        lemma_silenced_points_are_quiet(rest);
    }
}

/// A wave spawn point releases exactly as many robots as it had waves, one
/// per time the room empties: each release takes one wave away.
pub proof fn lemma_wave_release_counts_down(p: SpawnPoint, enemies_alive: bool, delta_ns: u64, roll_ms: u32)
    requires
        p.term.0 <= 3,
    ensures
        spawn_point_step(p, enemies_alive, delta_ns, roll_ms).1
            ==> spawn_point_step(p, enemies_alive, delta_ns, roll_ms).0.term.0 == p.term.0 - 1,
        !spawn_point_step(p, enemies_alive, delta_ns, roll_ms).1
            ==> spawn_point_step(p, enemies_alive, delta_ns, roll_ms).0.term == p.term,
        spawn_point_step(p, enemies_alive, delta_ns, roll_ms).0.term.0 <= 3,
{
}

/// What clearing a room does to its door and chests: a locked door becomes
/// ready to open, locked chests become ready. The clearing sound plays only
/// while `clear_sound` is still down, which it then raises, and never in a
/// parkour room.
pub fn room_clear_effects(door: &mut Door, chests: &mut Vec<Chest>, clear_sound: &mut bool, controller_mode: bool) -> (play_sound: bool)
    ensures
        play_sound == (!*old(clear_sound) && !controller_mode),
        *final(clear_sound) == (*old(clear_sound) || play_sound),
        *final(door) == (if old(door).0 == 0 { Door(1) } else { *old(door) }),
        final(chests)@.len() == old(chests)@.len(),
        forall|i: int| 0 <= i < old(chests)@.len() ==> #[trigger] final(chests)@[i] == unlocked(old(chests)@[i]),
{
    let play = !*clear_sound && !controller_mode;
    if play {
        *clear_sound = true;
    }
    if door.0 == 0 {
        *door = Door(1);
    }
    let n = chests.len();
    let mut i: usize = 0;
    while i < n
        invariant
            n == old(chests)@.len(),
            chests@.len() == n,
            i <= n,
            forall|j: int| 0 <= j < i ==> #[trigger] chests@[j] == unlocked(old(chests)@[j]),
            forall|j: int| i <= j < n ==> chests@[j] == old(chests)@[j],
        decreases n - i,
    {
        let c = chests[i];
        let d = if c.0 == 1 { Chest(3) } else if c.0 == 2 { Chest(4) } else { c };
        chests.set(i, d);
        i += 1;
    }
    play
}

/// A chest after its room is cleared.
pub open spec fn unlocked(c: Chest) -> Chest {
    if c.0 == 1 {
        Chest(3)
    } else if c.0 == 2 {
        Chest(4)
    } else {
        c
    }
}

/// Whether the player leaves the room: the door stands open, the player is
/// next to it and presses the use key, and no screen transition is running.
pub fn may_leave(door: Door, near: bool, use_pressed: bool, transition_running: bool) -> (leave: bool)
    ensures
        leave == (near && door.0 == 3 && use_pressed && !transition_running),
{
    near && door.0 == 3 && use_pressed && !transition_running
}

/// Sheets the door switches between.
#[derive(Clone, Copy, Debug, PartialEq, Eq, Structural)]
pub enum DoorSheet {
    Opening,
    Closing,
}

/// One frame of the door: it opens when the player comes near, stays open
/// while the player is near, closes when the player walks off, and can open
/// again. `frame_due` says whether the animation advances this frame.
pub open spec fn door_step(door: Door, frame: usize, near: bool, frame_due: bool) -> (Door, usize, Option<DoorSheet>) {
    if door.0 == 1 {
        (if near { Door(2) } else { door }, frame, None)
    } else if door.0 == 2 {
        if frame_due && frame < usize::MAX {
            let f = (frame + 1) as usize;
            (if f == 12 { Door(3) } else { door }, f, None)
        } else {
            (door, frame, None)
        }
    } else if door.0 == 3 {
        if !near { (Door(4), 0, Some(DoorSheet::Closing)) } else { (door, frame, None) }
    } else if door.0 == 4 {
        if frame_due && frame < usize::MAX {
            let f = (frame + 1) as usize;
            if f == 14 { (Door(1), 0, Some(DoorSheet::Opening)) } else { (door, f, None) }
        } else {
            (door, frame, None)
        }
    } else {
        (door, frame, None)
    }
}

/// Animates the door; see `door_step`. The opening and closing animations
/// run from frame 0, so the frame never grows past the last one.
pub fn animate_door(door: &mut Door, frame: &mut usize, near: bool, frame_due: bool) -> (sheet: Option<DoorSheet>)
    requires
        *old(frame) < usize::MAX,
    ensures
        (*final(door), *final(frame), sheet) == door_step(*old(door), *old(frame), near, frame_due),
{
    if door.0 == 1 {
        if near {
            *door = Door(2);
        }
        None
    } else if door.0 == 2 {
        if frame_due {
            *frame = *frame + 1;
            if *frame == 12 {
                *door = Door(3);
            }
        }
        None
    } else if door.0 == 3 {
        if !near {
            *door = Door(4);
            *frame = 0;
            Some(DoorSheet::Closing)
        } else {
            None
        }
    } else if door.0 == 4 {
        if frame_due {
            *frame = *frame + 1;
            if *frame == 14 {
                *frame = 0;
                *door = Door(1);
                Some(DoorSheet::Opening)
            } else {
                None
            }
        } else {
            None
        }
    } else {
        None
    }
}

/// The opening animation of a big and of a small chest, in frames.
pub const BIG_CHEST_FRAMES: usize = 34;
pub const SMALL_CHEST_FRAMES: usize = 24;

/// One frame of a chest: the glow loops over three frames; a ready chest
/// starts opening when the player is near and presses the open key; an
/// opening chest plays its animation to the end and then, once a window is
/// there to show it (`window_open`), opens the reward menu and is done; with
/// no window it waits on its last frame. The boolean says that the reward
/// menu opens now.
pub open spec fn chest_step(c: Chest, frame: usize, near: bool, open_pressed: bool, frame_due: bool, window_open: bool) -> (Chest, usize, bool) {
    if c.0 == 0 {
        (c, if frame_due { ((frame as int + 1) % 3) as usize } else { frame }, false)
    } else if c.0 == 3 {
        (if near && open_pressed { Chest(5) } else { c }, frame, false)
    } else if c.0 == 4 {
        (if near && open_pressed { Chest(6) } else { c }, frame, false)
    } else if c.0 == 5 || c.0 == 6 {
        let all = if c.0 == 5 { BIG_CHEST_FRAMES } else { SMALL_CHEST_FRAMES };
        if !frame_due {
            (c, frame, false)
        } else if frame < all - 1 {
            (c, (frame + 1) as usize, false)
        } else if window_open {
            (Chest(7), frame, true)
        } else {
            (c, frame, false)
        }
    } else {
        (c, frame, false)
    }
}

/// Animates a chest; see `chest_step`.
pub fn animate_chest(c: &mut Chest, frame: &mut usize, near: bool, open_pressed: bool, frame_due: bool, window_open: bool) -> (menu: bool)
    ensures
        (*final(c), *final(frame), menu) == chest_step(*old(c), *old(frame), near, open_pressed, frame_due, window_open),
{
    if c.0 == 0 {
        if frame_due {
            *frame = crate::animation::cycle_frame(*frame, 3);
        }
        false
    } else if c.0 == 3 {
        if near && open_pressed {
            *c = Chest(5);
        }
        false
    } else if c.0 == 4 {
        if near && open_pressed {
            *c = Chest(6);
        }
        false
    } else if c.0 == 5 || c.0 == 6 {
        let all = if c.0 == 5 { BIG_CHEST_FRAMES } else { SMALL_CHEST_FRAMES };
        if !frame_due {
            false
        } else if *frame < all - 1 {
            *frame = *frame + 1;
            false
        } else if window_open {
            *c = Chest(7);
            true
        } else {
            false
        }
    } else {
        false
    }
}

/// The door cycle: a door in one of its five states (0 locked, 1 ready,
/// 2 opening, 3 open, 4 closing) stays in them and only moves on as
/// follows, whatever the frame counter: ready becomes opening exactly when
/// the player is near; opening becomes open exactly when its frame reaches
/// 12; open becomes closing, from frame 0 of the closing sheet, exactly when
/// the player is away; closing becomes ready, from frame 0 of the opening
/// sheet, exactly when its frame reaches 14; a locked door stays locked.
pub proof fn lemma_door_cycle(door: Door, frame: usize, near: bool, frame_due: bool)
    requires
        0 <= door.0 <= 4,
    ensures
        ({
            let (d, f, sheet) = door_step(door, frame, near, frame_due);
            &&& 0 <= d.0 <= 4
            &&& d.0 == door.0 || (door.0 == 1 && d.0 == 2) || (door.0 == 2 && d.0 == 3) || (door.0 == 3 && d.0 == 4)
                || (door.0 == 4 && d.0 == 1)
            &&& door.0 == 0 ==> d == door && f == frame && sheet is None
            &&& door.0 == 1 ==> (d.0 == 2 <==> near)
            &&& door.0 == 2 ==> (d.0 == 3 <==> frame_due && frame + 1 == 12)
            &&& door.0 == 3 ==> (d.0 == 4 <==> !near)
            &&& door.0 == 3 && d.0 == 4 ==> f == 0 && sheet == Some(DoorSheet::Closing)
            &&& door.0 == 4 ==> (d.0 == 1 <==> frame_due && frame + 1 == 14)
            &&& door.0 == 4 && d.0 == 1 ==> f == 0 && sheet == Some(DoorSheet::Opening)
        }),
{
}


/// A chest opens only from ready, through its opening animation; the reward
/// menu opens exactly once per chest, when the chest becomes opened, and
/// only with a window to show it.
pub proof fn lemma_chest_opens_once(c: Chest, frame: usize, near: bool, open_pressed: bool, frame_due: bool, window_open: bool)
    ensures
        chest_step(c, frame, near, open_pressed, frame_due, window_open).2
            <==> (c.0 != 7 && chest_step(c, frame, near, open_pressed, frame_due, window_open).0.0 == 7),
        c.0 == 7 ==> chest_step(c, frame, near, open_pressed, frame_due, window_open).0 == c,
        chest_step(c, frame, near, open_pressed, frame_due, window_open).2 ==> window_open,
        (c.0 == 1 || c.0 == 2) ==> chest_step(c, frame, near, open_pressed, frame_due, window_open).0 == c,
{
}

/// Whether the room with this index is the boss room closing a loop of
/// `rooms` rooms.
pub open spec fn boss_room(map_index: u8, rooms: i32) -> bool {
    (map_index as int) % (rooms as int) == rooms - 1
}

/// The chest a room's chest object becomes, drawn with `roll` from `0..99`:
/// 6% the best chest (always in the boss room), 25% a big chest, the rest a
/// small one. The best chest carries two glow effects.
pub open spec fn chest_for_roll(roll: u32, in_boss_room: bool) -> (Chest, ChestType, bool) {
    let i = if in_boss_room { 0 } else { roll };
    if i <= 5 {
        (Chest(1), ChestType(0), true)
    } else if i <= 30 {
        (Chest(1), ChestType(1), false)
    } else {
        (Chest(2), ChestType(2), false)
    }
}

/// Number of outcomes of a chest roll.
pub const CHEST_ROLL_RANGE: u32 = 99;

/// Builds a room's chest with the roll given; see `chest_for_roll`.
pub fn chest_with_roll(roll: u32, map_index: u8, rooms: i32) -> (c: (Chest, ChestType, bool))
    requires
        rooms > 0,
    ensures
        c == chest_for_roll(roll, boss_room(map_index, rooms)),
{
    let map = (map_index as i32) % rooms;
    let i = if map == rooms - 1 { 0 } else { roll };
    if i <= 5 {
        (Chest(1), ChestType(0), true)
    } else if i <= 30 {
        (Chest(1), ChestType(1), false)
    } else {
        (Chest(2), ChestType(2), false)
    }
}

/// Builds a room's chest, drawing its kind at random; see `chest_for_roll`.
pub fn spawn_chest(map_index: u8, rooms: i32) -> (c: (Chest, ChestType, bool))
    requires
        rooms > 0,
    ensures
        exists|roll: u32| roll < CHEST_ROLL_RANGE && c == chest_for_roll(roll, boss_room(map_index, rooms)),
        boss_room(map_index, rooms) ==> c == (Chest(1), ChestType(0), true),
{
    let roll = random_in(0, CHEST_ROLL_RANGE);
    chest_with_roll(roll, map_index, rooms)
}

/// Waves the statue base has to survive at most.
pub const BASE_MAX_PROGRESS: u8 = 10;

/// One frame of the statue base: every time its clock runs out the progress
/// goes up by one wave (up to ten), and the returned boolean says that the
/// base has just reached `survival_target` and the room's robots are to be
/// swept away.
pub fn handle_base_timer(progress: &mut Progress, clock: &mut Enemybornduration, delta_ns: u64, survival_target: u8) -> (survived: bool)
    ensures
        ({
            let t = old(clock).timer.ticked(delta_ns);
            if t.elapsed_ns >= old(clock).duration_ns && old(progress).0 < BASE_MAX_PROGRESS {
                &&& final(progress).0 == old(progress).0 + 1
                &&& *final(clock) == (Enemybornduration { timer: Stopwatch { elapsed_ns: 0 }, ..*old(clock) })
                &&& survived == (final(progress).0 >= survival_target)
            } else {
                &&& *final(progress) == *old(progress)
                &&& *final(clock) == (Enemybornduration { timer: t, ..*old(clock) })
                &&& !survived
            }
        }),
{
    clock.timer.tick(delta_ns);
    if clock.timer.elapsed() >= clock.duration_ns && progress.0 < BASE_MAX_PROGRESS {
        progress.0 = progress.0 + 1;
        clock.timer.reset();
        progress.0 >= survival_target
    } else {
        false
    }
}

/// The base never counts past ten waves.
pub proof fn lemma_base_progress_bounded(p: u8, c: Enemybornduration, delta_ns: u64)
    requires
        p <= BASE_MAX_PROGRESS,
    ensures
        ({
            let t = c.timer.ticked(delta_ns);
            (if t.elapsed_ns >= c.duration_ns && p < BASE_MAX_PROGRESS { p + 1 } else { p as int }) <= BASE_MAX_PROGRESS
        }),
{
}

/// The kinds of rooms a run goes through, each with the number of its
/// layout file.
#[derive(Clone, Copy, Debug, PartialEq, Eq, Structural)]
pub enum MapName {
    Parkour(u8),
    Normal(u8),
    Boss(u8),
}

/// A room layout queued for a run.
#[derive(Clone, Copy, Debug, PartialEq, Eq, Structural)]
pub struct MapInfos {
    pub name: MapName,
}

impl MapInfos {
    /// A queued room layout.
    pub fn new(name: MapName) -> (m: MapInfos)
        ensures
            m.name == name,
    {
        MapInfos { name }
    }
}

/// The queue of room layouts of a run, the position of the next one, whether
/// a room is on screen, and whether the queue has to be rebuilt because the
/// run went around it once.
pub struct AssetsManager {
    pub map_assets: Vec<MapInfos>,
    pub map_index: usize,
    pub map_spawned: bool,
    pub reload_map: bool,
}

/// What switching rooms asks of the engine.
#[derive(Clone, Copy, Debug, PartialEq, Eq, Structural)]
pub struct MapSwitch {
    /// The room on screen is removed first.
    pub despawn_current: bool,
    /// The room to build.
    pub spawn: MapName,
}

/// Number of normal room layouts and of boss room layouts.
pub const NORMAL_ROOM_LAYOUTS: u32 = 8;
pub const BOSS_ROOM_LAYOUTS: u32 = 2;

impl AssetsManager {
    /// An empty queue and no room on screen.
    pub fn new() -> (m: AssetsManager)
        ensures
            m.map_assets@.len() == 0,
            m.map_index == 0,
            !m.map_spawned,
            !m.reload_map,
    {
        AssetsManager { map_assets: Vec::new(), map_index: 0, map_spawned: false, reload_map: false }
    }

    /// Empties the queue and forgets the room on screen.
    pub fn clear(&mut self)
        ensures
            final(self).map_assets@.len() == 0,
            final(self).map_index == 0,
            !final(self).map_spawned,
            final(self).reload_map == old(self).reload_map,
    {
        self.map_assets = Vec::new();
        self.map_spawned = false;
        self.map_index = 0;
    }

    /// Queues one more room.
    pub fn add_map(&mut self, map_infos: MapInfos)
        ensures
            final(self).map_assets@ == old(self).map_assets@.push(map_infos),
            final(self).map_index == old(self).map_index,
            final(self).map_spawned == old(self).map_spawned,
            final(self).reload_map == old(self).reload_map,
    {
        self.map_assets.push(map_infos);
    }

    /// Moves on to the next room of the queue: the room at the current
    /// position is built (replacing the one on screen), the position moves on,
    /// and after the last room it goes back to the first and the queue is
    /// marked for rebuilding.
    pub fn cycle_map(&mut self) -> (s: MapSwitch)
        requires
            old(self).map_index < old(self).map_assets@.len(),
        ensures
            s.despawn_current == old(self).map_spawned,
            s.spawn == old(self).map_assets@[old(self).map_index as int].name,
            final(self).map_spawned,
            final(self).map_assets@ == old(self).map_assets@,
            final(self).map_index == (old(self).map_index + 1) % (old(self).map_assets@.len() as int),
            final(self).reload_map == (old(self).reload_map || old(self).map_index + 1 == old(self).map_assets@.len()),
            final(self).map_index < final(self).map_assets@.len(),
    {
        let n = self.map_assets.len();
        let s = MapSwitch { despawn_current: self.map_spawned, spawn: self.map_assets[self.map_index].name };
        self.map_spawned = true;
        self.map_index = self.map_index + 1;
        if self.map_index >= n {
            proof {
                vstd::arithmetic::div_mod::lemma_mod_self_0(n as int);
            }
            self.map_index = 0;
            self.reload_map = true;
        } else {
            proof {
                vstd::arithmetic::div_mod::lemma_small_mod(self.map_index as nat, n as nat);
            }
        }
        s
    }

    /// Removes the room on screen and goes back to the start of the queue,
    /// when the run is left for the lobby or the title screen.
    pub fn del_map(&mut self) -> (despawn: bool)
        ensures
            despawn == old(self).map_spawned,
            !final(self).map_spawned,
            final(self).map_index == 0,
            final(self).map_assets@ == old(self).map_assets@,
            final(self).reload_map == old(self).reload_map,
    {
        let despawn = self.map_spawned;
        self.map_spawned = false;
        self.map_index = 0;
        despawn
    }

    /// The position of the room built last: the one before the current
    /// position, going around the queue.
    pub fn current_map(&self) -> (i: usize)
        requires
            self.map_assets@.len() > 0,
        ensures
            i == (if self.map_index > 0 { self.map_index - 1 } else { self.map_assets@.len() - 1 }),
    {
        if self.map_index > 0 {
            self.map_index - 1
        } else {
            self.map_assets.len() - 1
        }
    }
}

/// Whether a queued room is one of the normal room layouts.
pub open spec fn normal_room(m: MapInfos) -> bool {
    exists|n: u8| 1 <= n <= NORMAL_ROOM_LAYOUTS && m.name == MapName::Normal(n)
}

/// Queues the lobby's first run: the parkour room, then one of the two boss
/// rooms at random.
pub fn load_room1(mgr: &mut AssetsManager)
    ensures
        final(mgr).map_assets@.len() == 2,
        final(mgr).map_assets@[0].name == MapName::Parkour(1),
        exists|b: u8| 1 <= b <= BOSS_ROOM_LAYOUTS && final(mgr).map_assets@[1].name == MapName::Boss(b),
        final(mgr).map_index == 0,
        !final(mgr).map_spawned,
        final(mgr).reload_map == old(mgr).reload_map,
{
    mgr.clear();
    mgr.add_map(MapInfos::new(MapName::Parkour(1)));
    let b = random_in(1, BOSS_ROOM_LAYOUTS + 1) as u8;
    mgr.add_map(MapInfos::new(MapName::Boss(b)));
}

/// The number of normal rooms in a queue of `rooms` rooms: all but the
/// boss room, none where `rooms` is below 2.
pub open spec fn normal_room_count(rooms: i32) -> int {
    if rooms > 1 {
        rooms - 1
    } else {
        0
    }
}

/// The queue that a run of layout draws gives: the normal room with each
/// drawn layout in draw order, then the boss room with layout `boss`.
pub open spec fn queued_rooms(draws: Seq<u32>, boss: u32) -> Seq<MapInfos> {
    Seq::new(draws.len(), |i: int| MapInfos { name: MapName::Normal(draws[i] as u8) }).push(
        MapInfos { name: MapName::Boss(boss as u8) },
    )
}

/// Fills the queue from layout draws: one normal room per draw, in order,
/// then the boss room `boss`. The room on screen stays marked as such, the
/// position goes back to the start and the rebuild mark is cleared.
pub fn queue_for_draws(mgr: &mut AssetsManager, draws: &Vec<u32>, boss: u32)
    requires
        forall|i: int| 0 <= i < draws@.len() ==> 1 <= #[trigger] draws@[i] <= NORMAL_ROOM_LAYOUTS,
        1 <= boss <= BOSS_ROOM_LAYOUTS,
    ensures
        final(mgr).map_assets@ == queued_rooms(draws@, boss),
        final(mgr).map_index == 0,
        final(mgr).map_spawned == old(mgr).map_spawned,
        !final(mgr).reload_map,
{
    let spawned = mgr.map_spawned;
    mgr.clear();
    mgr.map_spawned = spawned;
    let mut k: usize = 0;
    while k < draws.len()
        invariant
            k <= draws@.len(),
            forall|i: int| 0 <= i < draws@.len() ==> 1 <= #[trigger] draws@[i] <= NORMAL_ROOM_LAYOUTS,
            mgr.map_assets@ == Seq::new(k as nat, |i: int| MapInfos { name: MapName::Normal(draws@[i] as u8) }),
            mgr.map_index == 0,
            mgr.map_spawned == spawned,
        decreases draws@.len() - k,
    {
        let n = draws[k] as u8;
        mgr.add_map(MapInfos::new(MapName::Normal(n)));
        assert(mgr.map_assets@ == Seq::new((k + 1) as nat, |i: int| MapInfos { name: MapName::Normal(draws@[i] as u8) }));
        k += 1;
    }
    mgr.add_map(MapInfos::new(MapName::Boss(boss as u8)));
    mgr.reload_map = false;
}

/// Rebuilds the queue when the run has gone around it: `rooms - 1` normal
/// rooms (none where `rooms` is below 2), each one of the eight layouts
/// drawn at random, then the second boss room (drawn from `2..3`, so always
/// the second). `queue_for_draws` turns the draws into the queue. The room
/// on screen stays. Nothing happens unless the queue is marked for
/// rebuilding.
pub fn load_room2(mgr: &mut AssetsManager, rooms: i32)
    ensures
        !old(mgr).reload_map ==> *final(mgr) == *old(mgr),
        old(mgr).reload_map ==> {
            &&& exists|draws: Seq<u32>|
                {
                    &&& draws.len() == normal_room_count(rooms)
                    &&& forall|i: int| 0 <= i < draws.len() ==> 1 <= #[trigger] draws[i] <= NORMAL_ROOM_LAYOUTS
                    &&& final(mgr).map_assets@ == queued_rooms(draws, 2)
                }
            &&& final(mgr).map_assets@.len() == normal_room_count(rooms) + 1
            &&& forall|i: int| 0 <= i < normal_room_count(rooms) ==> normal_room(#[trigger] final(mgr).map_assets@[i])
            &&& final(mgr).map_assets@[normal_room_count(rooms)].name == MapName::Boss(2)
            &&& final(mgr).map_index == 0
            &&& final(mgr).map_spawned == old(mgr).map_spawned
            &&& !final(mgr).reload_map
        },
{
    if !mgr.reload_map {
        return;
    }
    let len: i32 = if rooms > 1 { rooms - 1 } else { 0 };
    let mut draws: Vec<u32> = Vec::new();
    let mut k: i32 = 0;
    while k < len
        invariant
            0 <= k <= len,
            len == normal_room_count(rooms),
            draws@.len() == k,
            forall|i: int| 0 <= i < draws@.len() ==> 1 <= #[trigger] draws@[i] <= NORMAL_ROOM_LAYOUTS,
        decreases len - k,
    {
        let n = random_in(1, NORMAL_ROOM_LAYOUTS + 1);
        draws.push(n);
        k += 1;
    }
    let boss = random_in(2, BOSS_ROOM_LAYOUTS + 1);
    queue_for_draws(mgr, &draws, boss);
    assert forall|i: int| 0 <= i < normal_room_count(rooms) implies normal_room(#[trigger] mgr.map_assets@[i]) by {
        let d = draws@[i];
        assert(mgr.map_assets@[i].name == MapName::Normal(d as u8));
        assert(1 <= (d as u8) <= NORMAL_ROOM_LAYOUTS);
    }
}

/// The queue position after `k` room switches from position `start` in a
/// queue of `len` rooms, one switch at a time as `cycle_map` moves it.
pub open spec fn position_after(start: nat, len: nat, k: nat) -> nat
    decreases k,
{
    if k == 0 {
        start
    } else {
        (((position_after(start, len, (k - 1) as nat) + 1) as int) % (len as int)) as nat
    }
}

/// After `k` switches the queue position is `(start + k) % len`: the rooms
/// are built in queue order.
pub proof fn lemma_cycle_position(start: nat, len: nat, k: nat)
    requires
        len > 0,
        start < len,
    ensures
        position_after(start, len, k) == ((start + k) as int) % (len as int),
    decreases k,
{
    if k == 0 {
        vstd::arithmetic::div_mod::lemma_small_mod(start, len);
    } else {
        lemma_cycle_position(start, len, (k - 1) as nat);
        let x: int = start + k - 1;
        let prev = position_after(start, len, (k - 1) as nat);
        assert(prev == x % (len as int));
        assert(position_after(start, len, k) == ((prev + 1) as int) % (len as int));
        vstd::arithmetic::div_mod::lemma_add_mod_noop(x, 1, len as int);
        if len == 1 {
            vstd::arithmetic::div_mod::lemma_mod_pos_bound(x + 1, 1);
            vstd::arithmetic::div_mod::lemma_mod_pos_bound((prev + 1) as int, 1);
        } else {
            vstd::arithmetic::div_mod::lemma_small_mod(1, len);
        }
    }
}

/// Going around the queue: as many switches as there are rooms bring the
/// position back to where it started.
pub proof fn lemma_cycle_returns(start: nat, len: nat)
    requires
        len > 0,
        start < len,
    ensures
        position_after(start, len, len) == start,
{
    lemma_cycle_position(start, len, len);
    vstd::arithmetic::div_mod::lemma_add_mod_noop(start as int, len as int, len as int);
    vstd::arithmetic::div_mod::lemma_mod_self_0(len as int);
    vstd::arithmetic::div_mod::lemma_small_mod(start, len);
}

/// How a chest moves on, for every input: a glowing effect (0) only cycles
/// its three frames; a locked chest (1, 2) and an opened one (7) never
/// change; a ready chest (3 big, 4 small) starts opening (5, 6) exactly when
/// the player is near and presses the open key, and otherwise stays as it
/// is; an opening chest advances one frame per due frame until its last
/// frame (33 for the big chest, 23 for the small one), where it becomes
/// opened and opens the reward menu if a window is there.
pub proof fn lemma_chest_moves(c: Chest, frame: usize, near: bool, open_pressed: bool, frame_due: bool, window_open: bool)
    ensures
        ({
            let (d, f, menu) = chest_step(c, frame, near, open_pressed, frame_due, window_open);
            &&& c.0 == 0 ==> d == c && !menu && f == (if frame_due { (frame + 1) % 3 } else { frame as int })
            &&& (c.0 == 1 || c.0 == 2 || c.0 == 7) ==> d == c && f == frame && !menu
            &&& c.0 == 3 ==> d.0 == (if near && open_pressed { 5int } else { 3int }) && f == frame && !menu
            &&& c.0 == 4 ==> d.0 == (if near && open_pressed { 6int } else { 4int }) && f == frame && !menu
            &&& (c.0 == 3 || c.0 == 4) && !(near && open_pressed) ==> d == c
            &&& (c.0 == 5 || c.0 == 6) && !frame_due ==> d == c && f == frame && !menu
            &&& c.0 == 5 && frame_due && frame < 33 ==> d == c && f == frame + 1 && !menu
            &&& c.0 == 6 && frame_due && frame < 23 ==> d == c && f == frame + 1 && !menu
            &&& c.0 == 5 && frame_due && frame >= 33 ==> (menu <==> window_open) && d.0 == (if window_open { 7int } else { 5int }) && f == frame
            &&& c.0 == 6 && frame_due && frame >= 23 ==> (menu <==> window_open) && d.0 == (if window_open { 7int } else { 6int }) && f == frame
        }),
{
}

/// What a spawn point does in one frame, for every point: a point with no
/// waves left that is spawning does nothing; a wave point (one to three
/// waves) that is spawning releases one robot, loses one wave and waits; a
/// repeating point (more than three waves) releases a robot exactly when
/// its clock reaches its wait, then restarts the clock and waits `roll_ms`
/// milliseconds, and otherwise lets its clock run; a waiting point releases
/// nothing and starts spawning again exactly when it has waves left and no
/// robot is alive.
pub proof fn lemma_spawn_point_frame(p: SpawnPoint, enemies_alive: bool, delta_ns: u64, roll_ms: u32)
    requires
        roll_ms <= RESPAWN_MAX_MS,
    ensures
        ({
            let (q, spawn) = spawn_point_step(p, enemies_alive, delta_ns, roll_ms);
            &&& p.born.0 && p.term.0 == 0 ==> q == p && !spawn
            &&& p.born.0 && 1 <= p.term.0 <= 3 ==> spawn && !q.born.0 && q.term.0 == p.term.0 - 1
                && q.duration == p.duration
            &&& p.born.0 && p.term.0 > 3 ==> q.born.0 && q.term == p.term
                && (spawn <==> p.duration.timer.elapsed_ns + delta_ns >= p.duration.duration_ns)
            &&& p.born.0 && p.term.0 > 3 && spawn ==> q.duration.timer.elapsed_ns == 0
                && q.duration.duration_ns == roll_ms * 1_000_000
            &&& p.born.0 && p.term.0 > 3 && !spawn ==> q.duration.duration_ns == p.duration.duration_ns
                && q.duration.timer.elapsed_ns == p.duration.timer.elapsed_ns + delta_ns
            &&& !p.born.0 ==> !spawn && q.term == p.term && q.duration == p.duration
                && (q.born.0 <==> (p.term.0 != 0 && !enemies_alive))
        }),
{
}

/// The chest of a room: the boss room (the last of every `rooms` rooms)
/// always holds the best chest; elsewhere a roll up to 5 gives the best
/// chest, 6 to 30 a big chest and anything higher a small chest. Best and
/// big chests start locked as big chests (1), the small one as a small chest
/// (2); only the best chest glows.
pub proof fn lemma_chest_kinds(roll: u32, map_index: u8, rooms: i32)
    requires
        rooms > 0,
    ensures
        ({
            let (c, t, glow) = chest_for_roll(roll, boss_room(map_index, rooms));
            &&& (boss_room(map_index, rooms) <==> map_index as int % rooms as int == rooms - 1)
            &&& boss_room(map_index, rooms) || roll <= 5 ==> c == Chest(1) && t == ChestType(0) && glow
            &&& !boss_room(map_index, rooms) && 6 <= roll <= 30 ==> c == Chest(1) && t == ChestType(1) && !glow
            &&& !boss_room(map_index, rooms) && roll > 30 ==> c == Chest(2) && t == ChestType(2) && !glow
        }),
{
}

/// Clearing a room readies its locked chests: a locked big chest (1)
/// becomes a ready big chest (3), a locked small chest (2) a ready small
/// chest (4); any other chest is left as it is.
pub proof fn lemma_clearing_readies_chests(c: Chest)
    ensures
        c.0 == 1 ==> unlocked(c) == Chest(3),
        c.0 == 2 ==> unlocked(c) == Chest(4),
        c.0 != 1 && c.0 != 2 ==> unlocked(c) == c,
{
}

/// Each object of a room builds its own thing and nothing else: the player
/// marker moves the player; a robot marker leaves a spawn point (the batch's
/// wave point, or a spawning point with ten waves for a repeating marker);
/// the boss marker hatches the boss; the base marker raises the base at
/// progress 1; the door marker places a locked door; the chest marker
/// places a chest; the parkour marker and unknown objects build nothing.
pub proof fn lemma_objects_build_one_thing(o: MapObject, waves: SpawnPoint)
    ensures
        ({
            let s = object_setup_spec(o, waves);
            &&& s.move_player <==> o == MapObject::Player
            &&& (s.spawn_point is Some) <==> (o == MapObject::Enemy || o == MapObject::RepeatingEnemy)
            &&& o == MapObject::Enemy ==> s.spawn_point == Some(waves)
            &&& o == MapObject::RepeatingEnemy ==> s.spawn_point.unwrap().born.0 && s.spawn_point.unwrap().term.0 == 10
            &&& s.boss <==> o == MapObject::Boss
            &&& (s.base is Some) <==> o == MapObject::Base
            &&& o == MapObject::Base ==> s.base == Some(Progress(1))
            &&& (s.door is Some) <==> o == MapObject::Door
            &&& o == MapObject::Door ==> s.door == Some(Door(0))
            &&& s.chest <==> o == MapObject::Chest
        }),
{
}

/// A rebuilt queue holds one normal room per draw, with the drawn layout,
/// in draw order, and ends with the boss room.
pub proof fn lemma_queue_from_draws(draws: Seq<u32>, boss: u32)
    ensures
        queued_rooms(draws, boss).len() == draws.len() + 1,
        forall|i: int| 0 <= i < draws.len() ==> (#[trigger] queued_rooms(draws, boss)[i]).name == MapName::Normal(draws[i] as u8),
        queued_rooms(draws, boss).last().name == MapName::Boss(boss as u8),
{
}

} // verus!
