use vstd::prelude::*;

verus! {

/// The frame after `frame` in an animation of `count` frames that loops.
pub open spec fn looped(frame: usize, count: usize) -> usize {
    ((frame as int + 1) % (count as int)) as usize
}

/// Advances a looping animation by one frame: `(frame + 1) % count`.
pub fn cycle_frame(frame: usize, count: usize) -> (next: usize)
    requires
        count > 0,
    ensures
        next == looped(frame, count),
        next < count,
{
    if count == 1 {
        proof {
            vstd::arithmetic::div_mod::lemma_mod_pos_bound(frame as int + 1, 1);
        }
        0
    } else if frame < count - 1 {
        proof {
            vstd::arithmetic::div_mod::lemma_small_mod((frame + 1) as nat, count as nat);
        }
        frame + 1
    } else if frame == count - 1 {
        proof {
            vstd::arithmetic::div_mod::lemma_mod_self_0(count as int);
        }
        0
    } else {
        let r = frame % count;
        proof {
            vstd::arithmetic::div_mod::lemma_add_mod_noop(frame as int, 1, count as int);
            vstd::arithmetic::div_mod::lemma_small_mod(1, count as nat);
            vstd::arithmetic::div_mod::lemma_mod_pos_bound(frame as int, count as int);
            if frame % count + 1 == count {
                vstd::arithmetic::div_mod::lemma_mod_self_0(count as int);
            } else {
                vstd::arithmetic::div_mod::lemma_small_mod((frame % count + 1) as nat, count as nat);
            }
        }
        if r + 1 == count {
            0
        } else {
            r + 1
        }
    }
}

/// Frames of the birth animation of a robot or of the boss.
pub const BIRTH_FRAMES: usize = 12;

/// Advances a birth animation: on reaching frame 12 it restarts at 0 and the
/// robot (or the boss) hatches.
pub fn animate_enemy_born(frame: usize) -> (r: (usize, bool))
    requires
        frame < usize::MAX,
    ensures
        r == (if frame + 1 == BIRTH_FRAMES { (0usize, true) } else { ((frame + 1) as usize, false) }),
{
    let f = frame + 1;
    if f == BIRTH_FRAMES {
        (0, true)
    } else {
        (f, false)
    }
}

/// Frames of a robot's and of the boss's death effect.
pub const ENEMY_DEATH_FRAMES: usize = 7;
pub const BOSS_DEATH_FRAMES: usize = 8;

/// Advances a death effect of `count` frames: on its last frame it
/// disappears (`None`), otherwise it moves on one frame.
pub fn enemyboss_death_effect(frame: usize, count: usize) -> (next: Option<usize>)
    requires
        count > 0,
    ensures
        frame == count - 1 ==> next is None,
        frame != count - 1 ==> next == Some(looped(frame, count)),
{
    if frame == count - 1 {
        None
    } else {
        Some(cycle_frame(frame, count))
    }
}

/// Frames of a muzzle flash, a bullet hit or a grenade blast.
pub const FLASH_FRAMES: usize = 5;

/// Advances a muzzle flash or a hit effect: it disappears when it reaches
/// frame 5. Returns the new frame and whether the effect is gone.
pub fn animate_gunfire(frame: usize) -> (r: (usize, bool))
    requires
        frame < usize::MAX,
    ensures
        r == ((frame + 1) as usize, frame + 1 == FLASH_FRAMES),
{
    let f = frame + 1;
    (f, f == FLASH_FRAMES)
}

/// Frames of Shiroko's drone animation and the last phase of its attack.
pub const DRONE_FRAMES: usize = 7;
pub const DRONE_LAST_PHASE: i32 = 8;

/// What advancing Shiroko's drone by one frame does.
#[derive(Clone, Copy, Debug, PartialEq, Eq, Structural)]
pub struct DroneStep {
    pub frame: usize,
    pub phase: i32,
    /// A pair of missiles is launched.
    pub launch: bool,
    /// The drone leaves.
    pub leave: bool,
}

/// Shiroko's drone: its animation loops over 7 frames; at the end of each
/// loop it moves to its next phase (leaving after phase 8), and in phases
/// 1, 3, 5 and 7 it launches a pair of missiles on frame 3 and moves on.
pub open spec fn drone_spec(frame: usize, phase: i32) -> DroneStep {
    let f = looped(frame, DRONE_FRAMES);
    if f == DRONE_FRAMES - 1 {
        if phase == DRONE_LAST_PHASE {
            DroneStep { frame: f, phase, launch: false, leave: true }
        } else {
            DroneStep { frame: f, phase: (phase + 1) as i32, launch: false, leave: false }
        }
    } else if (phase == 1 || phase == 3 || phase == 5 || phase == 7) && f == 3 {
        DroneStep { frame: f, phase: (phase + 1) as i32, launch: true, leave: false }
    } else {
        DroneStep { frame: f, phase, launch: false, leave: false }
    }
}

/// Advances Shiroko's drone by one frame; see `drone_spec`.
pub fn animate_droneskill(frame: usize, phase: i32) -> (d: DroneStep)
    requires
        phase < i32::MAX,
    ensures
        d == drone_spec(frame, phase),
{
    let f = cycle_frame(frame, DRONE_FRAMES);
    if f == DRONE_FRAMES - 1 {
        if phase == DRONE_LAST_PHASE {
            DroneStep { frame: f, phase, launch: false, leave: true }
        } else {
            DroneStep { frame: f, phase: phase + 1, launch: false, leave: false }
        }
    } else if (phase == 1 || phase == 3 || phase == 5 || phase == 7) && f == 3 {
        DroneStep { frame: f, phase: phase + 1, launch: true, leave: false }
    } else {
        DroneStep { frame: f, phase, launch: false, leave: false }
    }
}

/// The drone's phase only ever goes up, by at most one per frame; it
/// launches only in phases 1, 3, 5 and 7, and leaves only from phase 8.
/// Since every launch moves it to the next (even) phase, it launches at most
/// four pairs of missiles in its life.
pub proof fn lemma_drone_phases(frame: usize, phase: i32)
    requires
        0 <= phase <= DRONE_LAST_PHASE,
    ensures
        ({
            let d = drone_spec(frame, phase);
            &&& phase <= d.phase <= phase + 1
            &&& d.launch ==> (phase % 2 == 1 && d.phase == phase + 1)
            &&& d.leave ==> phase == DRONE_LAST_PHASE
            &&& !d.leave ==> d.phase <= DRONE_LAST_PHASE
        }),
{
}

/// Frames a drone lives: from its spawn on frame 0 in phase 0 to the frame
/// on which it leaves.
pub const DRONE_LIFE_FRAMES: u64 = 34;

/// A drone `k` frames after its spawn on frame 0 in phase 0: its frame, its
/// phase, how many pairs of missiles it has launched, and whether it has
/// left (after which nothing changes).
pub open spec fn drone_after(k: nat) -> (usize, i32, nat, bool)
    decreases k,
{
    if k == 0 {
        (0, 0, 0, false)
    } else {
        let prev = drone_after((k - 1) as nat);
        if prev.3 {
            prev
        } else {
            let d = drone_spec(prev.0, prev.1);
            (d.frame, d.phase, prev.2 + if d.launch { 1nat } else { 0nat }, d.leave)
        }
    }
}

/// Over its life a drone launches exactly four pairs of missiles (in phases
/// 1, 3, 5 and 7, on frame 3) and then leaves, on frame 6 of phase 8, 34
/// frames after its spawn; before that it never leaves, and once it has
/// left nothing more happens.
pub proof fn lemma_drone_life()
    ensures
        forall|k: nat| k < DRONE_LIFE_FRAMES ==> !(#[trigger] drone_after(k)).3 && drone_after(k).2 <= 4,
        drone_after(DRONE_LIFE_FRAMES as nat) == (6usize, DRONE_LAST_PHASE, 4nat, true),
        forall|k: nat| k >= DRONE_LIFE_FRAMES ==> #[trigger] drone_after(k) == drone_after(DRONE_LIFE_FRAMES as nat),
{
    lemma_drone_timeline();
    assert forall|k: nat| k < DRONE_LIFE_FRAMES implies !(#[trigger] drone_after(k)).3 && drone_after(k).2 <= 4 by {
        assert(k == 0 || k == 1 || k == 2 || k == 3 || k == 4 || k == 5 || k == 6 || k == 7 || k == 8 || k == 9 || k == 10 || k == 11 || k == 12 || k == 13 || k == 14 || k == 15 || k == 16 || k == 17 || k == 18 || k == 19 || k == 20 || k == 21 || k == 22 || k == 23 || k == 24 || k == 25 || k == 26 || k == 27 || k == 28 || k == 29 || k == 30 || k == 31 || k == 32 || k == 33);
    }
    assert forall|k: nat| k >= DRONE_LIFE_FRAMES implies #[trigger] drone_after(k) == drone_after(DRONE_LIFE_FRAMES as nat) by {
        lemma_drone_stays_gone(k);
    }
}

/// The drone frame by frame from its spawn to the frame on which it leaves.
proof fn lemma_drone_timeline()
    ensures
        drone_after(0) == (0usize, 0i32, 0nat, false),
        drone_after(1) == (1usize, 0i32, 0nat, false),
        drone_after(2) == (2usize, 0i32, 0nat, false),
        drone_after(3) == (3usize, 0i32, 0nat, false),
        drone_after(4) == (4usize, 0i32, 0nat, false),
        drone_after(5) == (5usize, 0i32, 0nat, false),
        drone_after(6) == (6usize, 1i32, 0nat, false),
        drone_after(7) == (0usize, 1i32, 0nat, false),
        drone_after(8) == (1usize, 1i32, 0nat, false),
        drone_after(9) == (2usize, 1i32, 0nat, false),
        drone_after(10) == (3usize, 2i32, 1nat, false),
        drone_after(11) == (4usize, 2i32, 1nat, false),
        drone_after(12) == (5usize, 2i32, 1nat, false),
        drone_after(13) == (6usize, 3i32, 1nat, false),
        drone_after(14) == (0usize, 3i32, 1nat, false),
        drone_after(15) == (1usize, 3i32, 1nat, false),
        drone_after(16) == (2usize, 3i32, 1nat, false),
        drone_after(17) == (3usize, 4i32, 2nat, false),
        drone_after(18) == (4usize, 4i32, 2nat, false),
        drone_after(19) == (5usize, 4i32, 2nat, false),
        drone_after(20) == (6usize, 5i32, 2nat, false),
        drone_after(21) == (0usize, 5i32, 2nat, false),
        drone_after(22) == (1usize, 5i32, 2nat, false),
        drone_after(23) == (2usize, 5i32, 2nat, false),
        drone_after(24) == (3usize, 6i32, 3nat, false),
        drone_after(25) == (4usize, 6i32, 3nat, false),
        drone_after(26) == (5usize, 6i32, 3nat, false),
        drone_after(27) == (6usize, 7i32, 3nat, false),
        drone_after(28) == (0usize, 7i32, 3nat, false),
        drone_after(29) == (1usize, 7i32, 3nat, false),
        drone_after(30) == (2usize, 7i32, 3nat, false),
        drone_after(31) == (3usize, 8i32, 4nat, false),
        drone_after(32) == (4usize, 8i32, 4nat, false),
        drone_after(33) == (5usize, 8i32, 4nat, false),
        drone_after(34) == (6usize, 8i32, 4nat, true),
{
    assert(drone_after(0) == (0usize, 0i32, 0nat, false));
    assert(looped(0, 7) == 1);
    assert(drone_spec(0, 0) == DroneStep { frame: 1, phase: 0, launch: false, leave: false });
    assert(drone_after(1) == (1usize, 0i32, 0nat, false));
    assert(drone_after(2) == (2usize, 0i32, 0nat, false));
    assert(drone_after(3) == (3usize, 0i32, 0nat, false));
    assert(drone_after(4) == (4usize, 0i32, 0nat, false));
    assert(drone_after(5) == (5usize, 0i32, 0nat, false));
    assert(drone_after(6) == (6usize, 1i32, 0nat, false));
    assert(drone_after(7) == (0usize, 1i32, 0nat, false));
    assert(drone_after(8) == (1usize, 1i32, 0nat, false));
    assert(drone_after(9) == (2usize, 1i32, 0nat, false));
    assert(drone_after(10) == (3usize, 2i32, 1nat, false));
    assert(drone_after(11) == (4usize, 2i32, 1nat, false));
    assert(drone_after(12) == (5usize, 2i32, 1nat, false));
    assert(drone_after(13) == (6usize, 3i32, 1nat, false));
    assert(drone_after(14) == (0usize, 3i32, 1nat, false));
    assert(drone_after(15) == (1usize, 3i32, 1nat, false));
    assert(drone_after(16) == (2usize, 3i32, 1nat, false));
    assert(drone_after(17) == (3usize, 4i32, 2nat, false));
    assert(drone_after(18) == (4usize, 4i32, 2nat, false));
    assert(drone_after(19) == (5usize, 4i32, 2nat, false));
    assert(drone_after(20) == (6usize, 5i32, 2nat, false));
    assert(drone_after(21) == (0usize, 5i32, 2nat, false));
    assert(drone_after(22) == (1usize, 5i32, 2nat, false));
    assert(drone_after(23) == (2usize, 5i32, 2nat, false));
    assert(drone_after(24) == (3usize, 6i32, 3nat, false));
    assert(drone_after(25) == (4usize, 6i32, 3nat, false));
    assert(drone_after(26) == (5usize, 6i32, 3nat, false));
    assert(drone_after(27) == (6usize, 7i32, 3nat, false));
    assert(drone_after(28) == (0usize, 7i32, 3nat, false));
    assert(drone_after(29) == (1usize, 7i32, 3nat, false));
    assert(drone_after(30) == (2usize, 7i32, 3nat, false));
    assert(drone_after(31) == (3usize, 8i32, 4nat, false));
    assert(drone_after(32) == (4usize, 8i32, 4nat, false));
    assert(drone_after(33) == (5usize, 8i32, 4nat, false));
    assert(drone_after(34) == (6usize, 8i32, 4nat, true));
}

proof fn lemma_drone_stays_gone(k: nat)
    requires
        k >= DRONE_LIFE_FRAMES,
    ensures
        drone_after(k) == drone_after(DRONE_LIFE_FRAMES as nat),
    decreases k,
{
    if k > DRONE_LIFE_FRAMES {
        lemma_drone_stays_gone((k - 1) as nat);
        lemma_drone_timeline();
    }
}

/// Whether the drone shows its firing sheet: once its attack has begun.
pub fn drone_firing(phase: i32) -> (firing: bool)
    ensures
        firing == (phase != 0),
{
    phase != 0
}

/// A looping animation advances one frame at a time and wraps to frame 0
/// after its last frame.
pub proof fn lemma_loop_advances(frame: usize, count: usize)
    requires
        count > 0,
        frame < count,
    ensures
        frame + 1 < count ==> looped(frame, count) == frame + 1,
        frame + 1 == count ==> looped(frame, count) == 0,
{
    if frame + 1 < count {
        vstd::arithmetic::div_mod::lemma_small_mod((frame + 1) as nat, count as nat);
    } else {
        vstd::arithmetic::div_mod::lemma_mod_self_0(count as int);
    }
}

} // verus!
