use vstd::prelude::*;

verus! {

/// The three playable characters: 1 Shiroko, 2 Arisu, 3 Utaha.
pub open spec fn valid_character(id: u8) -> bool {
    1 <= id <= 3
}

/// What the player character is doing.
#[derive(Clone, Copy, Debug, PartialEq, Eq, Structural)]
pub enum PlayerState {
    Idle,
    Jump,
    Move,
    Jumpover,
    Dodge,
}

impl PlayerState {
    /// The state a new player starts in.
    pub fn default() -> (s: PlayerState)
        ensures
            s == PlayerState::Idle,
    {
        PlayerState::Idle
    }
}

/// The movement keys held this frame.
#[derive(Clone, Copy, Debug, PartialEq, Eq, Structural)]
pub struct MoveKeys {
    pub jump: bool,
    pub left: bool,
    pub down: bool,
    pub right: bool,
}

impl MoveKeys {
    pub open spec fn any(self) -> bool {
        self.jump || self.left || self.down || self.right
    }
}

/// The player's animation sheets.
#[derive(Clone, Copy, Debug, PartialEq, Eq, Structural)]
pub enum PlayerSheet {
    Idle,
    Move,
    Jump,
    Skill,
}

/// A switch of the player's sheet, and the frame it starts on.
#[derive(Clone, Copy, Debug, PartialEq, Eq, Structural)]
pub struct SheetChange {
    pub sheet: PlayerSheet,
    pub frame: usize,
}

/// An operation on the player's vertical speed `v`, applied in order by the
/// engine: `SetJumpSpeed` sets `v` to the jump speed, `Gravity` takes the
/// gravity from it, `Stop` sets it to zero, `RiseByV` makes this frame's
/// vertical step equal to `v`, and `Level` makes it zero.
#[derive(Clone, Copy, Debug, PartialEq, Eq, Structural)]
pub enum VelocityOp {
    SetJumpSpeed,
    Gravity,
    Stop,
    RiseByV,
    Level,
}

/// What one frame of lobby movement asks of the engine.
pub struct Move2Outcome {
    /// The sheet to switch to and the frame to show, if it changes.
    pub sheet: Option<SheetChange>,
    pub run_event: bool,
    pub jump_event: bool,
    /// The player drops through the platform under it by 15 pixels.
    pub drop_through: bool,
    /// Horizontal step, in units of the player speed.
    pub dx: i8,
    /// Vertical speed operations, in order.
    pub velocity: Vec<VelocityOp>,
}

/// The lobby movement rules (side view with gravity), as a step from the
/// player state, the keys held, whether the player stands on ground, whether
/// it is high enough to drop through a platform, which character it is and
/// which way it faces. The result is the next state, the sheet change, the
/// run and jump events, the drop, the horizontal step and the vertical speed
/// operations.
pub open spec fn move2_spec(state: PlayerState, keys: MoveKeys, ground: bool, above_floor: bool, id: u8, facing_left: bool)
    -> (PlayerState, Option<SheetChange>, bool, bool, bool, int, Seq<VelocityOp>)
{
    let dx0: int = (if keys.left { -1int } else { 0 }) + (if keys.right { 1int } else { 0 });
    let drop = keys.down && ground && above_floor;
    let s1 = if drop { PlayerState::Jump } else { state };
    let sheet1: Option<SheetChange> = if drop { Some(SheetChange { sheet: PlayerSheet::Jump, frame: 0 }) } else { None };
    let launch = keys.jump && s1 != PlayerState::Jump && s1 != PlayerState::Dodge;
    let s2 = if launch { PlayerState::Jump } else { s1 };
    let sheet2 = if launch { Some(SheetChange { sheet: PlayerSheet::Jump, frame: 0 }) } else { sheet1 };
    let ops1: Seq<VelocityOp> = if launch {
        seq![VelocityOp::SetJumpSpeed, VelocityOp::RiseByV, VelocityOp::Gravity]
    } else {
        seq![]
    };
    let any = keys.any();
    match s2 {
        PlayerState::Idle => if any && ground {
            (PlayerState::Move, Some(SheetChange { sheet: PlayerSheet::Move, frame: 1 }), any, launch, drop, dx0, ops1)
        } else if !ground {
            (PlayerState::Jump, Some(SheetChange { sheet: PlayerSheet::Jump, frame: 0 }), any, launch, drop, dx0,
             ops1 + seq![VelocityOp::Gravity, VelocityOp::RiseByV])
        } else {
            (s2, sheet2, any, launch, drop, dx0, ops1)
        },
        PlayerState::Move => if !any && ground {
            (PlayerState::Idle, Some(SheetChange { sheet: PlayerSheet::Idle, frame: 1 }), any, launch, drop, dx0, ops1)
        } else if !ground {
            (PlayerState::Jump, Some(SheetChange { sheet: PlayerSheet::Jump, frame: 0 }), any, launch, drop, dx0,
             ops1 + seq![VelocityOp::Gravity, VelocityOp::RiseByV])
        } else {
            (s2, sheet2, any, launch, drop, dx0, ops1)
        },
        PlayerState::Jump => if ground {
            (PlayerState::Jumpover, sheet2, any, launch, drop, dx0, ops1 + seq![VelocityOp::Stop])
        } else {
            (s2, sheet2, any, launch, drop, dx0, ops1 + seq![VelocityOp::RiseByV, VelocityOp::Gravity])
        },
        PlayerState::Jumpover => if any {
            (PlayerState::Move, Some(SheetChange { sheet: PlayerSheet::Move, frame: 1 }), any, launch, drop, dx0, ops1)
        } else {
            (PlayerState::Idle, Some(SheetChange { sheet: PlayerSheet::Idle, frame: 1 }), any, launch, drop, dx0, ops1)
        },
        PlayerState::Dodge => if id == 1 || id == 3 {
            (s2, sheet2, any, launch, drop, dx0 + (if facing_left { -2int } else { 2 }), ops1 + seq![VelocityOp::Level])
        } else {
            (s2, sheet2, any, launch, drop, dx0, ops1)
        },
    }
}

/// One frame of movement in the lobby; see `move2_spec`. Returns the next
/// state through `state`.
pub fn handle_player_move2(state: &mut PlayerState, keys: MoveKeys, ground: bool, above_floor: bool, id: u8, facing_left: bool) -> (o: Move2Outcome)
    ensures
        ({
            let r = move2_spec(*old(state), keys, ground, above_floor, id, facing_left);
            &&& *final(state) == r.0
            &&& o.sheet == r.1
            &&& o.run_event == r.2
            &&& o.jump_event == r.3
            &&& o.drop_through == r.4
            &&& o.dx == r.5
            &&& o.velocity@ == r.6
        }),
{
    let mut dx: i8 = 0;
    if keys.left {
        dx = dx - 1;
    }
    if keys.right {
        dx = dx + 1;
    }
    let mut sheet: Option<SheetChange> = None;
    let mut velocity: Vec<VelocityOp> = Vec::new();
    let drop = keys.down && ground && above_floor;
    if drop {
        sheet = Some(SheetChange { sheet: PlayerSheet::Jump, frame: 0 });
        *state = PlayerState::Jump;
    }
    let launch = keys.jump && *state != PlayerState::Jump && *state != PlayerState::Dodge;
    if launch {
        sheet = Some(SheetChange { sheet: PlayerSheet::Jump, frame: 0 });
        *state = PlayerState::Jump;
        velocity.push(VelocityOp::SetJumpSpeed);
        velocity.push(VelocityOp::RiseByV);
        velocity.push(VelocityOp::Gravity);
    }
    let any = keys.jump || keys.left || keys.down || keys.right;
    match *state {
        PlayerState::Idle => {
            if any && ground {
                sheet = Some(SheetChange { sheet: PlayerSheet::Move, frame: 1 });
                *state = PlayerState::Move;
            } else if !ground {
                sheet = Some(SheetChange { sheet: PlayerSheet::Jump, frame: 0 });
                *state = PlayerState::Jump;
                velocity.push(VelocityOp::Gravity);
                velocity.push(VelocityOp::RiseByV);
            }
        },
        PlayerState::Move => {
            if !any && ground {
                sheet = Some(SheetChange { sheet: PlayerSheet::Idle, frame: 1 });
                *state = PlayerState::Idle;
            } else if !ground {
                sheet = Some(SheetChange { sheet: PlayerSheet::Jump, frame: 0 });
                *state = PlayerState::Jump;
                velocity.push(VelocityOp::Gravity);
                velocity.push(VelocityOp::RiseByV);
            }
        },
        PlayerState::Jump => {
            if ground {
                velocity.push(VelocityOp::Stop);
                *state = PlayerState::Jumpover;
            } else {
                velocity.push(VelocityOp::RiseByV);
                velocity.push(VelocityOp::Gravity);
            }
        },
        PlayerState::Jumpover => {
            if any {
                sheet = Some(SheetChange { sheet: PlayerSheet::Move, frame: 1 });
                *state = PlayerState::Move;
            } else {
                sheet = Some(SheetChange { sheet: PlayerSheet::Idle, frame: 1 });
                *state = PlayerState::Idle;
            }
        },
        PlayerState::Dodge => {
            if id == 1 || id == 3 {
                if facing_left {
                    dx = dx - 2;
                } else {
                    dx = dx + 2;
                }
                velocity.push(VelocityOp::Level);
            }
        },
    }
    proof {
        let r = move2_spec(*old(state), keys, ground, above_floor, id, facing_left);
        assert(velocity@ =~= r.6);
    }
    Move2Outcome { sheet, run_event: any, jump_event: launch, drop_through: drop, dx, velocity }
}

/// What one frame of in-room movement asks of the engine.
#[derive(Clone, Copy, Debug, PartialEq, Eq, Structural)]
pub struct Move3Outcome {
    /// Shiroko and Utaha dash along their aim while dodging.
    pub dash: bool,
    /// Walking direction in units of two pixels, before normalising.
    pub dx: i8,
    pub dy: i8,
    pub sheet: Option<SheetChange>,
    pub run_event: bool,
}

/// The in-room movement rules (top view): a dodging Shiroko or Utaha dashes
/// along the aim and nothing else happens; otherwise the keys give the
/// walking direction and the player walks while a key is held and idles
/// otherwise.
pub open spec fn move3_spec(state: PlayerState, keys: MoveKeys, id: u8) -> (PlayerState, Move3Outcome) {
    if state == PlayerState::Dodge {
        (state, Move3Outcome { dash: id == 1 || id == 3, dx: 0, dy: 0, sheet: None, run_event: false })
    } else {
        let dx = ((if keys.left { -2int } else { 0 }) + (if keys.right { 2int } else { 0 })) as i8;
        let dy = ((if keys.down { -2int } else { 0 }) + (if keys.jump { 2int } else { 0 })) as i8;
        if keys.any() {
            (PlayerState::Move, Move3Outcome {
                dash: false,
                dx,
                dy,
                sheet: if state == PlayerState::Move { None } else { Some(SheetChange { sheet: PlayerSheet::Move, frame: 0 }) },
                run_event: true,
            })
        } else {
            (PlayerState::Idle, Move3Outcome {
                dash: false,
                dx,
                dy,
                sheet: if state == PlayerState::Idle { None } else { Some(SheetChange { sheet: PlayerSheet::Idle, frame: 0 }) },
                run_event: false,
            })
        }
    }
}

/// One frame of movement inside a room; see `move3_spec`.
pub fn handle_player_move3(state: &mut PlayerState, keys: MoveKeys, id: u8) -> (o: Move3Outcome)
    ensures
        (*final(state), o) == move3_spec(*old(state), keys, id),
{
    if *state == PlayerState::Dodge {
        return Move3Outcome { dash: id == 1 || id == 3, dx: 0, dy: 0, sheet: None, run_event: false };
    }
    let mut dx: i8 = 0;
    let mut dy: i8 = 0;
    if keys.left {
        dx = dx - 2;
    }
    if keys.right {
        dx = dx + 2;
    }
    if keys.down {
        dy = dy - 2;
    }
    if keys.jump {
        dy = dy + 2;
    }
    if keys.jump || keys.left || keys.down || keys.right {
        let sheet = if *state == PlayerState::Move { None } else { Some(SheetChange { sheet: PlayerSheet::Move, frame: 0 }) };
        *state = PlayerState::Move;
        Move3Outcome { dash: false, dx, dy, sheet, run_event: true }
    } else {
        let sheet = if *state == PlayerState::Idle { None } else { Some(SheetChange { sheet: PlayerSheet::Idle, frame: 0 }) };
        *state = PlayerState::Idle;
        Move3Outcome { dash: false, dx, dy, sheet, run_event: false }
    }
}

/// What the dodge skill does this frame.
#[derive(Clone, Copy, Debug, PartialEq, Eq, Structural)]
pub struct DodgeOutcome {
    /// The cooldown timer restarts.
    pub reset_timer: bool,
    /// The player starts dodging (switches to the skill sheet, and the
    /// skill event is sent).
    pub start: bool,
    /// The vertical speed is cancelled (the dodge interrupts a jump).
    pub stop_fall: bool,
    /// Arisu hides her sword while she parries; the others stop colliding
    /// with robots.
    pub hide_gun: bool,
    pub pass_through: bool,
}

/// The dodge skill (shift): once the cooldown has run out, a press restarts
/// the cooldown and, unless the player is already dodging, starts a dodge.
pub open spec fn skill2_spec(state: PlayerState, pressed: bool, ready: bool, id: u8) -> (PlayerState, DodgeOutcome) {
    let none = DodgeOutcome { reset_timer: false, start: false, stop_fall: false, hide_gun: false, pass_through: false };
    if !pressed || !ready {
        (state, none)
    } else if state == PlayerState::Dodge {
        (state, DodgeOutcome { reset_timer: true, ..none })
    } else {
        (PlayerState::Dodge, DodgeOutcome {
            reset_timer: true,
            start: true,
            stop_fall: state == PlayerState::Jump,
            hide_gun: id == 2,
            pass_through: id != 2,
        })
    }
}

/// The dodge skill; see `skill2_spec`. `ready` says that the cooldown timer
/// shows at least the cooldown.
pub fn handle_player_skill2(state: &mut PlayerState, pressed: bool, ready: bool, id: u8) -> (o: DodgeOutcome)
    ensures
        (*final(state), o) == skill2_spec(*old(state), pressed, ready, id),
{
    let none = DodgeOutcome { reset_timer: false, start: false, stop_fall: false, hide_gun: false, pass_through: false };
    if !pressed || !ready {
        return none;
    }
    if *state == PlayerState::Dodge {
        return DodgeOutcome { reset_timer: true, ..none };
    }
    let stop_fall = *state == PlayerState::Jump;
    *state = PlayerState::Dodge;
    DodgeOutcome { reset_timer: true, start: true, stop_fall, hide_gun: id == 2, pass_through: id != 2 }
}

/// Most little drones Utaha keeps around at once.
pub const MK1_LIMIT: usize = 3;

/// A robot destroyed while Utaha dodges leaves a little drone behind, as
/// long as fewer than three are around.
pub fn little_drone_spawns(state: PlayerState, id: u8, drones: usize) -> (spawn: bool)
    ensures
        spawn == (state == PlayerState::Dodge && id == 3 && drones < MK1_LIMIT),
{
    state == PlayerState::Dodge && id == 3 && drones < MK1_LIMIT
}

/// What the secondary skill produces.
#[derive(Clone, Copy, Debug, PartialEq, Eq, Structural)]
pub enum Skill3 {
    /// Utaha raises a shield around herself.
    Shield,
    /// The others throw a grenade.
    Grenade,
}

/// The secondary skill (right mouse button): once the cooldown has run out a
/// click restarts the cooldown and raises a shield (Utaha) or throws a
/// grenade (the others).
pub fn handle_player_skill3(clicked: bool, ready: bool, id: u8) -> (s: Option<Skill3>)
    ensures
        s == (if clicked && ready { Some(if id == 3 { Skill3::Shield } else { Skill3::Grenade }) } else { None }),
{
    if clicked && ready {
        Some(if id == 3 { Skill3::Shield } else { Skill3::Grenade })
    } else {
        None
    }
}

/// What Utaha's turret skill does this frame.
#[derive(Clone, Copy, Debug, PartialEq, Eq, Structural)]
pub struct TurretPlan {
    pub event: bool,
    pub reset_timer: bool,
    /// The turret that has stood longest is taken down.
    pub recall_eldest: bool,
    /// A new turret is built.
    pub build: bool,
}

/// Utaha's turret skill: R takes down the oldest turret; Q, once the
/// cooldown has run out, builds a new one, taking down the oldest first when
/// `capacity` turrets already stand. Either key sends the skill event.
pub open spec fn turret_spec(q: bool, r: bool, ready: bool, turrets: usize, capacity: usize) -> TurretPlan {
    if !q && !r {
        TurretPlan { event: false, reset_timer: false, recall_eldest: false, build: false }
    } else if r {
        TurretPlan { event: true, reset_timer: false, recall_eldest: true, build: false }
    } else if !ready {
        TurretPlan { event: true, reset_timer: false, recall_eldest: false, build: false }
    } else {
        TurretPlan { event: true, reset_timer: true, recall_eldest: turrets >= capacity, build: true }
    }
}

/// Utaha's turret skill; see `turret_spec`.
pub fn utaha_turret_skill(q: bool, r: bool, ready: bool, turrets: usize, capacity: usize) -> (p: TurretPlan)
    ensures
        p == turret_spec(q, r, ready, turrets, capacity),
{
    if !q && !r {
        TurretPlan { event: false, reset_timer: false, recall_eldest: false, build: false }
    } else if r {
        TurretPlan { event: true, reset_timer: false, recall_eldest: true, build: false }
    } else if !ready {
        TurretPlan { event: true, reset_timer: false, recall_eldest: false, build: false }
    } else {
        TurretPlan { event: true, reset_timer: true, recall_eldest: turrets >= capacity, build: true }
    }
}

/// What each key does to the turrets, for every count and capacity: R
/// takes down the eldest turret and builds none; Q with the cooldown over
/// builds one, taking the eldest down first only when `capacity` turrets
/// already stand, so below capacity the count grows by exactly one; Q
/// during the cooldown builds and recalls nothing; either key sends the
/// skill event, and no key does anything.
pub proof fn lemma_turret_keys(q: bool, r: bool, ready: bool, turrets: usize, capacity: usize)
    ensures
        ({
            let p = turret_spec(q, r, ready, turrets, capacity);
            &&& p.event == (q || r)
            &&& r ==> p.recall_eldest && !p.build && !p.reset_timer
            &&& q && !r && ready ==> p.build && p.reset_timer && (p.recall_eldest <==> turrets >= capacity)
            &&& q && !r && ready && turrets < capacity ==> !p.recall_eldest
                && turrets_after(p, turrets as int, None) == turrets + 1
                && turrets_after(p, turrets as int, Some(0usize)) == turrets + 1
            &&& q && !r && !ready ==> !p.build && !p.recall_eldest && !p.reset_timer
            &&& !q && !r ==> !p.build && !p.recall_eldest && !p.reset_timer
        }),
{
}

/// The number of turrets standing after the turret skill: the eldest turret
/// goes only when the plan recalls it and one was found, and a build adds
/// one.
pub open spec fn turrets_after(p: TurretPlan, turrets: int, eldest: Option<usize>) -> int {
    turrets - (if p.recall_eldest && eldest is Some { 1int } else { 0 }) + (if p.build { 1int } else { 0 })
}

/// The turret count never grows past the capacity: a build at capacity
/// first takes down the eldest turret, as found by `eldest_turret` from the
/// turrets' ages. It holds except where a build at capacity finds no eldest
/// turret, which happens only when no turret has stood for any time yet.
pub proof fn lemma_turrets_within_capacity(q: bool, r: bool, ready: bool, ages: Seq<u64>, eldest: Option<usize>, capacity: usize)
    requires
        ages.len() <= capacity,
        capacity >= 1,
        eldest matches Some(i) ==> is_eldest(ages, i as int),
        eldest is None <==> (forall|j: int| 0 <= j < ages.len() ==> ages[j] == 0),
        !(q && !r && ready && ages.len() == capacity && eldest is None),
    ensures
        0 <= turrets_after(turret_spec(q, r, ready, ages.len() as usize, capacity), ages.len() as int, eldest) <= capacity,
{
}

/// The oldest turret: scanning in order, the first one whose age is larger
/// than every age seen before it (and larger than zero).
pub open spec fn is_eldest(ages: Seq<u64>, i: int) -> bool {
    &&& 0 <= i < ages.len()
    &&& ages[i] > 0
    &&& forall|j: int| 0 <= j < i ==> ages[j] < ages[i]
    &&& forall|j: int| 0 <= j < ages.len() ==> ages[j] <= ages[i]
}

/// Finds the turret that has stood longest, given the age of each turret;
/// `None` when every age is zero (or there is no turret).
pub fn eldest_turret(ages: &Vec<u64>) -> (e: Option<usize>)
    ensures
        e matches Some(i) ==> is_eldest(ages@, i as int),
        e is None <==> (forall|j: int| 0 <= j < ages@.len() ==> ages@[j] == 0),
{
    let mut best: Option<usize> = None;
    let mut life: u64 = 0;
    let mut k: usize = 0;
    while k < ages.len()
        invariant
            k <= ages@.len(),
            forall|j: int| 0 <= j < k ==> ages@[j] <= life,
            best is None ==> life == 0,
            best matches Some(i) ==> i < k && life == ages@[i as int] && life > 0
                && (forall|j: int| 0 <= j < i ==> ages@[j] < life),
        decreases ages@.len() - k,
    {
        if ages[k] > life {
            life = ages[k];
            best = Some(k);
        }
        k += 1;
    }
    best
}

/// What a robot projectile does to the player.
#[derive(Clone, Copy, Debug, PartialEq, Eq, Structural)]
pub struct BulletHit {
    /// Arisu parries with her shield: the parry blast goes off.
    pub parry: bool,
    /// The player loses health.
    pub damage: bool,
}

/// A robot projectile hits the player: a dodging Arisu parries it, a
/// dodging Shiroko or Utaha is untouched, and anyone else is hurt unless a
/// shield is up. The hurt event is sent in every case.
pub fn handle_player_bullet_collision_events(state: PlayerState, id: u8, shield_up: bool) -> (h: BulletHit)
    ensures
        h.parry == (state == PlayerState::Dodge && id == 2),
        h.damage == (state != PlayerState::Dodge && !shield_up),
{
    if state == PlayerState::Dodge {
        BulletHit { parry: id == 2, damage: false }
    } else {
        BulletHit { parry: false, damage: !shield_up }
    }
}

/// The sheet a player is shown with after switching character.
pub fn reload_sheet(state: PlayerState) -> (s: PlayerSheet)
    ensures
        s == (if state == PlayerState::Jump {
            PlayerSheet::Jump
        } else if state == PlayerState::Move {
            PlayerSheet::Move
        } else {
            PlayerSheet::Idle
        }),
{
    match state {
        PlayerState::Jump => PlayerSheet::Jump,
        PlayerState::Move => PlayerSheet::Move,
        _ => PlayerSheet::Idle,
    }
}

/// What advancing the player's animation by one frame does.
#[derive(Clone, Copy, Debug, PartialEq, Eq, Structural)]
pub struct PlayerFrame {
    pub frame: usize,
    /// The dodge ends: collisions with robots are back on.
    pub dodge_over: bool,
    /// Arisu's sword is shown again.
    pub show_gun: bool,
}

/// Next frame of Utaha's dodge, which skips frames 3, 4 and 9.
pub open spec fn utaha_dodge_next(f: usize) -> usize {
    if f < 2 {
        (f + 1) as usize
    } else if f == 2 {
        5
    } else if 5 <= f < 8 {
        (f + 1) as usize
    } else if f == 8 {
        10
    } else if 10 <= f <= 14 {
        (f + 1) as usize
    } else {
        0
    }
}

/// The player's animation rules: idle loops over 6 frames and walking over
/// 10; a jump climbs to frame 7 (skipping 3) and holds; a landing holds;
/// a dodge plays once (12 frames for Shiroko, 11 for Arisu, Utaha's with
/// skipped frames up to 15) and then turns into a landing.
pub open spec fn player_frame_spec(state: PlayerState, frame: usize, id: u8) -> (PlayerState, PlayerFrame) {
    let keep = PlayerFrame { frame, dodge_over: false, show_gun: false };
    match state {
        PlayerState::Jump => {
            let f = if frame == 2 { 4usize } else { frame };
            (state, PlayerFrame { frame: if f < 7 { (f + 1) as usize } else { f }, ..keep })
        },
        PlayerState::Jumpover => (state, keep),
        PlayerState::Dodge => if id == 1 || id == 2 {
            let f = (frame + 1) as usize;
            if (id == 1 && f == 12) || (id == 2 && f == 11) {
                (PlayerState::Jumpover, PlayerFrame { frame: 0, dodge_over: true, show_gun: id == 2 })
            } else {
                (state, PlayerFrame { frame: f, ..keep })
            }
        } else if id == 3 {
            let f = utaha_dodge_next(frame);
            if f == 15 {
                (PlayerState::Jumpover, PlayerFrame { frame: 0, dodge_over: true, show_gun: false })
            } else {
                (state, PlayerFrame { frame: f, ..keep })
            }
        } else {
            (state, keep)
        },
        PlayerState::Move => (state, PlayerFrame { frame: crate::animation::looped(frame, 10), ..keep }),
        PlayerState::Idle => (state, PlayerFrame { frame: crate::animation::looped(frame, 6), ..keep }),
    }
}

/// Advances the player's animation by one frame; see `player_frame_spec`.
pub fn animate_player(state: &mut PlayerState, frame: usize, id: u8) -> (o: PlayerFrame)
    requires
        frame < usize::MAX,
    ensures
        (*final(state), o) == player_frame_spec(*old(state), frame, id),
{
    let keep = PlayerFrame { frame, dodge_over: false, show_gun: false };
    match *state {
        PlayerState::Jump => {
            let f = if frame == 2 { 4 } else { frame };
            PlayerFrame { frame: if f < 7 { f + 1 } else { f }, ..keep }
        },
        PlayerState::Jumpover => keep,
        PlayerState::Dodge => {
            if id == 1 || id == 2 {
                let f = frame + 1;
                if (id == 1 && f == 12) || (id == 2 && f == 11) {
                    *state = PlayerState::Jumpover;
                    PlayerFrame { frame: 0, dodge_over: true, show_gun: id == 2 }
                } else {
                    PlayerFrame { frame: f, ..keep }
                }
            } else if id == 3 {
                let f = if frame < 2 {
                    frame + 1
                } else if frame == 2 {
                    5
                } else if 5 <= frame && frame < 8 {
                    frame + 1
                } else if frame == 8 {
                    10
                } else if 10 <= frame && frame <= 14 {
                    frame + 1
                } else {
                    0
                };
                if f == 15 {
                    *state = PlayerState::Jumpover;
                    PlayerFrame { frame: 0, dodge_over: true, show_gun: false }
                } else {
                    PlayerFrame { frame: f, ..keep }
                }
            } else {
                keep
            }
        },
        PlayerState::Move => PlayerFrame { frame: crate::animation::cycle_frame(frame, 10), ..keep },
        PlayerState::Idle => PlayerFrame { frame: crate::animation::cycle_frame(frame, 6), ..keep },
    }
}

/// Length of a character's dodge animation.
pub open spec fn dodge_len(id: u8) -> usize {
    if id == 1 { 12 } else if id == 2 { 11 } else { 15 }
}

/// A dodge stays within its animation and ends on time: on a frame of the
/// dodge animation, the next frame is still in the animation or the dodge is
/// over (the player lands, starting again from frame 0); for Shiroko and
/// Arisu every frame brings the end one frame closer.
pub proof fn lemma_dodge_frames_bounded(frame: usize, id: u8)
    requires
        valid_character(id),
        frame < dodge_len(id),
    ensures
        ({
            let r = player_frame_spec(PlayerState::Dodge, frame, id);
            &&& r.0 == PlayerState::Jumpover || r.0 == PlayerState::Dodge
            &&& r.0 == PlayerState::Dodge ==> r.1.frame < dodge_len(id)
            &&& r.0 == PlayerState::Jumpover ==> r.1.dodge_over && r.1.frame == 0
            &&& (id != 3 && r.0 == PlayerState::Dodge) ==> r.1.frame == frame + 1
        }),
{
}

/// How Utaha's little drone behaves: it starts shooting when a target comes
/// within range and stops when none is in range.
pub fn handle_mk1(fire: i32, in_range: bool) -> (next: i32)
    ensures
        next == (if in_range && fire == 0 { 1 } else if !in_range { 0 } else { fire }),
{
    if in_range && fire == 0 {
        1
    } else if !in_range {
        0
    } else {
        fire
    }
}

/// Where Utaha's sweep hits this frame, and how hard.
#[derive(Clone, Copy, Debug, PartialEq, Eq, Structural)]
pub enum Sweep {
    /// Around her weapon, which is swinging: normal damage.
    AtWeapon,
    /// Around herself, while she spins in her dodge: triple damage over a
    /// wider area.
    AtPlayer,
}

/// Utaha's melee: her swinging weapon hits around itself, and her dodge
/// (which takes precedence) hits around her; the other characters have no
/// melee.
pub fn handle_utaha_attack_damage(id: u8, weapon_swinging: bool, state: PlayerState) -> (s: Option<Sweep>)
    ensures
        s == (if id != 3 {
            None
        } else if state == PlayerState::Dodge {
            Some(Sweep::AtPlayer)
        } else if weapon_swinging {
            Some(Sweep::AtWeapon)
        } else {
            None
        }),
{
    if id != 3 {
        None
    } else if state == PlayerState::Dodge {
        Some(Sweep::AtPlayer)
    } else if weapon_swinging {
        Some(Sweep::AtWeapon)
    } else {
        None
    }
}

/// Shiroko's drone skill (Q): with no drone out, a press once the cooldown
/// has run out restarts the cooldown and sends out a drone. Returns whether
/// the drone is sent.
pub fn shiroko_drone_skill(drone_out: bool, q: bool, ready: bool) -> (send: bool)
    ensures
        send == (!drone_out && q && ready),
{
    !drone_out && q && ready
}

/// A grenade bursts on anything but the player who threw it.
pub fn grenade_bursts(hit_player: bool) -> (burst: bool)
    ensures
        burst == !hit_player,
{
    !hit_player
}

/// A dodge started on frame 0, `k` frames later: the state, the frame and
/// whether the dodge has just ended. Once it has ended nothing changes.
pub open spec fn dodge_after(id: u8, k: nat) -> (PlayerState, usize, bool)
    decreases k,
{
    if k == 0 {
        (PlayerState::Dodge, 0, false)
    } else {
        let prev = dodge_after(id, (k - 1) as nat);
        if prev.0 != PlayerState::Dodge {
            prev
        } else {
            let r = player_frame_spec(PlayerState::Dodge, prev.1, id);
            (r.0, r.1.frame, r.1.dodge_over)
        }
    }
}

/// How long a dodge lasts: started on frame 0, Shiroko's dodge ends after
/// 12 frames, Arisu's after 11 and Utaha's (which skips frames) after 12;
/// until then the player keeps dodging, and at the end lands, from frame 0.
pub proof fn lemma_dodge_duration(id: u8, k: nat)
    requires
        valid_character(id),
    ensures
        k < (if id == 2 { 11nat } else { 12nat }) ==> dodge_after(id, k).0 == PlayerState::Dodge,
        ({
            let end = dodge_after(id, if id == 2 { 11nat } else { 12nat });
            end.0 == PlayerState::Jumpover && end.1 == 0 && end.2
        }),
{
    lemma_dodge_timeline_shiroko();
    lemma_dodge_timeline_arisu();
    lemma_dodge_timeline_utaha();
    if k < (if id == 2 { 11nat } else { 12nat }) {
        assert(k == 0 || k == 1 || k == 2 || k == 3 || k == 4 || k == 5 || k == 6 || k == 7 || k == 8 || k == 9 || k == 10 || k == 11);
    }
}

proof fn lemma_dodge_timeline_shiroko()
    ensures
        dodge_after(1, 0) == (PlayerState::Dodge, 0usize, false),
        dodge_after(1, 1) == (PlayerState::Dodge, 1usize, false),
        dodge_after(1, 2) == (PlayerState::Dodge, 2usize, false),
        dodge_after(1, 3) == (PlayerState::Dodge, 3usize, false),
        dodge_after(1, 4) == (PlayerState::Dodge, 4usize, false),
        dodge_after(1, 5) == (PlayerState::Dodge, 5usize, false),
        dodge_after(1, 6) == (PlayerState::Dodge, 6usize, false),
        dodge_after(1, 7) == (PlayerState::Dodge, 7usize, false),
        dodge_after(1, 8) == (PlayerState::Dodge, 8usize, false),
        dodge_after(1, 9) == (PlayerState::Dodge, 9usize, false),
        dodge_after(1, 10) == (PlayerState::Dodge, 10usize, false),
        dodge_after(1, 11) == (PlayerState::Dodge, 11usize, false),
        dodge_after(1, 12) == (PlayerState::Jumpover, 0usize, true),
{
    assert(dodge_after(1, 0) == (PlayerState::Dodge, 0usize, false));
    assert(dodge_after(1, 1) == (PlayerState::Dodge, 1usize, false));
    assert(dodge_after(1, 2) == (PlayerState::Dodge, 2usize, false));
    assert(dodge_after(1, 3) == (PlayerState::Dodge, 3usize, false));
    assert(dodge_after(1, 4) == (PlayerState::Dodge, 4usize, false));
    assert(dodge_after(1, 5) == (PlayerState::Dodge, 5usize, false));
    assert(dodge_after(1, 6) == (PlayerState::Dodge, 6usize, false));
    assert(dodge_after(1, 7) == (PlayerState::Dodge, 7usize, false));
    assert(dodge_after(1, 8) == (PlayerState::Dodge, 8usize, false));
    assert(dodge_after(1, 9) == (PlayerState::Dodge, 9usize, false));
    assert(dodge_after(1, 10) == (PlayerState::Dodge, 10usize, false));
    assert(dodge_after(1, 11) == (PlayerState::Dodge, 11usize, false));
    assert(dodge_after(1, 12) == (PlayerState::Jumpover, 0usize, true));
}

proof fn lemma_dodge_timeline_arisu()
    ensures
        dodge_after(2, 0) == (PlayerState::Dodge, 0usize, false),
        dodge_after(2, 1) == (PlayerState::Dodge, 1usize, false),
        dodge_after(2, 2) == (PlayerState::Dodge, 2usize, false),
        dodge_after(2, 3) == (PlayerState::Dodge, 3usize, false),
        dodge_after(2, 4) == (PlayerState::Dodge, 4usize, false),
        dodge_after(2, 5) == (PlayerState::Dodge, 5usize, false),
        dodge_after(2, 6) == (PlayerState::Dodge, 6usize, false),
        dodge_after(2, 7) == (PlayerState::Dodge, 7usize, false),
        dodge_after(2, 8) == (PlayerState::Dodge, 8usize, false),
        dodge_after(2, 9) == (PlayerState::Dodge, 9usize, false),
        dodge_after(2, 10) == (PlayerState::Dodge, 10usize, false),
        dodge_after(2, 11) == (PlayerState::Jumpover, 0usize, true),
{
    assert(dodge_after(2, 0) == (PlayerState::Dodge, 0usize, false));
    assert(dodge_after(2, 1) == (PlayerState::Dodge, 1usize, false));
    assert(dodge_after(2, 2) == (PlayerState::Dodge, 2usize, false));
    assert(dodge_after(2, 3) == (PlayerState::Dodge, 3usize, false));
    assert(dodge_after(2, 4) == (PlayerState::Dodge, 4usize, false));
    assert(dodge_after(2, 5) == (PlayerState::Dodge, 5usize, false));
    assert(dodge_after(2, 6) == (PlayerState::Dodge, 6usize, false));
    assert(dodge_after(2, 7) == (PlayerState::Dodge, 7usize, false));
    assert(dodge_after(2, 8) == (PlayerState::Dodge, 8usize, false));
    assert(dodge_after(2, 9) == (PlayerState::Dodge, 9usize, false));
    assert(dodge_after(2, 10) == (PlayerState::Dodge, 10usize, false));
    assert(dodge_after(2, 11) == (PlayerState::Jumpover, 0usize, true));
}

proof fn lemma_dodge_timeline_utaha()
    ensures
        dodge_after(3, 0) == (PlayerState::Dodge, 0usize, false),
        dodge_after(3, 1) == (PlayerState::Dodge, 1usize, false),
        dodge_after(3, 2) == (PlayerState::Dodge, 2usize, false),
        dodge_after(3, 3) == (PlayerState::Dodge, 5usize, false),
        dodge_after(3, 4) == (PlayerState::Dodge, 6usize, false),
        dodge_after(3, 5) == (PlayerState::Dodge, 7usize, false),
        dodge_after(3, 6) == (PlayerState::Dodge, 8usize, false),
        dodge_after(3, 7) == (PlayerState::Dodge, 10usize, false),
        dodge_after(3, 8) == (PlayerState::Dodge, 11usize, false),
        dodge_after(3, 9) == (PlayerState::Dodge, 12usize, false),
        dodge_after(3, 10) == (PlayerState::Dodge, 13usize, false),
        dodge_after(3, 11) == (PlayerState::Dodge, 14usize, false),
        dodge_after(3, 12) == (PlayerState::Jumpover, 0usize, true),
{
    assert(dodge_after(3, 0) == (PlayerState::Dodge, 0usize, false));
    assert(dodge_after(3, 1) == (PlayerState::Dodge, 1usize, false));
    assert(dodge_after(3, 2) == (PlayerState::Dodge, 2usize, false));
    assert(dodge_after(3, 3) == (PlayerState::Dodge, 5usize, false));
    assert(dodge_after(3, 4) == (PlayerState::Dodge, 6usize, false));
    assert(dodge_after(3, 5) == (PlayerState::Dodge, 7usize, false));
    assert(dodge_after(3, 6) == (PlayerState::Dodge, 8usize, false));
    assert(dodge_after(3, 7) == (PlayerState::Dodge, 10usize, false));
    assert(dodge_after(3, 8) == (PlayerState::Dodge, 11usize, false));
    assert(dodge_after(3, 9) == (PlayerState::Dodge, 12usize, false));
    assert(dodge_after(3, 10) == (PlayerState::Dodge, 13usize, false));
    assert(dodge_after(3, 11) == (PlayerState::Dodge, 14usize, false));
    assert(dodge_after(3, 12) == (PlayerState::Jumpover, 0usize, true));
}

/// The dodge key: with the cooldown over, a press by a player who is not
/// dodging starts a dodge (cancelling the fall of a jump; Arisu parries and
/// hides her sword, the others pass through robots) and restarts the
/// cooldown; a press during a dodge only restarts the cooldown; without a
/// press or before the cooldown is over nothing happens.
pub proof fn lemma_dodge_key(state: PlayerState, pressed: bool, ready: bool, id: u8)
    ensures
        ({
            let (n, o) = skill2_spec(state, pressed, ready, id);
            &&& pressed && ready && state != PlayerState::Dodge ==> n == PlayerState::Dodge && o.start && o.reset_timer
                && (o.stop_fall <==> state == PlayerState::Jump) && (o.hide_gun <==> id == 2) && (o.pass_through <==> id != 2)
            &&& pressed && ready && state == PlayerState::Dodge ==> n == state && o.reset_timer && !o.start
                && !o.stop_fall && !o.hide_gun && !o.pass_through
            &&& !(pressed && ready) ==> n == state && !o.reset_timer && !o.start && !o.stop_fall && !o.hide_gun
                && !o.pass_through
        }),
{
}

/// Walking in a room: a dodging Shiroko or Utaha dashes (Arisu stands) and
/// nothing else moves; otherwise each held key adds two units in its
/// direction (left and down negative), the player walks while a key is held
/// (with the run event) and idles otherwise, and the sheet changes only
/// when the state does, starting from frame 0.
pub proof fn lemma_room_walk(state: PlayerState, keys: MoveKeys, id: u8)
    ensures
        ({
            let (n, o) = move3_spec(state, keys, id);
            &&& state == PlayerState::Dodge ==> n == state && o.dx == 0 && o.dy == 0 && o.sheet is None
                && !o.run_event && (o.dash <==> (id == 1 || id == 3))
            &&& state != PlayerState::Dodge ==> !o.dash
                && o.dx == (if keys.right { 2int } else { 0 }) - (if keys.left { 2int } else { 0 })
                && o.dy == (if keys.jump { 2int } else { 0 }) - (if keys.down { 2int } else { 0 })
                && (n == PlayerState::Move <==> (keys.jump || keys.left || keys.down || keys.right))
                && (n == PlayerState::Idle <==> !(keys.jump || keys.left || keys.down || keys.right))
                && o.run_event == (n == PlayerState::Move)
                && (o.sheet is None <==> n == state)
                && (o.sheet is Some ==> o.sheet.unwrap().frame == 0)
        }),
{
}

/// Lobby movement: the down key on the ground above the floor drops the
/// player through the platform into a jump; the jump key starts a jump,
/// with the jump event, only when the player (after a drop) is neither
/// jumping nor dodging; the horizontal step is right minus left, plus two
/// in the facing direction for a dodging Shiroko or Utaha; a jumping player
/// who is on the ground lands and stops falling.
pub proof fn lemma_lobby_move(state: PlayerState, keys: MoveKeys, ground: bool, above_floor: bool, id: u8, facing_left: bool)
    ensures
        ({
            let r = move2_spec(state, keys, ground, above_floor, id, facing_left);
            let drop = keys.down && ground && above_floor;
            let after_drop = if drop { PlayerState::Jump } else { state };
            let launch = keys.jump && after_drop != PlayerState::Jump && after_drop != PlayerState::Dodge;
            &&& r.4 == drop
            &&& r.3 == launch
            &&& r.2 == (keys.jump || keys.left || keys.down || keys.right)
            &&& r.5 == (if keys.right { 1int } else { 0 }) - (if keys.left { 1int } else { 0 })
                + (if after_drop == PlayerState::Dodge && !launch && (id == 1 || id == 3) {
                    if facing_left { -2int } else { 2int }
                } else {
                    0
                })
            &&& launch ==> r.6.take(3) == seq![VelocityOp::SetJumpSpeed, VelocityOp::RiseByV, VelocityOp::Gravity]
            &&& (after_drop == PlayerState::Jump || launch) && ground ==> r.0 == PlayerState::Jumpover
                && r.6.last() == VelocityOp::Stop
        }),
{
}

} // verus!
