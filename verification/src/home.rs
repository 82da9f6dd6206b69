use vstd::prelude::*;
use crate::animation::{cycle_frame, looped};

verus! {

/// Sora, who sleeps at the lobby's counter: dozing in a loop, waking up, or
/// falling asleep again.
#[derive(Clone, Copy, Debug, PartialEq, Eq, Structural)]
pub enum SoraState {
    Loop,
    Awake,
    Asleep,
}

/// The lobby's fridge, which is the way into a run.
#[derive(Clone, Copy, Debug, PartialEq, Eq, Structural)]
pub enum FridgeState {
    Loop,
    Open,
    Close,
}

/// The sheets Sora and the fridge switch to.
#[derive(Clone, Copy, Debug, PartialEq, Eq, Structural)]
pub enum HomeSheet {
    SoraAwake,
    SoraAsleep,
    SoraLoop,
    FridgeOpenClose,
    FridgeLoop,
}

/// What the lobby's characters do this frame.
#[derive(Clone, Copy, Debug, PartialEq, Eq, Structural)]
pub struct HomeReaction {
    /// Sora switches sheet (starting at frame 0).
    pub sora_sheet: Option<HomeSheet>,
    /// The fridge switches sheet (starting at frame 0).
    pub fridge_sheet: Option<HomeSheet>,
    /// The run begins: the game goes to its loading screen.
    pub start_run: bool,
}

/// The lobby's characters react to the player: Sora wakes when the player
/// comes close and falls asleep when the player leaves; the fridge opens when
/// the player comes close, starts a run when the use key is pressed while it
/// is open, and closes when the player leaves.
pub open spec fn home_spec(sora: SoraState, fridge: FridgeState, near_sora: bool, near_fridge: bool, use_pressed: bool)
    -> (SoraState, FridgeState, HomeReaction)
{
    let (s, ss) = if near_sora {
        if sora == SoraState::Loop { (SoraState::Awake, Some(HomeSheet::SoraAwake)) } else { (sora, None) }
    } else {
        if sora == SoraState::Awake { (SoraState::Asleep, Some(HomeSheet::SoraAsleep)) } else { (sora, None) }
    };
    let (f, fs, start) = if near_fridge {
        if fridge == FridgeState::Loop {
            (FridgeState::Open, Some(HomeSheet::FridgeOpenClose), false)
        } else {
            (fridge, None, fridge == FridgeState::Open && use_pressed)
        }
    } else {
        if fridge == FridgeState::Open { (FridgeState::Close, None, false) } else { (fridge, None, false) }
    };
    (s, f, HomeReaction { sora_sheet: ss, fridge_sheet: fs, start_run: start })
}

/// The lobby's characters react to the player; see `home_spec`.
pub fn check_state(sora: &mut SoraState, fridge: &mut FridgeState, near_sora: bool, near_fridge: bool, use_pressed: bool) -> (r: HomeReaction)
    ensures
        (*final(sora), *final(fridge), r) == home_spec(*old(sora), *old(fridge), near_sora, near_fridge, use_pressed),
{
    let mut sora_sheet = None;
    if near_sora {
        if *sora == SoraState::Loop {
            *sora = SoraState::Awake;
            sora_sheet = Some(HomeSheet::SoraAwake);
        }
    } else if *sora == SoraState::Awake {
        *sora = SoraState::Asleep;
        sora_sheet = Some(HomeSheet::SoraAsleep);
    }
    let mut fridge_sheet = None;
    let mut start_run = false;
    if near_fridge {
        if *fridge == FridgeState::Loop {
            *fridge = FridgeState::Open;
            fridge_sheet = Some(HomeSheet::FridgeOpenClose);
        } else if *fridge == FridgeState::Open && use_pressed {
            start_run = true;
        }
    } else if *fridge == FridgeState::Open {
        *fridge = FridgeState::Close;
    }
    HomeReaction { sora_sheet, fridge_sheet, start_run }
}

/// A run can only be started from an open fridge, by the player standing
/// next to it.
pub proof fn lemma_run_starts_at_open_fridge(sora: SoraState, fridge: FridgeState, near_sora: bool, near_fridge: bool, use_pressed: bool)
    ensures
        home_spec(sora, fridge, near_sora, near_fridge, use_pressed).2.start_run
            ==> fridge == FridgeState::Open && near_fridge && use_pressed,
{
}

/// Sora's animation: the doze loops over 8 frames, waking up holds on frame
/// 13, and falling asleep plays up to frame 18 and returns to the doze loop.
pub open spec fn sora_frame_spec(state: SoraState, frame: usize) -> (SoraState, usize, Option<HomeSheet>) {
    match state {
        SoraState::Loop => (state, looped(frame, 8), None),
        SoraState::Awake => (state, if frame != 13 { (frame + 1) as usize } else { frame }, None),
        SoraState::Asleep => if frame + 1 == 18 {
            (SoraState::Loop, 0, Some(HomeSheet::SoraLoop))
        } else {
            (state, (frame + 1) as usize, None)
        },
    }
}

/// Advances Sora's animation by one frame; see `sora_frame_spec`.
pub fn animate_sora(state: &mut SoraState, frame: usize) -> (r: (usize, Option<HomeSheet>))
    requires
        frame < usize::MAX,
    ensures
        (*final(state), r.0, r.1) == sora_frame_spec(*old(state), frame),
{
    match *state {
        SoraState::Loop => (cycle_frame(frame, 8), None),
        SoraState::Awake => (if frame != 13 { frame + 1 } else { frame }, None),
        SoraState::Asleep => {
            if frame + 1 == 18 {
                *state = SoraState::Loop;
                (0, Some(HomeSheet::SoraLoop))
            } else {
                (frame + 1, None)
            }
        },
    }
}

/// The fridge's animation: idle it loops over 24 frames, opening holds on
/// frame 6, and closing plays up to frame 14 and returns to the idle loop.
pub open spec fn fridge_frame_spec(state: FridgeState, frame: usize) -> (FridgeState, usize, Option<HomeSheet>) {
    match state {
        FridgeState::Loop => (state, looped(frame, 24), None),
        FridgeState::Open => (state, if frame != 6 { (frame + 1) as usize } else { frame }, None),
        FridgeState::Close => if frame + 1 == 14 {
            (FridgeState::Loop, 0, Some(HomeSheet::FridgeLoop))
        } else {
            (state, (frame + 1) as usize, None)
        },
    }
}

/// Advances the fridge's animation by one frame; see `fridge_frame_spec`.
pub fn animate_fridge(state: &mut FridgeState, frame: usize) -> (r: (usize, Option<HomeSheet>))
    requires
        frame < usize::MAX,
    ensures
        (*final(state), r.0, r.1) == fridge_frame_spec(*old(state), frame),
{
    match *state {
        FridgeState::Loop => (cycle_frame(frame, 24), None),
        FridgeState::Open => (if frame != 6 { frame + 1 } else { frame }, None),
        FridgeState::Close => {
            if frame + 1 == 14 {
                *state = FridgeState::Loop;
                (0, Some(HomeSheet::FridgeLoop))
            } else {
                (frame + 1, None)
            }
        },
    }
}

/// How the lobby reacts, for every input: Sora wakes up (from her doze,
/// with the waking sheet) exactly when the player comes near while she
/// dozes, and falls asleep (with the falling-asleep sheet) exactly when the
/// player is away while she is awake; the fridge opens (with its sheet)
/// exactly when the player comes near while it idles, closes exactly when
/// the player is away while it is open, and starts a run exactly when the
/// player is near it while it is open and presses the use key; nothing
/// else changes.
pub proof fn lemma_lobby_reacts(sora: SoraState, fridge: FridgeState, near_sora: bool, near_fridge: bool, use_pressed: bool)
    ensures
        ({
            let (s, f, r) = home_spec(sora, fridge, near_sora, near_fridge, use_pressed);
            &&& (s == SoraState::Awake && sora == SoraState::Loop) <==> (near_sora && sora == SoraState::Loop)
            &&& (s == SoraState::Asleep && sora == SoraState::Awake) <==> (!near_sora && sora == SoraState::Awake)
            &&& s != sora ==> (near_sora && sora == SoraState::Loop) || (!near_sora && sora == SoraState::Awake)
            &&& r.sora_sheet == (if s == sora { None } else if s == SoraState::Awake { Some(HomeSheet::SoraAwake) } else { Some(HomeSheet::SoraAsleep) })
            &&& (f == FridgeState::Open && fridge == FridgeState::Loop) <==> (near_fridge && fridge == FridgeState::Loop)
            &&& (f == FridgeState::Close && fridge == FridgeState::Open) <==> (!near_fridge && fridge == FridgeState::Open)
            &&& f != fridge ==> (near_fridge && fridge == FridgeState::Loop) || (!near_fridge && fridge == FridgeState::Open)
            &&& r.fridge_sheet == (if f == FridgeState::Open && fridge == FridgeState::Loop { Some(HomeSheet::FridgeOpenClose) } else { None })
            &&& r.start_run <==> (near_fridge && fridge == FridgeState::Open && use_pressed)
        }),
{
}

/// The lobby animations: Sora's doze loops over frames 0 to 7, waking up
/// climbs to frame 13 and holds there, and falling asleep climbs to frame
/// 17 and then returns to the doze loop from frame 0; the fridge idles over
/// frames 0 to 23, opening climbs to frame 6 and holds, and closing climbs
/// to frame 13 and then returns to idling from frame 0.
pub proof fn lemma_lobby_animations(frame: usize)
    requires
        frame < usize::MAX,
    ensures
        sora_frame_spec(SoraState::Loop, frame).0 == SoraState::Loop && sora_frame_spec(SoraState::Loop, frame).1 < 8,
        frame < 7 ==> sora_frame_spec(SoraState::Loop, frame).1 == frame + 1,
        frame == 7 ==> sora_frame_spec(SoraState::Loop, frame).1 == 0,
        frame < 13 ==> sora_frame_spec(SoraState::Awake, frame) == (SoraState::Awake, (frame + 1) as usize, None::<HomeSheet>),
        sora_frame_spec(SoraState::Awake, 13) == (SoraState::Awake, 13usize, None::<HomeSheet>),
        frame < 17 ==> sora_frame_spec(SoraState::Asleep, frame) == (SoraState::Asleep, (frame + 1) as usize, None::<HomeSheet>),
        sora_frame_spec(SoraState::Asleep, 17) == (SoraState::Loop, 0usize, Some(HomeSheet::SoraLoop)),
        fridge_frame_spec(FridgeState::Loop, frame).0 == FridgeState::Loop && fridge_frame_spec(FridgeState::Loop, frame).1 < 24,
        frame < 23 ==> fridge_frame_spec(FridgeState::Loop, frame).1 == frame + 1,
        frame == 23 ==> fridge_frame_spec(FridgeState::Loop, frame).1 == 0,
        frame < 6 ==> fridge_frame_spec(FridgeState::Open, frame) == (FridgeState::Open, (frame + 1) as usize, None::<HomeSheet>),
        fridge_frame_spec(FridgeState::Open, 6) == (FridgeState::Open, 6usize, None::<HomeSheet>),
        frame < 13 ==> fridge_frame_spec(FridgeState::Close, frame) == (FridgeState::Close, (frame + 1) as usize, None::<HomeSheet>),
        fridge_frame_spec(FridgeState::Close, 13) == (FridgeState::Loop, 0usize, Some(HomeSheet::FridgeLoop)),
{
    if frame < 7 {
        vstd::arithmetic::div_mod::lemma_small_mod((frame + 1) as nat, 8);
    }
    if frame < 23 {
        vstd::arithmetic::div_mod::lemma_small_mod((frame + 1) as nat, 24);
    }
    vstd::arithmetic::div_mod::lemma_mod_pos_bound(frame as int + 1, 8);
    vstd::arithmetic::div_mod::lemma_mod_pos_bound(frame as int + 1, 24);
}

} // verus!
